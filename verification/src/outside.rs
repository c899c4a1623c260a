//! The calls into `tracing`, `tracing-subscriber`, `tracing-opentelemetry`
//! and `opentelemetry`, and the types of theirs that pass through this crate.
//!
//! Nothing here is proved. The types are opaque, and no call below comes
//! with a promise about what it returns.

use crate::options::FormatOptions;
use opentelemetry::sdk::export::trace::stdout;
use opentelemetry::sdk::trace::Tracer;
use tracing::dispatcher::SetGlobalDefaultError;
use tracing::Dispatch;
use tracing_subscriber::fmt::format::{Compact, Format};
use tracing_subscriber::fmt::time::SystemTime;
use tracing_subscriber::layer::SubscriberExt;
use tracing_subscriber::Registry;
use vstd::prelude::*;

verus! {

/// `tracing_subscriber::fmt::format::Format`, the event formatter; opaque.
#[verifier::external_type_specification]
#[verifier::external_body]
#[verifier::reject_recursive_types(F)]
#[verifier::reject_recursive_types(T)]
pub struct ExFormat<F, T>(Format<F, T>);

/// `tracing_subscriber::fmt::format::Compact`, the marker of the compact
/// layout; opaque.
#[verifier::external_type_specification]
#[verifier::external_body]
pub struct ExCompact(Compact);

/// `tracing_subscriber::fmt::time::SystemTime`, the formatter's default
/// clock; opaque.
#[verifier::external_type_specification]
#[verifier::external_body]
pub struct ExSystemTime(SystemTime);

/// `opentelemetry::sdk::trace::Tracer`; opaque.
#[verifier::external_type_specification]
#[verifier::external_body]
pub struct ExTracer(Tracer);

/// `tracing::Dispatch`, a handle to a subscriber; opaque.
#[verifier::external_type_specification]
#[verifier::external_body]
pub struct ExDispatch(Dispatch);

/// `tracing::dispatcher::SetGlobalDefaultError`; opaque.
#[verifier::external_type_specification]
#[verifier::external_body]
pub struct ExSetGlobalDefaultError(SetGlobalDefaultError);

/// Builds the compact event formatter with `tracing_subscriber::fmt::format()`
/// and its `with_*` setters, handing each flag of `options` to the setter of
/// the same name, then `compact()`. Nothing is claimed of the formatter.
#[verifier::external_body]
pub(crate) fn compact_format(options: &FormatOptions) -> Format<Compact, SystemTime> {
    tracing_subscriber::fmt::format()
        .with_level(options.level)
        .with_target(options.target)
        .with_thread_ids(options.thread_ids)
        .with_thread_names(options.thread_names)
        .with_line_number(options.line_number)
        .with_file(options.file)
        .compact()
}

/// Calls `stdout::new_pipeline().install_simple()` of `opentelemetry`, which
/// starts an exporter of finished spans to standard output, makes its
/// provider the process-wide one and returns a tracer of it. Nothing is
/// claimed of the tracer. The call takes the lock on the process-wide
/// provider, and panics where an earlier panic has poisoned that lock.
#[verifier::external_body]
pub(crate) fn stdout_tracer() -> Tracer {
    stdout::new_pipeline().install_simple()
}

/// Stacks a console layer (`tracing_subscriber::fmt::layer()` with `format`
/// as its `event_format`) and a telemetry layer
/// (`tracing_opentelemetry::layer()` with `tracer` as its `with_tracer`) on a
/// `Registry`, and wraps the subscriber in `Dispatch::new`. Nothing is
/// claimed of the subscriber. `Dispatch::new` takes the locks of the
/// callsite registry, and panics where an earlier panic has poisoned one.
#[verifier::external_body]
pub(crate) fn layered(format: Format<Compact, SystemTime>, tracer: Tracer) -> Dispatch {
    let console = tracing_subscriber::fmt::layer().event_format(format);
    let telemetry = tracing_opentelemetry::layer().with_tracer(tracer);
    Dispatch::new(Registry::default().with(console).with(telemetry))
}

/// Calls `tracing::dispatcher::set_global_default`. Whether it succeeds
/// depends on whether the process already has a global default, so nothing
/// is claimed of the result.
#[verifier::external_body]
pub(crate) fn set_global_default(subscriber: Dispatch) -> Result<(), SetGlobalDefaultError> {
    tracing::dispatcher::set_global_default(subscriber)
}

} // verus!
