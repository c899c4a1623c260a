//! Installing the tracing pipeline, once per process.

use crate::options::{standard_options, FormatOptions};
use crate::outside::{compact_format, layered, set_global_default, stdout_tracer};
use vstd::prelude::*;

verus! {

/// Why an installation did not take place.
#[derive(Clone, Copy, Debug, PartialEq, Eq, Structural)]
pub enum ConfigError {
    /// The process already has a global subscriber.
    AlreadyInstalled,
}

/// The state of the pipeline as the holder of this value knows it: the
/// options it was installed with, once it is installed.
#[derive(Debug)]
pub struct Pipeline {
    installed: Option<FormatOptions>,
}

impl View for Pipeline {
    type V = Option<FormatOptions>;

    closed spec fn view(&self) -> Option<FormatOptions> {
        self.installed
    }
}

/// One attempt to install with `options` on a pipeline in state `before`,
/// where `accepted` says whether the process took the subscriber as its
/// global one: the state afterwards, and what the attempt returns.
///
/// An installed pipeline refuses the attempt, whatever `accepted` says.
pub open spec fn attempt(before: Option<FormatOptions>, options: FormatOptions, accepted: bool) -> (
    Option<FormatOptions>,
    Result<(), ConfigError>,
) {
    if before is None && accepted {
        (Some(options), Ok(()))
    } else {
        (before, Err(ConfigError::AlreadyInstalled))
    }
}

impl Pipeline {
    /// A pipeline that is not installed yet.
    pub fn new() -> (p: Pipeline)
        ensures
            p@ is None,
    {
        Pipeline { installed: None }
    }

    /// The options the pipeline was installed with, if it is installed.
    pub fn options(&self) -> (o: Option<FormatOptions>)
        ensures
            o == self@,
    {
        self.installed
    }

    /// Records the outcome of one attempt to install with `options`.
    pub fn record(&mut self, options: FormatOptions, accepted: bool) -> (r: Result<(), ConfigError>)
        ensures
            (final(self)@, r) == attempt(old(self)@, options, accepted),
    {
        if self.installed.is_none() && accepted {
            self.installed = Some(options);
            Ok(())
        } else {
            Err(ConfigError::AlreadyInstalled)
        }
    }
}

/// Installs the pipeline: a console layer in the compact layout with every
/// display option switched on, and a layer that exports finished spans to
/// standard output, as the process's global subscriber.
///
/// On a pipeline that is installed already nothing is built and the call
/// fails. Otherwise the process decides: it refuses if some subscriber is
/// its global one already.
pub fn configure_tracing(pipeline: &mut Pipeline) -> (r: Result<(), ConfigError>)
    ensures
        old(pipeline)@ is Some ==> r is Err,
        r is Ok ==> final(pipeline)@ == Some(standard_options()),
        r is Err ==> r == Err::<(), ConfigError>(ConfigError::AlreadyInstalled),
        r is Err ==> final(pipeline)@ == old(pipeline)@,
        // The call is one attempt with every option on; its result tells
        // whether the process accepted the subscriber.
        (final(pipeline)@, r) == attempt(old(pipeline)@, standard_options(), r is Ok),
{
    if pipeline.installed.is_some() {
        return Err(ConfigError::AlreadyInstalled);
    }
    let options = FormatOptions::new()
        .with_level(true)
        .with_target(true)
        .with_thread_ids(true)
        .with_thread_names(true)
        .with_line_number(true)
        .with_source_location(true)
        .with_file(true);
    let format = compact_format(&options);
    let tracer = stdout_tracer();
    let subscriber = layered(format, tracer);
    let accepted = set_global_default(subscriber).is_ok();
    pipeline.record(options, accepted)
}

/// Once an attempt has succeeded, every later attempt on that pipeline
/// fails, whatever options it brings and whatever the process would say.
pub proof fn second_attempt_fails(
    before: Option<FormatOptions>,
    first: FormatOptions,
    first_accepted: bool,
    second: FormatOptions,
    second_accepted: bool,
)
    requires
        attempt(before, first, first_accepted).1 is Ok,
    ensures
        attempt(attempt(before, first, first_accepted).0, second, second_accepted).1 is Err,
{
}

/// The options of an installed pipeline never change.
pub proof fn installed_options_stay(
    before: Option<FormatOptions>,
    options: FormatOptions,
    accepted: bool,
)
    requires
        before is Some,
    ensures
        attempt(before, options, accepted).0 == before,
{
}

} // verus!
