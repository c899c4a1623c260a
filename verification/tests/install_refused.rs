use tracing_pipeline::pipeline::{configure_tracing, ConfigError, Pipeline};
use tracing_subscriber::fmt::format::{Compact, Format};
use tracing_subscriber::Registry;

#[test]
fn a_process_with_a_subscriber_refuses_the_pipeline() {
    tracing::subscriber::set_global_default(Registry::default())
        .expect("the process has no global subscriber yet");

    let mut pipeline = Pipeline::new();
    assert_eq!(configure_tracing(&mut pipeline), Err(ConfigError::AlreadyInstalled));
    assert_eq!(pipeline.options(), None);

    // The subscriber that was there first is still the global one.
    let has_formatter =
        tracing::dispatcher::get_default(|d| d.downcast_ref::<Format<Compact>>().is_some());
    assert!(!has_formatter);

    // Trying again does not help.
    assert_eq!(configure_tracing(&mut pipeline), Err(ConfigError::AlreadyInstalled));
    assert_eq!(pipeline.options(), None);
}
