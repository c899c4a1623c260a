//! Display options of the console event format.

use vstd::prelude::*;

verus! {

/// Which parts of an event the console formatter is asked to show.
///
/// The formatter keeps no flag of its own for the source location: asking
/// for it asks for the file and the line number together.
#[derive(Clone, Copy, Debug, PartialEq, Eq, Structural)]
pub struct FormatOptions {
    pub level: bool,
    pub target: bool,
    pub thread_ids: bool,
    pub thread_names: bool,
    pub line_number: bool,
    pub file: bool,
}

/// Every option switched on: the options the pipeline is installed with.
pub open spec fn standard_options() -> FormatOptions {
    FormatOptions {
        level: true,
        target: true,
        thread_ids: true,
        thread_names: true,
        line_number: true,
        file: true,
    }
}

impl FormatOptions {
    /// The options a fresh formatter starts with: level and target shown,
    /// everything else hidden.
    pub fn new() -> (o: FormatOptions)
        ensures
            o == (FormatOptions {
                level: true,
                target: true,
                thread_ids: false,
                thread_names: false,
                line_number: false,
                file: false,
            }),
    {
        FormatOptions {
            level: true,
            target: true,
            thread_ids: false,
            thread_names: false,
            line_number: false,
            file: false,
        }
    }

    /// Sets whether the event's level is shown.
    pub fn with_level(self, show: bool) -> (o: FormatOptions)
        ensures
            o == (FormatOptions { level: show, ..self }),
    {
        FormatOptions { level: show, ..self }
    }

    /// Sets whether the event's target is shown.
    pub fn with_target(self, show: bool) -> (o: FormatOptions)
        ensures
            o == (FormatOptions { target: show, ..self }),
    {
        FormatOptions { target: show, ..self }
    }

    /// Sets whether the id of the emitting thread is shown.
    pub fn with_thread_ids(self, show: bool) -> (o: FormatOptions)
        ensures
            o == (FormatOptions { thread_ids: show, ..self }),
    {
        FormatOptions { thread_ids: show, ..self }
    }

    /// Sets whether the name of the emitting thread is shown.
    pub fn with_thread_names(self, show: bool) -> (o: FormatOptions)
        ensures
            o == (FormatOptions { thread_names: show, ..self }),
    {
        FormatOptions { thread_names: show, ..self }
    }

    /// Sets whether the line number of the event's source is shown.
    pub fn with_line_number(self, show: bool) -> (o: FormatOptions)
        ensures
            o == (FormatOptions { line_number: show, ..self }),
    {
        FormatOptions { line_number: show, ..self }
    }

    /// Sets whether the file of the event's source is shown.
    pub fn with_file(self, show: bool) -> (o: FormatOptions)
        ensures
            o == (FormatOptions { file: show, ..self }),
    {
        FormatOptions { file: show, ..self }
    }

    /// Sets whether the source location is shown: the file and the line
    /// number, both at once.
    pub fn with_source_location(self, show: bool) -> (o: FormatOptions)
        ensures
            o == (FormatOptions { line_number: show, file: show, ..self }),
    {
        self.with_line_number(show).with_file(show)
    }
}

} // verus!
