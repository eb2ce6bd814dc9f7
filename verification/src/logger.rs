//! Progress reporting, modeled as a sequence of phase events.
//!
//! The [`Logger`] records which phase the orchestrator announced, in order,
//! and renders each event to its exact progress line.  The surrounding
//! binary writes the rendered lines to the terminal; nothing here depends
//! on terminal formatting.

use vstd::prelude::*;
use vstd::string::StringExecFns;

verus! {

/// The mathematical model of a [`LogEvent`].
pub enum LogEventView {
    /// A library compile step was announced.
    CompilingLib { crate_name: Seq<char> },
    /// A binary compile step was announced.
    CompilingBin { crate_name: Seq<char> },
    /// The end of a compilation sequence was announced.
    DoneCompiling,
    /// A unit-test run of the given source file was announced.
    UnitTest { file: Seq<char> },
    /// A file-based test run with the given label was announced.
    FileTest { label: Seq<char> },
    /// A documentation-test run was announced.
    DocTest { crate_name: Seq<char> },
}

/// One phase announcement of the orchestrator.
#[derive(Debug)]
pub enum LogEvent {
    /// A library compile step was announced.
    CompilingLib { crate_name: String },
    /// A binary compile step was announced.
    CompilingBin { crate_name: String },
    /// The end of a compilation sequence was announced.
    DoneCompiling,
    /// A unit-test run of the given source file was announced.
    UnitTest { file: String },
    /// A file-based test run with the given label was announced.
    FileTest { label: String },
    /// A documentation-test run was announced.
    DocTest { crate_name: String },
}

impl View for LogEvent {
    type V = LogEventView;

    open spec fn view(&self) -> LogEventView {
        match self {
            LogEvent::CompilingLib { crate_name } => LogEventView::CompilingLib {
                crate_name: crate_name@,
            },
            LogEvent::CompilingBin { crate_name } => LogEventView::CompilingBin {
                crate_name: crate_name@,
            },
            LogEvent::DoneCompiling => LogEventView::DoneCompiling,
            LogEvent::UnitTest { file } => LogEventView::UnitTest { file: file@ },
            LogEvent::FileTest { label } => LogEventView::FileTest { label: label@ },
            LogEvent::DocTest { crate_name } => LogEventView::DocTest {
                crate_name: crate_name@,
            },
        }
    }
}

impl DeepView for LogEvent {
    type V = LogEventView;

    open spec fn deep_view(&self) -> LogEventView {
        self.view()
    }
}

/// The exact progress line each event renders to.
pub open spec fn spec_event_line(e: LogEventView) -> Seq<char> {
    match e {
        LogEventView::CompilingLib { crate_name } => "   Compiling lib "@ + crate_name + "\n"@,
        LogEventView::CompilingBin { crate_name } => "   Compiling bin "@ + crate_name + "\n"@,
        LogEventView::DoneCompiling => "    Finished dev\n"@,
        LogEventView::UnitTest { file } => "     Running unittests "@ + file + "\n"@,
        LogEventView::FileTest { label } => "     Running tests "@ + label + "\n"@,
        LogEventView::DocTest { crate_name } => "   Doc-tests "@ + crate_name + "\n"@,
    }
}

impl LogEvent {
    /// Renders the event to its progress line.
    pub fn line(&self) -> (r: String)
        ensures
            r@ == spec_event_line(self@),
    {
        match self {
            LogEvent::CompilingLib { crate_name } => "   Compiling lib ".to_owned().concat(
                crate_name.as_str(),
            ).concat("\n"),
            LogEvent::CompilingBin { crate_name } => "   Compiling bin ".to_owned().concat(
                crate_name.as_str(),
            ).concat("\n"),
            LogEvent::DoneCompiling => "    Finished dev\n".to_owned(),
            LogEvent::UnitTest { file } => "     Running unittests ".to_owned().concat(
                file.as_str(),
            ).concat("\n"),
            LogEvent::FileTest { label } => "     Running tests ".to_owned().concat(
                label.as_str(),
            ).concat("\n"),
            LogEvent::DocTest { crate_name } => "   Doc-tests ".to_owned().concat(
                crate_name.as_str(),
            ).concat("\n"),
        }
    }
}

/// A record of the phase events announced so far, in order.  Its view is
/// the sequence of event models.
pub struct Logger {
    events: Vec<LogEvent>,
}

impl View for Logger {
    type V = Seq<LogEventView>;

    closed spec fn view(&self) -> Seq<LogEventView> {
        self.events.deep_view()
    }
}

impl Logger {
    /// Creates a logger with no events announced yet.
    pub fn new() -> (r: Logger)
        ensures
            r@ == Seq::<LogEventView>::empty(),
    {
        let l = Logger { events: Vec::new() };
        proof {
            assert(l.events.deep_view() =~= Seq::<LogEventView>::empty());
        }
        l
    }

    /// Appends one event and returns its rendered progress line.
    fn announce(&mut self, event: LogEvent) -> (r: String)
        ensures
            final(self)@ == old(self)@.push(event@),
            r@ == spec_event_line(event@),
    {
        let line = event.line();
        let ghost prev = self.events.deep_view();
        let ghost ev = event@;
        self.events.push(event);
        proof {
            assert(self.events.deep_view() =~= prev.push(ev));
        }
        line
    }

    /// Announces the compilation of the project's library.
    pub fn compiling_crate(&mut self, crate_name: &str) -> (r: String)
        ensures
            final(self)@ == old(self)@.push(
                LogEventView::CompilingLib { crate_name: crate_name@ },
            ),
            r@ == spec_event_line(LogEventView::CompilingLib { crate_name: crate_name@ }),
    {
        self.announce(LogEvent::CompilingLib { crate_name: crate_name.to_owned() })
    }

    /// Announces the compilation of the project's binary.
    pub fn compiling_bin(&mut self, crate_name: &str) -> (r: String)
        ensures
            final(self)@ == old(self)@.push(
                LogEventView::CompilingBin { crate_name: crate_name@ },
            ),
            r@ == spec_event_line(LogEventView::CompilingBin { crate_name: crate_name@ }),
    {
        self.announce(LogEvent::CompilingBin { crate_name: crate_name.to_owned() })
    }

    /// Announces the end of a compilation sequence.
    pub fn done_compiling(&mut self) -> (r: String)
        ensures
            final(self)@ == old(self)@.push(LogEventView::DoneCompiling),
            r@ == spec_event_line(LogEventView::DoneCompiling),
    {
        self.announce(LogEvent::DoneCompiling)
    }

    /// Announces a unit-test run of the given source file.
    fn unit_test(&mut self, file: &str) -> (r: String)
        ensures
            final(self)@ == old(self)@.push(LogEventView::UnitTest { file: file@ }),
            r@ == spec_event_line(LogEventView::UnitTest { file: file@ }),
    {
        self.announce(LogEvent::UnitTest { file: file.to_owned() })
    }

    /// Announces the binary's unit-test run.
    pub fn main_unit_test(&mut self) -> (r: String)
        ensures
            final(self)@ == old(self)@.push(LogEventView::UnitTest { file: "src/main.rs"@ }),
            r@ == spec_event_line(LogEventView::UnitTest { file: "src/main.rs"@ }),
    {
        self.unit_test("src/main.rs")
    }

    /// Announces the library's unit-test run.
    pub fn lib_unit_test(&mut self) -> (r: String)
        ensures
            final(self)@ == old(self)@.push(LogEventView::UnitTest { file: "src/lib.rs"@ }),
            r@ == spec_event_line(LogEventView::UnitTest { file: "src/lib.rs"@ }),
    {
        self.unit_test("src/lib.rs")
    }

    /// Announces a file-based test run with the given label.
    pub fn tests(&mut self, label: &str) -> (r: String)
        ensures
            final(self)@ == old(self)@.push(LogEventView::FileTest { label: label@ }),
            r@ == spec_event_line(LogEventView::FileTest { label: label@ }),
    {
        self.announce(LogEvent::FileTest { label: label.to_owned() })
    }

    /// Announces a documentation-test run.
    pub fn doc_test(&mut self, crate_name: &str) -> (r: String)
        ensures
            final(self)@ == old(self)@.push(LogEventView::DocTest { crate_name: crate_name@ }),
            r@ == spec_event_line(LogEventView::DocTest { crate_name: crate_name@ }),
    {
        self.announce(LogEvent::DocTest { crate_name: crate_name.to_owned() })
    }

    /// The events announced so far, in order.
    pub fn events(&self) -> (r: &Vec<LogEvent>)
        ensures
            r.deep_view() == self@,
    {
        &self.events
    }
}

} // verus!
