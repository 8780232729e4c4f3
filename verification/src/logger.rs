//! The lines that the tool reports to its user.

use vstd::prelude::*;
use vstd::string::*;

verus! {

/// Words the three kinds of report: plain output, warnings and errors. It
/// writes nothing itself; its caller decides where a line goes.
#[derive(Clone, Copy, Debug)]
pub struct StackedBarChartLogger {}

impl StackedBarChartLogger {
    /// Makes a logger. It has no settings.
    pub fn new() -> (logger: StackedBarChartLogger)
        ensures
            logger == (StackedBarChartLogger {  }),
    {
        StackedBarChartLogger {  }
    }

    /// The line for plain output: the message as it is.
    pub fn output(&self, message: &str) -> (line: String)
        ensures
            line@ == message@,
    {
        String::from_str(message)
    }

    /// The line for a warning.
    pub fn warning(&self, message: &str) -> (line: String)
        ensures
            line@ == "warning: "@ + message@,
    {
        let mut line = String::from_str("warning: ");
        line.append(message);
        line
    }

    /// The line for an error.
    pub fn error(&self, message: &str) -> (line: String)
        ensures
            line@ == "error: "@ + message@,
    {
        let mut line = String::from_str("error: ");
        line.append(message);
        line
    }
}

} // verus!
