//! Terminal output sink: streams each token to standard output and flushes
//! it before the next call, so a consumer sees the stream with no batching
//! delay.

use vstd::prelude::*;
use std::io::Write;

verus! {

/// A write to the terminal failed.
#[derive(Clone, Copy, Debug, PartialEq, Eq, Structural)]
pub struct OutputError;

/// The terminal sink.
pub struct TerminalOutput;

impl TerminalOutput {
    /// A fresh terminal sink.
    pub fn new() -> TerminalOutput {
        TerminalOutput
    }

    /// Relies on `write!` to `std::io::stdout` and its `flush`: the text is
    /// written and flushed before the call returns, so emission order is
    /// preserved per token.  Nothing about the outside world is promised.
    #[verifier::external_body]
    pub fn write(&mut self, text: &str) -> Result<(), OutputError> {
        let mut out = std::io::stdout();
        if write!(out, "{}", text).is_err() {
            return Err(OutputError);
        }
        if out.flush().is_err() {
            return Err(OutputError);
        }
        Ok(())
    }
}

} // verus!
