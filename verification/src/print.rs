//! Printing through the host: what is handed to the shell, and how its
//! answers are read.

use vstd::prelude::*;
use crate::utf16::{encode_utf16, utf16_units};

verus! {

/// The shell verb that prints a file.
pub const PRINT_VERB: &'static str = "print";

/// The largest result code with which the shell reports that it did not
/// carry out a verb.
pub const SHELL_FAILURE_MAX: usize = 32;

/// Why nothing was printed.
#[derive(Clone, Copy, Debug, PartialEq, Eq, Structural)]
pub enum PrintError {
    /// The shell did not carry out the print verb and gave this result code.
    ShellRefused { code: usize },
    /// The print dialog was dismissed or could not be shown.
    DialogDismissed,
}

/// Reads the result code that the shell gives for the print verb: the codes
/// up to `SHELL_FAILURE_MAX` report a failure, all above it success.
pub fn print_request_outcome(code: usize) -> (outcome: Result<(), PrintError>)
    ensures
        code > SHELL_FAILURE_MAX ==> outcome == Ok::<(), PrintError>(()),
        code <= SHELL_FAILURE_MAX ==> outcome == Err::<(), PrintError>(
            PrintError::ShellRefused { code },
        ),
{
    if code <= SHELL_FAILURE_MAX {
        Err(PrintError::ShellRefused { code })
    } else {
        Ok(())
    }
}

/// Reads the answer of the print dialog: zero says that the user dismissed it
/// or that it could not be shown.
pub fn print_dialog_outcome(answer: i32) -> (outcome: Result<(), PrintError>)
    ensures
        answer != 0 ==> outcome == Ok::<(), PrintError>(()),
        answer == 0 ==> outcome == Err::<(), PrintError>(PrintError::DialogDismissed),
{
    if answer == 0 {
        Err(PrintError::DialogDismissed)
    } else {
        Ok(())
    }
}

/// `text` as the shell takes its strings: UTF-16 code units with a zero
/// behind them.
pub fn wide_nul(text: &str) -> (wide: Vec<u16>)
    ensures
        wide@ == encode_utf16(text@).push(0u16),
{
    let mut wide = utf16_units(text);
    wide.push(0);
    wide
}

} // verus!
