use editor_backend::print::{
    print_dialog_outcome, print_request_outcome, wide_nul, PrintError, PRINT_VERB,
    SHELL_FAILURE_MAX,
};

#[test]
fn shell_codes_up_to_the_threshold_are_failures() {
    assert_eq!(print_request_outcome(0), Err(PrintError::ShellRefused { code: 0 }));
    assert_eq!(print_request_outcome(2), Err(PrintError::ShellRefused { code: 2 }));
    assert_eq!(print_request_outcome(32), Err(PrintError::ShellRefused { code: 32 }));
    assert_eq!(SHELL_FAILURE_MAX, 32);
}

#[test]
fn shell_codes_above_the_threshold_are_success() {
    assert_eq!(print_request_outcome(33), Ok(()));
    assert_eq!(print_request_outcome(42), Ok(()));
    assert_eq!(print_request_outcome(usize::MAX), Ok(()));
}

#[test]
fn dismissed_dialog_is_an_error() {
    assert_eq!(print_dialog_outcome(0), Err(PrintError::DialogDismissed));
    assert_eq!(print_dialog_outcome(1), Ok(()));
    assert_eq!(print_dialog_outcome(-1), Ok(()));
}

#[test]
fn wide_strings_end_in_zero() {
    assert_eq!(wide_nul(""), vec![0]);
    assert_eq!(wide_nul(PRINT_VERB), vec![0x70, 0x72, 0x69, 0x6E, 0x74, 0]);
    assert_eq!(wide_nul("\u{E9}\u{20AC}"), vec![0xE9, 0x20AC, 0]);
    assert_eq!(wide_nul("\u{1F4A9}"), vec![0xD83D, 0xDCA9, 0]);
    assert_eq!(wide_nul("\u{10000}\u{10FFFF}"), vec![0xD800, 0xDC00, 0xDBFF, 0xDFFF, 0]);
}
