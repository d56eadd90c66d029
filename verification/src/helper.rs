//! Judging the runs of the two helper processes: the one that lets the user
//! pick the destination window, and the one that focuses it.

use crate::decimal::{
    ascii_bytes, decimal_text, decimal_u32, is_digit, lemma_decimal_text_denotes,
    lemma_decimal_text_reads_back, parse_decimal_u32, render_decimal_u32,
};
use vstd::prelude::*;
use vstd::utf8::{
    encode_utf8, encode_utf8_valid_utf8, is_ascii_chars, is_ascii_chars_encode_utf8, valid_utf8,
};

verus! {

/// Name of the helper program. It selects a window with its first
/// sub-command and focuses one with its second.
pub const HELPER_PROGRAM: &'static str = "xdotool";

/// What a finished helper process left behind.
#[derive(Clone, Debug, PartialEq, Eq)]
pub struct HelperOutput {
    /// Whether the process exited with status zero.
    pub success: bool,
    /// Everything the process wrote to its standard output.
    pub stdout: Vec<u8>,
}

/// Why no destination window was selected.
#[derive(Clone, Copy, Debug, PartialEq, Eq, Structural)]
pub enum SelectionError {
    /// The selection helper exited with a non-zero status.
    HelperFailed,
    /// The helper's output is not valid UTF-8.
    InvalidUtf8,
    /// The helper's output is not a single integer.
    NotAnInteger,
}

/// Why the destination window was not focused.
#[derive(Clone, Copy, Debug, PartialEq, Eq, Structural)]
pub enum ActivationError {
    /// The activation helper exited with a non-zero status.
    HelperFailed,
}

/// Whether `arguments` are those of a selection: the sub-command that lets
/// the user pick a window, and nothing else.
pub open spec fn is_selection_command(arguments: Seq<String>) -> bool {
    &&& arguments.len() == 1
    &&& arguments[0]@ == "selectwindow"@
}

/// Whether `arguments` are those of an activation of `window`: the
/// sub-command that focuses a window, the flag that makes the helper wait
/// until the window has the focus, and the window's identifier in base ten.
pub open spec fn is_activation_command(arguments: Seq<String>, window: u32) -> bool {
    &&& arguments.len() == 3
    &&& arguments[0]@ == "windowactivate"@
    &&& arguments[1]@ == "--sync"@
    &&& arguments[2]@ == decimal_text(window as nat)
}

/// `text` without one trailing line feed, if it ends in one.
pub open spec fn without_newline(text: Seq<u8>) -> Seq<u8> {
    if text.len() > 0 && text.last() == 0x0A {
        text.drop_last()
    } else {
        text
    }
}

/// The window identifier that the selection helper's output names: the
/// decimal number on its only line, which may end in a line feed.
pub open spec fn window_id(stdout: Seq<u8>) -> Option<u32> {
    decimal_u32(without_newline(stdout))
}

/// The outcome of a selection, given what the helper left behind. A failed
/// helper is reported first, then malformed UTF-8, then output that is not
/// one integer.
pub open spec fn selection(output: HelperOutput) -> Result<u32, SelectionError> {
    if !output.success {
        Err(SelectionError::HelperFailed)
    } else if !valid_utf8(output.stdout@) {
        Err(SelectionError::InvalidUtf8)
    } else {
        match window_id(output.stdout@) {
            Some(window) => Ok(window),
            None => Err(SelectionError::NotAnInteger),
        }
    }
}

/// The outcome of an activation, given what the helper left behind.
pub open spec fn activation(output: HelperOutput) -> Result<(), ActivationError> {
    if output.success {
        Ok(())
    } else {
        Err(ActivationError::HelperFailed)
    }
}

/// A helper that exits with status zero after printing a window identifier
/// in base ten, with or without a line feed behind it, selects that window.
/// The identifier that `activation_arguments` writes is of that form, so a
/// window is written for the one helper as it is read from the other.
pub proof fn lemma_selection_reads_decimal_line(output: HelperOutput, window: u32)
    requires
        output.success,
        output.stdout@ == ascii_bytes(decimal_text(window as nat)) || output.stdout@
            == ascii_bytes(decimal_text(window as nat)).push(0x0A),
    ensures
        selection(output) == Ok::<u32, SelectionError>(window),
{
    let text = decimal_text(window as nat);
    let digits = ascii_bytes(text);
    lemma_decimal_text_denotes(window as nat);
    lemma_decimal_text_reads_back(window);
    assert(is_digit(digits.last()));
    let line = if output.stdout@ == digits {
        text
    } else {
        text.push('\n')
    };
    assert(is_ascii_chars(line)) by {
        assert forall|i: int| 0 <= i < line.len() implies '\0' <= #[trigger] line[i] <= '\u{7f}' by {
            if i < text.len() {
                assert(line[i] == text[i]);
            }
        }
    }
    is_ascii_chars_encode_utf8(line);
    encode_utf8_valid_utf8(line);
    assert(encode_utf8(line) =~= output.stdout@);
    assert(without_newline(output.stdout@) =~= digits);
}

/// Asks `std::str::from_utf8` whether `bytes` is valid UTF-8. Trusted: the
/// standard library accepts exactly the byte strings that are well-formed
/// UTF-8, which is what `valid_utf8` defines.
#[verifier::external_body]
fn is_utf8(bytes: &[u8]) -> (valid: bool)
    ensures
        valid == valid_utf8(bytes@),
{
    std::str::from_utf8(bytes).is_ok()
}

/// The arguments with which to run the helper for a selection.
pub fn selection_arguments() -> (arguments: Vec<String>)
    ensures
        is_selection_command(arguments@),
{
    let mut arguments: Vec<String> = Vec::new();
    arguments.push("selectwindow".to_owned());
    arguments
}

/// The arguments with which to run the helper for an activation of
/// `window`.
pub fn activation_arguments(window: u32) -> (arguments: Vec<String>)
    ensures
        is_activation_command(arguments@, window),
{
    let mut arguments: Vec<String> = Vec::new();
    arguments.push("windowactivate".to_owned());
    arguments.push("--sync".to_owned());
    arguments.push(render_decimal_u32(window));
    arguments
}

/// Reads the window identifier out of the selection helper's output.
pub fn parse_window_id(stdout: &[u8]) -> (window: Option<u32>)
    ensures
        window == window_id(stdout@),
{
    let n: usize = stdout.len();
    if n > 0 && stdout[n - 1] == 0x0A {
        let line = vstd::slice::slice_subrange(stdout, 0, n - 1);
        assert(line@ =~= stdout@.drop_last());
        parse_decimal_u32(line)
    } else {
        parse_decimal_u32(stdout)
    }
}

/// Decides which window the user selected, from the run of the selection
/// helper.
pub fn select_window(output: &HelperOutput) -> (selected: Result<u32, SelectionError>)
    ensures
        selected == selection(*output),
{
    if !output.success {
        return Err(SelectionError::HelperFailed);
    }
    if !is_utf8(output.stdout.as_slice()) {
        return Err(SelectionError::InvalidUtf8);
    }
    match parse_window_id(output.stdout.as_slice()) {
        Some(window) => Ok(window),
        None => Err(SelectionError::NotAnInteger),
    }
}

/// Decides whether the destination window now has the focus, from the run
/// of the activation helper.
pub fn activate(output: &HelperOutput) -> (activated: Result<(), ActivationError>)
    ensures
        activated == activation(*output),
{
    if output.success {
        Ok(())
    } else {
        Err(ActivationError::HelperFailed)
    }
}

} // verus!
