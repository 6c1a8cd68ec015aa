//! The line-reading state machine: the decisions of the interactive line
//! reader, one key press at a time. A platform-facing caller waits for key
//! events, feeds each press through [`line_step`], and performs the echo the
//! returned step asks for.

use vstd::prelude::*;

verus! {

/// One key event, as the platform's console reports it.
#[derive(Clone, Copy, Debug, PartialEq, Eq, Structural)]
pub enum KeyPress {
    /// A printable character, carriage return, backspace and the interrupt
    /// control character included.
    Printable(char),
    /// Any non-printable key.
    Other,
}

/// What one key press did to the line being read.
#[derive(Clone, Copy, Debug, PartialEq, Eq, Structural)]
pub enum LineStep {
    /// The character was appended; echo it.
    EchoChar(char),
    /// The last character was removed; erase it from the display.
    EraseChar,
    /// Carriage return: the line is complete as it stands.
    Submit,
    /// The interrupt character: the line is abandoned and now empty.
    Cancel,
    /// The press changed nothing.
    Ignored,
}

/// Applies one key press to the line buffer: carriage return submits the
/// line unchanged, backspace removes the last character if there is one,
/// the interrupt character abandons the line, and any other printable
/// character is appended.
pub fn line_step(buffer: &mut Vec<char>, key: KeyPress) -> (r: LineStep)
    ensures
        match key {
            KeyPress::Printable(c) => {
                if c == '\r' {
                    r is Submit && final(buffer)@ == old(buffer)@
                } else if c == '\u{8}' {
                    if old(buffer)@.len() > 0 {
                        r is EraseChar && final(buffer)@ == old(buffer)@.drop_last()
                    } else {
                        r is Ignored && final(buffer)@ == old(buffer)@
                    }
                } else if c == '\u{3}' {
                    r is Cancel && final(buffer)@ == Seq::<char>::empty()
                } else {
                    r matches LineStep::EchoChar(e) && e == c && final(buffer)@ == old(
                        buffer,
                    )@.push(c)
                }
            },
            KeyPress::Other => r is Ignored && final(buffer)@ == old(buffer)@,
        },
{
    match key {
        KeyPress::Printable(c) => {
            if c == '\r' {
                LineStep::Submit
            } else if c == '\u{8}' {
                if buffer.len() > 0 {
                    buffer.pop();
                    LineStep::EraseChar
                } else {
                    LineStep::Ignored
                }
            } else if c == '\u{3}' {
                buffer.clear();
                LineStep::Cancel
            } else {
                buffer.push(c);
                LineStep::EchoChar(c)
            }
        },
        KeyPress::Other => LineStep::Ignored,
    }
}

} // verus!
