//! The line that is reported before the processor is halted.
//!
//! Every fatal condition ends the same way: one line goes to the console, then
//! the core stops. The line starts with the number of the core in square
//! brackets, names the kind of the condition and closes with a line feed.

use vstd::prelude::*;
use vstd::string::StringSliceAdditionalSpecFns;

verus! {

/// A place in the source: the file's name and the line in it.
#[derive(Clone, Copy, Debug)]
pub struct Location<'a> {
    pub file: &'a str,
    pub line: u32,
}

/// The decimal digits of `value` as ASCII, without leading zeros.
pub open spec fn decimal(value: nat) -> Seq<u8>
    decreases value,
{
    if value < 10 {
        seq![(0x30 + value) as u8]
    } else {
        decimal(value / 10).push((0x30 + value % 10) as u8)
    }
}

/// The line for a panic: the place it came from and its message, each where
/// there is one.
pub open spec fn panic_line(
    core_id: usize,
    location: Option<Location>,
    message: Option<&str>,
) -> Seq<u8> {
    "[".spec_bytes() + decimal(core_id as nat) + "][!!!PANIC!!!] ".spec_bytes() + (match location {
        Some(place) => place.file.spec_bytes() + ":".spec_bytes() + decimal(place.line as nat)
            + ": ".spec_bytes(),
        None => Seq::<u8>::empty(),
    }) + (match message {
        Some(text) => text.spec_bytes(),
        None => Seq::<u8>::empty(),
    }) + "\n".spec_bytes()
}

/// The line for an allocation of `size` bytes that could not be served.
pub open spec fn oom_line(core_id: usize, size: usize) -> Seq<u8> {
    "[".spec_bytes() + decimal(core_id as nat) + "][!!!OOM!!!] Memory allocation of ".spec_bytes()
        + decimal(size as nat) + " bytes failed\n".spec_bytes()
}

/// The line for an attempt to unwind the stack.
pub open spec fn unwind_line(core_id: usize) -> Seq<u8> {
    "[".spec_bytes() + decimal(core_id as nat) + "][!!!UNWIND!!!]\n".spec_bytes()
}

/// Appends the bytes of `text`.
fn append_text(line: &mut Vec<u8>, text: &str)
    ensures
        final(line)@ == old(line)@ + text.spec_bytes(),
{
    let bytes = text.as_bytes();
    let length: usize = bytes.len();
    let mut index: usize = 0;
    while index < length
        invariant
            index <= length,
            length == bytes@.len(),
            bytes@ == text.spec_bytes(),
            line@ == old(line)@ + bytes@.take(index as int),
        decreases length - index,
    {
        line.push(bytes[index]);
        index += 1;
        assert(bytes@.take(index as int) == bytes@.take(index - 1).push(bytes@[index - 1]));
    }
    assert(bytes@.take(length as int) == bytes@);
}

/// Appends the decimal digits of `value`.
fn append_decimal(line: &mut Vec<u8>, value: usize)
    ensures
        final(line)@ == old(line)@ + decimal(value as nat),
    decreases value,
{
    if value >= 10 {
        append_decimal(line, value / 10);
    }
    let digit: u8 = (value % 10) as u8;
    line.push(0x30 + digit);
}

/// Builds the line to report for a panic on core `core_id`.
pub fn panic_message(core_id: usize, location: Option<Location>, message: Option<&str>) -> (line:
    Vec<u8>)
    ensures
        line@ == panic_line(core_id, location, message),
{
    let mut line: Vec<u8> = Vec::new();
    append_text(&mut line, "[");
    append_decimal(&mut line, core_id);
    append_text(&mut line, "][!!!PANIC!!!] ");
    if let Some(place) = location {
        append_text(&mut line, place.file);
        append_text(&mut line, ":");
        append_decimal(&mut line, place.line as usize);
        append_text(&mut line, ": ");
    }
    if let Some(text) = message {
        append_text(&mut line, text);
    }
    append_text(&mut line, "\n");
    line
}

/// Builds the line to report when an allocation of `size` bytes has failed on
/// core `core_id`.
pub fn oom_message(core_id: usize, size: usize) -> (line: Vec<u8>)
    ensures
        line@ == oom_line(core_id, size),
{
    let mut line: Vec<u8> = Vec::new();
    append_text(&mut line, "[");
    append_decimal(&mut line, core_id);
    append_text(&mut line, "][!!!OOM!!!] Memory allocation of ");
    append_decimal(&mut line, size);
    append_text(&mut line, " bytes failed\n");
    line
}

/// Builds the line to report when core `core_id` is asked to unwind the
/// stack.
pub fn unwind_message(core_id: usize) -> (line: Vec<u8>)
    ensures
        line@ == unwind_line(core_id),
{
    let mut line: Vec<u8> = Vec::new();
    append_text(&mut line, "[");
    append_decimal(&mut line, core_id);
    append_text(&mut line, "][!!!UNWIND!!!]\n");
    line
}

} // verus!
