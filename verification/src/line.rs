//! Console-line classification for the input pump. A line read from the
//! console is either the one in-band command — the exact line `/quit` —
//! or payload, forwarded to the device verbatim, trailing newline
//! included.

use vstd::prelude::*;

use crate::bytes::bytes_eq;

verus! {

/// The bytes of the one in-band command: the line `/quit` with its
/// trailing newline, exactly as the console delivers it.
pub open spec fn quit_line() -> Seq<u8> {
    seq![47u8, 113u8, 117u8, 105u8, 116u8, 10u8]
}

/// What the input pump does with one console line: either end the
/// session, or write these bytes to the device.
pub enum LineAction {
    /// The line was exactly the quit command; the session ends.
    Quit,
    /// Any other line: write it to the device, unaltered.
    Forward(Vec<u8>),
}

/// What one console line means: `None` for the quit command, otherwise
/// the exact bytes to put on the wire.
pub open spec fn spec_input_step(line: Seq<u8>) -> Option<Seq<u8>> {
    if line == quit_line() {
        None
    } else {
        Some(line)
    }
}

/// The quit command as a runtime value.
pub fn quit_line_bytes() -> (v: Vec<u8>)
    ensures
        v@ == quit_line(),
{
    let v: Vec<u8> = vec![47u8, 113u8, 117u8, 105u8, 116u8, 10u8];
    proof {
        assert(v@ =~= quit_line());
    }
    v
}

/// Classify one console line. Only the exact line `/quit` (with its
/// newline) ends the session; every other line — `/quitter`, `quit`,
/// even the empty line — is forwarded to the device byte for byte.
pub fn input_step(line: Vec<u8>) -> (r: LineAction)
    ensures
        (r is Quit) == (spec_input_step(line@) is None),
        r matches LineAction::Forward(v) ==> spec_input_step(line@) == Some(v@) && v@ == line@,
{
    let quit = quit_line_bytes();
    if bytes_eq(line.as_slice(), quit.as_slice()) {
        LineAction::Quit
    } else {
        LineAction::Forward(line)
    }
}

/// The bytes the input pump puts on the wire over a whole console
/// transcript: each line's contribution in order, the quit command
/// contributing nothing.
pub open spec fn session_writes(lines: Seq<Seq<u8>>) -> Seq<u8>
    decreases lines.len(),
{
    if lines.len() == 0 {
        Seq::empty()
    } else {
        (match spec_input_step(lines.first()) {
            Some(b) => b,
            None => Seq::empty(),
        }) + session_writes(lines.drop_first())
    }
}

/// The bytes arriving at the device equal the bytes the operator typed,
/// exactly: over any transcript of payload lines, the input pump's
/// writes concatenate to the concatenation of the lines themselves — no
/// transformation, truncation, or reordering.
pub proof fn lemma_payload_verbatim(lines: Seq<Seq<u8>>)
    requires
        forall|i: int| 0 <= i < lines.len() ==> lines[i] != quit_line(),
    ensures
        session_writes(lines) == lines.flatten(),
    decreases lines.len(),
{
    if lines.len() == 0 {
    } else {
        assert(lines.first() == lines[0]);
        assert(forall|i: int|
            0 <= i < lines.drop_first().len() ==> lines.drop_first()[i] == lines[i + 1]);
        lemma_payload_verbatim(lines.drop_first());
    }
}

} // verus!
