//! The texts that a frame shows over the playfield: the hint, the help, the
//! scores and the debug line.

use vstd::prelude::*;
use vstd::string::StringSliceAdditionalSpecFns;
use crate::text::{
    decimal, decimal_length, fixed_point, signed_lengths, push_decimal, push_fixed_point, push_two_wide,
    push_zero_padded, two_wide, zero_padded,
};

verus! {

/// The glyph between a label and what stands around it: a space.
pub const SPACE: u8 = 32;

/// What the last launch was: the angle in degrees and the velocity that it
/// gave the ball, in units per tick.
#[derive(Clone, Copy, Debug, PartialEq, Eq, Structural)]
pub struct Launch {
    /// The angle, in degrees above the horizontal.
    pub angle: i32,
    /// The horizontal velocity, in units per tick.
    pub xmov: i32,
    /// The vertical velocity, in units per tick.
    pub ymov: i32,
}

/// The hint that is shown while the help is hidden.
pub open spec fn help_hint() -> Seq<u8> {
    " [h]elp ".spec_bytes()
}

/// The help for the left paddle.
pub open spec fn left_keys() -> Seq<u8> {
    " a=up - z=down ".spec_bytes()
}

/// The help for the right paddle.
pub open spec fn right_keys() -> Seq<u8> {
    " k=up - m=down ".spec_bytes()
}

/// The help for the space bar.
pub open spec fn space_keys() -> Seq<u8> {
    " space=start/reset ".spec_bytes()
}

/// The help for the speed keys, with the selected speed level.
pub open spec fn speed_label(level: nat) -> Seq<u8> {
    " speed=".spec_bytes() + decimal(level) + " [1-9] ".spec_bytes()
}

/// A score between two spaces, in at least two digits.
pub open spec fn score_label(score: nat) -> Seq<u8> {
    seq![SPACE] + zero_padded(score, 2) + seq![SPACE]
}

/// The debug line: a fixed text before the first launch, then the angle and
/// the velocity of the last launch.
pub open spec fn debug_line(launch: Option<Launch>) -> Seq<u8> {
    match launch {
        None => "debug on".spec_bytes(),
        Some(l) => "angle=".spec_bytes() + two_wide(l.angle as int) + " x=".spec_bytes()
            + fixed_point(l.xmov as int) + " y=".spec_bytes() + fixed_point(l.ymov as int),
    }
}

/// The lengths of the fixed texts.
pub proof fn fixed_text_lengths()
    ensures
        help_hint().len() == 8,
        left_keys().len() == 15,
        right_keys().len() == 15,
        space_keys().len() == 19,
        " speed=".spec_bytes().len() == 7,
        " [1-9] ".spec_bytes().len() == 7,
        "debug on".spec_bytes().len() == 8,
        "angle=".spec_bytes().len() == 6,
        " x=".spec_bytes().len() == 3,
        " y=".spec_bytes().len() == 3,
{
    reveal_strlit(" [h]elp ");
    reveal_strlit(" a=up - z=down ");
    reveal_strlit(" k=up - m=down ");
    reveal_strlit(" space=start/reset ");
    reveal_strlit(" speed=");
    reveal_strlit(" [1-9] ");
    reveal_strlit("debug on");
    reveal_strlit("angle=");
    reveal_strlit(" x=");
    reveal_strlit(" y=");
    assert(vstd::string::is_ascii(" [h]elp "));
    assert(vstd::string::is_ascii(" a=up - z=down "));
    assert(vstd::string::is_ascii(" k=up - m=down "));
    assert(vstd::string::is_ascii(" space=start/reset "));
    assert(vstd::string::is_ascii(" speed="));
    assert(vstd::string::is_ascii(" [1-9] "));
    assert(vstd::string::is_ascii("debug on"));
    assert(vstd::string::is_ascii("angle="));
    assert(vstd::string::is_ascii(" x="));
    assert(vstd::string::is_ascii(" y="));
    vstd::string::is_ascii_spec_bytes(" [h]elp ");
    vstd::string::is_ascii_spec_bytes(" a=up - z=down ");
    vstd::string::is_ascii_spec_bytes(" k=up - m=down ");
    vstd::string::is_ascii_spec_bytes(" space=start/reset ");
    vstd::string::is_ascii_spec_bytes(" speed=");
    vstd::string::is_ascii_spec_bytes(" [1-9] ");
    vstd::string::is_ascii_spec_bytes("debug on");
    vstd::string::is_ascii_spec_bytes("angle=");
    vstd::string::is_ascii_spec_bytes(" x=");
    vstd::string::is_ascii_spec_bytes(" y=");
}

/// No label is longer than 120 glyphs, whatever the numbers in it.
pub proof fn label_lengths(level: u8, score: u64, launch: Option<Launch>)
    ensures
        speed_label(level as nat).len() <= 120,
        score_label(score as nat).len() <= 120,
        debug_line(launch).len() <= 120,
        score < 100 ==> score_label(score as nat).len() == 4,
{
    fixed_text_lengths();
    decimal_length(level as nat);
    decimal_length(score as nat);
    match launch {
        None => {},
        Some(l) => {
            signed_lengths(l.angle as int);
            signed_lengths(l.xmov as int);
            signed_lengths(l.ymov as int);
        },
    }
}

/// Appends `bytes`.
pub fn push_bytes(out: &mut Vec<u8>, bytes: &[u8])
    ensures
        final(out)@ == old(out)@ + bytes@,
{
    let n = bytes.len();
    let mut i: usize = 0;
    assert(out@ =~= old(out)@ + bytes@.take(0));
    while i < n
        invariant
            n == bytes@.len(),
            i <= n,
            out@ == old(out)@ + bytes@.take(i as int),
        decreases n - i,
    {
        out.push(bytes[i]);
        i = i + 1;
        assert(out@ =~= old(out)@ + bytes@.take(i as int));
    }
    assert(bytes@.take(n as int) =~= bytes@);
}

/// The help for the speed keys, with the selected speed level.
pub fn make_speed_label(level: u8) -> (label: Vec<u8>)
    ensures
        label@ == speed_label(level as nat),
{
    let mut label: Vec<u8> = Vec::new();
    push_bytes(&mut label, " speed=".as_bytes());
    push_decimal(&mut label, level as u64);
    push_bytes(&mut label, " [1-9] ".as_bytes());
    assert(label@ =~= speed_label(level as nat));
    label
}

/// A score between two spaces, in at least two digits.
pub fn make_score_label(score: u64) -> (label: Vec<u8>)
    ensures
        label@ == score_label(score as nat),
{
    let mut label: Vec<u8> = Vec::new();
    label.push(SPACE);
    push_zero_padded(&mut label, score, 2);
    label.push(SPACE);
    assert(label@ =~= score_label(score as nat));
    label
}

/// The debug line for the last launch, or for none.
pub fn make_debug_line(launch: Option<Launch>) -> (line: Vec<u8>)
    ensures
        line@ == debug_line(launch),
{
    let mut line: Vec<u8> = Vec::new();
    match launch {
        None => {
            push_bytes(&mut line, "debug on".as_bytes());
            assert(line@ =~= debug_line(launch));
        },
        Some(l) => {
            push_bytes(&mut line, "angle=".as_bytes());
            push_two_wide(&mut line, l.angle);
            push_bytes(&mut line, " x=".as_bytes());
            push_fixed_point(&mut line, l.xmov);
            push_bytes(&mut line, " y=".as_bytes());
            push_fixed_point(&mut line, l.ymov);
            assert(line@ =~= debug_line(launch));
        },
    }
    line
}

} // verus!
