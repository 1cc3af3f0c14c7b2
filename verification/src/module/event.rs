//! The six-byte rendering of pattern events and its text form.

use vstd::prelude::*;
use crate::text::{dec_chars, hex2_chars, hex2_upper_chars, push_dec, push_hex2, push_hex2_upper, push_str, chars_to_string};
use crate::util::{note_name, push_note_name};

verus! {

pub const HAS_NOTE: u8 = 0x01;
pub const HAS_INS: u8 = 0x02;
pub const HAS_VOL: u8 = 0x04;
pub const HAS_CMD: u8 = 0x08;

/// A pattern event in common terms: note (0 for none), instrument, volume
/// (0 for none, else one more than the volume), effect and parameter.
#[derive(Clone, Copy, Debug, PartialEq, Eq, Structural)]
pub struct Event {
    pub note: u8,
    pub ins: u8,
    pub vol: u8,
    pub fxt: u8,
    pub fxp: u8,
}

/// Text of a rendered event: note and octave, instrument, volume (both
/// lower-case hex) and effect with parameter (upper-case hex); absent
/// fields are dashes.
pub open spec fn event_text(b: Seq<u8>) -> Seq<char> {
    let note = if b[0] & HAS_NOTE != 0 {
        note_name(b[1] as int % 12) + dec_chars((b[1] / 12) as nat)
    } else {
        "---"@
    };
    let ins = if b[0] & HAS_INS != 0 { hex2_chars(b[2]) } else { "--"@ };
    let vol = if b[0] & HAS_VOL != 0 { hex2_chars(b[3]) } else { "--"@ };
    note + " "@ + ins + " "@ + vol + " "@ + hex2_upper_chars(b[4]) + hex2_upper_chars(b[5])
}

/// Text of the rendered event in the first six bytes of `b`.
pub fn format(b: &[u8]) -> (r: String)
    requires
        b@.len() >= 6,
    ensures
        r@ == event_text(b@),
{
    let mut v: Vec<char> = Vec::new();
    if b[0] & HAS_NOTE != 0 {
        push_note_name(&mut v, b[1] as usize);
        push_dec(&mut v, (b[1] / 12) as u64);
    } else {
        push_str(&mut v, "---");
    }
    push_str(&mut v, " ");
    if b[0] & HAS_INS != 0 {
        push_hex2(&mut v, b[2]);
    } else {
        push_str(&mut v, "--");
    }
    push_str(&mut v, " ");
    if b[0] & HAS_VOL != 0 {
        push_hex2(&mut v, b[3]);
    } else {
        push_str(&mut v, "--");
    }
    push_str(&mut v, " ");
    push_hex2_upper(&mut v, b[4]);
    push_hex2_upper(&mut v, b[5]);
    chars_to_string(&v)
}

} // verus!
