//! Probing XM files and decoding their delta-coded samples.

use vstd::prelude::*;
use crate::format::{Format, ProbeInfo};
use crate::player::{check_accepted, spec_check_accepted};
use crate::text::{dec_chars, str_string, num_msg, str_eq};
use crate::util::{le16, field_string, BinaryRead};
use crate::{Error, format_error, load_error};
use crate::module::Module;

verus! {

/// FastTracker 2 module loader.
pub struct XmLoader;

/// The XM probe succeeds: the "Extended Module: " tag, a player that
/// accepts the format.
pub open spec fn xm_probe_ok(b: Seq<u8>, player_id: Seq<char>) -> bool {
    &&& b.len() >= 128
    &&& field_string(b, 0, 17) == "Extended Module: "@
    &&& spec_check_accepted(player_id, "xm"@) is Ok
}

/// What loading XM file `b` probed as format `f` gives: the XM header
/// parsers are not part of this library, so an XM module is a load error.
pub open spec fn xm_load_result(r: Result<Module, Error>, f: Format) -> bool {
    &&& f != Format::Xm ==> (r matches Err(e) && format_error(e, "unsupported format"@))
    &&& f == Format::Xm ==> (r matches Err(e) && load_error(e, "cannot read XM headers"@))
}

impl XmLoader {
    pub fn name(&self) -> (r: &'static str)
        ensures
            r@ == "FastTracker II XM"@,
    {
        "FastTracker II XM"
    }

    /// Recognizes an XM file by its leading "Extended Module: " tag, for a
    /// player that accepts the format.
    pub fn probe(&self, b: &[u8], player_id: &str) -> (r: Result<ProbeInfo, Error>)
        ensures
            b@.len() < 128 ==> (r matches Err(e) && format_error(e, "file too short ("@ + dec_chars(b@.len()) + ")"@)),
            b@.len() >= 128 ==> if field_string(b@, 0, 17) == "Extended Module: "@ {
                match spec_check_accepted(player_id@, "xm"@) {
                    Ok(_) => r matches Ok(info) && info.format == Format::Xm && info.title@ == field_string(b@, 17, 20),
                    Err(m) => r matches Err(e) && format_error(e, m),
                }
            } else {
                r matches Err(e) && format_error(e, "bad magic"@)
            },
    {
        if b.len() < 128 {
            return Err(Error::Format(num_msg("file too short (", b.len() as u64, ")")));
        }
        let magic = b.read_string(0, 17).unwrap();
        if str_eq(magic.as_str(), "Extended Module: ") {
            check_accepted(player_id, "xm")?;
            Ok(ProbeInfo { format: Format::Xm, title: b.read_string(17, 20).unwrap() })
        } else {
            Err(Error::Format(str_string("bad magic")))
        }
    }

    /// Loads a probed XM file: its headers cannot be read here, so this
    /// is always an error.
    pub fn load(&self, b: &[u8], info: ProbeInfo) -> (r: Result<Module, Error>)
        ensures
            xm_load_result(r, info.format),
    {
        if info.format != Format::Xm {
            return Err(Error::Format(str_string("unsupported format")));
        }
        Err(Error::Load(str_string("cannot read XM headers")))
    }
}

/// Byte `i` of 8-bit delta-coded data decoded: the running sum, modulo 256,
/// of bytes `0..=i`.
pub open spec fn delta8(b: Seq<u8>, i: int) -> u8
    decreases i + 1,
{
    if i < 0 {
        0
    } else {
        ((delta8(b, i - 1) + b[i]) % 256) as u8
    }
}

/// Word `i` of 16-bit little-endian delta-coded data decoded: the running
/// sum, modulo 65536, of words `0..=i`.
pub open spec fn delta16(b: Seq<u8>, i: int) -> u16
    decreases i + 1,
{
    if i < 0 {
        0
    } else {
        ((delta16(b, i - 1) + le16(b, 2 * i)) % 65536) as u16
    }
}

/// Decodes 8-bit delta-coded sample data.
pub fn diff_decode_8(b: &[u8]) -> (r: Vec<u8>)
    ensures
        r@.len() == b@.len(),
        forall|i: int| 0 <= i < b@.len() ==> #[trigger] r@[i] == delta8(b@, i),
{
    let mut buf: Vec<u8> = Vec::new();
    let mut old: u8 = 0;
    let mut i: usize = 0;
    while i < b.len()
        invariant
            i <= b@.len(),
            buf@.len() == i,
            old == delta8(b@, i - 1),
            forall|j: int| 0 <= j < i ==> #[trigger] buf@[j] == delta8(b@, j),
        decreases b.len() - i,
    {
        let new = b[i].wrapping_add(old);
        buf.push(new);
        old = new;
        i = i + 1;
    }
    buf
}

/// Decodes 16-bit little-endian delta-coded sample data: one word per two
/// bytes, in a buffer as long as the data in bytes whose tail stays zero.
pub fn diff_decode_16l(b: &[u8]) -> (r: Vec<u16>)
    ensures
        r@.len() == b@.len(),
        forall|i: int| 0 <= i < b@.len() / 2 ==> #[trigger] r@[i] == delta16(b@, i),
        forall|i: int| b@.len() / 2 <= i < b@.len() ==> #[trigger] r@[i] == 0,
{
    let n = b.len() / 2;
    let mut buf: Vec<u16> = Vec::new();
    let mut old: u16 = 0;
    let mut i: usize = 0;
    while i < n
        invariant
            n == b.len() / 2,
            i <= n,
            buf@.len() == i,
            old == delta16(b@, i - 1),
            forall|j: int| 0 <= j < i ==> #[trigger] buf@[j] == delta16(b@, j),
        decreases n - i,
    {
        let hi: u8 = b[i * 2 + 1];
        let lo: u8 = b[i * 2];
        let val: u16 = hi as u16 * 256 + lo as u16;
        let new = val.wrapping_add(old);
        buf.push(new);
        old = new;
        i = i + 1;
    }
    while i < b.len()
        invariant
            n == b@.len() / 2,
            n <= i <= b@.len(),
            buf@.len() == i,
            forall|j: int| 0 <= j < n ==> #[trigger] buf@[j] == delta16(b@, j),
            forall|j: int| n <= j < i ==> #[trigger] buf@[j] == 0,
        decreases b.len() - i,
    {
        buf.push(0);
        i = i + 1;
    }
    buf
}

} // verus!
