//! The Scream Tracker 3 S3M loader.

use vstd::prelude::*;
use crate::format::{Format, ProbeInfo};
use crate::format::s3m::{S3mData, S3mInstrument, S3mPattern};
use crate::format::mk::load::order_array;
use crate::module::{Module, ModuleData};
use crate::module::sample::{Sample, SampleType, stored, flip8, flip16};
use crate::player::{check_accepted, spec_check_accepted};
use crate::text::{dec_chars, hex2_chars, spec_debug_str, debug_str, str_string, num_msg, num2_msg,
    push_str, push_dec, push_hex2, chars_to_string, str_eq};
use crate::util::{le16, field_string, short_read_msg, short_read, BinaryRead};
use crate::{Error, format_error, load_error};

verus! {

/// Little-endian 32-bit value stored as two words, low word first.
pub open spec fn le_lo_hi(b: Seq<u8>, ofs: int) -> u32 {
    ((le16(b, ofs + 2) as u32) << 16) | (le16(b, ofs) as u32)
}

/// Reads of 32-bit values stored as two little-endian words.
pub trait BinaryReadExt: BinaryRead {
    fn read16l_lo_hi(&self, ofs: usize) -> (r: Result<u32, Error>)
        requires
            ofs + 4 <= usize::MAX,
        ensures
            r is Ok <==> ofs + 4 <= self.data().len(),
            r matches Ok(v) ==> v == le_lo_hi(self.data(), ofs as int),
            r matches Err(e) ==> load_error(e, short_read_msg(
                (if ofs + 2 > self.data().len() { ofs + 2 } else { ofs + 4 }) as nat, self.data().len())),
    ;
}

impl BinaryReadExt for [u8] {
    fn read16l_lo_hi(&self, ofs: usize) -> (r: Result<u32, Error>) {
        let lo = self.read16l(ofs)? as u32;
        let hi = self.read16l(ofs + 2)? as u32;
        Ok((hi << 16) | lo)
    }
}

/// Scream Tracker 3 module loader.
pub struct S3mLoader;

/// The sample segment of the instrument header at `ofs`: a 24-bit value,
/// its high byte at 0x0d and its low word at 0x0e.
pub open spec fn s3m_memseg(b: Seq<u8>, ofs: int) -> u32 {
    (le16(b, ofs + 0x0e) as u32) | ((b[ofs + 0x0d] as u32) << 16)
}

/// The instrument header at `ofs`.
pub open spec fn s3m_instrument_at(ins: S3mInstrument, b: Seq<u8>, ofs: int) -> bool {
    &&& ins.typ == b[ofs]
    &&& ins.memseg == s3m_memseg(b, ofs)
    &&& ins.length == le_lo_hi(b, ofs + 0x10)
    &&& ins.loop_beg == le_lo_hi(b, ofs + 0x14)
    &&& ins.loop_end == le_lo_hi(b, ofs + 0x18)
    &&& ins.vol == b[ofs + 0x1c] as i8
    &&& ins.flags == b[ofs + 0x1f] as i8
    &&& ins.c2spd == le_lo_hi(b, ofs + 0x20)
    &&& ins.name@ == field_string(b, ofs + 0x30, 28)
}

/// Bytes of sample data: two per sample for 16-bit samples (flag 4).
pub open spec fn s3m_sample_bytes(length: u32, flags: i8) -> int {
    if flags & 0x04 != 0 { 2 * length } else { length as int }
}

/// The sample of instrument `ins`, number `i`, loaded from `b`, converted
/// to signed data where `cvt` holds.
pub open spec fn s3m_sample_at(s: Sample, b: Seq<u8>, i: int, ins: S3mInstrument, cvt: bool) -> bool {
    let start = ins.memseg * 16;
    let raw = stored(Seq::empty(), b.subrange(start, start + s3m_sample_bytes(ins.length, ins.flags)));
    &&& s.num == i + 1
    &&& s.address == ins.memseg * 16
    &&& s.name@ == ins.name@
    &&& s.size == ins.length
    &&& s.rate == 1
    &&& s.sample_type == (if ins.length == 0 {
        SampleType::Empty
    } else if ins.flags & 0x04 != 0 {
        SampleType::Sample16
    } else {
        SampleType::Sample8
    })
    &&& s.data@ == (if !cvt || ins.length == 0 {
        raw
    } else if ins.flags & 0x04 != 0 {
        flip16(raw, ins.length as int)
    } else {
        flip8(raw, ins.length as int)
    })
}

/// Header fields of an S3M file.
pub open spec fn s3m_ord(b: Seq<u8>) -> int { le16(b, 0x20) as int }
pub open spec fn s3m_ins(b: Seq<u8>) -> int { le16(b, 0x22) as int }
pub open spec fn s3m_pat(b: Seq<u8>) -> int { le16(b, 0x24) as int }

/// Offset of the parapointer to instrument `i`, and where it points.
pub open spec fn s3m_ins_pp_at(b: Seq<u8>, i: int) -> int { 0x60 + s3m_ord(b) + 2 * i }
pub open spec fn s3m_ins_ofs(b: Seq<u8>, i: int) -> int { 16 * le16(b, s3m_ins_pp_at(b, i)) }

/// Offset of the parapointer to pattern `i`, and where it points.
pub open spec fn s3m_pat_pp_at(b: Seq<u8>, i: int) -> int { 0x60 + s3m_ord(b) + 2 * s3m_ins(b) + 2 * i }
pub open spec fn s3m_pat_ofs(b: Seq<u8>, i: int) -> int { 16 * le16(b, s3m_pat_pp_at(b, i)) }

/// The instrument header at `ofs`, and the sample data it points to, are
/// present.
pub open spec fn s3m_instrument_present(b: Seq<u8>, ofs: int) -> bool {
    &&& ofs + 0x4c <= b.len()
    &&& s3m_memseg(b, ofs) * 16 + s3m_sample_bytes(le_lo_hi(b, ofs + 0x10), b[ofs + 0x1f] as i8) <= b.len()
}

/// The packed pattern at `ofs`, with its length word, is present.
pub open spec fn s3m_pattern_present(b: Seq<u8>, ofs: int) -> bool {
    &&& ofs + 2 <= b.len()
    &&& ofs + le16(b, ofs) + 2 <= b.len()
}

/// Every part of an S3M file is present: the header, the orders,
/// parapointers and pan positions, each instrument with its sample and each
/// pattern.
pub open spec fn s3m_complete(b: Seq<u8>) -> bool {
    &&& b.len() >= 0x60
    &&& 0x60 + s3m_ord(b) + 2 * s3m_ins(b) + 2 * s3m_pat(b) + 32 <= b.len()
    &&& forall|i: int| 0 <= i < s3m_ins(b) ==> s3m_instrument_present(b, #[trigger] s3m_ins_ofs(b, i))
    &&& forall|i: int| 0 <= i < s3m_pat(b) ==> s3m_pattern_present(b, #[trigger] s3m_pat_ofs(b, i))
}

/// The number of channels: one past the last channel in use (a setting
/// other than 255) among the first `n`, at least one.
pub open spec fn s3m_channels(settings: Seq<u8>, n: int) -> int
    decreases n,
{
    if n <= 0 {
        1
    } else if settings[n - 1] != 0xff {
        n
    } else {
        s3m_channels(settings, n - 1)
    }
}

/// The tracker named by the version word: its kind in the top nibble, the
/// major version in the next and the minor version in the low byte.
pub open spec fn s3m_creator(cwt: u16) -> Seq<char> {
    let ver = dec_chars(((cwt & 0xf00) >> 8) as nat) + "."@ + hex2_chars((cwt & 0xff) as u8);
    let kind = cwt >> 12;
    if kind == 1 {
        "Scream Tracker "@ + ver
    } else if kind == 2 {
        "Imago Orpheus "@ + ver
    } else if kind == 3 {
        if cwt == 0x3216 {
            "Impulse Tracker 2.14v3"@
        } else if cwt == 0x3217 {
            "Impulse Tracker 2.14v5"@
        } else {
            "Impulse Tracker "@ + ver
        }
    } else if kind == 4 {
        if cwt != 0x4100 { "Schism Tracker "@ + ver } else { "BeRoTracker 1.00"@ }
    } else if kind == 5 {
        "OpenMPT "@ + ver
    } else if kind == 6 {
        "BeRoTracker "@ + ver
    } else {
        "unknown ("@ + ver
    }
}

/// The data of an S3M module loaded from `b`.
pub open spec fn s3m_data_loaded(d: S3mData, b: Seq<u8>) -> bool {
    let ord = s3m_ord(b);
    let ins = s3m_ins(b);
    let pat = s3m_pat(b);
    let pan = 0x60 + ord + 2 * ins + 2 * pat;
    &&& d.wf()
    &&& d.song_name@ == field_string(b, 0, 28)
    &&& d.ord_num == le16(b, 0x20)
    &&& d.ins_num == le16(b, 0x22)
    &&& d.pat_num == le16(b, 0x24)
    &&& d.flags == le16(b, 0x26)
    &&& d.cwt_v == le16(b, 0x28)
    &&& d.ffi == le16(b, 0x2a)
    &&& d.g_v == b[0x30]
    &&& d.i_s == b[0x31]
    &&& d.i_t == b[0x32]
    &&& d.m_v == b[0x33]
    &&& d.d_p == b[0x35]
    &&& d.ch_settings@ == b.subrange(0x40, 0x60)
    &&& d.orders@ == b.subrange(0x60, 0x60 + ord)
    &&& d.instrum_pp@.len() == ins
    &&& forall|i: int| 0 <= i < ins ==> #[trigger] d.instrum_pp@[i] == s3m_ins_ofs(b, i)
    &&& d.pattern_pp@.len() == pat
    &&& forall|i: int| 0 <= i < pat ==> #[trigger] d.pattern_pp@[i] == s3m_pat_ofs(b, i)
    &&& d.ch_pan@ == b.subrange(pan, pan + 32)
    &&& d.instruments@.len() == ins
    &&& d.samples@.len() == ins
    &&& forall|i: int| 0 <= i < ins ==> {
        &&& s3m_instrument_at(#[trigger] d.instruments@[i], b, s3m_ins_ofs(b, i))
        &&& s3m_sample_at(d.samples@[i], b, i, d.instruments@[i], d.ffi != 1)
    }
    &&& d.patterns@.len() == pat
    &&& forall|i: int| 0 <= i < pat ==> {
        let o = s3m_pat_ofs(b, i);
        &&& #[trigger] d.patterns@[i].size == le16(b, o)
        &&& d.patterns@[i].data@ == b.subrange(o, o + le16(b, o) + 2)
    }
    &&& d.channels == s3m_channels(b.subrange(0x40, 0x60), 32)
}

/// The module loaded from S3M file `b`.
pub open spec fn s3m_module_loaded(m: Module, b: Seq<u8>) -> bool {
    &&& m.data matches ModuleData::S3m(d)
    &&& s3m_data_loaded(d, b)
    &&& m.format_id@ == "s3m"@
    &&& m.description@ == "Scream Tracker 3 S3M"@
    &&& m.creator@ == s3m_creator(le16(b, 0x28))
    &&& m.channels == d.channels
    &&& m.player@ == "st3"@
}

/// What loading S3M file `b` probed as format `f` gives.
pub open spec fn s3m_load_result(r: Result<Module, Error>, b: Seq<u8>, f: Format) -> bool {
    &&& f != Format::S3m ==> (r matches Err(e) && format_error(e, "unsupported format"@))
    &&& f == Format::S3m ==> (r is Ok <==> s3m_complete(b))
    &&& f == Format::S3m && !s3m_complete(b) ==> (r matches Err(e) && e is Load)
    &&& r matches Ok(m) ==> s3m_module_loaded(m, b)
}

/// The S3M probe succeeds: type 16, the "SCRM" tag, a player that accepts
/// the format.
pub open spec fn s3m_probe_ok(b: Seq<u8>, player_id: Seq<char>) -> bool {
    &&& b.len() >= 256
    &&& b[0x1d] == 16
    &&& field_string(b, 0x2c, 4) == "SCRM"@
    &&& spec_check_accepted(player_id, "s3m"@) is Ok
}

/// Reads the instrument header at `ofs`.
pub fn load_instrument(b: &[u8], ofs: usize) -> (r: Result<S3mInstrument, Error>)
    requires
        ofs + 0x4c <= usize::MAX,
    ensures
        r is Ok <==> ofs + 0x4c <= b@.len(),
        r matches Ok(ins) ==> s3m_instrument_at(ins, b@, ofs as int),
        r matches Err(e) ==> e is Load,
{
    let mut ins = S3mInstrument::new();
    ins.typ = b.read8(ofs)?;
    ins.memseg = (b.read16l(ofs + 0x0e)? as u32) | ((b.read8(ofs + 0x0d)? as u32) << 16);
    ins.length = b.read16l_lo_hi(ofs + 0x10)?;
    ins.loop_beg = b.read16l_lo_hi(ofs + 0x14)?;
    ins.loop_end = b.read16l_lo_hi(ofs + 0x18)?;
    ins.vol = b.read8i(ofs + 0x1c)?;
    ins.flags = b.read8i(ofs + 0x1f)?;
    ins.c2spd = b.read16l_lo_hi(ofs + 0x20)?;
    ins.name = b.read_string(ofs + 0x30, 28)?;
    Ok(ins)
}

/// Loads the sample of instrument `ins`, number `i`, converting unsigned
/// data to signed where `cvt` holds. Sample data that does not fit in the
/// file is a short read; so is a 16-bit sample whose byte size exceeds 32
/// bits (a 32-bit byte count cannot hold it).
pub fn load_sample(b: &[u8], i: usize, ins: &S3mInstrument, cvt: bool) -> (r: Result<Sample, Error>)
    requires
        ins.memseg < 0x1000000,
        i < usize::MAX,
    ensures
        r is Ok <==> ins.memseg * 16 + s3m_sample_bytes(ins.length, ins.flags) <= b@.len(),
        r matches Ok(s) ==> s3m_sample_at(s, b@, i as int, *ins, cvt),
        r matches Err(e) ==> e is Load,
{
    let mut smp = Sample::new();
    smp.num = i + 1;
    smp.address = ins.memseg * 16;
    smp.name = ins.name.clone();
    smp.size = ins.length;
    if smp.size > 0 {
        smp.sample_type = if ins.flags & 0x04 != 0 { SampleType::Sample16 } else { SampleType::Sample8 };
    }
    let sample_size: u64 = if ins.flags & 0x04 != 0 { smp.size as u64 * 2 } else { smp.size as u64 };
    let start: u64 = ins.memseg as u64 * 16;
    if start + sample_size > b.len() as u64 {
        return Err(short_read(start + sample_size, b.len() as u64));
    }
    let s = b.slice(start as usize, sample_size as usize).unwrap();
    smp.store(s);
    if cvt {
        smp.to_signed();
    }
    Ok(smp)
}

/// The tracker named by the version word; see `s3m_creator`.
fn creator_name(cwt: u16) -> (r: String)
    ensures
        r@ == s3m_creator(cwt),
{
    let major = (cwt & 0xf00) >> 8;
    let minor = (cwt & 0xff) as u8;
    let mut ver: Vec<char> = Vec::new();
    push_dec(&mut ver, major as u64);
    push_str(&mut ver, ".");
    push_hex2(&mut ver, minor);
    let kind = cwt >> 12;
    let mut v: Vec<char> = Vec::new();
    if kind == 1 {
        push_str(&mut v, "Scream Tracker ");
    } else if kind == 2 {
        push_str(&mut v, "Imago Orpheus ");
    } else if kind == 3 {
        if cwt == 0x3216 {
            return str_string("Impulse Tracker 2.14v3");
        } else if cwt == 0x3217 {
            return str_string("Impulse Tracker 2.14v5");
        }
        push_str(&mut v, "Impulse Tracker ");
    } else if kind == 4 {
        if cwt == 0x4100 {
            return str_string("BeRoTracker 1.00");
        }
        push_str(&mut v, "Schism Tracker ");
    } else if kind == 5 {
        push_str(&mut v, "OpenMPT ");
    } else if kind == 6 {
        push_str(&mut v, "BeRoTracker ");
    } else {
        push_str(&mut v, "unknown (");
    }
    v.append(&mut ver);
    chars_to_string(&v)
}

/// The channel count of the 32 channel settings; see `s3m_channels`.
fn count_channels(settings: &[u8]) -> (r: usize)
    requires
        settings@.len() == 32,
    ensures
        r == s3m_channels(settings@, 32),
        1 <= r <= 32,
{
    let mut chn: usize = 0;
    let mut i: usize = 0;
    while i < 32
        invariant
            settings@.len() == 32,
            i <= 32,
            chn < 32,
            chn + 1 == s3m_channels(settings@, i as int),
        decreases 32 - i,
    {
        if settings[i] != 0xff {
            chn = i;
        }
        i = i + 1;
    }
    chn + 1
}

/// Reads `n` parapointers from `ofs`, each a word counting 16-byte
/// paragraphs.
fn read_parapointers(b: &[u8], ofs: usize, n: u16) -> (r: Result<Vec<u32>, Error>)
    requires
        ofs <= 0x60 + 0xffff + 2 * 0xffff,
    ensures
        r is Ok <==> (n == 0 || ofs + 2 * n <= b@.len()),
        r matches Ok(v) ==> v@.len() == n
            && forall|i: int| 0 <= i < n ==> #[trigger] v@[i] == 16 * le16(b@, ofs + 2 * i),
        r matches Err(e) ==> e is Load,
{
    let mut v: Vec<u32> = Vec::new();
    let mut k: usize = 0;
    while k < n as usize
        invariant
            ofs <= 0x60 + 0xffff + 2 * 0xffff,
            k <= n,
            k > 0 ==> ofs + 2 * k <= b@.len(),
            v@.len() == k,
            forall|i: int| 0 <= i < k ==> #[trigger] v@[i] == 16 * le16(b@, ofs + 2 * i),
        decreases n - k,
    {
        let w = b.read16l(ofs + 2 * k)?;
        v.push(w as u32 * 16);
        k = k + 1;
    }
    Ok(v)
}

impl S3mLoader {
    pub fn name(&self) -> (r: &'static str)
        ensures
            r@ == "Scream Tracker 3"@,
    {
        "Scream Tracker 3"
    }

    /// Recognizes an S3M file by the type byte 16 at 0x1d and the tag "SCRM"
    /// at 0x2c, and checks that the player `player_id` accepts it.
    pub fn probe(&self, b: &[u8], player_id: &str) -> (r: Result<ProbeInfo, Error>)
        ensures
            b@.len() < 256 ==> (r matches Err(e) && format_error(e, "file too short ("@ + dec_chars(b@.len()) + ")"@)),
            b@.len() >= 256 ==> {
                let magic = field_string(b@, 0x2c, 4);
                if b@[0x1d] == 16 && magic == "SCRM"@ {
                    match spec_check_accepted(player_id@, "s3m"@) {
                        Ok(_) => r matches Ok(info) && info.format == Format::S3m
                            && info.title@ == field_string(b@, 0, 28),
                        Err(m) => r matches Err(e) && format_error(e, m),
                    }
                } else {
                    r matches Err(e) && format_error(e, "bad magic "@ + spec_debug_str(magic))
                }
            },
    {
        if b.len() < 256 {
            return Err(Error::Format(num_msg("file too short (", b.len() as u64, ")")));
        }
        let typ = b.read8(0x1d).unwrap();
        let magic = b.read_string(0x2c, 4).unwrap();
        if typ == 16 && str_eq(magic.as_str(), "SCRM") {
            check_accepted(player_id, "s3m")?;
            Ok(ProbeInfo { format: Format::S3m, title: b.read_string(0, 28).unwrap() })
        } else {
            let mut v: Vec<char> = Vec::new();
            push_str(&mut v, "bad magic ");
            let d = debug_str(magic.as_str());
            push_str(&mut v, d.as_str());
            Err(Error::Format(chars_to_string(&v)))
        }
    }

    /// Loads an S3M module probed as `info`.
    pub fn load(&self, b: &[u8], info: ProbeInfo) -> (r: Result<Module, Error>)
        ensures
            s3m_load_result(r, b@, info.format),
    {
        if info.format != Format::S3m {
            return Err(Error::Format(str_string("unsupported format")));
        }
        let song_name = b.read_string(0, 28)?;
        let ord_num = b.read16l(0x20)?;
        let ins_num = b.read16l(0x22)?;
        let pat_num = b.read16l(0x24)?;
        let flags = b.read16l(0x26)?;
        let cwt_v = b.read16l(0x28)?;
        let ffi = b.read16l(0x2a)?;
        let g_v = b.read8(0x30)?;
        let i_s = b.read8(0x31)?;
        let i_t = b.read8(0x32)?;
        let m_v = b.read8(0x33)?;
        let d_p = b.read8(0x35)?;
        let ch_settings = b.slice(0x40, 32)?;

        let orders = vstd::slice::slice_to_vec(b.slice(0x60, ord_num as usize)?);
        let ofs = 0x60 + ord_num as usize;
        let instrum_pp = read_parapointers(b, ofs, ins_num)?;
        let pofs = ofs + 2 * ins_num as usize;
        let pattern_pp = read_parapointers(b, pofs, pat_num)?;
        let cofs = pofs + 2 * pat_num as usize;
        let ch_pan = b.slice(cofs, 32)?;

        proof {
            assert forall|i: int| 0 <= i < ins_num implies #[trigger] instrum_pp@[i] == s3m_ins_ofs(b@, i) by {}
            assert forall|i: int| 0 <= i < pat_num implies #[trigger] pattern_pp@[i] == s3m_pat_ofs(b@, i) by {}
            assert((forall|i: int| 0 <= i < ins_num ==> s3m_instrument_present(b@, #[trigger] instrum_pp@[i] as int))
                <==> (forall|i: int| 0 <= i < s3m_ins(b@) ==> s3m_instrument_present(b@, #[trigger] s3m_ins_ofs(b@, i)))) by {
                if forall|i: int| 0 <= i < ins_num ==> s3m_instrument_present(b@, #[trigger] instrum_pp@[i] as int) {
                    assert forall|i: int| 0 <= i < s3m_ins(b@) implies s3m_instrument_present(b@, #[trigger] s3m_ins_ofs(b@, i)) by {
                        assert(instrum_pp@[i] == s3m_ins_ofs(b@, i));
                    }
                }
                if forall|i: int| 0 <= i < s3m_ins(b@) ==> s3m_instrument_present(b@, #[trigger] s3m_ins_ofs(b@, i)) {
                    assert forall|i: int| 0 <= i < ins_num implies s3m_instrument_present(b@, #[trigger] instrum_pp@[i] as int) by {
                        assert(instrum_pp@[i] == s3m_ins_ofs(b@, i));
                    }
                }
            }
            assert((forall|i: int| 0 <= i < pat_num ==> s3m_pattern_present(b@, #[trigger] pattern_pp@[i] as int))
                <==> (forall|i: int| 0 <= i < s3m_pat(b@) ==> s3m_pattern_present(b@, #[trigger] s3m_pat_ofs(b@, i)))) by {
                if forall|i: int| 0 <= i < pat_num ==> s3m_pattern_present(b@, #[trigger] pattern_pp@[i] as int) {
                    assert forall|i: int| 0 <= i < s3m_pat(b@) implies s3m_pattern_present(b@, #[trigger] s3m_pat_ofs(b@, i)) by {
                        assert(pattern_pp@[i] == s3m_pat_ofs(b@, i));
                    }
                }
                if forall|i: int| 0 <= i < s3m_pat(b@) ==> s3m_pattern_present(b@, #[trigger] s3m_pat_ofs(b@, i)) {
                    assert forall|i: int| 0 <= i < pat_num implies s3m_pattern_present(b@, #[trigger] pattern_pp@[i] as int) by {
                        assert(pattern_pp@[i] == s3m_pat_ofs(b@, i));
                    }
                }
            }
        }
        let instruments_and_samples = load_instruments(b, &instrum_pp, ins_num, ffi != 1)?;
        let patterns = load_patterns(b, &pattern_pp, pat_num)?;
        let num_chn = count_channels(ch_settings);
        let (instruments, samples) = instruments_and_samples;

        let data = S3mData {
            song_name,
            ord_num,
            ins_num,
            pat_num,
            flags,
            cwt_v,
            ffi,
            g_v,
            m_v,
            i_s,
            i_t,
            d_p,
            ch_settings: array32(ch_settings),
            orders,
            instrum_pp,
            pattern_pp,
            ch_pan: array32(ch_pan),
            instruments,
            patterns,
            samples,
            channels: num_chn,
        };
        Ok(Module {
            format_id: "s3m",
            description: str_string("Scream Tracker 3 S3M"),
            creator: creator_name(cwt_v),
            channels: num_chn,
            player: "st3",
            data: ModuleData::S3m(data),
        })
    }
}

/// Loads the instruments at the parapointers `pp`, each with its sample.
fn load_instruments(b: &[u8], pp: &Vec<u32>, n: u16, cvt: bool) -> (r: Result<(Vec<S3mInstrument>, Vec<Sample>), Error>)
    requires
        pp@.len() == n,
        forall|i: int| 0 <= i < n ==> #[trigger] pp@[i] < 0x100000,
    ensures
        r is Ok <==> forall|i: int| 0 <= i < n ==> s3m_instrument_present(b@, #[trigger] pp@[i] as int),
        r matches Ok((ins, smp)) ==> {
            &&& ins@.len() == n
            &&& smp@.len() == n
            &&& forall|i: int| 0 <= i < n ==> {
                &&& s3m_instrument_at(#[trigger] ins@[i], b@, pp@[i] as int)
                &&& s3m_sample_at(smp@[i], b@, i, ins@[i], cvt)
            }
        },
        r matches Err(e) ==> e is Load,
{
    let mut instruments: Vec<S3mInstrument> = Vec::new();
    let mut samples: Vec<Sample> = Vec::new();
    let mut i: usize = 0;
    while i < n as usize
        invariant
            pp@.len() == n,
            forall|j: int| 0 <= j < n ==> #[trigger] pp@[j] < 0x100000,
            i <= n,
            instruments@.len() == i,
            samples@.len() == i,
            forall|j: int| 0 <= j < i ==> s3m_instrument_present(b@, #[trigger] pp@[j] as int),
            forall|j: int| 0 <= j < i ==> {
                &&& s3m_instrument_at(#[trigger] instruments@[j], b@, pp@[j] as int)
                &&& s3m_sample_at(samples@[j], b@, j, instruments@[j], cvt)
            },
        decreases n - i,
    {
        let ins = load_instrument(b, pp[i] as usize)?;
        proof {
            let o = pp@[i as int] as int;
            let lo = le16(b@, o + 0x0e) as u32;
            let hi = b@[o + 0x0d] as u32;
            assert((lo | (hi << 16)) < 0x1000000) by (bit_vector)
                requires lo < 0x10000, hi < 0x100;
        }
        let smp = load_sample(b, i, &ins, cvt)?;
        instruments.push(ins);
        samples.push(smp);
        i = i + 1;
    }
    Ok((instruments, samples))
}

/// Loads the packed patterns at the parapointers `pp`.
fn load_patterns(b: &[u8], pp: &Vec<u32>, n: u16) -> (r: Result<Vec<S3mPattern>, Error>)
    requires
        pp@.len() == n,
        forall|i: int| 0 <= i < n ==> #[trigger] pp@[i] < 0x100000,
    ensures
        r is Ok <==> forall|i: int| 0 <= i < n ==> s3m_pattern_present(b@, #[trigger] pp@[i] as int),
        r matches Ok(v) ==> v@.len() == n && forall|i: int| #![trigger v@[i]] 0 <= i < n ==> {
            let o = pp@[i] as int;
            &&& v@[i].size == le16(b@, o)
            &&& v@[i].data@ == b@.subrange(o, o + le16(b@, o) + 2)
            &&& v@[i].data@.len() <= 65537
        },
        r matches Err(e) ==> e is Load,
{
    let mut patterns: Vec<S3mPattern> = Vec::new();
    let mut i: usize = 0;
    while i < n as usize
        invariant
            pp@.len() == n,
            forall|j: int| 0 <= j < n ==> #[trigger] pp@[j] < 0x100000,
            i <= n,
            patterns@.len() == i,
            forall|j: int| 0 <= j < i ==> s3m_pattern_present(b@, #[trigger] pp@[j] as int),
            forall|j: int| #![trigger patterns@[j]] 0 <= j < i ==> {
                let o = pp@[j] as int;
                &&& patterns@[j].size == le16(b@, o)
                &&& patterns@[j].data@ == b@.subrange(o, o + le16(b@, o) + 2)
                &&& patterns@[j].data@.len() <= 65537
            },
        decreases n - i,
    {
        let ofs = pp[i] as usize;
        let plen = b.read16l(ofs)? as usize;
        let data = vstd::slice::slice_to_vec(b.slice(ofs, plen + 2)?);
        patterns.push(S3mPattern { size: plen, data });
        i = i + 1;
    }
    Ok(patterns)
}

/// The 32 bytes of `s` as an array.
fn array32(s: &[u8]) -> (r: [u8; 32])
    requires
        s@.len() == 32,
    ensures
        r@ == s@,
{
    let mut a = [0u8; 32];
    let mut k: usize = 0;
    while k < 32
        invariant
            s@.len() == 32,
            k <= 32,
            forall|j: int| 0 <= j < k ==> a@[j] == s@[j],
        decreases 32 - k,
    {
        a[k] = s[k];
        k = k + 1;
    }
    a
}

} // verus!
