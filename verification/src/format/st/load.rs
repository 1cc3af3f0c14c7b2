//! The Soundtracker and Ultimate Soundtracker 15-instrument loader.

use vstd::prelude::*;
use crate::format::{Format, ProbeInfo, probe_result};
use crate::format::mk::{ModInstrument, ModPatterns, mod_instrument_at, mod_event_at};
use crate::format::mk::fingerprint::{standard_note_table, is_standard_note};
use crate::format::mk::load::{too_short_msg, max_prefix, mod_sample_bytes, mod_sample_at,
    read_instruments, highest_pattern, load_samples, order_array, lemma_sample_bytes_bound};
use crate::format::st::StData;
use crate::module::{Module, ModuleData};
use crate::player::{check_accepted, spec_check_accepted};
use crate::text::{dec_chars, str_string, num_msg, num2_msg, pre_num};
use crate::util::{be16, field_string, short_read_msg, BinaryRead};
use crate::{Error, format_error};

verus! {

/// Soundtracker 15-instrument module loader.
pub struct StLoader;

/// No byte of `b[ofs..ofs + size]` is a control character or beyond ASCII.
pub open spec fn name_ok(b: Seq<u8>, ofs: int, size: int) -> bool {
    forall|k: int| ofs <= k < ofs + size ==> #[trigger] b[k] <= 0x7f && !(0 < b[k] < 32)
}

/// Checks a name field of `size` bytes at `ofs`.
pub fn test_name(b: &[u8], ofs: usize, size: usize) -> (r: bool)
    requires
        ofs + size <= b.len(),
    ensures
        r == name_ok(b@, ofs as int, size as int),
{
    let mut k: usize = ofs;
    while k < ofs + size
        invariant
            ofs <= k <= ofs + size,
            ofs + size <= b.len(),
            forall|j: int| ofs <= j < k ==> #[trigger] b@[j] <= 0x7f && !(0 < b@[j] < 32),
        decreases ofs + size - k,
    {
        let x = b[k];
        if x > 0x7f {
            return false;
        }
        if x > 0 && x < 32 {
            return false;
        }
        k = k + 1;
    }
    true
}

/// The complaint about the header of instrument `i`, if any.
pub open spec fn st_instrument_error(b: Seq<u8>, i: int) -> Option<Seq<char>> {
    let ofs = 20 + 30 * i;
    let size = be16(b, ofs + 22);
    let repeat = be16(b, ofs + 26);
    let replen = be16(b, ofs + 28);
    let pre = "sample "@ + dec_chars(i as nat);
    if !name_ok(b, ofs + 1, 21) {
        Some(pre + " invalid instrument name"@)
    } else if size > 0x8000 {
        Some(pre + " invalid instrument size "@ + dec_chars(size as nat))
    } else if b[ofs + 24] != 0 {
        Some(pre + " has finetune"@)
    } else if b[ofs + 25] > 0x40 {
        Some(pre + " invalid volume"@)
    } else if repeat >> 1 > size {
        Some(pre + " repeat > size"@)
    } else if replen > 0x8000 {
        Some(pre + " invalid replen"@)
    } else if size > 0 && repeat >> 1 == size {
        Some(pre + " repeat > size"@)
    } else if size == 0 && repeat > 0 {
        Some(pre + " invalid repeat"@)
    } else {
        None
    }
}

/// Instrument `i` holds more than Ultimate Soundtracker allowed: samples of
/// at most 9999 bytes, given in hexadecimal words (0x1387).
pub open spec fn st_beyond_ust(b: Seq<u8>, i: int) -> bool {
    let ofs = 20 + 30 * i;
    be16(b, ofs + 22) > 0x1387 || be16(b, ofs + 26) > 9999 || be16(b, ofs + 28) > 0x1387
}

/// Checks the first `n` instrument headers: the first complaint, or the
/// total sample size (a 16-bit sum that wraps) and whether all of them fit
/// Ultimate Soundtracker.
pub open spec fn st_instruments_scan(b: Seq<u8>, n: int) -> Result<(u16, bool), Seq<char>>
    decreases n,
{
    if n <= 0 {
        Ok((0u16, true))
    } else {
        match st_instruments_scan(b, n - 1) {
            Err(m) => Err(m),
            Ok((total, ust)) => match st_instrument_error(b, n - 1) {
                Some(m) => Err(m),
                None => Ok((
                    ((total + 2 * be16(b, 20 + 30 * (n - 1) + 22)) % 0x10000) as u16,
                    ust && !st_beyond_ust(b, n - 1),
                )),
            },
        }
    }
}

/// Checks the first `n` orders: the first one above 127, or the highest.
pub open spec fn st_orders_scan(b: Seq<u8>, n: int) -> Result<u8, Seq<char>>
    decreases n,
{
    if n <= 0 {
        Ok(0u8)
    } else {
        match st_orders_scan(b, n - 1) {
            Err(m) => Err(m),
            Ok(p) => {
                let x = b[472 + n - 1];
                if x > 0x7f {
                    Err("invalid pattern number "@ + dec_chars(x as nat) + " in orders"@)
                } else if x > p {
                    Ok(x)
                } else {
                    Ok(p)
                }
            },
        }
    }
}

/// Checks the event at `ofs` given the effects seen so far and whether the
/// module still looks like Ultimate Soundtracker; an error is flagged as a
/// short read or a format error.
pub open spec fn st_event_step(b: Seq<u8>, ofs: int, acc: (u32, bool)) -> Result<(u32, bool), (bool, Seq<char>)> {
    if ofs + 2 > b.len() {
        Err((true, short_read_msg((ofs + 2) as nat, b.len())))
    } else {
        let note = be16(b, ofs);
        if note & 0xf000 != 0 {
            Err((false, "invalid event sample"@))
        } else if note != 0 && !standard_note_table().contains(note) {
            Err((false, "invalid note "@ + dec_chars(note as nat)))
        } else if ofs + 3 > b.len() {
            Err((true, short_read_msg((ofs + 3) as nat, b.len())))
        } else if ofs + 4 > b.len() {
            Err((true, short_read_msg((ofs + 4) as nat, b.len())))
        } else {
            let cmd = b[ofs + 2] & 0x0f;
            let cmdlo = b[ofs + 3];
            let used = if cmd != 0 {
                acc.0 | (1u32 << cmd)
            } else if cmdlo != 0 {
                acc.0 | 1
            } else {
                acc.0
            };
            let ust = acc.1 && !(cmd == 1 && cmdlo == 0)
                && !(cmd == 2 && (cmdlo & 0xf0) != 0 && (cmdlo & 0x0f) != 0);
            Ok((used, ust))
        }
    }
}

/// Checks the first `n` events of the patterns, four bytes each from 600.
pub open spec fn st_events_scan(b: Seq<u8>, n: int, ust: bool) -> Result<(u32, bool), (bool, Seq<char>)>
    decreases n,
{
    if n <= 0 {
        Ok((0u32, ust))
    } else {
        match st_events_scan(b, n - 1, ust) {
            Err(e) => Err(e),
            Ok(acc) => st_event_step(b, 600 + 4 * (n - 1), acc),
        }
    }
}

/// What probing `b` as a Soundtracker module for player `player_id` finds.
pub open spec fn st_probe_outcome(b: Seq<u8>, player_id: Seq<char>) -> Result<Format, (bool, Seq<char>)> {
    match spec_check_accepted(player_id, "st"@) {
        Err(m) => Err((false, m)),
        Ok(_) => if b.len() < 600 {
            Err((false, too_short_msg(b.len())))
        } else if !name_ok(b, 0, 20) {
            Err((false, "invalid title"@))
        } else {
            match st_instruments_scan(b, 15) {
                Err(m) => Err((false, m)),
                Ok((total, ust)) => if total < 8 {
                    Err((false, "invalid total sample size "@ + dec_chars(total as nat)))
                } else if b[470] == 0 || b[470] > 0x7f {
                    Err((false, "invalid length "@ + dec_chars(b[470] as nat)))
                } else if b[471] < 0x20 {
                    Err((false, "invalid initial tempo "@ + dec_chars(b[471] as nat)))
                } else {
                    match st_orders_scan(b, 128) {
                        Err(m) => Err((false, m)),
                        Ok(p) => match st_events_scan(b, 256 * (p + 1), ust) {
                            Err(e) => Err(e),
                            Ok((used, ust2)) => Ok(
                                if ust2 && used & 0xfff9 == 0 { Format::Ust } else { Format::St },
                            ),
                        },
                    }
                },
            }
        },
    }
}

proof fn lemma_ins_scan_err(b: Seq<u8>, i: int, n: int)
    requires
        0 <= i <= n,
        st_instruments_scan(b, i) is Err,
    ensures
        st_instruments_scan(b, n) == st_instruments_scan(b, i),
    decreases n - i,
{
    if i < n {
        lemma_ins_scan_err(b, i, n - 1);
    }
}

proof fn lemma_orders_scan_err(b: Seq<u8>, i: int, n: int)
    requires
        0 <= i <= n,
        st_orders_scan(b, i) is Err,
    ensures
        st_orders_scan(b, n) == st_orders_scan(b, i),
    decreases n - i,
{
    if i < n {
        lemma_orders_scan_err(b, i, n - 1);
    }
}

proof fn lemma_events_scan_err(b: Seq<u8>, i: int, n: int, ust: bool)
    requires
        0 <= i <= n,
        st_events_scan(b, i, ust) is Err,
    ensures
        st_events_scan(b, n, ust) == st_events_scan(b, i, ust),
    decreases n - i,
{
    if i < n {
        lemma_events_scan_err(b, i, n - 1, ust);
    }
}

/// Checks instrument header `i`.
fn check_instrument(b: &[u8], i: usize) -> (r: Result<(), String>)
    requires
        i < 15,
        b@.len() >= 600,
    ensures
        match st_instrument_error(b@, i as int) {
            Some(m) => r matches Err(s) && s@ == m,
            None => r is Ok,
        },
{
    let ofs = 20 + 30 * i;
    let size = b.read16b(ofs + 22).unwrap();
    let repeat = b.read16b(ofs + 26).unwrap();
    let replen = b.read16b(ofs + 28).unwrap();
    if !test_name(b, ofs + 1, 21) {
        return Err(num_msg("sample ", i as u64, " invalid instrument name"));
    }
    if size > 0x8000 {
        return Err(num2_msg("sample ", i as u64, " invalid instrument size ", size as u64));
    }
    if b[ofs + 24] != 0 {
        return Err(num_msg("sample ", i as u64, " has finetune"));
    }
    if b[ofs + 25] > 0x40 {
        return Err(num_msg("sample ", i as u64, " invalid volume"));
    }
    if repeat >> 1 > size {
        return Err(num_msg("sample ", i as u64, " repeat > size"));
    }
    if replen > 0x8000 {
        return Err(num_msg("sample ", i as u64, " invalid replen"));
    }
    if size > 0 && repeat >> 1 == size {
        return Err(num_msg("sample ", i as u64, " repeat > size"));
    }
    if size == 0 && repeat > 0 {
        return Err(num_msg("sample ", i as u64, " invalid repeat"));
    }
    Ok(())
}

/// Checks the event at `ofs`; see `st_event_step`.
fn check_event(b: &[u8], ofs: usize, used: u32, ust: bool) -> (r: Result<(u32, bool), Error>)
    requires
        ofs + 4 <= usize::MAX,
    ensures
        match st_event_step(b@, ofs as int, (used, ust)) {
            Ok(acc) => r == Ok::<(u32, bool), Error>(acc),
            Err((is_load, m)) => r matches Err(e) && if is_load {
                crate::load_error(e, m)
            } else {
                format_error(e, m)
            },
        },
{
    let note = b.read16b(ofs)?;
    if note & 0xf000 != 0 {
        return Err(Error::Format(str_string("invalid event sample")));
    }
    if note != 0 && !is_standard_note(note) {
        return Err(Error::Format(pre_num("invalid note ", note as u64)));
    }
    let c = b.read8(ofs + 2)?;
    let cmd = c & 0x0f;
    assert(c & 0x0f <= 15) by (bit_vector);
    let cmdlo = b.read8(ofs + 3)?;
    let mut used = used;
    let mut ust = ust;
    if cmd != 0 {
        used = used | (1u32 << cmd);
    } else if cmdlo != 0 {
        used = used | 1;
    }
    if cmd == 1 && cmdlo == 0 {
        ust = false;
    }
    if cmd == 2 && (cmdlo & 0xf0) != 0 && (cmdlo & 0x0f) != 0 {
        ust = false;
    }
    Ok((used, ust))
}

/// Checks the 15 instrument headers; see `st_instruments_scan`.
fn scan_instruments(b: &[u8]) -> (r: Result<(u16, bool), String>)
    requires
        b@.len() >= 600,
    ensures
        match st_instruments_scan(b@, 15) {
            Ok(acc) => r matches Ok(x) && x == acc,
            Err(m) => r matches Err(s) && s@ == m,
        },
{
    let mut total_size: u16 = 0;
    let mut ust = true;
    let mut i: usize = 0;
    while i < 15
        invariant
            b@.len() >= 600,
            i <= 15,
            st_instruments_scan(b@, i as int) == Ok::<(u16, bool), Seq<char>>((total_size, ust)),
        decreases 15 - i,
    {
        match check_instrument(b, i) {
            Ok(()) => {},
            Err(m) => {
                proof {
                    lemma_ins_scan_err(b@, i + 1, 15);
                }
                return Err(m);
            },
        }
        let ofs = 20 + 30 * i;
        let size = b.read16b(ofs + 22).unwrap();
        let repeat = b.read16b(ofs + 26).unwrap();
        let replen = b.read16b(ofs + 28).unwrap();
        // The sizes are summed as 16-bit words: the total wraps.
        total_size = total_size.wrapping_add(size.wrapping_mul(2));
        if size > 0x1387 || repeat > 9999 || replen > 0x1387 {
            ust = false;
        }
        i = i + 1;
    }
    Ok((total_size, ust))
}

/// Checks the 128 orders; see `st_orders_scan`.
fn scan_orders(b: &[u8]) -> (r: Result<u8, String>)
    requires
        b@.len() >= 600,
    ensures
        match st_orders_scan(b@, 128) {
            Ok(p) => r matches Ok(x) && x == p && p <= 0x7f,
            Err(m) => r matches Err(s) && s@ == m,
        },
{
    let mut pat: u8 = 0;
    let mut k: usize = 0;
    while k < 128
        invariant
            b@.len() >= 600,
            k <= 128,
            st_orders_scan(b@, k as int) == Ok::<u8, Seq<char>>(pat),
            pat <= 0x7f,
        decreases 128 - k,
    {
        let p = b[472 + k];
        if p > 0x7f {
            proof {
                lemma_orders_scan_err(b@, k + 1, 128);
            }
            return Err(num_msg("invalid pattern number ", p as u64, " in orders"));
        }
        if p > pat {
            pat = p;
        }
        k = k + 1;
    }
    Ok(pat)
}

/// Checks the events of patterns `0..=pat`; see `st_events_scan`.
fn scan_events(b: &[u8], pat: u8, ust: bool) -> (r: Result<(u32, bool), Error>)
    requires
        pat <= 0x7f,
    ensures
        match st_events_scan(b@, 256 * (pat + 1), ust) {
            Ok(acc) => r == Ok::<(u32, bool), Error>(acc),
            Err((is_load, m)) => r matches Err(e) && if is_load {
                crate::load_error(e, m)
            } else {
                format_error(e, m)
            },
        },
{
    let n: usize = 256 * (pat as usize + 1);
    let mut used: u32 = 0;
    let mut ust2 = ust;
    let mut e: usize = 0;
    while e < n
        invariant
            n == 256 * (pat + 1),
            pat <= 0x7f,
            e <= n,
            st_events_scan(b@, e as int, ust) == Ok::<(u32, bool), (bool, Seq<char>)>((used, ust2)),
        decreases n - e,
    {
        match check_event(b, 600 + 4 * e, used, ust2) {
            Ok((u, t)) => {
                used = u;
                ust2 = t;
            },
            Err(err) => {
                proof {
                    lemma_events_scan_err(b@, e + 1, n as int, ust);
                }
                return Err(err);
            },
        }
        e = e + 1;
    }
    Ok((used, ust2))
}

/// What loading Soundtracker file `b` probed as format `f` gives.
pub open spec fn st_load_result(r: Result<Module, Error>, b: Seq<u8>, f: Format) -> bool {
    &&& !(f == Format::St || f == Format::Ust) ==> (r matches Err(e) && format_error(e, "unsupported format"@))
    &&& (f == Format::St || f == Format::Ust) ==> (r is Ok <==> st_complete(b))
    &&& (f == Format::St || f == Format::Ust) && !st_complete(b) ==> (r matches Err(e) && e is Load)
    &&& r matches Ok(m) ==> st_module_loaded(m, b, f == Format::Ust)
}

/// The number of patterns of a Soundtracker file: one more than the
/// highest order within the song length.
pub open spec fn st_pat(b: Seq<u8>) -> int {
    max_prefix(b.subrange(472, 600), b[470] as int) + 1
}

/// Every part of a Soundtracker file, up to its last sample, is present.
pub open spec fn st_complete(b: Seq<u8>) -> bool {
    &&& b.len() >= 600
    &&& 600 + 1024 * st_pat(b) + mod_sample_bytes(b, 15) <= b.len()
}

/// The data of a Soundtracker module loaded from `b`.
pub open spec fn st_data_loaded(d: StData, b: Seq<u8>) -> bool {
    let pat = st_pat(b);
    &&& d.wf()
    &&& d.song_name@ == field_string(b, 0, 20)
    &&& d.instruments@.len() == 15
    &&& forall|i: int| 0 <= i < 15 ==> mod_instrument_at(#[trigger] d.instruments@[i], b, 20 + 30 * i)
    &&& d.song_length == b[470]
    &&& d.tempo == b[471]
    &&& d.orders@ == b.subrange(472, 600)
    &&& d.patterns.spec_num() == pat
    &&& forall|i: int| 0 <= i < d.patterns.events().len()
        ==> #[trigger] d.patterns.events()[i] == mod_event_at(b, 600 + 4 * i)
    &&& d.samples@.len() == 15
    &&& forall|i: int| 0 <= i < 15 ==> {
        let ofs = 600 + 1024 * pat + mod_sample_bytes(b, i);
        let size = 2 * d.instruments@[i].size;
        mod_sample_at(#[trigger] d.samples@[i], b.subrange(ofs, ofs + size), ofs, i, d.instruments@[i])
    }
}

/// The module loaded from Soundtracker file `b`, an Ultimate Soundtracker
/// module where `ust` holds.
pub open spec fn st_module_loaded(m: Module, b: Seq<u8>, ust: bool) -> bool {
    &&& m.data matches ModuleData::St(d)
    &&& st_data_loaded(d, b)
    &&& m.format_id@ == "st"@
    &&& m.description@ == "15 instrument module"@
    &&& m.creator@ == (if ust { "Ultimate Soundtracker"@ } else { "Soundtracker"@ })
    &&& m.channels == 4
    &&& m.player@ == (if ust { "ust"@ } else { "dst2"@ })
}

impl StLoader {
    pub fn name(&self) -> (r: &'static str)
        ensures
            r@ == "Soundtracker"@,
    {
        "Soundtracker"
    }

    /// Recognizes a Soundtracker module by the sanity of its title,
    /// instrument headers, orders and pattern events, and tells an Ultimate
    /// Soundtracker module by the limits of that tracker.
    pub fn probe(&self, b: &[u8], player_id: &str) -> (r: Result<ProbeInfo, Error>)
        ensures
            probe_result(r, st_probe_outcome(b@, player_id@), field_string(b@, 0, 20)),
    {
        check_accepted(player_id, "st")?;
        if b.len() < 600 {
            return Err(Error::Format(num_msg("file too short (", b.len() as u64, ")")));
        }
        if !test_name(b, 0, 20) {
            return Err(Error::Format(str_string("invalid title")));
        }
        let (total_size, ust) = match scan_instruments(b) {
            Ok(x) => x,
            Err(m) => return Err(Error::Format(m)),
        };
        if total_size < 8 {
            return Err(Error::Format(pre_num("invalid total sample size ", total_size as u64)));
        }
        let len = b[470];
        if len == 0 || len > 0x7f {
            return Err(Error::Format(pre_num("invalid length ", len as u64)));
        }
        let tempo = b[471];
        if tempo < 0x20 {
            return Err(Error::Format(pre_num("invalid initial tempo ", tempo as u64)));
        }
        let pat = match scan_orders(b) {
            Ok(p) => p,
            Err(m) => return Err(Error::Format(m)),
        };
        let (used, ust2) = scan_events(b, pat, ust)?;
        let title = b.read_string(0, 20).unwrap();
        if ust2 && used & 0xfff9 == 0 {
            Ok(ProbeInfo { format: Format::Ust, title })
        } else {
            Ok(ProbeInfo { format: Format::St, title })
        }
    }

    /// Loads a Soundtracker module probed as `info`.
    pub fn load(&self, b: &[u8], info: ProbeInfo) -> (r: Result<Module, Error>)
        requires
            b@.len() >= 600 ==> b@[470] <= 128,
        ensures
            st_load_result(r, b@, info.format),
    {
        if info.format != Format::St && info.format != Format::Ust {
            return Err(Error::Format(str_string("unsupported format")));
        }
        let song_name = b.read_string(0, 20)?;
        let (instruments, smp_size) = read_instruments(b, 15)?;
        let song_length = b.read8(470)?;
        let tempo = b.read8(471)?;
        let orders = b.slice(472, 128)?;
        let pat = highest_pattern(orders, song_length) + 1;
        proof {
            assert(orders@ == b@.subrange(472, 600));
            lemma_sample_bytes_bound(b@, 15);
        }
        let pdata = b.slice(600, 1024 * pat)?;
        let patterns = ModPatterns::from_slice(pat, pdata, 4)?;
        let samples = load_samples(b, 600 + 1024 * pat, &instruments, 15)?;
        let order_table = order_array(orders);
        let data = StData {
            song_name,
            instruments,
            song_length,
            tempo,
            orders: order_table,
            patterns,
            samples,
        };
        proof {
            assert forall|i: int| 0 <= i < data.patterns.events().len()
                implies #[trigger] data.patterns.events()[i] == mod_event_at(b@, 600 + 4 * i) by {
                assert(data.patterns.events()[i] == mod_event_at(pdata@, 4 * i));
            }
        }
        let ust = info.format == Format::Ust;
        let creator = if ust { str_string("Ultimate Soundtracker") } else { str_string("Soundtracker") };
        let player = if ust { "ust" } else { "dst2" };
        Ok(Module {
            format_id: "st",
            description: str_string("15 instrument module"),
            creator,
            channels: 4,
            player,
            data: ModuleData::St(data),
        })
    }
}

} // verus!
