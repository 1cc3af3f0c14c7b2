//! Conversion of a four, six or eight channel MOD module to an S3M module
//! that the Scream Tracker 3 replayer plays: instruments, packed patterns
//! with converted effects, and the samples as they are.

use vstd::prelude::*;
use crate::format::mk::{ModEvent, ModInstrument, ModPatterns, event_or_empty};
use crate::format::mk::note::{period_to_note, spec_period_note};
use crate::format::s3m::{S3mData, S3mInstrument, S3mPattern};
use crate::module::{Module, ModuleData};
use crate::module::sample::{copy_samples, same_samples};
use crate::text::{str_eq, str_string, push_str, chars_to_string};
use crate::{Error, format_error};

verus! {

/// The C-4 sample rate of each MOD finetune (0 to 7 up, 8 to 15 down).
pub open spec fn finetune_c2spd(finetune: u8) -> u32 {
    let f = finetune % 16;
    if f == 0 { 8363 }
    else if f == 1 { 8413 }
    else if f == 2 { 8463 }
    else if f == 3 { 8529 }
    else if f == 4 { 8581 }
    else if f == 5 { 8651 }
    else if f == 6 { 8723 }
    else if f == 7 { 8757 }
    else if f == 8 { 7895 }
    else if f == 9 { 7941 }
    else if f == 10 { 7985 }
    else if f == 11 { 8046 }
    else if f == 12 { 8107 }
    else if f == 13 { 8169 }
    else if f == 14 { 8232 }
    else { 8280 }
}

/// The C-4 sample rate of the low nibble of `finetune`.
fn c2spd_of(finetune: u8) -> (r: u32)
    ensures
        r == finetune_c2spd(finetune),
{
    let f = finetune % 16;
    if f == 0 { 8363 }
    else if f == 1 { 8413 }
    else if f == 2 { 8463 }
    else if f == 3 { 8529 }
    else if f == 4 { 8581 }
    else if f == 5 { 8651 }
    else if f == 6 { 8723 }
    else if f == 7 { 8757 }
    else if f == 8 { 7895 }
    else if f == 9 { 7941 }
    else if f == 10 { 7985 }
    else if f == 11 { 8046 }
    else if f == 12 { 8107 }
    else if f == 13 { 8169 }
    else if f == 14 { 8232 }
    else { 8280 }
}

/// The S3M command and info for the MOD effect `cmd` (0 to 15) with
/// parameter `info`. S3M commands are letters counted from `A` as 1; 0 is
/// no command.
pub open spec fn s3m_command(cmd: u8, info: u8) -> (u8, u8) {
    let x = info / 16;
    let y = info % 16;
    if cmd == 0 {
        (if info != 0 { 10u8 } else { 0u8 }, info)          // J, arpeggio
    } else if cmd == 1 {
        (6u8, info)                                         // F, slide up
    } else if cmd == 2 {
        (5u8, info)                                         // E, slide down
    } else if cmd == 3 {
        (7u8, info)                                         // G, tone portamento
    } else if cmd == 4 {
        (8u8, info)                                         // H, vibrato
    } else if cmd == 5 {
        (12u8, info)                                        // L, portamento and volume slide
    } else if cmd == 6 {
        (11u8, info)                                        // K, vibrato and volume slide
    } else if cmd == 7 {
        (18u8, info)                                        // R, tremolo
    } else if cmd == 9 {
        (15u8, info)                                        // O, sample offset
    } else if cmd == 10 {
        (4u8, info)                                         // D, volume slide
    } else if cmd == 11 {
        (2u8, info)                                         // B, position jump
    } else if cmd == 12 {
        (0u8, 0u8)                                          // the volume goes in its own byte
    } else if cmd == 13 {
        (3u8, (x * 10 + y) as u8)                           // C, pattern break, decimal row
    } else if cmd == 14 {
        if x == 0 {
            (19u8, info)                                    // S0, filter
        } else if x == 1 {
            (6u8, (0xf0 + y) as u8)                         // F, fine slide up
        } else if x == 2 {
            (5u8, (0xf0 + y) as u8)                         // E, fine slide down
        } else if x == 3 {
            (19u8, (0x10 + y) as u8)                        // S1, glissando
        } else if x == 4 {
            (19u8, (0x30 + y) as u8)                        // S3, vibrato waveform
        } else if x == 5 {
            (19u8, 0xb0u8)                                  // SB0, loop start
        } else if x == 6 {
            (19u8, (0xb0 + y) as u8)                        // SBx, loop
        } else if x == 7 {
            (19u8, (0x40 + y) as u8)                        // S4, tremolo waveform
        } else if x == 8 {
            (0u8, 0u8)
        } else if x == 9 {
            (15u8, y)                                       // O with `y` (retrigger E9y)
        } else if x == 10 {
            (4u8, (y * 16 + 0x0f) as u8)                    // D, fine volume slide up
        } else if x == 11 {
            (4u8, (0xf0 + y) as u8)                         // D, fine volume slide down
        } else {
            (19u8, info)                                    // S, cut, delay, pattern delay, invert loop
        }
    } else if cmd == 15 {
        (if info < 0x20 { 1u8 } else { 20u8 }, info)        // A speed, T tempo
    } else {
        (0u8, info)
    }
}

/// The S3M command and info for the MOD effect `cmd` with parameter
/// `info` (see `s3m_command`).
pub fn convert_cmd(cmd: u8, info: u8) -> (r: (u8, u8))
    ensures
        r == s3m_command(cmd, info),
{
    let x = info / 16;
    let y = info % 16;
    if cmd == 0 {
        (if info != 0 { 10u8 } else { 0u8 }, info)
    } else if cmd == 1 {
        (6, info)
    } else if cmd == 2 {
        (5, info)
    } else if cmd == 3 {
        (7, info)
    } else if cmd == 4 {
        (8, info)
    } else if cmd == 5 {
        (12, info)
    } else if cmd == 6 {
        (11, info)
    } else if cmd == 7 {
        (18, info)
    } else if cmd == 9 {
        (15, info)
    } else if cmd == 10 {
        (4, info)
    } else if cmd == 11 {
        (2, info)
    } else if cmd == 12 {
        (0, 0)
    } else if cmd == 13 {
        (3, x * 10 + y)
    } else if cmd == 14 {
        if x == 0 {
            (19, info)
        } else if x == 1 {
            (6, 0xf0 + y)
        } else if x == 2 {
            (5, 0xf0 + y)
        } else if x == 3 {
            (19, 0x10 + y)
        } else if x == 4 {
            (19, 0x30 + y)
        } else if x == 5 {
            (19, 0xb0)
        } else if x == 6 {
            (19, 0xb0 + y)
        } else if x == 7 {
            (19, 0x40 + y)
        } else if x == 8 {
            (0, 0)
        } else if x == 9 {
            (15, y)
        } else if x == 10 {
            (4, y * 16 + 0x0f)
        } else if x == 11 {
            (4, 0xf0 + y)
        } else {
            (19, info)
        }
    } else if cmd == 15 {
        (if info < 0x20 { 1u8 } else { 20u8 }, info)
    } else {
        (0, info)
    }
}

/// The S3M note byte of a 12-bit period: octave in the high nibble and
/// semitone in the low one, counted from C-1; 255 for no note.
pub open spec fn s3m_note_byte(period: u16) -> u8 {
    let n = spec_period_note(period as nat);
    if n == 0 { 255 } else { ((n / 12 - 1) * 16 + n % 12) as u8 }
}

/// The packed bytes of event `e` in channel `c`: a flag byte with the
/// channel, then note and instrument, volume (a MOD set-volume effect), and
/// the converted effect, each where the event has one.
pub open spec fn s3m_event_bytes(e: ModEvent, c: int) -> Seq<u8> {
    let k = e.cmd % 16;
    let has_note = e.note != 0;
    let has_vol = k == 12;
    let has_cmd = (k != 0 || e.cmdlo != 0) && k != 12;
    let b: int = (if has_note { 0x20int } else { 0 }) + (if has_vol { 0x40int } else { 0 })
        + (if has_cmd { 0x80int } else { 0 });
    let command = s3m_command(k, e.cmdlo);
    (if b != 0 { seq![(b + c) as u8] } else { Seq::<u8>::empty() })
        + (if has_note { seq![s3m_note_byte(e.note % 0x1000), (e.note / 0x1000 * 16 + e.cmd / 16) as u8] }
           else { Seq::<u8>::empty() })
        + (if has_vol { seq![e.cmdlo] } else { Seq::<u8>::empty() })
        + (if has_cmd { seq![command.0, command.1] } else { Seq::<u8>::empty() })
}

/// The MOD event at channel `c` of row `r` of pattern `num`, as the pattern
/// list indexes it (an empty event past the list).
pub open spec fn import_event(p: ModPatterns, num: int, r: int, c: int) -> ModEvent {
    event_or_empty(p.events(), (num * 64 + r) * p.spec_chn() + c)
}

/// The packed bytes of channels 0 to `c - 1` of row `r` of pattern `num`.
pub open spec fn s3m_row(p: ModPatterns, num: int, r: int, c: int) -> Seq<u8>
    decreases c,
{
    if c <= 0 {
        Seq::empty()
    } else {
        s3m_row(p, num, r, c - 1) + s3m_event_bytes(import_event(p, num, r, c - 1), c - 1)
    }
}

/// The packed rows 0 to `r - 1` of pattern `num` with `ch` channels, each
/// ended by a zero byte.
pub open spec fn s3m_rows(p: ModPatterns, num: int, ch: int, r: int) -> Seq<u8>
    decreases r,
{
    if r <= 0 {
        Seq::empty()
    } else {
        s3m_rows(p, num, ch, r - 1) + s3m_row(p, num, r - 1, ch).push(0)
    }
}

/// Pattern `num` of `p` packed as an S3M pattern of `ch` channels: the
/// little-endian length of the whole, itself included, then the 64 rows.
pub open spec fn s3m_encoded(p: ModPatterns, num: int, ch: int) -> Seq<u8> {
    let body = s3m_rows(p, num, ch, 64);
    let size = body.len() + 2;
    seq![(size % 256) as u8, (size / 256) as u8] + body
}

proof fn lemma_event_bytes_len(e: ModEvent, c: int)
    ensures
        s3m_event_bytes(e, c).len() <= 6,
{
}

proof fn lemma_row_len(p: ModPatterns, num: int, r: int, c: int)
    requires
        c >= 0,
    ensures
        s3m_row(p, num, r, c).len() <= 6 * c,
    decreases c,
{
    if c > 0 {
        lemma_row_len(p, num, r, c - 1);
        lemma_event_bytes_len(import_event(p, num, r, c - 1), c - 1);
    }
}

/// Packs pattern `num` of `patterns` for `ch` channels (see `s3m_encoded`).
pub fn encode_pattern(patterns: &ModPatterns, num: usize, ch: usize) -> (r: S3mPattern)
    requires
        ch <= 8,
    ensures
        r.data@ == s3m_encoded(*patterns, num as int, ch as int),
        r.size == r.data@.len(),
        r.data@.len() <= 2 + 64 * 49,
{
    let mut data: Vec<u8> = Vec::new();
    data.push(0);
    data.push(0);
    let mut r: usize = 0;
    while r < 64
        invariant
            r <= 64,
            ch <= 8,
            data@.len() >= 2,
            data@.subrange(2, data@.len() as int) == s3m_rows(*patterns, num as int, ch as int, r as int),
            data@.len() <= 2 + 49 * r,
        decreases 64 - r,
    {
        let ghost before = data@;
        let mut c: usize = 0;
        while c < ch
            invariant
                r < 64,
                c <= ch,
                ch <= 8,
                before.len() >= 2,
                before.len() <= 2 + 49 * r,
                data@.len() >= before.len(),
                data@.subrange(0, before.len() as int) == before,
                data@.subrange(before.len() as int, data@.len() as int) == s3m_row(*patterns, num as int, r as int, c as int),
                data@.len() <= before.len() + 6 * c,
            decreases ch - c,
        {
            let e = patterns.event_or_empty(num, r, c);
            let ghost mid = data@;
            let k = e.cmd % 16;
            let has_note = e.note != 0;
            let has_vol = k == 12;
            let has_cmd = (k != 0 || e.cmdlo != 0) && k != 12;
            let b: u8 = (if has_note { 0x20u8 } else { 0 }) + (if has_vol { 0x40u8 } else { 0 })
                + (if has_cmd { 0x80u8 } else { 0 });
            if b != 0 {
                data.push(b + c as u8);
            }
            if has_note {
                let n = period_to_note(e.note % 0x1000);
                let note: u8 = if n == 0 { 255 } else { (n / 12 - 1) * 16 + n % 12 };
                let ins: u8 = (e.note / 0x1000) as u8 * 16 + e.cmd / 16;
                data.push(note);
                data.push(ins);
            }
            if has_vol {
                data.push(e.cmdlo);
            }
            if has_cmd {
                let (cmd, info) = convert_cmd(k, e.cmdlo);
                data.push(cmd);
                data.push(info);
            }
            proof {
                let ev = import_event(*patterns, num as int, r as int, c as int);
                assert(e == ev);
                assert(data@.subrange(mid.len() as int, data@.len() as int) =~= s3m_event_bytes(ev, c as int));
                lemma_event_bytes_len(ev, c as int);
                assert(data@.subrange(before.len() as int, data@.len() as int) =~=
                    data@.subrange(before.len() as int, mid.len() as int)
                    + data@.subrange(mid.len() as int, data@.len() as int));
                assert(data@.subrange(before.len() as int, mid.len() as int)
                    =~= mid.subrange(before.len() as int, mid.len() as int));
                assert(data@.subrange(0, before.len() as int) =~= mid.subrange(0, before.len() as int));
            }
            c = c + 1;
        }
        data.push(0);
        proof {
            lemma_row_len(*patterns, num as int, r as int, ch as int);
            assert(data@.subrange(2, data@.len() as int) =~=
                before.subrange(2, before.len() as int)
                + data@.subrange(before.len() as int, data@.len() as int - 1).push(0));
        }
        r = r + 1;
    }
    let size = data.len();
    assert(size <= 2 + 64 * 49);
    data.set(0, (size % 256) as u8);
    data.set(1, (size / 256) as u8);
    proof {
        let body = s3m_rows(*patterns, num as int, ch as int, 64);
        assert(data@ =~= seq![(size % 256) as u8, (size / 256) as u8] + body);
    }
    S3mPattern { size, data }
}

/// The number of instruments up to the last of the first `n` with sample
/// data.
pub open spec fn used_instruments(ins: Seq<ModInstrument>, n: int) -> int
    decreases n,
{
    if n <= 0 {
        0
    } else if ins[n - 1].size > 0 {
        n
    } else {
        used_instruments(ins, n - 1)
    }
}

/// The S3M instrument `s` imported from the MOD instrument `i`: a sample
/// with the MOD's lengths in bytes, its volume, a loop where the repeat is
/// longer than a word, and the rate of its finetune.
pub open spec fn imported_instrument(i: ModInstrument, s: S3mInstrument) -> bool {
    &&& s.typ == 1 && s.memseg == 0
    &&& s.length == i.size as u32 * 2
    &&& s.loop_beg == i.repeat as u32 * 2
    &&& s.loop_end == (i.repeat as u32 + i.replen as u32) * 2
    &&& s.vol == i.volume as i8
    &&& s.flags == (if i.replen > 1 { 1i8 } else { 0i8 })
    &&& s.c2spd == finetune_c2spd(i.finetune)
    &&& s.name@ == i.name@
}

/// The channel count of the MOD formats that import: 4 for "m.k.", 6 for
/// "6CHN", 8 for "8CHN"; 0 for any other format.
pub open spec fn import_channels(id: Seq<char>) -> int {
    if id == "m.k."@ { 4 } else if id == "6CHN"@ { 6 } else if id == "8CHN"@ { 8 } else { 0 }
}

/// Channel setting `j` of an imported module: the four (six, eight) MOD
/// channels left, right, right, left, then unused.
pub open spec fn imported_ch_setting(j: int) -> u8 {
    if j == 0 { 0 } else if j == 1 { 9 } else if j == 2 { 10 } else if j == 3 { 3 }
    else if j == 4 { 4 } else if j == 5 { 14 } else if j == 6 { 15 } else if j == 7 { 7 }
    else { 255 }
}

/// The error for a format that does not import.
pub open spec fn import_error_msg(id: Seq<char>) -> Seq<char> {
    "can't import "@ + id + " module"@
}

/// `r` is the S3M module imported from the MOD module `m`.
pub open spec fn imported(m: Module, r: Module) -> bool {
    let d = m.data->Mod_0;
    let ch = import_channels(m.format_id@);
    let n = used_instruments(d.instruments@, 31);
    let num = d.patterns.spec_num();
    &&& r.format_id@ == "m.k."@
    &&& r.description@ == "Imported M.K. module"@
    &&& r.creator@ == "Scream Tracker 3"@
    &&& r.channels == ch
    &&& r.player@ == "st3"@
    &&& r.data matches ModuleData::S3m(s) && {
        &&& s.song_name@ == d.song_name@
        &&& s.ord_num == d.song_length as u16
        &&& s.ins_num == n as u16
        &&& s.pat_num == num as u16
        &&& s.flags == 0 && s.cwt_v == 0x1320 && s.ffi == 1
        &&& s.g_v == 64 && s.i_s == 6 && s.i_t == 125 && s.m_v == 0xb0 && s.d_p == 0xd2
        &&& forall|j: int| 0 <= j < 32 ==> s.ch_settings@[j] == imported_ch_setting(j)
        &&& forall|j: int| 0 <= j < 32 ==> s.ch_pan@[j] == 0
        &&& s.orders@ == d.orders@
        &&& s.instrum_pp@ == Seq::new(n as nat, |j: int| 0xd2u32)
        &&& s.pattern_pp@ == Seq::new(num, |j: int| 0xd2u32)
        &&& s.instruments@.len() == n
        &&& forall|j: int| 0 <= j < n ==> imported_instrument(d.instruments@[j], #[trigger] s.instruments@[j])
        &&& s.patterns@.len() == num
        &&& forall|k: int| 0 <= k < num ==> (#[trigger] s.patterns@[k]).data@ == s3m_encoded(d.patterns, k, ch)
            && s.patterns@[k].size == s.patterns@[k].data@.len()
        &&& same_samples(s.samples@, d.samples@)
        &&& s.channels == ch
    }
}

/// Imports the MOD module `module` as an S3M module for the Scream Tracker
/// 3 replayer: a format error for a format other than "m.k.", "6CHN" and
/// "8CHN", else the module that `imported` describes.
pub fn from_mod(module: Module) -> (r: Result<Module, Error>)
    requires
        module.data is Mod,
        module.data->Mod_0.instruments@.len() >= 31,
    ensures
        import_channels(module.format_id@) == 0 ==> (r matches Err(e)
            && format_error(e, import_error_msg(module.format_id@))),
        import_channels(module.format_id@) != 0 ==> (r matches Ok(m) && imported(module, m)),
        r matches Ok(m) ==> (m.data matches ModuleData::S3m(s) && s.wf() && s.orders@.len() >= 1),
{
    let data = match &module.data {
        ModuleData::Mod(d) => d,
        _ => {
            return Err(Error::Format(String::new()));
        },
    };
    let mut ins_num: usize = 0;
    let mut i: usize = 0;
    while i < 31
        invariant
            i <= 31,
            data.instruments@.len() >= 31,
            ins_num == used_instruments(data.instruments@, i as int),
        decreases 31 - i,
    {
        if data.instruments[i].size > 0 {
            ins_num = i + 1;
        }
        i = i + 1;
    }
    proof {
        lemma_used_le(data.instruments@, 31);
    }
    let mut instruments: Vec<S3mInstrument> = Vec::new();
    let mut i: usize = 0;
    while i < ins_num
        invariant
            i <= ins_num,
            ins_num <= 31,
            data.instruments@.len() >= 31,
            instruments@.len() == i,
            forall|j: int| 0 <= j < i ==> imported_instrument(data.instruments@[j], #[trigger] instruments@[j]),
        decreases ins_num - i,
    {
        let ins = &data.instruments[i];
        instruments.push(S3mInstrument {
            typ: 1,
            memseg: 0,
            length: ins.size as u32 * 2,
            loop_beg: ins.repeat as u32 * 2,
            loop_end: (ins.repeat as u32 + ins.replen as u32) * 2,
            vol: #[verifier::truncate] (ins.volume as i8),
            flags: if ins.replen > 1 { 1 } else { 0 },
            c2spd: c2spd_of(ins.finetune),
            name: ins.name.clone(),
        });
        i = i + 1;
    }
    proof {
        reveal_strlit("m.k.");
        reveal_strlit("6CHN");
        reveal_strlit("8CHN");
    }
    let ch: usize = if str_eq(module.format_id, "m.k.") {
        4
    } else if str_eq(module.format_id, "6CHN") {
        6
    } else if str_eq(module.format_id, "8CHN") {
        8
    } else {
        let mut v: Vec<char> = Vec::new();
        push_str(&mut v, "can't import ");
        push_str(&mut v, module.format_id);
        push_str(&mut v, " module");
        return Err(Error::Format(chars_to_string(&v)));
    };
    let pat_num = data.patterns.num();
    let mut patterns: Vec<S3mPattern> = Vec::new();
    let mut k: usize = 0;
    while k < pat_num
        invariant
            k <= pat_num,
            pat_num == data.patterns.spec_num(),
            ch == import_channels(module.format_id@),
            ch <= 8,
            patterns@.len() == k,
            forall|j: int| 0 <= j < k ==> (#[trigger] patterns@[j]).data@ == s3m_encoded(data.patterns, j, ch as int)
                && patterns@[j].size == patterns@[j].data@.len() && patterns@[j].data@.len() <= 65537,
        decreases pat_num - k,
    {
        patterns.push(encode_pattern(&data.patterns, k, ch));
        k = k + 1;
    }
    let mut orders: Vec<u8> = Vec::new();
    let mut j: usize = 0;
    while j < 128
        invariant
            j <= 128,
            orders@ == data.orders@.subrange(0, j as int),
        decreases 128 - j,
    {
        orders.push(data.orders[j]);
        j = j + 1;
    }
    let mut instrum_pp: Vec<u32> = Vec::new();
    while instrum_pp.len() < ins_num
        invariant
            instrum_pp@.len() <= ins_num,
            forall|j: int| 0 <= j < instrum_pp@.len() ==> instrum_pp@[j] == 0xd2u32,
        decreases ins_num - instrum_pp@.len(),
    {
        instrum_pp.push(0xd2);
    }
    let mut pattern_pp: Vec<u32> = Vec::new();
    while pattern_pp.len() < pat_num
        invariant
            pattern_pp@.len() <= pat_num,
            forall|j: int| 0 <= j < pattern_pp@.len() ==> pattern_pp@[j] == 0xd2u32,
        decreases pat_num - pattern_pp@.len(),
    {
        pattern_pp.push(0xd2);
    }
    let mut ch_settings = [255u8; 32];
    ch_settings[0] = 0;
    ch_settings[1] = 9;
    ch_settings[2] = 10;
    ch_settings[3] = 3;
    ch_settings[4] = 4;
    ch_settings[5] = 14;
    ch_settings[6] = 15;
    ch_settings[7] = 7;
    let new_data = S3mData {
        song_name: data.song_name.clone(),
        ord_num: data.song_length as u16,
        ins_num: ins_num as u16,
        pat_num: #[verifier::truncate] (pat_num as u16),
        flags: 0,
        cwt_v: 0x1320,
        ffi: 1,
        g_v: 64,
        i_s: 6,
        i_t: 125,
        m_v: 0xb0,
        d_p: 0xd2,
        ch_settings,
        orders,
        instrum_pp,
        pattern_pp,
        ch_pan: [0u8; 32],
        instruments,
        patterns,
        samples: copy_samples(&data.samples),
        channels: ch,
    };
    assert(new_data.instrum_pp@ =~= Seq::new(ins_num as nat, |j: int| 0xd2u32));
    assert(new_data.pattern_pp@ =~= Seq::new(pat_num as nat, |j: int| 0xd2u32));
    assert(new_data.orders@ =~= data.orders@);
    Ok(Module {
        format_id: "m.k.",
        description: str_string("Imported M.K. module"),
        creator: str_string("Scream Tracker 3"),
        channels: ch,
        player: "st3",
        data: ModuleData::S3m(new_data),
    })
}

proof fn lemma_used_le(ins: Seq<ModInstrument>, n: int)
    requires
        n >= 0,
    ensures
        0 <= used_instruments(ins, n) <= n,
    decreases n,
{
    if n > 0 {
        lemma_used_le(ins, n - 1);
    }
}

} // verus!
