//! Identification of the tracker that created a MOD module, from its magic,
//! instruments, restart byte and pattern contents (after libxmp's routine).

use vstd::prelude::*;
use crate::format::mk::{ModData, ModPatterns, ModEvent, ModInstrument, event_index, lemma_event_index_bound};
use crate::text::str_eq;

verus! {

/// Trackers a MOD module may come from.
#[derive(Clone, Copy, Debug, PartialEq, Eq, Structural)]
pub enum TrackerID {
    Unknown,
    Protracker,
    Noisetracker,
    Soundtracker,
    Screamtracker3,
    FastTracker,
    FastTracker2,
    Octalyser,
    TakeTracker,
    DigitalTracker,
    ModsGrave,
    FlexTrax,
    OpenMPT,
    Converted,
    ConvertedST,
    UnknownOrConverted,
    ProtrackerClone,
}

/// A known magic: the tracker it names, its channel count, and whether the
/// magic alone identifies the tracker.
pub struct Magic {
    pub magic: &'static str,
    pub flag: bool,
    pub id: TrackerID,
    pub ch: u8,
}

/// The known magics, as (magic, flag, tracker, channels).
pub open spec fn magic_table() -> Seq<(Seq<char>, bool, TrackerID, u8)> {
    seq![
        ("M.K."@, false, TrackerID::Protracker, 4u8),
        ("M!K!"@, true, TrackerID::Protracker, 4u8),
        ("M&K!"@, true, TrackerID::Noisetracker, 4u8),
        ("N.T."@, true, TrackerID::Noisetracker, 4u8),
        ("6CHN"@, false, TrackerID::FastTracker, 6u8),
        ("8CHN"@, false, TrackerID::FastTracker, 8u8),
        ("CD61"@, true, TrackerID::Octalyser, 6u8),
        ("CD81"@, true, TrackerID::Octalyser, 8u8),
        ("TDZ4"@, true, TrackerID::TakeTracker, 4u8),
        ("FA04"@, true, TrackerID::DigitalTracker, 4u8),
        ("FA06"@, true, TrackerID::DigitalTracker, 6u8),
        ("FA08"@, true, TrackerID::DigitalTracker, 8u8),
        ("NSMS"@, true, TrackerID::Unknown, 4u8),
    ]
}

pub open spec fn magic_entry_matches(m: Magic, i: int) -> bool {
    m.magic@ == magic_table()[i].0 && m.flag == magic_table()[i].1 && m.id == magic_table()[i].2
        && m.ch == magic_table()[i].3
}

fn magic_entry(i: usize) -> (m: Magic)
    requires
        i < 13,
    ensures
        magic_entry_matches(m, i as int),
{
    match i {
        0 => Magic { magic: "M.K.", flag: false, id: TrackerID::Protracker, ch: 4 },
        1 => Magic { magic: "M!K!", flag: true, id: TrackerID::Protracker, ch: 4 },
        2 => Magic { magic: "M&K!", flag: true, id: TrackerID::Noisetracker, ch: 4 },
        3 => Magic { magic: "N.T.", flag: true, id: TrackerID::Noisetracker, ch: 4 },
        4 => Magic { magic: "6CHN", flag: false, id: TrackerID::FastTracker, ch: 6 },
        5 => Magic { magic: "8CHN", flag: false, id: TrackerID::FastTracker, ch: 8 },
        6 => Magic { magic: "CD61", flag: true, id: TrackerID::Octalyser, ch: 6 },
        7 => Magic { magic: "CD81", flag: true, id: TrackerID::Octalyser, ch: 8 },
        8 => Magic { magic: "TDZ4", flag: true, id: TrackerID::TakeTracker, ch: 4 },
        9 => Magic { magic: "FA04", flag: true, id: TrackerID::DigitalTracker, ch: 4 },
        10 => Magic { magic: "FA06", flag: true, id: TrackerID::DigitalTracker, ch: 6 },
        11 => Magic { magic: "FA08", flag: true, id: TrackerID::DigitalTracker, ch: 8 },
        _ => Magic { magic: "NSMS", flag: true, id: TrackerID::Unknown, ch: 4 },
    }
}

/// The first entry of the magic table that names `magic`.
pub open spec fn magic_lookup(magic: Seq<char>) -> Option<int> {
    if exists|i: int| 0 <= i < 13 && magic_table()[i].0 == magic {
        Some(choose|i: int| 0 <= i < 13 && magic_table()[i].0 == magic
            && forall|j: int| 0 <= j < i ==> magic_table()[j].0 != magic)
    } else {
        None
    }
}

/// Periods of the three octaves of the standard Protracker note table.
pub open spec fn standard_note_table() -> Seq<u16> {
    seq![
        856u16, 808, 762, 720, 678, 640, 604, 570, 538, 508, 480, 453,
        428, 404, 381, 360, 339, 320, 302, 285, 269, 254, 240, 226,
        214, 202, 190, 180, 170, 160, 151, 143, 135, 127, 120, 113,
    ]
}

pub fn is_standard_note(n: u16) -> (r: bool)
    ensures
        r == standard_note_table().contains(n),
{
    let t: [u16; 36] = [
        856, 808, 762, 720, 678, 640, 604, 570, 538, 508, 480, 453,
        428, 404, 381, 360, 339, 320, 302, 285, 269, 254, 240, 226,
        214, 202, 190, 180, 170, 160, 151, 143, 135, 127, 120, 113,
    ];
    assert(t@ =~= standard_note_table());
    let mut i: usize = 0;
    while i < 36
        invariant
            t@ == standard_note_table(),
            i <= 36,
            forall|j: int| 0 <= j < i ==> t@[j] != n,
        decreases 36 - i,
    {
        if t[i] == n {
            assert(standard_note_table()[i as int] == n);
            return true;
        }
        i = i + 1;
    }
    false
}

/// An ASCII decimal digit.
pub open spec fn is_digit(c: char) -> bool {
    '0' <= c <= '9'
}

fn char_is_digit(c: char) -> (r: bool)
    ensures
        r == is_digit(c),
{
    '0' <= c && c <= '9'
}

/// The channel count a magic of the form "NNCH" or "NCHN" names.
pub open spec fn magic_channels(m: Seq<char>) -> Option<int> {
    if m.len() >= 2 && is_digit(m[0]) && is_digit(m[1]) && m.subrange(2, m.len() as int) == "CH"@ {
        Some((m[0] as int - 48) * 10 + m[1] as int - 48)
    } else if m.len() >= 1 && is_digit(m[0]) && m.subrange(1, m.len() as int) == "CHN"@ {
        Some(m[0] as int - 48)
    } else {
        None
    }
}

/// The channel count of a "NNCH" or "NCHN" magic.
fn magic_digit_channels(m: &str) -> (r: Option<u8>)
    ensures
        r is Some <==> magic_channels(m@) is Some,
        r matches Some(c) ==> c as int == magic_channels(m@)->0,
{
    let n = m.unicode_len();
    if n >= 2 {
        let c0 = m.get_char(0);
        let c1 = m.get_char(1);
        if char_is_digit(c0) && char_is_digit(c1) && str_eq(m.substring_char(2, n), "CH") {
            return Some(((c0 as u8) - 48) * 10 + (c1 as u8) - 48);
        }
    }
    if n >= 1 {
        let c0 = m.get_char(0);
        if char_is_digit(c0) && str_eq(m.substring_char(1, n), "CHN") {
            return Some((c0 as u8) - 48);
        }
    }
    None
}

/// The first entry of the magic table that names `m`.
fn lookup_magic(m: &str) -> (r: Option<usize>)
    ensures
        r is Some <==> magic_lookup(m@) is Some,
        r matches Some(i) ==> magic_lookup(m@) == Some(i as int) && i < 13,
{
    let mut i: usize = 0;
    while i < 13
        invariant
            i <= 13,
            forall|j: int| 0 <= j < i ==> magic_table()[j].0 != m@,
        decreases 13 - i,
    {
        let e = magic_entry(i);
        if str_eq(m, e.magic) {
            proof {
                assert(magic_table()[i as int].0 == m@);
                let k = choose|k: int| 0 <= k < 13 && magic_table()[k].0 == m@
                    && forall|j: int| 0 <= j < k ==> magic_table()[j].0 != m@;
                assert(k == i as int) by {
                    if k < i { assert(magic_table()[k].0 != m@); }
                    if k > i { assert(magic_table()[i as int].0 != m@); }
                }
            }
            return Some(i);
        }
        i = i + 1;
    }
    None
}

/// Whether a name starts like a Soundtracker disk sample name.
fn is_st_name(n: &str) -> (r: bool)
    ensures
        r == st_name(n@),
{
    if n.unicode_len() < 6 {
        return false;
    }
    let c0 = n.get_char(0);
    let c1 = n.get_char(1);
    let c2 = n.get_char(2);
    let c3 = n.get_char(3);
    let c4 = n.get_char(4);
    let c5 = n.get_char(5);
    (c0 == 's' || c0 == 'S') && (c1 == 't' || c1 == 'T') && c2 == '-' && c5 == ':'
        && char_is_digit(c3) && char_is_digit(c4)
}

/// The event at channel `c` of row `r` of pattern `p`.
pub open spec fn ev(pat: ModPatterns, p: int, r: int, c: int) -> ModEvent {
    pat.events()[event_index(p, r, pat.spec_chn() as int, c)]
}

/// Channel `c` is among the first four of the pattern list.
pub open spec fn scanned(pat: ModPatterns, c: int) -> bool {
    0 <= c < 4 && c < pat.spec_chn()
}

pub open spec fn out_of_range_note(e: ModEvent) -> bool {
    let note = e.note & 0xfff;
    note != 0 && (note < 109 || note > 907)
}

pub open spec fn non_nt_cmd(e: ModEvent) -> bool {
    let cmd = e.cmd & 0x0f;
    (cmd > 0x06 && cmd < 0x0a) || (cmd == 0x0e && e.cmdlo > 1)
}

pub open spec fn non_standard_note(e: ModEvent) -> bool {
    let note = e.note & 0xfff;
    note != 0 && !standard_note_table().contains(note)
}

/// The event properties the fingerprint looks for: a note outside the
/// standard octaves (0), a note outside the standard table (1), an effect
/// Noisetracker lacks (2).
pub open spec fn prop(kind: int, e: ModEvent) -> bool {
    if kind == 0 {
        out_of_range_note(e)
    } else if kind == 1 {
        non_standard_note(e)
    } else {
        non_nt_cmd(e)
    }
}

/// Some scanned event of pattern `p` has property `kind`.
pub open spec fn pattern_has(pat: ModPatterns, p: int, kind: int) -> bool {
    exists|r: int, c: int| 0 <= r < 64 && scanned(pat, c) && #[trigger] prop(kind, ev(pat, p, r, c))
}

/// Some scanned event of the patterns before `np` has property `kind`.
pub open spec fn patterns_have(pat: ModPatterns, np: int, kind: int) -> bool {
    exists|p: int| 0 <= p < np && #[trigger] pattern_has(pat, p, kind)
}

/// Some scanned event of the patterns before `p`, of the rows before `r` of
/// pattern `p`, or of the channels before `c` of row `r`, has property `kind`.
pub open spec fn seen_has(pat: ModPatterns, p: int, r: int, c: int, kind: int) -> bool {
    ||| patterns_have(pat, p, kind)
    ||| exists|rr: int, cc: int| 0 <= rr < r && scanned(pat, cc) && #[trigger] prop(kind, ev(pat, p, rr, cc))
    ||| exists|cc: int| 0 <= cc < c && scanned(pat, cc) && #[trigger] prop(kind, ev(pat, p, r, cc))
}

proof fn lemma_seen_step(pat: ModPatterns, p: int, r: int, c: int, kind: int)
    requires
        scanned(pat, c),
    ensures
        seen_has(pat, p, r, c + 1, kind) == (seen_has(pat, p, r, c, kind) || prop(kind, ev(pat, p, r, c))),
{
    if prop(kind, ev(pat, p, r, c)) {
        assert(seen_has(pat, p, r, c + 1, kind));
    }
    if seen_has(pat, p, r, c + 1, kind) && !prop(kind, ev(pat, p, r, c)) {
        if !patterns_have(pat, p, kind)
            && !(exists|rr: int, cc: int| 0 <= rr < r && scanned(pat, cc) && #[trigger] prop(kind, ev(pat, p, rr, cc))) {
            let cc = choose|cc: int| 0 <= cc < c + 1 && scanned(pat, cc) && #[trigger] prop(kind, ev(pat, p, r, cc));
            assert(cc < c);
        }
    }
}

proof fn lemma_seen_row(pat: ModPatterns, p: int, r: int, c: int, kind: int)
    requires
        0 <= c,
        0 <= r,
        c >= 4 || c >= pat.spec_chn(),
    ensures
        seen_has(pat, p, r + 1, 0, kind) == seen_has(pat, p, r, c, kind),
{
    if patterns_have(pat, p, kind) {
    } else if exists|rr: int, cc: int| 0 <= rr < r && scanned(pat, cc) && #[trigger] prop(kind, ev(pat, p, rr, cc)) {
        let (rr, cc) = choose|rr: int, cc: int| 0 <= rr < r && scanned(pat, cc) && #[trigger] prop(kind, ev(pat, p, rr, cc));
        assert(prop(kind, ev(pat, p, rr, cc)));
    } else if exists|cc: int| 0 <= cc < c && scanned(pat, cc) && #[trigger] prop(kind, ev(pat, p, r, cc)) {
        let cc = choose|cc: int| 0 <= cc < c && scanned(pat, cc) && #[trigger] prop(kind, ev(pat, p, r, cc));
        assert(prop(kind, ev(pat, p, r, cc)));
    } else {
        if seen_has(pat, p, r + 1, 0, kind) {
            let (rr, cc) = choose|rr: int, cc: int| 0 <= rr < r + 1 && scanned(pat, cc) && #[trigger] prop(kind, ev(pat, p, rr, cc));
            if rr == r {
                assert(cc < c);
                assert(prop(kind, ev(pat, p, r, cc)));
            } else {
                assert(prop(kind, ev(pat, p, rr, cc)));
            }
        }
    }
}

proof fn lemma_seen_pattern(pat: ModPatterns, p: int, kind: int)
    requires
        0 <= p,
    ensures
        seen_has(pat, p + 1, 0, 0, kind) == seen_has(pat, p, 64, 0, kind),
{
    if seen_has(pat, p, 64, 0, kind) && !patterns_have(pat, p, kind) {
        let (rr, cc) = choose|rr: int, cc: int| 0 <= rr < 64 && scanned(pat, cc) && #[trigger] prop(kind, ev(pat, p, rr, cc));
        assert(pattern_has(pat, p, kind));
    }
    if patterns_have(pat, p + 1, kind) && !patterns_have(pat, p, kind) {
        let q = choose|q: int| 0 <= q < p + 1 && #[trigger] pattern_has(pat, q, kind);
        assert(q == p);
    }
}

proof fn lemma_patterns_have_mono(pat: ModPatterns, a: int, b: int, kind: int)
    requires
        a <= b,
        patterns_have(pat, a, kind),
    ensures
        patterns_have(pat, b, kind),
{
    let q = choose|q: int| 0 <= q < a && #[trigger] pattern_has(pat, q, kind);
    assert(pattern_has(pat, q, kind));
}

/// Whether some scanned event of the patterns has property `kind`.
fn scan_patterns(pat: &ModPatterns, kind: u8) -> (r: bool)
    requires
        pat.wf(),
        kind < 3,
    ensures
        r == patterns_have(*pat, pat.spec_num() as int, kind as int),
{
    let num = pat.num();
    let chn = pat.channels();
    let mut p: usize = 0;
    while p < num
        invariant
            pat.wf(),
            num == pat.spec_num(),
            chn == pat.spec_chn(),
            kind < 3,
            p <= num,
            !seen_has(*pat, p as int, 0, 0, kind as int),
        decreases num - p,
    {
        let mut r: u8 = 0;
        while r < 64
            invariant
                pat.wf(),
                num == pat.spec_num(),
                chn == pat.spec_chn(),
                kind < 3,
                p < num,
                r <= 64,
                !seen_has(*pat, p as int, r as int, 0, kind as int),
            decreases 64 - r,
        {
            let mut c: usize = 0;
            while c < 4 && c < chn
                invariant
                    pat.wf(),
                    num == pat.spec_num(),
                    chn == pat.spec_chn(),
                    kind < 3,
                    p < num,
                    r < 64,
                    c <= 4,
                    !seen_has(*pat, p as int, r as int, c as int, kind as int),
                decreases 4 - c,
            {
                let e = pat.event(p, r, c);
                let note = e.note & 0xfff;
                let cmd = e.cmd & 0x0f;
                let hit = if kind == 0 {
                    note != 0 && (note < 109 || note > 907)
                } else if kind == 1 {
                    note != 0 && !is_standard_note(note)
                } else {
                    (cmd > 0x06 && cmd < 0x0a) || (cmd == 0x0e && e.cmdlo > 1)
                };
                proof {
                    assert(*e == ev(*pat, p as int, r as int, c as int));
                    assert(hit == prop(kind as int, *e));
                    lemma_seen_step(*pat, p as int, r as int, c as int, kind as int);
                }
                if hit {
                    proof {
                        assert(seen_has(*pat, p as int, r as int, c + 1, kind as int));
                        lemma_seen_total(*pat, p as int, r as int, c + 1, kind as int);
                    }
                    return true;
                }
                c = c + 1;
            }
            proof { lemma_seen_row(*pat, p as int, r as int, c as int, kind as int); }
            r = r + 1;
        }
        proof { lemma_seen_pattern(*pat, p as int, kind as int); }
        p = p + 1;
    }
    false
}

/// What is seen at a position of a pattern lies in the patterns up to it.
proof fn lemma_seen_total(pat: ModPatterns, p: int, r: int, c: int, kind: int)
    requires
        0 <= p,
        0 <= r < 64,
        seen_has(pat, p, r, c, kind),
    ensures
        patterns_have(pat, p + 1, kind),
{
    if patterns_have(pat, p, kind) {
        lemma_patterns_have_mono(pat, p, p + 1, kind);
    } else if exists|rr: int, cc: int| 0 <= rr < r && scanned(pat, cc) && #[trigger] prop(kind, ev(pat, p, rr, cc)) {
        let (rr, cc) = choose|rr: int, cc: int| 0 <= rr < r && scanned(pat, cc) && #[trigger] prop(kind, ev(pat, p, rr, cc));
        assert(pattern_has(pat, p, kind));
    } else {
        let cc = choose|cc: int| 0 <= cc < c && scanned(pat, cc) && #[trigger] prop(kind, ev(pat, p, r, cc));
        assert(pattern_has(pat, p, kind));
    }
}

pub open spec fn has_large_instruments(ins: Seq<ModInstrument>) -> bool {
    exists|i: int| #![trigger ins[i]] 0 <= i < ins.len() && ins[i].size > 0x8000
}

pub open spec fn has_replen_0(ins: Seq<ModInstrument>) -> bool {
    exists|i: int| #![trigger ins[i]] 0 <= i < ins.len() && ins[i].replen == 0
}

pub open spec fn empty_ins_has_volume(ins: Seq<ModInstrument>) -> bool {
    exists|i: int| #![trigger ins[i]] 0 <= i < ins.len() && ins[i].size == 0 && ins[i].volume > 0
}

pub open spec fn size_1_and_volume_0(ins: Seq<ModInstrument>) -> bool {
    exists|i: int| #![trigger ins[i]] 0 <= i < ins.len() && ins[i].size == 1 && ins[i].volume == 0
}

/// A Soundtracker disk sample name: it starts with "st-NN:" (either case of
/// "st", NN decimal digits).
pub open spec fn st_name(n: Seq<char>) -> bool {
    &&& n.len() >= 6
    &&& (n[0] == 's' || n[0] == 'S')
    &&& (n[1] == 't' || n[1] == 'T')
    &&& n[2] == '-'
    &&& n[5] == ':'
    &&& is_digit(n[3])
    &&& is_digit(n[4])
}

pub open spec fn has_st_instruments(ins: Seq<ModInstrument>) -> bool {
    forall|i: int| #![trigger ins[i]] 0 <= i < ins.len() ==> st_name(ins[i].name@)
}

pub open spec fn has_ins_15_to_31(ins: Seq<ModInstrument>) -> bool {
    exists|i: int| #![trigger ins[i]] 15 <= i < ins.len() && (ins[i].name@.len() != 0 || ins[i].size > 0)
}

/// The tracker the magic, channel count, instruments and restart byte point to.
pub open spec fn spec_tracker_id(data: ModData) -> TrackerID {
    let magic = data.magic@;
    let ins = data.instruments@;
    match magic_lookup(magic) {
        Some(i) if magic_table()[i].1 => magic_table()[i].2,
        None => match magic_channels(magic) {
            Some(chn) => if chn % 2 == 1 { TrackerID::TakeTracker } else { TrackerID::FastTracker2 },
            None => TrackerID::Unknown,
        },
        Some(i) => {
            let base = magic_table()[i].2;
            let chn = magic_table()[i].3;
            if has_large_instruments(ins) {
                TrackerID::OpenMPT
            } else if data.restart as int != data.patterns.spec_num() && data.restart == 0x78 {
                if chn == 4 { TrackerID::Noisetracker } else { TrackerID::Unknown }
            } else if data.restart as int != data.patterns.spec_num() && data.restart == 0x7f {
                if chn == 4 {
                    if has_replen_0(ins) { TrackerID::ProtrackerClone } else { base }
                } else {
                    TrackerID::Screamtracker3
                }
            } else if data.restart as int != data.patterns.spec_num() && data.restart > 0x7f {
                TrackerID::Unknown
            } else {
                // the restart byte is the pattern count, or below 0x7f
                let t = if data.restart as int == data.patterns.spec_num() {
                    if chn == 4 { TrackerID::Soundtracker } else { TrackerID::Unknown }
                } else if chn == 4 && !empty_ins_has_volume(ins) {
                    TrackerID::Noisetracker
                } else {
                    TrackerID::Unknown
                };
                if !has_replen_0(ins) {
                    if size_1_and_volume_0(ins) {
                        TrackerID::Converted
                    } else if !has_st_instruments(ins) {
                        if exists|k: int| #![trigger ins[k]] 0 <= k < ins.len() && ins[k].size == 0 && ins[k].replen == 1 {
                            if chn == 4 {
                                if empty_ins_has_volume(ins) { TrackerID::OpenMPT } else { TrackerID::Noisetracker }
                            } else if chn == 6 || chn == 8 {
                                TrackerID::Octalyser
                            } else {
                                TrackerID::Unknown
                            }
                        } else if chn == 4 {
                            TrackerID::Protracker
                        } else if chn == 6 || chn == 8 {
                            TrackerID::FastTracker
                        } else {
                            TrackerID::Unknown
                        }
                    } else {
                        t
                    }
                } else if !has_ins_15_to_31(ins) {
                    TrackerID::ConvertedST
                } else if has_st_instruments(ins) {
                    TrackerID::UnknownOrConverted
                } else if chn == 6 || chn == 8 {
                    TrackerID::FastTracker
                } else {
                    t
                }
            }
        },
    }
}

pub open spec fn only_nt_cmds(pat: ModPatterns) -> bool {
    !patterns_have(pat, pat.spec_num() as int, 2)
}

pub open spec fn standard_notes(pat: ModPatterns) -> bool {
    !patterns_have(pat, pat.spec_num() as int, 1)
}

pub open spec fn standard_octaves(pat: ModPatterns) -> bool {
    !patterns_have(pat, pat.spec_num() as int, 0)
}

/// The pattern checks: a Noisetracker guess needs only Noisetracker effects
/// and standard notes, a Soundtracker guess standard notes, a Protracker
/// guess notes within the standard octaves.
pub open spec fn pattern_filter(t: TrackerID, pat: ModPatterns) -> TrackerID {
    if t == TrackerID::Noisetracker {
        if only_nt_cmds(pat) && standard_notes(pat) { t } else { TrackerID::Unknown }
    } else if t == TrackerID::Soundtracker {
        if standard_notes(pat) { t } else { TrackerID::Unknown }
    } else if t == TrackerID::Protracker {
        if standard_octaves(pat) { t } else { TrackerID::Unknown }
    } else {
        t
    }
}

/// The tracker that created the module.
pub open spec fn spec_fingerprint(data: ModData) -> TrackerID {
    let pat = data.patterns;
    let g = spec_tracker_id(data);
    if pat.spec_num() == 0 {
        g
    } else {
        let t = pattern_filter(g, pat);
        if !standard_octaves(pat) && t == TrackerID::Unknown && data.restart == 0x7f {
            TrackerID::Screamtracker3
        } else {
            t
        }
    }
}

/// A four-channel "M.K." module with restart byte 0x7f (not its pattern
/// count) and no instrument over 0x8000 words is Protracker's when no
/// instrument has a zero repeat length, and a Protracker clone's when one
/// has; with notes within the standard octaves the fingerprint says so.
/// Only a zero repeat length makes a Protracker clone.
pub proof fn lemma_mk_restart_7f(data: ModData)
    requires
        data.magic@ == "M.K."@,
        data.restart == 0x7f,
        data.patterns.spec_num() != 0x7f,
        !has_large_instruments(data.instruments@),
    ensures
        spec_tracker_id(data) == (if has_replen_0(data.instruments@) { TrackerID::ProtrackerClone }
            else { TrackerID::Protracker }),
        !has_replen_0(data.instruments@) && standard_octaves(data.patterns)
            ==> spec_fingerprint(data) == TrackerID::Protracker,
{
    lemma_mk_magic(data.magic@);
}

/// "M.K." is the first entry of the magic table.
proof fn lemma_mk_magic(m: Seq<char>)
    requires
        m == "M.K."@,
    ensures
        magic_lookup(m) == Some(0int),
{
    reveal_strlit("M.K.");
    assert(magic_table()[0].0 == m);
    let i = choose|i: int| 0 <= i < 13 && magic_table()[i].0 == m
        && forall|j: int| 0 <= j < i ==> magic_table()[j].0 != m;
    assert(0 <= 0 < 13 && magic_table()[0].0 == m && forall|j: int| 0 <= j < 0 ==> magic_table()[j].0 != m);
    if i != 0 {
        assert(magic_table()[0].0 != m);
    }
}

/// Only a zero repeat length makes a Protracker clone.
pub proof fn lemma_clone_needs_replen_0(data: ModData)
    ensures
        spec_tracker_id(data) == TrackerID::ProtrackerClone ==> has_replen_0(data.instruments@),
{
}

/// Fingerprinting of MOD modules.
pub struct Fingerprint;

impl Fingerprint {
    /// The tracker that most likely created the module.
    pub fn id(data: &ModData) -> (r: TrackerID)
        requires
            data.wf(),
        ensures
            r == spec_fingerprint(*data),
    {
        let g = Self::get_tracker_id(data);
        let mut tracker_id = g;
        let mut out_of_range = false;
        let num = data.patterns.num();
        let chn = data.patterns.channels();
        let pat = &data.patterns;
        let ghost t1 = pattern_filter(g, *pat);
        let mut p: usize = 0;
        while p < num
            invariant
                pat.wf(),
                num == pat.spec_num(),
                chn == pat.spec_chn(),
                pat == data.patterns,
                t1 == pattern_filter(g, *pat),
                p <= num,
                out_of_range == patterns_have(*pat, p as int, 0),
                p == 0 ==> tracker_id == g,
                p > 0 ==> tracker_id == (if out_of_range && t1 == TrackerID::Unknown && data.restart == 0x7f {
                    TrackerID::Screamtracker3
                } else {
                    t1
                }),
            decreases num - p,
        {
            let ghost t_in = tracker_id;
            let mut r: u8 = 0;
            while r < 64
                invariant
                    pat.wf(),
                    num == pat.spec_num(),
                    chn == pat.spec_chn(),
                    p < num,
                    r <= 64,
                    out_of_range == seen_has(*pat, p as int, r as int, 0, 0),
                    tracker_id == t_in || (t_in == TrackerID::Noisetracker && tracker_id == TrackerID::Unknown
                        && seen_has(*pat, p as int, r as int, 0, 2)),
                decreases 64 - r,
            {
                let mut c: usize = 0;
                while c < 4 && c < chn
                    invariant
                        pat.wf(),
                        num == pat.spec_num(),
                        chn == pat.spec_chn(),
                        p < num,
                        r < 64,
                        c <= 4,
                        out_of_range == seen_has(*pat, p as int, r as int, c as int, 0),
                        tracker_id == t_in || (t_in == TrackerID::Noisetracker && tracker_id == TrackerID::Unknown
                            && seen_has(*pat, p as int, r as int, c as int, 2)),
                    decreases 4 - c,
                {
                    let e = pat.event(p, r, c);
                    let note = e.note & 0xfff;
                    let cmd = e.cmd & 0x0f;
                    if note != 0 && (note < 109 || note > 907) {
                        out_of_range = true;
                    }
                    if tracker_id == TrackerID::Noisetracker {
                        if (cmd > 0x06 && cmd < 0x0a) || (cmd == 0x0e && e.cmdlo > 1) {
                            tracker_id = TrackerID::Unknown;
                        }
                    }
                    proof {
                        assert(*e == ev(*pat, p as int, r as int, c as int));
                        lemma_seen_step(*pat, p as int, r as int, c as int, 0);
                        lemma_seen_step(*pat, p as int, r as int, c as int, 2);
                    }
                    c = c + 1;
                }
                proof {
                    lemma_seen_row(*pat, p as int, r as int, c as int, 0);
                    lemma_seen_row(*pat, p as int, r as int, c as int, 2);
                }
                r = r + 1;
            }
            proof {
                lemma_seen_pattern(*pat, p as int, 0);
                lemma_seen_pattern(*pat, p as int, 2);
            }
            if tracker_id == TrackerID::Noisetracker {
                if !Self::only_nt_cmds(data) || !Self::standard_notes(data) {
                    tracker_id = TrackerID::Unknown;
                }
            } else if tracker_id == TrackerID::Soundtracker {
                if !Self::standard_notes(data) {
                    tracker_id = TrackerID::Unknown;
                }
            } else if tracker_id == TrackerID::Protracker {
                if !Self::standard_octaves(data) {
                    tracker_id = TrackerID::Unknown;
                }
            }
            proof {
                if seen_has(*pat, p as int + 1, 0, 0, 2) {
                    lemma_patterns_have_mono(*pat, p as int + 1, num as int, 2);
                }
            }
            if out_of_range {
                if tracker_id == TrackerID::Unknown && data.restart == 0x7f {
                    tracker_id = TrackerID::Screamtracker3;
                }
            }
            p = p + 1;
        }
        tracker_id
    }

    /// Identification by magic, instruments and restart byte alone.
    #[verifier::loop_isolation(false)]
    pub fn get_tracker_id(data: &ModData) -> (r: TrackerID)
        ensures
            r == spec_tracker_id(*data),
    {
        let mut tracker_id = TrackerID::Unknown;
        let mut detected = false;
        let mut chn: u8 = 0;
        let ghost magic = data.magic@;
        let found = lookup_magic(data.magic.as_str());
        if let Some(i) = found {
            let m = magic_entry(i);
            tracker_id = m.id;
            chn = m.ch;
            detected = m.flag;
        }

        if detected {
            return tracker_id;
        }

        if found.is_none() {
            // Not in the table: "NNCH" or "NCHN" channel magics.
            let c = match magic_digit_channels(data.magic.as_str()) {
                Some(c) => c,
                None => return TrackerID::Unknown,
            };
            assert(c & 1 != 0 <==> c % 2 == 1) by (bit_vector);
            return if c & 1 != 0 { TrackerID::TakeTracker } else { TrackerID::FastTracker2 };
        }

        let ins = &data.instruments;
        if Self::has_large_instruments(data) {
            return TrackerID::OpenMPT;
        }

        let has_replen_0 = Self::has_replen_0(data);
        let has_st_instruments = Self::has_st_instruments(data);
        let empty_ins_has_volume = Self::empty_ins_has_volume(data);

        if data.restart as usize == data.patterns.num() {
            tracker_id = if chn == 4 { TrackerID::Soundtracker } else { TrackerID::Unknown };
        } else if data.restart == 0x78 {
            return if chn == 4 { TrackerID::Noisetracker } else { TrackerID::Unknown };
        } else if data.restart < 0x7f {
            tracker_id = if chn == 4 && !empty_ins_has_volume {
                TrackerID::Noisetracker
            } else {
                TrackerID::Unknown
            };
        } else if data.restart == 0x7f {
            if chn == 4 {
                if has_replen_0 {
                    tracker_id = TrackerID::ProtrackerClone;
                }
            } else {
                tracker_id = TrackerID::Screamtracker3;
            }
            return tracker_id;
        } else {
            return TrackerID::Unknown;
        }

        if !has_replen_0 {
            if Self::size_1_and_volume_0(data) {
                return TrackerID::Converted;
            }
            if !has_st_instruments {
                let mut k: usize = 0;
                while k < ins.len()
                    invariant
                        ins@ == data.instruments@,
                        k <= ins@.len(),
                        forall|j: int| 0 <= j < k ==> !(ins@[j].size == 0 && ins@[j].replen == 1),
                    decreases ins.len() - k,
                {
                    if ins[k].size == 0 && ins[k].replen == 1 {
                        assert(ins@[k as int].size == 0 && ins@[k as int].replen == 1);
                        return if chn == 4 {
                            if empty_ins_has_volume { TrackerID::OpenMPT } else { TrackerID::Noisetracker }
                        } else if chn == 6 || chn == 8 {
                            TrackerID::Octalyser
                        } else {
                            TrackerID::Unknown
                        };
                    }
                    k = k + 1;
                }
                tracker_id = if chn == 4 {
                    TrackerID::Protracker
                } else if chn == 6 || chn == 8 {
                    TrackerID::FastTracker
                } else {
                    TrackerID::Unknown
                };
            }
        } else {
            if !Self::has_ins_15_to_31(data) {
                return TrackerID::ConvertedST;
            }
            if has_st_instruments {
                return TrackerID::UnknownOrConverted;
            } else if chn == 6 || chn == 8 {
                return TrackerID::FastTracker;
            }
        }
        tracker_id
    }

    /// Every scanned note lies within the standard three octaves (periods 109 to 907).
    pub fn standard_octaves(data: &ModData) -> (r: bool)
        requires
            data.wf(),
        ensures
            r == standard_octaves(data.patterns),
    {
        !scan_patterns(&data.patterns, 0)
    }

    /// Every scanned note is a period of the standard note table.
    pub fn standard_notes(data: &ModData) -> (r: bool)
        requires
            data.wf(),
        ensures
            r == standard_notes(data.patterns),
    {
        !scan_patterns(&data.patterns, 1)
    }

    /// No scanned event uses an effect Noisetracker lacks.
    pub fn only_nt_cmds(data: &ModData) -> (r: bool)
        requires
            data.wf(),
        ensures
            r == only_nt_cmds(data.patterns),
    {
        !scan_patterns(&data.patterns, 2)
    }

    pub fn has_large_instruments(data: &ModData) -> (r: bool)
        ensures
            r == has_large_instruments(data.instruments@),
    {
        let ins = &data.instruments;
        let mut i: usize = 0;
        while i < ins.len()
            invariant
                ins@ == data.instruments@,
                i <= ins@.len(),
                forall|j: int| 0 <= j < i ==> !(ins@[j].size > 0x8000),
            decreases ins.len() - i,
        {
            if ins[i].size > 0x8000 {
                assert(ins@[i as int].size > 0x8000);
                return true;
            }
            i = i + 1;
        }
        false
    }

    /// Some instrument has a loop length of 0.
    pub fn has_replen_0(data: &ModData) -> (r: bool)
        ensures
            r == has_replen_0(data.instruments@),
    {
        let ins = &data.instruments;
        let mut i: usize = 0;
        while i < ins.len()
            invariant
                ins@ == data.instruments@,
                i <= ins@.len(),
                forall|j: int| 0 <= j < i ==> !(ins@[j].replen == 0),
            decreases ins.len() - i,
        {
            if ins[i].replen == 0 {
                assert(ins@[i as int].replen == 0);
                return true;
            }
            i = i + 1;
        }
        false
    }

    /// Some instrument of size 0 has a volume.
    pub fn empty_ins_has_volume(data: &ModData) -> (r: bool)
        ensures
            r == empty_ins_has_volume(data.instruments@),
    {
        let ins = &data.instruments;
        let mut i: usize = 0;
        while i < ins.len()
            invariant
                ins@ == data.instruments@,
                i <= ins@.len(),
                forall|j: int| 0 <= j < i ==> !(ins@[j].size == 0 && ins@[j].volume > 0),
            decreases ins.len() - i,
        {
            if ins[i].size == 0 && ins[i].volume > 0 {
                assert(ins@[i as int].size == 0 && ins@[i as int].volume > 0);
                return true;
            }
            i = i + 1;
        }
        false
    }

    /// Some instrument of size 1 has volume 0.
    pub fn size_1_and_volume_0(data: &ModData) -> (r: bool)
        ensures
            r == size_1_and_volume_0(data.instruments@),
    {
        let ins = &data.instruments;
        let mut i: usize = 0;
        while i < ins.len()
            invariant
                ins@ == data.instruments@,
                i <= ins@.len(),
                forall|j: int| 0 <= j < i ==> !(ins@[j].size == 1 && ins@[j].volume == 0),
            decreases ins.len() - i,
        {
            if ins[i].size == 1 && ins[i].volume == 0 {
                assert(ins@[i as int].size == 1 && ins@[i as int].volume == 0);
                return true;
            }
            i = i + 1;
        }
        false
    }

    /// Every instrument name starts like a Soundtracker disk sample name, "st-NN:".
    pub fn has_st_instruments(data: &ModData) -> (r: bool)
        ensures
            r == has_st_instruments(data.instruments@),
    {
        let ins = &data.instruments;
        let mut i: usize = 0;
        while i < ins.len()
            invariant
                ins@ == data.instruments@,
                i <= ins@.len(),
                forall|j: int| 0 <= j < i ==> st_name(#[trigger] ins@[j].name@),
            decreases ins.len() - i,
        {
            if !is_st_name(ins[i].name.as_str()) {
                assert(!st_name(ins@[i as int].name@));
                return false;
            }
            i = i + 1;
        }
        true
    }

    /// Some instrument from the sixteenth on has a name or a size.
    pub fn has_ins_15_to_31(data: &ModData) -> (r: bool)
        ensures
            r == has_ins_15_to_31(data.instruments@),
    {
        let ins = &data.instruments;
        let mut i: usize = 15;
        while i < ins.len()
            invariant
                ins@ == data.instruments@,
                15 <= i,
                forall|j: int| 15 <= j < i && j < ins@.len() ==> !(ins@[j].name@.len() != 0 || ins@[j].size > 0),
            decreases ins.len() - i,
        {
            if !ins[i].name.as_str().is_empty() || ins[i].size > 0 {
                assert(ins@[i as int].name@.len() != 0 || ins@[i as int].size > 0);
                return true;
            }
            i = i + 1;
        }
        false
    }
}

} // verus!
