//! Amiga Protracker MOD modules and their relatives.

pub mod fingerprint;
pub mod load;
pub mod note;

use vstd::prelude::*;
use crate::module::sample::{Sample, same_samples, copy_samples};
use crate::module::event::{HAS_NOTE, HAS_INS, HAS_CMD};
use crate::util::{be16, field_string, BinaryRead};
use crate::format::mk::note::{period_to_note, spec_period_note};
use crate::{Error, load_error};
use crate::util::short_read_msg;

verus! {

/// A MOD instrument header.
#[derive(Debug)]
pub struct ModInstrument {
    pub name: String,
    pub volume: u8,
    pub finetune: u8,
    pub size: u16,
    pub repeat: u16,
    pub replen: u16,
}

impl ModInstrument {
    /// An instrument with an empty name and all values zero.
    pub fn new() -> (r: Self)
        ensures
            r.name@ == Seq::<char>::empty(),
            r.volume == 0,
            r.finetune == 0,
            r.size == 0,
            r.repeat == 0,
            r.replen == 0,
    {
        ModInstrument { name: String::new(), volume: 0, finetune: 0, size: 0, repeat: 0, replen: 0 }
    }
}

/// The 30-byte instrument header at `ofs` of `b`: a 22-byte name, the size,
/// finetune, volume, loop start and loop length, words big-endian.
pub open spec fn mod_instrument_at(ins: ModInstrument, b: Seq<u8>, ofs: int) -> bool {
    &&& ins.name@ == field_string(b, ofs, 22)
    &&& ins.size == be16(b, ofs + 22)
    &&& ins.finetune == b[ofs + 24]
    &&& ins.volume == b[ofs + 25]
    &&& ins.repeat == be16(b, ofs + 26)
    &&& ins.replen == be16(b, ofs + 28)
}

/// Reads the instrument header at `ofs`.
pub fn read_mod_instrument(b: &[u8], ofs: usize) -> (r: Result<ModInstrument, Error>)
    requires
        ofs + 30 <= usize::MAX,
    ensures
        r is Ok <==> ofs + 30 <= b@.len(),
        r matches Ok(ins) ==> mod_instrument_at(ins, b@, ofs as int),
        r matches Err(e) ==> e is Load,
{
    let mut ins = ModInstrument::new();
    ins.name = b.read_string(ofs, 22)?;
    ins.size = b.read16b(ofs + 22)?;
    ins.finetune = b.read8(ofs + 24)?;
    ins.volume = b.read8(ofs + 25)?;
    ins.repeat = b.read16b(ofs + 26)?;
    ins.replen = b.read16b(ofs + 28)?;
    Ok(ins)
}

/// An event of a Protracker pattern: the instrument's high bits and the
/// period in `note`, the instrument's low bits and the effect in `cmd`, the
/// effect parameter in `cmdlo`.
#[derive(Clone, Copy, Debug, PartialEq, Eq, Structural)]
pub struct ModEvent {
    pub note: u16,
    pub cmd: u8,
    pub cmdlo: u8,
}

/// The event encoded in the four bytes at `ofs` of `b`.
pub open spec fn mod_event_at(b: Seq<u8>, ofs: int) -> ModEvent {
    ModEvent { note: be16(b, ofs), cmd: b[ofs + 2], cmdlo: b[ofs + 3] }
}

impl ModEvent {
    /// Decodes the first four bytes of `b`.
    pub fn from_slice(b: &[u8]) -> (r: Self)
        requires
            b@.len() >= 4,
        ensures
            r == mod_event_at(b@, 0),
    {
        ModEvent { note: (b[0] as u16) * 256 + b[1] as u16, cmd: b[2], cmdlo: b[3] }
    }

    /// The instrument number: high nibble of the note word and high nibble of the command byte.
    pub fn ins(&self) -> (r: u8)
        ensures
            r == event_ins(*self),
    {
        (((self.note & 0xf000) >> 8) | ((self.cmd as u16 & 0xf0) >> 4)) as u8
    }
}

/// The instrument number of an event.
pub open spec fn event_ins(e: ModEvent) -> u8 {
    (((e.note & 0xf000) >> 8) | ((e.cmd as u16 & 0xf0) >> 4)) as u8
}

/// Patterns of 64 rows of `chn` channels each.
pub struct ModPatterns {
    num: usize,
    chn: usize,
    data: Vec<ModEvent>,
}

/// Event `i` of `events`, or an empty event beyond them.
pub open spec fn event_or_empty(events: Seq<ModEvent>, i: int) -> ModEvent {
    if 0 <= i < events.len() { events[i] } else { ModEvent { note: 0, cmd: 0, cmdlo: 0 } }
}

/// Index of an event in a pattern list of `chn` channels.
pub open spec fn event_index(pat: int, row: int, chn: int, c: int) -> int {
    (pat * 64 + row) * chn + c
}

impl ModPatterns {
    /// The events, in pattern, row and channel order.
    pub closed spec fn events(&self) -> Seq<ModEvent> {
        self.data@
    }

    pub closed spec fn spec_num(&self) -> nat {
        self.num as nat
    }

    pub closed spec fn spec_chn(&self) -> nat {
        self.chn as nat
    }

    pub open spec fn wf(&self) -> bool {
        self.events().len() == self.spec_num() * 64 * self.spec_chn()
    }

    /// Decodes `num` patterns of `chn` channels from `b`, four bytes per event.
    pub fn from_slice(num: usize, b: &[u8], chn: usize) -> (r: Result<Self, Error>)
        requires
            num * 256 * chn <= usize::MAX,
        ensures
            r is Ok <==> num * 256 * chn <= b@.len(),
            r matches Ok(p) ==> p.wf() && p.spec_num() == num && p.spec_chn() == chn
                && forall|i: int| 0 <= i < p.events().len() ==> p.events()[i] == #[trigger] mod_event_at(b@, 4 * i),
            r matches Err(e) ==> load_error(e, short_read_msg((4 * (b@.len() / 4) + 4) as nat, b@.len())),
    {
        assert(num * chn <= num * 256 * chn && num * chn * 64 * 4 == num * 256 * chn
            && num * chn * 64 == num * 64 * chn) by (nonlinear_arith)
            requires num >= 0, chn >= 0;
        let total = num * chn * 64;
        let mut data: Vec<ModEvent> = Vec::new();
        let mut i: usize = 0;
        while i < total
            invariant
                total * 4 <= usize::MAX,
                total * 4 == num * 256 * chn,
                total == num * 64 * chn,
                i <= total,
                4 * i <= b@.len(),
                data@.len() == i,
                forall|j: int| 0 <= j < i ==> data@[j] == #[trigger] mod_event_at(b@, 4 * j),
            decreases total - i,
        {
            let s = match b.slice(4 * i, 4) {
                Ok(s) => s,
                Err(e) => {
                    assert(i == b@.len() / 4) by (nonlinear_arith)
                        requires 4 * i <= b@.len() < 4 * i + 4;
                    return Err(e);
                }
            };
            let e = ModEvent::from_slice(s);
            data.push(e);
            i = i + 1;
        }
        Ok(ModPatterns { num, chn, data })
    }

    /// Number of patterns.
    pub fn num(&self) -> (r: usize)
        ensures
            r == self.spec_num(),
    {
        self.num
    }

    /// Number of channels.
    pub fn channels(&self) -> (r: usize)
        ensures
            r == self.spec_chn(),
    {
        self.chn
    }

    /// The event at index `(pat * 64 + row) * chn + c` of the list, as
    /// `event` finds it for `c` below the channel count; an empty event
    /// where the index lies beyond the list.
    pub fn event_or_empty(&self, pat: usize, row: usize, c: usize) -> (r: ModEvent)
        ensures
            r == event_or_empty(self.events(), (pat as int * 64 + row) * self.spec_chn() + c),
    {
        let ghost want: int = (pat as int * 64 + row) * self.spec_chn() + c;
        let empty = ModEvent { note: 0, cmd: 0, cmdlo: 0 };
        proof {
            let k = pat as int * 64 + row;
            let n = self.spec_chn() as int;
            assert(n == 0 ==> want == c) by (nonlinear_arith)
                requires want == k * n + c;
            assert(n >= 1 ==> k <= k * n) by (nonlinear_arith)
                requires k >= 0;
        }
        let len = self.data.len();
        let i: usize = if self.chn == 0 {
            c
        } else {
            let a = match pat.checked_mul(64) {
                Some(a) => a,
                None => return empty,
            };
            let b = match a.checked_add(row) {
                Some(b) => b,
                None => return empty,
            };
            let d = match b.checked_mul(self.chn) {
                Some(d) => d,
                None => return empty,
            };
            match d.checked_add(c) {
                Some(i) => i,
                None => return empty,
            }
        };
        if i < len {
            self.data[i]
        } else {
            empty
        }
    }

    /// The event at channel `c` of row `row` of pattern `pat`.
    pub fn event(&self, pat: usize, row: u8, c: usize) -> (r: &ModEvent)
        requires
            self.wf(),
            pat < self.spec_num(),
            row < 64,
            c < self.spec_chn(),
        ensures
            *r == self.events()[event_index(pat as int, row as int, self.spec_chn() as int, c as int)],
    {
        proof {
            lemma_event_index_bound(pat as int, row as int, self.chn as int, c as int, self.num as int);
            assert(self.data@.len() <= self.data.len());
        }
        &self.data[(pat * 64 + row as usize) * self.chn + c]
    }
}

/// Events of a pattern list lie within it.
pub proof fn lemma_event_index_bound(pat: int, row: int, chn: int, c: int, num: int)
    requires
        0 <= pat < num,
        0 <= row < 64,
        0 <= c < chn,
    ensures
        0 <= event_index(pat, row, chn, c) < num * 64 * chn,
        event_index(pat, row, chn, c) + 1 <= num * 64 * chn,
        pat * 64 + row <= (pat * 64 + row) * chn,
{
    assert(pat * 64 + row <= (pat * 64 + row) * chn) by (nonlinear_arith)
        requires pat >= 0, row >= 0, chn >= 1;
    assert((pat * 64 + row) * chn + c < (pat * 64 + row + 1) * chn) by (nonlinear_arith)
        requires c < chn;
    assert((pat * 64 + row + 1) * chn <= num * 64 * chn) by (nonlinear_arith)
        requires pat * 64 + row + 1 <= num * 64, chn >= 0;
    assert(0 <= (pat * 64 + row) * chn) by (nonlinear_arith)
        requires pat >= 0, row >= 0, chn >= 0;
}

/// Module data shared by the MOD, FEST and Soundtracker formats.
pub struct ModData {
    pub song_name: String,
    pub instruments: Vec<ModInstrument>,
    pub song_length: u8,
    /// Noisetracker restart position.
    pub restart: u8,
    pub orders: [u8; 128],
    pub magic: String,
    pub patterns: ModPatterns,
    pub samples: Vec<Sample>,
}

/// Byte `j` (0 to 5) of the six that `pattern_data` writes for event `e`
/// over the byte `old`: flags, note, instrument, volume, effect, parameter.
pub open spec fn mod_event_byte(e: ModEvent, j: int, old: u8) -> u8 {
    let note = e.note & 0xfff;
    let ins = event_ins(e);
    let has_cmd = e.cmd != 0 || e.cmdlo != 0;
    if j == 0 {
        (if note != 0 { HAS_NOTE } else { 0u8 }) | (if ins != 0 { HAS_INS } else { 0u8 })
            | (if has_cmd { HAS_CMD } else { 0u8 })
    } else if j == 1 {
        if note != 0 { spec_period_note(note as nat) as u8 } else { old }
    } else if j == 2 {
        if ins != 0 { ins } else { old }
    } else if j == 4 {
        if has_cmd { e.cmd } else { old }
    } else if j == 5 {
        if has_cmd { e.cmdlo } else { old }
    } else {
        old
    }
}

/// `pattern_data` of a Protracker pattern list: event `i` of pattern `pat`
/// rendered over bytes `6 * i ..` of `old`, for `i < num`.
pub open spec fn mod_pattern_bytes(p: ModPatterns, pat: int, num: int, old: Seq<u8>) -> Seq<u8> {
    Seq::new(old.len(), |k: int|
        if k < 6 * num {
            mod_event_byte(p.events()[pat * 64 * p.spec_chn() + k / 6], k % 6, old[k])
        } else {
            old[k]
        })
}

/// Renders events `0..num` of pattern `pat` of `p` into `buffer`, six bytes
/// each: flags, note, instrument, volume, effect and parameter.
pub fn mod_pattern_data(p: &ModPatterns, pat: usize, num: usize, buffer: &mut [u8]) -> (r: usize)
    requires
        p.wf(),
        pat < p.spec_num(),
        num <= 64 * p.spec_chn(),
        6 * num <= old(buffer)@.len(),
    ensures
        r == num,
        final(buffer)@ == mod_pattern_bytes(*p, pat as int, num as int, old(buffer)@),
{
    let chn = p.chn;
    proof {
        assert(pat * 64 * chn + num <= p.num * 64 * chn && pat * chn <= pat * 64 * chn
            && pat * chn * 64 == pat * 64 * chn) by (nonlinear_arith)
            requires pat < p.num, num <= 64 * chn, pat >= 0, chn >= 0;
        assert(p.data@.len() == p.data.len());
    }
    let base = pat * chn * 64;
    let mut i: usize = 0;
    while i < num
        invariant
            p.wf(),
            chn == p.spec_chn(),
            base == pat * 64 * chn,
            base + num <= p.events().len(),
            p.events().len() == p.data.len(),
            i <= num,
            6 * num <= buffer.len(),
            buffer@.len() == old(buffer)@.len(),
            forall|k: int| 0 <= k < buffer@.len() ==> #[trigger] buffer@[k] == (if k < 6 * i {
                mod_pattern_bytes(*p, pat as int, num as int, old(buffer)@)[k]
            } else {
                old(buffer)@[k]
            }),
        decreases num - i,
    {
        let ofs = i * 6;
        let e = p.data[base + i];
        let ghost pre = buffer@;
        let note = e.note & 0xfff;
        let ins = e.ins();
        let has_cmd = e.cmd != 0 || e.cmdlo != 0;
        let flags: u8 = (if note != 0 { HAS_NOTE } else { 0u8 }) | (if ins != 0 { HAS_INS } else { 0u8 })
            | (if has_cmd { HAS_CMD } else { 0u8 });
        if note != 0 {
            buffer[ofs + 1] = period_to_note(note);
        }
        if ins != 0 {
            buffer[ofs + 2] = ins;
        }
        if has_cmd {
            buffer[ofs + 4] = e.cmd;
            buffer[ofs + 5] = e.cmdlo;
        }
        buffer[ofs] = flags;
        proof {
            let target = mod_pattern_bytes(*p, pat as int, num as int, old(buffer)@);
            assert(e == p.events()[base + i]);
            assert forall|k: int| 0 <= k < buffer@.len() implies #[trigger] buffer@[k] == (if k < 6 * (i + 1) {
                target[k]
            } else {
                old(buffer)@[k]
            }) by {
                if 6 * i <= k < 6 * i + 6 {
                    assert(k / 6 == i);
                    assert(k % 6 == k - 6 * i);
                    assert(pre[k] == old(buffer)@[k]);
                }
            }
        }
        i = i + 1;
    }
    num
}

impl ModData {
    pub open spec fn wf(&self) -> bool {
        self.patterns.wf()
    }

    /// The module title.
    pub fn title(&self) -> (r: &str)
        ensures
            r@ == self.song_name@,
    {
        self.song_name.as_str()
    }

    /// Number of patterns.
    pub fn patterns(&self) -> (r: usize)
        ensures
            r == self.patterns.spec_num(),
    {
        self.patterns.num()
    }

    /// Song length in positions.
    pub fn len(&self) -> (r: usize)
        ensures
            r == self.song_length,
    {
        self.song_length as usize
    }

    /// The pattern played at position `pos`.
    pub fn pattern_in_position(&self, pos: usize) -> (r: Option<usize>)
        ensures
            pos >= 128 ==> r is None,
            pos < 128 ==> r == Some(self.orders@[pos as int] as usize),
    {
        if pos >= 128 {
            None
        } else {
            Some(self.orders[pos] as usize)
        }
    }

    /// Instrument names.
    pub fn instruments(&self) -> (r: Vec<String>)
        ensures
            r@.len() == self.instruments@.len(),
            forall|i: int| 0 <= i < r@.len() ==> r@[i]@ == self.instruments@[i].name@,
    {
        let mut v: Vec<String> = Vec::new();
        let mut i: usize = 0;
        while i < self.instruments.len()
            invariant
                i <= self.instruments@.len(),
                v@.len() == i,
                forall|j: int| 0 <= j < i ==> v@[j]@ == self.instruments@[j].name@,
            decreases self.instruments.len() - i,
        {
            v.push(self.instruments[i].name.clone());
            i = i + 1;
        }
        v
    }

    /// Rows of pattern `pat`: 64 for an existing pattern.
    pub fn rows(&self, pat: usize) -> (r: usize)
        ensures
            r == if pat < self.patterns.spec_num() { 64usize } else { 0usize },
    {
        if pat >= self.patterns.num() {
            0
        } else {
            64
        }
    }

    /// Renders events of pattern `pat`; see `mod_pattern_data`.
    pub fn pattern_data(&self, pat: usize, num: usize, buffer: &mut [u8]) -> (r: usize)
        requires
            self.wf(),
            pat < self.patterns.spec_num(),
            num <= 64 * self.patterns.spec_chn(),
            6 * num <= old(buffer)@.len(),
        ensures
            r == num,
            final(buffer)@ == mod_pattern_bytes(self.patterns, pat as int, num as int, old(buffer)@),
    {
        mod_pattern_data(&self.patterns, pat, num, buffer)
    }

    /// Copies of the samples.
    pub fn samples(&self) -> (r: Vec<Sample>)
        ensures
            same_samples(r@, self.samples@),
    {
        copy_samples(&self.samples)
    }
}

} // verus!
