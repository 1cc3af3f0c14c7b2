//! Scream Tracker 2 STM modules.

pub mod load;

use vstd::prelude::*;
use crate::module::sample::{Sample, same_samples, copy_samples};
use crate::text::{dec_chars, hex2_upper_chars, push_dec, push_hex2_upper, push_str, chars_to_string};
use crate::util::{note_name, push_note_name, short_read_msg, BinaryRead};
use crate::{Error, load_error};
use crate::module::event::Event;

verus! {

/// An STM instrument header.
#[derive(Debug)]
pub struct StmInstrument {
    pub num: usize,
    pub name: String,
    pub size: u16,
    pub loop_start: u16,
    pub loop_end: u16,
    pub volume: u8,
    pub c2spd: u16,
}

impl StmInstrument {
    /// An instrument with an empty name and all values zero.
    pub fn new() -> (r: Self)
        ensures
            r.num == 0,
            r.name@ == Seq::<char>::empty(),
            r.size == 0,
            r.loop_start == 0,
            r.loop_end == 0,
            r.volume == 0,
            r.c2spd == 0,
    {
        StmInstrument { num: 0, name: String::new(), size: 0, loop_start: 0, loop_end: 0, volume: 0, c2spd: 0 }
    }
}

/// An event of a Scream Tracker 2 pattern.
#[derive(Clone, Copy, Debug, PartialEq, Eq, Structural)]
pub struct StmEvent {
    pub note: u8,
    pub volume: u8,
    pub smp: u8,
    pub cmd: u8,
    pub infobyte: u8,
}

/// The event encoded in the four bytes at `ofs` of `b`: the note, the
/// sample number in the top five bits of the second byte, the volume in its
/// low three bits and the high nibble of the third, the effect in the low
/// nibble of the third and its parameter in the fourth.
pub open spec fn stm_event_at(b: Seq<u8>, ofs: int) -> StmEvent {
    StmEvent {
        note: b[ofs],
        volume: (b[ofs + 1] & 0x07) | ((b[ofs + 2] & 0xf0) >> 1),
        smp: (b[ofs + 1] & 0xf8) >> 3,
        cmd: b[ofs + 2] & 0x0f,
        infobyte: b[ofs + 3],
    }
}

/// The note number of an STM note byte: octave in the high nibble counted
/// from octave 3, semitone in the low nibble.
pub open spec fn stm_note(note: u8) -> int {
    (note & 0xf) + 12 * (3 + (note >> 4))
}

/// The text of an event: note and octave, sample, volume, effect letter and
/// parameter; absent fields are dashes.
pub open spec fn stm_event_text(e: StmEvent) -> Seq<char> {
    let note = if e.note > 250 {
        "---"@
    } else {
        note_name(stm_note(e.note) % 12) + dec_chars((stm_note(e.note) / 12) as nat)
    };
    let smp = if e.smp == 0 { "--"@ } else { hex2_upper_chars(e.smp) };
    let vol = if e.volume == 65 { "--"@ } else { hex2_upper_chars(e.volume) };
    let cmd = if e.cmd == 0 { '.' } else { (64 + e.cmd) as char };
    note + " "@ + smp + " "@ + vol + " "@ + seq![cmd] + hex2_upper_chars(e.infobyte)
}

impl StmEvent {
    /// Decodes the first four bytes of `b`.
    pub fn from_slice(b: &[u8]) -> (r: Self)
        requires
            b@.len() >= 4,
        ensures
            r == stm_event_at(b@, 0),
    {
        StmEvent {
            note: b[0],
            volume: (b[1] & 0x07) | ((b[2] & 0xf0) >> 1),
            smp: (b[1] & 0xf8) >> 3,
            cmd: b[2] & 0x0f,
            infobyte: b[3],
        }
    }

    /// The text of the event.
    pub fn to_string(&self) -> (r: String)
        requires
            self.cmd < 192,
        ensures
            r@ == stm_event_text(*self),
    {
        let mut v: Vec<char> = Vec::new();
        if self.note > 250 {
            push_str(&mut v, "---");
        } else {
            let x = self.note;
            assert((x & 0xf) <= 15 && (x >> 4) <= 15) by (bit_vector);
            let n = ((x & 0xf) + 12 * (3 + (x >> 4))) as usize;
            push_note_name(&mut v, n);
            push_dec(&mut v, (n / 12) as u64);
        }
        push_str(&mut v, " ");
        if self.smp == 0 {
            push_str(&mut v, "--");
        } else {
            push_hex2_upper(&mut v, self.smp);
        }
        push_str(&mut v, " ");
        if self.volume == 65 {
            push_str(&mut v, "--");
        } else {
            push_hex2_upper(&mut v, self.volume);
        }
        push_str(&mut v, " ");
        if self.cmd == 0 {
            v.push('.');
        } else {
            v.push((64u8 + self.cmd) as char);
        }
        push_hex2_upper(&mut v, self.infobyte);
        chars_to_string(&v)
    }
}

/// Patterns of 64 rows of four channels.
pub struct StmPatterns {
    data: Vec<StmEvent>,
}

impl StmPatterns {
    /// The events, in pattern, row and channel order.
    pub closed spec fn events(&self) -> Seq<StmEvent> {
        self.data@
    }

    /// Decodes `num` patterns from `b`, four bytes per event.
    pub fn from_slice(num: usize, b: &[u8]) -> (r: Result<Self, Error>)
        requires
            num * 1024 <= usize::MAX,
        ensures
            r is Ok <==> num * 1024 <= b@.len(),
            r matches Ok(p) ==> p.events().len() == num * 256
                && forall|i: int| 0 <= i < p.events().len() ==> p.events()[i] == #[trigger] stm_event_at(b@, 4 * i),
            r matches Err(e) ==> load_error(e, short_read_msg((4 * (b@.len() / 4) + 4) as nat, b@.len())),
    {
        let total = num * 256;
        let mut data: Vec<StmEvent> = Vec::new();
        let mut i: usize = 0;
        while i < total
            invariant
                total == num * 256,
                total * 4 <= usize::MAX,
                i <= total,
                4 * i <= b@.len(),
                data@.len() == i,
                forall|j: int| 0 <= j < i ==> data@[j] == #[trigger] stm_event_at(b@, 4 * j),
            decreases total - i,
        {
            let s = match b.slice(4 * i, 4) {
                Ok(s) => s,
                Err(e) => {
                    assert(i == b@.len() / 4) by (nonlinear_arith)
                        requires 4 * i <= b@.len() < 4 * i + 4;
                    return Err(e);
                }
            };
            data.push(StmEvent::from_slice(s));
            i = i + 1;
        }
        Ok(StmPatterns { data })
    }

    /// The event at channel `chn` of row `row` of pattern `pat`.
    pub fn event(&self, pat: u16, row: u16, chn: usize) -> (r: &StmEvent)
        requires
            pat as int * 256 + row as int * 4 + chn < self.events().len(),
        ensures
            *r == self.events()[pat as int * 256 + row as int * 4 + chn],
    {
        proof {
            assert(self.data@.len() == self.data.len());
        }
        &self.data[pat as usize * 256 + row as usize * 4 + chn]
    }
}

/// A Scream Tracker 2 module.
pub struct StmData {
    pub name: String,
    pub speed: u8,
    pub num_patterns: u8,
    pub global_vol: u8,
    pub instruments: Vec<StmInstrument>,
    pub orders: [u8; 128],
    pub patterns: StmPatterns,
    pub samples: Vec<Sample>,
}

/// The song length from position `i` on: the first position naming a
/// pattern the module lacks, 128 if there is none.
pub open spec fn stm_song_len(orders: Seq<u8>, num: u8, i: int) -> int
    decreases 128 - i,
{
    if i >= 128 {
        128
    } else if orders[i] >= num {
        i
    } else {
        stm_song_len(orders, num, i + 1)
    }
}

/// The common form of an STM event: notes above 250 are none, else the
/// octave (from 3 up) in the high nibble and the semitone in the low; a
/// volume of 65 is none.
pub open spec fn stm_common_event(p: StmEvent) -> Event {
    Event {
        note: if p.note > 250 { 0 } else { (p.note % 16 + 12 * (3 + p.note / 16)) as u8 },
        ins: p.smp,
        vol: if p.volume == 65 { 0 } else { p.volume.wrapping_add(1) },
        fxt: p.cmd,
        fxp: p.infobyte,
    }
}

impl StmData {
    /// The event at channel `chn` of row `row` of pattern `num`, in common
    /// form; none past the patterns, the 64 rows or the 4 channels.
    pub fn event(&self, num: usize, row: usize, chn: usize) -> (r: Option<Event>)
        requires
            self.patterns.events().len() >= self.num_patterns as int * 256,
        ensures
            num >= self.num_patterns || row >= 64 || chn >= 4 ==> r is None,
            num < self.num_patterns && row < 64 && chn < 4 ==> r == Some(stm_common_event(
                self.patterns.events()[num as int * 256 + row as int * 4 + chn as int])),
    {
        if num >= self.num_patterns as usize || row >= 64 || chn >= 4 {
            return None;
        }
        let p = self.patterns.event(num as u16, row as u16, chn);
        let lo = p.note % 16;
        let hi = p.note / 16;
        Some(Event {
            note: if p.note > 250 { 0 } else { lo + 12 * (3 + hi) },
            ins: p.smp,
            vol: if p.volume == 65 { 0 } else { p.volume.wrapping_add(1) },
            fxt: p.cmd,
            fxp: p.infobyte,
        })
    }

    /// The module title.
    pub fn title(&self) -> (r: &str)
        ensures
            r@ == self.name@,
    {
        self.name.as_str()
    }

    /// Number of channels.
    pub fn channels(&self) -> (r: usize)
        ensures
            r == 4,
    {
        4
    }

    /// Number of patterns.
    pub fn patterns(&self) -> (r: usize)
        ensures
            r == self.num_patterns,
    {
        self.num_patterns as usize
    }

    /// Song length in positions.
    pub fn len(&self) -> (r: usize)
        ensures
            r == stm_song_len(self.orders@, self.num_patterns, 0),
            r <= 128,
            forall|j: int| 0 <= j < r ==> self.orders@[j] < self.num_patterns,
            r < 128 ==> self.orders@[r as int] >= self.num_patterns,
    {
        let mut i: usize = 0;
        while i < 128
            invariant
                i <= 128,
                forall|j: int| 0 <= j < i ==> self.orders@[j] < self.num_patterns,
                stm_song_len(self.orders@, self.num_patterns, 0) == stm_song_len(self.orders@, self.num_patterns, i as int),
            decreases 128 - i,
        {
            if self.orders[i] >= self.num_patterns {
                return i;
            }
            i = i + 1;
        }
        128
    }

    /// The pattern played at position `pos`.
    pub fn pattern_in_position(&self, pos: usize) -> (r: Option<usize>)
        ensures
            pos >= 128 ==> r is None,
            pos < 128 ==> r == Some(self.orders@[pos as int] as usize),
    {
        if pos >= 128 {
            None
        } else {
            Some(self.orders[pos] as usize)
        }
    }

    /// Instrument names.
    pub fn instruments(&self) -> (r: Vec<String>)
        ensures
            r@.len() == self.instruments@.len(),
            forall|i: int| 0 <= i < r@.len() ==> r@[i]@ == self.instruments@[i].name@,
    {
        let mut v: Vec<String> = Vec::new();
        let mut i: usize = 0;
        while i < self.instruments.len()
            invariant
                i <= self.instruments@.len(),
                v@.len() == i,
                forall|j: int| 0 <= j < i ==> v@[j]@ == self.instruments@[j].name@,
            decreases self.instruments.len() - i,
        {
            v.push(self.instruments[i].name.clone());
            i = i + 1;
        }
        v
    }

    /// Rows of pattern `pat`: 64 for an existing pattern.
    pub fn rows(&self, pat: usize) -> (r: usize)
        ensures
            r == if pat < self.num_patterns { 64usize } else { 0usize },
    {
        if pat >= self.num_patterns as usize {
            0
        } else {
            64
        }
    }

    /// Copies of the samples.
    pub fn samples(&self) -> (r: Vec<Sample>)
        ensures
            same_samples(r@, self.samples@),
    {
        copy_samples(&self.samples)
    }
}

} // verus!
