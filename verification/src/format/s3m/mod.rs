//! Scream Tracker 3 S3M modules.

pub mod load;

use vstd::prelude::*;
use crate::module::event::{HAS_NOTE, HAS_INS, HAS_VOL, HAS_CMD};
use crate::module::sample::{Sample, same_samples, copy_samples};

verus! {

/// An S3M module: the header fields, orders, parapointers, instruments,
/// packed patterns and samples.
pub struct S3mData {
    pub song_name: String,
    pub ord_num: u16,
    pub ins_num: u16,
    pub pat_num: u16,
    pub flags: u16,
    pub cwt_v: u16,
    pub ffi: u16,
    pub g_v: u8,
    pub i_s: u8,
    pub i_t: u8,
    pub m_v: u8,
    pub d_p: u8,
    pub ch_settings: [u8; 32],
    pub orders: Vec<u8>,
    pub instrum_pp: Vec<u32>,
    pub pattern_pp: Vec<u32>,
    pub ch_pan: [u8; 32],
    pub instruments: Vec<S3mInstrument>,
    pub patterns: Vec<S3mPattern>,
    pub samples: Vec<Sample>,
    pub channels: usize,
}

/// An S3M instrument header.
#[derive(Debug)]
pub struct S3mInstrument {
    pub typ: u8,
    pub memseg: u32,
    pub length: u32,
    pub loop_beg: u32,
    pub loop_end: u32,
    pub vol: i8,
    pub flags: i8,
    pub c2spd: u32,
    pub name: String,
}

impl S3mInstrument {
    /// An instrument with an empty name and all values zero.
    pub fn new() -> (r: Self)
        ensures
            r.typ == 0,
            r.memseg == 0,
            r.length == 0,
            r.loop_beg == 0,
            r.loop_end == 0,
            r.vol == 0,
            r.flags == 0,
            r.c2spd == 0,
            r.name@ == Seq::<char>::empty(),
    {
        S3mInstrument { typ: 0, memseg: 0, length: 0, loop_beg: 0, loop_end: 0, vol: 0, flags: 0, c2spd: 0, name: String::new() }
    }
}

/// A packed S3M pattern: its length word and the bytes that include it.
pub struct S3mPattern {
    pub size: usize,
    pub data: Vec<u8>,
}

/// The note byte of the six-byte rendering: octave in the high nibble,
/// semitone in the low.
pub open spec fn s3m_note(x: u8) -> u8 {
    ((x >> 4) * 12 + (x & 0x0f)) as u8
}

/// Renders the packed pattern bytes `p`, read from `i` at row `row`, into
/// `buf` (six bytes per event, `chn` events per row) until an event falls
/// at index `num` or beyond; `None` where the bytes end first.
pub open spec fn s3m_render(p: Seq<u8>, i: int, row: int, chn: int, num: int, buf: Seq<u8>) -> Option<Seq<u8>>
    decreases p.len() - i,
{
    if i < 0 || i >= p.len() {
        None
    } else {
        let b = p[i];
        if b == 0 {
            s3m_render(p, i + 1, row + 1, chn, num, buf)
        } else {
            let index = row * chn + (b & 0x1f);
            let ofs = 6 * index;
            if index >= num {
                Some(buf)
            } else if b & 0x20 != 0 && i + 3 > p.len() {
                None
            } else {
                let j2 = if b & 0x20 != 0 { i + 3 } else { i + 1 };
                let buf1 = if b & 0x20 != 0 {
                    buf.update(ofs, buf[ofs] | HAS_NOTE | HAS_INS).update(ofs + 1, s3m_note(p[i + 1])).update(ofs + 2, p[i + 2])
                } else {
                    buf
                };
                if b & 0x40 != 0 && j2 + 1 > p.len() {
                    None
                } else {
                    let j3 = if b & 0x40 != 0 { j2 + 1 } else { j2 };
                    let buf2 = if b & 0x40 != 0 {
                        buf1.update(ofs, buf1[ofs] | HAS_VOL).update(ofs + 3, p[j2])
                    } else {
                        buf1
                    };
                    if b & 0x80 != 0 && j3 + 2 > p.len() {
                        None
                    } else {
                        let j4 = if b & 0x80 != 0 { j3 + 2 } else { j3 };
                        let buf3 = if b & 0x80 != 0 {
                            buf2.update(ofs, buf2[ofs] | HAS_CMD).update(ofs + 4, p[j3]).update(ofs + 5, p[j3 + 1])
                        } else {
                            buf2
                        };
                        s3m_render(p, j4, row, chn, num, buf3)
                    }
                }
            }
        }
    }
}

impl S3mData {
    /// The patterns hold their length word and the bytes it counts, and the
    /// module has between 1 and 32 channels.
    pub open spec fn wf(&self) -> bool {
        &&& 1 <= self.channels <= 32
        &&& forall|k: int| 0 <= k < self.patterns@.len() ==> #[trigger] self.patterns@[k].data@.len() <= 65537
    }

    /// Whether the module is well formed (see `wf`).
    pub fn patterns_fit(&self) -> (r: bool)
        ensures
            r == self.wf(),
    {
        if self.channels < 1 || self.channels > 32 {
            return false;
        }
        let mut k: usize = 0;
        while k < self.patterns.len()
            invariant
                k <= self.patterns@.len(),
                forall|j: int| 0 <= j < k ==> #[trigger] self.patterns@[j].data@.len() <= 65537,
            decreases self.patterns.len() - k,
        {
            if self.patterns[k].data.len() > 65537 {
                return false;
            }
            k = k + 1;
        }
        true
    }

    /// The module title.
    pub fn title(&self) -> (r: &str)
        ensures
            r@ == self.song_name@,
    {
        self.song_name.as_str()
    }

    /// Number of patterns.
    pub fn patterns(&self) -> (r: usize)
        ensures
            r == self.pat_num,
    {
        self.pat_num as usize
    }

    /// Song length in positions.
    pub fn len(&self) -> (r: usize)
        ensures
            r == self.ord_num,
    {
        self.ord_num as usize
    }

    /// The pattern played at position `pos`.
    pub fn pattern_in_position(&self, pos: usize) -> (r: Option<usize>)
        ensures
            pos >= self.orders@.len() ==> r is None,
            pos < self.orders@.len() ==> r == Some(self.orders@[pos as int] as usize),
    {
        if pos >= self.orders.len() {
            None
        } else {
            Some(self.orders[pos] as usize)
        }
    }

    /// The names of the samples.
    pub fn instruments(&self) -> (r: Vec<String>)
        ensures
            r@.len() == self.samples@.len(),
            forall|i: int| 0 <= i < r@.len() ==> r@[i]@ == self.samples@[i].name@,
    {
        let mut v: Vec<String> = Vec::new();
        let mut i: usize = 0;
        while i < self.samples.len()
            invariant
                i <= self.samples@.len(),
                v@.len() == i,
                forall|j: int| 0 <= j < i ==> v@[j]@ == self.samples@[j].name@,
            decreases self.samples.len() - i,
        {
            v.push(self.samples[i].name.clone());
            i = i + 1;
        }
        v
    }

    /// Rows of pattern `pat`: 64 for an existing pattern.
    pub fn rows(&self, pat: usize) -> (r: usize)
        ensures
            r == if pat < self.pat_num { 64usize } else { 0usize },
    {
        if pat >= self.pat_num as usize {
            0
        } else {
            64
        }
    }

    /// Renders the events of pattern `pat` with an index below `num` into
    /// `buffer`, six bytes each; see `s3m_render`.
    pub fn pattern_data(&self, pat: usize, num: usize, buffer: &mut [u8]) -> (r: usize)
        requires
            self.wf(),
            pat < self.patterns@.len(),
            6 * num <= old(buffer)@.len(),
            s3m_render(self.patterns@[pat as int].data@, 2, 0, self.channels as int, num as int, old(buffer)@) is Some,
        ensures
            r == num,
            Some(final(buffer)@) == s3m_render(self.patterns@[pat as int].data@, 2, 0, self.channels as int,
                num as int, old(buffer)@),
    {
        let p = &self.patterns[pat].data;
        let chn = self.channels;
        let ghost target = s3m_render(p@, 2, 0, chn as int, num as int, buffer@);
        let mut row: usize = 0;
        let mut i: usize = 2;
        proof {
            assert(p@.len() <= 65537);
        }
        loop
            invariant
                1 <= chn <= 32,
                p@.len() <= 65537,
                row <= i,
                6 * num <= buffer@.len(),
                s3m_render(p@, i as int, row as int, chn as int, num as int, buffer@) == target,
                target is Some,
            ensures
                Some(buffer@) == target,
            decreases p@.len() - i,
        {
            let b = p[i];
            if b == 0 {
                row = row + 1;
                i = i + 1;
                continue;
            }
            assert(b & 0x1f <= 31) by (bit_vector);
            let ch = (b & 0x1f) as usize;
            assert(row * chn <= 65537 * 32) by (nonlinear_arith)
                requires row <= 65537, chn <= 32;
            let index = row * chn + ch;
            if index >= num {
                break;
            }
            let ofs = 6 * index;
            i = i + 1;
            if b & 0x20 != 0 {
                let x = p[i];
                assert((x >> 4) * 12 + (x & 0x0f) < 256) by (bit_vector);
                buffer[ofs] = buffer[ofs] | HAS_NOTE | HAS_INS;
                buffer[ofs + 1] = (x >> 4) * 12 + (x & 0x0f);
                i = i + 1;
                buffer[ofs + 2] = p[i];
                i = i + 1;
            }
            if b & 0x40 != 0 {
                buffer[ofs] = buffer[ofs] | HAS_VOL;
                buffer[ofs + 3] = p[i];
                i = i + 1;
            }
            if b & 0x80 != 0 {
                buffer[ofs] = buffer[ofs] | HAS_CMD;
                buffer[ofs + 4] = p[i];
                i = i + 1;
                buffer[ofs + 5] = p[i];
                i = i + 1;
            }
        }
        num
    }

    /// Copies of the samples.
    pub fn samples(&self) -> (r: Vec<Sample>)
        ensures
            same_samples(r@, self.samples@),
    {
        copy_samples(&self.samples)
    }
}

} // verus!
