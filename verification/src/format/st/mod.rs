//! Soundtracker 15-instrument modules.

pub mod load;

use vstd::prelude::*;
use crate::format::mk::{ModInstrument, ModPatterns, mod_pattern_bytes, mod_pattern_data};
use crate::module::sample::{Sample, same_samples, copy_samples};

verus! {

/// A Soundtracker module: like a MOD module, with 15 instruments and an
/// initial tempo in place of the restart position.
pub struct StData {
    pub song_name: String,
    pub instruments: Vec<ModInstrument>,
    pub song_length: u8,
    pub tempo: u8,
    pub orders: [u8; 128],
    pub patterns: ModPatterns,
    pub samples: Vec<Sample>,
}

impl StData {
    pub open spec fn wf(&self) -> bool {
        &&& self.patterns.wf()
        &&& self.patterns.spec_chn() == 4
    }

    /// The module title.
    pub fn title(&self) -> (r: &str)
        ensures
            r@ == self.song_name@,
    {
        self.song_name.as_str()
    }

    /// Number of patterns.
    pub fn patterns(&self) -> (r: usize)
        ensures
            r == self.patterns.spec_num(),
    {
        self.patterns.num()
    }

    /// Song length in positions.
    pub fn len(&self) -> (r: usize)
        ensures
            r == self.song_length,
    {
        self.song_length as usize
    }

    /// The pattern played at position `pos`.
    pub fn pattern_in_position(&self, pos: usize) -> (r: Option<usize>)
        ensures
            pos >= 128 ==> r is None,
            pos < 128 ==> r == Some(self.orders@[pos as int] as usize),
    {
        if pos >= 128 {
            None
        } else {
            Some(self.orders[pos] as usize)
        }
    }

    /// Instrument names.
    pub fn instruments(&self) -> (r: Vec<String>)
        ensures
            r@.len() == self.instruments@.len(),
            forall|i: int| 0 <= i < r@.len() ==> r@[i]@ == self.instruments@[i].name@,
    {
        let mut v: Vec<String> = Vec::new();
        let mut i: usize = 0;
        while i < self.instruments.len()
            invariant
                i <= self.instruments@.len(),
                v@.len() == i,
                forall|j: int| 0 <= j < i ==> v@[j]@ == self.instruments@[j].name@,
            decreases self.instruments.len() - i,
        {
            v.push(self.instruments[i].name.clone());
            i = i + 1;
        }
        v
    }

    /// Rows of pattern `pat`: 64 for an existing pattern.
    pub fn rows(&self, pat: usize) -> (r: usize)
        ensures
            r == if pat < self.patterns.spec_num() { 64usize } else { 0usize },
    {
        if pat >= self.patterns.num() {
            0
        } else {
            64
        }
    }

    /// Renders events `0..num` of pattern `pat` into `buffer`, six bytes each.
    pub fn pattern_data(&self, pat: usize, num: usize, buffer: &mut [u8]) -> (r: usize)
        requires
            self.wf(),
            pat < self.patterns.spec_num(),
            num <= 256,
            6 * num <= old(buffer)@.len(),
        ensures
            r == num,
            final(buffer)@ == mod_pattern_bytes(self.patterns, pat as int, num as int, old(buffer)@),
    {
        mod_pattern_data(&self.patterns, pat, num, buffer)
    }

    /// Copies of the samples.
    pub fn samples(&self) -> (r: Vec<Sample>)
        ensures
            same_samples(r@, self.samples@),
    {
        copy_samples(&self.samples)
    }
}

} // verus!
