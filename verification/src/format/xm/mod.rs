//! FastTracker II XM modules: the header types, probing and the delta
//! decoding of sample data.

pub mod load;

use vstd::prelude::*;
use crate::module::sample::{Sample, same_samples, copy_samples};

verus! {

/// The XM song header.
pub struct SongHeaderTyp {
    pub sig: String,
    pub name: String,
    pub prog_name: String,
    pub ver: u16,
    pub header_size: i32,
    pub len: u16,
    pub rep_s: u16,
    pub ant_chn: u16,
    pub ant_ptn: u16,
    pub ant_instrs: u16,
    pub flags: u16,
    pub def_tempo: u16,
    pub def_speed: u16,
    pub song_tab: [u8; 256],
}

/// An XM sample header.
pub struct SampleHeaderTyp {
    pub len: i32,
    pub rep_s: i32,
    pub rep_l: i32,
    pub vol: u8,
    pub fine: i8,
    pub typ: u8,
    pub pan: u8,
    pub rel_ton: i8,
    pub skrap: u8,
    pub name: String,
}

/// An XM instrument header with its envelopes and sample headers.
pub struct InstrHeaderTyp {
    pub instr_size: i32,
    pub name: String,
    pub typ: u8,
    pub ant_samp: u16,
    pub sample_size: i32,
    pub ta: [u8; 96],
    pub env_vp: [[i16; 2]; 12],
    pub env_pp: [[i16; 2]; 12],
    pub env_vp_ant: u8,
    pub env_pp_ant: u8,
    pub env_v_sust: u8,
    pub env_v_rep_s: u8,
    pub env_v_rep_e: u8,
    pub env_p_sust: u8,
    pub env_p_rep_s: u8,
    pub env_p_rep_e: u8,
    pub env_v_typ: u8,
    pub env_p_typ: u8,
    pub vib_type: u8,
    pub vib_sweep: u8,
    pub vib_depth: u8,
    pub vib_rate: u8,
    pub fade_out: u16,
    pub samp: Vec<SampleHeaderTyp>,
}

/// An XM pattern header.
pub struct PatternHeaderTyp {
    pub pattern_header_size: i32,
    pub typ: u8,
    pub patt_len: u16,
    pub data_len: u16,
}

/// An XM module.
pub struct XmData {
    pub header: SongHeaderTyp,
    pub instruments: Vec<InstrHeaderTyp>,
    pub patterns: Vec<PatternHeaderTyp>,
    pub xm_samples: Vec<SampleHeaderTyp>,
    pub samples: Vec<Sample>,
}

impl XmData {
    /// The module title.
    pub fn title(&self) -> (r: &str)
        ensures
            r@ == self.header.name@,
    {
        self.header.name.as_str()
    }

    /// Number of patterns.
    pub fn patterns(&self) -> (r: usize)
        ensures
            r == self.header.ant_ptn,
    {
        self.header.ant_ptn as usize
    }

    /// Song length in positions.
    pub fn len(&self) -> (r: usize)
        ensures
            r == self.header.len,
    {
        self.header.len as usize
    }

    /// The pattern played at position `pos` of the song table.
    pub fn pattern_in_position(&self, pos: usize) -> (r: Option<usize>)
        requires
            pos < self.header.len ==> pos < 256,
        ensures
            pos >= self.header.len ==> r is None,
            pos < self.header.len ==> r == Some(self.header.song_tab@[pos as int] as usize),
    {
        if pos >= self.header.len as usize {
            None
        } else {
            Some(self.header.song_tab[pos] as usize)
        }
    }

    /// Instrument names.
    pub fn instruments(&self) -> (r: Vec<String>)
        ensures
            r@.len() == self.instruments@.len(),
            forall|i: int| 0 <= i < r@.len() ==> r@[i]@ == self.instruments@[i].name@,
    {
        let mut v: Vec<String> = Vec::new();
        let mut i: usize = 0;
        while i < self.instruments.len()
            invariant
                i <= self.instruments@.len(),
                v@.len() == i,
                forall|j: int| 0 <= j < i ==> v@[j]@ == self.instruments@[j].name@,
            decreases self.instruments.len() - i,
        {
            v.push(self.instruments[i].name.clone());
            i = i + 1;
        }
        v
    }

    /// Rows of pattern `pat`: its length, 0 beyond the patterns.
    pub fn rows(&self, pat: usize) -> (r: usize)
        requires
            pat < self.header.ant_ptn ==> pat < self.patterns@.len(),
        ensures
            pat >= self.header.ant_ptn ==> r == 0,
            pat < self.header.ant_ptn ==> r == self.patterns@[pat as int].patt_len,
    {
        if pat >= self.header.ant_ptn as usize {
            0
        } else {
            self.patterns[pat].patt_len as usize
        }
    }

    /// XM patterns are not rendered: no bytes are written.
    pub fn pattern_data(&self, pat: usize, num: usize, buffer: &mut [u8]) -> (r: usize)
        ensures
            r == 0,
            final(buffer)@ == old(buffer)@,
    {
        0
    }

    /// Copies of the samples.
    pub fn samples(&self) -> (r: Vec<Sample>)
        ensures
            same_samples(r@, self.samples@),
    {
        copy_samples(&self.samples)
    }
}

} // verus!
