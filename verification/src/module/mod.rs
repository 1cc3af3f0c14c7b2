//! Modules: the format-independent view of loaded module data.

pub mod event;
pub mod sample;
pub mod instrument;

use vstd::prelude::*;
use crate::format::mk::ModData;
use crate::format::st::StData;
use crate::format::stm::StmData;
use crate::format::s3m::{S3mData, s3m_render};
use crate::format::stm::stm_song_len;
use crate::format::mk::mod_pattern_bytes;
use crate::module::sample::{Sample, same_samples};
use crate::util::{filled, MemOpExt};

verus! {

/// The data of a loaded module, by format family.
pub enum ModuleData {
    Mod(ModData),
    St(StData),
    Stm(StmData),
    S3m(S3mData),
}

/// A loaded module.
pub struct Module {
    /// Format identifier.
    pub format_id: &'static str,
    /// Format description.
    pub description: String,
    /// Tracker name.
    pub creator: String,
    /// Number of mixer channels.
    pub channels: usize,
    /// Primary player for this format.
    pub player: &'static str,
    pub data: ModuleData,
}

/// The title of the module data.
pub open spec fn module_title(d: ModuleData) -> Seq<char> {
    match d {
        ModuleData::Mod(m) => m.song_name@,
        ModuleData::St(m) => m.song_name@,
        ModuleData::Stm(m) => m.name@,
        ModuleData::S3m(m) => m.song_name@,
    }
}

/// The number of patterns.
pub open spec fn module_patterns(d: ModuleData) -> int {
    match d {
        ModuleData::Mod(m) => m.patterns.spec_num() as int,
        ModuleData::St(m) => m.patterns.spec_num() as int,
        ModuleData::Stm(m) => m.num_patterns as int,
        ModuleData::S3m(m) => m.pat_num as int,
    }
}

/// The song length in positions.
pub open spec fn module_len(d: ModuleData) -> int {
    match d {
        ModuleData::Mod(m) => m.song_length as int,
        ModuleData::St(m) => m.song_length as int,
        ModuleData::Stm(m) => stm_song_len(m.orders@, m.num_patterns, 0),
        ModuleData::S3m(m) => m.ord_num as int,
    }
}

/// The order list.
pub open spec fn module_orders(d: ModuleData) -> Seq<u8> {
    match d {
        ModuleData::Mod(m) => m.orders@,
        ModuleData::St(m) => m.orders@,
        ModuleData::Stm(m) => m.orders@,
        ModuleData::S3m(m) => m.orders@,
    }
}

/// The instrument names: those of the samples for S3M modules.
pub open spec fn module_instrument_names(d: ModuleData) -> Seq<Seq<char>> {
    match d {
        ModuleData::Mod(m) => Seq::new(m.instruments@.len(), |i: int| m.instruments@[i].name@),
        ModuleData::St(m) => Seq::new(m.instruments@.len(), |i: int| m.instruments@[i].name@),
        ModuleData::Stm(m) => Seq::new(m.instruments@.len(), |i: int| m.instruments@[i].name@),
        ModuleData::S3m(m) => Seq::new(m.samples@.len(), |i: int| m.samples@[i].name@),
    }
}

/// The rows of pattern `pat`: 64 for an existing pattern, 0 otherwise.
pub open spec fn module_rows(d: ModuleData, pat: int) -> int {
    if pat < module_patterns(d) { 64 } else { 0 }
}

/// The samples.
pub open spec fn module_samples(d: ModuleData) -> Seq<Sample> {
    match d {
        ModuleData::Mod(m) => m.samples@,
        ModuleData::St(m) => m.samples@,
        ModuleData::Stm(m) => m.samples@,
        ModuleData::S3m(m) => m.samples@,
    }
}

/// The module can render pattern `pat` into a buffer of `len` bytes: the
/// pattern exists and the events asked for (one per six bytes) lie in it,
/// or, for S3M, its packed data holds them.
pub open spec fn can_render(d: ModuleData, pat: int, old: Seq<u8>) -> bool {
    let num = (old.len() / 6) as int;
    &&& old.len() >= 1
    &&& match d {
        ModuleData::Mod(m) => m.wf() && pat < m.patterns.spec_num() && num <= 64 * m.patterns.spec_chn(),
        ModuleData::St(m) => m.wf() && pat < m.patterns.spec_num() && num <= 256,
        ModuleData::Stm(m) => true,
        ModuleData::S3m(m) => m.wf() && pat < m.patterns@.len()
            && s3m_render(m.patterns@[pat].data@, 2, 0, m.channels as int, num, filled(old, 0, old.len() - 1)) is Some,
    }
}

/// The buffer `new` after rendering pattern `pat` over `old`: all but the
/// last byte cleared, then the events written; STM patterns are not rendered.
pub open spec fn rendered(d: ModuleData, pat: int, old: Seq<u8>, new: Seq<u8>) -> bool {
    let num = (old.len() / 6) as int;
    let z = filled(old, 0, old.len() - 1);
    match d {
        ModuleData::Mod(m) => new == mod_pattern_bytes(m.patterns, pat, num, z),
        ModuleData::St(m) => new == mod_pattern_bytes(m.patterns, pat, num, z),
        ModuleData::Stm(m) => new == z,
        ModuleData::S3m(m) => Some(new) == s3m_render(m.patterns@[pat].data@, 2, 0, m.channels as int, num, z),
    }
}

impl Module {
    /// The module title.
    pub fn title(&self) -> (r: &str)
        ensures
            r@ == module_title(self.data),
    {
        match &self.data {
            ModuleData::Mod(m) => m.title(),
            ModuleData::St(m) => m.title(),
            ModuleData::Stm(m) => m.title(),
            ModuleData::S3m(m) => m.title(),
        }
    }

    /// The number of patterns.
    pub fn patterns(&self) -> (r: usize)
        ensures
            r == module_patterns(self.data),
    {
        match &self.data {
            ModuleData::Mod(m) => m.patterns(),
            ModuleData::St(m) => m.patterns(),
            ModuleData::Stm(m) => m.patterns(),
            ModuleData::S3m(m) => m.patterns(),
        }
    }

    /// The song length in positions.
    pub fn len(&self) -> (r: usize)
        ensures
            r == module_len(self.data),
    {
        match &self.data {
            ModuleData::Mod(m) => m.len(),
            ModuleData::St(m) => m.len(),
            ModuleData::Stm(m) => m.len(),
            ModuleData::S3m(m) => m.len(),
        }
    }

    /// The pattern played at position `pos`, if the order list reaches it.
    pub fn pattern_in_position(&self, pos: usize) -> (r: Option<usize>)
        ensures
            pos >= module_orders(self.data).len() ==> r is None,
            pos < module_orders(self.data).len() ==> r == Some(module_orders(self.data)[pos as int] as usize),
    {
        match &self.data {
            ModuleData::Mod(m) => m.pattern_in_position(pos),
            ModuleData::St(m) => m.pattern_in_position(pos),
            ModuleData::Stm(m) => m.pattern_in_position(pos),
            ModuleData::S3m(m) => m.pattern_in_position(pos),
        }
    }

    /// The position after `pos`: these formats do not track it (0).
    pub fn next_position(&self, pos: usize) -> (r: usize)
        ensures
            r == 0,
    {
        0
    }

    /// The position before `pos`: these formats do not track it (0).
    pub fn prev_position(&self, pos: usize) -> (r: usize)
        ensures
            r == 0,
    {
        0
    }

    /// The instrument names.
    pub fn instruments(&self) -> (r: Vec<String>)
        ensures
            r@.len() == module_instrument_names(self.data).len(),
            forall|i: int| 0 <= i < r@.len() ==> r@[i]@ == module_instrument_names(self.data)[i],
    {
        match &self.data {
            ModuleData::Mod(m) => m.instruments(),
            ModuleData::St(m) => m.instruments(),
            ModuleData::Stm(m) => m.instruments(),
            ModuleData::S3m(m) => m.instruments(),
        }
    }

    /// The rows of pattern `pat`.
    pub fn rows(&self, pat: usize) -> (r: usize)
        ensures
            r == module_rows(self.data, pat as int),
    {
        match &self.data {
            ModuleData::Mod(m) => m.rows(pat),
            ModuleData::St(m) => m.rows(pat),
            ModuleData::Stm(m) => m.rows(pat),
            ModuleData::S3m(m) => m.rows(pat),
        }
    }

    /// Renders pattern `pat` into `buffer`, six bytes per event, after
    /// clearing all but its last byte; returns the number of events asked
    /// for (0 for STM, whose patterns are not rendered).
    pub fn pattern_data(&self, pat: usize, buffer: &mut [u8]) -> (r: usize)
        requires
            can_render(self.data, pat as int, old(buffer)@),
        ensures
            rendered(self.data, pat as int, old(buffer)@, final(buffer)@),
            r == (if self.data is Stm { 0 } else { old(buffer)@.len() / 6 }),
    {
        let length = buffer.len();
        MemOpExt::fill(buffer, 0, length);
        match &self.data {
            ModuleData::Mod(m) => m.pattern_data(pat, length / 6, buffer),
            ModuleData::St(m) => m.pattern_data(pat, length / 6, buffer),
            ModuleData::Stm(m) => 0,
            ModuleData::S3m(m) => m.pattern_data(pat, length / 6, buffer),
        }
    }

    /// Copies of the samples.
    pub fn samples(&self) -> (r: Vec<Sample>)
        ensures
            same_samples(r@, module_samples(self.data)),
    {
        match &self.data {
            ModuleData::Mod(m) => m.samples(),
            ModuleData::St(m) => m.samples(),
            ModuleData::Stm(m) => m.samples(),
            ModuleData::S3m(m) => m.samples(),
        }
    }
}

} // verus!
