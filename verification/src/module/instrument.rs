//! Instrument sample maps and keymaps.

use vstd::prelude::*;

verus! {

/// The sample an instrument plays for a key, and the transposition.
#[derive(Clone, Copy, Debug)]
pub struct SampleMap {
    pub sample_num: u32,
    pub transpose: isize,
}

impl SampleMap {
    /// Sample 0, no transposition.
    pub fn new() -> (r: Self)
        ensures
            r.sample_num == 0,
            r.transpose == 0,
    {
        SampleMap { sample_num: 0, transpose: 0 }
    }
}

/// What every instrument of a format tells: its number, name and volume.
pub trait Instrument {
    fn num(&self) -> usize;
    fn name(&self) -> &str;
    fn volume(&self) -> usize;
}

/// A value for each of the 128 keys.
pub struct Keymap<T> {
    pub map: [T; 128],
}

} // verus!
