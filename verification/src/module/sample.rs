//! Sample storage: raw PCM bytes and their description.

use vstd::prelude::*;

verus! {

/// Raw PCM-encoded sample bytes.
#[derive(Clone, Debug)]
pub struct SampleData {
    raw: Vec<u8>,
}

impl View for SampleData {
    type V = Seq<u8>;

    closed spec fn view(&self) -> Seq<u8> {
        self.raw@
    }
}

/// Little-endian 16-bit word `i` of `s`, as a signed value.
pub open spec fn word_i16(s: Seq<u8>, i: int) -> i16 {
    (s[2 * i + 1] as int * 0x100 + s[2 * i] as int) as i16
}

/// Little-endian 16-bit word `i` of `s`.
pub open spec fn word_u16(s: Seq<u8>, i: int) -> u16 {
    (s[2 * i + 1] as int * 0x100 + s[2 * i] as int) as u16
}

impl SampleData {
    /// An empty buffer.
    pub fn new() -> (r: Self)
        ensures
            r@ == Seq::<u8>::empty(),
    {
        SampleData { raw: Vec::new() }
    }

    /// Number of bytes.
    pub fn len(&self) -> (r: usize)
        ensures
            r == self@.len(),
    {
        self.raw.len()
    }

    /// The bytes.
    pub fn as_slice_u8(&self) -> (r: &[u8])
        ensures
            r@ == self@,
    {
        self.raw.as_slice()
    }

    /// The bytes as signed 8-bit samples.
    pub fn as_slice_i8(&self) -> (r: Vec<i8>)
        ensures
            r@.len() == self@.len(),
            forall|i: int| 0 <= i < r@.len() ==> r@[i] == self@[i] as i8,
    {
        let mut v: Vec<i8> = Vec::new();
        let mut i: usize = 0;
        while i < self.raw.len()
            invariant
                i <= self.raw.len(),
                v@.len() == i,
                forall|j: int| 0 <= j < i ==> v@[j] == self.raw@[j] as i8,
            decreases self.raw.len() - i,
        {
            v.push(self.raw[i] as i8);
            i = i + 1;
        }
        v
    }

    /// The bytes as little-endian unsigned 16-bit samples; an odd last byte is left out.
    pub fn as_slice_u16(&self) -> (r: Vec<u16>)
        ensures
            r@.len() == self@.len() / 2,
            forall|i: int| 0 <= i < r@.len() ==> r@[i] == word_u16(self@, i),
    {
        let mut v: Vec<u16> = Vec::new();
        let n = self.raw.len() / 2;
        let mut i: usize = 0;
        while i < n
            invariant
                n == self.raw@.len() / 2,
                2 * n <= self.raw.len(),
                i <= n,
                v@.len() == i,
                forall|j: int| 0 <= j < i ==> v@[j] == word_u16(self.raw@, j),
            decreases n - i,
        {
            let k: usize = 2 * i;
            let hi = self.raw[k + 1] as u16;
            let lo = self.raw[k] as u16;
            let w = hi * 256 + lo;
            v.push(w);
            i = i + 1;
        }
        v
    }

    /// The bytes as little-endian signed 16-bit samples; an odd last byte is left out.
    pub fn as_slice_i16(&self) -> (r: Vec<i16>)
        ensures
            r@.len() == self@.len() / 2,
            forall|i: int| 0 <= i < r@.len() ==> r@[i] == word_i16(self@, i),
    {
        let mut v: Vec<i16> = Vec::new();
        let n = self.raw.len() / 2;
        let mut i: usize = 0;
        while i < n
            invariant
                n == self.raw@.len() / 2,
                2 * n <= self.raw.len(),
                i <= n,
                v@.len() == i,
                forall|j: int| 0 <= j < i ==> v@[j] == word_i16(self.raw@, j),
            decreases n - i,
        {
            let w = #[verifier::truncate] (((self.raw[2 * i + 1] as u16) * 256 + self.raw[2 * i] as u16) as i16);
            v.push(w);
            i = i + 1;
        }
        v
    }

    /// Byte `i`.
    pub fn index(&self, i: usize) -> (r: u8)
        requires
            i < self@.len(),
        ensures
            r == self@[i as int],
    {
        self.raw[i]
    }

    /// Replaces byte `i`.
    pub fn set(&mut self, i: usize, val: u8)
        requires
            i < old(self)@.len(),
        ensures
            final(self)@ == old(self)@.update(i as int, val),
    {
        self.raw.set(i, val);
    }
}

/// Sample resolution.
#[derive(Debug, Clone, Copy, PartialEq, Eq, Structural)]
pub enum SampleType {
    Sample8,
    Sample16,
    Empty,
}

/// A sample of a module.
#[derive(Debug, Clone)]
pub struct Sample {
    pub sample_type: SampleType,
    pub num: usize,
    pub address: u32,
    /// Length in samples.
    pub size: u32,
    /// The playback rate of the sample (C2 frequency where the format has
    /// one, 1 otherwise).
    pub rate: u32,
    pub name: String,
    /// The raw PCM-encoded sample data.
    pub data: SampleData,
}

/// What `store` makes of the sample bytes `old` after appending `b`: `b`
/// followed by two guard bytes that repeat the last byte.
pub open spec fn stored(old: Seq<u8>, b: Seq<u8>) -> Seq<u8> {
    let s = old + b;
    if s.len() >= 1 {
        s + seq![s.last(), s.last()]
    } else {
        seq![0u8, 0u8]
    }
}

/// The 8-bit sample bytes after `to_signed` on the first `size` samples.
pub open spec fn flip8(s: Seq<u8>, size: int) -> Seq<u8> {
    Seq::new(s.len(), |i: int| if i < size { ((s[i] + 0x80) % 256) as u8 } else { s[i] })
}

/// The 16-bit sample bytes after `to_signed` on the first `size` words:
/// adding 0x8000 to a little-endian word adds 0x80 to its high byte.
pub open spec fn flip16(s: Seq<u8>, size: int) -> Seq<u8> {
    Seq::new(s.len(), |i: int| if i % 2 == 1 && i < 2 * size { ((s[i] + 0x80) % 256) as u8 } else { s[i] })
}

impl Sample {
    /// An empty sample.
    pub fn new() -> (r: Sample)
        ensures
            r.sample_type == SampleType::Empty,
            r.num == 0,
            r.address == 0,
            r.size == 0,
            r.rate == 1,
            r.name@ == Seq::<char>::empty(),
            r.data@ == Seq::<u8>::empty(),
    {
        Sample {
            sample_type: SampleType::Empty,
            num: 0,
            address: 0,
            size: 0,
            rate: 1,
            name: String::new(),
            data: SampleData::new(),
        }
    }

    /// Appends `b` to the sample data, followed by two guard bytes that
    /// repeat its last byte.
    pub fn store(&mut self, b: &[u8])
        ensures
            final(self).data@ == stored(old(self).data@, b@),
            final(self).sample_type == old(self).sample_type,
            final(self).num == old(self).num,
            final(self).address == old(self).address,
            final(self).size == old(self).size,
            final(self).rate == old(self).rate,
            final(self).name == old(self).name,
    {
        let mut i: usize = 0;
        while i < b.len()
            invariant
                i <= b.len(),
                self.data@ == old(self).data@ + b@.subrange(0, i as int),
                self.sample_type == old(self).sample_type,
                self.num == old(self).num,
                self.address == old(self).address,
                self.size == old(self).size,
                self.rate == old(self).rate,
                self.name == old(self).name,
            decreases b.len() - i,
        {
            self.data.raw.push(b[i]);
            i = i + 1;
            assert(self.data@ =~= old(self).data@ + b@.subrange(0, i as int));
        }
        assert(b@.subrange(0, b@.len() as int) =~= b@);
        self.data.raw.push(0);
        self.data.raw.push(0);
        let n = self.data.raw.len();
        if n >= 3 {
            let x = self.data.raw[n - 3];
            self.data.raw.set(n - 2, x);
            self.data.raw.set(n - 1, x);
            assert(self.data@ =~= stored(old(self).data@, b@));
        } else {
            assert(self.data@ =~= stored(old(self).data@, b@));
        }
    }

    /// Converts unsigned PCM data to signed, in place, for the first `size` samples.
    pub fn to_signed(&mut self)
        requires
            old(self).sample_type == SampleType::Sample8 ==> old(self).size <= old(self).data@.len(),
            old(self).sample_type == SampleType::Sample16 ==> 2 * old(self).size <= old(self).data@.len(),
        ensures
            old(self).sample_type == SampleType::Sample8 ==> final(self).data@ == flip8(old(self).data@, old(self).size as int),
            old(self).sample_type == SampleType::Sample16 ==> final(self).data@ == flip16(old(self).data@, old(self).size as int),
            old(self).sample_type == SampleType::Empty ==> final(self).data@ == old(self).data@,
            final(self).sample_type == old(self).sample_type,
            final(self).num == old(self).num,
            final(self).address == old(self).address,
            final(self).size == old(self).size,
            final(self).rate == old(self).rate,
            final(self).name == old(self).name,
    {
        let size = self.size as usize;
        match self.sample_type {
            SampleType::Sample8 => {
                let mut i: usize = 0;
                while i < size
                    invariant
                        size == old(self).size,
                        size <= self.data@.len(),
                        i <= size,
                        self.data@.len() == old(self).data@.len(),
                        forall|j: int| 0 <= j < self.data@.len() ==> self.data@[j] == (if j < i { ((old(self).data@[j] + 0x80) % 256) as u8 } else { old(self).data@[j] }),
                        self.sample_type == old(self).sample_type,
                        self.num == old(self).num,
                        self.address == old(self).address,
                        self.size == old(self).size,
                        self.rate == old(self).rate,
                        self.name == old(self).name,
                    decreases size - i,
                {
                    let x = self.data.raw[i];
                    self.data.raw.set(i, x.wrapping_add(0x80));
                    i = i + 1;
                }
                assert(self.data@ =~= flip8(old(self).data@, old(self).size as int));
            },
            SampleType::Sample16 => {
                let mut i: usize = 0;
                while i < size
                    invariant
                        size == old(self).size,
                        2 * size <= self.data.raw.len(),
                        i <= size,
                        self.data@.len() == old(self).data@.len(),
                        forall|j: int| 0 <= j < self.data@.len() ==> self.data@[j] == (if j % 2 == 1 && j < 2 * i { ((old(self).data@[j] + 0x80) % 256) as u8 } else { old(self).data@[j] }),
                        self.sample_type == old(self).sample_type,
                        self.num == old(self).num,
                        self.address == old(self).address,
                        self.size == old(self).size,
                        self.rate == old(self).rate,
                        self.name == old(self).name,
                    decreases size - i,
                {
                    let x = self.data.raw[2 * i + 1];
                    self.data.raw.set(2 * i + 1, x.wrapping_add(0x80));
                    i = i + 1;
                }
                assert(self.data@ =~= flip16(old(self).data@, old(self).size as int));
            },
            SampleType::Empty => {},
        }
    }
}

/// `a` is a copy of `b`: every field, and the sample bytes, equal.
pub open spec fn same_sample(a: Sample, b: Sample) -> bool {
    &&& a.sample_type == b.sample_type
    &&& a.num == b.num
    &&& a.address == b.address
    &&& a.size == b.size
    &&& a.rate == b.rate
    &&& a.name@ == b.name@
    &&& a.data@ == b.data@
}

/// `a` holds copies of the samples of `b`, in order.
pub open spec fn same_samples(a: Seq<Sample>, b: Seq<Sample>) -> bool {
    a.len() == b.len() && forall|i: int| 0 <= i < a.len() ==> same_sample(#[trigger] a[i], b[i])
}

impl SampleData {
    /// A copy of the bytes.
    pub fn copy(&self) -> (r: Self)
        ensures
            r@ == self@,
    {
        let mut raw: Vec<u8> = Vec::new();
        let mut i: usize = 0;
        while i < self.raw.len()
            invariant
                i <= self.raw@.len(),
                raw@ == self.raw@.subrange(0, i as int),
            decreases self.raw.len() - i,
        {
            raw.push(self.raw[i]);
            i = i + 1;
            assert(raw@ =~= self.raw@.subrange(0, i as int));
        }
        assert(raw@ =~= self.raw@);
        SampleData { raw }
    }
}

impl Sample {
    /// A copy of the sample.
    pub fn copy(&self) -> (r: Self)
        ensures
            same_sample(r, *self),
    {
        Sample {
            sample_type: self.sample_type,
            num: self.num,
            address: self.address,
            size: self.size,
            rate: self.rate,
            name: self.name.clone(),
            data: self.data.copy(),
        }
    }
}

/// Copies of all samples of a list.
pub fn copy_samples(s: &Vec<Sample>) -> (r: Vec<Sample>)
    ensures
        same_samples(r@, s@),
{
    let mut v: Vec<Sample> = Vec::new();
    let mut i: usize = 0;
    while i < s.len()
        invariant
            i <= s@.len(),
            v@.len() == i,
            forall|j: int| 0 <= j < i ==> same_sample(#[trigger] v@[j], s@[j]),
        decreases s.len() - i,
    {
        v.push(s[i].copy());
        i = i + 1;
    }
    v
}

/// Converting between signed and unsigned sample data twice gives the data
/// back: the conversion undoes itself, for 8-bit and 16-bit samples.
pub proof fn lemma_to_signed_twice(s: Seq<u8>, size: int)
    ensures
        flip8(flip8(s, size), size) == s,
        flip16(flip16(s, size), size) == s,
{
    assert(flip8(flip8(s, size), size) =~= s);
    assert(flip16(flip16(s, size), size) =~= s);
}

} // verus!
