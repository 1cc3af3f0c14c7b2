//! Bounds-checked reading of big- and little-endian values from module data.

use vstd::prelude::*;
use byteorder::{BigEndian, ByteOrder, LittleEndian};
use vstd::utf8::{valid_utf8, decode_utf8};
use crate::text::{dec_chars, spec_utf8_lossy, push_str, push_dec, chars_to_string, utf8_lossy};
use crate::{Error, load_error};

verus! {

/// Note names, indexed by the note number modulo 12.
pub open spec fn note_name(n: int) -> Seq<char> {
    if n == 0 { seq!['C', ' '] }
    else if n == 1 { seq!['C', '#'] }
    else if n == 2 { seq!['D', ' '] }
    else if n == 3 { seq!['D', '#'] }
    else if n == 4 { seq!['E', ' '] }
    else if n == 5 { seq!['F', ' '] }
    else if n == 6 { seq!['F', '#'] }
    else if n == 7 { seq!['G', ' '] }
    else if n == 8 { seq!['G', '#'] }
    else if n == 9 { seq!['A', ' '] }
    else if n == 10 { seq!['A', '#'] }
    else { seq!['B', ' '] }
}

/// Appends the name of note `n % 12` to `v`.
pub fn push_note_name(v: &mut Vec<char>, n: usize)
    ensures
        final(v)@ == old(v)@ + note_name((n % 12) as int),
{
    let k = n % 12;
    let (a, b) = if k == 0 { ('C', ' ') }
        else if k == 1 { ('C', '#') }
        else if k == 2 { ('D', ' ') }
        else if k == 3 { ('D', '#') }
        else if k == 4 { ('E', ' ') }
        else if k == 5 { ('F', ' ') }
        else if k == 6 { ('F', '#') }
        else if k == 7 { ('G', ' ') }
        else if k == 8 { ('G', '#') }
        else if k == 9 { ('A', ' ') }
        else if k == 10 { ('A', '#') }
        else { ('B', ' ') };
    v.push(a);
    v.push(b);
}

/// Big-endian 16-bit value at `ofs`.
pub open spec fn be16(s: Seq<u8>, ofs: int) -> u16 {
    (s[ofs] as int * 0x100 + s[ofs + 1] as int) as u16
}

/// Big-endian 32-bit value at `ofs`.
pub open spec fn be32(s: Seq<u8>, ofs: int) -> u32 {
    (s[ofs] as int * 0x1000000 + s[ofs + 1] as int * 0x10000 + s[ofs + 2] as int * 0x100
        + s[ofs + 3] as int) as u32
}

/// Little-endian 16-bit value at `ofs`.
pub open spec fn le16(s: Seq<u8>, ofs: int) -> u16 {
    (s[ofs + 1] as int * 0x100 + s[ofs] as int) as u16
}

/// Little-endian 32-bit value at `ofs`.
pub open spec fn le32(s: Seq<u8>, ofs: int) -> u32 {
    (s[ofs + 3] as int * 0x1000000 + s[ofs + 2] as int * 0x10000 + s[ofs + 1] as int * 0x100
        + s[ofs] as int) as u32
}

/// The four characters packed into a big-endian magic number.
pub open spec fn magic4(a: char, b: char, c: char, d: char) -> u32 {
    (a as int * 0x1000000 + b as int * 0x10000 + c as int * 0x100 + d as int) as u32
}

/// NUL bytes of a name field become spaces.
pub open spec fn nul_to_space(s: Seq<u8>) -> Seq<u8> {
    Seq::new(s.len(), |i: int| if s[i] == 0 { 32u8 } else { s[i] })
}

/// The text of a fixed-size string field of `size` bytes at `ofs`, NUL
/// bytes read as spaces: the UTF-8 text of the bytes where they are valid
/// UTF-8, their lossy decoding otherwise.
pub open spec fn field_string(s: Seq<u8>, ofs: int, size: int) -> Seq<char> {
    let t = nul_to_space(s.subrange(ofs, ofs + size));
    if valid_utf8(t) { decode_utf8(t) } else { spec_utf8_lossy(t) }
}

pub open spec fn short_read_msg(want: nat, have: nat) -> Seq<char> {
    "short read (want "@ + dec_chars(want) + " bytes, have "@ + dec_chars(have) + ")"@
}

/// `BigEndian::read_u16` of byteorder: the first two bytes, most significant first.
#[verifier::external_body]
fn read_u16_be(buf: &[u8]) -> (r: u16)
    requires
        buf.len() >= 2,
    ensures
        r == be16(buf@, 0),
{
    BigEndian::read_u16(buf)
}

/// `BigEndian::read_u32` of byteorder: the first four bytes, most significant first.
#[verifier::external_body]
fn read_u32_be(buf: &[u8]) -> (r: u32)
    requires
        buf.len() >= 4,
    ensures
        r == be32(buf@, 0),
{
    BigEndian::read_u32(buf)
}

/// `LittleEndian::read_u16` of byteorder: the first two bytes, least significant first.
#[verifier::external_body]
fn read_u16_le(buf: &[u8]) -> (r: u16)
    requires
        buf.len() >= 2,
    ensures
        r == le16(buf@, 0),
{
    LittleEndian::read_u16(buf)
}

/// `LittleEndian::read_u32` of byteorder: the first four bytes, least significant first.
#[verifier::external_body]
fn read_u32_le(buf: &[u8]) -> (r: u32)
    requires
        buf.len() >= 4,
    ensures
        r == le32(buf@, 0),
{
    LittleEndian::read_u32(buf)
}

/// The bytes `[start, start + size)` of `b`.
pub fn sub_slice(b: &[u8], start: usize, size: usize) -> (r: &[u8])
    requires
        start + size <= b.len(),
    ensures
        r@ == b@.subrange(start as int, start + size),
{
    let (_, tail) = b.split_at(start);
    let (head, _) = tail.split_at(size);
    assert(head@ =~= b@.subrange(start as int, start + size));
    head
}

/// The short-read error for a read that needs `want` bytes of `have`.
pub fn short_read(want: u64, have: u64) -> (e: Error)
    ensures
        load_error(e, short_read_msg(want as nat, have as nat)),
{
    let mut v: Vec<char> = Vec::new();
    push_str(&mut v, "short read (want ");
    push_dec(&mut v, want);
    push_str(&mut v, " bytes, have ");
    push_dec(&mut v, have);
    push_str(&mut v, ")");
    Error::Load(chars_to_string(&v))
}

/// Fails with a short-read error when `end` lies beyond the data.
pub fn check_buffer_size(b: &[u8], end: usize) -> (r: Result<(), Error>)
    ensures
        r is Ok <==> end <= b.len(),
        r matches Err(e) ==> load_error(e, short_read_msg(end as nat, b.len() as nat)),
{
    if end > b.len() {
        return Err(short_read(end as u64, b.len() as u64));
    }
    Ok(())
}

/// Reading fixed-size values out of module data, each read checked against the
/// data's length.
pub trait BinaryRead {
    spec fn data(&self) -> Seq<u8>;

    fn read_string(&self, ofs: usize, size: usize) -> (r: Result<String, Error>)
        requires
            ofs + size <= usize::MAX,
        ensures
            r is Ok <==> ofs + size <= self.data().len(),
            r matches Ok(s) ==> s@ == field_string(self.data(), ofs as int, size as int),
            r matches Err(e) ==> load_error(e, short_read_msg((ofs + size) as nat, self.data().len())),
    ;

    fn read32b(&self, ofs: usize) -> (r: Result<u32, Error>)
        requires
            ofs + 4 <= usize::MAX,
        ensures
            r is Ok <==> ofs + 4 <= self.data().len(),
            r matches Ok(v) ==> v == be32(self.data(), ofs as int),
            r matches Err(e) ==> load_error(e, short_read_msg((ofs + 4) as nat, self.data().len())),
    ;

    fn read16b(&self, ofs: usize) -> (r: Result<u16, Error>)
        requires
            ofs + 2 <= usize::MAX,
        ensures
            r is Ok <==> ofs + 2 <= self.data().len(),
            r matches Ok(v) ==> v == be16(self.data(), ofs as int),
            r matches Err(e) ==> load_error(e, short_read_msg((ofs + 2) as nat, self.data().len())),
    ;

    fn read32l(&self, ofs: usize) -> (r: Result<u32, Error>)
        requires
            ofs + 4 <= usize::MAX,
        ensures
            r is Ok <==> ofs + 4 <= self.data().len(),
            r matches Ok(v) ==> v == le32(self.data(), ofs as int),
            r matches Err(e) ==> load_error(e, short_read_msg((ofs + 4) as nat, self.data().len())),
    ;

    fn read16l(&self, ofs: usize) -> (r: Result<u16, Error>)
        requires
            ofs + 2 <= usize::MAX,
        ensures
            r is Ok <==> ofs + 2 <= self.data().len(),
            r matches Ok(v) ==> v == le16(self.data(), ofs as int),
            r matches Err(e) ==> load_error(e, short_read_msg((ofs + 2) as nat, self.data().len())),
    ;

    fn read8(&self, ofs: usize) -> (r: Result<u8, Error>)
        requires
            ofs + 1 <= usize::MAX,
        ensures
            r is Ok <==> ofs + 1 <= self.data().len(),
            r matches Ok(v) ==> v == self.data()[ofs as int],
            r matches Err(e) ==> load_error(e, short_read_msg((ofs + 1) as nat, self.data().len())),
    ;

    fn read8i(&self, ofs: usize) -> (r: Result<i8, Error>)
        requires
            ofs + 1 <= usize::MAX,
        ensures
            r is Ok <==> ofs + 1 <= self.data().len(),
            r matches Ok(v) ==> v == self.data()[ofs as int] as i8,
            r matches Err(e) ==> load_error(e, short_read_msg((ofs + 1) as nat, self.data().len())),
    ;

    fn slice(&self, start: usize, size: usize) -> (r: Result<&[u8], Error>)
        requires
            start + size <= usize::MAX,
        ensures
            r is Ok <==> start + size <= self.data().len(),
            r matches Ok(s) ==> s@ == self.data().subrange(start as int, start + size),
            r matches Err(e) ==> load_error(e, short_read_msg((start + size) as nat, self.data().len())),
    ;
}

impl BinaryRead for [u8] {
    open spec fn data(&self) -> Seq<u8> {
        self@
    }

    fn read_string(&self, ofs: usize, size: usize) -> (r: Result<String, Error>) {
        check_buffer_size(self, ofs + size)?;
        let field = sub_slice(self, ofs, size);
        let mut v: Vec<u8> = Vec::new();
        let mut i: usize = 0;
        while i < size
            invariant
                field@.len() == size,
                i <= size,
                v@ == nul_to_space(field@).subrange(0, i as int),
            decreases size - i,
        {
            let c = field[i];
            v.push(if c == 0 { 32u8 } else { c });
            i = i + 1;
            assert(v@ =~= nul_to_space(field@).subrange(0, i as int));
        }
        assert(v@ =~= nul_to_space(field@));
        Ok(utf8_lossy(v.as_slice()))
    }

    fn read32b(&self, ofs: usize) -> (r: Result<u32, Error>) {
        check_buffer_size(self, ofs + 4)?;
        let s = sub_slice(self, ofs, 4);
        Ok(read_u32_be(s))
    }

    fn read16b(&self, ofs: usize) -> (r: Result<u16, Error>) {
        check_buffer_size(self, ofs + 2)?;
        let s = sub_slice(self, ofs, 2);
        Ok(read_u16_be(s))
    }

    fn read32l(&self, ofs: usize) -> (r: Result<u32, Error>) {
        check_buffer_size(self, ofs + 4)?;
        let s = sub_slice(self, ofs, 4);
        Ok(read_u32_le(s))
    }

    fn read16l(&self, ofs: usize) -> (r: Result<u16, Error>) {
        check_buffer_size(self, ofs + 2)?;
        let s = sub_slice(self, ofs, 2);
        Ok(read_u16_le(s))
    }

    fn read8(&self, ofs: usize) -> (r: Result<u8, Error>) {
        check_buffer_size(self, ofs + 1)?;
        Ok(self[ofs])
    }

    fn read8i(&self, ofs: usize) -> (r: Result<i8, Error>) {
        check_buffer_size(self, ofs + 1)?;
        Ok(self[ofs] as i8)
    }

    fn slice(&self, start: usize, size: usize) -> (r: Result<&[u8], Error>) {
        check_buffer_size(self, start + size)?;
        Ok(sub_slice(self, start, size))
    }
}

/// `s` with its first `n` bytes set to `val`.
pub open spec fn filled(s: Seq<u8>, val: u8, n: int) -> Seq<u8> {
    Seq::new(s.len(), |k: int| if k < n { val } else { s[k] })
}

/// Filling memory with a byte value.
pub trait MemOpExt {
    spec fn bytes(&self) -> Seq<u8>;

    /// Sets all but the last of the first `amt` bytes to `val`: the byte
    /// count written is one less than `amt`.
    fn fill(&mut self, val: u8, amt: usize)
        requires
            1 <= amt <= old(self).bytes().len(),
        ensures
            final(self).bytes() == filled(old(self).bytes(), val, amt - 1),
    ;
}

impl MemOpExt for [u8] {
    open spec fn bytes(&self) -> Seq<u8> {
        self@
    }

    fn fill(&mut self, val: u8, amt: usize) {
        let mut k: usize = 0;
        while k < amt - 1
            invariant
                1 <= amt <= self@.len(),
                k <= amt - 1,
                self@.len() == old(self)@.len(),
                forall|j: int| 0 <= j < self@.len() ==> #[trigger] self@[j] == (if j < k { val } else { old(self)@[j] }),
            decreases amt - 1 - k,
        {
            self[k] = val;
            k = k + 1;
        }
        assert(self@ =~= filled(old(self)@, val, amt - 1));
    }
}

} // verus!
