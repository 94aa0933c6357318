use vstd::arithmetic::div_mod::{lemma_mod_breakdown, lemma_small_mod};
use vstd::prelude::*;

use crate::errors::WgseEngineError;

verus! {

/// Locates an object in memory: a byte address and the type tag the
/// caller expects to find stored in front of the object.
#[derive(Clone, Debug, PartialEq, Eq)]
pub struct Handle {
    pub address: u64,
    pub type_info: Vec<u8>,
}

/// The value encoded little-endian by eight bytes.
pub open spec fn u64_from_le_bytes(s: Seq<u8>) -> u64
    recommends
        s.len() == 8,
{
    (s[0] + s[1] * 0x100 + s[2] * 0x1_0000 + s[3] * 0x100_0000 + s[4] * 0x1_0000_0000 + s[5]
        * 0x100_0000_0000 + s[6] * 0x1_0000_0000_0000 + s[7] * 0x100_0000_0000_0000) as u64
}

/// The value encoded little-endian by four bytes.
pub open spec fn u32_from_le_bytes(s: Seq<u8>) -> u32
    recommends
        s.len() == 4,
{
    (s[0] + s[1] * 0x100 + s[2] * 0x1_0000 + s[3] * 0x100_0000) as u32
}

/// The eight little-endian bytes of a value.
pub open spec fn u64_to_le_bytes(v: u64) -> Seq<u8> {
    seq![
        (v as int % 0x100) as u8,
        (v as int / 0x100 % 0x100) as u8,
        (v as int / 0x1_0000 % 0x100) as u8,
        (v as int / 0x100_0000 % 0x100) as u8,
        (v as int / 0x1_0000_0000 % 0x100) as u8,
        (v as int / 0x100_0000_0000 % 0x100) as u8,
        (v as int / 0x1_0000_0000_0000 % 0x100) as u8,
        (v as int / 0x100_0000_0000_0000 % 0x100) as u8,
    ]
}

/// A fixed-size object that the memory can decode from its little-endian,
/// unaligned, byte-packed layout.
pub trait MemObject: Sized {
    /// Number of bytes of the object's encoding.
    spec fn obj_size() -> int;

    /// The value encoded by a byte sequence of length `obj_size`.
    spec fn obj_decode(bytes: Seq<u8>) -> Self;

    /// Executable mirror of `obj_size`.
    fn size_in_bytes() -> (n: usize)
        ensures
            n == Self::obj_size(),
            n > 0,
    ;

    /// Decodes the object stored at `pos`.
    fn decode_le(buff: &Vec<u8>, pos: usize) -> (r: Self)
        requires
            pos + Self::obj_size() <= buff@.len(),
            Self::obj_size() > 0,
        ensures
            r == Self::obj_decode(buff@.subrange(pos as int, pos + Self::obj_size())),
    ;
}

impl MemObject for u64 {
    open spec fn obj_size() -> int {
        8
    }

    open spec fn obj_decode(bytes: Seq<u8>) -> u64 {
        u64_from_le_bytes(bytes)
    }

    fn size_in_bytes() -> (n: usize) {
        8
    }

    fn decode_le(buff: &Vec<u8>, pos: usize) -> (r: u64) {
        // binds the buffer's length as a usize, so the index arithmetic
        // below is known to stay in bounds
        let _len: usize = buff.len();
        let b0 = buff[pos] as u64;
        let b1 = buff[pos + 1] as u64;
        let b2 = buff[pos + 2] as u64;
        let b3 = buff[pos + 3] as u64;
        let b4 = buff[pos + 4] as u64;
        let b5 = buff[pos + 5] as u64;
        let b6 = buff[pos + 6] as u64;
        let b7 = buff[pos + 7] as u64;
        b0 + b1 * 0x100 + b2 * 0x1_0000 + b3 * 0x100_0000 + b4 * 0x1_0000_0000 + b5
            * 0x100_0000_0000 + b6 * 0x1_0000_0000_0000 + b7 * 0x100_0000_0000_0000
    }
}

impl MemObject for u32 {
    open spec fn obj_size() -> int {
        4
    }

    open spec fn obj_decode(bytes: Seq<u8>) -> u32 {
        u32_from_le_bytes(bytes)
    }

    fn size_in_bytes() -> (n: usize) {
        4
    }

    fn decode_le(buff: &Vec<u8>, pos: usize) -> (r: u32) {
        // binds the buffer's length as a usize, so the index arithmetic
        // below is known to stay in bounds
        let _len: usize = buff.len();
        let b0 = buff[pos] as u32;
        let b1 = buff[pos + 1] as u32;
        let b2 = buff[pos + 2] as u32;
        let b3 = buff[pos + 3] as u32;
        b0 + b1 * 0x100 + b2 * 0x1_0000 + b3 * 0x100_0000
    }
}

/// Index of the first zero byte at or after `start`; the sequence's
/// length when no zero byte follows.
pub open spec fn first_null(s: Seq<u8>, start: int) -> int
    decreases s.len() - start,
{
    if start < 0 || start >= s.len() {
        s.len() as int
    } else if s[start] == 0 {
        start
    } else {
        first_null(s, start + 1)
    }
}

pub proof fn lemma_first_null(s: Seq<u8>, start: int)
    requires
        0 <= start <= s.len(),
    ensures
        start <= first_null(s, start) <= s.len(),
        first_null(s, start) < s.len() ==> s[first_null(s, start)] == 0,
        forall|i: int| start <= i < first_null(s, start) ==> s[i] != 0,
    decreases s.len() - start,
{
    if start < s.len() && s[start] != 0 {
        lemma_first_null(s, start + 1);
    }
}

proof fn lemma_first_null_terminated(s: Seq<u8>, start: int, end: int)
    requires
        0 <= start <= end < s.len(),
        forall|i: int| start <= i < end ==> s[i] != 0,
        s[end] == 0,
    ensures
        first_null(s, start) == end,
    decreases end - start,
{
    if start < end {
        lemma_first_null_terminated(s, start + 1, end);
    }
}

/// Law: in a checked memory laid out as `prefix ++ tag ++ 0 ++ payload`,
/// a typed read at address `prefix.len()` sees exactly `tag` as the
/// stored tag and `payload` as the bytes behind it. Together with the
/// contract of `get_object` this says that a handle carrying the same
/// tag decodes exactly the payload that was written, while a handle
/// carrying any other tag fails with the two tags and yields no value.
pub proof fn lemma_checked_layout_round_trip(prefix: Seq<u8>, tag: Seq<u8>, payload: Seq<u8>)
    requires
        forall|i: int| 0 <= i < tag.len() ==> tag[i] != 0,
    ensures
        first_null(prefix + tag + seq![0u8] + payload, prefix.len() as int) == prefix.len()
            + tag.len(),
        (prefix + tag + seq![0u8] + payload).subrange(
            prefix.len() as int,
            prefix.len() + tag.len() as int,
        ) == tag,
        (prefix + tag + seq![0u8] + payload).subrange(
            prefix.len() + tag.len() + 1 as int,
            prefix.len() + tag.len() + 1 + payload.len() as int,
        ) == payload,
{
    let mem = prefix + tag + seq![0u8] + payload;
    let a = prefix.len() as int;
    let end = a + tag.len();
    assert forall|i: int| a <= i < end implies mem[i] != 0 by {
        assert(mem[i] == tag[i - a]);
    }
    assert(mem[end] == 0);
    lemma_first_null_terminated(mem, a, end);
    assert(mem.subrange(a, end) =~= tag);
    assert(mem.subrange(end + 1, end + 1 + payload.len()) =~= payload);
}

/// Decoding the eight little-endian bytes of a value gives the value
/// back.
pub proof fn lemma_u64_le_bytes_round_trip(v: u64)
    ensures
        u64_from_le_bytes(u64_to_le_bytes(v)) == v,
{
    let x = v as int;
    lemma_mod_breakdown(x, 0x100, 0x100);
    lemma_mod_breakdown(x, 0x1_0000, 0x100);
    lemma_mod_breakdown(x, 0x100_0000, 0x100);
    lemma_mod_breakdown(x, 0x1_0000_0000, 0x100);
    lemma_mod_breakdown(x, 0x100_0000_0000, 0x100);
    lemma_mod_breakdown(x, 0x1_0000_0000_0000, 0x100);
    lemma_mod_breakdown(x, 0x100_0000_0000_0000, 0x100);
    lemma_small_mod(v as nat, 0x1_0000_0000_0000_0000);
}

/// Law: the memory's external form round-trips: the buffer laid out
/// behind its eight-byte length satisfies exactly the reading contract
/// of `from_bytes`, and the bytes behind the length are the buffer.
pub proof fn lemma_external_form_round_trip(mem: Seq<u8>)
    requires
        mem.len() <= u64::MAX,
    ensures
        ({
            let data = u64_to_le_bytes(mem.len() as u64) + mem;
            data.len() >= 8 && u64_from_le_bytes(data.subrange(0, 8)) == data.len() - 8
                && data.subrange(8, data.len() as int) == mem
        }),
{
    let data = u64_to_le_bytes(mem.len() as u64) + mem;
    lemma_u64_le_bytes_round_trip(mem.len() as u64);
    assert(data.subrange(0, 8) =~= u64_to_le_bytes(mem.len() as u64));
    assert(data.subrange(8, data.len() as int) =~= mem);
}

/// Law: in an unchecked memory the payload sits directly at the address,
/// so a typed read at `prefix.len()` over `prefix ++ payload` decodes
/// exactly the payload that was written.
pub proof fn lemma_unchecked_layout_round_trip(prefix: Seq<u8>, payload: Seq<u8>)
    ensures
        (prefix + payload).subrange(prefix.len() as int, prefix.len() + payload.len() as int) == payload,
{
    assert((prefix + payload).subrange(prefix.len() as int, prefix.len() + payload.len() as int)
        =~= payload);
}

/// Copies the bytes of `buff` between `from` and `to`.
fn copy_byte_range(buff: &Vec<u8>, from: usize, to: usize) -> (r: Vec<u8>)
    requires
        from <= to <= buff@.len(),
    ensures
        r@ == buff@.subrange(from as int, to as int),
{
    let mut out: Vec<u8> = Vec::new();
    let mut j: usize = from;
    while j < to
        invariant
            from <= j <= to <= buff@.len(),
            out@ == buff@.subrange(from as int, j as int),
        decreases to - j,
    {
        out.push(buff[j]);
        proof {
            assert(buff@.subrange(from as int, j + 1 as int) =~= buff@.subrange(
                from as int,
                j as int,
            ).push(buff@[j as int]));
        }
        j = j + 1;
    }
    out
}

/// Whether the bytes of `buff` between `from` and `to` equal `other`.
fn bytes_eq_range(buff: &Vec<u8>, from: usize, to: usize, other: &Vec<u8>) -> (r: bool)
    requires
        from <= to <= buff@.len(),
    ensures
        r == (buff@.subrange(from as int, to as int) == other@),
{
    let n: usize = to - from;
    if other.len() != n {
        proof {
            assert(buff@.subrange(from as int, to as int).len() == n);
        }
        return false;
    }
    let mut j: usize = 0;
    while j < n
        invariant
            j <= n,
            from + n == to <= buff@.len(),
            other@.len() == n,
            forall|k: int| 0 <= k < j ==> buff@[from + k] == other@[k],
        decreases n - j,
    {
        if buff[from + j] != other[j] {
            proof {
                assert(buff@.subrange(from as int, to as int)[j as int] == buff@[from + j]);
            }
            return false;
        }
        j = j + 1;
    }
    proof {
        assert(buff@.subrange(from as int, to as int) =~= other@);
    }
    true
}

/// The byte memory: a contiguous buffer whose typed reads are either
/// checked (the stored null-terminated tag is verified against the
/// handle) or unchecked (the payload is decoded directly at the address).
#[derive(Clone, Debug)]
pub struct Memory {
    buff: Vec<u8>,
    checked: bool,
}

impl View for Memory {
    type V = Seq<u8>;

    closed spec fn view(&self) -> Seq<u8> {
        self.buff@
    }
}

impl Default for Memory {
    /// An empty checked memory.
    fn default() -> (r: Self)
        ensures
            r@ == Seq::<u8>::empty(),
            r.is_checked(),
    {
        Memory::new()
    }
}

impl Memory {
    /// Whether typed reads of this memory verify the stored type tag.
    pub closed spec fn is_checked(&self) -> bool {
        self.checked
    }

    /// An empty checked memory.
    pub fn new() -> (r: Self)
        ensures
            r@ == Seq::<u8>::empty(),
            r.is_checked(),
    {
        Memory { buff: Vec::new(), checked: true }
    }

    /// A checked memory over the given buffer.
    pub fn with_buff(buff: Vec<u8>) -> (r: Self)
        ensures
            r@ == buff@,
            r.is_checked(),
    {
        Memory { buff, checked: true }
    }

    /// An unchecked memory over the given buffer: typed reads skip the
    /// tag entirely, so the same address carries a different layout than
    /// in a checked memory.
    pub fn with_buff_unchecked(buff: Vec<u8>) -> (r: Self)
        ensures
            r@ == buff@,
            !r.is_checked(),
    {
        Memory { buff, checked: false }
    }

    /// Decodes an object of type `T` at the handle's address. In a
    /// checked memory the stored representation is a null-terminated tag
    /// followed by the payload: the tag must equal the handle's
    /// `type_info` byte for byte, else no value is decoded. In an
    /// unchecked memory the payload sits directly at the address.
    pub fn get_object<T: MemObject>(&mut self, handle: &Handle) -> (r: Result<
        T,
        WgseEngineError,
    >)
        ensures
            *final(self) == *old(self),
            ({
                let mem = old(self)@;
                let a = handle.address as int;
                let z = first_null(mem, a);
                let n = T::obj_size();
                if old(self).is_checked() {
                    if a > mem.len() || z == mem.len() {
                        r == Err::<T, WgseEngineError>(WgseEngineError::DecodeFailed)
                    } else if mem.subrange(a, z) != handle.type_info@ {
                        r matches Err(e) && (e matches WgseEngineError::InconsistentTypes {
                            expect,
                            found,
                        } && expect@ == handle.type_info@ && found@ == mem.subrange(a, z))
                    } else if z + 1 + n > mem.len() {
                        r == Err::<T, WgseEngineError>(WgseEngineError::DecodeFailed)
                    } else {
                        r == Ok::<T, WgseEngineError>(T::obj_decode(mem.subrange(z + 1, z + 1 + n)))
                    }
                } else {
                    if a + n > mem.len() {
                        r == Err::<T, WgseEngineError>(WgseEngineError::DecodeFailed)
                    } else {
                        r == Ok::<T, WgseEngineError>(T::obj_decode(mem.subrange(a, a + n)))
                    }
                }
            }),
    {
        let len = self.buff.len();
        let n = T::size_in_bytes();
        if !self.checked {
            if handle.address > len as u64 || n as u64 > len as u64 - handle.address {
                return Err(WgseEngineError::DecodeFailed);
            }
            let a = handle.address as usize;
            return Ok(T::decode_le(&self.buff, a));
        }
        if handle.address > len as u64 {
            return Err(WgseEngineError::DecodeFailed);
        }
        let start = handle.address as usize;
        let mut i: usize = start;
        while i < len && self.buff[i] != 0u8
            invariant
                start <= i <= len,
                len == self@.len(),
                first_null(self@, start as int) == first_null(self@, i as int),
            decreases len - i,
        {
            i = i + 1;
        }
        proof {
            lemma_first_null(self@, i as int);
            assert(first_null(self@, start as int) == i);
        }
        if i == len {
            // the tag runs past the end of the buffer
            return Err(WgseEngineError::DecodeFailed);
        }
        if !bytes_eq_range(&self.buff, start, i, &handle.type_info) {
            let found = copy_byte_range(&self.buff, start, i);
            let expect = copy_byte_range(&handle.type_info, 0, handle.type_info.len());
            return Err(WgseEngineError::InconsistentTypes { expect, found });
        }
        let payload = i + 1;
        if n > len - payload {
            return Err(WgseEngineError::DecodeFailed);
        }
        Ok(T::decode_le(&self.buff, payload))
    }

    /// The memory's external form: an eight-byte little-endian length,
    /// then the raw buffer bytes, with no padding and no tag.
    pub fn to_bytes(&self) -> (r: Vec<u8>)
        ensures
            r@ == u64_to_le_bytes(self@.len() as u64) + self@,
    {
        let mut out: Vec<u8> = Vec::new();
        let v = self.buff.len() as u64;
        out.push((v % 0x100) as u8);
        out.push((v / 0x100 % 0x100) as u8);
        out.push((v / 0x1_0000 % 0x100) as u8);
        out.push((v / 0x100_0000 % 0x100) as u8);
        out.push((v / 0x1_0000_0000 % 0x100) as u8);
        out.push((v / 0x100_0000_0000 % 0x100) as u8);
        out.push((v / 0x1_0000_0000_0000 % 0x100) as u8);
        out.push((v / 0x100_0000_0000_0000 % 0x100) as u8);
        proof {
            assert(out@ =~= u64_to_le_bytes(self@.len() as u64));
        }
        let mut tail = copy_byte_range(&self.buff, 0, self.buff.len());
        out.append(&mut tail);
        proof {
            assert(self@.subrange(0, self@.len() as int) =~= self@);
        }
        out
    }

    /// Reads a checked memory back from its external form: the eight-byte
    /// little-endian length must match the remaining byte count exactly.
    pub fn from_bytes(data: &Vec<u8>) -> (r: Result<Memory, WgseEngineError>)
        ensures
            data@.len() >= 8 && u64_from_le_bytes(data@.subrange(0, 8)) == data@.len() - 8 ==> (
            r matches Ok(m) && m@ == data@.subrange(8, data@.len() as int) && m.is_checked()),
            !(data@.len() >= 8 && u64_from_le_bytes(data@.subrange(0, 8)) == data@.len() - 8)
                ==> r == Err::<Memory, WgseEngineError>(WgseEngineError::DecodeFailed),
    {
        if data.len() < 8 {
            return Err(WgseEngineError::DecodeFailed);
        }
        let size = <u64 as MemObject>::decode_le(data, 0);
        if size != (data.len() - 8) as u64 {
            return Err(WgseEngineError::DecodeFailed);
        }
        let buff = copy_byte_range(data, 8, data.len());
        Ok(Memory { buff, checked: true })
    }
}

} // verus!
