//! Decoding of free-form metadata tables.
//!
//! Each entry carries a type tag and an untyped pointer; the pointed-to bytes
//! are reinterpreted according to the tag. Tags are matched by exact
//! equality: a tag that is not one of the known values, even one that shares
//! bits with a known value, is not recognized. A failure is kept with its
//! entry, so the other entries of a table decode regardless.
use vstd::prelude::*;
use vstd::utf8::{decode_utf8, valid_utf8};

use crate::adapter::get_vec;
use crate::raw::{RawMetadata, RawMetadataEntry};
use crate::{Bits32, Bits64, RussimpError, Russult, Vector3D};

verus! {

/// Tag of a `bool` entry.
pub const META_BOOL: u32 = 0;
/// Tag of a signed 32-bit entry.
pub const META_INT32: u32 = 1;
/// Tag of an unsigned 64-bit entry.
pub const META_UINT64: u32 = 2;
/// Tag of a single-precision entry.
pub const META_FLOAT: u32 = 3;
/// Tag of a double-precision entry.
pub const META_DOUBLE: u32 = 4;
/// Tag of a string entry.
pub const META_STRING: u32 = 5;
/// Tag of a three-component vector entry.
pub const META_VECTOR3D: u32 = 6;

/// The capacity of a foreign string's character buffer.
pub const MAX_STRING_LEN: usize = 1024;

/// A decoded metadata value.
#[derive(Debug, Clone, PartialEq)]
pub enum MetadataType {
    String(String),
    Vector3d(Vector3D),
    Bool(bool),
    Float(Bits32),
    Double(Bits64),
    Int(i32),
    ULong(u64),
}

/// One metadata entry: its value, or why it could not be decoded.
#[derive(Debug)]
pub struct MetaDataEntry(pub Russult<MetadataType>);

/// A metadata table: `keys[i]` names `values[i]`.
#[derive(Debug)]
pub struct MetaData {
    pub keys: Vec<String>,
    pub values: Vec<MetaDataEntry>,
}

/// The little-endian unsigned value of the four bytes at `off`.
pub open spec fn le_u32(b: Seq<u8>, off: int) -> u32 {
    (b[off] as int + 0x100 * b[off + 1] as int + 0x1_0000 * b[off + 2] as int + 0x100_0000
        * b[off + 3] as int) as u32
}

/// The little-endian unsigned value of the eight bytes at `off`.
pub open spec fn le_u64(b: Seq<u8>, off: int) -> u64 {
    (le_u32(b, off) as int + 0x1_0000_0000 * le_u32(b, off + 4) as int) as u64
}

/// The two's-complement reading of a 32-bit pattern.
pub open spec fn i32_of(u: u32) -> i32 {
    if u < 0x8000_0000 {
        u as i32
    } else {
        (u as int - 0x1_0000_0000) as i32
    }
}

/// The character buffer of a foreign string: the bytes after its four-byte
/// length, at most the buffer's capacity.
pub open spec fn c_body(b: Seq<u8>) -> Seq<u8> {
    let body = b.subrange(4, b.len() as int);
    if body.len() > MAX_STRING_LEN {
        body.subrange(0, MAX_STRING_LEN as int)
    } else {
        body
    }
}

/// The bytes of `s` before its first NUL; all of `s` if it has none.
pub open spec fn until_nul(s: Seq<u8>) -> Seq<u8> {
    if exists|i: int| 0 <= i < s.len() && s[i] == 0 {
        s.subrange(0, choose_first_nul(s))
    } else {
        s
    }
}

/// The bytes of a foreign string's text: its buffer up to the first NUL.
pub open spec fn c_text(b: Seq<u8>) -> Seq<u8>
    recommends
        b.len() >= 4,
{
    until_nul(c_body(b))
}

/// The position of the first NUL in `b`, given that there is one.
pub open spec fn choose_first_nul(b: Seq<u8>) -> int {
    choose|i: int| 0 <= i < b.len() && b[i] == 0 && forall|j: int| 0 <= j < i ==> b[j] != 0
}

/// `r` is an error of the metadata kind with the given message.
pub open spec fn is_meta_error(r: Russult<MetadataType>, msg: Seq<char>) -> bool {
    r matches Err(RussimpError::MetadataError(m)) && m@ == msg
}

/// What decoding an entry gives.
pub open spec fn decoded(e: RawMetadataEntry, r: Russult<MetadataType>) -> bool {
    if e.tag == META_BOOL {
        match e.data {
            Some(b) if b.len() >= 1 => r == Ok::<MetadataType, RussimpError>(MetadataType::Bool(b@[0] != 0)),
            _ => is_meta_error(r, "Cant convert to bool"@),
        }
    } else if e.tag == META_INT32 {
        match e.data {
            Some(b) if b.len() >= 4 => r == Ok::<MetadataType, RussimpError>(MetadataType::Int(i32_of(le_u32(b@, 0)))),
            _ => is_meta_error(r, "Cant convert to integer"@),
        }
    } else if e.tag == META_UINT64 {
        match e.data {
            Some(b) if b.len() >= 8 => r == Ok::<MetadataType, RussimpError>(MetadataType::ULong(le_u64(b@, 0))),
            _ => is_meta_error(r, "Cant convert to ulong"@),
        }
    } else if e.tag == META_FLOAT {
        match e.data {
            Some(b) if b.len() >= 4 => r == Ok::<MetadataType, RussimpError>(MetadataType::Float(le_u32(b@, 0))),
            _ => is_meta_error(r, "Cant convert to float"@),
        }
    } else if e.tag == META_DOUBLE {
        match e.data {
            Some(b) if b.len() >= 8 => r == Ok::<MetadataType, RussimpError>(MetadataType::Double(le_u64(b@, 0))),
            _ => is_meta_error(r, "Cant convert to double"@),
        }
    } else if e.tag == META_STRING {
        match e.data {
            Some(b) if b.len() >= 4 => if valid_utf8(c_text(b@)) {
                r matches Ok(MetadataType::String(s)) && s@ == decode_utf8(c_text(b@))
            } else {
                r matches Err(RussimpError::Primitive(_))
            },
            _ => is_meta_error(r, "Cant convert to string"@),
        }
    } else if e.tag == META_VECTOR3D {
        match e.data {
            Some(b) if b.len() >= 12 => r == Ok::<MetadataType, RussimpError>(
                MetadataType::Vector3d(
                    Vector3D { x: le_u32(b@, 0), y: le_u32(b@, 4), z: le_u32(b@, 8) },
                ),
            ),
            _ => is_meta_error(r, "data is null"@),
        }
    } else {
        is_meta_error(r, "could not find caster for metadata type"@)
    }
}

/// The little-endian value of the four bytes of `b` at `off`.
pub fn read_u32(b: &Vec<u8>, off: usize) -> (r: u32)
    requires
        off + 4 <= b.len(),
    ensures
        r == le_u32(b@, off as int),
{
    let b0 = b[off] as u32;
    let b1 = b[off + 1] as u32;
    let b2 = b[off + 2] as u32;
    let b3 = b[off + 3] as u32;
    b0 + 0x100 * b1 + 0x1_0000 * b2 + 0x100_0000 * b3
}

/// The little-endian value of the eight bytes of `b` at `off`.
pub fn read_u64(b: &Vec<u8>, off: usize) -> (r: u64)
    requires
        off + 8 <= b.len(),
    ensures
        r == le_u64(b@, off as int),
{
    let lo = read_u32(b, off) as u64;
    let hi = read_u32(b, off + 4) as u64;
    lo + 0x1_0000_0000 * hi
}

/// The two's-complement reading of a 32-bit pattern.
pub fn to_i32(u: u32) -> (r: i32)
    ensures
        r == i32_of(u),
{
    if u < 0x8000_0000 {
        u as i32
    } else {
        -((0xffff_ffff - u) as i32) - 1
    }
}

/// Relies on `std::str::from_utf8`, which accepts exactly the well-formed
/// UTF-8 byte sequences and decodes them.
#[verifier::external_body]
fn utf8_to_string(b: &Vec<u8>) -> (r: Option<String>)
    ensures
        r is Some <==> valid_utf8(b@),
        r matches Some(s) ==> s@ == decode_utf8(b@),
{
    std::str::from_utf8(b.as_slice()).ok().map(|s| s.to_string())
}

/// The text of a foreign string laid out as a four-byte length followed by
/// a NUL-terminated character buffer.
fn c_text_of(b: &Vec<u8>) -> (r: Vec<u8>)
    requires
        b.len() >= 4,
    ensures
        r@ == c_text(b@),
{
    let end = if b.len() - 4 > MAX_STRING_LEN {
        4 + MAX_STRING_LEN
    } else {
        b.len()
    };
    let ghost body = b@.subrange(4, end as int);
    let mut out: Vec<u8> = Vec::new();
    let mut i: usize = 4;
    while i < end && b[i] != 0
        invariant
            4 <= i <= end <= b.len(),
            body == b@.subrange(4, end as int),
            out@ == body.subrange(0, i - 4),
            forall|j: int| 0 <= j < i - 4 ==> body[j] != 0,
        decreases end - i,
    {
        out.push(b[i]);
        i += 1;
        proof {
            assert(out@ =~= body.subrange(0, i - 4));
        }
    }
    proof {
        assert(c_body(b@) =~= body);
        if i < end {
            assert(body[i - 4] == 0);
            assert(exists|j: int| 0 <= j < body.len() && body[j] == 0);
            let k = choose_first_nul(body);
            assert(0 <= k < body.len() && body[k] == 0 && forall|j: int| 0 <= j < k ==> body[j] != 0)
                by {
                assert(0 <= i - 4 < body.len() && body[i - 4] == 0 && forall|j: int|
                    0 <= j < i - 4 ==> body[j] != 0);
            }
            assert(k == i - 4);
            assert(until_nul(body) == body.subrange(0, k));
        } else {
            assert(out@ =~= body);
            assert(!exists|j: int| 0 <= j < body.len() && body[j] == 0);
            assert(until_nul(body) == body);
        }
    }
    out
}

fn meta_error(msg: &str) -> (r: Russult<MetadataType>)
    ensures
        is_meta_error(r, msg@),
{
    Err(RussimpError::MetadataError(String::from_str(msg)))
}

impl MetaDataEntry {
    /// Decodes an entry's bytes according to its tag.
    pub fn cast_data(e: &RawMetadataEntry) -> (r: Russult<MetadataType>)
        ensures
            decoded(*e, r),
    {
        if e.tag == META_BOOL {
            match &e.data {
                Some(b) if b.len() >= 1 => Ok(MetadataType::Bool(b[0] != 0)),
                _ => meta_error("Cant convert to bool"),
            }
        } else if e.tag == META_INT32 {
            match &e.data {
                Some(b) if b.len() >= 4 => Ok(MetadataType::Int(to_i32(read_u32(b, 0)))),
                _ => meta_error("Cant convert to integer"),
            }
        } else if e.tag == META_UINT64 {
            match &e.data {
                Some(b) if b.len() >= 8 => Ok(MetadataType::ULong(read_u64(b, 0))),
                _ => meta_error("Cant convert to ulong"),
            }
        } else if e.tag == META_FLOAT {
            match &e.data {
                Some(b) if b.len() >= 4 => Ok(MetadataType::Float(read_u32(b, 0))),
                _ => meta_error("Cant convert to float"),
            }
        } else if e.tag == META_DOUBLE {
            match &e.data {
                Some(b) if b.len() >= 8 => Ok(MetadataType::Double(read_u64(b, 0))),
                _ => meta_error("Cant convert to double"),
            }
        } else if e.tag == META_STRING {
            match &e.data {
                Some(b) if b.len() >= 4 => {
                    let text = c_text_of(b);
                    match utf8_to_string(&text) {
                        Some(s) => Ok(MetadataType::String(s)),
                        None => Err(
                            RussimpError::Primitive(String::from_str("invalid utf-8 sequence")),
                        ),
                    }
                },
                _ => meta_error("Cant convert to string"),
            }
        } else if e.tag == META_VECTOR3D {
            match &e.data {
                Some(b) if b.len() >= 12 => {
                    let x = read_u32(b, 0);
                    let y = read_u32(b, 4);
                    let z = read_u32(b, 8);
                    Ok(MetadataType::Vector3d(Vector3D { x, y, z }))
                },
                _ => meta_error("data is null"),
            }
        } else {
            meta_error("could not find caster for metadata type")
        }
    }

    /// The decoded entry.
    pub fn from(e: &RawMetadataEntry) -> (r: MetaDataEntry)
        ensures
            decoded(*e, r.0),
    {
        MetaDataEntry(Self::cast_data(e))
    }
}

fn clone_string(s: &String) -> (r: String)
    ensures
        r@ == s@,
{
    s.clone()
}

/// The foreign table is usable: both arrays are null or hold their counts.
pub open spec fn raw_table_wf(m: RawMetadata) -> bool {
    m.keys.wf() && m.values.wf()
}

/// `r` holds the keys of `m` and each of its entries decoded on its own.
pub open spec fn table_decoded(m: RawMetadata, r: MetaData) -> bool {
    &&& r.keys@.len() == m.keys.elems().len()
    &&& forall|i: int| 0 <= i < r.keys@.len() ==> #[trigger] r.keys@[i]@ == m.keys.elems()[i]@
    &&& r.values@.len() == m.values.elems().len()
    &&& forall|i: int|
        0 <= i < r.values@.len() ==> decoded(m.values.elems()[i], #[trigger] r.values@[i].0)
}

impl MetaData {
    /// The keys and entries of a foreign table, each entry decoded on its own.
    pub fn from(m: &RawMetadata) -> (r: MetaData)
        requires
            raw_table_wf(*m),
        ensures
            table_decoded(*m, r),
    {
        let keys = get_vec(&m.keys, |s: &String| -> (r: String) ensures r@ == s@ { clone_string(s) });
        let values = get_vec(&m.values, |e: &RawMetadataEntry| -> (r: MetaDataEntry) ensures decoded(*e, r.0) { MetaDataEntry::from(e) });
        MetaData { keys, values }
    }
}

/// Every entry of a table decodes on its own: an entry with an unrecognized
/// tag yields a failure kept in its place, and each other entry still gets
/// exactly the value its own tag and bytes give.
pub proof fn lemma_bad_entry_is_isolated(m: RawMetadata, r: MetaData, i: int, j: int)
    requires
        table_decoded(m, r),
        0 <= i < r.values@.len(),
        0 <= j < r.values@.len(),
        i != j,
        !recognized_tag(m.values.elems()[i].tag),
    ensures
        is_meta_error(r.values@[i].0, "could not find caster for metadata type"@),
        decoded(m.values.elems()[j], r.values@[j].0),
{
    assert(decoded(m.values.elems()[i], r.values@[i].0));
    assert(decoded(m.values.elems()[j], r.values@[j].0));
}

/// The tag is one this decoder knows.
pub open spec fn recognized_tag(tag: u32) -> bool {
    tag == META_BOOL || tag == META_INT32 || tag == META_UINT64 || tag == META_FLOAT || tag
        == META_DOUBLE || tag == META_STRING || tag == META_VECTOR3D
}

} // verus!
