//! Import configuration: named properties handed to the importer before an
//! import.
use vstd::prelude::*;

use vstd::string::StringSliceAdditionalSpecFns;

use crate::{Bits32, Matrix4x4};

verus! {

/// The capacity of the importer's string buffer.
pub const MAX_PROPERTY_STRING: usize = 1024;

/// A configuration value.
#[derive(Debug, Clone)]
pub enum Property {
    String(&'static str),
    Float(Bits32),
    Integer(i32),
    /// A column-major matrix: `m[c][r]` is row `r` of column `c`.
    Matrix([[Bits32; 4]; 4]),
}

/// A configuration value as the importer stores it.
#[derive(Debug, Clone)]
pub enum StoredProperty {
    Integer(i32),
    Float(Bits32),
    /// A string: its length in bytes, and as many of its bytes as the
    /// buffer holds.
    String { length: u32, data: Vec<u8> },
    /// A row-major matrix.
    Matrix(Matrix4x4),
}

/// A set of configuration values, keyed by name; setting a name again
/// replaces its value.
#[derive(Debug)]
pub struct PropertyStore {
    entries: Vec<(Vec<u8>, StoredProperty)>,
}

/// The value of each name: the last one set.
pub open spec fn entries_view(entries: Seq<(Vec<u8>, StoredProperty)>) -> Map<Seq<u8>, StoredProperty>
    decreases entries.len(),
{
    if entries.len() == 0 {
        Map::empty()
    } else {
        entries_view(entries.drop_last()).insert(entries.last().0@, entries.last().1)
    }
}

/// The bytes of `name` before its first NUL.
pub open spec fn c_name(name: Seq<u8>) -> Seq<u8> {
    name.subrange(0, first_nul(name))
}

/// The position of the first NUL of `name`, given that it has one.
pub open spec fn first_nul(name: Seq<u8>) -> int {
    choose|i: int| 0 <= i < name.len() && name[i] == 0 && forall|j: int| 0 <= j < i ==> name[j] != 0
}

/// `name` holds a NUL.
pub open spec fn has_nul(name: Seq<u8>) -> bool {
    exists|i: int| 0 <= i < name.len() && name[i] == 0
}

/// The matrix as the importer stores it: row `r`, column `c` is `m[c][r]`.
pub open spec fn transposed(m: [[Bits32; 4]; 4]) -> Matrix4x4 {
    Matrix4x4 {
        a1: m[0][0],
        a2: m[1][0],
        a3: m[2][0],
        a4: m[3][0],
        b1: m[0][1],
        b2: m[1][1],
        b3: m[2][1],
        b4: m[3][1],
        c1: m[0][2],
        c2: m[1][2],
        c3: m[2][2],
        c4: m[3][2],
        d1: m[0][3],
        d2: m[1][3],
        d3: m[2][3],
        d4: m[3][3],
    }
}

/// `p` is a string as the importer stores it: the full byte length of
/// `bytes`, and as many of them as its buffer holds.
pub open spec fn stored_string(p: StoredProperty, bytes: Seq<u8>) -> bool {
    p matches StoredProperty::String { length, data } && length == bytes.len() && data@
        == bytes.subrange(
        0,
        if bytes.len() < MAX_PROPERTY_STRING {
            bytes.len() as int
        } else {
            MAX_PROPERTY_STRING as int
        },
    )
}

/// `p` is how the importer stores the configuration value `v`.
pub open spec fn stored_as(p: StoredProperty, v: Property) -> bool {
    match v {
        Property::String(s) => stored_string(p, s.spec_bytes()),
        Property::Float(x) => p == StoredProperty::Float(x),
        Property::Integer(x) => p == StoredProperty::Integer(x),
        Property::Matrix(m) => p == StoredProperty::Matrix(transposed(m)),
    }
}

/// `new` is `old` with the name `k` set to `v`, every other name unchanged.
pub open spec fn set_in(
    old: Map<Seq<u8>, StoredProperty>,
    new: Map<Seq<u8>, StoredProperty>,
    k: Seq<u8>,
    v: Property,
) -> bool {
    &&& new.dom() == old.dom().insert(k)
    &&& forall|k2: Seq<u8>| k2 != k && old.contains_key(k2) ==> new[k2] == old[k2]
    &&& stored_as(new[k], v)
}

/// The bytes of `name` before its first NUL.
fn name_until_nul(name: &[u8]) -> (r: Vec<u8>)
    requires
        has_nul(name@),
    ensures
        r@ == c_name(name@),
{
    let mut out: Vec<u8> = Vec::new();
    let mut i: usize = 0;
    while name[i] != 0
        invariant
            has_nul(name@),
            0 <= i < name@.len(),
            out@ == name@.subrange(0, i as int),
            forall|j: int| 0 <= j < i ==> name@[j] != 0,
        decreases name@.len() - i,
    {
        out.push(name[i]);
        i += 1;
        proof {
            assert(out@ =~= name@.subrange(0, i as int));
            if i == name@.len() {
                let w = choose|w: int| 0 <= w < name@.len() && name@[w] == 0;
                assert(name@[w] == 0);
            }
        }
    }
    proof {
        let k = first_nul(name@);
        assert(0 <= i < name@.len() && name@[i as int] == 0 && forall|j: int| 0 <= j < i ==> name@[j] != 0);
        assert(0 <= k < name@.len() && name@[k] == 0 && forall|j: int| 0 <= j < k ==> name@[j] != 0);
        assert(k == i);
    }
    out
}

impl Default for PropertyStore {
    fn default() -> (r: PropertyStore)
        ensures
            r@ == Map::<Seq<u8>, StoredProperty>::empty(),
    {
        PropertyStore { entries: Vec::new() }
    }
}

impl View for PropertyStore {
    type V = Map<Seq<u8>, StoredProperty>;

    closed spec fn view(&self) -> Map<Seq<u8>, StoredProperty> {
        entries_view(self.entries@)
    }
}

impl PropertyStore {
    fn set(&mut self, name: &[u8], value: StoredProperty)
        requires
            has_nul(name@),
        ensures
            final(self)@ == old(self)@.insert(c_name(name@), value),
    {
        let key = name_until_nul(name);
        let ghost before = self.entries@;
        self.entries.push((key, value));
        proof {
            assert(self.entries@.drop_last() =~= before);
        }
    }

    /// Sets `name`, up to its first NUL, to an integer.
    pub fn set_integer(&mut self, name: &[u8], value: i32)
        requires
            has_nul(name@),
        ensures
            final(self)@ == old(self)@.insert(c_name(name@), StoredProperty::Integer(value)),
    {
        self.set(name, StoredProperty::Integer(value));
    }

    /// Sets `name`, up to its first NUL, to a single-precision value.
    pub fn set_float(&mut self, name: &[u8], value: Bits32)
        requires
            has_nul(name@),
        ensures
            final(self)@ == old(self)@.insert(c_name(name@), StoredProperty::Float(value)),
    {
        self.set(name, StoredProperty::Float(value));
    }

    /// Sets `name`, up to its first NUL, to a string: its full length, and
    /// its bytes cut to the importer's buffer.
    pub fn set_string(&mut self, name: &[u8], value: &str)
        requires
            has_nul(name@),
            value.spec_bytes().len() <= u32::MAX,
        ensures
            final(self)@.dom() == old(self)@.dom().insert(c_name(name@)),
            forall|k: Seq<u8>| k != c_name(name@) && old(self)@.contains_key(k) ==> final(self)@[k] == old(self)@[k],
            stored_string(final(self)@[c_name(name@)], value.spec_bytes()),
    {
        let bytes = value.as_bytes();
        let n = if bytes.len() < MAX_PROPERTY_STRING {
            bytes.len()
        } else {
            MAX_PROPERTY_STRING
        };
        let mut data: Vec<u8> = Vec::new();
        let mut i: usize = 0;
        while i < n
            invariant
                n <= bytes@.len(),
                i <= n,
                data@ == bytes@.subrange(0, i as int),
            decreases n - i,
        {
            data.push(bytes[i]);
            i += 1;
            proof {
                assert(data@ =~= bytes@.subrange(0, i as int));
            }
        }
        let length = bytes.len() as u32;
        self.set(name, StoredProperty::String { length, data });
    }

    /// Sets `name`, up to its first NUL, to a matrix given column-major.
    pub fn set_matrix(&mut self, name: &[u8], value: [[Bits32; 4]; 4])
        requires
            has_nul(name@),
        ensures
            final(self)@ == old(self)@.insert(
                c_name(name@),
                StoredProperty::Matrix(transposed(value)),
            ),
    {
        let m = Matrix4x4 {
            a1: value[0][0],
            a2: value[1][0],
            a3: value[2][0],
            a4: value[3][0],
            b1: value[0][1],
            b2: value[1][1],
            b3: value[2][1],
            b4: value[3][1],
            c1: value[0][2],
            c2: value[1][2],
            c3: value[2][2],
            c4: value[3][2],
            d1: value[0][3],
            d2: value[1][3],
            d3: value[2][3],
            d4: value[3][3],
        };
        self.set(name, StoredProperty::Matrix(m));
    }

    /// Sets one property.
    pub fn set_property(&mut self, name: &[u8], value: &Property)
        requires
            has_nul(name@),
            *value matches Property::String(s) ==> s.spec_bytes().len() <= u32::MAX,
        ensures
            set_in(old(self)@, final(self)@, c_name(name@), *value),
            *value matches Property::Integer(v) ==> final(self)@ == old(self)@.insert(
                c_name(name@),
                StoredProperty::Integer(v),
            ),
            *value matches Property::Float(v) ==> final(self)@ == old(self)@.insert(
                c_name(name@),
                StoredProperty::Float(v),
            ),
            *value matches Property::Matrix(v) ==> final(self)@ == old(self)@.insert(
                c_name(name@),
                StoredProperty::Matrix(transposed(v)),
            ),
    {
        match value {
            Property::String(s) => self.set_string(name, s),
            Property::Float(v) => self.set_float(name, *v),
            Property::Integer(v) => self.set_integer(name, *v),
            Property::Matrix(v) => self.set_matrix(name, *v),
        }
    }

    /// The stored entries, in the order they were set, for handing to the
    /// importer.
    pub fn as_ptr(&self) -> (r: &Vec<(Vec<u8>, StoredProperty)>)
        ensures
            entries_view(r@) == self@,
    {
        &self.entries
    }
}

/// No property after the `i`-th one, up to `upto`, sets the same name.
pub open spec fn last_set(props: Seq<(&'static [u8], Property)>, i: int, upto: int) -> bool {
    forall|j: int| i < j < upto ==> c_name(props[j].0@) != c_name(props[i].0@)
}

impl PropertyStore {
    /// A store holding the given properties, set in order: each name holds
    /// the last value set for it.
    pub fn from_properties(props: &Vec<(&'static [u8], Property)>) -> (r: PropertyStore)
        requires
            forall|i: int| 0 <= i < props@.len() ==> has_nul((#[trigger] props@[i]).0@),
            forall|i: int|
                0 <= i < props@.len() ==> ((#[trigger] props@[i]).1 matches Property::String(s)
                    ==> s.spec_bytes().len() <= u32::MAX),
        ensures
            forall|i: int| 0 <= i < props@.len() ==> r@.contains_key(c_name((#[trigger] props@[i]).0@)),
            forall|k: Seq<u8>|
                r@.contains_key(k) ==> exists|i: int| 0 <= i < props@.len() && c_name(props@[i].0@) == k,
            forall|i: int|
                0 <= i < props@.len() && last_set(props@, i, props@.len() as int) ==> stored_as(
                    r@[c_name((#[trigger] props@[i]).0@)],
                    props@[i].1,
                ),
    {
        let mut store = PropertyStore::default();
        let mut i: usize = 0;
        while i < props.len()
            invariant
                i <= props@.len(),
                forall|j: int| 0 <= j < props@.len() ==> has_nul((#[trigger] props@[j]).0@),
                forall|j: int|
                    0 <= j < props@.len() ==> ((#[trigger] props@[j]).1 matches Property::String(s)
                        ==> s.spec_bytes().len() <= u32::MAX),
                forall|j: int| 0 <= j < i ==> store@.contains_key(c_name((#[trigger] props@[j]).0@)),
                forall|k: Seq<u8>|
                    store@.contains_key(k) ==> exists|j: int| 0 <= j < i && c_name(props@[j].0@) == k,
                forall|j: int|
                    0 <= j < i && last_set(props@, j, i as int) ==> stored_as(
                        store@[c_name((#[trigger] props@[j]).0@)],
                        props@[j].1,
                    ),
            decreases props@.len() - i,
        {
            let ghost before = store@;
            let (name, value) = &props[i];
            store.set_property(name, value);
            proof {
                let ki = c_name(props@[i as int].0@);
                assert forall|k: Seq<u8>| store@.contains_key(k) implies exists|j: int|
                    0 <= j < i + 1 && c_name(props@[j].0@) == k by {
                    if k != ki {
                        assert(before.contains_key(k));
                        let j = choose|j: int| 0 <= j < i && c_name(props@[j].0@) == k;
                        assert(0 <= j < i + 1 && c_name(props@[j].0@) == k);
                    } else {
                        assert(0 <= i < i + 1 && c_name(props@[i as int].0@) == k);
                    }
                }
                assert forall|j: int|
                    0 <= j < i + 1 && last_set(props@, j, i + 1) implies stored_as(
                        store@[c_name((#[trigger] props@[j]).0@)],
                        props@[j].1,
                    ) by {
                    if j < i {
                        assert(c_name(props@[i as int].0@) != c_name(props@[j].0@));
                        assert(last_set(props@, j, i as int));
                    }
                }
            }
            i += 1;
        }
        store
    }
}

} // verus!
