//! Materials: typed property decoding, property lookups and the resolution
//! of texture slots to embedded textures or external files.
use vstd::prelude::*;

use crate::adapter::{copy_prefix, get_vec, raw_at, raw_len};
pub use crate::texture::{DataContent, Texel, TextureType};
use crate::raw::RawArray;
use crate::texture::{component_copied, RawTexture, TextureComponent, TEXTURE_TYPE_COUNT};
use crate::{Bits32, Color3D, Color4D, RussimpError, Russult, ONE_BITS32, ZERO_BITS32};

verus! {

/// Property type tag: an array of single-precision values.
pub const PTI_FLOAT: u32 = 1;
/// Property type tag: an array of double-precision values.
pub const PTI_DOUBLE: u32 = 2;
/// Property type tag: a string.
pub const PTI_STRING: u32 = 3;
/// Property type tag: an array of signed 32-bit integers.
pub const PTI_INTEGER: u32 = 4;
/// Property type tag: an opaque buffer.
pub const PTI_BUFFER: u32 = 5;

/// What the importer's typed getter returned when asked for a property.
#[derive(Debug, Clone)]
pub enum PropertyReply {
    /// The getter reported failure.
    Failure,
    /// The single-precision values it wrote.
    Floats(Vec<Bits32>),
    /// The integers it wrote.
    Integers(Vec<i32>),
    /// The string it returned.
    Text(String),
}

/// A foreign material property: its key, its raw bytes and type tag, and
/// the reply of the importer's typed getter for it.
#[derive(Debug, Clone)]
pub struct RawMaterialProperty {
    pub key: String,
    pub semantic: u32,
    pub index: u32,
    pub type_tag: u32,
    pub data: Vec<u8>,
    pub reply: PropertyReply,
}

/// The slots of one usage type in a foreign material, as the importer
/// reports them one by one; `None` where it reported failure.
#[derive(Debug, Clone)]
pub struct RawTextureSlots {
    pub texture_type: TextureType,
    pub slots: Vec<Option<TextureComponent>>,
}

/// A foreign material.
#[derive(Debug, Clone)]
pub struct RawMaterial {
    pub properties: RawArray<RawMaterialProperty>,
    pub texture_slots: Vec<RawTextureSlots>,
}

/// The key under which a material property is stored.
#[derive(Debug, Clone, PartialEq, Eq, Hash)]
pub struct MaterialPropertyKey {
    pub key: String,
    pub index: usize,
    pub semantic: TextureType,
}

/// The decoded value of a material property.
#[derive(Debug, Clone, PartialEq)]
pub enum MaterialPropertyData {
    Buffer(Vec<u8>),
    IntegerArray(Vec<i32>),
    FloatArray(Vec<Bits32>),
    String(String),
}

/// A material property: its key and its value, or why it could not be
/// decoded.
#[derive(Debug)]
pub struct MaterialProperty {
    pub key: MaterialPropertyKey,
    pub data: Russult<MaterialPropertyData>,
}

/// Where a texture slot's image comes from.
#[derive(Debug, Clone, PartialEq, Eq)]
pub enum TextureSource {
    /// An embedded texture, as an index into the scene's textures.
    Embedded(usize),
    /// An external file, named by the slot's filename.
    External(String),
}

/// One texture slot of a material: what the importer reported for it, and
/// the texture it resolves to.
#[derive(Debug)]
pub struct MaterialTexture {
    pub slot: TextureComponent,
    pub source: TextureSource,
}

/// A material: its properties, and for each usage type its texture slots in
/// order, each resolved or, where the importer reported failure for a slot
/// it had counted, `TextureNotFound`. `textures` has one entry per usage
/// type, at the type's position.
#[derive(Debug)]
pub struct Material {
    pub properties: Vec<MaterialProperty>,
    pub textures: Vec<Vec<Russult<MaterialTexture>>>,
}

/// What identifies a key: its name, index and semantic.
pub type KeyView = (Seq<char>, usize, TextureType);

/// What identifies `k`.
pub open spec fn key_view(k: MaterialPropertyKey) -> KeyView {
    (k.key@, k.index, k.semantic)
}

/// What identifies the key with the given name, index 0 and no semantic.
pub open spec fn named(name: Seq<char>) -> KeyView {
    (name, 0, TextureType::NoTexture)
}

/// Two keys are equal.
pub open spec fn key_eq(a: MaterialPropertyKey, b: MaterialPropertyKey) -> bool {
    key_view(a) == key_view(b)
}

impl MaterialPropertyKey {
    /// The key with the given name, index 0 and no texture semantic.
    pub fn from(key: &str) -> (r: MaterialPropertyKey)
        ensures
            r.key@ == key@,
            r.index == 0,
            r.semantic == TextureType::NoTexture,
    {
        MaterialPropertyKey { key: key.to_owned(), index: 0, semantic: TextureType::NoTexture }
    }

    /// The two keys are equal.
    pub fn same(&self, other: &MaterialPropertyKey) -> (r: bool)
        ensures
            r == key_eq(*self, *other),
    {
        self.index == other.index && self.semantic == other.semantic && self.key == other.key
    }
}

/// The number of elements the typed getter is asked for: the byte length
/// over the element size (eight bytes for doubles, four otherwise).
pub open spec fn request_len_spec(p: RawMaterialProperty) -> nat {
    if p.type_tag == PTI_DOUBLE {
        p.data@.len() / 8
    } else {
        p.data@.len() / 4
    }
}

/// `v` padded with `zero` up to `n` elements, or cut to `n`.
pub open spec fn fit<T>(v: Seq<T>, n: nat, zero: T) -> Seq<T> {
    Seq::new(n, |i: int| if i < v.len() { v[i] } else { zero })
}

/// `r` is a material error whose message names `key` and `target`.
pub open spec fn is_parse_error(
    r: Russult<MaterialPropertyData>,
    key: Seq<char>,
    target: Seq<char>,
) -> bool {
    r matches Err(RussimpError::MeterialError(m)) && m@ == "Error while parsing "@ + key + " to "@
        + target
}

/// What decoding a property gives, for each reply of the typed getter.
pub open spec fn property_decoded(
    p: RawMaterialProperty,
    reply: PropertyReply,
    r: Russult<MaterialPropertyData>,
) -> bool {
    if p.type_tag == PTI_FLOAT || p.type_tag == PTI_DOUBLE {
        match reply {
            PropertyReply::Floats(v) => r matches Ok(MaterialPropertyData::FloatArray(a)) && a@
                == fit(v@, request_len_spec(p), ZERO_BITS32),
            _ => is_parse_error(r, p.key@, "f32"@),
        }
    } else if p.type_tag == PTI_STRING {
        match reply {
            PropertyReply::Text(s) => r matches Ok(MaterialPropertyData::String(t)) && t@ == s@,
            _ => is_parse_error(r, p.key@, "string"@),
        }
    } else if p.type_tag == PTI_INTEGER {
        match reply {
            PropertyReply::Integers(v) => r matches Ok(MaterialPropertyData::IntegerArray(a)) && a@
                == fit(v@, request_len_spec(p), 0i32),
            _ => is_parse_error(r, p.key@, "i32"@),
        }
    } else if p.type_tag == PTI_BUFFER {
        r matches Ok(MaterialPropertyData::Buffer(b)) && b@ == p.data@
    } else {
        r matches Err(RussimpError::MeterialError(m)) && m@
            == "could not find caster for property type"@
    }
}

fn parse_error(key: &String, target: &str) -> (r: Russult<MaterialPropertyData>)
    ensures
        is_parse_error(r, key@, target@),
{
    let mut m = String::from_str("Error while parsing ");
    m.append(key.as_str());
    m.append(" to ");
    m.append(target);
    Err(RussimpError::MeterialError(m))
}

fn fit_vec<T: Copy>(v: &Vec<T>, n: usize, zero: T) -> (r: Vec<T>)
    ensures
        r@ == fit(v@, n as nat, zero),
{
    let mut out: Vec<T> = Vec::new();
    let mut i: usize = 0;
    while i < n
        invariant
            i <= n,
            out@ =~= fit(v@, i as nat, zero),
        decreases n - i,
    {
        if i < v.len() {
            out.push(v[i]);
        } else {
            out.push(zero);
        }
        i += 1;
    }
    proof {
        assert(out@ =~= fit(v@, n as nat, zero));
    }
    out
}

impl MaterialProperty {
    /// The number of elements to ask the typed getter for.
    pub fn request_len(p: &RawMaterialProperty) -> (r: usize)
        ensures
            r == request_len_spec(*p),
    {
        if p.type_tag == PTI_DOUBLE {
            p.data.len() / 8
        } else {
            p.data.len() / 4
        }
    }

    /// Decodes a property by its type tag, given the typed getter's reply.
    /// Numeric arrays have the requested length: what the getter wrote,
    /// then zeros.
    pub fn try_get_data_from_property(p: &RawMaterialProperty, reply: &PropertyReply) -> (r:
        Russult<MaterialPropertyData>)
        ensures
            property_decoded(*p, *reply, r),
    {
        let n = Self::request_len(p);
        if p.type_tag == PTI_FLOAT || p.type_tag == PTI_DOUBLE {
            match reply {
                PropertyReply::Floats(v) => Ok(
                    MaterialPropertyData::FloatArray(fit_vec(v, n, ZERO_BITS32)),
                ),
                _ => parse_error(&p.key, "f32"),
            }
        } else if p.type_tag == PTI_STRING {
            match reply {
                PropertyReply::Text(s) => Ok(MaterialPropertyData::String(s.clone())),
                _ => parse_error(&p.key, "string"),
            }
        } else if p.type_tag == PTI_INTEGER {
            match reply {
                PropertyReply::Integers(v) => Ok(
                    MaterialPropertyData::IntegerArray(fit_vec(v, n, 0i32)),
                ),
                _ => parse_error(&p.key, "i32"),
            }
        } else if p.type_tag == PTI_BUFFER {
            let b = copy_prefix(&p.data, p.data.len());
            proof {
                assert(b@ =~= p.data@);
            }
            Ok(MaterialPropertyData::Buffer(b))
        } else {
            Err(
                RussimpError::MeterialError(
                    String::from_str("could not find caster for property type"),
                ),
            )
        }
    }

    /// The property of a foreign material, keyed by its name, index and
    /// semantic, decoded with the reply the importer gave for it.
    pub fn new(p: &RawMaterialProperty) -> (r: MaterialProperty)
        ensures
            r.key.key@ == p.key@,
            r.key.index == p.index,
            r.key.semantic == TextureType::from_u32_spec(p.semantic),
            property_decoded(*p, p.reply, r.data),
    {
        MaterialProperty {
            key: MaterialPropertyKey {
                key: p.key.clone(),
                index: p.index as usize,
                semantic: TextureType::from_u32(p.semantic),
            },
            data: Self::try_get_data_from_property(p, &p.reply),
        }
    }
}


/// The index of the last property of `props` stored under `k`.
pub open spec fn find_last(props: Seq<MaterialProperty>, k: KeyView) -> Option<int>
    decreases props.len(),
{
    if props.len() == 0 {
        None
    } else if key_view(props.last().key) == k {
        Some(props.len() - 1)
    } else {
        find_last(props.drop_last(), k)
    }
}

/// The value stored under `k`: that of the last property with that key,
/// if it was decoded.
pub open spec fn lookup_spec(props: Seq<MaterialProperty>, k: KeyView) -> Option<
    MaterialPropertyData,
> {
    match find_last(props, k) {
        Some(i) => match props[i].data {
            Ok(d) => Some(d),
            Err(_) => None,
        },
        None => None,
    }
}

/// A type that a property value can be read as.
pub trait PropertyValue: Sized {
    /// The value `d` holds when read as this type, if any.
    spec fn value_of(d: MaterialPropertyData) -> Option<Self>;

    /// `v` is the value of this type used when a property is absent.
    spec fn is_zero(v: Self) -> bool;

    /// Reads `d` as this type.
    fn from_data(d: &MaterialPropertyData) -> (r: Option<Self>)
        ensures
            r == Self::value_of(*d),
    ;

    /// The value of this type used when a property is absent.
    fn zero() -> (r: Self)
        ensures
            Self::is_zero(r),
    ;
}

impl PropertyValue for String {
    /// A string property.
    open spec fn value_of(d: MaterialPropertyData) -> Option<String> {
        match d {
            MaterialPropertyData::String(s) => Some(s),
            _ => None,
        }
    }

    open spec fn is_zero(v: String) -> bool {
        v@.len() == 0
    }

    fn from_data(d: &MaterialPropertyData) -> (r: Option<String>) {
        match d {
            MaterialPropertyData::String(s) => Some(s.clone()),
            _ => None,
        }
    }

    fn zero() -> (r: String) {
        String::new()
    }
}

impl PropertyValue for bool {
    /// A non-empty buffer, read as its first byte being non-zero.
    open spec fn value_of(d: MaterialPropertyData) -> Option<bool> {
        match d {
            MaterialPropertyData::Buffer(b) => if b@.len() > 0 {
                Some(b@[0] != 0)
            } else {
                None
            },
            _ => None,
        }
    }

    open spec fn is_zero(v: bool) -> bool {
        v == false
    }

    fn from_data(d: &MaterialPropertyData) -> (r: Option<bool>) {
        match d {
            MaterialPropertyData::Buffer(b) => if b.len() > 0 {
                Some(b[0] != 0)
            } else {
                None
            },
            _ => None,
        }
    }

    fn zero() -> (r: bool) {
        false
    }
}

impl PropertyValue for i32 {
    /// The first element of a non-empty integer array.
    open spec fn value_of(d: MaterialPropertyData) -> Option<i32> {
        match d {
            MaterialPropertyData::IntegerArray(v) => if v@.len() > 0 {
                Some(v@[0])
            } else {
                None
            },
            _ => None,
        }
    }

    open spec fn is_zero(v: i32) -> bool {
        v == 0
    }

    fn from_data(d: &MaterialPropertyData) -> (r: Option<i32>) {
        match d {
            MaterialPropertyData::IntegerArray(v) => if v.len() > 0 {
                Some(v[0])
            } else {
                None
            },
            _ => None,
        }
    }

    fn zero() -> (r: i32) {
        0
    }
}

impl PropertyValue for Bits32 {
    /// The first element of a non-empty single-precision array.
    open spec fn value_of(d: MaterialPropertyData) -> Option<Bits32> {
        match d {
            MaterialPropertyData::FloatArray(v) => if v@.len() > 0 {
                Some(v@[0])
            } else {
                None
            },
            _ => None,
        }
    }

    open spec fn is_zero(v: Bits32) -> bool {
        v == ZERO_BITS32
    }

    fn from_data(d: &MaterialPropertyData) -> (r: Option<Bits32>) {
        match d {
            MaterialPropertyData::FloatArray(v) => if v.len() > 0 {
                Some(v[0])
            } else {
                None
            },
            _ => None,
        }
    }

    fn zero() -> (r: Bits32) {
        ZERO_BITS32
    }
}

impl PropertyValue for Color3D {
    /// A single-precision array of exactly three elements.
    open spec fn value_of(d: MaterialPropertyData) -> Option<Color3D> {
        match d {
            MaterialPropertyData::FloatArray(v) => if v@.len() == 3 {
                Some(Color3D { r: v@[0], g: v@[1], b: v@[2] })
            } else {
                None
            },
            _ => None,
        }
    }

    open spec fn is_zero(v: Color3D) -> bool {
        v == Color3D { r: ZERO_BITS32, g: ZERO_BITS32, b: ZERO_BITS32 }
    }

    fn from_data(d: &MaterialPropertyData) -> (r: Option<Color3D>) {
        match d {
            MaterialPropertyData::FloatArray(v) => if v.len() == 3 {
                Some(Color3D { r: v[0], g: v[1], b: v[2] })
            } else {
                None
            },
            _ => None,
        }
    }

    fn zero() -> (r: Color3D) {
        Color3D { r: ZERO_BITS32, g: ZERO_BITS32, b: ZERO_BITS32 }
    }
}

/// The color a single-precision array of three or four elements stands for;
/// alpha is one when the array has three elements.
pub open spec fn color4_of(d: MaterialPropertyData) -> Option<Color4D> {
    match d {
        MaterialPropertyData::FloatArray(v) => if v@.len() == 3 {
            Some(Color4D { r: v@[0], g: v@[1], b: v@[2], a: ONE_BITS32 })
        } else if v@.len() == 4 {
            Some(Color4D { r: v@[0], g: v@[1], b: v@[2], a: v@[3] })
        } else {
            None
        },
        _ => None,
    }
}

impl PropertyValue for Color4D {
    open spec fn value_of(d: MaterialPropertyData) -> Option<Color4D> {
        color4_of(d)
    }

    open spec fn is_zero(v: Color4D) -> bool {
        v == Color4D { r: ZERO_BITS32, g: ZERO_BITS32, b: ZERO_BITS32, a: ZERO_BITS32 }
    }

    fn from_data(d: &MaterialPropertyData) -> (r: Option<Color4D>) {
        match d {
            MaterialPropertyData::FloatArray(v) => if v.len() == 3 {
                Some(Color4D { r: v[0], g: v[1], b: v[2], a: ONE_BITS32 })
            } else if v.len() == 4 {
                Some(Color4D { r: v[0], g: v[1], b: v[2], a: v[3] })
            } else {
                None
            },
            _ => None,
        }
    }

    fn zero() -> (r: Color4D) {
        Color4D { r: ZERO_BITS32, g: ZERO_BITS32, b: ZERO_BITS32, a: ZERO_BITS32 }
    }
}

/// A color read from a property of three single-precision elements has
/// alpha exactly one; one read from four elements has the fourth as alpha.
pub proof fn lemma_color_alpha(v: Vec<Bits32>)
    ensures
        v@.len() == 3 ==> (color4_of(MaterialPropertyData::FloatArray(v)) matches Some(c) && c.a
            == ONE_BITS32),
        v@.len() == 4 ==> (color4_of(MaterialPropertyData::FloatArray(v)) matches Some(c) && c.a
            == v@[3]),
{
}

impl Material {
    /// The index of the last property stored under `key`.
    pub fn find(&self, key: &MaterialPropertyKey) -> (r: Option<usize>)
        ensures
            r matches Some(i) ==> i < self.properties@.len() && find_last(
                self.properties@,
                key_view(*key),
            ) == Some(i as int),
            r is None ==> find_last(self.properties@, key_view(*key)) is None,
    {
        let mut i = self.properties.len();
        proof {
            assert(self.properties@.subrange(0, i as int) =~= self.properties@);
        }
        while i > 0
            invariant
                i <= self.properties@.len(),
                find_last(self.properties@, key_view(*key)) == find_last(
                    self.properties@.subrange(0, i as int),
                    key_view(*key),
                ),
            decreases i,
        {
            proof {
                let s = self.properties@.subrange(0, i as int);
                assert(s.drop_last() =~= self.properties@.subrange(0, i - 1));
            }
            if self.properties[i - 1].key.same(key) {
                return Some(i - 1);
            }
            i -= 1;
        }
        proof {
            assert(self.properties@.subrange(0, 0).len() == 0);
        }
        None
    }

    /// The value stored under `key`, read as `T`.
    pub fn try_lookup<T: PropertyValue>(&self, key: &MaterialPropertyKey) -> (r: Option<T>)
        ensures
            r == (match lookup_spec(self.properties@, key_view(*key)) {
                Some(d) => T::value_of(d),
                None => None,
            }),
    {
        match self.find(key) {
            None => None,
            Some(i) => match &self.properties[i].data {
                Ok(d) => T::from_data(d),
                Err(_) => None,
            },
        }
    }

    /// The value stored under `key`, read as `T`, or `default`.
    pub fn try_lookup_with_default<T: PropertyValue>(
        &self,
        key: &MaterialPropertyKey,
        default: T,
    ) -> (r: T)
        ensures
            r == (match lookup_spec(self.properties@, key_view(*key)) {
                Some(d) => match T::value_of(d) {
                    Some(v) => v,
                    None => default,
                },
                None => default,
            }),
    {
        match self.try_lookup(key) {
            Some(v) => v,
            None => default,
        }
    }

    /// The value stored under `key`, read as `T`, or the type's zero.
    pub fn try_lookup_default<T: PropertyValue>(&self, key: &MaterialPropertyKey) -> (r: T)
        ensures
            lookup_or_zero(self.properties@, key_view(*key), r),
    {
        self.try_lookup_with_default(key, T::zero())
    }

    /// The material's name.
    pub fn name(&self) -> (r: Option<String>)
        ensures
            r matches Some(s) ==> (lookup_spec(
                self.properties@,
                named("?mat.name"@),
            ) matches Some(MaterialPropertyData::String(t)) && s@ == t@),
            r is None ==> !(lookup_spec(
                self.properties@,
                named("?mat.name"@),
            ) matches Some(MaterialPropertyData::String(_))),
    {
        let key = MaterialPropertyKey::from("?mat.name");
        match self.find(&key) {
            None => None,
            Some(i) => match &self.properties[i].data {
                Ok(MaterialPropertyData::String(s)) => Some(s.clone()),
                _ => None,
            },
        }
    }
}


/// The filename prefix that names an embedded texture by its index.
pub const EMBEDDED_TEXNAME_PREFIX: char = '*';

/// A path separator.
pub open spec fn is_sep(c: char) -> bool {
    c == '/'
}

/// The text after the last separator of `s`.
pub open spec fn last_component(s: Seq<char>) -> Seq<char>
    decreases s.len(),
{
    if s.len() == 0 {
        s
    } else if is_sep(s.last()) {
        Seq::empty()
    } else {
        last_component(s.drop_last()).push(s.last())
    }
}

/// `s` without its trailing separators and trailing `.` components.
pub open spec fn trim_tail(s: Seq<char>) -> Seq<char>
    decreases s.len(),
{
    if s.len() == 0 {
        s
    } else if is_sep(s.last()) {
        trim_tail(s.drop_last())
    } else if s.last() == '.' && (s.len() == 1 || is_sep(s[s.len() - 2])) {
        trim_tail(s.drop_last())
    } else {
        s
    }
}

/// The base name of a path: its last component once trailing separators
/// and `.` components are dropped; none when that leaves no component or
/// the last one is `..`.
pub open spec fn base_name(s: Seq<char>) -> Option<Seq<char>> {
    let c = last_component(trim_tail(s));
    if c.len() == 0 || c == seq!['.', '.'] {
        None
    } else {
        Some(c)
    }
}

/// A decimal digit.
pub open spec fn is_digit(c: char) -> bool {
    '0' <= c <= '9'
}

/// The value of a string of decimal digits.
pub open spec fn decimal_value(s: Seq<char>) -> nat
    decreases s.len(),
{
    if s.len() == 0 {
        0
    } else {
        decimal_value(s.drop_last()) * 10 + (s.last() as u32 - '0' as u32) as nat
    }
}

/// The index of the first name from `i` on whose base name is `b`.
pub open spec fn first_with_base(names: Seq<Seq<char>>, b: Seq<char>, i: int) -> Option<int>
    decreases names.len() - i,
{
    if i < 0 || i >= names.len() {
        None
    } else if base_name(names[i]) == Some(b) {
        Some(i)
    } else {
        first_with_base(names, b, i + 1)
    }
}

/// The characters of `name` after the embedded-texture prefix.
pub open spec fn index_digits(name: Seq<char>) -> Seq<char> {
    name.subrange(1, name.len() as int)
}

/// `name` is the embedded-texture prefix followed by a decimal index.
pub open spec fn is_index_name(name: Seq<char>) -> bool {
    &&& name.len() > 1
    &&& name[0] == EMBEDDED_TEXNAME_PREFIX
    &&& forall|i: int| 0 <= i < index_digits(name).len() ==> is_digit(#[trigger] index_digits(name)[i])
}

/// The embedded texture a slot's filename names, given the filenames of the
/// scene's embedded textures: for `*` followed by a decimal index, the
/// texture at that index if there is one; for any other filename, the first
/// texture whose base name equals the filename's.
pub open spec fn embedded_index(name: Seq<char>, tex_names: Seq<Seq<char>>) -> Option<int> {
    if is_index_name(name) {
        if decimal_value(index_digits(name)) < tex_names.len() {
            Some(decimal_value(index_digits(name)) as int)
        } else {
            None
        }
    } else {
        match base_name(name) {
            None => None,
            Some(b) => first_with_base(tex_names, b, 0),
        }
    }
}

/// The filenames of the embedded textures.
pub open spec fn tex_names(textures: Seq<RawTexture>) -> Seq<Seq<char>> {
    textures.map_values(|t: RawTexture| t.filename@)
}

/// The characters of a string, in order.
fn chars_of(s: &String) -> (r: Vec<char>)
    ensures
        r@ == s@,
{
    let st = s.as_str();
    let n = st.unicode_len();
    let mut out: Vec<char> = Vec::new();
    let mut i: usize = 0;
    while i < n
        invariant
            st@ == s@,
            n == st@.len(),
            i <= n,
            out@ == st@.subrange(0, i as int),
        decreases n - i,
    {
        out.push(st.get_char(i));
        i += 1;
        proof {
            assert(out@ =~= st@.subrange(0, i as int));
        }
    }
    proof {
        assert(out@ =~= s@);
    }
    out
}

/// Whether the characters of `s` from `from` on are one or more decimal
/// digits.
fn digits_from(s: &Vec<char>, from: usize) -> (r: bool)
    requires
        from <= s@.len(),
    ensures
        r == (s@.len() > from && forall|i: int|
            0 <= i < s@.subrange(from as int, s@.len() as int).len() ==> is_digit(
                #[trigger] s@.subrange(from as int, s@.len() as int)[i],
            )),
{
    let ghost d = s@.subrange(from as int, s@.len() as int);
    if s.len() == from {
        return false;
    }
    let mut i = from;
    while i < s.len()
        invariant
            from <= i <= s@.len(),
            d == s@.subrange(from as int, s@.len() as int),
            forall|j: int| 0 <= j < i - from ==> is_digit(#[trigger] d[j]),
        decreases s@.len() - i,
    {
        if !('0' <= s[i] && s[i] <= '9') {
            proof {
                assert(d[i - from] == s@[i as int]);
                assert(!is_digit(d[i - from]));
            }
            return false;
        }
        proof {
            assert(d[i - from] == s@[i as int]);
        }
        i += 1;
    }
    true
}

/// The length of the prefix of `s` that trimming its tail leaves.
fn trimmed_len(s: &Vec<char>) -> (end: usize)
    ensures
        end <= s@.len(),
        trim_tail(s@) == s@.subrange(0, end as int),
{
    let n = s.len();
    let mut end = n;
    proof {
        assert(s@.subrange(0, n as int) =~= s@);
    }
    while end > 0 && (s[end - 1] == '/' || (s[end - 1] == '.' && (end == 1 || s[end - 2] == '/')))
        invariant
            end <= n == s@.len(),
            trim_tail(s@) == trim_tail(s@.subrange(0, end as int)),
        decreases end,
    {
        proof {
            let pre = s@.subrange(0, end as int);
            assert(pre.drop_last() =~= s@.subrange(0, end - 1));
            assert(pre.last() == s@[end - 1]);
            if end >= 2 {
                assert(pre[pre.len() - 2] == s@[end - 2]);
            }
        }
        end -= 1;
    }
    proof {
        let t = s@.subrange(0, end as int);
        if end > 0 {
            assert(t.last() == s@[end - 1]);
            if end >= 2 {
                assert(t[t.len() - 2] == s@[end - 2]);
            }
        }
        assert(trim_tail(t) == t);
    }
    end
}

/// Where the last component of the first `end` characters of `s` starts.
fn component_start(s: &Vec<char>, end: usize) -> (i: usize)
    requires
        end <= s@.len(),
    ensures
        i <= end,
        last_component(s@.subrange(0, end as int)) == s@.subrange(i as int, end as int),
{
    let ghost t = s@.subrange(0, end as int);
    let mut i = end;
    proof {
        assert(t.subrange(end as int, end as int).len() == 0);
        assert(t.subrange(0, end as int) =~= t);
        assert(last_component(t) =~= last_component(t.subrange(0, end as int)) + t.subrange(
            end as int,
            end as int,
        ));
    }
    while i > 0 && s[i - 1] != '/'
        invariant
            i <= end <= s@.len(),
            t == s@.subrange(0, end as int),
            last_component(t) == last_component(t.subrange(0, i as int)) + t.subrange(
                i as int,
                end as int,
            ),
        decreases i,
    {
        proof {
            let pre = t.subrange(0, i as int);
            assert(pre.drop_last() =~= t.subrange(0, i - 1));
            assert(pre.last() == s@[i - 1]);
            assert(last_component(pre) == last_component(t.subrange(0, i - 1)).push(t[i - 1]));
            assert(last_component(t.subrange(0, i - 1)).push(t[i - 1]) + t.subrange(
                i as int,
                end as int,
            ) =~= last_component(t.subrange(0, i - 1)) + t.subrange(i - 1, end as int));
        }
        i -= 1;
    }
    proof {
        if i > 0 {
            assert(t.subrange(0, i as int).last() == s@[i - 1]);
            assert(is_sep(t.subrange(0, i as int).last()));
        } else {
            assert(t.subrange(0, 0).len() == 0);
        }
        assert(t.subrange(i as int, end as int) =~= s@.subrange(i as int, end as int));
    }
    i
}

/// The base name of the path `s`.
pub fn base_name_of(s: &Vec<char>) -> (r: Option<Vec<char>>)
    ensures
        r is Some <==> base_name(s@) is Some,
        r matches Some(b) ==> base_name(s@) == Some(b@),
{
    let end = trimmed_len(s);
    let i = component_start(s, end);
    let mut c: Vec<char> = Vec::new();
    let mut j = i;
    while j < end
        invariant
            i <= j <= end <= s@.len(),
            c@ == s@.subrange(i as int, j as int),
        decreases end - j,
    {
        c.push(s[j]);
        j += 1;
        proof {
            assert(c@ =~= s@.subrange(i as int, j as int));
        }
    }
    proof {
        assert(last_component(trim_tail(s@)) == c@);
    }
    if c.len() == 0 || (c.len() == 2 && c[0] == '.' && c[1] == '.') {
        proof {
            if c.len() == 2 {
                assert(c@ =~= seq!['.', '.']);
            }
        }
        None
    } else {
        proof {
            if c@ == seq!['.', '.'] {
                assert(c@[0] == '.' && c@[1] == '.');
            }
        }
        Some(c)
    }
}

fn same_chars(a: &Vec<char>, b: &Vec<char>) -> (r: bool)
    ensures
        r == (a@ == b@),
{
    if a.len() != b.len() {
        return false;
    }
    let mut i: usize = 0;
    while i < a.len()
        invariant
            a@.len() == b@.len(),
            i <= a@.len(),
            forall|j: int| 0 <= j < i ==> a@[j] == b@[j],
        decreases a@.len() - i,
    {
        if a[i] != b[i] {
            return false;
        }
        i += 1;
    }
    proof {
        assert(a@ =~= b@);
    }
    true
}

/// The value of the decimal digits of `s` from `from` on, if they are all
/// digits, there is at least one, and the value is below `bound`.
pub fn parse_index(s: &Vec<char>, from: usize, bound: usize) -> (r: Option<usize>)
    requires
        from <= s.len(),
    ensures
        ({
            let d = s@.subrange(from as int, s@.len() as int);
            match r {
                Some(v) => d.len() > 0 && (forall|i: int| 0 <= i < d.len() ==> is_digit(#[trigger] d[i]))
                    && decimal_value(d) == v && v < bound,
                None => !(d.len() > 0 && (forall|i: int| 0 <= i < d.len() ==> is_digit(#[trigger] d[i]))
                    && decimal_value(d) < bound),
            }
        }),
{
    let n = s.len();
    let ghost d = s@.subrange(from as int, n as int);
    if from == n {
        return None;
    }
    let mut acc: u128 = 0;
    let mut i = from;
    while i < n
        invariant
            from <= i <= n == s@.len(),
            d == s@.subrange(from as int, n as int),
            forall|j: int| from <= j < i ==> is_digit(#[trigger] s@[j]),
            acc == if decimal_value(s@.subrange(from as int, i as int)) < bound {
                decimal_value(s@.subrange(from as int, i as int)) as int
            } else {
                bound as int
            },
        decreases n - i,
    {
        let c = s[i];
        if !('0' <= c && c <= '9') {
            proof {
                assert(d[i - from] == c);
            }
            return None;
        }
        let digit = (c as u32 - '0' as u32) as u128;
        proof {
            let pre = s@.subrange(from as int, i as int);
            let next = s@.subrange(from as int, i + 1);
            assert(next.drop_last() =~= pre);
            assert(decimal_value(next) == decimal_value(pre) * 10 + digit);
            if decimal_value(pre) >= bound {
                assert(decimal_value(pre) * 10 + digit >= decimal_value(pre)) by (nonlinear_arith);
            }
        }
        if acc < bound as u128 {
            acc = acc * 10 + digit;
            if acc > bound as u128 {
                acc = bound as u128;
            }
        }
        i += 1;
    }
    proof {
        assert(s@.subrange(from as int, n as int) == d);
        assert forall|j: int| 0 <= j < d.len() implies is_digit(#[trigger] d[j]) by {
            assert(d[j] == s@[from + j]);
        }
    }
    if acc < bound as u128 {
        Some(acc as usize)
    } else {
        None
    }
}

/// The index of the embedded texture that a slot's filename names, if any.
pub fn get_embedded_texture(file_name: &String, textures: &RawArray<RawTexture>) -> (r: Option<usize>)
    requires
        textures.wf(),
    ensures
        match r {
            Some(i) => embedded_index(file_name@, tex_names(textures.elems())) == Some(i as int),
            None => embedded_index(file_name@, tex_names(textures.elems())) is None,
        },
{
    let name = chars_of(file_name);
    let ghost names = tex_names(textures.elems());
    if name.len() > 1 && name[0] == EMBEDDED_TEXNAME_PREFIX && digits_from(&name, 1) {
        let r = parse_index(&name, 1, raw_len(textures));
        proof {
            assert(name@ == file_name@);
            assert(is_index_name(file_name@));
        }
        return r;
    }
    proof {
        assert(name@ == file_name@);
        assert(!is_index_name(file_name@));
    }
    let b = match base_name_of(&name) {
        None => {
            return None;
        },
        Some(b) => b,
    };
    let n = raw_len(textures);
    let mut k: usize = 0;
    while k < n
        invariant
            n == textures.elems().len(),
            textures.wf(),
            k <= n,
            names == tex_names(textures.elems()),
            base_name(file_name@) == Some(b@),
            !is_index_name(file_name@),
            first_with_base(names, b@, 0) == first_with_base(names, b@, k as int),
        decreases n - k,
    {
        let t = chars_of(&raw_at(textures, k).filename);
        proof {
            assert(names[k as int] == t@);
        }
        match base_name_of(&t) {
            Some(tb) => {
                if same_chars(&tb, &b) {
                    proof {
                        assert(base_name(names[k as int]) == Some(b@));
                        assert(first_with_base(names, b@, k as int) == Some(k as int));
                        assert(embedded_index(file_name@, names) == Some(k as int));
                    }
                    return Some(k);
                }
            },
            None => {},
        }
        k += 1;
    }
    None
}


/// The slots of a material's entries, in order, each with its usage type.
pub open spec fn slot_pairs(entries: Seq<RawTextureSlots>) -> Seq<
    (TextureType, Option<TextureComponent>),
>
    decreases entries.len(),
{
    if entries.len() == 0 {
        Seq::empty()
    } else {
        let e = entries.last();
        slot_pairs(entries.drop_last()) + Seq::new(
            e.slots@.len(),
            |k: int| (e.texture_type, e.slots@[k]),
        )
    }
}

/// The importer's replies for the slots of usage type `t`, in order.
pub open spec fn slots_of(
    pairs: Seq<(TextureType, Option<TextureComponent>)>,
    t: TextureType,
) -> Seq<Option<TextureComponent>>
    decreases pairs.len(),
{
    if pairs.len() == 0 {
        Seq::empty()
    } else {
        let rest = slots_of(pairs.drop_last(), t);
        if pairs.last().0 == t {
            rest.push(pairs.last().1)
        } else {
            rest
        }
    }
}

/// `m` is the slot `c` resolved against the embedded textures' filenames:
/// the embedded texture its filename names, else the external file it
/// names.
pub open spec fn texture_resolved(c: TextureComponent, names: Seq<Seq<char>>, m: MaterialTexture) -> bool {
    &&& component_copied(c, m.slot)
    &&& match embedded_index(c.path@, names) {
        Some(i) => m.source == TextureSource::Embedded(i as usize),
        None => m.source matches TextureSource::External(f) && f@ == c.path@,
    }
}

/// `r` is the importer's reply for one slot, resolved: the slot's texture,
/// or `TextureNotFound` where the importer reported failure.
pub open spec fn reply_resolved(
    reply: Option<TextureComponent>,
    names: Seq<Seq<char>>,
    r: Russult<MaterialTexture>,
) -> bool {
    match reply {
        None => r matches Err(RussimpError::TextureNotFound),
        Some(c) => r matches Ok(m) && texture_resolved(c, names, m),
    }
}

/// `r` holds, for one usage type, each of its slots' replies resolved.
pub open spec fn slots_resolved(
    slots: Seq<Option<TextureComponent>>,
    names: Seq<Seq<char>>,
    r: Seq<Russult<MaterialTexture>>,
) -> bool {
    &&& r.len() == slots.len()
    &&& forall|j: int| 0 <= j < r.len() ==> reply_resolved(slots[j], names, #[trigger] r[j])
}

/// A slot resolved against the scene's embedded textures.
pub fn resolve_slot(c: &TextureComponent, textures: &RawArray<RawTexture>) -> (r: MaterialTexture)
    requires
        textures.wf(),
    ensures
        texture_resolved(*c, tex_names(textures.elems()), r),
{
    let slot = c.copy();
    let source = match get_embedded_texture(&c.path, textures) {
        Some(i) => TextureSource::Embedded(i),
        None => TextureSource::External(c.path.clone()),
    };
    MaterialTexture { slot, source }
}

/// The texture slots of each usage type of a material, by the type's
/// position, each resolved; a slot the importer failed to report is kept as
/// `TextureNotFound`.
pub fn resolve_textures(entries: &Vec<RawTextureSlots>, textures: &RawArray<RawTexture>) -> (r: Vec<
    Vec<Russult<MaterialTexture>>,
>)
    requires
        textures.wf(),
    ensures
        r@.len() == TEXTURE_TYPE_COUNT,
        forall|t: TextureType|
            slots_resolved(
                slots_of(slot_pairs(entries@), t),
                tex_names(textures.elems()),
                (#[trigger] r@[t.position() as int])@,
            ),
{
    let ghost names = tex_names(textures.elems());
    let mut out: Vec<Vec<Russult<MaterialTexture>>> = Vec::new();
    let mut p: usize = 0;
    while p < TEXTURE_TYPE_COUNT
        invariant
            p <= TEXTURE_TYPE_COUNT,
            out@.len() == p,
            forall|q: int| 0 <= q < p ==> (#[trigger] out@[q])@.len() == 0,
        decreases TEXTURE_TYPE_COUNT - p,
    {
        out.push(Vec::new());
        p += 1;
    }
    proof {
        assert forall|t: TextureType|
            slots_resolved(
                slots_of(slot_pairs(entries@.subrange(0, 0)), t),
                names,
                (#[trigger] out@[t.position() as int])@,
            ) by {
            assert(entries@.subrange(0, 0).len() == 0);
        }
    }
    let mut e: usize = 0;
    while e < entries.len()
        invariant
            e <= entries@.len(),
            names == tex_names(textures.elems()),
            textures.wf(),
            out@.len() == TEXTURE_TYPE_COUNT,
            forall|t: TextureType|
                slots_resolved(
                    slots_of(slot_pairs(entries@.subrange(0, e as int)), t),
                    names,
                    (#[trigger] out@[t.position() as int])@,
                ),
        decreases entries@.len() - e,
    {
        let entry = &entries[e];
        let tt = entry.texture_type;
        let ghost base = slot_pairs(entries@.subrange(0, e as int));
        let mut k: usize = 0;
        while k < entry.slots.len()
            invariant
                e < entries@.len(),
                *entry == entries@[e as int],
                tt == entry.texture_type,
                k <= entry.slots@.len(),
                names == tex_names(textures.elems()),
                textures.wf(),
                out@.len() == TEXTURE_TYPE_COUNT,
                base == slot_pairs(entries@.subrange(0, e as int)),
                forall|t: TextureType|
                    slots_resolved(
                        slots_of(base + Seq::new(k as nat, |j: int| (tt, entry.slots@[j])), t),
                        names,
                        (#[trigger] out@[t.position() as int])@,
                    ),
            decreases entry.slots@.len() - k,
        {
            let ghost prev = base + Seq::new(k as nat, |j: int| (tt, entry.slots@[j]));
            let ghost next = base + Seq::new((k + 1) as nat, |j: int| (tt, entry.slots@[j]));
            let ghost before = out@;
            proof {
                assert(next.drop_last() =~= prev);
                assert(next.last() == (tt, entry.slots@[k as int]));
            }
            let resolved = match TextureComponent::get_texture(&entry.slots[k]) {
                Err(e) => Err(e),
                Ok(c) => {
                    let m = resolve_slot(&c, textures);
                    proof {
                        assert(texture_resolved(entry.slots@[k as int]->Some_0, names, m));
                    }
                    Ok(m)
                },
            };
            proof {
                assert(reply_resolved(entry.slots@[k as int], names, resolved));
            }
            out[tt.position()].push(resolved);
            proof {
                assert forall|t: TextureType|
                    slots_resolved(
                        slots_of(next, t),
                        names,
                        (#[trigger] out@[t.position() as int])@,
                    ) by {
                    if t != tt {
                        assert(t.position() != tt.position());
                        assert(out@[t.position() as int] == before[t.position() as int]);
                    } else {
                        let r = out@[t.position() as int]@;
                        let sl = slots_of(next, t);
                        assert(sl == slots_of(prev, t).push(entry.slots@[k as int]));
                        assert forall|j: int| 0 <= j < r.len() implies reply_resolved(
                            sl[j],
                            names,
                            #[trigger] r[j],
                        ) by {
                            if j < r.len() - 1 {
                                assert(r[j] == before[t.position() as int]@[j]);
                            }
                        }
                    }
                }
            }
            k += 1;
        }
        proof {
            let sub = entries@.subrange(0, e + 1);
            assert(sub.drop_last() =~= entries@.subrange(0, e as int));
            assert(sub.last() == *entry);
            assert(base + Seq::new(k as nat, |j: int| (tt, entry.slots@[j])) =~= slot_pairs(sub));
        }
        e += 1;
    }
    proof {
        assert(entries@.subrange(0, entries@.len() as int) =~= entries@);
    }
    out
}

/// A property was built from a foreign one.
pub open spec fn property_built(p: RawMaterialProperty, m: MaterialProperty) -> bool {
    &&& m.key.key@ == p.key@
    &&& m.key.index == p.index
    &&& m.key.semantic == TextureType::from_u32_spec(p.semantic)
    &&& property_decoded(p, p.reply, m.data)
}

/// A material was built from a foreign one, given the scene's embedded
/// textures: each property decoded on its own, and each usage type's slots
/// resolved in order.
pub open spec fn material_built(raw: RawMaterial, textures: Seq<RawTexture>, m: Material) -> bool {
    &&& m.properties@.len() == raw.properties.elems().len()
    &&& forall|i: int|
        0 <= i < m.properties@.len() ==> property_built(
            raw.properties.elems()[i],
            #[trigger] m.properties@[i],
        )
    &&& m.textures@.len() == TEXTURE_TYPE_COUNT
    &&& forall|t: TextureType|
        slots_resolved(
            slots_of(slot_pairs(raw.texture_slots@), t),
            tex_names(textures),
            (#[trigger] m.textures@[t.position() as int])@,
        )
}

impl Material {
    /// The material of a foreign one, given the scene's embedded textures.
    pub fn new(raw: &RawMaterial, textures: &RawArray<RawTexture>) -> (r: Material)
        requires
            raw.properties.wf(),
            textures.wf(),
        ensures
            material_built(*raw, textures.elems(), r),
    {
        let properties = get_vec(&raw.properties, |p: &RawMaterialProperty| -> (r: MaterialProperty) ensures property_built(*p, r) { MaterialProperty::new(p) });
        let resolved = resolve_textures(&raw.texture_slots, textures);
        Material { properties, textures: resolved }
    }

    /// The texture slots of usage type `t`.
    pub fn textures_of(&self, t: TextureType) -> (r: &Vec<Russult<MaterialTexture>>)
        requires
            self.textures@.len() == TEXTURE_TYPE_COUNT,
        ensures
            *r == self.textures@[t.position() as int],
    {
        &self.textures[t.position()]
    }
}

/// The materials of a scene, each built from its foreign material.
pub fn generate_materials(materials: &RawArray<RawMaterial>, textures: &RawArray<RawTexture>) -> (r:
    Vec<Material>)
    requires
        materials.wf(),
        textures.wf(),
        forall|i: int|
            0 <= i < materials.elems().len() ==> (#[trigger] materials.elems()[i]).properties.wf(),
    ensures
        r@.len() == materials.elems().len(),
        forall|i: int|
            0 <= i < r@.len() ==> material_built(
                materials.elems()[i],
                textures.elems(),
                #[trigger] r@[i],
            ),
{
    let n = raw_len(materials);
    let mut out: Vec<Material> = Vec::new();
    let mut i: usize = 0;
    while i < n
        invariant
            n == materials.elems().len(),
            materials.wf(),
            textures.wf(),
            i <= n,
            out@.len() == i,
            forall|j: int|
                0 <= j < materials.elems().len() ==> (#[trigger] materials.elems()[j]).properties.wf(),
            forall|j: int|
                0 <= j < i ==> material_built(
                    materials.elems()[j],
                    textures.elems(),
                    #[trigger] out@[j],
                ),
        decreases n - i,
    {
        let m = Material::new(raw_at(materials, i), textures);
        out.push(m);
        i += 1;
    }
    out
}

/// Two texture slots, of one material or of two, whose filenames name the
/// same embedded texture resolve to the same index into the scene's
/// textures: they share one texture rather than holding copies.
pub proof fn lemma_shared_embedded_texture(
    raw_a: RawMaterial,
    raw_b: RawMaterial,
    textures: Seq<RawTexture>,
    a: Material,
    b: Material,
    ta: TextureType,
    tb: TextureType,
    ja: int,
    jb: int,
    k: int,
)
    requires
        material_built(raw_a, textures, a),
        material_built(raw_b, textures, b),
        0 <= ja < slots_of(slot_pairs(raw_a.texture_slots@), ta).len(),
        0 <= jb < slots_of(slot_pairs(raw_b.texture_slots@), tb).len(),
        slots_of(slot_pairs(raw_a.texture_slots@), ta)[ja] matches Some(ca) && embedded_index(
            ca.path@,
            tex_names(textures),
        ) == Some(k),
        slots_of(slot_pairs(raw_b.texture_slots@), tb)[jb] matches Some(cb) && embedded_index(
            cb.path@,
            tex_names(textures),
        ) == Some(k),
    ensures
        a.textures@[ta.position() as int]@[ja] matches Ok(ma) && ma.source == TextureSource::Embedded(
            k as usize,
        ),
        b.textures@[tb.position() as int]@[jb] matches Ok(mb) && mb.source == TextureSource::Embedded(
            k as usize,
        ),
{
    let ra = a.textures@[ta.position() as int]@;
    let rb = b.textures@[tb.position() as int]@;
    assert(slots_resolved(slots_of(slot_pairs(raw_a.texture_slots@), ta), tex_names(textures), ra));
    assert(slots_resolved(slots_of(slot_pairs(raw_b.texture_slots@), tb), tex_names(textures), rb));
    assert(reply_resolved(slots_of(slot_pairs(raw_a.texture_slots@), ta)[ja], tex_names(textures), ra[ja]));
    assert(reply_resolved(slots_of(slot_pairs(raw_b.texture_slots@), tb)[jb], tex_names(textures), rb[jb]));
}

/// `r` is the value stored under `k` read as `T`, or the type's zero.
pub open spec fn lookup_or_zero<T: PropertyValue>(props: Seq<MaterialProperty>, k: KeyView, r: T) -> bool {
    match lookup_spec(props, k) {
        Some(d) => match T::value_of(d) {
            Some(v) => r == v,
            None => T::is_zero(r),
        },
        None => T::is_zero(r),
    }
}

/// The integer stored under `k` as an unsigned code, if any.
pub open spec fn code_of(props: Seq<MaterialProperty>, k: KeyView) -> Option<u32> {
    match lookup_spec(props, k) {
        Some(d) => match <i32 as PropertyValue>::value_of(d) {
            Some(v) => Some(v as u32),
            None => None,
        },
        None => None,
    }
}

/// The default shading mode (Gouraud).
pub const SHADING_GOURAUD: u32 = 2;

/// The default blend mode.
pub const BLEND_DEFAULT: u32 = 0;

impl Material {
    /// The diffuse color; zero when absent.
    pub fn color_diffuse(&self) -> (r: Color4D)
        ensures
            lookup_or_zero::<Color4D>(self.properties@, named("$clr.diffuse"@), r),
    {
        self.try_lookup_default(&MaterialPropertyKey::from("$clr.diffuse"))
    }

    /// The ambient color; zero when absent.
    pub fn color_ambient(&self) -> (r: Color4D)
        ensures
            lookup_or_zero::<Color4D>(self.properties@, named("$clr.ambient"@), r),
    {
        self.try_lookup_default(&MaterialPropertyKey::from("$clr.ambient"))
    }

    /// The specular color; zero when absent.
    pub fn color_specular(&self) -> (r: Color4D)
        ensures
            lookup_or_zero::<Color4D>(self.properties@, named("$clr.specular"@), r),
    {
        self.try_lookup_default(&MaterialPropertyKey::from("$clr.specular"))
    }

    /// The emissive color; zero when absent.
    pub fn color_emissive(&self) -> (r: Color4D)
        ensures
            lookup_or_zero::<Color4D>(self.properties@, named("$clr.emissive"@), r),
    {
        self.try_lookup_default(&MaterialPropertyKey::from("$clr.emissive"))
    }

    /// The transparent color; zero when absent.
    pub fn color_transparent(&self) -> (r: Color4D)
        ensures
            lookup_or_zero::<Color4D>(self.properties@, named("$clr.transparent"@), r),
    {
        self.try_lookup_default(&MaterialPropertyKey::from("$clr.transparent"))
    }

    /// The reflective color; zero when absent.
    pub fn color_reflective(&self) -> (r: Color4D)
        ensures
            lookup_or_zero::<Color4D>(self.properties@, named("$clr.reflective"@), r),
    {
        self.try_lookup_default(&MaterialPropertyKey::from("$clr.reflective"))
    }

    /// Whether the material is drawn as wireframe; false when absent.
    pub fn is_wireframe(&self) -> (r: bool)
        ensures
            lookup_or_zero::<bool>(self.properties@, named("$mat.wireframe"@), r),
    {
        self.try_lookup_default(&MaterialPropertyKey::from("$mat.wireframe"))
    }

    /// Whether the material is two-sided; false when absent.
    pub fn is_two_sided(&self) -> (r: bool)
        ensures
            lookup_or_zero::<bool>(self.properties@, named("$mat.twosided"@), r),
    {
        self.try_lookup_default(&MaterialPropertyKey::from("$mat.twosided"))
    }

    /// Whether the base color map is used; false when absent.
    pub fn use_color_map(&self) -> (r: bool)
        ensures
            lookup_or_zero::<bool>(self.properties@, named("$mat.useColorMap"@), r),
    {
        self.try_lookup_default(&MaterialPropertyKey::from("$mat.useColorMap"))
    }

    /// The base color; zero when absent.
    pub fn base_color(&self) -> (r: Color4D)
        ensures
            lookup_or_zero::<Color4D>(self.properties@, named("$clr.base"@), r),
    {
        self.try_lookup_default(&MaterialPropertyKey::from("$clr.base"))
    }

    /// Whether the metallic map is used; false when absent.
    pub fn use_metallic_map(&self) -> (r: bool)
        ensures
            lookup_or_zero::<bool>(self.properties@, named("$mat.useMetallicMap"@), r),
    {
        self.try_lookup_default(&MaterialPropertyKey::from("$mat.useMetallicMap"))
    }

    /// The metallic factor; zero when absent.
    pub fn metallic_factor(&self) -> (r: Bits32)
        ensures
            lookup_or_zero::<Bits32>(self.properties@, named("$mat.metallicFactor"@), r),
    {
        self.try_lookup_default(&MaterialPropertyKey::from("$mat.metallicFactor"))
    }

    /// Whether the roughness map is used; false when absent.
    pub fn use_roughness_map(&self) -> (r: bool)
        ensures
            lookup_or_zero::<bool>(self.properties@, named("$mat.useRoughnessMap"@), r),
    {
        self.try_lookup_default(&MaterialPropertyKey::from("$mat.useRoughnessMap"))
    }

    /// The roughness factor; zero when absent.
    pub fn roughness_factor(&self) -> (r: Bits32)
        ensures
            lookup_or_zero::<Bits32>(self.properties@, named("$mat.roughnessFactor"@), r),
    {
        self.try_lookup_default(&MaterialPropertyKey::from("$mat.roughnessFactor"))
    }

    /// The integer stored under `key` as an unsigned code.
    pub fn code(&self, key: &MaterialPropertyKey) -> (r: Option<u32>)
        ensures
            r == code_of(self.properties@, key_view(*key)),
    {
        match self.try_lookup::<i32>(key) {
            Some(v) => Some(v as u32),
            None => None,
        }
    }

    /// The shading mode; Gouraud when absent.
    pub fn shading_mode(&self) -> (r: u32)
        ensures
            r == (match code_of(self.properties@, named("$mat.shadingm"@)) {
                Some(v) => v,
                None => SHADING_GOURAUD,
            }),
    {
        match self.code(&MaterialPropertyKey::from("$mat.shadingm")) {
            Some(v) => v,
            None => SHADING_GOURAUD,
        }
    }

    /// The blend mode; the default mode when absent.
    pub fn blend_func(&self) -> (r: u32)
        ensures
            r == (match code_of(self.properties@, named("$mat.blend"@)) {
                Some(v) => v,
                None => BLEND_DEFAULT,
            }),
    {
        match self.code(&MaterialPropertyKey::from("$mat.blend")) {
            Some(v) => v,
            None => BLEND_DEFAULT,
        }
    }

    /// The operation combining the texture at `index` of usage `semantic`.
    pub fn texture_op(&self, index: usize, semantic: TextureType) -> (r: Option<u32>)
        ensures
            r == code_of(self.properties@, ("$tex.op"@, index, semantic)),
    {
        let key = MaterialPropertyKey { key: "$tex.op".to_owned(), index, semantic };
        self.code(&key)
    }
}

} // verus!
