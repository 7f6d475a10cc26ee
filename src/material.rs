use vstd::prelude::*;
use fxhash::{FxHashMap, FxHasher};
use std::hash::BuildHasherDefault;
use crate::terrain::copy_vec;

verus! {

#[verifier::external_type_specification]
#[verifier::external_body]
pub struct ExFxHasher(FxHasher);

#[verifier::external_type_specification]
#[verifier::external_body]
#[verifier::reject_recursive_types(H)]
pub struct ExBuildHasherDefault<H>(BuildHasherDefault<H>);

/// Property names mapped to the positions of their values.
pub type NameIndex = FxHashMap<String, usize>;

/// What a name index holds: each property name and the position of its value.
pub uninterp spec fn index_contents(m: NameIndex) -> Map<Seq<char>, usize>;

/// Relies on `FxHashMap::default` (std's `HashMap` with fxhash's hasher): a new map is
/// empty.
#[verifier::external_body]
fn index_new() -> (r: NameIndex)
    ensures
        forall|k: Seq<char>| !(#[trigger] index_contents(r).contains_key(k)),
{
    FxHashMap::default()
}

/// Relies on `HashMap::get` of an `FxHashMap`: the position stored under `name`, if any.
#[verifier::external_body]
fn index_get(m: &NameIndex, name: &str) -> (r: Option<usize>)
    ensures
        index_contents(*m).contains_key(name@) ==> r == Some(index_contents(*m)[name@]),
        !index_contents(*m).contains_key(name@) ==> r is None,
{
    m.get(name).copied()
}

/// Relies on `HashMap::insert` of an `FxHashMap`: `name` now maps to `i`, other names
/// keep their positions.
#[verifier::external_body]
fn index_insert(m: &mut NameIndex, name: String, i: usize)
    ensures
        index_contents(*final(m)) == index_contents(*old(m)).insert(name@, i),
{
    m.insert(name, i);
}

/// An sRGB color with 8-bit channels.
#[derive(Clone, Copy, Debug, PartialEq, Eq, Hash, Structural)]
pub struct Color {
    pub r: u8,
    pub g: u8,
    pub b: u8,
    pub a: u8,
}

/// What a sampler reads when it has no texture.
#[derive(Clone, Copy, Debug, PartialEq, Eq, Hash, Structural)]
pub enum SamplerFallback {
    White,
    Normal,
    Black,
}

/// A value of a material property, passed to the shader.
#[derive(Clone, Debug, PartialEq)]
pub enum PropertyValue<R, T> {
    /// Real number.
    Float(R),
    /// Real number array.
    FloatArray(Vec<R>),
    /// Integer number.
    Int(i32),
    /// Integer number array.
    IntArray(Vec<i32>),
    /// Natural number.
    UInt(u32),
    /// Natural number array.
    UIntArray(Vec<u32>),
    /// Two-dimensional vector.
    Vector2([R; 2]),
    /// Two-dimensional vector array.
    Vector2Array(Vec<[R; 2]>),
    /// Three-dimensional vector.
    Vector3([R; 3]),
    /// Three-dimensional vector array.
    Vector3Array(Vec<[R; 3]>),
    /// Four-dimensional vector.
    Vector4([R; 4]),
    /// Four-dimensional vector array.
    Vector4Array(Vec<[R; 4]>),
    /// 2x2 matrix, column by column.
    Matrix2([R; 4]),
    /// 2x2 matrix array.
    Matrix2Array(Vec<[R; 4]>),
    /// 3x3 matrix, column by column.
    Matrix3([R; 9]),
    /// 3x3 matrix array.
    Matrix3Array(Vec<[R; 9]>),
    /// 4x4 matrix, column by column.
    Matrix4([R; 16]),
    /// 4x4 matrix array.
    Matrix4Array(Vec<[R; 16]>),
    /// Boolean value.
    Bool(bool),
    /// An sRGB color.
    Color(Color),
    /// A texture, with the value a sampler reads when there is none.
    Sampler {
        /// The texture, if any.
        value: Option<T>,
        /// What the sampler reads without a texture.
        fallback: SamplerFallback,
    },
}

/// The type and default value of a property, as a shader declares it.
#[derive(Clone, Debug, PartialEq)]
pub enum PropertyKind<R> {
    /// Real number.
    Float(R),
    /// Real number array.
    FloatArray(Vec<R>),
    /// Integer number.
    Int(i32),
    /// Integer number array.
    IntArray(Vec<i32>),
    /// Natural number.
    UInt(u32),
    /// Natural number array.
    UIntArray(Vec<u32>),
    /// Two-dimensional vector.
    Vector2([R; 2]),
    /// Two-dimensional vector array.
    Vector2Array(Vec<[R; 2]>),
    /// Three-dimensional vector.
    Vector3([R; 3]),
    /// Three-dimensional vector array.
    Vector3Array(Vec<[R; 3]>),
    /// Four-dimensional vector.
    Vector4([R; 4]),
    /// Four-dimensional vector array.
    Vector4Array(Vec<[R; 4]>),
    /// 2x2 matrix, column by column.
    Matrix2([R; 4]),
    /// 2x2 matrix array.
    Matrix2Array(Vec<[R; 4]>),
    /// 3x3 matrix, column by column.
    Matrix3([R; 9]),
    /// 3x3 matrix array.
    Matrix3Array(Vec<[R; 9]>),
    /// 4x4 matrix, column by column.
    Matrix4([R; 16]),
    /// 4x4 matrix array.
    Matrix4Array(Vec<[R; 16]>),
    /// Boolean value.
    Bool(bool),
    /// An sRGB color. given by its channels.
    Color { r: u8, g: u8, b: u8, a: u8 },
    /// A texture: the path of the default one, if any, and the fallback.
    Sampler { default: Option<String>, fallback: SamplerFallback },
}

impl<R, T> PropertyValue<R, T> {
    /// `self` and `other` are values of the same property type.
    pub open spec fn spec_same_kind(&self, other: &Self) -> bool {
        match (self, other) {
            (PropertyValue::Float(_), PropertyValue::Float(_)) => true,
            (PropertyValue::FloatArray(_), PropertyValue::FloatArray(_)) => true,
            (PropertyValue::Int(_), PropertyValue::Int(_)) => true,
            (PropertyValue::IntArray(_), PropertyValue::IntArray(_)) => true,
            (PropertyValue::UInt(_), PropertyValue::UInt(_)) => true,
            (PropertyValue::UIntArray(_), PropertyValue::UIntArray(_)) => true,
            (PropertyValue::Vector2(_), PropertyValue::Vector2(_)) => true,
            (PropertyValue::Vector2Array(_), PropertyValue::Vector2Array(_)) => true,
            (PropertyValue::Vector3(_), PropertyValue::Vector3(_)) => true,
            (PropertyValue::Vector3Array(_), PropertyValue::Vector3Array(_)) => true,
            (PropertyValue::Vector4(_), PropertyValue::Vector4(_)) => true,
            (PropertyValue::Vector4Array(_), PropertyValue::Vector4Array(_)) => true,
            (PropertyValue::Matrix2(_), PropertyValue::Matrix2(_)) => true,
            (PropertyValue::Matrix2Array(_), PropertyValue::Matrix2Array(_)) => true,
            (PropertyValue::Matrix3(_), PropertyValue::Matrix3(_)) => true,
            (PropertyValue::Matrix3Array(_), PropertyValue::Matrix3Array(_)) => true,
            (PropertyValue::Matrix4(_), PropertyValue::Matrix4(_)) => true,
            (PropertyValue::Matrix4Array(_), PropertyValue::Matrix4Array(_)) => true,
            (PropertyValue::Bool(_), PropertyValue::Bool(_)) => true,
            (PropertyValue::Color(_), PropertyValue::Color(_)) => true,
            (PropertyValue::Sampler { .. }, PropertyValue::Sampler { .. }) => true,
            _ => false,
        }
    }

    /// `self` and `other` are values of the same type holding the same numbers (arrays
    /// element for element); never true of samplers.
    pub open spec fn spec_equal_numbers(&self, other: Self) -> bool {
        match (self, other) {
            (PropertyValue::Float(a), PropertyValue::Float(b)) => a == b,
            (PropertyValue::FloatArray(a), PropertyValue::FloatArray(b)) => a@ == b@,
            (PropertyValue::Int(a), PropertyValue::Int(b)) => a == b,
            (PropertyValue::IntArray(a), PropertyValue::IntArray(b)) => a@ == b@,
            (PropertyValue::UInt(a), PropertyValue::UInt(b)) => a == b,
            (PropertyValue::UIntArray(a), PropertyValue::UIntArray(b)) => a@ == b@,
            (PropertyValue::Vector2(a), PropertyValue::Vector2(b)) => a == b,
            (PropertyValue::Vector2Array(a), PropertyValue::Vector2Array(b)) => a@ == b@,
            (PropertyValue::Vector3(a), PropertyValue::Vector3(b)) => a == b,
            (PropertyValue::Vector3Array(a), PropertyValue::Vector3Array(b)) => a@ == b@,
            (PropertyValue::Vector4(a), PropertyValue::Vector4(b)) => a == b,
            (PropertyValue::Vector4Array(a), PropertyValue::Vector4Array(b)) => a@ == b@,
            (PropertyValue::Matrix2(a), PropertyValue::Matrix2(b)) => a == b,
            (PropertyValue::Matrix2Array(a), PropertyValue::Matrix2Array(b)) => a@ == b@,
            (PropertyValue::Matrix3(a), PropertyValue::Matrix3(b)) => a == b,
            (PropertyValue::Matrix3Array(a), PropertyValue::Matrix3Array(b)) => a@ == b@,
            (PropertyValue::Matrix4(a), PropertyValue::Matrix4(b)) => a == b,
            (PropertyValue::Matrix4Array(a), PropertyValue::Matrix4Array(b)) => a@ == b@,
            (PropertyValue::Bool(a), PropertyValue::Bool(b)) => a == b,
            (PropertyValue::Color(a), PropertyValue::Color(b)) => a == b,
            _ => false,
        }
    }

    /// `self` and `other` are values of the same property type.
    #[verifier::when_used_as_spec(spec_same_kind)]
    pub fn same_kind(&self, other: &Self) -> (r: bool)
        ensures
            r == self.spec_same_kind(other),
    {
        match (self, other) {
            (PropertyValue::Float(_), PropertyValue::Float(_)) => true,
            (PropertyValue::FloatArray(_), PropertyValue::FloatArray(_)) => true,
            (PropertyValue::Int(_), PropertyValue::Int(_)) => true,
            (PropertyValue::IntArray(_), PropertyValue::IntArray(_)) => true,
            (PropertyValue::UInt(_), PropertyValue::UInt(_)) => true,
            (PropertyValue::UIntArray(_), PropertyValue::UIntArray(_)) => true,
            (PropertyValue::Vector2(_), PropertyValue::Vector2(_)) => true,
            (PropertyValue::Vector2Array(_), PropertyValue::Vector2Array(_)) => true,
            (PropertyValue::Vector3(_), PropertyValue::Vector3(_)) => true,
            (PropertyValue::Vector3Array(_), PropertyValue::Vector3Array(_)) => true,
            (PropertyValue::Vector4(_), PropertyValue::Vector4(_)) => true,
            (PropertyValue::Vector4Array(_), PropertyValue::Vector4Array(_)) => true,
            (PropertyValue::Matrix2(_), PropertyValue::Matrix2(_)) => true,
            (PropertyValue::Matrix2Array(_), PropertyValue::Matrix2Array(_)) => true,
            (PropertyValue::Matrix3(_), PropertyValue::Matrix3(_)) => true,
            (PropertyValue::Matrix3Array(_), PropertyValue::Matrix3Array(_)) => true,
            (PropertyValue::Matrix4(_), PropertyValue::Matrix4(_)) => true,
            (PropertyValue::Matrix4Array(_), PropertyValue::Matrix4Array(_)) => true,
            (PropertyValue::Bool(_), PropertyValue::Bool(_)) => true,
            (PropertyValue::Color(_), PropertyValue::Color(_)) => true,
            (PropertyValue::Sampler { .. }, PropertyValue::Sampler { .. }) => true,
            _ => false,
        }
    }
}

/// `value` is what a property declared with `kind` starts with: the declared default
/// (arrays element for element), and for a sampler with a default path, `texture`, the
/// texture that path resolved to.
pub open spec fn starts_as<R, T>(value: PropertyValue<R, T>, kind: PropertyKind<R>, texture: Option<T>) -> bool {
    match (value, kind) {
        (PropertyValue::Float(x), PropertyKind::Float(y)) => x == y,
        (PropertyValue::FloatArray(x), PropertyKind::FloatArray(y)) => x@ == y@,
        (PropertyValue::Int(x), PropertyKind::Int(y)) => x == y,
        (PropertyValue::IntArray(x), PropertyKind::IntArray(y)) => x@ == y@,
        (PropertyValue::UInt(x), PropertyKind::UInt(y)) => x == y,
        (PropertyValue::UIntArray(x), PropertyKind::UIntArray(y)) => x@ == y@,
        (PropertyValue::Vector2(x), PropertyKind::Vector2(y)) => x == y,
        (PropertyValue::Vector2Array(x), PropertyKind::Vector2Array(y)) => x@ == y@,
        (PropertyValue::Vector3(x), PropertyKind::Vector3(y)) => x == y,
        (PropertyValue::Vector3Array(x), PropertyKind::Vector3Array(y)) => x@ == y@,
        (PropertyValue::Vector4(x), PropertyKind::Vector4(y)) => x == y,
        (PropertyValue::Vector4Array(x), PropertyKind::Vector4Array(y)) => x@ == y@,
        (PropertyValue::Matrix2(x), PropertyKind::Matrix2(y)) => x == y,
        (PropertyValue::Matrix2Array(x), PropertyKind::Matrix2Array(y)) => x@ == y@,
        (PropertyValue::Matrix3(x), PropertyKind::Matrix3(y)) => x == y,
        (PropertyValue::Matrix3Array(x), PropertyKind::Matrix3Array(y)) => x@ == y@,
        (PropertyValue::Matrix4(x), PropertyKind::Matrix4(y)) => x == y,
        (PropertyValue::Matrix4Array(x), PropertyKind::Matrix4Array(y)) => x@ == y@,
        (PropertyValue::Bool(x), PropertyKind::Bool(y)) => x == y,
        (PropertyValue::Color(c), PropertyKind::Color { r, g, b, a }) => c == Color { r, g, b, a },
        (PropertyValue::Sampler { value, fallback }, PropertyKind::Sampler { default, fallback: f }) => {
            &&& fallback == f
            &&& value == if default is Some {
                texture
            } else {
                None
            }
        },
        _ => false,
    }
}

/// The value a property declared with `kind` starts with (see [`starts_as`]).
fn initial_value<R: Copy, T>(kind: &PropertyKind<R>, texture: Option<T>) -> (r: PropertyValue<R, T>)
    ensures
        starts_as(r, *kind, texture),
{
    match kind {
        PropertyKind::Float(x) => PropertyValue::Float(*x),
        PropertyKind::FloatArray(x) => PropertyValue::FloatArray(copy_vec(x)),
        PropertyKind::Int(x) => PropertyValue::Int(*x),
        PropertyKind::IntArray(x) => PropertyValue::IntArray(copy_vec(x)),
        PropertyKind::UInt(x) => PropertyValue::UInt(*x),
        PropertyKind::UIntArray(x) => PropertyValue::UIntArray(copy_vec(x)),
        PropertyKind::Vector2(x) => PropertyValue::Vector2(*x),
        PropertyKind::Vector2Array(x) => PropertyValue::Vector2Array(copy_vec(x)),
        PropertyKind::Vector3(x) => PropertyValue::Vector3(*x),
        PropertyKind::Vector3Array(x) => PropertyValue::Vector3Array(copy_vec(x)),
        PropertyKind::Vector4(x) => PropertyValue::Vector4(*x),
        PropertyKind::Vector4Array(x) => PropertyValue::Vector4Array(copy_vec(x)),
        PropertyKind::Matrix2(x) => PropertyValue::Matrix2(*x),
        PropertyKind::Matrix2Array(x) => PropertyValue::Matrix2Array(copy_vec(x)),
        PropertyKind::Matrix3(x) => PropertyValue::Matrix3(*x),
        PropertyKind::Matrix3Array(x) => PropertyValue::Matrix3Array(copy_vec(x)),
        PropertyKind::Matrix4(x) => PropertyValue::Matrix4(*x),
        PropertyKind::Matrix4Array(x) => PropertyValue::Matrix4Array(copy_vec(x)),
        PropertyKind::Bool(x) => PropertyValue::Bool(*x),
        PropertyKind::Color { r, g, b, a } => PropertyValue::Color(Color { r: *r, g: *g, b: *b, a: *a }),
        PropertyKind::Sampler { default, fallback } => PropertyValue::Sampler {
            value: match default {
                Some(_) => texture,
                None => None,
            },
            fallback: *fallback,
        },
    }
}

impl<R: Copy, T: Clone> PropertyValue<R, T> {
    /// A copy of this value: the same type, with numbers and arrays copied element for
    /// element and the texture cloned.
    pub fn duplicate(&self) -> (r: Self)
        ensures
            r.spec_same_kind(self),
            (self matches PropertyValue::Sampler { .. }) || self.spec_equal_numbers(r),
    {
        match self {
            PropertyValue::Float(x) => PropertyValue::Float(*x),
            PropertyValue::FloatArray(x) => PropertyValue::FloatArray(copy_vec(x)),
            PropertyValue::Int(x) => PropertyValue::Int(*x),
            PropertyValue::IntArray(x) => PropertyValue::IntArray(copy_vec(x)),
            PropertyValue::UInt(x) => PropertyValue::UInt(*x),
            PropertyValue::UIntArray(x) => PropertyValue::UIntArray(copy_vec(x)),
            PropertyValue::Vector2(x) => PropertyValue::Vector2(*x),
            PropertyValue::Vector2Array(x) => PropertyValue::Vector2Array(copy_vec(x)),
            PropertyValue::Vector3(x) => PropertyValue::Vector3(*x),
            PropertyValue::Vector3Array(x) => PropertyValue::Vector3Array(copy_vec(x)),
            PropertyValue::Vector4(x) => PropertyValue::Vector4(*x),
            PropertyValue::Vector4Array(x) => PropertyValue::Vector4Array(copy_vec(x)),
            PropertyValue::Matrix2(x) => PropertyValue::Matrix2(*x),
            PropertyValue::Matrix2Array(x) => PropertyValue::Matrix2Array(copy_vec(x)),
            PropertyValue::Matrix3(x) => PropertyValue::Matrix3(*x),
            PropertyValue::Matrix3Array(x) => PropertyValue::Matrix3Array(copy_vec(x)),
            PropertyValue::Matrix4(x) => PropertyValue::Matrix4(*x),
            PropertyValue::Matrix4Array(x) => PropertyValue::Matrix4Array(copy_vec(x)),
            PropertyValue::Bool(x) => PropertyValue::Bool(*x),
            PropertyValue::Color(x) => PropertyValue::Color(*x),
            PropertyValue::Sampler { value, fallback } => PropertyValue::Sampler {
                value: value.clone(),
                fallback: *fallback,
            },
        }
    }
}

impl<R: Default, T> Default for PropertyValue<R, T> {
    /// A real number of the default (zero) value.
    fn default() -> (r: Self)
        ensures
            r is Float,
    {
        PropertyValue::Float(R::default())
    }
}

impl<R, T: Clone> PropertyValue<R, T> {
    /// The texture of a sampler; `None` for a sampler without one and for other values.
    pub fn as_sampler(&self) -> (r: Option<T>)
        ensures
            r is Some <==> (self matches PropertyValue::Sampler { value: Some(_), .. }),
            self matches PropertyValue::Sampler { value: Some(t), .. } ==> cloned(*t, r->Some_0),
    {
        match self {
            PropertyValue::Sampler { value, .. } => value.clone(),
            _ => None,
        }
    }
}

/// A property that a shader declares: its name, type and default value.
#[derive(Clone, Debug, PartialEq)]
pub struct PropertyDefinition<R> {
    pub name: String,
    pub kind: PropertyKind<R>,
}

/// The part of a shader that materials are built from: the properties it declares.
#[derive(Clone, Debug, PartialEq)]
pub struct Shader<R> {
    pub properties: Vec<PropertyDefinition<R>>,
}

/// Why a material property could not be set.
#[derive(Clone, Debug, PartialEq)]
pub enum MaterialError<R, T> {
    /// The material has no property of that name.
    NoSuchProperty { property_name: String },
    /// The property has another type than the given value.
    TypeMismatch {
        property_name: String,
        expected: PropertyValue<R, T>,
        given: PropertyValue<R, T>,
    },
}

/// For each property name declared in `defs`, the index of its last declaration.
pub open spec fn last_declarations<R>(defs: Seq<PropertyDefinition<R>>) -> Map<Seq<char>, int>
    decreases defs.len(),
{
    if defs.len() == 0 {
        Map::empty()
    } else {
        last_declarations(defs.drop_last()).insert(defs.last().name@, defs.len() - 1)
    }
}

/// The texture resolved for declaration `i`, if one was given.
pub open spec fn texture_at<T>(textures: Seq<Option<T>>, i: int) -> Option<T> {
    if 0 <= i < textures.len() {
        textures[i]
    } else {
        None
    }
}

/// Every name of `names` has its own position below `len`.
pub open spec fn index_well_formed(names: NameIndex, len: nat) -> bool {
    &&& forall|k: Seq<char>|
        #[trigger] index_contents(names).contains_key(k) ==> index_contents(names)[k] < len
    &&& forall|k1: Seq<char>, k2: Seq<char>|
        #[trigger] index_contents(names).contains_key(k1) && #[trigger] index_contents(
            names,
        ).contains_key(k2) && index_contents(names)[k1] == index_contents(names)[k2] ==> k1 == k2
}

/// A property of a material: its name and value.
#[derive(Clone, Debug, PartialEq)]
pub struct MaterialProperty<R, T> {
    pub name: String,
    pub value: PropertyValue<R, T>,
}

/// Each property of `entries` is found under its own name in `names`.
pub open spec fn names_match<R, T>(names: NameIndex, entries: Seq<MaterialProperty<R, T>>) -> bool {
    forall|i: int|
        0 <= i < entries.len() ==> index_contents(names).contains_key((#[trigger] entries[i]).name@)
            && index_contents(names)[entries[i].name@] == i
}

/// A set of values for the properties of a shader.
#[derive(Clone, Debug)]
pub struct Material<R, T> {
    shader: Shader<R>,
    names: NameIndex,
    properties: Vec<MaterialProperty<R, T>>,
}

impl<R, T> View for Material<R, T> {
    type V = Map<Seq<char>, PropertyValue<R, T>>;

    /// Each property name and its value.
    closed spec fn view(&self) -> Map<Seq<char>, PropertyValue<R, T>> {
        Map::new(
            |k: Seq<char>| index_contents(self.names).contains_key(k),
            |k: Seq<char>| self.properties@[index_contents(self.names)[k] as int].value,
        )
    }
}

impl<R: Copy, T: Clone> Material<R, T> {
    /// Every name has its own value.
    pub closed spec fn well_formed(&self) -> bool {
        &&& index_well_formed(self.names, self.properties@.len())
        &&& names_match(self.names, self.properties@)
    }

    /// The shader this material is for.
    pub closed spec fn spec_shader(&self) -> Shader<R> {
        self.shader
    }

    /// A material for `shader` whose properties hold their declared defaults. Samplers
    /// with a default path take their texture from `textures`, at the position of the
    /// declaration. Where a name is declared twice, the last declaration counts.
    pub fn from_shader(shader: Shader<R>, textures: Vec<Option<T>>) -> (r: Self)
        ensures
            r.well_formed(),
            r.spec_shader() == shader,
            r@.dom() == last_declarations(shader.properties@).dom(),
            forall|k: Seq<char>|
                #[trigger] r@.contains_key(k) ==> starts_as(
                    r@[k],
                    shader.properties@[last_declarations(shader.properties@)[k]].kind,
                    texture_at(textures@, last_declarations(shader.properties@)[k]),
                ),
    {
        let ghost given = textures@;
        let mut textures = textures;
        let mut names = index_new();
        let mut entries: Vec<MaterialProperty<R, T>> = Vec::new();
        let mut i: usize = 0;
        while i < shader.properties.len()
            invariant
                0 <= i <= shader.properties@.len(),
                textures@.len() == given.len(),
                forall|j: int| i <= j < given.len() ==> #[trigger] textures@[j] == given[j],
                index_well_formed(names, entries@.len()),
                names_match(names, entries@),
                index_contents(names).dom() == last_declarations(shader.properties@.subrange(0, i as int)).dom(),
                forall|k: Seq<char>|
                    #[trigger] index_contents(names).contains_key(k) ==> {
                        let d = last_declarations(shader.properties@.subrange(0, i as int))[k];
                        &&& 0 <= d < i
                        &&& starts_as(
                            entries@[index_contents(names)[k] as int].value,
                            shader.properties@[d].kind,
                            texture_at(given, d),
                        )
                    },
            decreases shader.properties@.len() - i,
        {
            let ghost prefix = shader.properties@.subrange(0, i as int + 1);
            proof {
                assert(prefix.drop_last() =~= shader.properties@.subrange(0, i as int));
            }
            let mut texture: Option<T> = None;
            if i < textures.len() {
                std::mem::swap(&mut textures[i], &mut texture);
            }
            let value = initial_value(&shader.properties[i].kind, texture);
            let name = &shader.properties[i].name;
            match index_get(&names, name.as_str()) {
                Some(j) => {
                    entries[j].value = value;
                },
                None => {
                    index_insert(&mut names, name.clone(), entries.len());
                    entries.push(MaterialProperty { name: name.clone(), value });
                },
            }
            proof {
                assert(index_contents(names).dom() =~= last_declarations(prefix).dom());
            }
            i = i + 1;
        }
        proof {
            assert(shader.properties@.subrange(0, shader.properties@.len() as int) =~= shader.properties@);
        }
        Material { shader, names, properties: entries }
    }

    /// The value of the property `name`, if the material has one.
    pub fn property_ref(&self, name: &str) -> (r: Option<&PropertyValue<R, T>>)
        requires
            self.well_formed(),
        ensures
            r is Some <==> self@.contains_key(name@),
            r matches Some(v) ==> *v == self@[name@],
    {
        match index_get(&self.names, name) {
            Some(i) => Some(&self.properties[i].value),
            None => None,
        }
    }

    /// Sets the property `name` to `new_value`. Fails when the material has no such
    /// property, or when its type is not the type of `new_value`; the material is then
    /// unchanged.
    pub fn set_property(&mut self, name: &str, new_value: PropertyValue<R, T>) -> (r: Result<(), MaterialError<R, T>>)
        requires
            old(self).well_formed(),
        ensures
            final(self).well_formed(),
            final(self).spec_shader() == old(self).spec_shader(),
            !old(self)@.contains_key(name@) ==> {
                &&& r matches Err(MaterialError::NoSuchProperty { property_name }) && property_name@ == name@
                &&& final(self)@ == old(self)@
            },
            old(self)@.contains_key(name@) && !old(self)@[name@].spec_same_kind(&new_value) ==> {
                &&& r matches Err(MaterialError::TypeMismatch { property_name, expected, given })
                    && property_name@ == name@ && given == new_value && expected.spec_same_kind(
                    &old(self)@[name@],
                ) && (expected is Sampler || expected.spec_equal_numbers(old(self)@[name@]))
                &&& final(self)@ == old(self)@
            },
            old(self)@.contains_key(name@) && old(self)@[name@].spec_same_kind(&new_value) ==> {
                &&& r is Ok
                &&& final(self)@ == old(self)@.insert(name@, new_value)
            },
    {
        match index_get(&self.names, name) {
            None => Err(MaterialError::NoSuchProperty { property_name: String::from_str(name) }),
            Some(i) => {
                if self.properties[i].value.same_kind(&new_value) {
                    self.properties[i].value = new_value;
                    proof {
                        assert(self@ =~= old(self)@.insert(name@, new_value));
                    }
                    Ok(())
                } else {
                    Err(
                        MaterialError::TypeMismatch {
                            property_name: String::from_str(name),
                            expected: self.properties[i].value.duplicate(),
                            given: new_value,
                        },
                    )
                }
            },
        }
    }

    /// The properties with their values, each once.
    pub fn properties(&self) -> (r: &Vec<MaterialProperty<R, T>>)
        requires
            self.well_formed(),
        ensures
            forall|i: int|
                0 <= i < r@.len() ==> self@.contains_key((#[trigger] r@[i]).name@) && self@[r@[i].name@]
                    == r@[i].value,
            forall|k: Seq<char>| #[trigger] self@.contains_key(k) ==> exists|i: int| 0 <= i < r@.len() && r@[i].name@ == k,
            forall|i: int, j: int| 0 <= i < j < r@.len() ==> r@[i].name@ != r@[j].name@,
    {
        proof {
            assert forall|k: Seq<char>| #[trigger] self@.contains_key(k) implies exists|i: int|
                0 <= i < self.properties@.len() && self.properties@[i].name@ == k by {
                let i = index_contents(self.names)[k] as int;
                assert(index_contents(self.names)[self.properties@[i].name@] == i);
            }
        }
        &self.properties
    }

    /// The shader this material is for.
    pub fn shader(&self) -> (r: &Shader<R>)
        ensures
            *r == self.spec_shader(),
    {
        &self.shader
    }
}

} // verus!
