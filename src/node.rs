use vstd::prelude::*;
use crate::terrain::Terrain;
use crate::value::{NumericValue, Real};

verus! {

/// A type with a unique identifier, used to record which kind of node a saved node was.
pub trait TypeUuidProvider: Sized {
    /// The identifier of the type, a UUID as a 128-bit number.
    fn type_uuid() -> u128;
}

/// Position, scale and rotation (a unit quaternion `[i, j, k, w]`) of a node relative to
/// its parent.
#[derive(Clone, Copy, Debug, PartialEq)]
pub struct Transform<R> {
    pub position: [R; 3],
    pub scale: [R; 3],
    pub rotation: [R; 4],
}

/// A named field of a node that animations can write, with its current value; the value
/// also fixes the field's machine type.
#[derive(Clone, Debug, PartialEq)]
pub struct Property<R: Real> {
    /// Path of the field (`foo.bar[1].baz`).
    pub name: String,
    /// Current value.
    pub value: NumericValue<R>,
}

/// Why a value could not be written into a field.
#[derive(Clone, Debug, PartialEq)]
pub enum SetFieldError<R: Real> {
    /// No field has the given path.
    InvalidPath {
        /// The path that was looked up.
        path: String,
    },
    /// The field's machine type is not the value's; the value is handed back.
    InvalidValue(NumericValue<R>),
}

/// The concrete kind of a node. Only the terrain's own data is part of this library;
/// the state of the other kinds (meshes, lights, bodies, sounds...) is held by the
/// renderer, physics and audio subsystems.
#[derive(Clone, Debug)]
pub enum NodeVariant<R, L> {
    Pivot,
    Mesh,
    Camera,
    SpotLight,
    PointLight,
    DirectionalLight,
    ParticleSystem,
    Sprite,
    Decal,
    Rectangle,
    RigidBody,
    Collider,
    Joint,
    RigidBody2D,
    Collider2D,
    Joint2D,
    Sound,
    Listener,
    NavigationalMesh,
    Terrain(Terrain<R, L>),
}

/// A scene node: the transform and the named fields every node has, and the data of
/// its concrete kind.
#[derive(Clone, Debug)]
pub struct Node<R: Real, L> {
    /// Transform relative to the parent.
    pub local_transform: Transform<R>,
    /// Fields reachable by path, in declaration order.
    pub properties: Vec<Property<R>>,
    /// The concrete kind and its data.
    pub variant: NodeVariant<R, L>,
}

/// `props[j]` is the first field whose path is `path`.
pub open spec fn is_first_property<R: Real>(props: Seq<Property<R>>, path: Seq<char>, j: int) -> bool {
    &&& 0 <= j < props.len()
    &&& props[j].name@ == path
    &&& forall|k: int| 0 <= k < j ==> (#[trigger] props[k]).name@ != path
}

/// Some field has the path `path`.
pub open spec fn has_property<R: Real>(props: Seq<Property<R>>, path: Seq<char>) -> bool {
    exists|j: int| 0 <= j < props.len() && (#[trigger] props[j]).name@ == path
}

/// The first field with the path `path` has the machine type `t`.
pub open spec fn property_type_is<R: Real>(
    props: Seq<Property<R>>,
    path: Seq<char>,
    t: crate::value::ValueType,
) -> bool {
    exists|j: int| is_first_property(props, path, j) && (#[trigger] props[j]).value.value_type == t
}

/// `a` and `b` have the same fields: the same paths and machine types, in order.
pub open spec fn same_fields<R: Real>(a: Seq<Property<R>>, b: Seq<Property<R>>) -> bool {
    &&& a.len() == b.len()
    &&& forall|k: int|
        0 <= k < a.len() ==> (#[trigger] a[k]).name@ == b[k].name@ && a[k].value.value_type
            == b[k].value.value_type
}

pub(crate) proof fn lemma_first_property_unique<R: Real>(props: Seq<Property<R>>, path: Seq<char>, i: int, j: int)
    requires
        is_first_property(props, path, i),
        is_first_property(props, path, j),
    ensures
        i == j,
{
    if i < j {
        assert(props[i].name@ == path);
    } else if j < i {
        assert(props[j].name@ == path);
    }
}

/// Where some field has the path `path`, a first such field exists.
pub(crate) proof fn lemma_first_exists<R: Real>(props: Seq<Property<R>>, path: Seq<char>, j: int)
    requires
        0 <= j < props.len(),
        props[j].name@ == path,
    ensures
        exists|w: int| is_first_property(props, path, w),
    decreases j,
{
    if forall|k: int| 0 <= k < j ==> (#[trigger] props[k]).name@ != path {
        assert(is_first_property(props, path, j));
    } else {
        let k = choose|k: int| 0 <= k < j && (#[trigger] props[k]).name@ == path;
        lemma_first_exists(props, path, k);
    }
}

/// Lookups by path give the same answers on two lists with the same fields.
pub(crate) proof fn lemma_same_fields_lookup<R: Real>(a: Seq<Property<R>>, b: Seq<Property<R>>, path: Seq<char>)
    requires
        same_fields(a, b),
    ensures
        has_property(a, path) == has_property(b, path),
        forall|j: int| is_first_property(a, path, j) == is_first_property(b, path, j),
        forall|t: crate::value::ValueType| property_type_is(a, path, t) == property_type_is(b, path, t),
{
    if has_property(a, path) {
        let j = choose|j: int| 0 <= j < a.len() && (#[trigger] a[j]).name@ == path;
        assert(b[j].name@ == path);
    }
    if has_property(b, path) {
        let j = choose|j: int| 0 <= j < b.len() && (#[trigger] b[j]).name@ == path;
        assert(a[j].name@ == path);
    }
    assert forall|j: int| is_first_property(a, path, j) == is_first_property(b, path, j) by {
        if is_first_property(a, path, j) {
            assert forall|k: int| 0 <= k < j implies (#[trigger] b[k]).name@ != path by {
                assert(a[k].name@ != path);
            }
        }
        if is_first_property(b, path, j) {
            assert forall|k: int| 0 <= k < j implies (#[trigger] a[k]).name@ != path by {
                assert(b[k].name@ != path);
            }
        }
    }
    assert forall|t: crate::value::ValueType| property_type_is(a, path, t) == property_type_is(b, path, t) by {
        if property_type_is(a, path, t) {
            let j = choose|j: int| is_first_property(a, path, j) && (#[trigger] a[j]).value.value_type == t;
            assert(is_first_property(b, path, j) && b[j].value.value_type == t);
        }
        if property_type_is(b, path, t) {
            let j = choose|j: int| is_first_property(b, path, j) && (#[trigger] b[j]).value.value_type == t;
            assert(is_first_property(a, path, j) && a[j].value.value_type == t);
        }
    }
}

impl<R: Real, L> Node<R, L> {
    /// A node of the given kind, with the given transform and no fields.
    pub fn new(local_transform: Transform<R>, variant: NodeVariant<R, L>) -> (r: Self)
        ensures
            r.local_transform == local_transform,
            r.properties@.len() == 0,
            r.variant == variant,
    {
        Node { local_transform, properties: Vec::new(), variant }
    }

    /// Declares a field reachable by `name`, holding `value`.
    pub fn add_property(&mut self, name: String, value: NumericValue<R>)
        ensures
            final(self).properties@ == old(self).properties@.push(Property { name, value }),
            final(self).local_transform == old(self).local_transform,
            final(self).variant == old(self).variant,
    {
        self.properties.push(Property { name, value });
    }

    /// Finds the first field whose path is `path`.
    pub fn find_property(&self, path: &str) -> (r: Option<usize>)
        ensures
            r matches Some(j) ==> is_first_property(self.properties@, path@, j as int),
            r is None <==> !has_property(self.properties@, path@),
    {
        let mut i: usize = 0;
        while i < self.properties.len()
            invariant
                0 <= i <= self.properties@.len(),
                forall|k: int| 0 <= k < i ==> (#[trigger] self.properties@[k]).name@ != path@,
            decreases self.properties@.len() - i,
        {
            if string_eq(&self.properties[i].name, path) {
                return Some(i);
            }
            i = i + 1;
        }
        None
    }

    /// Writes `value` into the first field whose path is `path`. Fails with
    /// `InvalidPath` when there is no such field, and with `InvalidValue` (handing the
    /// value back) when the field's machine type is another; the node is then unchanged.
    pub fn set_field_by_path(&mut self, path: &str, value: NumericValue<R>) -> (r: Result<
        (),
        SetFieldError<R>,
    >)
        ensures
            final(self).local_transform == old(self).local_transform,
            final(self).variant == old(self).variant,
            !has_property(old(self).properties@, path@) ==> {
                &&& r matches Err(SetFieldError::InvalidPath { path: p }) && p@ == path@
                &&& final(self).properties@ == old(self).properties@
            },
            forall|j: int|
                is_first_property(old(self).properties@, path@, j) ==> {
                    &&& old(self).properties@[j].value.value_type != value.value_type ==> {
                        &&& r == Err::<(), SetFieldError<R>>(SetFieldError::InvalidValue(value))
                        &&& final(self).properties@ == old(self).properties@
                    }
                    &&& old(self).properties@[j].value.value_type == value.value_type ==> {
                        &&& r is Ok
                        &&& final(self).properties@ == old(self).properties@.update(
                            j,
                            Property { name: old(self).properties@[j].name, value },
                        )
                    }
                },
    {
        match self.find_property(path) {
            None => Err(SetFieldError::InvalidPath { path: String::from_str(path) }),
            Some(j) => {
                proof {
                    assert forall|w: int| is_first_property(self.properties@, path@, w) implies w == j by {
                        lemma_first_property_unique(self.properties@, path@, w, j as int);
                    }
                }
                if self.properties[j].value.value_type != value.value_type {
                    Err(SetFieldError::InvalidValue(value))
                } else {
                    self.properties[j].value = value;
                    Ok(())
                }
            },
        }
    }

    /// Sets the position of the node.
    pub fn set_position(&mut self, position: [R; 3])
        ensures
            final(self).local_transform == (Transform { position, ..old(self).local_transform }),
            final(self).properties == old(self).properties,
            final(self).variant == old(self).variant,
    {
        self.local_transform.position = position;
    }

    /// Sets the scale of the node.
    pub fn set_scale(&mut self, scale: [R; 3])
        ensures
            final(self).local_transform == (Transform { scale, ..old(self).local_transform }),
            final(self).properties == old(self).properties,
            final(self).variant == old(self).variant,
    {
        self.local_transform.scale = scale;
    }

    /// Sets the rotation of the node.
    pub fn set_rotation(&mut self, rotation: [R; 4])
        ensures
            final(self).local_transform == (Transform { rotation, ..old(self).local_transform }),
            final(self).properties == old(self).properties,
            final(self).variant == old(self).variant,
    {
        self.local_transform.rotation = rotation;
    }

    /// The node is a terrain.
    pub fn is_terrain(&self) -> (r: bool)
        ensures
            r == self.variant is Terrain,
    {
        match &self.variant {
            NodeVariant::Terrain(_) => true,
            _ => false,
        }
    }

    /// The node's terrain, or `None` when the node is of another kind.
    pub fn as_terrain(&self) -> (r: Option<&Terrain<R, L>>)
        ensures
            self.variant is Terrain <==> r is Some,
            r matches Some(t) ==> self.variant == NodeVariant::<R, L>::Terrain(*t),
    {
        match &self.variant {
            NodeVariant::Terrain(t) => Some(t),
            _ => None,
        }
    }

    /// The node's terrain, for editing; the node must be a terrain.
    pub fn as_terrain_mut(&mut self) -> (r: &mut Terrain<R, L>)
        requires
            old(self).variant is Terrain,
        ensures
            old(self).variant == NodeVariant::<R, L>::Terrain(*r),
            final(self).variant == NodeVariant::<R, L>::Terrain(*final(r)),
            final(self).local_transform == old(self).local_transform,
            final(self).properties == old(self).properties,
    {
        match &mut self.variant {
            NodeVariant::Terrain(t) => t,
            _ => vstd::pervasive::unreached(),
        }
    }
}

/// `a` and `b` hold the same text.
fn string_eq(a: &String, b: &str) -> (r: bool)
    ensures
        r == (a@ == b@),
{
    let c = String::from_str(b);
    *a == c
}

} // verus!
