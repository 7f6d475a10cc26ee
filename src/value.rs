use vstd::prelude::*;
use crate::node::{
    has_property, is_first_property, lemma_first_exists, lemma_same_fields_lookup, property_type_is,
    same_fields, Node, Property, SetFieldError, Transform,
};

verus! {

/// The shape of a value: a scalar, a vector of two to four components, or a rotation
/// quaternion.
#[derive(Clone, Copy, Debug, PartialEq, Eq, Hash, Structural)]
pub enum Shape {
    Scalar,
    Vector2,
    Vector3,
    Vector4,
    Quaternion,
}

impl Shape {
    /// Number of real components a value of this shape carries.
    pub open spec fn dims(self) -> nat {
        match self {
            Shape::Scalar => 1,
            Shape::Vector2 => 2,
            Shape::Vector3 => 3,
            Shape::Vector4 => 4,
            Shape::Quaternion => 4,
        }
    }
}

/// The machine type of one component of a property.
#[derive(Clone, Copy, Debug, PartialEq, Eq, Hash, Structural)]
pub enum ScalarKind {
    Bool,
    F32,
    F64,
    U64,
    I64,
    U32,
    I32,
    U16,
    I16,
    U8,
    I8,
}

/// The machine type of a property that a track value is written into.
#[derive(Clone, Copy, Debug, PartialEq, Eq, Hash, Structural)]
pub enum ValueType {
    /// `bool`
    Bool,
    /// `f32`
    F32,
    /// `f64`
    F64,
    /// `u64`
    U64,
    /// `i64`
    I64,
    /// `u32`
    U32,
    /// `i32`
    I32,
    /// `u16`
    U16,
    /// `i16`
    I16,
    /// `u8`
    U8,
    /// `i8`
    I8,
    /// `Vector2<bool>`
    Vector2Bool,
    /// `Vector2<f32>`
    Vector2F32,
    /// `Vector2<f64>`
    Vector2F64,
    /// `Vector2<u64>`
    Vector2U64,
    /// `Vector2<i64>`
    Vector2I64,
    /// `Vector2<u32>`
    Vector2U32,
    /// `Vector2<i32>`
    Vector2I32,
    /// `Vector2<u16>`
    Vector2U16,
    /// `Vector2<i16>`
    Vector2I16,
    /// `Vector2<u8>`
    Vector2U8,
    /// `Vector2<i8>`
    Vector2I8,
    /// `Vector3<bool>`
    Vector3Bool,
    /// `Vector3<f32>`
    Vector3F32,
    /// `Vector3<f64>`
    Vector3F64,
    /// `Vector3<u64>`
    Vector3U64,
    /// `Vector3<i64>`
    Vector3I64,
    /// `Vector3<u32>`
    Vector3U32,
    /// `Vector3<i32>`
    Vector3I32,
    /// `Vector3<u16>`
    Vector3U16,
    /// `Vector3<i16>`
    Vector3I16,
    /// `Vector3<u8>`
    Vector3U8,
    /// `Vector3<i8>`
    Vector3I8,
    /// `Vector4<bool>`
    Vector4Bool,
    /// `Vector4<f32>`
    Vector4F32,
    /// `Vector4<f64>`
    Vector4F64,
    /// `Vector4<u64>`
    Vector4U64,
    /// `Vector4<i64>`
    Vector4I64,
    /// `Vector4<u32>`
    Vector4U32,
    /// `Vector4<i32>`
    Vector4I32,
    /// `Vector4<u16>`
    Vector4U16,
    /// `Vector4<i16>`
    Vector4I16,
    /// `Vector4<u8>`
    Vector4U8,
    /// `Vector4<i8>`
    Vector4I8,
    /// `UnitQuaternion<f32>`
    UnitQuaternionF32,
    /// `UnitQuaternion<f64>`
    UnitQuaternionF64,
}

impl ValueType {
    /// The shape (scalar, vector or quaternion) of this machine type.
    pub open spec fn spec_shape(&self) -> Shape {
        match self {
            ValueType::Bool => Shape::Scalar,
            ValueType::F32 => Shape::Scalar,
            ValueType::F64 => Shape::Scalar,
            ValueType::U64 => Shape::Scalar,
            ValueType::I64 => Shape::Scalar,
            ValueType::U32 => Shape::Scalar,
            ValueType::I32 => Shape::Scalar,
            ValueType::U16 => Shape::Scalar,
            ValueType::I16 => Shape::Scalar,
            ValueType::U8 => Shape::Scalar,
            ValueType::I8 => Shape::Scalar,
            ValueType::Vector2Bool => Shape::Vector2,
            ValueType::Vector2F32 => Shape::Vector2,
            ValueType::Vector2F64 => Shape::Vector2,
            ValueType::Vector2U64 => Shape::Vector2,
            ValueType::Vector2I64 => Shape::Vector2,
            ValueType::Vector2U32 => Shape::Vector2,
            ValueType::Vector2I32 => Shape::Vector2,
            ValueType::Vector2U16 => Shape::Vector2,
            ValueType::Vector2I16 => Shape::Vector2,
            ValueType::Vector2U8 => Shape::Vector2,
            ValueType::Vector2I8 => Shape::Vector2,
            ValueType::Vector3Bool => Shape::Vector3,
            ValueType::Vector3F32 => Shape::Vector3,
            ValueType::Vector3F64 => Shape::Vector3,
            ValueType::Vector3U64 => Shape::Vector3,
            ValueType::Vector3I64 => Shape::Vector3,
            ValueType::Vector3U32 => Shape::Vector3,
            ValueType::Vector3I32 => Shape::Vector3,
            ValueType::Vector3U16 => Shape::Vector3,
            ValueType::Vector3I16 => Shape::Vector3,
            ValueType::Vector3U8 => Shape::Vector3,
            ValueType::Vector3I8 => Shape::Vector3,
            ValueType::Vector4Bool => Shape::Vector4,
            ValueType::Vector4F32 => Shape::Vector4,
            ValueType::Vector4F64 => Shape::Vector4,
            ValueType::Vector4U64 => Shape::Vector4,
            ValueType::Vector4I64 => Shape::Vector4,
            ValueType::Vector4U32 => Shape::Vector4,
            ValueType::Vector4I32 => Shape::Vector4,
            ValueType::Vector4U16 => Shape::Vector4,
            ValueType::Vector4I16 => Shape::Vector4,
            ValueType::Vector4U8 => Shape::Vector4,
            ValueType::Vector4I8 => Shape::Vector4,
            ValueType::UnitQuaternionF32 => Shape::Quaternion,
            ValueType::UnitQuaternionF64 => Shape::Quaternion,
        }
    }

    /// The type of each component of this machine type.
    pub open spec fn spec_scalar(&self) -> ScalarKind {
        match self {
            ValueType::Bool => ScalarKind::Bool,
            ValueType::F32 => ScalarKind::F32,
            ValueType::F64 => ScalarKind::F64,
            ValueType::U64 => ScalarKind::U64,
            ValueType::I64 => ScalarKind::I64,
            ValueType::U32 => ScalarKind::U32,
            ValueType::I32 => ScalarKind::I32,
            ValueType::U16 => ScalarKind::U16,
            ValueType::I16 => ScalarKind::I16,
            ValueType::U8 => ScalarKind::U8,
            ValueType::I8 => ScalarKind::I8,
            ValueType::Vector2Bool => ScalarKind::Bool,
            ValueType::Vector2F32 => ScalarKind::F32,
            ValueType::Vector2F64 => ScalarKind::F64,
            ValueType::Vector2U64 => ScalarKind::U64,
            ValueType::Vector2I64 => ScalarKind::I64,
            ValueType::Vector2U32 => ScalarKind::U32,
            ValueType::Vector2I32 => ScalarKind::I32,
            ValueType::Vector2U16 => ScalarKind::U16,
            ValueType::Vector2I16 => ScalarKind::I16,
            ValueType::Vector2U8 => ScalarKind::U8,
            ValueType::Vector2I8 => ScalarKind::I8,
            ValueType::Vector3Bool => ScalarKind::Bool,
            ValueType::Vector3F32 => ScalarKind::F32,
            ValueType::Vector3F64 => ScalarKind::F64,
            ValueType::Vector3U64 => ScalarKind::U64,
            ValueType::Vector3I64 => ScalarKind::I64,
            ValueType::Vector3U32 => ScalarKind::U32,
            ValueType::Vector3I32 => ScalarKind::I32,
            ValueType::Vector3U16 => ScalarKind::U16,
            ValueType::Vector3I16 => ScalarKind::I16,
            ValueType::Vector3U8 => ScalarKind::U8,
            ValueType::Vector3I8 => ScalarKind::I8,
            ValueType::Vector4Bool => ScalarKind::Bool,
            ValueType::Vector4F32 => ScalarKind::F32,
            ValueType::Vector4F64 => ScalarKind::F64,
            ValueType::Vector4U64 => ScalarKind::U64,
            ValueType::Vector4I64 => ScalarKind::I64,
            ValueType::Vector4U32 => ScalarKind::U32,
            ValueType::Vector4I32 => ScalarKind::I32,
            ValueType::Vector4U16 => ScalarKind::U16,
            ValueType::Vector4I16 => ScalarKind::I16,
            ValueType::Vector4U8 => ScalarKind::U8,
            ValueType::Vector4I8 => ScalarKind::I8,
            ValueType::UnitQuaternionF32 => ScalarKind::F32,
            ValueType::UnitQuaternionF64 => ScalarKind::F64,
        }
    }

    /// The shape (scalar, vector or quaternion) of this machine type.
    #[verifier::when_used_as_spec(spec_shape)]
    pub fn shape(&self) -> (r: Shape)
        ensures
            r == self.spec_shape(),
    {
        match self {
            ValueType::Bool => Shape::Scalar,
            ValueType::F32 => Shape::Scalar,
            ValueType::F64 => Shape::Scalar,
            ValueType::U64 => Shape::Scalar,
            ValueType::I64 => Shape::Scalar,
            ValueType::U32 => Shape::Scalar,
            ValueType::I32 => Shape::Scalar,
            ValueType::U16 => Shape::Scalar,
            ValueType::I16 => Shape::Scalar,
            ValueType::U8 => Shape::Scalar,
            ValueType::I8 => Shape::Scalar,
            ValueType::Vector2Bool => Shape::Vector2,
            ValueType::Vector2F32 => Shape::Vector2,
            ValueType::Vector2F64 => Shape::Vector2,
            ValueType::Vector2U64 => Shape::Vector2,
            ValueType::Vector2I64 => Shape::Vector2,
            ValueType::Vector2U32 => Shape::Vector2,
            ValueType::Vector2I32 => Shape::Vector2,
            ValueType::Vector2U16 => Shape::Vector2,
            ValueType::Vector2I16 => Shape::Vector2,
            ValueType::Vector2U8 => Shape::Vector2,
            ValueType::Vector2I8 => Shape::Vector2,
            ValueType::Vector3Bool => Shape::Vector3,
            ValueType::Vector3F32 => Shape::Vector3,
            ValueType::Vector3F64 => Shape::Vector3,
            ValueType::Vector3U64 => Shape::Vector3,
            ValueType::Vector3I64 => Shape::Vector3,
            ValueType::Vector3U32 => Shape::Vector3,
            ValueType::Vector3I32 => Shape::Vector3,
            ValueType::Vector3U16 => Shape::Vector3,
            ValueType::Vector3I16 => Shape::Vector3,
            ValueType::Vector3U8 => Shape::Vector3,
            ValueType::Vector3I8 => Shape::Vector3,
            ValueType::Vector4Bool => Shape::Vector4,
            ValueType::Vector4F32 => Shape::Vector4,
            ValueType::Vector4F64 => Shape::Vector4,
            ValueType::Vector4U64 => Shape::Vector4,
            ValueType::Vector4I64 => Shape::Vector4,
            ValueType::Vector4U32 => Shape::Vector4,
            ValueType::Vector4I32 => Shape::Vector4,
            ValueType::Vector4U16 => Shape::Vector4,
            ValueType::Vector4I16 => Shape::Vector4,
            ValueType::Vector4U8 => Shape::Vector4,
            ValueType::Vector4I8 => Shape::Vector4,
            ValueType::UnitQuaternionF32 => Shape::Quaternion,
            ValueType::UnitQuaternionF64 => Shape::Quaternion,
        }
    }

    /// The type of each component of this machine type.
    #[verifier::when_used_as_spec(spec_scalar)]
    pub fn scalar(&self) -> (r: ScalarKind)
        ensures
            r == self.spec_scalar(),
    {
        match self {
            ValueType::Bool => ScalarKind::Bool,
            ValueType::F32 => ScalarKind::F32,
            ValueType::F64 => ScalarKind::F64,
            ValueType::U64 => ScalarKind::U64,
            ValueType::I64 => ScalarKind::I64,
            ValueType::U32 => ScalarKind::U32,
            ValueType::I32 => ScalarKind::I32,
            ValueType::U16 => ScalarKind::U16,
            ValueType::I16 => ScalarKind::I16,
            ValueType::U8 => ScalarKind::U8,
            ValueType::I8 => ScalarKind::I8,
            ValueType::Vector2Bool => ScalarKind::Bool,
            ValueType::Vector2F32 => ScalarKind::F32,
            ValueType::Vector2F64 => ScalarKind::F64,
            ValueType::Vector2U64 => ScalarKind::U64,
            ValueType::Vector2I64 => ScalarKind::I64,
            ValueType::Vector2U32 => ScalarKind::U32,
            ValueType::Vector2I32 => ScalarKind::I32,
            ValueType::Vector2U16 => ScalarKind::U16,
            ValueType::Vector2I16 => ScalarKind::I16,
            ValueType::Vector2U8 => ScalarKind::U8,
            ValueType::Vector2I8 => ScalarKind::I8,
            ValueType::Vector3Bool => ScalarKind::Bool,
            ValueType::Vector3F32 => ScalarKind::F32,
            ValueType::Vector3F64 => ScalarKind::F64,
            ValueType::Vector3U64 => ScalarKind::U64,
            ValueType::Vector3I64 => ScalarKind::I64,
            ValueType::Vector3U32 => ScalarKind::U32,
            ValueType::Vector3I32 => ScalarKind::I32,
            ValueType::Vector3U16 => ScalarKind::U16,
            ValueType::Vector3I16 => ScalarKind::I16,
            ValueType::Vector3U8 => ScalarKind::U8,
            ValueType::Vector3I8 => ScalarKind::I8,
            ValueType::Vector4Bool => ScalarKind::Bool,
            ValueType::Vector4F32 => ScalarKind::F32,
            ValueType::Vector4F64 => ScalarKind::F64,
            ValueType::Vector4U64 => ScalarKind::U64,
            ValueType::Vector4I64 => ScalarKind::I64,
            ValueType::Vector4U32 => ScalarKind::U32,
            ValueType::Vector4I32 => ScalarKind::I32,
            ValueType::Vector4U16 => ScalarKind::U16,
            ValueType::Vector4I16 => ScalarKind::I16,
            ValueType::Vector4U8 => ScalarKind::U8,
            ValueType::Vector4I8 => ScalarKind::I8,
            ValueType::UnitQuaternionF32 => ScalarKind::F32,
            ValueType::UnitQuaternionF64 => ScalarKind::F64,
        }
    }
}

impl Default for ValueType {
    fn default() -> (r: Self)
        ensures
            r == ValueType::F32,
    {
        ValueType::F32
    }
}


/// Real-number arithmetic that track values are computed with.
///
/// Animations work on reals for every machine type (booleans included), so that values
/// can be blended; the result is narrowed to the target property's type at the end.
/// Each operation is a function of its arguments, named by a spec function of the same
/// name; the library's contracts state computed values through those names.
pub trait Real: Copy + Sized + std::fmt::Debug + PartialEq {
    /// The double-precision real that a value widens into.
    type Wide: Copy + std::fmt::Debug + PartialEq;

    /// `self * factor`.
    spec fn spec_times(self, factor: Self) -> Self;

    /// `self + other`.
    spec fn spec_plus(self, other: Self) -> Self;

    /// Linear interpolation `self + (other - self) * t`.
    spec fn spec_lerp(self, other: Self, t: Self) -> Self;

    /// Normalized linear interpolation of two unit quaternions given as `[i, j, k, w]`:
    /// `normalize(a * (1 - t) + b * t)`.
    spec fn spec_nlerp(a: [Self; 4], b: [Self; 4], t: Self) -> [Self; 4];

    /// `self != 0`.
    spec fn spec_is_nonzero(self) -> bool;

    /// Exact widening to double precision.
    spec fn spec_widen(self) -> Self::Wide;

    /// Narrowing conversion with the semantics of `as`: truncation toward zero,
    /// saturation at the bounds of the type, NaN to 0.
    spec fn spec_to_u64(self) -> u64;

    /// Narrowing conversion with the semantics of `as`: truncation toward zero,
    /// saturation at the bounds of the type, NaN to 0.
    spec fn spec_to_i64(self) -> i64;

    /// Narrowing conversion with the semantics of `as`: truncation toward zero,
    /// saturation at the bounds of the type, NaN to 0.
    spec fn spec_to_u32(self) -> u32;

    /// Narrowing conversion with the semantics of `as`: truncation toward zero,
    /// saturation at the bounds of the type, NaN to 0.
    spec fn spec_to_i32(self) -> i32;

    /// Narrowing conversion with the semantics of `as`: truncation toward zero,
    /// saturation at the bounds of the type, NaN to 0.
    spec fn spec_to_u16(self) -> u16;

    /// Narrowing conversion with the semantics of `as`: truncation toward zero,
    /// saturation at the bounds of the type, NaN to 0.
    spec fn spec_to_i16(self) -> i16;

    /// Narrowing conversion with the semantics of `as`: truncation toward zero,
    /// saturation at the bounds of the type, NaN to 0.
    spec fn spec_to_u8(self) -> u8;

    /// Narrowing conversion with the semantics of `as`: truncation toward zero,
    /// saturation at the bounds of the type, NaN to 0.
    spec fn spec_to_i8(self) -> i8;

    /// `self * factor`.
    fn times(self, factor: Self) -> (r: Self)
        ensures
            r == self.spec_times(factor),
    ;

    /// `self + other`.
    fn plus(self, other: Self) -> (r: Self)
        ensures
            r == self.spec_plus(other),
    ;

    /// Linear interpolation `self + (other - self) * t`.
    fn lerp(self, other: Self, t: Self) -> (r: Self)
        ensures
            r == self.spec_lerp(other, t),
    ;

    /// Normalized linear interpolation of two unit quaternions given as `[i, j, k, w]`:
    /// `normalize(a * (1 - t) + b * t)`.
    fn nlerp(a: [Self; 4], b: [Self; 4], t: Self) -> (r: [Self; 4])
        ensures
            r == Self::spec_nlerp(a, b, t),
    ;

    /// `self != 0`.
    fn is_nonzero(self) -> (r: bool)
        ensures
            r == self.spec_is_nonzero(),
    ;

    /// Exact widening to double precision.
    fn widen(self) -> (r: Self::Wide)
        ensures
            r == self.spec_widen(),
    ;

    /// Narrowing conversion with the semantics of `as`: truncation toward zero,
    /// saturation at the bounds of the type, NaN to 0.
    fn to_u64(self) -> (r: u64)
        ensures
            r == self.spec_to_u64(),
    ;

    /// Narrowing conversion with the semantics of `as`: truncation toward zero,
    /// saturation at the bounds of the type, NaN to 0.
    fn to_i64(self) -> (r: i64)
        ensures
            r == self.spec_to_i64(),
    ;

    /// Narrowing conversion with the semantics of `as`: truncation toward zero,
    /// saturation at the bounds of the type, NaN to 0.
    fn to_u32(self) -> (r: u32)
        ensures
            r == self.spec_to_u32(),
    ;

    /// Narrowing conversion with the semantics of `as`: truncation toward zero,
    /// saturation at the bounds of the type, NaN to 0.
    fn to_i32(self) -> (r: i32)
        ensures
            r == self.spec_to_i32(),
    ;

    /// Narrowing conversion with the semantics of `as`: truncation toward zero,
    /// saturation at the bounds of the type, NaN to 0.
    fn to_u16(self) -> (r: u16)
        ensures
            r == self.spec_to_u16(),
    ;

    /// Narrowing conversion with the semantics of `as`: truncation toward zero,
    /// saturation at the bounds of the type, NaN to 0.
    fn to_i16(self) -> (r: i16)
        ensures
            r == self.spec_to_i16(),
    ;

    /// Narrowing conversion with the semantics of `as`: truncation toward zero,
    /// saturation at the bounds of the type, NaN to 0.
    fn to_u8(self) -> (r: u8)
        ensures
            r == self.spec_to_u8(),
    ;

    /// Narrowing conversion with the semantics of `as`: truncation toward zero,
    /// saturation at the bounds of the type, NaN to 0.
    fn to_i8(self) -> (r: i8)
        ensures
            r == self.spec_to_i8(),
    ;

}

/// A real value produced by an animation track.
#[derive(Clone, Copy, Debug, PartialEq)]
pub enum TrackValue<R> {
    /// A real number.
    Real(R),
    /// A 2-dimensional vector of reals.
    Vector2([R; 2]),
    /// A 3-dimensional vector of reals.
    Vector3([R; 3]),
    /// A 4-dimensional vector of reals.
    Vector4([R; 4]),
    /// A unit quaternion `[i, j, k, w]` that represents a rotation.
    UnitQuaternion([R; 4]),
}

impl<R: Real> TrackValue<R> {
    /// The shape of this value; two values combine only when their shapes agree.
    pub open spec fn spec_shape(&self) -> Shape {
        match self {
            TrackValue::Real(_) => Shape::Scalar,
            TrackValue::Vector2(_) => Shape::Vector2,
            TrackValue::Vector3(_) => Shape::Vector3,
            TrackValue::Vector4(_) => Shape::Vector4,
            TrackValue::UnitQuaternion(_) => Shape::Quaternion,
        }
    }

    /// The components of this value, in order.
    pub open spec fn spec_components(&self) -> Seq<R> {
        match self {
            TrackValue::Real(v) => seq![*v],
            TrackValue::Vector2(v) => v@,
            TrackValue::Vector3(v) => v@,
            TrackValue::Vector4(v) => v@,
            TrackValue::UnitQuaternion(v) => v@,
        }
    }

    /// This value with the weight applied: components scaled by `weight`; a rotation
    /// is left as it is.
    pub open spec fn spec_weighted(self, weight: R) -> Self {
        match self {
            TrackValue::Real(v) => TrackValue::Real(v.spec_times(weight)),
            TrackValue::Vector2(v) => TrackValue::Vector2([v[0].spec_times(weight), v[1].spec_times(weight)]),
            TrackValue::Vector3(v) => TrackValue::Vector3([v[0].spec_times(weight), v[1].spec_times(weight), v[2].spec_times(weight)]),
            TrackValue::Vector4(v) => TrackValue::Vector4([v[0].spec_times(weight), v[1].spec_times(weight), v[2].spec_times(weight), v[3].spec_times(weight)]),
            TrackValue::UnitQuaternion(q) => TrackValue::UnitQuaternion(q),
        }
    }

    /// This value with `other` blended in by `weight`: `self + other * weight`
    /// component-wise, normalized linear interpolation for rotations; unchanged when
    /// the shapes differ.
    pub open spec fn spec_blended(self, other: Self, weight: R) -> Self {
        match (self, other) {
            (TrackValue::Real(a), TrackValue::Real(b)) => TrackValue::Real(a.spec_plus(b.spec_times(weight))),
            (TrackValue::Vector2(a), TrackValue::Vector2(b)) => TrackValue::Vector2([a[0].spec_plus(b[0].spec_times(weight)), a[1].spec_plus(b[1].spec_times(weight))]),
            (TrackValue::Vector3(a), TrackValue::Vector3(b)) => TrackValue::Vector3([a[0].spec_plus(b[0].spec_times(weight)), a[1].spec_plus(b[1].spec_times(weight)), a[2].spec_plus(b[2].spec_times(weight))]),
            (TrackValue::Vector4(a), TrackValue::Vector4(b)) => TrackValue::Vector4([a[0].spec_plus(b[0].spec_times(weight)), a[1].spec_plus(b[1].spec_times(weight)), a[2].spec_plus(b[2].spec_times(weight)), a[3].spec_plus(b[3].spec_times(weight))]),
            (TrackValue::UnitQuaternion(a), TrackValue::UnitQuaternion(b)) => TrackValue::UnitQuaternion(
                R::spec_nlerp(a, b, weight),
            ),
            _ => self,
        }
    }

    /// The value between this one and `other` at `t`: component-wise linear
    /// interpolation, normalized linear interpolation for rotations; `None` when the
    /// shapes differ.
    pub open spec fn spec_interpolated(self, other: Self, t: R) -> Option<Self> {
        match (self, other) {
            (TrackValue::Real(a), TrackValue::Real(b)) => Some(TrackValue::Real(a.spec_lerp(b, t))),
            (TrackValue::Vector2(a), TrackValue::Vector2(b)) => Some(TrackValue::Vector2([a[0].spec_lerp(b[0], t), a[1].spec_lerp(b[1], t)])),
            (TrackValue::Vector3(a), TrackValue::Vector3(b)) => Some(TrackValue::Vector3([a[0].spec_lerp(b[0], t), a[1].spec_lerp(b[1], t), a[2].spec_lerp(b[2], t)])),
            (TrackValue::Vector4(a), TrackValue::Vector4(b)) => Some(TrackValue::Vector4([a[0].spec_lerp(b[0], t), a[1].spec_lerp(b[1], t), a[2].spec_lerp(b[2], t), a[3].spec_lerp(b[3], t)])),
            (TrackValue::UnitQuaternion(a), TrackValue::UnitQuaternion(b)) => Some(
                TrackValue::UnitQuaternion(R::spec_nlerp(a, b, t)),
            ),
            _ => None,
        }
    }

    /// The components of this value converted to the component type of `value_type`.
    pub open spec fn spec_cast_components(self, value_type: ValueType) -> Seq<Primitive<R>> {
        self.spec_components().map_values(|c: R| Primitive::spec_convert(c, value_type.spec_scalar()))
    }

    /// The shape of this value.
    #[verifier::when_used_as_spec(spec_shape)]
    pub fn shape(&self) -> (r: Shape)
        ensures
            r == self.spec_shape(),
    {
        match self {
            TrackValue::Real(_) => Shape::Scalar,
            TrackValue::Vector2(_) => Shape::Vector2,
            TrackValue::Vector3(_) => Shape::Vector3,
            TrackValue::Vector4(_) => Shape::Vector4,
            TrackValue::UnitQuaternion(_) => Shape::Quaternion,
        }
    }

    /// The components of this value, in order.
    pub fn components(&self) -> (r: Vec<R>)
        ensures
            r@ == self.spec_components(),
            r@.len() == self.spec_shape().dims(),
    {
        let r = match self {
            TrackValue::Real(v) => vec![*v],
            TrackValue::Vector2(v) => vec![v[0], v[1]],
            TrackValue::Vector3(v) => vec![v[0], v[1], v[2]],
            TrackValue::Vector4(v) => vec![v[0], v[1], v[2], v[3]],
            TrackValue::UnitQuaternion(v) => vec![v[0], v[1], v[2], v[3]],
        };
        assert(r@ =~= self.spec_components());
        r
    }

    /// Clones the value with the given weight applied. A rotation is not weighted: it is
    /// cloned as it is, since weighting a single rotation is meaningless.
    pub fn weighted_clone(&self, weight: R) -> (r: Self)
        ensures
            r == self.spec_weighted(weight),
    {
        match self {
            TrackValue::Real(v) => TrackValue::Real(v.times(weight)),
            TrackValue::Vector2(v) => TrackValue::Vector2([v[0].times(weight), v[1].times(weight)]),
            TrackValue::Vector3(v) => TrackValue::Vector3(
                [v[0].times(weight), v[1].times(weight), v[2].times(weight)],
            ),
            TrackValue::Vector4(v) => TrackValue::Vector4(
                [v[0].times(weight), v[1].times(weight), v[2].times(weight), v[3].times(weight)],
            ),
            TrackValue::UnitQuaternion(v) => TrackValue::UnitQuaternion(*v),
        }
    }

    /// Blends `other` into this value with the given weight: `self += other * weight`
    /// component-wise, or normalized linear interpolation for rotations. Values of
    /// different shapes do not blend: `self` is then left as it is.
    pub fn blend_with(&mut self, other: &Self, weight: R)
        ensures
            *final(self) == old(self).spec_blended(*other, weight),
    {
        let blended = match (&*self, other) {
            (TrackValue::Real(a), TrackValue::Real(b)) => Some(TrackValue::Real(a.plus(b.times(weight)))),
            (TrackValue::Vector2(a), TrackValue::Vector2(b)) => Some(TrackValue::Vector2(
                [a[0].plus(b[0].times(weight)), a[1].plus(b[1].times(weight))],
            )),
            (TrackValue::Vector3(a), TrackValue::Vector3(b)) => Some(TrackValue::Vector3(
                [
                    a[0].plus(b[0].times(weight)),
                    a[1].plus(b[1].times(weight)),
                    a[2].plus(b[2].times(weight)),
                ],
            )),
            (TrackValue::Vector4(a), TrackValue::Vector4(b)) => Some(TrackValue::Vector4(
                [
                    a[0].plus(b[0].times(weight)),
                    a[1].plus(b[1].times(weight)),
                    a[2].plus(b[2].times(weight)),
                    a[3].plus(b[3].times(weight)),
                ],
            )),
            (TrackValue::UnitQuaternion(a), TrackValue::UnitQuaternion(b)) => Some(
                TrackValue::UnitQuaternion(R::nlerp(*a, *b, weight)),
            ),
            _ => None,
        };
        if let Some(v) = blended {
            *self = v;
        }
    }

    /// Computes the value between this one and `other` at `t`: component-wise linear
    /// interpolation, or normalized linear interpolation for rotations. Gives `None`
    /// when the shapes differ.
    pub fn interpolate(&self, other: &Self, t: R) -> (r: Option<Self>)
        ensures
            r == self.spec_interpolated(*other, t),
    {
        match (self, other) {
            (TrackValue::Real(a), TrackValue::Real(b)) => Some(TrackValue::Real(a.lerp(*b, t))),
            (TrackValue::Vector2(a), TrackValue::Vector2(b)) => Some(TrackValue::Vector2(
                [a[0].lerp(b[0], t), a[1].lerp(b[1], t)],
            )),
            (TrackValue::Vector3(a), TrackValue::Vector3(b)) => Some(TrackValue::Vector3(
                [a[0].lerp(b[0], t), a[1].lerp(b[1], t), a[2].lerp(b[2], t)],
            )),
            (TrackValue::Vector4(a), TrackValue::Vector4(b)) => Some(TrackValue::Vector4(
                [a[0].lerp(b[0], t), a[1].lerp(b[1], t), a[2].lerp(b[2], t), a[3].lerp(b[3], t)],
            )),
            (TrackValue::UnitQuaternion(a), TrackValue::UnitQuaternion(b)) => Some(
                TrackValue::UnitQuaternion(R::nlerp(*a, *b, t)),
            ),
            _ => None,
        }
    }
}


/// Interpolating a value with itself gives the value back, wherever the real type's
/// interpolation gives `a` between `a` and `a` for each component (for `f32`: finite
/// components) and, for a rotation, normalized interpolation of the rotation with
/// itself gives it back (for `f32`: up to rounding).
pub proof fn lemma_interpolate_equal_endpoints<R: Real>(v: TrackValue<R>, t: R)
    requires
        forall|i: int|
            0 <= i < v.spec_components().len() ==> (#[trigger] v.spec_components()[i]).spec_lerp(
                v.spec_components()[i],
                t,
            ) == v.spec_components()[i],
        v matches TrackValue::UnitQuaternion(q) ==> R::spec_nlerp(q, q, t) == q,
    ensures
        v.spec_interpolated(v, t) == Some(v),
{
    match v {
        TrackValue::Real(a) => {
            assert(v.spec_components()[0] == a);
        },
        TrackValue::Vector2(a) => {
            assert(v.spec_components()[0] == a[0] && v.spec_components()[1] == a[1]);
            assert([a[0].spec_lerp(a[0], t), a[1].spec_lerp(a[1], t)] =~= a);
        },
        TrackValue::Vector3(a) => {
            assert(v.spec_components()[0] == a[0] && v.spec_components()[1] == a[1]
                && v.spec_components()[2] == a[2]);
            assert([a[0].spec_lerp(a[0], t), a[1].spec_lerp(a[1], t), a[2].spec_lerp(a[2], t)] =~= a);
        },
        TrackValue::Vector4(a) => {
            assert(v.spec_components()[0] == a[0] && v.spec_components()[1] == a[1]
                && v.spec_components()[2] == a[2] && v.spec_components()[3] == a[3]);
            assert([
                a[0].spec_lerp(a[0], t),
                a[1].spec_lerp(a[1], t),
                a[2].spec_lerp(a[2], t),
                a[3].spec_lerp(a[3], t),
            ] =~= a);
        },
        TrackValue::UnitQuaternion(q) => {},
    }
}

/// One component of a value converted to a machine type.
#[derive(Clone, Copy, Debug, PartialEq)]
pub enum Primitive<R: Real> {
    Bool(bool),
    F32(R),
    F64(R::Wide),
    U64(u64),
    I64(i64),
    U32(u32),
    I32(i32),
    U16(u16),
    I16(i16),
    U8(u8),
    I8(i8),
}

impl<R: Real> Primitive<R> {
    /// The machine type of this component.
    pub open spec fn spec_kind(&self) -> ScalarKind {
        match self {
            Primitive::Bool(_) => ScalarKind::Bool,
            Primitive::F32(_) => ScalarKind::F32,
            Primitive::F64(_) => ScalarKind::F64,
            Primitive::U64(_) => ScalarKind::U64,
            Primitive::I64(_) => ScalarKind::I64,
            Primitive::U32(_) => ScalarKind::U32,
            Primitive::I32(_) => ScalarKind::I32,
            Primitive::U16(_) => ScalarKind::U16,
            Primitive::I16(_) => ScalarKind::I16,
            Primitive::U8(_) => ScalarKind::U8,
            Primitive::I8(_) => ScalarKind::I8,
        }
    }

    /// `x` converted to the machine type `kind`: a boolean is `x != 0`, a real of the
    /// same precision is `x` itself, a double is the widening, any other type the
    /// narrowing conversion.
    pub open spec fn spec_convert(x: R, kind: ScalarKind) -> Self {
        match kind {
            ScalarKind::Bool => Primitive::Bool(x.spec_is_nonzero()),
            ScalarKind::F32 => Primitive::F32(x),
            ScalarKind::F64 => Primitive::F64(x.spec_widen()),
            ScalarKind::U64 => Primitive::U64(x.spec_to_u64()),
            ScalarKind::I64 => Primitive::I64(x.spec_to_i64()),
            ScalarKind::U32 => Primitive::U32(x.spec_to_u32()),
            ScalarKind::I32 => Primitive::I32(x.spec_to_i32()),
            ScalarKind::U16 => Primitive::U16(x.spec_to_u16()),
            ScalarKind::I16 => Primitive::I16(x.spec_to_i16()),
            ScalarKind::U8 => Primitive::U8(x.spec_to_u8()),
            ScalarKind::I8 => Primitive::I8(x.spec_to_i8()),
        }
    }

    /// Converts a real to the machine type `kind` (see [`Primitive::spec_convert`]).
    pub fn convert(x: R, kind: ScalarKind) -> (r: Self)
        ensures
            r == Self::spec_convert(x, kind),
            r.spec_kind() == kind,
    {
        match kind {
            ScalarKind::Bool => Primitive::Bool(x.is_nonzero()),
            ScalarKind::F32 => Primitive::F32(x),
            ScalarKind::F64 => Primitive::F64(x.widen()),
            ScalarKind::U64 => Primitive::U64(x.to_u64()),
            ScalarKind::I64 => Primitive::I64(x.to_i64()),
            ScalarKind::U32 => Primitive::U32(x.to_u32()),
            ScalarKind::I32 => Primitive::I32(x.to_i32()),
            ScalarKind::U16 => Primitive::U16(x.to_u16()),
            ScalarKind::I16 => Primitive::I16(x.to_i16()),
            ScalarKind::U8 => Primitive::U8(x.to_u8()),
            ScalarKind::I8 => Primitive::I8(x.to_i8()),
        }
    }
}

/// A value of a concrete machine type, ready to be written into a property of that type.
#[derive(Clone, Debug, PartialEq)]
pub struct NumericValue<R: Real> {
    /// The machine type of the value.
    pub value_type: ValueType,
    /// The components, each of the component type of `value_type`.
    pub components: Vec<Primitive<R>>,
}

impl<R: Real> NumericValue<R> {
    /// The components agree with the declared machine type in number and in type.
    pub open spec fn well_formed(&self) -> bool {
        &&& self.components@.len() == self.value_type.spec_shape().dims()
        &&& forall|i: int|
            0 <= i < self.components@.len() ==> (#[trigger] self.components@[i]).spec_kind()
                == self.value_type.spec_scalar()
    }
}

impl<R: Real> TrackValue<R> {
    /// Converts this value to the machine type `value_type`, component by component
    /// (see [`Primitive::convert`]). Gives `None` when the shape of `value_type` is not
    /// the shape of this value.
    pub fn numeric_type_cast(&self, value_type: ValueType) -> (r: Option<NumericValue<R>>)
        ensures
            r.is_some() <==> value_type.spec_shape() == self.spec_shape(),
            r matches Some(n) ==> {
                &&& n.value_type == value_type
                &&& n.components@ == self.spec_cast_components(value_type)
                &&& n.well_formed()
            },
    {
        if value_type.shape() != self.shape() {
            return None;
        }
        let kind = value_type.scalar();
        let source = self.components();
        let mut components: Vec<Primitive<R>> = Vec::new();
        let mut i: usize = 0;
        while i < source.len()
            invariant
                source@ == self.spec_components(),
                source@.len() == self.spec_shape().dims(),
                kind == value_type.spec_scalar(),
                0 <= i <= source@.len(),
                components@ == self.spec_cast_components(value_type).subrange(0, i as int),
                forall|j: int| 0 <= j < i ==> (#[trigger] components@[j]).spec_kind() == kind,
            decreases source@.len() - i,
        {
            components.push(Primitive::convert(source[i], kind));
            i = i + 1;
            assert(components@ =~= self.spec_cast_components(value_type).subrange(0, i as int));
        }
        assert(components@ =~= self.spec_cast_components(value_type));
        Some(NumericValue { value_type, components })
    }
}


/// Tells to which property of a scene node a track value is written: one of the
/// standard transform properties, or an arbitrary property reached by its path.
#[derive(Debug)]
pub enum ValueBinding {
    /// The position of a node.
    Position,
    /// The scale of a node.
    Scale,
    /// The rotation of a node.
    Rotation,
    /// An arbitrary property of a node.
    Property {
        /// Path to the property (`foo.bar.baz[1].foobar@EnumVariant.stuff`).
        name: String,
        /// Machine type of the property.
        value_type: ValueType,
    },
}

impl ValueBinding {
    /// Two bindings name the same slot: the same variant, and for properties the same
    /// path text and the same machine type.
    pub open spec fn same_as(&self, other: &ValueBinding) -> bool {
        match (self, other) {
            (ValueBinding::Position, ValueBinding::Position) => true,
            (ValueBinding::Scale, ValueBinding::Scale) => true,
            (ValueBinding::Rotation, ValueBinding::Rotation) => true,
            (
                ValueBinding::Property { name: a, value_type: ta },
                ValueBinding::Property { name: b, value_type: tb },
            ) => a@ == b@ && ta == tb,
            _ => false,
        }
    }

    /// The text that names this binding: the property path, or the name of the standard
    /// property.
    pub fn name(&self) -> (r: String)
        ensures
            self matches ValueBinding::Property { name, .. } ==> r@ == name@,
            self matches ValueBinding::Position ==> r@ == "Position"@,
            self matches ValueBinding::Scale ==> r@ == "Scale"@,
            self matches ValueBinding::Rotation ==> r@ == "Rotation"@,
    {
        match self {
            ValueBinding::Position => String::from_str("Position"),
            ValueBinding::Scale => String::from_str("Scale"),
            ValueBinding::Rotation => String::from_str("Rotation"),
            ValueBinding::Property { name, .. } => name.clone(),
        }
    }
}

impl Clone for ValueBinding {
    fn clone(&self) -> (r: Self)
        ensures
            r == *self,
    {
        match self {
            ValueBinding::Position => ValueBinding::Position,
            ValueBinding::Scale => ValueBinding::Scale,
            ValueBinding::Rotation => ValueBinding::Rotation,
            ValueBinding::Property { name, value_type } => ValueBinding::Property {
                name: name.clone(),
                value_type: *value_type,
            },
        }
    }
}

impl PartialEq for ValueBinding {
    fn eq(&self, other: &ValueBinding) -> (r: bool) {
        match (self, other) {
            (ValueBinding::Position, ValueBinding::Position) => true,
            (ValueBinding::Scale, ValueBinding::Scale) => true,
            (ValueBinding::Rotation, ValueBinding::Rotation) => true,
            (
                ValueBinding::Property { name: a, value_type: ta },
                ValueBinding::Property { name: b, value_type: tb },
            ) => *a == *b && *ta == *tb,
            _ => false,
        }
    }
}

impl vstd::std_specs::cmp::PartialEqSpecImpl for ValueBinding {
    open spec fn obeys_eq_spec() -> bool {
        true
    }

    open spec fn eq_spec(&self, other: &ValueBinding) -> bool {
        self.same_as(other)
    }
}

impl Eq for ValueBinding {
}

/// A track value bound to a property.
#[derive(Clone, Debug, PartialEq)]
pub struct BoundValue<R> {
    /// The property the value is written into.
    pub binding: ValueBinding,
    /// The value for that property.
    pub value: TrackValue<R>,
}

impl<R: Real> BoundValue<R> {
    /// The same binding, with the value weighted (see [`TrackValue::spec_weighted`]).
    pub open spec fn spec_weighted(self, weight: R) -> Self {
        BoundValue { binding: self.binding, value: self.value.spec_weighted(weight) }
    }

    /// The same binding, with `other`'s value blended in (see
    /// [`TrackValue::spec_blended`]).
    pub open spec fn spec_blended(self, other: Self, weight: R) -> Self {
        BoundValue { binding: self.binding, value: self.value.spec_blended(other.value, weight) }
    }

    /// The same binding, with the value interpolated towards `other`'s (see
    /// [`TrackValue::spec_interpolated`]); `None` when the shapes differ.
    pub open spec fn spec_interpolated(self, other: Self, t: R) -> Option<Self> {
        match self.value.spec_interpolated(other.value, t) {
            Some(v) => Some(BoundValue { binding: self.binding, value: v }),
            None => None,
        }
    }

    /// Clones the value with the given weight applied (see [`TrackValue::weighted_clone`]).
    pub fn weighted_clone(&self, weight: R) -> (r: Self)
        ensures
            r == self.spec_weighted(weight),
    {
        BoundValue { binding: self.binding.clone(), value: self.value.weighted_clone(weight) }
    }

    /// Blends `other` into this value (see [`TrackValue::blend_with`]). Both must be bound
    /// to the same property.
    pub fn blend_with(&mut self, other: &Self, weight: R)
        requires
            old(self).binding.same_as(&other.binding),
        ensures
            *final(self) == old(self).spec_blended(*other, weight),
    {
        self.value.blend_with(&other.value, weight);
    }

    /// Interpolates between this value and `other` (see [`TrackValue::interpolate`]).
    /// Both must be bound to the same property.
    pub fn interpolate(&self, other: &Self, t: R) -> (r: Option<Self>)
        requires
            self.binding.same_as(&other.binding),
        ensures
            r == self.spec_interpolated(*other, t),
    {
        match self.value.interpolate(&other.value, t) {
            Some(value) => Some(BoundValue { binding: self.binding.clone(), value }),
            None => None,
        }
    }
}


/// `values[j]` is the first entry of `values` bound to `binding`.
pub open spec fn is_first_match<R>(values: Seq<BoundValue<R>>, binding: ValueBinding, j: int) -> bool {
    &&& 0 <= j < values.len()
    &&& values[j].binding.same_as(&binding)
    &&& forall|k: int| 0 <= k < j ==> !(#[trigger] values[k].binding).same_as(&binding)
}

/// No entry of `values` is bound to `binding`.
pub open spec fn has_no_match<R>(values: Seq<BoundValue<R>>, binding: ValueBinding) -> bool {
    forall|k: int| 0 <= k < values.len() ==> !(#[trigger] values[k].binding).same_as(&binding)
}

/// Some entry of `others` is bound to `binding`.
pub open spec fn has_match<R>(others: Seq<BoundValue<R>>, binding: ValueBinding) -> bool {
    exists|j: int| is_first_match(others, binding, j)
}

/// The first entry of `others` bound to `binding` (meaningful when [`has_match`]).
pub open spec fn first_match<R>(others: Seq<BoundValue<R>>, binding: ValueBinding) -> BoundValue<R> {
    others[choose|j: int| is_first_match(others, binding, j)]
}

/// `entry` blended with the first entry of `others` bound to the same property, or
/// `entry` itself when there is none.
pub open spec fn blended_with<R: Real>(entry: BoundValue<R>, others: Seq<BoundValue<R>>, weight: R) -> BoundValue<R> {
    if has_match(others, entry.binding) {
        entry.spec_blended(first_match(others, entry.binding), weight)
    } else {
        entry
    }
}

/// `entry` interpolated with the first entry of `others` bound to the same property;
/// `None` when there is none or its shape differs.
pub open spec fn interpolated_with<R: Real>(entry: BoundValue<R>, others: Seq<BoundValue<R>>, t: R) -> Option<BoundValue<R>> {
    if has_match(others, entry.binding) {
        entry.spec_interpolated(first_match(others, entry.binding), t)
    } else {
        None
    }
}

/// The entries of `values` interpolated with their counterparts in `others`, in the
/// order of `values`; entries without a counterpart of the same shape are left out.
pub open spec fn interpolated_entries<R: Real>(values: Seq<BoundValue<R>>, others: Seq<BoundValue<R>>, t: R) -> Seq<
    BoundValue<R>,
>
    decreases values.len(),
{
    if values.len() == 0 {
        Seq::empty()
    } else {
        let rest = interpolated_entries(values.drop_last(), others, t);
        match interpolated_with(values.last(), others, t) {
            Some(v) => rest.push(v),
            None => rest,
        }
    }
}

proof fn lemma_first_match_unique<R>(values: Seq<BoundValue<R>>, binding: ValueBinding, i: int, j: int)
    requires
        is_first_match(values, binding, i),
        is_first_match(values, binding, j),
    ensures
        i == j,
{
    if i < j {
        assert(values[i].binding.same_as(&binding));
    } else if j < i {
        assert(values[j].binding.same_as(&binding));
    }
}

/// Finds the first entry of `values` bound to `binding`.
fn find_binding<R: Real>(values: &Vec<BoundValue<R>>, binding: &ValueBinding) -> (r: Option<usize>)
    ensures
        r matches Some(j) ==> is_first_match(values@, *binding, j as int),
        r is None ==> has_no_match(values@, *binding),
{
    let mut i: usize = 0;
    while i < values.len()
        invariant
            0 <= i <= values@.len(),
            forall|k: int| 0 <= k < i ==> !(#[trigger] values@[k].binding).same_as(binding),
        decreases values@.len() - i,
    {
        if values[i].binding == *binding {
            return Some(i);
        }
        i = i + 1;
    }
    None
}

/// A collection of values bound to properties, applied in order.
#[derive(Clone, Debug, PartialEq)]
pub struct BoundValueCollection<R> {
    /// The values.
    pub values: Vec<BoundValue<R>>,
}

impl<R: Real> BoundValueCollection<R> {
    /// An empty collection.
    pub fn new() -> (r: Self)
        ensures
            r.values@.len() == 0,
    {
        BoundValueCollection { values: Vec::new() }
    }

    /// Clones every value with the given weight applied, keeping the order (see
    /// [`TrackValue::weighted_clone`]).
    pub fn weighted_clone(&self, weight: R) -> (r: Self)
        ensures
            r.values@ == self.values@.map_values(|b: BoundValue<R>| b.spec_weighted(weight)),
    {
        let mut values: Vec<BoundValue<R>> = Vec::new();
        let mut i: usize = 0;
        while i < self.values.len()
            invariant
                0 <= i <= self.values@.len(),
                values@ == self.values@.subrange(0, i as int).map_values(
                    |b: BoundValue<R>| b.spec_weighted(weight),
                ),
            decreases self.values@.len() - i,
        {
            values.push(self.values[i].weighted_clone(weight));
            i = i + 1;
            assert(values@ =~= self.values@.subrange(0, i as int).map_values(
                |b: BoundValue<R>| b.spec_weighted(weight),
            ));
        }
        assert(self.values@.subrange(0, i as int) =~= self.values@);
        BoundValueCollection { values }
    }

    /// Blends each value with the first value of `other` bound to the same property.
    /// A value without such a counterpart, or whose counterpart has another shape, is
    /// left as it is.
    pub fn blend_with(&mut self, other: &Self, weight: R)
        ensures
            final(self).values@ == old(self).values@.map_values(
                |b: BoundValue<R>| blended_with(b, other.values@, weight),
            ),
    {
        let ghost start = self.values@;
        let mut i: usize = 0;
        while i < self.values.len()
            invariant
                0 <= i <= self.values@.len(),
                self.values@.len() == start.len(),
                forall|k: int| i <= k < start.len() ==> #[trigger] self.values@[k] == start[k],
                forall|k: int|
                    0 <= k < i ==> #[trigger] self.values@[k] == blended_with(start[k], other.values@, weight),
            decreases start.len() - i,
        {
            match find_binding(&other.values, &self.values[i].binding) {
                Some(j) => {
                    proof {
                        let w = choose|w: int| is_first_match(other.values@, start[i as int].binding, w);
                        lemma_first_match_unique(other.values@, start[i as int].binding, w, j as int);
                    }
                    self.values[i].blend_with(&other.values[j], weight);
                },
                None => {},
            }
            i = i + 1;
        }
        assert(self.values@ =~= start.map_values(|b: BoundValue<R>| blended_with(b, other.values@, weight)));
    }

    /// Interpolates each value with the first value of `other` bound to the same
    /// property, into a new collection in the order of `self`. Values without such a
    /// counterpart, or whose counterpart has another shape, are left out.
    pub fn interpolate(&self, other: &Self, t: R) -> (r: Self)
        ensures
            r.values@ == interpolated_entries(self.values@, other.values@, t),
    {
        let ghost others = other.values@;
        let mut values: Vec<BoundValue<R>> = Vec::new();
        let mut i: usize = 0;
        while i < self.values.len()
            invariant
                0 <= i <= self.values@.len(),
                others == other.values@,
                values@ == interpolated_entries(self.values@.subrange(0, i as int), others, t),
            decreases self.values@.len() - i,
        {
            let ghost prefix = self.values@.subrange(0, i as int + 1);
            proof {
                assert(prefix.drop_last() =~= self.values@.subrange(0, i as int));
                assert(prefix.last() == self.values@[i as int]);
            }
            match find_binding(&other.values, &self.values[i].binding) {
                Some(j) => {
                    proof {
                        let w = choose|w: int| is_first_match(others, self.values@[i as int].binding, w);
                        lemma_first_match_unique(others, self.values@[i as int].binding, w, j as int);
                    }
                    match self.values[i].interpolate(&other.values[j], t) {
                        Some(v) => {
                            values.push(v);
                        },
                        None => {},
                    }
                },
                None => {},
            }
            i = i + 1;
        }
        proof {
            assert(self.values@.subrange(0, self.values@.len() as int) =~= self.values@);
        }
        BoundValueCollection { values }
    }
}

/// Why one value of a collection was not applied to a node.
#[derive(Clone, Debug, PartialEq)]
pub enum ApplyError {
    /// A position value is not a 3-dimensional vector.
    PositionNotVector3,
    /// A scale value is not a 3-dimensional vector.
    ScaleNotVector3,
    /// A rotation value is not a quaternion.
    RotationNotQuaternion,
    /// The value's shape is not the shape of the property's machine type.
    ShapeMismatch {
        property: String,
        value_type: ValueType,
    },
    /// The node has no field with the property's path.
    InvalidPath {
        property: String,
    },
    /// The node's field has another machine type than the binding declares.
    TypeMismatch {
        property: String,
    },
}

/// What goes wrong, if anything, when `entry` is applied to a node with the fields
/// `props`.
pub open spec fn entry_error<R: Real>(entry: BoundValue<R>, props: Seq<Property<R>>) -> Option<ApplyError> {
    match entry.binding {
        ValueBinding::Position => if entry.value.spec_shape() == Shape::Vector3 {
            None
        } else {
            Some(ApplyError::PositionNotVector3)
        },
        ValueBinding::Scale => if entry.value.spec_shape() == Shape::Vector3 {
            None
        } else {
            Some(ApplyError::ScaleNotVector3)
        },
        ValueBinding::Rotation => if entry.value.spec_shape() == Shape::Quaternion {
            None
        } else {
            Some(ApplyError::RotationNotQuaternion)
        },
        ValueBinding::Property { name, value_type } => if value_type.spec_shape()
            != entry.value.spec_shape() {
            Some(ApplyError::ShapeMismatch { property: name, value_type })
        } else if !has_property(props, name@) {
            Some(ApplyError::InvalidPath { property: name })
        } else if !property_type_is(props, name@, value_type) {
            Some(ApplyError::TypeMismatch { property: name })
        } else {
            None
        },
    }
}

/// The errors of applying `entries` in order to a node with the fields `props`.
pub open spec fn apply_errors<R: Real>(entries: Seq<BoundValue<R>>, props: Seq<Property<R>>) -> Seq<
    ApplyError,
>
    decreases entries.len(),
{
    if entries.len() == 0 {
        Seq::empty()
    } else {
        let rest = apply_errors(entries.drop_last(), props);
        match entry_error(entries.last(), props) {
            Some(e) => rest.push(e),
            None => rest,
        }
    }
}

/// The transform after applying `entry` to a node whose transform was `t`: a
/// well-shaped position, scale or rotation replaces the one before.
pub open spec fn step_transform<R: Real>(entry: BoundValue<R>, t: Transform<R>) -> Transform<R> {
    match (entry.binding, entry.value) {
        (ValueBinding::Position, TrackValue::Vector3(v)) => Transform { position: v, ..t },
        (ValueBinding::Scale, TrackValue::Vector3(v)) => Transform { scale: v, ..t },
        (ValueBinding::Rotation, TrackValue::UnitQuaternion(q)) => Transform { rotation: q, ..t },
        _ => t,
    }
}

/// The transform after applying `entries` in order to a node whose transform was `t`.
pub open spec fn applied_transform<R: Real>(entries: Seq<BoundValue<R>>, t: Transform<R>) -> Transform<R>
    decreases entries.len(),
{
    if entries.len() == 0 {
        t
    } else {
        step_transform(entries.last(), applied_transform(entries.drop_last(), t))
    }
}

/// `entry` writes field `k` of `props`: it binds the path of that field, `k` is the
/// first field with that path, and it applies without error.
pub open spec fn writes_field<R: Real>(entry: BoundValue<R>, props: Seq<Property<R>>, k: int) -> bool {
    &&& entry.binding is Property
    &&& is_first_property(props, entry.binding->name@, k)
    &&& entry_error(entry, props) is None
}

/// `p` holds the value of the named-property entry `entry`, converted to the bound
/// machine type.
pub open spec fn holds_cast<R: Real>(p: Property<R>, entry: BoundValue<R>) -> bool {
    &&& entry.binding is Property
    &&& p.value.value_type == entry.binding->value_type
    &&& p.value.components@ == entry.value.spec_cast_components(entry.binding->value_type)
}

/// `entries[i]` writes field `k` of `props`, and no later entry does.
pub open spec fn last_writes_field<R: Real>(entries: Seq<BoundValue<R>>, props: Seq<Property<R>>, i: int, k: int) -> bool {
    &&& 0 <= i < entries.len()
    &&& writes_field(entries[i], props, k)
    &&& forall|l: int| i < l < entries.len() ==> !writes_field(#[trigger] entries[l], props, k)
}

/// Some entry of `entries` writes field `k` of `props`.
pub open spec fn some_writes_field<R: Real>(entries: Seq<BoundValue<R>>, props: Seq<Property<R>>, k: int) -> bool {
    exists|i: int| 0 <= i < entries.len() && writes_field(#[trigger] entries[i], props, k)
}

/// Errors and writes of an entry depend only on the paths and types of the fields.
proof fn lemma_entry_same_fields<R: Real>(entry: BoundValue<R>, a: Seq<Property<R>>, b: Seq<Property<R>>)
    requires
        same_fields(a, b),
    ensures
        entry_error(entry, a) == entry_error(entry, b),
        forall|k: int| writes_field(entry, a, k) == writes_field(entry, b, k),
{
    if let ValueBinding::Property { name, value_type } = entry.binding {
        lemma_same_fields_lookup(a, b, name@);
    }
}

impl<R: Real> BoundValueCollection<R> {
    /// Applies one value to `node` (see [`BoundValueCollection::apply`]).
    fn apply_one<L>(entry: &BoundValue<R>, node: &mut Node<R, L>) -> (r: Option<ApplyError>)
        ensures
            r == entry_error(*entry, old(node).properties@),
            final(node).local_transform == step_transform(*entry, old(node).local_transform),
            final(node).variant == old(node).variant,
            same_fields(final(node).properties@, old(node).properties@),
            forall|k: int|
                0 <= k < old(node).properties@.len() && !writes_field(
                    *entry,
                    old(node).properties@,
                    k,
                ) ==> #[trigger] final(node).properties@[k] == old(node).properties@[k],
            forall|k: int|
                0 <= k < old(node).properties@.len() && writes_field(*entry, old(node).properties@, k)
                    ==> holds_cast(#[trigger] final(node).properties@[k], *entry),
    {
        match &entry.binding {
            ValueBinding::Position => match &entry.value {
                TrackValue::Vector3(v) => {
                    node.set_position(*v);
                    None
                },
                _ => Some(ApplyError::PositionNotVector3),
            },
            ValueBinding::Scale => match &entry.value {
                TrackValue::Vector3(v) => {
                    node.set_scale(*v);
                    None
                },
                _ => Some(ApplyError::ScaleNotVector3),
            },
            ValueBinding::Rotation => match &entry.value {
                TrackValue::UnitQuaternion(q) => {
                    node.set_rotation(*q);
                    None
                },
                _ => Some(ApplyError::RotationNotQuaternion),
            },
            ValueBinding::Property { name, value_type } => {
                match entry.value.numeric_type_cast(*value_type) {
                    None => Some(
                        ApplyError::ShapeMismatch { property: name.clone(), value_type: *value_type },
                    ),
                    Some(converted) => {
                        let ghost props = node.properties@;
                        let r = node.set_field_by_path(name.as_str(), converted);
                        proof {
                            if has_property(props, name@) {
                                let j = choose|j: int| 0 <= j < props.len() && (#[trigger] props[j]).name@ == name@;
                                lemma_first_exists(props, name@, j);
                            }
                        }
                        match r {
                            Ok(()) => None,
                            Err(SetFieldError::InvalidPath { .. }) => Some(
                                ApplyError::InvalidPath { property: name.clone() },
                            ),
                            Err(SetFieldError::InvalidValue(_)) => Some(
                                ApplyError::TypeMismatch { property: name.clone() },
                            ),
                        }
                    },
                }
            },
        }
    }

    /// Writes each value, in order, into the property of `node` its binding names.
    /// Positions and scales must be 3-dimensional vectors and rotations quaternions;
    /// other properties get the value converted to their declared machine type
    /// (see [`TrackValue::numeric_type_cast`]) and written by path. A value that cannot
    /// be written is skipped and its error reported; the others are still applied.
    pub fn apply<L>(&self, node: &mut Node<R, L>) -> (errors: Vec<ApplyError>)
        ensures
            errors@ == apply_errors(self.values@, old(node).properties@),
            final(node).local_transform == applied_transform(self.values@, old(node).local_transform),
            final(node).variant == old(node).variant,
            same_fields(final(node).properties@, old(node).properties@),
            forall|k: int|
                0 <= k < old(node).properties@.len() && !some_writes_field(
                    self.values@,
                    old(node).properties@,
                    k,
                ) ==> #[trigger] final(node).properties@[k] == old(node).properties@[k],
            forall|i: int, k: int|
                0 <= k < old(node).properties@.len() && #[trigger] last_writes_field(
                    self.values@,
                    old(node).properties@,
                    i,
                    k,
                ) ==> holds_cast(final(node).properties@[k], self.values@[i]),
    {
        let ghost props0 = node.properties@;
        let ghost t0 = node.local_transform;
        let ghost variant0 = node.variant;
        let mut errors: Vec<ApplyError> = Vec::new();
        let mut i: usize = 0;
        while i < self.values.len()
            invariant
                0 <= i <= self.values@.len(),
                errors@ == apply_errors(self.values@.subrange(0, i as int), props0),
                node.local_transform == applied_transform(self.values@.subrange(0, i as int), t0),
                node.variant == variant0,
                same_fields(node.properties@, props0),
                forall|k: int|
                    0 <= k < props0.len() && !some_writes_field(
                        self.values@.subrange(0, i as int),
                        props0,
                        k,
                    ) ==> #[trigger] node.properties@[k] == props0[k],
                forall|w: int, k: int|
                    0 <= k < props0.len() && #[trigger] last_writes_field(
                        self.values@.subrange(0, i as int),
                        props0,
                        w,
                        k,
                    ) ==> holds_cast(node.properties@[k], self.values@[w]),
            decreases self.values@.len() - i,
        {
            let ghost before = self.values@.subrange(0, i as int);
            let ghost prefix = self.values@.subrange(0, i as int + 1);
            let ghost entry = self.values@[i as int];
            let ghost props_before = node.properties@;
            proof {
                assert(prefix.drop_last() =~= before);
                assert(prefix.last() == entry);
                lemma_entry_same_fields(entry, props_before, props0);
            }
            let outcome = Self::apply_one(&self.values[i], node);
            proof {
                assert forall|k: int|
                    0 <= k < props0.len() && !some_writes_field(prefix, props0, k) implies #[trigger] node.properties@[k]
                    == props0[k] by {
                    assert forall|w: int| 0 <= w < i implies #[trigger] before[w] == prefix[w] by {}
                    if some_writes_field(before, props0, k) {
                        let w = choose|w: int| 0 <= w < before.len() && writes_field(#[trigger] before[w], props0, k);
                        assert(writes_field(prefix[w], props0, k));
                    }
                    assert(!writes_field(prefix[i as int], props0, k));
                }
                assert forall|w: int, k: int|
                    0 <= k < props0.len() && #[trigger] last_writes_field(prefix, props0, w, k) implies holds_cast(
                    node.properties@[k],
                    self.values@[w],
                ) by {
                    assert(prefix[w] == self.values@[w]);
                    if w < i {
                        assert(prefix[i as int] == entry);
                        assert(!writes_field(entry, props0, k));
                        assert forall|l: int| w < l < before.len() implies !writes_field(#[trigger] before[l], props0, k) by {
                            assert(before[l] == prefix[l]);
                        }
                        assert(last_writes_field(before, props0, w, k));
                    }
                }
            }
            match outcome {
                Some(e) => errors.push(e),
                None => {},
            }
            i = i + 1;
        }
        proof {
            assert(self.values@.subrange(0, self.values@.len() as int) =~= self.values@);
        }
        errors
    }
}

} // verus!
