use scene_anim::node::{Node, NodeVariant, Property, SetFieldError, Transform};
use scene_anim::terrain::{Chunk, ModifyTerrainHeightCommand, Terrain};
use scene_anim::value::{
    ApplyError, BoundValue, BoundValueCollection, NumericValue, Primitive, Real, Shape, TrackValue,
    ValueBinding, ValueType,
};

#[derive(Clone, Copy, Debug, PartialEq)]
struct F(f32);

impl Real for F {
    type Wide = f64;

    fn spec_times(self, factor: Self) -> Self {
        self.times(factor)
    }

    fn spec_plus(self, other: Self) -> Self {
        self.plus(other)
    }

    fn spec_lerp(self, other: Self, t: Self) -> Self {
        self.lerp(other, t)
    }

    fn spec_nlerp(a: [Self; 4], b: [Self; 4], t: Self) -> [Self; 4] {
        Self::nlerp(a, b, t)
    }

    fn spec_is_nonzero(self) -> bool {
        self.is_nonzero()
    }

    fn spec_widen(self) -> f64 {
        self.widen()
    }

    fn spec_to_u64(self) -> u64 {
        self.to_u64()
    }

    fn spec_to_i64(self) -> i64 {
        self.to_i64()
    }

    fn spec_to_u32(self) -> u32 {
        self.to_u32()
    }

    fn spec_to_i32(self) -> i32 {
        self.to_i32()
    }

    fn spec_to_u16(self) -> u16 {
        self.to_u16()
    }

    fn spec_to_i16(self) -> i16 {
        self.to_i16()
    }

    fn spec_to_u8(self) -> u8 {
        self.to_u8()
    }

    fn spec_to_i8(self) -> i8 {
        self.to_i8()
    }

    fn times(self, factor: Self) -> Self {
        F(self.0 * factor.0)
    }

    fn plus(self, other: Self) -> Self {
        F(self.0 + other.0)
    }

    fn lerp(self, other: Self, t: Self) -> Self {
        F(self.0 + (other.0 - self.0) * t.0)
    }

    fn nlerp(a: [Self; 4], b: [Self; 4], t: Self) -> [Self; 4] {
        let mut q = [0.0f32; 4];
        for i in 0..4 {
            q[i] = a[i].0 * (1.0 - t.0) + b[i].0 * t.0;
        }
        let n = (q[0] * q[0] + q[1] * q[1] + q[2] * q[2] + q[3] * q[3]).sqrt();
        [F(q[0] / n), F(q[1] / n), F(q[2] / n), F(q[3] / n)]
    }

    fn is_nonzero(self) -> bool {
        self.0 != 0.0
    }

    fn widen(self) -> f64 {
        self.0 as f64
    }

    fn to_u64(self) -> u64 {
        self.0 as u64
    }

    fn to_i64(self) -> i64 {
        self.0 as i64
    }

    fn to_u32(self) -> u32 {
        self.0 as u32
    }

    fn to_i32(self) -> i32 {
        self.0 as i32
    }

    fn to_u16(self) -> u16 {
        self.0 as u16
    }

    fn to_i16(self) -> i16 {
        self.0 as i16
    }

    fn to_u8(self) -> u8 {
        self.0 as u8
    }

    fn to_i8(self) -> i8 {
        self.0 as i8
    }
}

fn v3(x: f32, y: f32, z: f32) -> TrackValue<F> {
    TrackValue::Vector3([F(x), F(y), F(z)])
}

fn quat(i: f32, j: f32, k: f32, w: f32) -> TrackValue<F> {
    TrackValue::UnitQuaternion([F(i), F(j), F(k), F(w)])
}

fn prop(name: &str, value_type: ValueType) -> ValueBinding {
    ValueBinding::Property { name: name.to_string(), value_type }
}

fn bound(binding: ValueBinding, value: TrackValue<F>) -> BoundValue<F> {
    BoundValue { binding, value }
}

fn identity() -> Transform<F> {
    Transform {
        position: [F(0.0); 3],
        scale: [F(1.0); 3],
        rotation: [F(0.0), F(0.0), F(0.0), F(1.0)],
    }
}

fn i32_value(v: i32) -> NumericValue<F> {
    NumericValue { value_type: ValueType::I32, components: vec![Primitive::I32(v)] }
}

#[test]
fn interpolate_equal_endpoints_gives_the_value() {
    let values = vec![
        TrackValue::Real(F(2.5)),
        TrackValue::Vector2([F(1.0), F(-3.0)]),
        v3(1.0, 2.0, 3.0),
        TrackValue::Vector4([F(0.5), F(1.5), F(-2.0), F(7.0)]),
    ];
    for v in values {
        for t in [0.0f32, 0.25, 0.5, 1.0] {
            assert_eq!(v.interpolate(&v, F(t)), Some(v));
        }
    }
}

#[test]
fn interpolate_equal_quaternions_stays_unit() {
    let h = 0.5f32.sqrt();
    let q = quat(0.0, h, 0.0, h);
    for t in [0.0f32, 0.3, 1.0] {
        match q.interpolate(&q, F(t)) {
            Some(TrackValue::UnitQuaternion(r)) => {
                let n = (r.iter().map(|c| c.0 * c.0).sum::<f32>()).sqrt();
                assert!((n - 1.0).abs() < 1e-5);
                assert!((r[1].0 - h).abs() < 1e-5 && (r[3].0 - h).abs() < 1e-5);
            }
            other => panic!("unexpected {:?}", other),
        }
    }
}

#[test]
fn interpolate_real_midpoint() {
    let a = TrackValue::Real(F(1.0));
    let b = TrackValue::Real(F(3.0));
    assert_eq!(a.interpolate(&b, F(0.5)), Some(TrackValue::Real(F(2.0))));
    assert_eq!(v3(0.0, 0.0, 0.0).interpolate(&v3(2.0, 4.0, 8.0), F(0.25)), Some(v3(0.5, 1.0, 2.0)));
}

#[test]
fn mismatched_interpolate_is_none() {
    let all = vec![
        TrackValue::Real(F(1.0)),
        TrackValue::Vector2([F(1.0), F(2.0)]),
        v3(1.0, 2.0, 3.0),
        TrackValue::Vector4([F(1.0), F(2.0), F(3.0), F(4.0)]),
        quat(0.0, 0.0, 0.0, 1.0),
    ];
    for (i, a) in all.iter().enumerate() {
        for (j, b) in all.iter().enumerate() {
            if i != j {
                assert_eq!(a.interpolate(b, F(0.5)), None);
            }
        }
    }
}

#[test]
fn mismatched_blend_leaves_value() {
    let all = vec![
        TrackValue::Real(F(1.0)),
        TrackValue::Vector2([F(1.0), F(2.0)]),
        v3(1.0, 2.0, 3.0),
        TrackValue::Vector4([F(1.0), F(2.0), F(3.0), F(4.0)]),
        quat(0.0, 0.0, 0.0, 1.0),
    ];
    for (i, a) in all.iter().enumerate() {
        for (j, b) in all.iter().enumerate() {
            if i != j {
                let mut c = *a;
                c.blend_with(b, F(0.7));
                assert_eq!(c, *a);
            }
        }
    }
}

#[test]
fn blend_adds_weighted_other() {
    let mut a = TrackValue::Real(F(1.0));
    a.blend_with(&TrackValue::Real(F(2.0)), F(0.5));
    assert_eq!(a, TrackValue::Real(F(2.0)));
    let mut v = v3(1.0, 1.0, 1.0);
    v.blend_with(&v3(2.0, 4.0, 6.0), F(0.5));
    assert_eq!(v, v3(2.0, 3.0, 4.0));
}

#[test]
fn blend_quaternions_nlerp() {
    let mut a = quat(0.0, 0.0, 0.0, 1.0);
    a.blend_with(&quat(0.0, 1.0, 0.0, 0.0), F(0.5));
    let h = 0.5f32.sqrt();
    match a {
        TrackValue::UnitQuaternion(q) => {
            assert!((q[1].0 - h).abs() < 1e-5 && (q[3].0 - h).abs() < 1e-5);
            assert!(q[0].0.abs() < 1e-6 && q[2].0.abs() < 1e-6);
        }
        other => panic!("unexpected {:?}", other),
    }
}

#[test]
fn weighted_clone_scales_but_not_rotations() {
    assert_eq!(TrackValue::Real(F(2.0)).weighted_clone(F(3.0)), TrackValue::Real(F(6.0)));
    assert_eq!(v3(1.0, 2.0, 3.0).weighted_clone(F(2.0)), v3(2.0, 4.0, 6.0));
    let q = quat(0.0, 0.6, 0.0, 0.8);
    assert_eq!(q.weighted_clone(F(0.1)), q);
}

#[test]
fn cast_real_to_i32_truncates() {
    let r = TrackValue::Real(F(5.7)).numeric_type_cast(ValueType::I32).unwrap();
    assert_eq!(r, i32_value(5));
}

#[test]
fn cast_negative_real_to_bool_is_true() {
    let r = TrackValue::Real(F(-1.0)).numeric_type_cast(ValueType::Bool).unwrap();
    assert_eq!(r.components, vec![Primitive::Bool(true)]);
    assert_eq!(r.value_type, ValueType::Bool);
}

#[test]
fn cast_zero_real_to_bool_is_false() {
    let r = TrackValue::Real(F(0.0)).numeric_type_cast(ValueType::Bool).unwrap();
    assert_eq!(r.components, vec![Primitive::Bool(false)]);
}

#[test]
fn cast_vector3_to_vector2_is_none() {
    assert_eq!(v3(1.0, 2.0, 3.0).numeric_type_cast(ValueType::Vector2F32), None);
    assert_eq!(v3(1.0, 2.0, 3.0).numeric_type_cast(ValueType::F32), None);
    assert_eq!(quat(0.0, 0.0, 0.0, 1.0).numeric_type_cast(ValueType::Vector4F32), None);
}

#[test]
fn cast_vector3_to_u8_saturates() {
    let r = v3(300.0, -5.0, 7.9).numeric_type_cast(ValueType::Vector3U8).unwrap();
    assert_eq!(r.components, vec![Primitive::U8(255), Primitive::U8(0), Primitive::U8(7)]);
}

#[test]
fn cast_keeps_reals_and_widens() {
    let r = TrackValue::Vector2([F(1.5), F(-2.0)]).numeric_type_cast(ValueType::Vector2F32).unwrap();
    assert_eq!(r.components, vec![Primitive::F32(F(1.5)), Primitive::F32(F(-2.0))]);
    let w = quat(0.0, 0.0, 0.5, 1.0).numeric_type_cast(ValueType::UnitQuaternionF64).unwrap();
    assert_eq!(
        w.components,
        vec![Primitive::F64(0.0), Primitive::F64(0.0), Primitive::F64(0.5), Primitive::F64(1.0)]
    );
    let s = TrackValue::Real(F(-3.9)).numeric_type_cast(ValueType::I8).unwrap();
    assert_eq!(s.components, vec![Primitive::I8(-3)]);
}

#[test]
fn value_type_shapes() {
    assert_eq!(ValueType::default(), ValueType::F32);
    assert_eq!(ValueType::Vector3I16.shape(), Shape::Vector3);
    assert_eq!(ValueType::UnitQuaternionF64.shape(), Shape::Quaternion);
    assert_eq!(ValueType::U16.shape(), Shape::Scalar);
}

#[test]
fn bindings_compare_by_path_and_type() {
    assert_eq!(prop("a.b", ValueType::F32), prop("a.b", ValueType::F32));
    assert_ne!(prop("a.b", ValueType::F32), prop("a.b", ValueType::I32));
    assert_ne!(prop("a.b", ValueType::F32), prop("a.c", ValueType::F32));
    assert_ne!(ValueBinding::Position, ValueBinding::Scale);
    assert_eq!(ValueBinding::Rotation.clone(), ValueBinding::Rotation);
    assert_eq!(ValueBinding::Position.name(), "Position");
    assert_eq!(prop("foo.bar[1]", ValueType::U8).name(), "foo.bar[1]");
}

#[test]
fn collection_interpolate_keeps_common_bindings() {
    let a = BoundValueCollection {
        values: vec![
            bound(ValueBinding::Position, v3(0.0, 0.0, 0.0)),
            bound(ValueBinding::Scale, v3(1.0, 1.0, 1.0)),
        ],
    };
    let b = BoundValueCollection {
        values: vec![
            bound(ValueBinding::Position, v3(2.0, 2.0, 2.0)),
            bound(ValueBinding::Rotation, quat(0.0, 0.0, 0.0, 1.0)),
        ],
    };
    let r = a.interpolate(&b, F(0.5));
    assert_eq!(r.values, vec![bound(ValueBinding::Position, v3(1.0, 1.0, 1.0))]);
}

#[test]
fn collection_interpolate_drops_shape_mismatch() {
    let a = BoundValueCollection {
        values: vec![
            bound(prop("x", ValueType::F32), TrackValue::Real(F(1.0))),
            bound(ValueBinding::Scale, v3(1.0, 1.0, 1.0)),
        ],
    };
    let b = BoundValueCollection {
        values: vec![
            bound(ValueBinding::Scale, v3(3.0, 3.0, 3.0)),
            bound(prop("x", ValueType::F32), v3(1.0, 1.0, 1.0)),
        ],
    };
    let r = a.interpolate(&b, F(0.5));
    assert_eq!(r.values, vec![bound(ValueBinding::Scale, v3(2.0, 2.0, 2.0))]);
}

#[test]
fn collection_blend_leaves_missing_bindings() {
    let mut a = BoundValueCollection { values: vec![bound(ValueBinding::Position, v3(1.0, 2.0, 3.0))] };
    let before = a.clone();
    a.blend_with(&BoundValueCollection::new(), F(1.0));
    assert_eq!(a, before);
}

#[test]
fn collection_blend_uses_first_match() {
    let mut a = BoundValueCollection {
        values: vec![
            bound(ValueBinding::Position, v3(1.0, 1.0, 1.0)),
            bound(ValueBinding::Scale, v3(1.0, 1.0, 1.0)),
        ],
    };
    let b = BoundValueCollection {
        values: vec![
            bound(ValueBinding::Position, v3(2.0, 2.0, 2.0)),
            bound(ValueBinding::Position, v3(100.0, 100.0, 100.0)),
        ],
    };
    a.blend_with(&b, F(0.5));
    assert_eq!(
        a.values,
        vec![
            bound(ValueBinding::Position, v3(2.0, 2.0, 2.0)),
            bound(ValueBinding::Scale, v3(1.0, 1.0, 1.0)),
        ]
    );
}

#[test]
fn collection_weighted_clone_keeps_order() {
    let a = BoundValueCollection {
        values: vec![
            bound(ValueBinding::Scale, v3(1.0, 2.0, 3.0)),
            bound(ValueBinding::Rotation, quat(0.0, 0.0, 0.0, 1.0)),
            bound(prop("w", ValueType::F64), TrackValue::Real(F(4.0))),
        ],
    };
    let r = a.weighted_clone(F(0.5));
    assert_eq!(
        r.values,
        vec![
            bound(ValueBinding::Scale, v3(0.5, 1.0, 1.5)),
            bound(ValueBinding::Rotation, quat(0.0, 0.0, 0.0, 1.0)),
            bound(prop("w", ValueType::F64), TrackValue::Real(F(2.0))),
        ]
    );
}

#[test]
fn bound_value_interpolate_and_blend() {
    let a = bound(ValueBinding::Position, v3(0.0, 0.0, 0.0));
    let b = bound(ValueBinding::Position, v3(4.0, 4.0, 4.0));
    assert_eq!(a.interpolate(&b, F(0.25)), Some(bound(ValueBinding::Position, v3(1.0, 1.0, 1.0))));
    let mut c = a.clone();
    c.blend_with(&b, F(0.5));
    assert_eq!(c, bound(ValueBinding::Position, v3(2.0, 2.0, 2.0)));
    assert_eq!(a.weighted_clone(F(2.0)), a);
}

fn animated_node() -> Node<F, String> {
    let mut node = Node::new(identity(), NodeVariant::Mesh);
    node.add_property("health".to_string(), i32_value(0));
    node.add_property("visible".to_string(), NumericValue {
        value_type: ValueType::Bool,
        components: vec![Primitive::Bool(false)],
    });
    node
}

#[test]
fn apply_skips_missing_path_and_applies_rest() {
    let mut node = animated_node();
    let set = BoundValueCollection {
        values: vec![
            bound(ValueBinding::Position, v3(1.0, 2.0, 3.0)),
            bound(prop("no.such.field", ValueType::F32), TrackValue::Real(F(1.0))),
            bound(prop("health", ValueType::I32), TrackValue::Real(F(5.7))),
        ],
    };
    let errors = set.apply(&mut node);
    assert_eq!(errors, vec![ApplyError::InvalidPath { property: "no.such.field".to_string() }]);
    assert_eq!(node.local_transform.position, [F(1.0), F(2.0), F(3.0)]);
    assert_eq!(node.properties[0], Property { name: "health".to_string(), value: i32_value(5) });
}

#[test]
fn apply_reports_each_kind_of_error() {
    let mut node = animated_node();
    let set = BoundValueCollection {
        values: vec![
            bound(ValueBinding::Position, TrackValue::Real(F(1.0))),
            bound(ValueBinding::Scale, quat(0.0, 0.0, 0.0, 1.0)),
            bound(ValueBinding::Rotation, v3(1.0, 0.0, 0.0)),
            bound(prop("health", ValueType::Vector2I32), TrackValue::Real(F(1.0))),
            bound(prop("health", ValueType::U8), TrackValue::Real(F(1.0))),
            bound(prop("visible", ValueType::Bool), TrackValue::Real(F(2.0))),
            bound(ValueBinding::Scale, v3(2.0, 2.0, 2.0)),
            bound(ValueBinding::Rotation, quat(0.0, 1.0, 0.0, 0.0)),
        ],
    };
    let errors = set.apply(&mut node);
    assert_eq!(
        errors,
        vec![
            ApplyError::PositionNotVector3,
            ApplyError::ScaleNotVector3,
            ApplyError::RotationNotQuaternion,
            ApplyError::ShapeMismatch { property: "health".to_string(), value_type: ValueType::Vector2I32 },
            ApplyError::TypeMismatch { property: "health".to_string() },
        ]
    );
    assert_eq!(node.local_transform.position, [F(0.0); 3]);
    assert_eq!(node.local_transform.scale, [F(2.0); 3]);
    assert_eq!(node.local_transform.rotation, [F(0.0), F(1.0), F(0.0), F(0.0)]);
    assert_eq!(node.properties[0].value, i32_value(0));
    assert_eq!(node.properties[1].value.components, vec![Primitive::Bool(true)]);
}

#[test]
fn set_field_by_path_errors() {
    let mut node = animated_node();
    assert_eq!(
        node.set_field_by_path("missing", i32_value(1)),
        Err(SetFieldError::InvalidPath { path: "missing".to_string() })
    );
    let wrong = NumericValue { value_type: ValueType::U32, components: vec![Primitive::U32(1)] };
    assert_eq!(node.set_field_by_path("health", wrong.clone()), Err(SetFieldError::InvalidValue(wrong)));
    assert_eq!(node.set_field_by_path("health", i32_value(9)), Ok(()));
    assert_eq!(node.properties[0].value, i32_value(9));
    assert_eq!(node.find_property("visible"), Some(1));
    assert_eq!(node.find_property("nothing"), None);
}

#[test]
fn mesh_is_not_a_terrain() {
    let node = animated_node();
    assert!(!node.is_terrain());
    assert!(node.as_terrain().is_none());
}

#[test]
fn terrain_node_downcast() {
    let terrain = Terrain {
        layers: vec!["grass".to_string()],
        chunks: vec![Chunk { heightmap: vec![F(1.0), F(2.0)], layer_masks: vec![vec![0; 4]] }],
        mask_size: 4,
    };
    let mut node: Node<F, String> = Node::new(identity(), NodeVariant::Terrain(terrain));
    assert!(node.is_terrain());
    assert_eq!(node.as_terrain().unwrap().layers, vec!["grass".to_string()]);
    let mut cmd = ModifyTerrainHeightCommand::new(vec![vec![F(1.0), F(2.0)]], vec![vec![F(7.0), F(7.0)]]);
    cmd.execute(node.as_terrain_mut());
    assert_eq!(node.as_terrain().unwrap().chunks[0].heightmap, vec![F(7.0), F(7.0)]);
}
