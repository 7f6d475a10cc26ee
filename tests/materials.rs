use scene_anim::material::{
    Color, Material, MaterialError, MaterialProperty, PropertyDefinition, PropertyKind, PropertyValue,
    SamplerFallback, Shader,
};

fn def(name: &str, kind: PropertyKind<f32>) -> PropertyDefinition<f32> {
    PropertyDefinition { name: name.to_string(), kind }
}

fn shader() -> Shader<f32> {
    Shader {
        properties: vec![
            def("diffuseColor", PropertyKind::Color { r: 255, g: 128, b: 0, a: 255 }),
            def(
                "diffuseTexture",
                PropertyKind::Sampler { default: Some("brick.png".to_string()), fallback: SamplerFallback::White },
            ),
            def("normalTexture", PropertyKind::Sampler { default: None, fallback: SamplerFallback::Normal }),
            def("weights", PropertyKind::FloatArray(vec![0.5, 0.25])),
            def("layerIndex", PropertyKind::UInt(3)),
            def("layerIndex", PropertyKind::Int(-1)),
        ],
    }
}

fn material() -> Material<f32, String> {
    Material::from_shader(
        shader(),
        vec![None, Some("brick texture".to_string()), Some("unused".to_string()), None],
    )
}

#[test]
fn from_shader_fills_defaults() {
    let m = material();
    assert_eq!(
        m.property_ref("diffuseColor"),
        Some(&PropertyValue::Color(Color { r: 255, g: 128, b: 0, a: 255 }))
    );
    assert_eq!(
        m.property_ref("diffuseTexture"),
        Some(&PropertyValue::Sampler { value: Some("brick texture".to_string()), fallback: SamplerFallback::White })
    );
    assert_eq!(
        m.property_ref("normalTexture"),
        Some(&PropertyValue::Sampler { value: None, fallback: SamplerFallback::Normal })
    );
    assert_eq!(m.property_ref("weights"), Some(&PropertyValue::FloatArray(vec![0.5, 0.25])));
    assert_eq!(m.property_ref("layerIndex"), Some(&PropertyValue::Int(-1)));
    assert_eq!(m.property_ref("missing"), None);
    assert_eq!(m.shader(), &shader());
}

#[test]
fn set_property_of_same_type() {
    let mut m = material();
    assert_eq!(m.set_property("weights", PropertyValue::FloatArray(vec![1.0])), Ok(()));
    assert_eq!(m.property_ref("weights"), Some(&PropertyValue::FloatArray(vec![1.0])));
    assert_eq!(m.property_ref("layerIndex"), Some(&PropertyValue::Int(-1)));
    let white = PropertyValue::Color(Color { r: 255, g: 255, b: 255, a: 255 });
    assert_eq!(m.set_property("diffuseColor", white.clone()), Ok(()));
    assert_eq!(m.property_ref("diffuseColor"), Some(&white));
}

#[test]
fn set_property_type_mismatch() {
    let mut m = material();
    let r = m.set_property("layerIndex", PropertyValue::UInt(7));
    assert_eq!(
        r,
        Err(MaterialError::TypeMismatch {
            property_name: "layerIndex".to_string(),
            expected: PropertyValue::Int(-1),
            given: PropertyValue::UInt(7),
        })
    );
    assert_eq!(m.property_ref("layerIndex"), Some(&PropertyValue::Int(-1)));
}

#[test]
fn set_property_missing() {
    let mut m = material();
    assert_eq!(
        m.set_property("roughness", PropertyValue::Float(0.5)),
        Err(MaterialError::NoSuchProperty { property_name: "roughness".to_string() })
    );
}

#[test]
fn sampler_texture_access() {
    let m = material();
    assert_eq!(m.property_ref("diffuseTexture").unwrap().as_sampler(), Some("brick texture".to_string()));
    assert_eq!(m.property_ref("normalTexture").unwrap().as_sampler(), None);
    assert_eq!(m.property_ref("weights").unwrap().as_sampler(), None);
    assert!(PropertyValue::<f32, String>::Bool(true).same_kind(&PropertyValue::Bool(false)));
    assert!(!PropertyValue::<f32, String>::Int(1).same_kind(&PropertyValue::UInt(1)));
}

#[test]
fn properties_lists_each_name_once() {
    let m = material();
    let props = m.properties();
    assert_eq!(props.len(), 5);
    let mut names: Vec<&str> = props.iter().map(|p| p.name.as_str()).collect();
    names.sort();
    assert_eq!(names, vec!["diffuseColor", "diffuseTexture", "layerIndex", "normalTexture", "weights"]);
    assert!(props.contains(&MaterialProperty { name: "layerIndex".to_string(), value: PropertyValue::Int(-1) }));
}
