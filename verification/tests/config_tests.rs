use rustrt::bvh::SplitMethod;
use rustrt::integrators::{
    create_integrator, integrator_kind, IntegratorKind, IntegratorSettings, IntegratorType,
    PathTracerMISIntegrator,
};
use rustrt::samplers::{create_sampler, IndependentSampler, SamplerSettings, SamplerType};
use rustrt::scene_desc::{
    example_scene, first_unsupported_field, has_key,
    is_toplevel_field, material_kind, pixel_stream, surface_grouping, surface_kind,
    material_reference, texture_kind, transform_kind, AcceleratorSettings, ExampleScene,
    JsonShape, MaterialKind, MaterialReference, SurfaceGrouping, SurfaceKind,
    TextureKind, TransformKind,
};

fn strings(v: &[&str]) -> Vec<String> {
    v.iter().map(|s| s.to_string()).collect()
}

#[test]
fn independent_sampler_starts_at_zero() {
    let s = IndependentSampler::new(16);
    assert_eq!(s.sample_count(), 16);
    assert_eq!(s.seed(), 123);
    assert_eq!(s.current_sample(), 0);
    assert_eq!(s.current_dimension(), 0);
}

#[test]
fn sampler_advance_resets_dimension() {
    let mut s = IndependentSampler::new(4);
    s.start_pixel(3, 5);
    s.consume_dimensions(2);
    s.consume_dimensions(1);
    assert_eq!(s.current_dimension(), 3);
    s.advance();
    assert_eq!(s.current_dimension(), 0);
    assert_eq!(s.current_sample(), 1);
    assert_eq!(s.sample_count(), 4);
}

#[test]
fn sampler_defaults() {
    let s = create_sampler(None);
    assert_eq!(s.sample_count(), 1);
    assert_eq!(s.seed(), 123);
    let st = SamplerSettings { kind: None, samples: Some(8) };
    let s = create_sampler(Some(&st));
    assert_eq!(s.sample_count(), 8);
    let st = SamplerSettings { kind: Some("independent".to_string()), samples: None };
    match create_sampler(Some(&st)) {
        SamplerType::Independent(s) => assert_eq!(s.sample_count(), 1),
    }
}

#[test]
fn integrator_default_is_material_path_tracer() {
    match create_integrator(None) {
        IntegratorType::PathTracerMats(i) => assert_eq!(i.max_bounces, 64),
        other => panic!("unexpected {:?}", other),
    }
}

#[test]
fn integrator_kinds() {
    assert_eq!(integrator_kind("normals"), Some(IntegratorKind::Normals));
    assert_eq!(integrator_kind("ao"), Some(IntegratorKind::AmbientOcclusion));
    assert_eq!(integrator_kind("path_tracer_mats"), Some(IntegratorKind::PathTracerMats));
    assert_eq!(integrator_kind("path_tracer_nee"), Some(IntegratorKind::PathTracerNEE));
    assert_eq!(integrator_kind("path_tracer_mis"), Some(IntegratorKind::PathTracerMIS));
    assert_eq!(integrator_kind("path_tracer"), None);
    assert_eq!(integrator_kind(""), None);
}

#[test]
fn integrator_bounces() {
    let st = IntegratorSettings { kind: "path_tracer_nee".to_string(), max_bounces: Some(5) };
    match create_integrator(Some(&st)) {
        IntegratorType::PathTracerNEE(i) => assert_eq!(i.max_bounces, 5),
        other => panic!("unexpected {:?}", other),
    }
    let st = IntegratorSettings { kind: "path_tracer_mis".to_string(), max_bounces: None };
    match create_integrator(Some(&st)) {
        IntegratorType::PathTracerMIS(i) => assert_eq!(i.max_bounces(), 64),
        other => panic!("unexpected {:?}", other),
    }
    let st = IntegratorSettings { kind: "normals".to_string(), max_bounces: Some(3) };
    assert!(matches!(create_integrator(Some(&st)), IntegratorType::Normals(_)));
    assert_eq!(integrator_kind("whitted"), None);
}

#[test]
fn mis_integrator_new() {
    assert_eq!(PathTracerMISIntegrator::new(12).max_bounces(), 12);
}

#[test]
fn toplevel_fields() {
    assert!(is_toplevel_field("camera"));
    assert!(is_toplevel_field("media"));
    assert!(is_toplevel_field("background"));
    assert!(!is_toplevel_field("cameras"));
    assert_eq!(first_unsupported_field(&strings(&["camera", "surfaces", "sampler"])), None);
    assert_eq!(first_unsupported_field(&strings(&["camera", "lights", "foo"])), Some(1));
    assert_eq!(first_unsupported_field(&Vec::new()), None);
}

#[test]
fn example_scene_numbers() {
    assert_eq!(example_scene(0), Some(ExampleScene::Sphere));
    assert_eq!(example_scene(1), Some(ExampleScene::SpherePlane));
    assert_eq!(example_scene(2), Some(ExampleScene::Steinbach));
    assert_eq!(example_scene(3), Some(ExampleScene::Shirley));
    assert_eq!(example_scene(4), None);
    assert_eq!(example_scene(-1), None);
}

#[test]
fn pixel_streams_are_row_major() {
    assert_eq!(pixel_stream(0, 0, 512), 0);
    assert_eq!(pixel_stream(5, 2, 512), 1029);
    assert_eq!(pixel_stream(511, 0, 512), 511);
    assert_eq!(pixel_stream(0, 1, 512), 512);
}

#[test]
fn surface_kinds() {
    assert_eq!(surface_kind("sphere"), Some(SurfaceKind::Sphere));
    assert_eq!(surface_kind("quad"), Some(SurfaceKind::Quad));
    assert_eq!(surface_kind("triangle"), Some(SurfaceKind::Triangle));
    assert_eq!(surface_kind("mesh"), Some(SurfaceKind::Mesh));
    assert_eq!(surface_kind("group"), Some(SurfaceKind::Group));
    assert_eq!(surface_kind("Sphere"), None);
}

#[test]
fn material_kinds() {
    assert_eq!(material_kind("lambertian"), Some(MaterialKind::Lambertian));
    assert_eq!(material_kind("metal"), Some(MaterialKind::Metal));
    assert_eq!(material_kind("dielectric"), Some(MaterialKind::Dielectric));
    assert_eq!(material_kind("diffuse_light"), Some(MaterialKind::DiffuseLight));
    assert_eq!(material_kind("fresnel_blend"), Some(MaterialKind::FresnelBlend));
    assert_eq!(material_kind("phong"), Some(MaterialKind::Phong));
    assert_eq!(material_kind("blinn_phong"), Some(MaterialKind::BlinnPhong));
    assert_eq!(material_kind("glass"), None);
    assert!(MaterialKind::DiffuseLight.is_emissive());
    assert!(!MaterialKind::Lambertian.is_emissive());
    assert!(!MaterialKind::FresnelBlend.is_emissive());
}

#[test]
fn material_references() {
    assert_eq!(material_reference(JsonShape::String), MaterialReference::ByName);
    assert_eq!(material_reference(JsonShape::Object), MaterialReference::Inline);
    assert_eq!(material_reference(JsonShape::Number), MaterialReference::Inline);
}

#[test]
fn texture_kinds() {
    assert_eq!(texture_kind(JsonShape::Number, None), Some(TextureKind::Constant));
    assert_eq!(texture_kind(JsonShape::Array, None), Some(TextureKind::Constant));
    assert_eq!(texture_kind(JsonShape::Object, Some("checker")), Some(TextureKind::Checker));
    assert_eq!(texture_kind(JsonShape::Object, Some("marble")), Some(TextureKind::Marble));
    assert_eq!(texture_kind(JsonShape::Object, Some("image")), Some(TextureKind::Image));
    assert_eq!(texture_kind(JsonShape::Object, Some("constant")), Some(TextureKind::Constant));
    assert_eq!(texture_kind(JsonShape::Object, Some("noise")), None);
    assert_eq!(texture_kind(JsonShape::Object, None), None);
    assert_eq!(texture_kind(JsonShape::String, Some("checker")), None);
}

#[test]
fn transform_kinds() {
    assert_eq!(transform_kind(JsonShape::Array, &Vec::new()), Some(TransformKind::Chain));
    assert_eq!(
        transform_kind(JsonShape::Object, &strings(&["from", "to", "up"])),
        Some(TransformKind::LookAt)
    );
    assert_eq!(transform_kind(JsonShape::Object, &strings(&["o", "from"])), Some(TransformKind::LookAt));
    assert_eq!(transform_kind(JsonShape::Object, &strings(&["o", "x"])), Some(TransformKind::Frame));
    assert_eq!(
        transform_kind(JsonShape::Object, &strings(&["translate"])),
        Some(TransformKind::Translate)
    );
    assert_eq!(transform_kind(JsonShape::Object, &strings(&["scale"])), Some(TransformKind::Scale));
    assert_eq!(transform_kind(JsonShape::Object, &strings(&["angle"])), Some(TransformKind::AxisAngle));
    assert_eq!(transform_kind(JsonShape::Object, &strings(&["matrix"])), Some(TransformKind::Matrix));
    assert_eq!(transform_kind(JsonShape::Object, &strings(&["rotate"])), None);
    assert_eq!(transform_kind(JsonShape::Number, &Vec::new()), None);
    assert!(has_key(&strings(&["a", "b"]), "b"));
    assert!(!has_key(&strings(&["a", "b"]), "c"));
}

#[test]
fn groupings() {
    assert_eq!(surface_grouping(None), SurfaceGrouping::Linear);
    let st = AcceleratorSettings { kind: "bbh".to_string(), split_method: None };
    assert_eq!(surface_grouping(Some(&st)), SurfaceGrouping::Bvh(SplitMethod::Middle));
    let st = AcceleratorSettings { kind: "bbh".to_string(), split_method: Some(SplitMethod::Equal) };
    assert_eq!(surface_grouping(Some(&st)), SurfaceGrouping::Bvh(SplitMethod::Equal));
}
