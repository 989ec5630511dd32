use whitted::color::Color;
use whitted::json::{
    color_from_channels, dimension_or_default, resolution_from_json, safe_value_to_color, safe_value_to_i64, str_is,
    SceneError,
};
use whitted::material::{ConstantTexture, Lambertian, Material, ObjectMaterial, Texture};
use whitted::surface::{surface_material, SurfaceKind};

fn doc(text: &str) -> serde_json::Value {
    serde_json::from_str(text).unwrap()
}

#[test]
fn lambertian_scatters_with_albedo() {
    let l = Lambertian { albedo: ConstantTexture { color: Color::new(1, 2, 3) } };
    assert_eq!(l.scatter(), Some(Color::new(1, 2, 3)));
    assert_eq!(l.emitted(), Color::black());
}

#[test]
fn empty_material_absorbs() {
    assert_eq!(ObjectMaterial::EMPTY.scatter(), None);
    assert_eq!(ObjectMaterial::EMPTY.emitted(), Color::black());
}

#[test]
fn constant_texture_value() {
    let t = ConstantTexture { color: Color::new(4, 5, 6) };
    assert_eq!(t.value(), Color::new(4, 5, 6));
}

#[test]
fn material_from_parts() {
    assert_eq!(
        ObjectMaterial::from_parts("lambertian", Color::new(9, 9, 9)),
        Ok(ObjectMaterial::LAMBERTIAN(Lambertian { albedo: ConstantTexture { color: Color::new(9, 9, 9) } }))
    );
    assert_eq!(ObjectMaterial::from_parts("metal", Color::black()), Err(SceneError::UnknownMaterial));
}

#[test]
fn material_from_json_reads_albedo() {
    let m = ObjectMaterial::from_json(&doc(r#"{"type": "lambertian", "albedo": [200, 100, 50]}"#));
    assert_eq!(
        m,
        Ok(ObjectMaterial::LAMBERTIAN(Lambertian { albedo: ConstantTexture { color: Color::new(200, 100, 50) } }))
    );
    assert_eq!(m.unwrap().scatter(), Some(Color::new(200, 100, 50)));
}

#[test]
fn material_from_json_unknown_type() {
    assert_eq!(
        ObjectMaterial::from_json(&doc(r#"{"type": "glass", "albedo": [1, 2, 3]}"#)),
        Err(SceneError::UnknownMaterial)
    );
    assert_eq!(ObjectMaterial::from_json(&doc(r#"{"albedo": [1, 2, 3]}"#)), Err(SceneError::UnknownMaterial));
}

#[test]
fn surface_without_material_is_refused() {
    assert_eq!(surface_material(&doc(r#"{"type": "sphere", "radius": 2.0}"#)), Err(SceneError::MissingMaterial));
    let ok = surface_material(&doc(r#"{"type": "quad", "material": {"type": "lambertian", "albedo": [0, 255, 0]}}"#));
    assert_eq!(ok.unwrap().scatter(), Some(Color::new(0, 255, 0)));
}

#[test]
fn surface_kinds() {
    assert_eq!(SurfaceKind::parse("sphere"), Ok(SurfaceKind::Sphere));
    assert_eq!(SurfaceKind::parse("quad"), Ok(SurfaceKind::Quad));
    assert_eq!(SurfaceKind::parse("torus"), Err(SceneError::UnknownSurface));
    assert_eq!(SurfaceKind::from_json(&doc(r#"{"type": "quad"}"#)), Ok(SurfaceKind::Quad));
    assert_eq!(SurfaceKind::from_json(&doc(r#"{"type": 3}"#)), Err(SceneError::UnknownSurface));
}

#[test]
fn string_comparison() {
    assert!(str_is("quad", "quad"));
    assert!(!str_is("quad", "quads"));
}

#[test]
fn integer_accessor_defaults() {
    assert_eq!(safe_value_to_i64(&doc("17"), 1), 17);
    assert_eq!(safe_value_to_i64(&doc("-4"), 1), -4);
    assert_eq!(safe_value_to_i64(&doc("2.5"), 1), 1);
    assert_eq!(safe_value_to_i64(&doc(r#""8""#), 1), 1);
}

#[test]
fn color_accessor() {
    let d = Color::new(1, 1, 1);
    assert_eq!(safe_value_to_color(&doc("[10, 20, 30]"), d), Color::new(10, 20, 30));
    assert_eq!(safe_value_to_color(&doc(r#"[10, "x", 30]"#), d), Color::new(10, 0, 30));
    assert_eq!(safe_value_to_color(&doc("[300, 0, 0]"), d), d);
    assert_eq!(safe_value_to_color(&doc("[1, 2]"), d), d);
    assert_eq!(safe_value_to_color(&doc("null"), d), d);
}

#[test]
fn channels_in_range() {
    let d = Color::new(7, 7, 7);
    assert_eq!(color_from_channels(0, 128, 255, d), Color::new(0, 128, 255));
    assert_eq!(color_from_channels(-1, 0, 0, d), d);
    assert_eq!(color_from_channels(0, 0, 256, d), d);
}

#[test]
fn resolution_reads_width_and_height() {
    assert_eq!(resolution_from_json(&doc("[640, 480]")), (640, 480));
    assert_eq!(resolution_from_json(&doc(r#"[640, "tall"]"#)), (640, 512));
    assert_eq!(resolution_from_json(&doc("[-3, 0]")), (512, 512));
    assert_eq!(resolution_from_json(&doc("[100]")), (512, 512));
    assert_eq!(resolution_from_json(&doc("{}")), (512, 512));
}

#[test]
fn dimension_bounds() {
    assert_eq!(dimension_or_default(1), 1);
    assert_eq!(dimension_or_default(4294967295), 4294967295);
    assert_eq!(dimension_or_default(4294967296), 512);
    assert_eq!(dimension_or_default(0), 512);
}

#[test]
fn lambertian_and_texture_from_json() {
    let l = Lambertian::from_json(&doc("[30, 60, 90]")).unwrap();
    assert_eq!(l.albedo.color, Color::new(30, 60, 90));
    assert_eq!(ConstantTexture::from_json(&doc("[1, 2, 300]")).color, Color::black());
    let m = ObjectMaterial::from_json(&doc(r#"{"type": "lambertian"}"#));
    assert_eq!(m.unwrap().scatter(), Some(Color::black()));
}
