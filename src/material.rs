use vstd::prelude::*;
use crate::color::Color;
use crate::json::{color_spec, field, json_member, json_str, safe_value_to_color, str_is, SceneError};

verus! {

/// A source of surface colour at a hit point.
pub trait Texture {
    /// The colour this texture gives.
    spec fn color_spec(&self) -> Color;

    fn value(&self) -> (c: Color)
        ensures
            c == self.color_spec(),
    ;
}

/// A texture of one colour everywhere.
#[derive(Clone, Copy, Debug, PartialEq, Eq, Structural)]
pub struct ConstantTexture {
    pub color: Color,
}

impl ConstantTexture {
    /// Reads the colour from a three-integer array, black where it is
    /// malformed.
    pub fn from_json(v: &serde_json::Value) -> (t: ConstantTexture)
        ensures
            t.color == color_spec(*v, Color { r: 0, g: 0, b: 0 }),
    {
        ConstantTexture { color: safe_value_to_color(v, Color::black()) }
    }
}

impl Texture for ConstantTexture {
    open spec fn color_spec(&self) -> Color {
        self.color
    }

    fn value(&self) -> (c: Color) {
        self.color
    }
}

/// How a surface answers light that reaches it. No material emits light:
/// scenes are lit by the background alone.
pub trait Material: Sized {
    /// The attenuation this material scatters with, `None` where it absorbs.
    spec fn scatter_spec(&self) -> Option<Color>;

    /// Light emitted from the surface towards the viewer.
    fn emitted(&self) -> (c: Color)
        ensures
            c == (Color { r: 0, g: 0, b: 0 }),
    ;

    /// The per-channel attenuation applied to the light a scattered ray
    /// brings back, or `None` where the surface absorbs all light.
    fn scatter(&self) -> (a: Option<Color>)
        ensures
            a == self.scatter_spec(),
    ;

    /// The material a scene document describes, or why it describes none.
    spec fn from_json_spec(j: serde_json::Value) -> Result<Self, SceneError>;

    /// Builds the material from its description in a scene document.
    fn from_json(j: &serde_json::Value) -> (r: Result<Self, SceneError>)
        ensures
            r == Self::from_json_spec(*j),
    ;
}

/// Diffuse reflection with a texture as albedo.
#[derive(Clone, Copy, Debug, PartialEq, Eq, Structural)]
pub struct Lambertian {
    pub albedo: ConstantTexture,
}

impl Material for Lambertian {
    /// The albedo is read from the value itself.
    open spec fn from_json_spec(j: serde_json::Value) -> Result<Lambertian, SceneError> {
        Ok(Lambertian { albedo: ConstantTexture { color: color_spec(j, Color { r: 0, g: 0, b: 0 }) } })
    }

    open spec fn scatter_spec(&self) -> Option<Color> {
        Some(self.albedo.color)
    }

    fn emitted(&self) -> (c: Color) {
        Color::black()
    }

    fn scatter(&self) -> (a: Option<Color>) {
        Some(self.albedo.value())
    }

    /// Reads the albedo colour array (black where malformed).
    fn from_json(j: &serde_json::Value) -> (r: Result<Lambertian, SceneError>) {
        Ok(Lambertian { albedo: ConstantTexture::from_json(j) })
    }
}

/// The materials a surface can carry.
#[derive(Clone, Copy, Debug, PartialEq, Eq, Structural)]
pub enum ObjectMaterial {
    LAMBERTIAN(Lambertian),
    /// A placeholder that neither emits nor scatters.
    EMPTY,
}

/// The material a document's `type` names, with the given albedo.
pub open spec fn from_parts_spec(kind: Seq<char>, albedo: Color) -> Result<ObjectMaterial, SceneError> {
    if kind == "lambertian"@ {
        Ok(ObjectMaterial::LAMBERTIAN(Lambertian { albedo: ConstantTexture { color: albedo } }))
    } else {
        Err(SceneError::UnknownMaterial)
    }
}

/// A material object's `type` text, empty where it has none.
pub open spec fn material_kind(j: serde_json::Value) -> Seq<char> {
    match json_member(j, "type"@) {
        Some(t) => match json_str(t) {
            Some(s) => s,
            None => ""@,
        },
        None => ""@,
    }
}

/// A material object's `albedo` colour, black where missing or malformed.
pub open spec fn material_albedo(j: serde_json::Value) -> Color {
    match json_member(j, "albedo"@) {
        Some(a) => color_spec(a, Color { r: 0, g: 0, b: 0 }),
        None => Color { r: 0, g: 0, b: 0 },
    }
}

impl ObjectMaterial {
    /// The material named by a document's `type`, with the albedo it gives.
    pub fn from_parts(kind: &str, albedo: Color) -> (r: Result<ObjectMaterial, SceneError>)
        ensures
            r == from_parts_spec(kind@, albedo),
    {
        if str_is(kind, "lambertian") {
            Ok(ObjectMaterial::LAMBERTIAN(Lambertian { albedo: ConstantTexture { color: albedo } }))
        } else {
            Err(SceneError::UnknownMaterial)
        }
    }
}

impl Material for ObjectMaterial {
    open spec fn from_json_spec(j: serde_json::Value) -> Result<ObjectMaterial, SceneError> {
        from_parts_spec(material_kind(j), material_albedo(j))
    }

    open spec fn scatter_spec(&self) -> Option<Color> {
        match self {
            ObjectMaterial::LAMBERTIAN(l) => l.scatter_spec(),
            ObjectMaterial::EMPTY => None,
        }
    }

    fn emitted(&self) -> (c: Color) {
        match self {
            ObjectMaterial::LAMBERTIAN(l) => l.emitted(),
            ObjectMaterial::EMPTY => Color::black(),
        }
    }

    fn scatter(&self) -> (a: Option<Color>) {
        match self {
            ObjectMaterial::LAMBERTIAN(l) => l.scatter(),
            ObjectMaterial::EMPTY => None,
        }
    }

    /// Reads a material object: its `type` must be `"lambertian"`, and its
    /// `albedo` is a colour array (black where missing or malformed).
    fn from_json(j: &serde_json::Value) -> (r: Result<ObjectMaterial, SceneError>) {
        let kind = match field(j, "type") {
            Some(t) => match t.as_str() {
                Some(s) => s,
                None => "",
            },
            None => "",
        };
        let albedo = match field(j, "albedo") {
            Some(a) => safe_value_to_color(a, Color::black()),
            None => Color::black(),
        };
        ObjectMaterial::from_parts(kind, albedo)
    }
}

} // verus!
