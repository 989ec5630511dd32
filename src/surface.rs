use vstd::prelude::*;
use crate::json::{SceneError, field, json_member, json_str, str_is};
use crate::material::{Material, ObjectMaterial};

verus! {

/// The primitives a scene document can describe.
#[derive(Clone, Copy, Debug, PartialEq, Eq, Structural)]
pub enum SurfaceKind {
    Sphere,
    Quad,
}

/// The primitive a surface `type` names.
pub open spec fn parse_spec(kind: Seq<char>) -> Result<SurfaceKind, SceneError> {
    if kind == "sphere"@ {
        Ok(SurfaceKind::Sphere)
    } else if kind == "quad"@ {
        Ok(SurfaceKind::Quad)
    } else {
        Err(SceneError::UnknownSurface)
    }
}

/// The primitive a surface object's `type` names; a missing or non-string
/// `type` is unknown.
pub open spec fn kind_spec(j: serde_json::Value) -> Result<SurfaceKind, SceneError> {
    match json_member(j, "type"@) {
        Some(t) => match json_str(t) {
            Some(s) => parse_spec(s),
            None => Err(SceneError::UnknownSurface),
        },
        None => Err(SceneError::UnknownSurface),
    }
}

/// The material a surface object carries; it must have one.
pub open spec fn surface_material_spec(j: serde_json::Value) -> Result<ObjectMaterial, SceneError> {
    match json_member(j, "material"@) {
        Some(m) => ObjectMaterial::from_json_spec(m),
        None => Err(SceneError::MissingMaterial),
    }
}

impl SurfaceKind {
    /// The primitive named by a surface's `type`.
    pub fn parse(kind: &str) -> (r: Result<SurfaceKind, SceneError>)
        ensures
            r == parse_spec(kind@),
    {
        if str_is(kind, "sphere") {
            Ok(SurfaceKind::Sphere)
        } else if str_is(kind, "quad") {
            Ok(SurfaceKind::Quad)
        } else {
            Err(SceneError::UnknownSurface)
        }
    }

    /// Reads a surface object's `type`; one that is missing or not a string
    /// is unknown.
    pub fn from_json(j: &serde_json::Value) -> (r: Result<SurfaceKind, SceneError>)
        ensures
            r == kind_spec(*j),
    {
        match field(j, "type") {
            Some(t) => match t.as_str() {
                Some(s) => SurfaceKind::parse(s),
                None => Err(SceneError::UnknownSurface),
            },
            None => Err(SceneError::UnknownSurface),
        }
    }
}

/// Reads the material every surface object must carry.
pub fn surface_material(j: &serde_json::Value) -> (r: Result<ObjectMaterial, SceneError>)
    ensures
        r == surface_material_spec(*j),
{
    match field(j, "material") {
        Some(m) => ObjectMaterial::from_json(m),
        None => Err(SceneError::MissingMaterial),
    }
}

} // verus!
