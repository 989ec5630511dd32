use vstd::prelude::*;
use glam::{DMat4, DVec3};

verus! {

#[verifier::external_type_specification]
#[verifier::external_body]
pub struct ExDMat4(glam::DMat4);

#[verifier::external_type_specification]
#[verifier::external_body]
pub struct ExDVec3(glam::DVec3);

/// The image of a point under a matrix, as `DMat4::transform_point3` computes it.
pub uninterp spec fn point_of(m: glam::DMat4, p: glam::DVec3) -> glam::DVec3;

/// The image of a direction under a matrix, as `DMat4::transform_vector3`
/// computes it.
pub uninterp spec fn vector_of(m: glam::DMat4, v: glam::DVec3) -> glam::DVec3;

/// The transpose of a matrix, as `DMat4::transpose` computes it.
pub uninterp spec fn transpose_of(m: glam::DMat4) -> glam::DMat4;

/// The inverse of a matrix, as `DMat4::inverse` computes it.
pub uninterp spec fn inverse_of(m: glam::DMat4) -> glam::DMat4;

/// A vector scaled to unit length, as `DVec3::normalize` computes it.
pub uninterp spec fn normalize_of(v: glam::DVec3) -> glam::DVec3;

/// Relies on glam's `DMat4::transform_point3`: the matrix applied to a point
/// (homogeneous `w = 1`, translation included); it depends on its arguments
/// alone.
pub assume_specification[ glam::DMat4::transform_point3 ](m: &glam::DMat4, rhs: glam::DVec3) -> (r:
    glam::DVec3)
    ensures
        r == point_of(*m, rhs),
;

/// Relies on glam's `DMat4::transform_vector3`: the linear part of the
/// matrix applied to a direction (homogeneous `w = 0`, no translation).
pub assume_specification[ glam::DMat4::transform_vector3 ](m: &glam::DMat4, rhs: glam::DVec3) -> (r:
    glam::DVec3)
    ensures
        r == vector_of(*m, rhs),
;

/// Relies on glam's `DMat4::transpose`.
pub assume_specification[ glam::DMat4::transpose ](m: &glam::DMat4) -> (r: glam::DMat4)
    ensures
        r == transpose_of(*m),
;

/// Relies on glam's `DMat4::inverse`: the matrix inverse.
pub assume_specification[ glam::DMat4::inverse ](m: &glam::DMat4) -> (r: glam::DMat4)
    ensures
        r == inverse_of(*m),
;

/// Relies on glam's `DVec3::normalize`: the vector scaled to unit length.
pub assume_specification[ glam::DVec3::normalize ](v: glam::DVec3) -> (r: glam::DVec3)
    ensures
        r == normalize_of(v),
;

/// Relies on glam's `DMat4::IDENTITY` constant.
#[verifier::external_body]
fn identity_matrix() -> DMat4 {
    DMat4::IDENTITY
}

/// An affine map from a local frame to the world, stored with its inverse so
/// that neither is ever recomputed.
#[derive(Clone, Copy, Debug)]
pub struct Transform {
    /// Local to world.
    pub m: DMat4,
    /// World to local.
    pub m_inv: DMat4,
}

impl Transform {
    /// The same map read the other way round.
    pub open spec fn inverse_spec(self) -> Transform {
        Transform { m: self.m_inv, m_inv: self.m }
    }

    /// Maps a direction: the linear part only, no translation.
    pub fn vector(&self, v: DVec3) -> (r: DVec3)
        ensures
            r == vector_of(self.m, v),
    {
        self.m.transform_vector3(v)
    }

    /// Maps a point: the full affine map.
    pub fn point(&self, p: DVec3) -> (r: DVec3)
        ensures
            r == point_of(self.m, p),
    {
        self.m.transform_point3(p)
    }

    /// Maps a surface normal through the inverse transpose of the linear
    /// part, and renormalises it.
    pub fn normal(&self, n: DVec3) -> (r: DVec3)
        ensures
            r == normalize_of(vector_of(transpose_of(self.m_inv), n)),
    {
        self.m_inv.transpose().transform_vector3(n).normalize()
    }

    /// Swaps the two stored matrices; nothing is recomputed.
    pub fn inverse(&self) -> (t: Transform)
        ensures
            t == self.inverse_spec(),
    {
        Transform { m: self.m_inv, m_inv: self.m }
    }

    /// The neutral map.
    pub fn identity() -> (t: Transform)
        ensures
            t.m == t.m_inv,
    {
        let i = identity_matrix();
        Transform { m: i, m_inv: i }
    }

    /// The map given by `m`, with its inverse computed here once.
    pub fn from_matrix(m: DMat4) -> (t: Transform)
        ensures
            t.m == m,
            t.m_inv == inverse_of(m),
    {
        Transform { m, m_inv: m.inverse() }
    }
}

/// Inverting twice gives back the very same transform, both matrices
/// included, so it maps every point, direction and normal exactly as `t` does.
pub proof fn lemma_inverse_round_trip(t: Transform, p: DVec3, v: DVec3, n: DVec3)
    ensures
        t.inverse_spec().inverse_spec() == t,
        point_of(t.inverse_spec().inverse_spec().m, p) == point_of(t.m, p),
        vector_of(t.inverse_spec().inverse_spec().m, v) == vector_of(t.m, v),
        normalize_of(vector_of(transpose_of(t.inverse_spec().inverse_spec().m_inv), n)) == normalize_of(
            vector_of(transpose_of(t.m_inv), n),
        ),
{
}

} // verus!
