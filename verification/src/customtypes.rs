//! Vectors of three components, and spheres with their material.

use vstd::prelude::*;
use crate::scalar::Scalar;

verus! {

/// Blends `a` towards `b`: `b * weight + a * (1 - weight)`.
pub open spec fn spec_mix(a: Scalar, b: Scalar, weight: Scalar) -> Scalar {
    b.mul(weight).add(a.mul(Scalar::one().sub(weight)))
}

/// Blends `a` towards `b` by the factor `weight`.
#[verifier::when_used_as_spec(spec_mix)]
pub fn mix(a: Scalar, b: Scalar, weight: Scalar) -> (r: Scalar)
    ensures
        r == spec_mix(a, b, weight),
{
    b.mul(weight).add(a.mul(Scalar::one().sub(weight)))
}

/// A position, a direction or a colour.
#[derive(Clone, Copy, Debug)]
pub struct Vec3 {
    pub x: Scalar,
    pub y: Scalar,
    pub z: Scalar,
}

impl Vec3 {
    /// Every component is a zero, of either sign.
    pub open spec fn spec_is_zero(self) -> bool {
        self.x.is_zero() && self.y.is_zero() && self.z.is_zero()
    }

    /// The vector whose three components are positive zero.
    pub open spec fn spec_origin() -> Vec3 {
        Vec3 { x: Scalar::zero(), y: Scalar::zero(), z: Scalar::zero() }
    }

    /// `x*ox + y*oy + z*oz`, summed from the left.
    pub open spec fn spec_dot(self, other: Vec3) -> Scalar {
        self.x.mul(other.x).add(self.y.mul(other.y)).add(self.z.mul(other.z))
    }

    /// The squared length: the dot product with itself.
    pub open spec fn spec_length2(self) -> Scalar {
        self.spec_dot(self)
    }

    /// The length: the root of the squared length.
    pub open spec fn spec_length(self) -> Scalar {
        self.spec_length2().sqrt()
    }

    /// The sum, component by component.
    pub open spec fn spec_add(self, rhs: Vec3) -> Vec3 {
        Vec3 { x: self.x.add(rhs.x), y: self.y.add(rhs.y), z: self.z.add(rhs.z) }
    }

    /// The difference, component by component.
    pub open spec fn spec_sub(self, rhs: Vec3) -> Vec3 {
        Vec3 { x: self.x.sub(rhs.x), y: self.y.sub(rhs.y), z: self.z.sub(rhs.z) }
    }

    /// The product, component by component.
    pub open spec fn spec_mul(self, rhs: Vec3) -> Vec3 {
        Vec3 { x: self.x.mul(rhs.x), y: self.y.mul(rhs.y), z: self.z.mul(rhs.z) }
    }

    /// Every component multiplied by `factor`.
    pub open spec fn spec_scale(self, factor: Scalar) -> Vec3 {
        Vec3 { x: self.x.mul(factor), y: self.y.mul(factor), z: self.z.mul(factor) }
    }

    /// Every component with its sign flipped.
    pub open spec fn spec_negated(self) -> Vec3 {
        Vec3 { x: self.x.neg(), y: self.y.neg(), z: self.z.neg() }
    }

    /// The vector scaled to unit length. A vector whose squared length is not
    /// greater than zero (a zero vector, or one whose length is not a number)
    /// is its own normalization.
    pub open spec fn spec_normalized(self) -> Vec3 {
        if self.spec_length2().gt(Scalar::zero()) {
            self.spec_scale(Scalar::one().div(self.spec_length2().sqrt()))
        } else {
            self
        }
    }

    /// The vector of the three components.
    pub fn new(x: Scalar, y: Scalar, z: Scalar) -> (v: Vec3)
        ensures
            v == (Vec3 { x, y, z }),
    {
        Vec3 { x, y, z }
    }

    /// The zero vector: the origin, or black.
    pub fn origin() -> (v: Vec3)
        ensures
            v == Vec3::spec_origin(),
    {
        Vec3 { x: Scalar::zero(), y: Scalar::zero(), z: Scalar::zero() }
    }

    /// The squared length. That of a zero vector is a zero.
    pub fn length2(&self) -> (r: Scalar)
        ensures
            r == self.spec_length2(),
            self.spec_is_zero() ==> r.is_zero(),
    {
        self.dot(self)
    }

    /// The length.
    pub fn length(&self) -> (r: Scalar)
        ensures
            r == self.spec_length(),
    {
        self.length2().sqrt()
    }

    /// The dot product. That of two zero vectors is a zero.
    pub fn dot(&self, other: &Vec3) -> (r: Scalar)
        ensures
            r == self.spec_dot(*other),
            self.spec_is_zero() && other.spec_is_zero() ==> r.is_zero(),
    {
        self.x.mul(other.x).add(self.y.mul(other.y)).add(self.z.mul(other.z))
    }

    /// Scales the vector to unit length in place; a zero vector stays as it
    /// is.
    pub fn normalize(&mut self)
        ensures
            *final(self) == old(self).spec_normalized(),
            old(self).spec_is_zero() ==> *final(self) == *old(self),
    {
        let nor2 = self.length2();
        if nor2.gt(Scalar::zero()) {
            let inv_nor = Scalar::one().div(nor2.sqrt());
            self.x = self.x.mul(inv_nor);
            self.y = self.y.mul(inv_nor);
            self.z = self.z.mul(inv_nor);
        }
    }

    /// The first component: the abscissa, or red.
    pub fn x(&self) -> (r: Scalar)
        ensures
            r == self.x,
    {
        self.x
    }

    /// The second component: the ordinate, or green.
    pub fn y(&self) -> (r: Scalar)
        ensures
            r == self.y,
    {
        self.y
    }

    /// The third component: the depth, or blue.
    pub fn z(&self) -> (r: Scalar)
        ensures
            r == self.z,
    {
        self.z
    }

    /// `self + rhs`, component by component.
    pub fn add(&self, rhs: &Vec3) -> (v: Vec3)
        ensures
            v == self.spec_add(*rhs),
    {
        Vec3 { x: self.x.add(rhs.x), y: self.y.add(rhs.y), z: self.z.add(rhs.z) }
    }

    /// `self - rhs`, component by component.
    pub fn sub(&self, rhs: &Vec3) -> (v: Vec3)
        ensures
            v == self.spec_sub(*rhs),
    {
        Vec3 { x: self.x.sub(rhs.x), y: self.y.sub(rhs.y), z: self.z.sub(rhs.z) }
    }

    /// `self * rhs`, component by component.
    pub fn mul(&self, rhs: &Vec3) -> (v: Vec3)
        ensures
            v == self.spec_mul(*rhs),
    {
        Vec3 { x: self.x.mul(rhs.x), y: self.y.mul(rhs.y), z: self.z.mul(rhs.z) }
    }

    /// `self * factor`, every component by the same factor.
    pub fn scale(&self, factor: Scalar) -> (v: Vec3)
        ensures
            v == self.spec_scale(factor),
    {
        Vec3 { x: self.x.mul(factor), y: self.y.mul(factor), z: self.z.mul(factor) }
    }

    /// `-self`.
    pub fn negated(&self) -> (v: Vec3)
        ensures
            v == self.spec_negated(),
    {
        Vec3 { x: self.x.neg(), y: self.y.neg(), z: self.z.neg() }
    }
}

/// The two distances along a ray at which it meets a sphere.
#[derive(Clone, Copy, Debug)]
pub struct Crossing {
    /// Where the ray enters.
    pub t0: Scalar,
    /// Where the ray leaves.
    pub t1: Scalar,
}

impl Crossing {
    /// The distance at which the ray is taken to meet the sphere: where it
    /// enters, or where it leaves if the entry lies behind the origin.
    pub open spec fn spec_ahead(self) -> Scalar {
        if self.t0.lt(Scalar::zero()) {
            self.t1
        } else {
            self.t0
        }
    }

    /// The crossing that lies ahead of the origin.
    #[verifier::when_used_as_spec(spec_ahead)]
    pub fn ahead(self) -> (r: Scalar)
        ensures
            r == self.spec_ahead(),
    {
        if self.t0.lt(Scalar::zero()) {
            self.t1
        } else {
            self.t0
        }
    }
}

/// A sphere and its material. The square of the radius is kept beside the
/// radius and always equals its product with itself.
#[derive(Clone, Copy, Debug)]
pub struct Sphere {
    center: Vec3,
    radius: Scalar,
    radius2: Scalar,
    surface_color: Vec3,
    emission_color: Vec3,
    transparency: Scalar,
    reflection: Scalar,
}

impl Sphere {
    #[verifier::type_invariant]
    spec fn radius2_is_cached(self) -> bool {
        self.radius2 == self.radius.mul(self.radius)
    }

    /// The centre.
    pub closed spec fn spec_center(self) -> Vec3 {
        self.center
    }

    /// The radius.
    pub closed spec fn spec_radius(self) -> Scalar {
        self.radius
    }

    /// The colour of the surface.
    pub closed spec fn spec_surface_color(self) -> Vec3 {
        self.surface_color
    }

    /// The colour of the light that the sphere gives off.
    pub closed spec fn spec_emission_color(self) -> Vec3 {
        self.emission_color
    }

    /// How much light passes through the surface.
    pub closed spec fn spec_transparency(self) -> Scalar {
        self.transparency
    }

    /// How much light the surface mirrors.
    pub closed spec fn spec_reflection(self) -> Scalar {
        self.reflection
    }

    /// The sphere reflects or refracts: its transparency is below zero or
    /// its reflection above.
    pub open spec fn spec_is_specular(self) -> bool {
        self.spec_transparency().lt(Scalar::zero()) || self.spec_reflection().gt(Scalar::zero())
    }

    /// The sphere lets light through: its transparency is not zero.
    pub open spec fn spec_is_transparent(self) -> bool {
        !self.spec_transparency().is_zero()
    }

    /// The sphere is a light: the red part of its emission is above zero.
    pub open spec fn spec_is_light(self) -> bool {
        self.spec_emission_color().x.gt(Scalar::zero())
    }

    /// The vector from the ray's origin to the centre.
    pub open spec fn to_center(self, ray_origin: Vec3) -> Vec3 {
        self.spec_center().spec_sub(ray_origin)
    }

    /// How far along the ray the centre projects.
    pub open spec fn projection(self, ray_origin: Vec3, ray_dir: Vec3) -> Scalar {
        self.to_center(ray_origin).spec_dot(ray_dir)
    }

    /// The squared distance between the centre and the ray's line.
    pub open spec fn miss_distance2(self, ray_origin: Vec3, ray_dir: Vec3) -> Scalar {
        let l = self.to_center(ray_origin);
        let tca = self.projection(ray_origin, ray_dir);
        l.spec_dot(l).sub(tca.mul(tca))
    }

    /// Half the length of the chord that the ray cuts from the sphere.
    pub open spec fn half_chord(self, ray_origin: Vec3, ray_dir: Vec3) -> Scalar {
        self.spec_radius().mul(self.spec_radius()).sub(
            self.miss_distance2(ray_origin, ray_dir),
        ).sqrt()
    }

    /// The ray meets the sphere: the centre does not project behind the
    /// origin, and the line passes no farther from it than the radius.
    pub open spec fn spec_hits(self, ray_origin: Vec3, ray_dir: Vec3) -> bool {
        !self.projection(ray_origin, ray_dir).lt(Scalar::zero())
            && !self.miss_distance2(ray_origin, ray_dir).gt(
            self.spec_radius().mul(self.spec_radius()),
        )
    }

    /// The distances at which the ray enters and leaves the sphere, where it
    /// meets it: the projection of the centre, less and plus half the chord.
    pub open spec fn spec_crossing(self, ray_origin: Vec3, ray_dir: Vec3) -> Crossing {
        let tca = self.projection(ray_origin, ray_dir);
        let thc = self.half_chord(ray_origin, ray_dir);
        Crossing { t0: tca.sub(thc), t1: tca.add(thc) }
    }

    /// Makes a sphere and caches the square of its radius.
    pub fn new(
        center: Vec3,
        radius: Scalar,
        surface_color: Vec3,
        reflection: Scalar,
        transparency: Scalar,
        emission_color: Vec3,
    ) -> (s: Sphere)
        ensures
            s.spec_center() == center,
            s.spec_radius() == radius,
            s.spec_surface_color() == surface_color,
            s.spec_reflection() == reflection,
            s.spec_transparency() == transparency,
            s.spec_emission_color() == emission_color,
    {
        Sphere {
            center,
            radius,
            radius2: radius.mul(radius),
            surface_color,
            emission_color,
            transparency,
            reflection,
        }
    }

    /// Tests the ray against the sphere. On a hit the two distances are
    /// stored in `t0` and `t1`; on a miss both are left as they were.
    pub fn intersect(
        &self,
        ray_origin: &Vec3,
        ray_dir: &Vec3,
        t0: &mut Scalar,
        t1: &mut Scalar,
    ) -> (hit: bool)
        ensures
            hit == self.spec_hits(*ray_origin, *ray_dir),
            hit ==> *final(t0) == self.spec_crossing(*ray_origin, *ray_dir).t0,
            hit ==> *final(t1) == self.spec_crossing(*ray_origin, *ray_dir).t1,
            !hit ==> *final(t0) == *old(t0) && *final(t1) == *old(t1),
    {
        proof {
            use_type_invariant(self);
        }
        let l = self.center.sub(ray_origin);
        let tca = l.dot(ray_dir);
        if tca.lt(Scalar::zero()) {
            return false;
        }
        let d2 = l.dot(&l).sub(tca.mul(tca));
        if d2.gt(self.radius2) {
            return false;
        }
        let thc = self.radius2.sub(d2).sqrt();
        *t0 = tca.sub(thc);
        *t1 = tca.add(thc);
        true
    }

    /// Tests whether the sphere reflects or refracts.
    pub fn is_specular(&self) -> (r: bool)
        ensures
            r == self.spec_is_specular(),
    {
        self.transparency.lt(Scalar::zero()) || self.reflection.gt(Scalar::zero())
    }

    /// Tests whether the sphere lets light through.
    pub fn is_transparent(&self) -> (r: bool)
        ensures
            r == self.spec_is_transparent(),
    {
        !self.transparency.is_zero()
    }

    /// Tests whether the sphere is a light.
    pub fn is_light(&self) -> (r: bool)
        ensures
            r == self.spec_is_light(),
    {
        self.emission_color.x.gt(Scalar::zero())
    }

    /// The centre.
    pub fn center(&self) -> (r: &Vec3)
        ensures
            *r == self.spec_center(),
    {
        &self.center
    }

    /// The radius.
    pub fn radius(&self) -> (r: Scalar)
        ensures
            r == self.spec_radius(),
    {
        self.radius
    }

    /// How much light passes through the surface.
    pub fn transparency(&self) -> (r: Scalar)
        ensures
            r == self.spec_transparency(),
    {
        self.transparency
    }

    /// How much light the surface mirrors.
    pub fn reflection(&self) -> (r: Scalar)
        ensures
            r == self.spec_reflection(),
    {
        self.reflection
    }

    /// The colour of the surface.
    pub fn surface_color(&self) -> (r: &Vec3)
        ensures
            *r == self.spec_surface_color(),
    {
        &self.surface_color
    }

    /// The colour of the light that the sphere gives off.
    pub fn emission_color(&self) -> (r: &Vec3)
        ensures
            *r == self.spec_emission_color(),
    {
        &self.emission_color
    }
}

} // verus!
