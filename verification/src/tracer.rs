//! The nearest-hit search and the recursive shader.

use vstd::prelude::*;
use vstd::arithmetic::power2::{lemma2_to64, lemma_pow2_pos, lemma_pow2_unfold, pow2};
use crate::customtypes::{mix, spec_mix, Crossing, Sphere, Vec3};
use crate::scalar::Scalar;

verus! {

/// How many times a ray may be reflected or refracted.
pub const MAX_RAY_DEPTH: i32 = 5;

/// The bits of `1e-4`, the offset that lifts a secondary ray off the surface.
pub const BIAS_BITS: u64 = 0x3f1a_36e2_eb1c_432d;

/// The bits of `1.1`, the index of refraction.
pub const IOR_BITS: u64 = 0x3ff1_9999_9999_999a;

/// The bits of `0.1`, the weight of full reflectance in the Fresnel term.
pub const FRESNEL_WEIGHT_BITS: u64 = 0x3fb9_9999_9999_999a;

/// The offset of a secondary ray's origin.
pub open spec fn spec_bias() -> Scalar {
    Scalar { bits: BIAS_BITS }
}

/// The index of refraction of every transparent sphere.
pub open spec fn spec_ior() -> Scalar {
    Scalar { bits: IOR_BITS }
}

/// The weight of full reflectance in the Fresnel term.
pub open spec fn spec_fresnel_weight() -> Scalar {
    Scalar { bits: FRESNEL_WEIGHT_BITS }
}

/// The colour of a ray that meets nothing: `(2, 2, 2)`.
pub open spec fn spec_background() -> Vec3 {
    Vec3 { x: Scalar::two(), y: Scalar::two(), z: Scalar::two() }
}

/// The background colour.
pub fn background() -> (color: Vec3)
    ensures
        color == spec_background(),
{
    Vec3::new(Scalar::two(), Scalar::two(), Scalar::two())
}

/// The sphere a ray meets first, by its place in the scene, and how far
/// along the ray.
#[derive(Clone, Copy, Debug)]
pub struct Hit {
    pub index: usize,
    pub distance: Scalar,
}

/// The distance at which a ray that meets `sphere` is taken to meet it.
pub open spec fn spec_distance(sphere: Sphere, ray_orig: Vec3, ray_dir: Vec3) -> Scalar {
    sphere.spec_crossing(ray_orig, ray_dir).spec_ahead()
}

/// The nearer of the best hit so far and a further one: the further one
/// replaces the best only where it is strictly nearer, and is the first
/// only where its distance is below infinity.
pub open spec fn spec_closer(best: Option<Hit>, index: usize, distance: Scalar) -> Option<Hit> {
    let bound = match best {
        Some(hit) => hit.distance,
        None => Scalar::infinity(),
    };
    if distance.lt(bound) {
        Some(Hit { index, distance })
    } else {
        best
    }
}

/// Takes one more hit into the search for the nearest.
pub fn closer(best: Option<Hit>, index: usize, distance: Scalar) -> (r: Option<Hit>)
    ensures
        r == spec_closer(best, index, distance),
{
    let bound = match best {
        Some(hit) => hit.distance,
        None => Scalar::infinity(),
    };
    if distance.lt(bound) {
        Some(Hit { index, distance })
    } else {
        best
    }
}

/// Sphere `j` of the scene is met by the ray at a distance below infinity.
pub open spec fn is_candidate(scene: Seq<Sphere>, ray_orig: Vec3, ray_dir: Vec3, j: int) -> bool {
    0 <= j < scene.len() && scene[j].spec_hits(ray_orig, ray_dir) && spec_distance(
        scene[j],
        ray_orig,
        ray_dir,
    ).lt(Scalar::infinity())
}

/// Sphere `i` is met, no sphere is met nearer, and every sphere before it is
/// met strictly farther.
pub open spec fn is_nearest(scene: Seq<Sphere>, ray_orig: Vec3, ray_dir: Vec3, i: int) -> bool {
    &&& is_candidate(scene, ray_orig, ray_dir, i)
    &&& forall|j: int| #[trigger]
        is_candidate(scene, ray_orig, ray_dir, j) ==> !spec_distance(
            scene[j],
            ray_orig,
            ray_dir,
        ).lt(spec_distance(scene[i], ray_orig, ray_dir))
    &&& forall|j: int|
        j < i && #[trigger] is_candidate(scene, ray_orig, ray_dir, j) ==> spec_distance(
            scene[i],
            ray_orig,
            ray_dir,
        ).lt(spec_distance(scene[j], ray_orig, ray_dir))
}

/// The nearest sphere along the ray, the first in scene order among equally
/// near ones; `None` where the ray meets no sphere.
pub open spec fn spec_nearest(scene: Seq<Sphere>, ray_orig: Vec3, ray_dir: Vec3) -> Option<Hit> {
    if exists|i: int| is_nearest(scene, ray_orig, ray_dir, i) {
        let i = choose|i: int| is_nearest(scene, ray_orig, ray_dir, i);
        Some(Hit { index: i as usize, distance: spec_distance(scene[i], ray_orig, ray_dir) })
    } else {
        None
    }
}

/// At most one sphere is the nearest.
pub proof fn lemma_nearest_unique(scene: Seq<Sphere>, ray_orig: Vec3, ray_dir: Vec3, a: int, b: int)
    requires
        is_nearest(scene, ray_orig, ray_dir, a),
        is_nearest(scene, ray_orig, ray_dir, b),
    ensures
        a == b,
{
    if a < b {
        assert(is_candidate(scene, ray_orig, ray_dir, a));
    } else if b < a {
        assert(is_candidate(scene, ray_orig, ray_dir, b));
    }
}

/// Searches the scene in order for the sphere that the ray meets first.
pub fn find_nearest(ray_orig: &Vec3, ray_dir: &Vec3, spheres: &Vec<Sphere>) -> (r: Option<Hit>)
    ensures
        r == spec_nearest(spheres@, *ray_orig, *ray_dir),
        r is Some ==> is_nearest(spheres@, *ray_orig, *ray_dir, r->0.index as int),
        r is Some ==> r->0.distance == spec_distance(
            spheres@[r->0.index as int],
            *ray_orig,
            *ray_dir,
        ),
        r is None ==> forall|j: int| !is_candidate(spheres@, *ray_orig, *ray_dir, j),
{
    let mut best: Option<Hit> = None;
    let mut i: usize = 0;
    while i < spheres.len()
        invariant
            i <= spheres.len(),
            best is None ==> forall|j: int|
                j < i ==> !is_candidate(spheres@, *ray_orig, *ray_dir, j),
            best is Some ==> {
                let b = best->0.index as int;
                let tnear = best->0.distance;
                &&& b < i
                &&& is_candidate(spheres@, *ray_orig, *ray_dir, b)
                &&& tnear == spec_distance(spheres@[b], *ray_orig, *ray_dir)
                &&& forall|j: int|
                    j < i && #[trigger] is_candidate(spheres@, *ray_orig, *ray_dir, j)
                        ==> !spec_distance(spheres@[j], *ray_orig, *ray_dir).lt(tnear)
                &&& forall|j: int|
                    j < b && #[trigger] is_candidate(spheres@, *ray_orig, *ray_dir, j)
                        ==> tnear.lt(spec_distance(spheres@[j], *ray_orig, *ray_dir))
            },
        decreases spheres.len() - i,
    {
        let mut t0 = Scalar::infinity();
        let mut t1 = Scalar::infinity();
        if spheres[i].intersect(ray_orig, ray_dir, &mut t0, &mut t1) {
            best = closer(best, i, (Crossing { t0, t1 }).ahead());
        }
        i += 1;
    }
    proof {
        match best {
            Some(hit) => {
                assert(is_nearest(spheres@, *ray_orig, *ray_dir, hit.index as int));
                let c = choose|c: int| is_nearest(spheres@, *ray_orig, *ray_dir, c);
                lemma_nearest_unique(spheres@, *ray_orig, *ray_dir, hit.index as int, c);
            },
            None => {
                assert forall|c: int| !is_nearest(spheres@, *ray_orig, *ray_dir, c) by {
                    assert(!is_candidate(spheres@, *ray_orig, *ray_dir, c));
                }
            },
        }
    }
    best
}

/// Where a ray meets a sphere: the point, the unit normal turned against the
/// ray, and whether the ray was leaving the sphere from inside.
#[derive(Clone, Copy, Debug)]
pub struct Surface {
    pub point: Vec3,
    pub normal: Vec3,
    pub inside: bool,
}

/// The surface that a ray meets at `distance` on a sphere around `center`.
/// The geometric normal points away from the centre; where the ray runs
/// along it, the ray is inside, and the normal is negated.
pub open spec fn spec_surface(
    ray_orig: Vec3,
    ray_dir: Vec3,
    center: Vec3,
    distance: Scalar,
) -> Surface {
    let point = ray_orig.spec_add(ray_dir.spec_scale(distance));
    let outward = point.spec_sub(center).spec_normalized();
    if ray_dir.spec_dot(outward).gt(Scalar::zero()) {
        Surface { point, normal: outward.spec_negated(), inside: true }
    } else {
        Surface { point, normal: outward, inside: false }
    }
}

/// The origin of a secondary ray on the outer side of the surface.
pub open spec fn spec_above(surface: Surface) -> Vec3 {
    surface.point.spec_add(surface.normal.spec_scale(spec_bias()))
}

/// The origin of a secondary ray on the inner side of the surface.
pub open spec fn spec_below(surface: Surface) -> Vec3 {
    surface.point.spec_sub(surface.normal.spec_scale(spec_bias()))
}

/// The share of reflected light: `(1 - facing)^3` blended towards one by a
/// tenth, where `facing` is the cosine between the normal and the reversed
/// ray.
pub open spec fn spec_fresnel(ray_dir: Vec3, normal: Vec3) -> Scalar {
    let facing_ratio = ray_dir.spec_dot(normal).neg();
    spec_mix(Scalar::one().sub(facing_ratio).cube(), Scalar::one(), spec_fresnel_weight())
}

/// The mirrored direction: `d - n * 2 * (d . n)`, scaled to unit length.
pub open spec fn spec_reflect_dir(ray_dir: Vec3, normal: Vec3) -> Vec3 {
    ray_dir.spec_sub(
        normal.spec_scale(Scalar::two()).spec_scale(ray_dir.spec_dot(normal)),
    ).spec_normalized()
}

/// The ratio of the refraction indices that the ray crosses.
pub open spec fn spec_eta(inside: bool) -> Scalar {
    if inside {
        spec_ior()
    } else {
        Scalar::one().div(spec_ior())
    }
}

/// The direction of the refracted ray by Snell's law, scaled to unit
/// length: `d * eta + n * (eta * cos_i - sqrt(k))` with
/// `k = 1 - eta^2 * (1 - cos_i^2)`. Where `k` is negative its root is not a
/// number, and neither is the direction.
pub open spec fn spec_refract_dir(ray_dir: Vec3, normal: Vec3, inside: bool) -> Vec3 {
    let eta = spec_eta(inside);
    let cos_i = normal.spec_dot(ray_dir).neg();
    let k = Scalar::one().sub(eta.mul(eta).mul(Scalar::one().sub(cos_i.mul(cos_i))));
    ray_dir.spec_scale(eta).spec_add(
        normal.spec_scale(eta.mul(cos_i).sub(k.sqrt())),
    ).spec_normalized()
}

/// The colour of a specular surface from what it reflects and refracts:
/// `reflection * fresnel + refraction * (1 - fresnel) * transparency * surface_color`.
pub open spec fn spec_blend(
    sphere: Sphere,
    reflection: Vec3,
    refraction: Vec3,
    fresnel: Scalar,
) -> Vec3 {
    reflection.spec_scale(fresnel).spec_add(
        refraction.spec_scale(Scalar::one().sub(fresnel)).spec_scale(
            sphere.spec_transparency(),
        ).spec_mul(sphere.spec_surface_color()),
    )
}

/// The unit direction from a point towards the centre of a light.
pub open spec fn spec_light_dir(light: Sphere, point: Vec3) -> Vec3 {
    light.spec_center().spec_sub(point).spec_normalized()
}

/// Some sphere other than the light itself lies on the ray from `from`
/// along `dir`, whether before or beyond the light.
pub open spec fn spec_occluded(scene: Seq<Sphere>, light: int, from: Vec3, dir: Vec3) -> bool {
    exists|j: int| is_occluder(scene, light, from, dir, j)
}

/// Sphere `j` is not the light and is met by the shadow ray.
pub open spec fn is_occluder(
    scene: Seq<Sphere>,
    light: int,
    from: Vec3,
    dir: Vec3,
    j: int,
) -> bool {
    0 <= j < scene.len() && j != light && scene[j].spec_hits(from, dir)
}

/// What an unshadowed light adds to a diffuse surface:
/// `surface_color * emission_color * max(0, n . light_dir)`.
pub open spec fn spec_lambert(sphere: Sphere, light: Sphere, surface: Surface) -> Vec3 {
    sphere.spec_surface_color().spec_mul(light.spec_emission_color()).spec_scale(
        surface.normal.spec_dot(spec_light_dir(light, surface.point)).max_zero(),
    )
}

/// The light that the first `n` spheres of the scene shed on a diffuse
/// surface. A sphere counts if it is a light and no other sphere shadows
/// the surface from it.
pub open spec fn spec_direct_light(
    scene: Seq<Sphere>,
    sphere: Sphere,
    surface: Surface,
    n: int,
) -> Vec3
    decreases n,
{
    if n <= 0 {
        Vec3::spec_origin()
    } else {
        let before = spec_direct_light(scene, sphere, surface, n - 1);
        let light = scene[n - 1];
        if light.spec_is_light() && !spec_occluded(
            scene,
            n - 1,
            spec_above(surface),
            spec_light_dir(light, surface.point),
        ) {
            before.spec_add(spec_lambert(sphere, light, surface))
        } else {
            before
        }
    }
}

/// The colour that arrives along a ray. A ray that meets nothing has the
/// background colour. On a specular sphere, and while the depth allows it,
/// the colour blends what the reflected and the refracted ray bring;
/// otherwise it is the direct light of the scene. The sphere's own emission
/// is added in either case.
pub open spec fn spec_trace(ray_orig: Vec3, ray_dir: Vec3, scene: Seq<Sphere>, depth: int) -> Vec3
    decreases MAX_RAY_DEPTH - depth,
{
    match spec_nearest(scene, ray_orig, ray_dir) {
        None => spec_background(),
        Some(hit) => {
            let sphere = scene[hit.index as int];
            let surface = spec_surface(ray_orig, ray_dir, sphere.spec_center(), hit.distance);
            let shade = if sphere.spec_is_specular() && depth < MAX_RAY_DEPTH {
                let reflection = spec_trace(
                    spec_above(surface),
                    spec_reflect_dir(ray_dir, surface.normal),
                    scene,
                    depth + 1,
                );
                let refraction = if sphere.spec_is_transparent() {
                    spec_trace(
                        spec_below(surface),
                        spec_refract_dir(ray_dir, surface.normal, surface.inside),
                        scene,
                        depth + 1,
                    )
                } else {
                    Vec3::spec_origin()
                };
                spec_blend(sphere, reflection, refraction, spec_fresnel(ray_dir, surface.normal))
            } else {
                spec_direct_light(scene, sphere, surface, scene.len() as int)
            };
            shade.spec_add(sphere.spec_emission_color())
        },
    }
}

/// The point and the oriented normal at which the ray meets the sphere.
pub fn surface_at(
    ray_orig: &Vec3,
    ray_dir: &Vec3,
    sphere: &Sphere,
    distance: Scalar,
) -> (s: Surface)
    ensures
        s == spec_surface(*ray_orig, *ray_dir, sphere.spec_center(), distance),
{
    let point = ray_orig.add(&ray_dir.scale(distance));
    let mut normal = point.sub(sphere.center());
    normal.normalize();
    if ray_dir.dot(&normal).gt(Scalar::zero()) {
        Surface { point, normal: normal.negated(), inside: true }
    } else {
        Surface { point, normal, inside: false }
    }
}

/// The share of reflected light at a surface.
pub fn fresnel(ray_dir: &Vec3, normal: &Vec3) -> (r: Scalar)
    ensures
        r == spec_fresnel(*ray_dir, *normal),
{
    let facing_ratio = ray_dir.dot(normal).neg();
    mix(
        Scalar::one().sub(facing_ratio).cube(),
        Scalar::one(),
        Scalar::from_bits(FRESNEL_WEIGHT_BITS),
    )
}

/// The direction in which a surface mirrors a ray.
pub fn reflect_dir(ray_dir: &Vec3, normal: &Vec3) -> (r: Vec3)
    ensures
        r == spec_reflect_dir(*ray_dir, *normal),
{
    let mut r = ray_dir.sub(&normal.scale(Scalar::two()).scale(ray_dir.dot(normal)));
    r.normalize();
    r
}

/// The direction in which a surface refracts a ray.
pub fn refract_dir(ray_dir: &Vec3, normal: &Vec3, inside: bool) -> (r: Vec3)
    ensures
        r == spec_refract_dir(*ray_dir, *normal, inside),
{
    let ior = Scalar::from_bits(IOR_BITS);
    let eta = if inside {
        ior
    } else {
        Scalar::one().div(ior)
    };
    let cos_i = normal.dot(ray_dir).neg();
    let k = Scalar::one().sub(eta.mul(eta).mul(Scalar::one().sub(cos_i.mul(cos_i))));
    let mut r = ray_dir.scale(eta).add(&normal.scale(eta.mul(cos_i).sub(k.sqrt())));
    r.normalize();
    r
}

/// Tests whether any sphere but the light itself lies on the shadow ray.
/// The first one found settles it.
pub fn is_shadowed(spheres: &Vec<Sphere>, light: usize, from: &Vec3, dir: &Vec3) -> (r: bool)
    ensures
        r == spec_occluded(spheres@, light as int, *from, *dir),
{
    let mut j: usize = 0;
    while j < spheres.len()
        invariant
            j <= spheres.len(),
            forall|k: int| k < j ==> !is_occluder(spheres@, light as int, *from, *dir, k),
        decreases spheres.len() - j,
    {
        if j != light {
            let mut t0 = Scalar::zero();
            let mut t1 = Scalar::zero();
            if spheres[j].intersect(from, dir, &mut t0, &mut t1) {
                assert(is_occluder(spheres@, light as int, *from, *dir, j as int));
                return true;
            }
        }
        j += 1;
    }
    false
}

/// Sums the light that reaches a diffuse surface from every light of the
/// scene that is not shadowed. A shadowed light adds nothing.
pub fn direct_light(spheres: &Vec<Sphere>, sphere: &Sphere, surface: &Surface) -> (color: Vec3)
    ensures
        color == spec_direct_light(spheres@, *sphere, *surface, spheres@.len() as int),
{
    let mut color = Vec3::origin();
    let shadow_orig = surface.point.add(&surface.normal.scale(Scalar::from_bits(BIAS_BITS)));
    let mut i: usize = 0;
    while i < spheres.len()
        invariant
            i <= spheres.len(),
            shadow_orig == spec_above(*surface),
            color == spec_direct_light(spheres@, *sphere, *surface, i as int),
        decreases spheres.len() - i,
    {
        let light = &spheres[i];
        if light.is_light() {
            let mut light_dir = light.center().sub(&surface.point);
            light_dir.normalize();
            if !is_shadowed(spheres, i, &shadow_orig, &light_dir) {
                let sum = sphere.surface_color().mul(light.emission_color()).scale(
                    surface.normal.dot(&light_dir).max_zero(),
                );
                color = color.add(&sum);
            }
        }
        i += 1;
    }
    color
}

/// Follows a ray into the scene and returns the colour it brings back.
/// `depth` counts the reflections and refractions that led to this ray,
/// from zero for a primary ray; at `MAX_RAY_DEPTH` no further ray is sent, so
/// the calls never nest deeper than `MAX_RAY_DEPTH + 1`.
pub fn trace(ray_orig: &Vec3, ray_dir: &Vec3, spheres: &Vec<Sphere>, depth: i32) -> (color: Vec3)
    requires
        0 <= depth,
    ensures
        color == spec_trace(*ray_orig, *ray_dir, spheres@, depth as int),
        spheres@.len() == 0 ==> color == spec_background(),
    decreases MAX_RAY_DEPTH - depth,
{
    let hit = match find_nearest(ray_orig, ray_dir, spheres) {
        None => {
            return background();
        },
        Some(hit) => hit,
    };
    let sphere = &spheres[hit.index];
    let surface = surface_at(ray_orig, ray_dir, sphere, hit.distance);
    let bias = Scalar::from_bits(BIAS_BITS);
    let shade = if sphere.is_specular() && depth < MAX_RAY_DEPTH {
        let fresnel_effect = fresnel(ray_dir, &surface.normal);
        let refl_dir = reflect_dir(ray_dir, &surface.normal);
        let reflection = trace(
            &surface.point.add(&surface.normal.scale(bias)),
            &refl_dir,
            spheres,
            depth + 1,
        );
        let refraction = if sphere.is_transparent() {
            let refr_dir = refract_dir(ray_dir, &surface.normal, surface.inside);
            trace(&surface.point.sub(&surface.normal.scale(bias)), &refr_dir, spheres, depth + 1)
        } else {
            Vec3::origin()
        };
        reflection.scale(fresnel_effect).add(
            &refraction.scale(Scalar::one().sub(fresnel_effect)).scale(sphere.transparency()).mul(
                sphere.surface_color(),
            ),
        )
    } else {
        direct_light(spheres, sphere, &surface)
    };
    shade.add(sphere.emission_color())
}

/// How many rays `spec_trace` follows for one ray, that ray included.
pub open spec fn spec_ray_count(
    ray_orig: Vec3,
    ray_dir: Vec3,
    scene: Seq<Sphere>,
    depth: int,
) -> nat
    decreases MAX_RAY_DEPTH - depth,
{
    match spec_nearest(scene, ray_orig, ray_dir) {
        None => 1,
        Some(hit) => {
            let sphere = scene[hit.index as int];
            let surface = spec_surface(ray_orig, ray_dir, sphere.spec_center(), hit.distance);
            if sphere.spec_is_specular() && depth < MAX_RAY_DEPTH {
                let reflected = spec_ray_count(
                    spec_above(surface),
                    spec_reflect_dir(ray_dir, surface.normal),
                    scene,
                    depth + 1,
                );
                let refracted = if sphere.spec_is_transparent() {
                    spec_ray_count(
                        spec_below(surface),
                        spec_refract_dir(ray_dir, surface.normal, surface.inside),
                        scene,
                        depth + 1,
                    )
                } else {
                    0
                };
                1 + reflected + refracted
            } else {
                1
            }
        },
    }
}

/// A ray over an empty scene has the background colour, whatever its origin,
/// its direction and its depth.
pub proof fn lemma_empty_scene_is_background(ray_orig: Vec3, ray_dir: Vec3, depth: int)
    ensures
        spec_trace(ray_orig, ray_dir, Seq::empty(), depth) == spec_background(),
{
    let scene = Seq::<Sphere>::empty();
    assert forall|i: int| !is_nearest(scene, ray_orig, ray_dir, i) by {
        assert(!is_candidate(scene, ray_orig, ray_dir, i));
    }
}

/// The recursion ends at the depth bound, however reflective the scene: a
/// ray at depth `MAX_RAY_DEPTH` or beyond sends no further ray, and a ray at
/// a lower depth leads to fewer than `2^(MAX_RAY_DEPTH + 1 - depth)` rays in
/// all, itself included.
pub proof fn lemma_ray_count_bounded(ray_orig: Vec3, ray_dir: Vec3, scene: Seq<Sphere>, depth: int)
    ensures
        depth >= MAX_RAY_DEPTH ==> spec_ray_count(ray_orig, ray_dir, scene, depth) == 1,
        depth <= MAX_RAY_DEPTH ==> spec_ray_count(ray_orig, ray_dir, scene, depth) < pow2(
            (MAX_RAY_DEPTH + 1 - depth) as nat,
        ),
    decreases MAX_RAY_DEPTH - depth,
{
    if depth >= MAX_RAY_DEPTH {
        lemma2_to64();
    } else {
        lemma_pow2_unfold((MAX_RAY_DEPTH + 1 - depth) as nat);
        lemma_pow2_pos((MAX_RAY_DEPTH - depth) as nat);
        match spec_nearest(scene, ray_orig, ray_dir) {
            None => {},
            Some(hit) => {
                let sphere = scene[hit.index as int];
                let surface = spec_surface(ray_orig, ray_dir, sphere.spec_center(), hit.distance);
                lemma_ray_count_bounded(
                    spec_above(surface),
                    spec_reflect_dir(ray_dir, surface.normal),
                    scene,
                    depth + 1,
                );
                lemma_ray_count_bounded(
                    spec_below(surface),
                    spec_refract_dir(ray_dir, surface.normal, surface.inside),
                    scene,
                    depth + 1,
                );
            },
        }
    }
}

/// A light from which another sphere shadows the surface adds nothing to
/// the direct light of that surface.
pub proof fn lemma_shadowed_light_adds_nothing(
    scene: Seq<Sphere>,
    sphere: Sphere,
    surface: Surface,
    light: int,
    occluder: int,
)
    requires
        0 <= light < scene.len(),
        is_occluder(
            scene,
            light,
            spec_above(surface),
            spec_light_dir(scene[light], surface.point),
            occluder,
        ),
    ensures
        spec_direct_light(scene, sphere, surface, light + 1) == spec_direct_light(
            scene,
            sphere,
            surface,
            light,
        ),
{
}

/// Where every light of the scene is shadowed, a diffuse surface receives
/// no direct light at all.
pub proof fn lemma_all_shadowed_is_dark(
    scene: Seq<Sphere>,
    sphere: Sphere,
    surface: Surface,
    n: int,
)
    requires
        n <= scene.len(),
        forall|i: int|
            0 <= i < n && (#[trigger] scene[i]).spec_is_light() ==> spec_occluded(
                scene,
                i,
                spec_above(surface),
                spec_light_dir(scene[i], surface.point),
            ),
    ensures
        spec_direct_light(scene, sphere, surface, n) == Vec3::spec_origin(),
    decreases n,
{
    if n > 0 {
        lemma_all_shadowed_is_dark(scene, sphere, surface, n - 1);
    }
}

} // verus!
