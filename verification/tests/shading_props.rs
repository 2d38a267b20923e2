//! The shading engine: background on a miss, shadows, saturation, and
//! bounded recursion on a mirror pair.

use raytracer::color::Color;
use raytracer::cube::Cube;
use raytracer::intersect::Intersect;
use raytracer::light::Light;
use raytracer::material::Material;
use raytracer::primitive::Primitive;
use raytracer::shading::{cast_ray, cast_shadow, closest_hit, reflect, refract, RenderConfig};
use raytracer::sphere::Sphere;
use raytracer::vec3::Vec3;

const ONE: i64 = 65536;

fn diffuse_material(r: u8, g: u8, b: u8) -> Material {
    Material {
        diffuse: Color::new(r, g, b),
        specular: 10,
        albedo: [ONE, 0, 0, 0],
        refractive_index: ONE,
        has_texture: false,
        texture: None,
    }
}

fn mirror_material() -> Material {
    Material {
        diffuse: Color::new(255, 255, 255),
        specular: 10,
        albedo: [0, 0, ONE, 0],
        refractive_index: ONE,
        has_texture: false,
        texture: None,
    }
}

fn mirror_cube(center_z: i64) -> Primitive {
    let faces = [
        mirror_material(),
        mirror_material(),
        mirror_material(),
        mirror_material(),
        mirror_material(),
        mirror_material(),
    ];
    Primitive::Cube(Cube { center: Vec3::new(0, 0, center_z), size: 2 * ONE, materials: faces })
}

fn unit_sphere() -> Primitive {
    Primitive::Sphere(Sphere {
        center: Vec3::new(0, 0, 0),
        radius: ONE,
        material: diffuse_material(255, 0, 0),
    })
}

#[test]
fn miss_returns_exactly_the_background() {
    let objects = vec![unit_sphere()];
    let lights = vec![Light::new(Vec3::new(0, 0, 10 * ONE), Color::new(255, 255, 255), 52428)];
    let config = RenderConfig::new();
    // a ray pointing away from the only primitive
    let c = cast_ray(
        &Vec3::new(0, 0, 5 * ONE),
        &Vec3::new(0, 0, ONE),
        &objects,
        &lights,
        0,
        &config,
    );
    assert_eq!(c, config.background);
    assert_eq!(c, Color::new(4, 12, 36));
}

#[test]
fn empty_scene_returns_background_for_any_ray() {
    let objects: Vec<Primitive> = vec![];
    let lights = vec![Light::new(Vec3::new(0, 0, 10 * ONE), Color::new(255, 255, 255), 52428)];
    let config = RenderConfig::new();
    let c = cast_ray(
        &Vec3::new(ONE, -ONE, 3 * ONE),
        &Vec3::new(ONE, ONE, ONE),
        &objects,
        &lights,
        0,
        &config,
    );
    assert_eq!(c, Color::new(4, 12, 36));
}

#[test]
fn depth_past_bound_returns_background_without_scene_test() {
    let objects = vec![unit_sphere()];
    let lights: Vec<Light> = vec![];
    let config = RenderConfig::new();
    // depth 2 exceeds the default bound of 1: background even though the
    // ray points straight at the sphere
    let c = cast_ray(
        &Vec3::new(0, 0, 5 * ONE),
        &Vec3::new(0, 0, -ONE),
        &objects,
        &lights,
        2,
        &config,
    );
    assert_eq!(c, Color::new(4, 12, 36));
}

#[test]
fn ambient_light_scales_diffuse_exactly() {
    // one light at exactly the ambient threshold: contribution is the
    // diffuse color scaled by the bare intensity, no shadow, no specular;
    // 255 * 0.29999... truncates to 76
    let objects = vec![unit_sphere()];
    let lights = vec![Light::new(Vec3::new(0, 0, 10 * ONE), Color::new(255, 255, 255), 19660)];
    let config = RenderConfig::new();
    let c = cast_ray(
        &Vec3::new(0, 0, 5 * ONE),
        &Vec3::new(0, 0, -ONE),
        &objects,
        &lights,
        0,
        &config,
    );
    assert_eq!(c, Color::new(76, 0, 0));
}

#[test]
fn closest_of_two_spheres_wins() {
    let near = Primitive::Sphere(Sphere {
        center: Vec3::new(0, 0, 2 * ONE),
        radius: ONE,
        material: diffuse_material(0, 255, 0),
    });
    let objects = vec![unit_sphere(), near];
    let hit = closest_hit(&objects, &Vec3::new(0, 0, 5 * ONE), &Vec3::new(0, 0, -ONE));
    assert!(hit.is_intersecting);
    // the nearer sphere sits at z = 2 with radius 1: first contact at z = 3
    assert_eq!(hit.distance, 2 * ONE);
    assert_eq!(hit.material.diffuse, Color::new(0, 255, 0));
}

#[test]
fn clear_path_has_zero_shadow() {
    let objects = vec![unit_sphere()];
    let light = Light::new(Vec3::new(0, 0, 10 * ONE), Color::new(255, 255, 255), 52428);
    // a hit record on the lit side of the scene, nothing between it and
    // the light
    let hit = Intersect::new(
        Vec3::new(0, 0, 2 * ONE),
        Vec3::new(0, 0, ONE),
        ONE,
        diffuse_material(255, 0, 0),
        0,
        0,
    );
    assert_eq!(cast_shadow(&hit, &light, &objects), 0);
}

#[test]
fn occluder_between_point_and_light_darkens() {
    // the shaded point sits at the origin, the light ten units up the z
    // axis, and a unit sphere at z = 5 squarely between them
    let occluder = Primitive::Sphere(Sphere {
        center: Vec3::new(0, 0, 5 * ONE),
        radius: ONE,
        material: diffuse_material(255, 255, 255),
    });
    let objects = vec![occluder];
    let light = Light::new(Vec3::new(0, 0, 10 * ONE), Color::new(255, 255, 255), 52428);
    let hit = Intersect::new(
        Vec3::new(0, 0, 0),
        Vec3::new(0, 0, ONE),
        ONE,
        diffuse_material(255, 0, 0),
        0,
        0,
    );
    let factor = cast_shadow(&hit, &light, &objects);
    assert!(factor > 0, "factor = {factor}");
    assert!(factor <= 65536);
    // the occluder's near surface sits four units out of ten:
    // 1 - 4/10 = 0.6, in fixed point 39322 up to rounding
    assert!((factor - 39322).abs() <= 2, "factor = {factor}");
}

#[test]
fn mirror_pair_terminates_within_depth_bound() {
    // two facing mirror cubes and a ray bouncing between them: the
    // recursion is bounded by the configured depth, so the cast returns
    let objects = vec![mirror_cube(-3 * ONE), mirror_cube(3 * ONE)];
    let lights = vec![Light::new(Vec3::new(0, 8 * ONE, 0), Color::new(255, 255, 255), 52428)];
    let config = RenderConfig { max_depth: 3, ambient_threshold: 19660, background: Color::new(4, 12, 36) };
    let c = cast_ray(
        &Vec3::new(0, 0, 0),
        &Vec3::new(0, 0, -ONE),
        &objects,
        &lights,
        0,
        &config,
    );
    // every channel is a valid 8-bit value by construction; the point of
    // the test is that the call came back at all
    let _ = c;
}

#[test]
fn nearer_occluder_casts_deeper_shadow() {
    // the same geometry with the occluder surface four units out (of
    // ten) versus six units out: the nearer surface shadows more, and
    // both shadow strictly more than a clear path
    let light = Light::new(Vec3::new(0, 0, 10 * ONE), Color::new(255, 255, 255), 52428);
    let hit = Intersect::new(
        Vec3::new(0, 0, 0),
        Vec3::new(0, 0, ONE),
        ONE,
        diffuse_material(255, 0, 0),
        0,
        0,
    );
    let near = vec![Primitive::Sphere(Sphere {
        center: Vec3::new(0, 0, 5 * ONE),
        radius: ONE,
        material: diffuse_material(255, 255, 255),
    })];
    let far = vec![Primitive::Sphere(Sphere {
        center: Vec3::new(0, 0, 7 * ONE),
        radius: ONE,
        material: diffuse_material(255, 255, 255),
    })];
    let f_near = cast_shadow(&hit, &light, &near);
    let f_far = cast_shadow(&hit, &light, &far);
    assert!(f_far > 0);
    assert!(f_near > f_far, "near {f_near} far {f_far}");
}

#[test]
fn reflect_bounces_off_the_plane() {
    let r = reflect(&Vec3::new(ONE, 0, -ONE), &Vec3::new(0, 0, ONE));
    assert_eq!((r.x, r.y, r.z), (ONE, 0, ONE));
}

#[test]
fn refract_head_on_passes_straight_through() {
    // a head-on ray is undeviated by Snell's law at any index
    let r = refract(&Vec3::new(0, 0, -ONE), &Vec3::new(0, 0, ONE), 98304);
    assert_eq!((r.x, r.y, r.z), (0, 0, -ONE));
}

#[test]
fn refract_grazing_ray_reflects_internally() {
    // at index 1.5 with a grazing incidence the radicand goes negative:
    // total internal reflection returns the mirror bounce instead
    let r = refract(&Vec3::new(ONE, 0, -13107), &Vec3::new(0, 0, ONE), 98304);
    assert_eq!((r.x, r.y, r.z), (ONE, 0, 13107));
}
