//! Primitive intersection: the sphere and cube scenario rays, vector
//! operations, and surface coordinates.

use raytracer::cube::Cube;
use raytracer::color::Color;
use raytracer::intersect::RayIntersect;
use raytracer::material::Material;
use raytracer::sphere::Sphere;
use raytracer::vec3::{v_cross, v_dot, v_norm, v_normalize, Vec3};

const ONE: i64 = 65536;

fn plain_material(r: u8, g: u8, b: u8) -> Material {
    Material {
        diffuse: Color::new(r, g, b),
        specular: 10,
        albedo: [ONE, 0, 0, 0],
        refractive_index: ONE,
        has_texture: false,
        texture: None,
    }
}

#[test]
fn dot_cross_norm_exact() {
    let a = Vec3::new(ONE, 2 * ONE, 3 * ONE);
    let b = Vec3::new(4 * ONE, 5 * ONE, 6 * ONE);
    // 1*4 + 2*5 + 3*6 == 32
    assert_eq!(v_dot(&a, &b), 32 * ONE);
    // (2*6-3*5, 3*4-1*6, 1*5-2*4) == (-3, 6, -3)
    let c = v_cross(&a, &b);
    assert_eq!((c.x, c.y, c.z), (-3 * ONE, 6 * ONE, -3 * ONE));
    // |(3,4,0)| == 5
    assert_eq!(v_norm(&Vec3::new(3 * ONE, 4 * ONE, 0)), 5 * ONE);
    let n = v_normalize(&Vec3::new(0, 0, 7 * ONE));
    assert_eq!((n.x, n.y, n.z), (0, 0, ONE));
}

#[test]
fn normalize_of_zero_vector_is_fallback() {
    let z = Vec3::new(0, 0, 0);
    let n = v_normalize(&z);
    assert_eq!((n.x, n.y, n.z), (0, 0, 0));
}

#[test]
fn sphere_head_on_hit() {
    // A unit sphere at the origin, a ray from (0,0,5) toward (0,0,-1):
    // hit at distance 5 - r == 4, point (0,0,1), outward normal (0,0,1).
    let s = Sphere {
        center: Vec3::new(0, 0, 0),
        radius: ONE,
        material: plain_material(255, 0, 0),
    };
    let hit = s.ray_intersect(&Vec3::new(0, 0, 5 * ONE), &Vec3::new(0, 0, -ONE));
    assert!(hit.is_intersecting);
    assert_eq!(hit.distance, 4 * ONE);
    assert_eq!((hit.point.x, hit.point.y, hit.point.z), (0, 0, ONE));
    assert_eq!((hit.normal.x, hit.normal.y, hit.normal.z), (0, 0, ONE));
}

#[test]
fn sphere_ray_pointing_away_misses() {
    let s = Sphere {
        center: Vec3::new(0, 0, 0),
        radius: ONE,
        material: plain_material(255, 0, 0),
    };
    let hit = s.ray_intersect(&Vec3::new(0, 0, 5 * ONE), &Vec3::new(0, 0, ONE));
    assert!(!hit.is_intersecting);
    assert_eq!(hit.distance, 0);
}

#[test]
fn sphere_ray_beside_misses() {
    let s = Sphere {
        center: Vec3::new(0, 0, 0),
        radius: ONE,
        material: plain_material(255, 0, 0),
    };
    let hit = s.ray_intersect(&Vec3::new(0, 3 * ONE, 5 * ONE), &Vec3::new(0, 0, -ONE));
    assert!(!hit.is_intersecting);
}

#[test]
fn cube_hits_positive_x_face() {
    // A cube of size 2 at the origin, a ray from (5,0,0) toward (-1,0,0):
    // hit on the +X face at distance 4 with normal (1,0,0).
    let faces = [
        plain_material(1, 0, 0),
        plain_material(2, 0, 0),
        plain_material(3, 0, 0),
        plain_material(4, 0, 0),
        plain_material(5, 0, 0),
        plain_material(6, 0, 0),
    ];
    let c = Cube { center: Vec3::new(0, 0, 0), size: 2 * ONE, materials: faces };
    let hit = c.ray_intersect(&Vec3::new(5 * ONE, 0, 0), &Vec3::new(-ONE, 0, 0));
    assert!(hit.is_intersecting);
    assert_eq!(hit.distance, 4 * ONE);
    assert_eq!((hit.point.x, hit.point.y, hit.point.z), (ONE, 0, 0));
    assert_eq!((hit.normal.x, hit.normal.y, hit.normal.z), (ONE, 0, 0));
    // face index 1 carries the second material
    assert_eq!(hit.material.diffuse, Color::new(2, 0, 0));
    // the +X face projects (-z, -y): both zero here, mapped to (0.5, 0.5)
    assert_eq!((hit.u, hit.v), (32768, 32768));
}

#[test]
fn cube_ray_parallel_beside_misses() {
    let faces = [
        plain_material(1, 0, 0),
        plain_material(2, 0, 0),
        plain_material(3, 0, 0),
        plain_material(4, 0, 0),
        plain_material(5, 0, 0),
        plain_material(6, 0, 0),
    ];
    let c = Cube { center: Vec3::new(0, 0, 0), size: 2 * ONE, materials: faces };
    // parallel to the x axis but three units up: never enters the slabs
    let hit = c.ray_intersect(&Vec3::new(5 * ONE, 3 * ONE, 0), &Vec3::new(-ONE, 0, 0));
    assert!(!hit.is_intersecting);
}

#[test]
fn cube_behind_origin_misses() {
    let faces = [
        plain_material(1, 0, 0),
        plain_material(2, 0, 0),
        plain_material(3, 0, 0),
        plain_material(4, 0, 0),
        plain_material(5, 0, 0),
        plain_material(6, 0, 0),
    ];
    let c = Cube { center: Vec3::new(0, 0, 0), size: 2 * ONE, materials: faces };
    let hit = c.ray_intersect(&Vec3::new(5 * ONE, 0, 0), &Vec3::new(ONE, 0, 0));
    assert!(!hit.is_intersecting);
}

#[test]
fn sphere_uv_of_forward_point() {
    // The point (0,0,r) has longitude atan2(1, 0) = pi/2, latitude 0:
    // u = 0.5 + (pi/2)/(2 pi) = 0.75, v = 0.5.
    let s = Sphere {
        center: Vec3::new(0, 0, 0),
        radius: ONE,
        material: plain_material(255, 0, 0),
    };
    let (u, v) = s.get_uv(&Vec3::new(0, 0, ONE));
    assert!((u - 49152).abs() < 330, "u = {u}");
    assert!((v - 32768).abs() < 330, "v = {v}");
}
