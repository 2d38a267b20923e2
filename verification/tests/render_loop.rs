//! The render loop: pixel packing, the full-frame pass, and the
//! nearest-neighbor upscale.

use raytracer::camera::Camera;
use raytracer::color::Color;
use raytracer::light::Light;
use raytracer::primitive::Primitive;
use raytracer::render::{render, render_pixel, upscale_framebuffer};
use raytracer::shading::RenderConfig;
use raytracer::sphere::Sphere;
use raytracer::material::Material;
use raytracer::vec3::Vec3;

const ONE: i64 = 65536;

fn looking_down_z() -> Camera {
    Camera {
        eye: Vec3::new(0, 0, 5 * ONE),
        center: Vec3::new(0, 0, 0),
        up: Vec3::new(0, ONE, 0),
    }
}

#[test]
fn empty_scene_renders_packed_background_everywhere() {
    let objects: Vec<Primitive> = vec![];
    let lights: Vec<Light> = vec![];
    let camera = looking_down_z();
    let config = RenderConfig::new();
    let mut fb: Vec<u32> = vec![0; 4];
    render(&mut fb, 2, 2, &objects, &camera, &lights, &config);
    // background (4, 12, 36) packs to 0x00040C24
    let bg = (4u32 << 16) | (12u32 << 8) | 36u32;
    assert_eq!(bg, 0x00040C24);
    assert_eq!(fb, vec![bg; 4]);
}

#[test]
fn center_pixel_sees_the_sphere() {
    // a dark red sphere lit only by an ambient light fills the middle of
    // the frame; with an odd raster the center ray runs straight down the
    // axis
    let sphere = Primitive::Sphere(Sphere {
        center: Vec3::new(0, 0, 0),
        radius: ONE,
        material: Material {
            diffuse: Color::new(255, 0, 0),
            specular: 10,
            albedo: [ONE, 0, 0, 0],
            refractive_index: ONE,
            has_texture: false,
            texture: None,
        },
    });
    let objects = vec![sphere];
    let lights = vec![Light::new(Vec3::new(0, 0, 10 * ONE), Color::new(255, 255, 255), 19660)];
    let camera = looking_down_z();
    let config = RenderConfig::new();
    // on a 2x2 raster, pixel (1,1) maps to screen (0,0): its ray runs
    // straight down the axis into the sphere; pixel (0,0) maps to the
    // corner (-1,1) and misses
    let p_center = render_pixel(1, 1, 2, 2, &objects, &camera, &lights, &config);
    let p_corner = render_pixel(0, 0, 2, 2, &objects, &camera, &lights, &config);
    let bg = 0x00040C24u32;
    assert_ne!(p_center, bg);
    // ambient-only shading of (255,0,0) truncates to red 76
    assert_eq!(p_center, 76u32 << 16);
    assert_eq!(p_corner, bg);
}

#[test]
fn upscale_doubles_each_cell() {
    let low: Vec<u32> = vec![1, 2, 3, 4]; // 2 x 2
    let high = upscale_framebuffer(&low, 2, 2, 4, 4);
    assert_eq!(high.len(), 16);
    let expect: Vec<u32> = vec![
        1, 1, 2, 2,
        1, 1, 2, 2,
        3, 3, 4, 4,
        3, 3, 4, 4,
    ];
    assert_eq!(high, expect);
}

#[test]
fn upscale_from_single_pixel_floods() {
    let low: Vec<u32> = vec![42];
    let high = upscale_framebuffer(&low, 1, 1, 3, 2);
    assert_eq!(high, vec![42; 6]);
}
