//! Textures and material sampling: indexing, wrap-around and the
//! vertical flip.

use raytracer::color::Color;
use raytracer::material::Material;
use raytracer::texture::Texture;

const ONE: i64 = 65536;

fn checker() -> Texture {
    // 2 x 2, row 0 on top: (r00, r01) over (r10, r11)
    Texture::new(
        2,
        2,
        vec![
            Color::new(10, 0, 0),
            Color::new(20, 0, 0),
            Color::new(30, 0, 0),
            Color::new(40, 0, 0),
        ],
    )
}

#[test]
fn get_color_reads_row_major() {
    let t = checker();
    assert_eq!(t.get_color(0, 0), Color::new(10, 0, 0));
    assert_eq!(t.get_color(1, 0), Color::new(20, 0, 0));
    assert_eq!(t.get_color(0, 1), Color::new(30, 0, 0));
    assert_eq!(t.get_color(1, 1), Color::new(40, 0, 0));
}

fn textured_material() -> Material {
    Material {
        diffuse: Color::new(255, 255, 255),
        specular: 10,
        albedo: [ONE, 0, 0, 0],
        refractive_index: ONE,
        has_texture: true,
        texture: Some(checker()),
    }
}

#[test]
fn diffuse_without_texture_is_flat() {
    let m = Material {
        diffuse: Color::new(9, 8, 7),
        specular: 10,
        albedo: [ONE, 0, 0, 0],
        refractive_index: ONE,
        has_texture: false,
        texture: None,
    };
    assert_eq!(m.get_diffuse_color(12345, 54321), Color::new(9, 8, 7));
}

#[test]
fn diffuse_with_texture_samples_and_flips_v() {
    let m = textured_material();
    // u = 0, v = 0: column 0; (1 - 0) * 2 = 2 wraps to row 0
    assert_eq!(m.get_diffuse_color(0, 0), Color::new(10, 0, 0));
    // u = 0.5, v = 0: column 1, row 0
    assert_eq!(m.get_diffuse_color(ONE / 2, 0), Color::new(20, 0, 0));
    // u = 0, v = 0.5: (1 - 0.5) * 2 = 1: row 1, column 0
    assert_eq!(m.get_diffuse_color(0, ONE / 2), Color::new(30, 0, 0));
}

#[test]
fn diffuse_u_wraps_past_one() {
    let m = textured_material();
    // u = 1.5 scales to column 3, wrapped by width 2 to column 1
    assert_eq!(m.get_diffuse_color(3 * ONE / 2, 0), Color::new(20, 0, 0));
}

#[test]
fn black_material_has_no_energy() {
    let m = Material::black();
    assert_eq!(m.diffuse, Color::new(0, 0, 0));
    assert_eq!(m.albedo, [0, 0, 0, 0]);
    assert!(m.texture.is_none());
}

#[test]
fn duplicate_preserves_everything() {
    let m = textured_material();
    let d = m.duplicate();
    assert_eq!(d.diffuse, m.diffuse);
    assert_eq!(d.specular, m.specular);
    assert_eq!(d.albedo, m.albedo);
    assert_eq!(d.refractive_index, m.refractive_index);
    assert_eq!(d.has_texture, m.has_texture);
    let dt = d.texture.unwrap();
    let mt = m.texture.unwrap();
    assert_eq!(dt.width, mt.width);
    assert_eq!(dt.height, mt.height);
    assert_eq!(dt.data, mt.data);
}
