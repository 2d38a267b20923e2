//! The render loop: the raster mapped pixel by pixel to camera rays, the
//! shading engine invoked per pixel, and the result packed into a
//! row-major framebuffer of `0x00RRGGBB` words, top row first.
//!
//! The loop itself carries no shared state between pixels: every slot of
//! the framebuffer is pinned to `s_render_pixel` of its own coordinates
//! alone, which is what makes carving the rows into independent bands
//! safe for a parallel caller.

use vstd::prelude::*;

verus! {

use crate::camera::Camera;
use crate::camera::SCamera;
use crate::camera::s_basis_change;
use crate::color::SColor;
use crate::fixed::FX_ONE;
use crate::fixed::fx_div;
use crate::fixed::fx_from_int;
use crate::fixed::fx_mul;
use crate::fixed::fx_neg;
use crate::fixed::fx_sub;
use crate::fixed::s_div;
use crate::fixed::s_mul;
use crate::fixed::s_neg;
use crate::fixed::s_sub;
use crate::fixed::sat64;
use crate::light::Light;
use crate::primitive::Primitive;
use crate::shading::RenderConfig;
use crate::shading::SConfig;
use crate::shading::cast_ray;
use crate::shading::s_all_wf;
use crate::shading::s_cast_ray;
use crate::vec3::V3;
use crate::vec3::Vec3;
use crate::vec3::s_vnormalize;
use vstd::arithmetic::div_mod::lemma_multiply_divide_lt;
use vstd::arithmetic::mul::lemma_mul_inequality;
use vstd::arithmetic::mul::lemma_mul_upper_bound;
use vstd::arithmetic::mul::lemma_mul_strict_inequality;

/// A color packed into one 32-bit word: red in bits 16 to 23, green in
/// bits 8 to 15, blue in bits 0 to 7.
pub open spec fn s_pack(c: SColor) -> int {
    c.r * 65536 + c.g * 256 + c.b
}

/// The normalized device coordinate of a pixel column: the column mapped
/// affinely onto the interval from minus one to one, then corrected by
/// the aspect ratio.
pub open spec fn s_screen_x(x: int, width: int, height: int) -> int {
    s_mul(
        s_sub(s_div(sat64(2 * x * 65536), sat64(width * 65536)), FX_ONE as int),
        s_div(sat64(width * 65536), sat64(height * 65536)),
    )
}

/// The normalized device coordinate of a pixel row, inverted so that row
/// zero is the top of the image.
pub open spec fn s_screen_y(y: int, height: int) -> int {
    s_neg(s_sub(s_div(sat64(2 * y * 65536), sat64(height * 65536)), FX_ONE as int))
}

/// The packed color of one pixel: the camera-space ray through the pixel
/// brought to world space by the camera basis, cast into the scene at
/// depth zero, and packed.
pub open spec fn s_render_pixel(
    x: int,
    y: int,
    width: int,
    height: int,
    objs: Seq<Primitive>,
    lights: Seq<Light>,
    cam: SCamera,
    cfg: SConfig,
) -> int {
    let dir0 = s_vnormalize(
        V3 { x: s_screen_x(x, width, height), y: s_screen_y(y, height), z: -(FX_ONE as int) },
    );
    let dir = s_basis_change(cam, dir0);
    s_pack(s_cast_ray(cam.eye, dir, objs, lights, 0, cfg))
}

/// The color of one pixel of the raster.
pub fn render_pixel(
    x: usize,
    y: usize,
    width: usize,
    height: usize,
    objects: &Vec<Primitive>,
    camera: &Camera,
    lights: &Vec<Light>,
    config: &RenderConfig,
) -> (p: u32)
    requires
        x < 0x1_0000_0000,
        y < 0x1_0000_0000,
        width < 0x1_0000_0000,
        height < 0x1_0000_0000,
        config.wf(),
        s_all_wf(objects@),
    ensures
        p as int == s_render_pixel(
            x as int,
            y as int,
            width as int,
            height as int,
            objects@,
            lights@,
            camera.sv(),
            config.sv(),
        ),
{
    let sx0 = fx_sub(
        fx_div(fx_from_int(2 * (x as i64)), fx_from_int(width as i64)),
        FX_ONE,
    );
    let sx = fx_mul(sx0, fx_div(fx_from_int(width as i64), fx_from_int(height as i64)));
    let sy = fx_neg(
        fx_sub(fx_div(fx_from_int(2 * (y as i64)), fx_from_int(height as i64)), FX_ONE),
    );
    let dir0 = crate::vec3::v_normalize(&Vec3::new(sx, sy, -FX_ONE));
    let dir = camera.basis_change(&dir0);
    let color = cast_ray(&camera.eye, &dir, objects, lights, 0, config);
    (color.r as u32) * 65536 + (color.g as u32) * 256 + (color.b as u32)
}

/// Render the whole raster into the framebuffer: every slot receives the
/// packed color of its own pixel and nothing else.
#[verifier::loop_isolation(false)]
#[verifier::rlimit(100)]
pub fn render(
    framebuffer: &mut Vec<u32>,
    width: usize,
    height: usize,
    objects: &Vec<Primitive>,
    camera: &Camera,
    lights: &Vec<Light>,
    config: &RenderConfig,
)
    requires
        old(framebuffer)@.len() == width * height,
        width < 0x1_0000_0000,
        height < 0x1_0000_0000,
        config.wf(),
        s_all_wf(objects@),
    ensures
        final(framebuffer)@.len() == width * height,
        forall|x: int, y: int|
            0 <= x < width && 0 <= y < height ==> final(framebuffer)@[y * width + x]
                == s_render_pixel(
                x,
                y,
                width as int,
                height as int,
                objects@,
                lights@,
                camera.sv(),
                config.sv(),
            ),
{
    let total: usize = framebuffer.len();
    let mut y: usize = 0;
    while y < height
        invariant
            y <= height,
            framebuffer@.len() == width * height,
            forall|xx: int, yy: int|
                0 <= xx < width && 0 <= yy < y ==> framebuffer@[yy * width + xx]
                    == s_render_pixel(
                    xx,
                    yy,
                    width as int,
                    height as int,
                    objects@,
                    lights@,
                    camera.sv(),
                    config.sv(),
                ),
        decreases height - y,
    {
        let mut x: usize = 0;
        while x < width
            invariant
                x <= width,
                y < height,
                framebuffer@.len() == width * height,
                forall|xx: int, yy: int|
                    0 <= xx < width && 0 <= yy < y ==> framebuffer@[yy * width + xx]
                        == s_render_pixel(
                        xx,
                        yy,
                        width as int,
                        height as int,
                        objects@,
                        lights@,
                        camera.sv(),
                        config.sv(),
                    ),
                forall|xx: int|
                    0 <= xx < x ==> framebuffer@[y * width + xx] == s_render_pixel(
                        xx,
                        y as int,
                        width as int,
                        height as int,
                        objects@,
                        lights@,
                        camera.sv(),
                        config.sv(),
                    ),
            decreases width - x,
        {
            proof {
                lemma_mul_inequality(y as int + 1, height as int, width as int);
                assert((y + 1) * width == y * width + width) by (nonlinear_arith);
                assert((height as int) * (width as int) == (width as int) * (height as int))
                    by (nonlinear_arith);
            }
            let p = render_pixel(x, y, width, height, objects, camera, lights, config);
            framebuffer[y * width + x] = p;
            proof {
                assert forall|xx: int, yy: int|
                    0 <= xx < width && 0 <= yy < y implies framebuffer@[yy * width + xx]
                    == #[trigger] s_render_pixel(
                    xx,
                    yy,
                    width as int,
                    height as int,
                    objects@,
                    lights@,
                    camera.sv(),
                    config.sv(),
                ) by {
                    lemma_mul_inequality(yy + 1, y as int, width as int);
                    assert((yy + 1) * width == yy * width + width) by (nonlinear_arith);
                }
            }
            x = x + 1;
        }
        y = y + 1;
        proof {
            assert forall|xx: int, yy: int|
                0 <= xx < width && 0 <= yy < y implies framebuffer@[yy * width + xx]
                == s_render_pixel(
                xx,
                yy,
                width as int,
                height as int,
                objects@,
                lights@,
                camera.sv(),
                config.sv(),
            ) by {
                if yy == y - 1 {
                    assert(framebuffer@[(y - 1) * width + xx] == s_render_pixel(
                        xx,
                        y - 1,
                        width as int,
                        height as int,
                        objects@,
                        lights@,
                        camera.sv(),
                        config.sv(),
                    ));
                }
            }
        }
    }
}

/// The source cell a destination pixel scales down to.
pub open spec fn s_src_index(x: int, y: int, lw: int, lh: int, hw: int, hh: int) -> int {
    (y * lh / hh) * lw + (x * lw / hw)
}

/// Nearest-neighbor upscale of a low-resolution framebuffer onto a larger
/// raster: every destination pixel receives exactly the source pixel its
/// coordinates scale down to.
#[verifier::loop_isolation(false)]
#[verifier::rlimit(100)]
pub fn upscale_framebuffer(
    low_res_buffer: &Vec<u32>,
    low_width: usize,
    low_height: usize,
    high_width: usize,
    high_height: usize,
) -> (r: Vec<u32>)
    requires
        low_res_buffer@.len() == low_width * low_height,
        1 <= low_width < 0x1_0000_0000,
        1 <= low_height < 0x1_0000_0000,
        high_width < 0x1_0000_0000,
        high_height < 0x1_0000_0000,
    ensures
        r@.len() == high_width * high_height,
        forall|x: int, y: int|
            0 <= x < high_width && 0 <= y < high_height ==> r@[y * high_width + x]
                == low_res_buffer@[#[trigger] s_src_index(
                x,
                y,
                low_width as int,
                low_height as int,
                high_width as int,
                high_height as int,
            )],
{
    let low_total: usize = low_res_buffer.len();
    let mut out: Vec<u32> = Vec::new();
    let mut y: usize = 0;
    while y < high_height
        invariant
            y <= high_height,
            out@.len() == y * high_width,
            forall|xx: int, yy: int|
                0 <= xx < high_width && 0 <= yy < y ==> out@[yy * high_width + xx]
                    == low_res_buffer@[#[trigger] s_src_index(
                    xx,
                    yy,
                    low_width as int,
                    low_height as int,
                    high_width as int,
                    high_height as int,
                )],
        decreases high_height - y,
    {
        let mut x: usize = 0;
        while x < high_width
            invariant
                x <= high_width,
                y < high_height,
                out@.len() == y * high_width + x,
                forall|xx: int, yy: int|
                    0 <= xx < high_width && 0 <= yy < y ==> out@[yy * high_width + xx]
                        == low_res_buffer@[#[trigger] s_src_index(
                        xx,
                        yy,
                        low_width as int,
                        low_height as int,
                        high_width as int,
                        high_height as int,
                    )],
                forall|xx: int|
                    0 <= xx < x ==> out@[y * high_width + xx] == low_res_buffer@[#[trigger] s_src_index(
                        xx,
                        y as int,
                        low_width as int,
                        low_height as int,
                        high_width as int,
                        high_height as int,
                    )],
            decreases high_width - x,
        {
            proof {
                lemma_mul_upper_bound(y as int, 0xffff_ffff, low_height as int, 0xffff_ffff);
                lemma_mul_upper_bound(x as int, 0xffff_ffff, low_width as int, 0xffff_ffff);
                assert(0xffff_ffff * 0xffff_ffff < 0x1_0000_0000_0000_0000int) by (nonlinear_arith);
            }
            let src_y = ((y as u64) * (low_height as u64) / (high_height as u64)) as usize;
            let src_x = ((x as u64) * (low_width as u64) / (high_width as u64)) as usize;
            proof {
                lemma_mul_strict_inequality(y as int, high_height as int, low_height as int);
                lemma_multiply_divide_lt(
                    y * low_height,
                    high_height as int,
                    low_height as int,
                );
                lemma_mul_strict_inequality(x as int, high_width as int, low_width as int);
                lemma_multiply_divide_lt(x * low_width, high_width as int, low_width as int);
                lemma_mul_inequality(src_y as int + 1, low_height as int, low_width as int);
                assert((src_y + 1) * low_width == src_y * low_width + low_width)
                    by (nonlinear_arith);
                assert((low_height as int) * (low_width as int) == (low_width as int) * (
                low_height as int)) by (nonlinear_arith);
            }
            let src_index = src_y * low_width + src_x;
            out.push(low_res_buffer[src_index]);
            proof {
                assert((y * high_width + x) + 1 == y * high_width + (x + 1));
                assert forall|xx: int, yy: int|
                    0 <= xx < high_width && 0 <= yy < y implies out@[yy * high_width + xx]
                    == low_res_buffer@[#[trigger] s_src_index(
                    xx,
                    yy,
                    low_width as int,
                    low_height as int,
                    high_width as int,
                    high_height as int,
                )] by {
                    lemma_mul_inequality(yy + 1, y as int, high_width as int);
                    assert((yy + 1) * high_width == yy * high_width + high_width)
                        by (nonlinear_arith);
                }
            }
            x = x + 1;
        }
        y = y + 1;
        proof {
            assert(y * high_width == (y - 1) * high_width + high_width) by (nonlinear_arith);
            assert forall|xx: int, yy: int|
                0 <= xx < high_width && 0 <= yy < y implies out@[yy * high_width + xx]
                == low_res_buffer@[s_src_index(
                xx,
                yy,
                low_width as int,
                low_height as int,
                high_width as int,
                high_height as int,
            )] by {
                if yy == y - 1 {
                    assert(out@[(y - 1) * high_width + xx] == low_res_buffer@[s_src_index(
                        xx,
                        y - 1,
                        low_width as int,
                        low_height as int,
                        high_width as int,
                        high_height as int,
                    )]);
                }
            }
        }
    }
    out
}

} // verus!
