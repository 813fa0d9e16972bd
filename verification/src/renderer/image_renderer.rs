//! A self-test renderer: a red disc on black, computed exactly.

use vstd::prelude::*;
use crate::renderer::raytracer::Image;

verus! {

/// The disc radius in tenths of a pixel: `0.3 * min(width, height)`
/// pixels, capped at 100 pixels.
pub open spec fn disc_radius10(w: int, h: int) -> int {
    let m = if w <= h {
        w
    } else {
        h
    };
    if 3 * m <= 1000 {
        3 * m
    } else {
        1000
    }
}

/// The disc image's pixel: red when the pixel's distance from the image
/// center (both measured in tenths of a pixel) stays within the radius,
/// black otherwise.
pub open spec fn disc_pixel(w: int, h: int, x: int, y: int) -> (u8, u8, u8) {
    let dx = 10 * x - 5 * w;
    let dy = 10 * y - 5 * h;
    let r = disc_radius10(w, h);
    if dx * dx + dy * dy <= r * r {
        (255u8, 0u8, 0u8)
    } else {
        (0u8, 0u8, 0u8)
    }
}

/// Renders a centered red disc on black; a smoke test for the image
/// pipeline that needs no scene.
pub struct ImageRenderer {}

impl ImageRenderer {
    pub fn new() -> (r: ImageRenderer)
        ensures
            r == (ImageRenderer {}),
    {
        ImageRenderer {}
    }

    /// The disc image, row-major; every pixel is `disc_pixel`'s answer.
    pub fn render(&self, width: u32, height: u32) -> (img: Image)
        ensures
            img.width == width,
            img.height == height,
            img.pixels.len() == width * height,
            forall|k: int|
                0 <= k < img.pixels.len() ==> img.pixels[k] == disc_pixel(width as int,
                    height as int, k % (width as int), k / (width as int)),
    {
        let r10: i64 = {
            let m = if width <= height {
                width
            } else {
                height
            };
            if 3 * (m as i64) <= 1000 {
                3 * (m as i64)
            } else {
                1000
            }
        };
        let mut pixels: Vec<(u8, u8, u8)> = Vec::new();
        let mut y: u32 = 0;
        while y < height
            invariant
                0 <= y <= height,
                pixels.len() == y * width,
                r10 as int == disc_radius10(width as int, height as int),
                forall|k: int|
                    0 <= k < pixels.len() ==> pixels[k] == disc_pixel(width as int, height as int,
                        k % (width as int), k / (width as int)),
                width > 0 || pixels.len() == 0,
            decreases height - y,
        {
            let mut x: u32 = 0;
            while x < width
                invariant
                    0 <= x <= width,
                    y < height,
                    pixels.len() == y * width + x,
                    r10 as int == disc_radius10(width as int, height as int),
                    forall|k: int|
                        0 <= k < pixels.len() ==> pixels[k] == disc_pixel(width as int,
                            height as int, k % (width as int), k / (width as int)),
                decreases width - x,
            {
                let dx: i64 = 10 * (x as i64) - 5 * (width as i64);
                let dy: i64 = 10 * (y as i64) - 5 * (height as i64);
                proof {
                    assert((dx as int) * (dx as int) + (dy as int) * (dy as int)
                        < 0x4000_0000_0000_0000_0000 && (dx as int) * (dx as int) >= 0
                        && (dy as int) * (dy as int) >= 0) by (nonlinear_arith)
                        requires
                            -0x40_0000_0000 <= dx as int <= 0x40_0000_0000,
                            -0x40_0000_0000 <= dy as int <= 0x40_0000_0000,
                    ;
                }
                let d2: i128 = (dx as i128) * (dx as i128) + (dy as i128) * (dy as i128);
                proof {
                    assert(0 <= (r10 as int) * (r10 as int) <= 0x100000) by (nonlinear_arith)
                        requires
                            0 <= r10 as int <= 1000,
                    ;
                }
                let p = if d2 <= (r10 as i128) * (r10 as i128) {
                    (255u8, 0u8, 0u8)
                } else {
                    (0u8, 0u8, 0u8)
                };
                proof {
                    vstd::arithmetic::div_mod::lemma_fundamental_div_mod_converse(
                        pixels.len() as int, width as int, y as int, x as int);
                }
                pixels.push(p);
                x = x + 1;
            }
            proof {
                assert((y as int + 1) * (width as int) == y as int * width as int + width as int)
                    by (nonlinear_arith);
            }
            y = y + 1;
        }
        proof {
            assert(height as int * width as int == width as int * height as int)
                by (nonlinear_arith);
        }
        Image { width, height, pixels }
    }
}

} // verus!
