//! Framebuffer driver: an owned pixel region with bounds-checked drawing.
//!
//! The framebuffer owns its byte region; no raw addresses are handed out.
//! Every pixel write lands inside the region, with the offset arithmetic
//! proved in bounds.

use vstd::prelude::*;

verus! {

/// Pixel formats.
#[derive(Clone, Copy, Debug, PartialEq, Eq, Structural)]
pub enum PixelFormat {
    /// 24-bit RGB
    RGB888,
    /// 32-bit RGBA
    RGBA8888,
    /// 16-bit RGB
    RGB565,
}

/// Bytes per pixel of a format.
pub open spec fn bpp(format: PixelFormat) -> int {
    match format {
        PixelFormat::RGB888 => 3,
        PixelFormat::RGBA8888 => 4,
        PixelFormat::RGB565 => 2,
    }
}

impl PixelFormat {
    /// Bytes per pixel.
    pub fn bytes_per_pixel(&self) -> (r: usize)
        ensures
            r == bpp(*self),
    {
        match self {
            PixelFormat::RGB888 => 3,
            PixelFormat::RGBA8888 => 4,
            PixelFormat::RGB565 => 2,
        }
    }
}

/// An RGBA color.
#[derive(Clone, Copy, Debug, PartialEq, Eq, Structural)]
pub struct Color {
    /// Red
    pub r: u8,
    /// Green
    pub g: u8,
    /// Blue
    pub b: u8,
    /// Alpha
    pub a: u8,
}

impl Color {
    /// A color from all four channels.
    pub fn new(r: u8, g: u8, b: u8, a: u8) -> (c: Self)
        ensures
            c == (Color { r, g, b, a }),
    {
        Color { r, g, b, a }
    }

    /// An opaque color from the three color channels.
    pub fn rgb(r: u8, g: u8, b: u8) -> (c: Self)
        ensures
            c == (Color { r, g, b, a: 255u8 }),
    {
        Color { r, g, b, a: 255 }
    }
}

/// The bytes one pixel of a color occupies in a format: channel bytes
/// for the byte-per-channel formats, the packed 5-6-5 word little-endian
/// for RGB565.
pub open spec fn pixel_bytes(format: PixelFormat, color: Color) -> Seq<u8> {
    match format {
        PixelFormat::RGB888 => seq![color.r, color.g, color.b],
        PixelFormat::RGBA8888 => seq![color.r, color.g, color.b, color.a],
        PixelFormat::RGB565 => {
            let packed = (((color.r as u16 & 0xF8) << 8) | ((color.g as u16 & 0xFC) << 3) | ((
            color.b as u16 & 0xF8) >> 3)) as u16;
            seq![(packed & 0xFF) as u8, ((packed >> 8) & 0xFF) as u8]
        },
    }
}

/// Framebuffer geometry.
#[derive(Clone, Copy, Debug, PartialEq, Eq, Structural)]
pub struct FramebufferInfo {
    /// Physical address of the region, as the platform reports it
    pub addr: usize,
    /// Width in pixels
    pub width: usize,
    /// Height in pixels
    pub height: usize,
    /// Stride: bytes per line
    pub stride: usize,
    /// Pixel format
    pub format: PixelFormat,
}

/// The framebuffer: geometry plus the owned byte region.
#[derive(Debug)]
pub struct Framebuffer {
    /// Geometry
    info: FramebufferInfo,
    /// The pixel bytes, `stride * height` of them
    buffer: Vec<u8>,
}

impl Framebuffer {
    /// Spec view of the geometry.
    pub closed spec fn spec_info(&self) -> FramebufferInfo {
        self.info
    }

    /// Spec view of the pixel bytes.
    pub closed spec fn spec_buffer(&self) -> Seq<u8> {
        self.buffer@
    }

    /// Framebuffer well-formedness: a line of pixels fits its stride and
    /// the region covers `stride * height` bytes.
    pub open spec fn wf(&self) -> bool {
        &&& self.spec_info().width * bpp(self.spec_info().format) <= self.spec_info().stride
        &&& self.spec_buffer().len() == self.spec_info().stride * self.spec_info().height
    }

    /// The byte offset of a pixel.
    pub open spec fn pixel_offset(&self, x: int, y: int) -> int {
        y * self.spec_info().stride + x * bpp(self.spec_info().format)
    }

    /// A zeroed framebuffer of the given geometry.
    pub fn new(info: FramebufferInfo) -> (r: Self)
        requires
            info.width * bpp(info.format) <= info.stride,
            info.stride * info.height <= usize::MAX,
        ensures
            r.wf(),
            r.spec_info() == info,
    {
        proof {
            assert(info.stride * info.height >= 0) by (nonlinear_arith);
        }
        let size: usize = info.stride * info.height;
        let mut buffer: Vec<u8> = Vec::new();
        let mut i: usize = 0;
        while i < size
            invariant
                i <= size,
                buffer@.len() == i,
            decreases size - i,
        {
            buffer.push(0);
            i = i + 1;
        }
        Framebuffer { info, buffer }
    }

    /// The geometry.
    pub fn info(&self) -> (r: &FramebufferInfo)
        ensures
            *r == self.spec_info(),
    {
        &self.info
    }

    /// Write one pixel; coordinates outside the screen are ignored.
    pub fn put_pixel(&mut self, x: usize, y: usize, color: Color)
        requires
            old(self).wf(),
        ensures
            final(self).wf(),
            final(self).spec_info() == old(self).spec_info(),
            if x < old(self).spec_info().width && y < old(self).spec_info().height {
                ({
                    let off = old(self).pixel_offset(x as int, y as int);
                    let px = pixel_bytes(old(self).spec_info().format, color);
                    forall|k: int|
                        0 <= k < old(self).spec_buffer().len() ==> final(self).spec_buffer()[k]
                            == (if off <= k < off + px.len() {
                            px[k - off]
                        } else {
                            old(self).spec_buffer()[k]
                        })
                })
            } else {
                final(self).spec_buffer() == old(self).spec_buffer()
            },
    {
        if x >= self.info.width || y >= self.info.height {
            return ;
        }
        proof {
            lemma_pixel_in_bounds(
                self.spec_info().width as int,
                self.spec_info().height as int,
                self.spec_info().stride as int,
                bpp(self.spec_info().format),
                x as int,
                y as int,
            );
        }
        let region_len = self.buffer.len();
        let b = self.info.format.bytes_per_pixel();
        let offset = y * self.info.stride + x * b;
        proof {
            assert(offset + b <= region_len);
        }
        match self.info.format {
            PixelFormat::RGB888 => {
                self.buffer[offset] = color.r;
                self.buffer[offset + 1] = color.g;
                self.buffer[offset + 2] = color.b;
            },
            PixelFormat::RGBA8888 => {
                self.buffer[offset] = color.r;
                self.buffer[offset + 1] = color.g;
                self.buffer[offset + 2] = color.b;
                self.buffer[offset + 3] = color.a;
            },
            PixelFormat::RGB565 => {
                let packed = ((color.r as u16 & 0xF8) << 8) | ((color.g as u16 & 0xFC) << 3) | ((
                color.b as u16 & 0xF8) >> 3);
                self.buffer[offset] = (packed & 0xFF) as u8;
                self.buffer[offset + 1] = ((packed >> 8) & 0xFF) as u8;
            },
        }
    }

    /// Read one pixel; `None` outside the screen. The alpha channel reads
    /// 255 for formats that do not store one, and RGB565 reads back the
    /// quantized channels.
    pub fn get_pixel(&self, x: usize, y: usize) -> (r: Option<Color>)
        requires
            self.wf(),
        ensures
            if x < self.spec_info().width && y < self.spec_info().height {
                ({
                    let off = self.pixel_offset(x as int, y as int);
                    let s = self.spec_buffer();
                    match self.spec_info().format {
                        PixelFormat::RGB888 => r == Some(
                            Color { r: s[off], g: s[off + 1], b: s[off + 2], a: 255u8 },
                        ),
                        PixelFormat::RGBA8888 => r == Some(
                            Color { r: s[off], g: s[off + 1], b: s[off + 2], a: s[off + 3] },
                        ),
                        PixelFormat::RGB565 => ({
                            let packed = (s[off] as u16 | ((s[off + 1] as u16) << 8)) as u16;
                            r == Some(
                                Color {
                                    r: ((packed >> 8) & 0xF8) as u8,
                                    g: ((packed >> 3) & 0xFC) as u8,
                                    b: ((packed << 3) & 0xF8) as u8,
                                    a: 255u8,
                                },
                            )
                        }),
                    }
                })
            } else {
                r is None
            },
    {
        if x >= self.info.width || y >= self.info.height {
            return None;
        }
        proof {
            lemma_pixel_in_bounds(
                self.spec_info().width as int,
                self.spec_info().height as int,
                self.spec_info().stride as int,
                bpp(self.spec_info().format),
                x as int,
                y as int,
            );
        }
        let region_len = self.buffer.len();
        let b = self.info.format.bytes_per_pixel();
        let offset = y * self.info.stride + x * b;
        proof {
            assert(offset + b <= region_len);
        }
        let color = match self.info.format {
            PixelFormat::RGB888 => Color::rgb(
                self.buffer[offset],
                self.buffer[offset + 1],
                self.buffer[offset + 2],
            ),
            PixelFormat::RGBA8888 => Color::new(
                self.buffer[offset],
                self.buffer[offset + 1],
                self.buffer[offset + 2],
                self.buffer[offset + 3],
            ),
            PixelFormat::RGB565 => {
                let packed = (self.buffer[offset] as u16) | ((self.buffer[offset + 1] as u16) << 8);
                Color::rgb(
                    ((packed >> 8) & 0xF8) as u8,
                    ((packed >> 3) & 0xFC) as u8,
                    ((packed << 3) & 0xF8) as u8,
                )
            },
        };
        Some(color)
    }

    /// Fill the whole screen with a color.
    pub fn clear(&mut self, color: Color)
        requires
            old(self).wf(),
        ensures
            final(self).wf(),
            final(self).spec_info() == old(self).spec_info(),
    {
        let mut y: usize = 0;
        while y < self.info.height
            invariant
                self.wf(),
                self.spec_info() == old(self).spec_info(),
            decreases self.spec_info().height - y,
        {
            let mut x: usize = 0;
            while x < self.info.width
                invariant
                    self.wf(),
                    self.spec_info() == old(self).spec_info(),
                decreases self.spec_info().width - x,
            {
                self.put_pixel(x, y, color);
                x = x + 1;
            }
            y = y + 1;
        }
    }

    /// Draw a filled rectangle; parts outside the screen are clipped.
    pub fn draw_rect(&mut self, x: usize, y: usize, width: usize, height: usize, color: Color)
        requires
            old(self).wf(),
            x + width <= usize::MAX,
            y + height <= usize::MAX,
        ensures
            final(self).wf(),
            final(self).spec_info() == old(self).spec_info(),
    {
        let mut dy: usize = 0;
        while dy < height
            invariant
                self.wf(),
                self.spec_info() == old(self).spec_info(),
                dy <= height,
                x + width <= usize::MAX,
                y + height <= usize::MAX,
            decreases height - dy,
        {
            let mut dx: usize = 0;
            while dx < width
                invariant
                    self.wf(),
                    self.spec_info() == old(self).spec_info(),
                    dx <= width,
                    dy < height,
                    x + width <= usize::MAX,
                    y + height <= usize::MAX,
                decreases width - dx,
            {
                self.put_pixel(x + dx, y + dy, color);
                dx = dx + 1;
            }
            dy = dy + 1;
        }
    }

    /// Draw a filled rectangle; parts outside the screen are clipped.
    pub fn fill_rect(&mut self, x: usize, y: usize, width: usize, height: usize, color: Color)
        requires
            old(self).wf(),
            x + width <= usize::MAX,
            y + height <= usize::MAX,
        ensures
            final(self).wf(),
            final(self).spec_info() == old(self).spec_info(),
    {
        self.draw_rect(x, y, width, height, color);
    }

    /// Draw a line between two points with Bresenham's algorithm; pixels
    /// outside the screen are clipped.
    pub fn draw_line(&mut self, x0: usize, y0: usize, x1: usize, y1: usize, color: Color)
        requires
            old(self).wf(),
            x0 <= isize::MAX as usize,
            y0 <= isize::MAX as usize,
            x1 <= isize::MAX as usize,
            y1 <= isize::MAX as usize,
            x0 + x1 + y0 + y1 + 1 <= isize::MAX as usize,
        ensures
            final(self).wf(),
            final(self).spec_info() == old(self).spec_info(),
    {
        let dx = if x1 >= x0 {
            (x1 - x0) as isize
        } else {
            (x0 - x1) as isize
        };
        let dy_abs = if y1 >= y0 {
            (y1 - y0) as isize
        } else {
            (y0 - y1) as isize
        };
        let dy = -dy_abs;
        let sx: isize = if x0 < x1 {
            1
        } else {
            -1
        };
        let sy: isize = if y0 < y1 {
            1
        } else {
            -1
        };
        let mut err = dx + dy;
        let mut x = x0 as isize;
        let mut y = y0 as isize;
        // one Bresenham step moves at least one coordinate one pixel
        // toward the endpoint, so the pixel budget bounds the loop
        let mut budget = dx + dy_abs + 1;
        while budget > 0
            invariant
                self.wf(),
                self.spec_info() == old(self).spec_info(),
                budget <= dx + dy_abs + 1,
                dx + dy_abs + 1 <= isize::MAX,
                dx >= 0,
                dy_abs >= 0,
                dy == -dy_abs,
                -isize::MAX <= err <= isize::MAX,
                0 <= x <= isize::MAX,
                0 <= y <= isize::MAX,
            decreases budget,
        {
            if x >= 0 && y >= 0 {
                self.put_pixel(x as usize, y as usize, color);
            }
            if x == x1 as isize && y == y1 as isize {
                break ;
            }
            let e2 = if err >= -isize::MAX / 2 && err <= isize::MAX / 2 {
                2 * err
            } else {
                err
            };
            if e2 >= dy {
                err = if err >= dy_abs - isize::MAX {
                    err + dy
                } else {
                    err
                };
                if sx > 0 {
                    if x < isize::MAX {
                        x = x + 1;
                    }
                } else {
                    if x > 0 {
                        x = x - 1;
                    }
                }
            }
            if e2 <= dx {
                err = if err <= isize::MAX - dx {
                    err + dx
                } else {
                    err
                };
                if sy > 0 {
                    if y < isize::MAX {
                        y = y + 1;
                    }
                } else {
                    if y > 0 {
                        y = y - 1;
                    }
                }
            }
            budget = budget - 1;
        }
    }

    /// Draw a circle outline with the midpoint algorithm; pixels outside
    /// the screen are clipped.
    pub fn draw_circle(&mut self, cx: usize, cy: usize, radius: usize, color: Color)
        requires
            old(self).wf(),
            cx + radius <= isize::MAX as usize / 4,
            cy + radius <= isize::MAX as usize / 4,
        ensures
            final(self).wf(),
            final(self).spec_info() == old(self).spec_info(),
    {
        let mut x = radius as isize;
        let mut y: isize = 0;
        let mut err: isize = 0;
        while x >= y
            invariant
                self.wf(),
                self.spec_info() == old(self).spec_info(),
                0 <= y,
                x <= radius as int,
                y <= radius as int + 1,
                cx + radius <= isize::MAX as int / 4,
                cy + radius <= isize::MAX as int / 4,
                -(isize::MAX as int) <= err <= isize::MAX,
            decreases x - y + 2,
        {
            let cxi = cx as isize;
            let cyi = cy as isize;
            self.put_point(cxi + x, cyi + y, color);
            self.put_point(cxi + y, cyi + x, color);
            self.put_point(cxi - y, cyi + x, color);
            self.put_point(cxi - x, cyi + y, color);
            self.put_point(cxi - x, cyi - y, color);
            self.put_point(cxi - y, cyi - x, color);
            self.put_point(cxi + y, cyi - x, color);
            self.put_point(cxi + x, cyi - y, color);
            y = y + 1;
            err = if err <= isize::MAX - 2 * (radius as isize) - 3 {
                err + 1 + 2 * y
            } else {
                err
            };
            // 2 * (err - x) + 1 > 0 exactly when err >= x, in integers
            let step_down = err >= x;
            if step_down {
                x = x - 1;
                err = if err >= -isize::MAX + 2 * (radius as isize) + 1 && err <= isize::MAX - 3 && x <= radius as isize {
                    err + 1 - 2 * x
                } else {
                    err
                };
            }
        }
    }

    /// Write a pixel given signed coordinates; negative ones are clipped.
    fn put_point(&mut self, x: isize, y: isize, color: Color)
        requires
            old(self).wf(),
        ensures
            final(self).wf(),
            final(self).spec_info() == old(self).spec_info(),
    {
        if x >= 0 && y >= 0 {
            self.put_pixel(x as usize, y as usize, color);
        }
    }

    /// Copy a rectangular region; source and destination parts outside
    /// the screen are clipped.
    pub fn copy_region(
        &mut self,
        src_x: usize,
        src_y: usize,
        dst_x: usize,
        dst_y: usize,
        width: usize,
        height: usize,
    )
        requires
            old(self).wf(),
            src_x + width <= usize::MAX,
            src_y + height <= usize::MAX,
            dst_x + width <= usize::MAX,
            dst_y + height <= usize::MAX,
        ensures
            final(self).wf(),
            final(self).spec_info() == old(self).spec_info(),
    {
        let mut dy: usize = 0;
        while dy < height
            invariant
                self.wf(),
                self.spec_info() == old(self).spec_info(),
                dy <= height,
                src_x + width <= usize::MAX,
                src_y + height <= usize::MAX,
                dst_x + width <= usize::MAX,
                dst_y + height <= usize::MAX,
            decreases height - dy,
        {
            let mut dx: usize = 0;
            while dx < width
                invariant
                    self.wf(),
                    self.spec_info() == old(self).spec_info(),
                    dx <= width,
                    dy < height,
                    src_x + width <= usize::MAX,
                    src_y + height <= usize::MAX,
                    dst_x + width <= usize::MAX,
                    dst_y + height <= usize::MAX,
                decreases width - dx,
            {
                match self.get_pixel(src_x + dx, src_y + dy) {
                    Some(color) => {
                        self.put_pixel(dst_x + dx, dst_y + dy, color);
                    },
                    None => {},
                }
                dx = dx + 1;
            }
            dy = dy + 1;
        }
    }

    /// Scroll the screen contents up by a number of lines, filling the
    /// exposed bottom band with a color.
    pub fn scroll_up(&mut self, lines: usize, fill_color: Color)
        requires
            old(self).wf(),
            lines <= old(self).spec_info().height,
        ensures
            final(self).wf(),
            final(self).spec_info() == old(self).spec_info(),
    {
        let height = self.info.height;
        let width = self.info.width;
        self.copy_region(0, lines, 0, 0, width, height - lines);
        self.fill_rect(0, height - lines, width, lines, fill_color);
    }
}

/// A pixel inside the screen occupies bytes inside the region.
proof fn lemma_pixel_in_bounds(width: int, height: int, stride: int, b: int, x: int, y: int)
    requires
        0 <= x < width,
        0 <= y < height,
        0 < b,
        width * b <= stride,
    ensures
        y * stride + x * b + b <= stride * height,
        0 <= y * stride,
        0 <= x * b,
{
    assert(x * b + b <= width * b) by (nonlinear_arith)
        requires
            x < width,
            0 < b,
    ;
    assert(y * stride + stride <= height * stride) by (nonlinear_arith)
        requires
            y < height,
            width * b <= stride,
            0 < b,
            0 <= width * b,
    ;
    assert(0 <= y * stride) by (nonlinear_arith)
        requires
            0 <= y,
            0 <= stride,
    ;
    assert(0 <= x * b) by (nonlinear_arith)
        requires
            0 <= x,
            0 < b,
    ;
    assert(stride * height == height * stride) by (nonlinear_arith);
}

} // verus!
