use crate::error::VgaError;
use vstd::prelude::*;

verus! {

/// How the four bytes of a pixel are interpreted by the display.
#[derive(Clone, Copy, Debug, PartialEq, Eq, Structural)]
pub enum PixelFormat {
    Xrgb8888,
    Argb8888,
}

/// Layout of a linear framebuffer: visible size, row stride in pixels,
/// physical placement, size in bytes and pixel layout.
#[derive(Clone, Copy, Debug, PartialEq, Eq, Structural)]
pub struct FramebufferInfo {
    pub width: u32,
    pub height: u32,
    pub stride: u32,
    pub framebuffer_paddr: usize,
    pub framebuffer_size: usize,
    pub bytes_per_pixel: u8,
    pub pixel_format: PixelFormat,
}

/// One 32-bit store into the framebuffer: `color` goes to address `addr`.
#[derive(Clone, Copy, Debug, PartialEq, Eq, Structural)]
pub struct PixelWrite {
    pub addr: usize,
    pub color: u32,
}

/// A run of 32-bit stores that fills a framebuffer: `color` goes to
/// `base + 4 * i` for each `i < count`, in increasing order of `i`; the
/// operation then reports `outcome`.
#[derive(Clone, Copy, Debug, PartialEq, Eq)]
pub struct ScreenFill {
    pub base: usize,
    pub count: usize,
    pub color: u32,
    pub outcome: Result<(), VgaError>,
}

impl FramebufferInfo {
    /// Row-major index of pixel `(x, y)`: `y * stride + x`.
    pub open spec fn pixel_index(self, x: u32, y: u32) -> int {
        y * self.stride + x
    }

    /// Byte offset of pixel `(x, y)` from the start of the framebuffer, when
    /// the pixel is visible and its bytes lie inside the framebuffer.
    pub open spec fn spec_pixel_offset(self, x: u32, y: u32) -> Result<usize, VgaError> {
        if x >= self.width || y >= self.height {
            Err(VgaError::InvalidPixelPosition)
        } else if self.pixel_index(x, y) > usize::MAX || (self.pixel_index(x, y) + 1)
            * self.bytes_per_pixel > self.framebuffer_size {
            Err(VgaError::InvalidFramebuffer)
        } else {
            Ok((self.pixel_index(x, y) * self.bytes_per_pixel) as usize)
        }
    }

    /// Byte offset of the visible pixel `(x, y)` in the framebuffer.
    ///
    /// Fails with `InvalidPixelPosition` outside the visible area, and with
    /// `InvalidFramebuffer` when the offset overflows or the pixel's bytes
    /// would end past `framebuffer_size`.
    pub fn pixel_offset(&self, x: u32, y: u32) -> (r: Result<usize, VgaError>)
        ensures
            r == self.spec_pixel_offset(x, y),
            r matches Ok(off) ==> off + self.bytes_per_pixel <= self.framebuffer_size,
            x >= self.width || y >= self.height ==> r == Err::<usize, VgaError>(
                VgaError::InvalidPixelPosition,
            ),
            r matches Ok(off) ==> off == (y * self.stride + x) * self.bytes_per_pixel,
    {
        if x >= self.width || y >= self.height {
            return Err(VgaError::InvalidPixelPosition);
        }
        let bytes_per_pixel = usize::from(self.bytes_per_pixel);
        let ghost idx = self.pixel_index(x, y);
        let ghost bpp = self.bytes_per_pixel as int;
        let row_offset = match (y as usize).checked_mul(self.stride as usize) {
            Some(v) => v,
            None => {
                return Err(VgaError::InvalidFramebuffer);
            },
        };
        let pixel_index = match row_offset.checked_add(x as usize) {
            Some(v) => v,
            None => {
                return Err(VgaError::InvalidFramebuffer);
            },
        };
        assert(pixel_index == idx);
        let byte_offset = match pixel_index.checked_mul(bytes_per_pixel) {
            Some(v) => v,
            None => {
                assert((idx + 1) * bpp == idx * bpp + bpp) by (nonlinear_arith);
                return Err(VgaError::InvalidFramebuffer);
            },
        };
        assert((idx + 1) * bpp == idx * bpp + bpp) by (nonlinear_arith);
        let end_offset = match byte_offset.checked_add(bytes_per_pixel) {
            Some(v) => v,
            None => {
                return Err(VgaError::InvalidFramebuffer);
            },
        };
        if end_offset > self.framebuffer_size {
            return Err(VgaError::InvalidFramebuffer);
        }
        Ok(byte_offset)
    }
}

/// The store that draws pixel `(x, y)` in `color`, or why there is none.
pub open spec fn spec_draw_pixel(info: FramebufferInfo, x: u32, y: u32, color: u32) -> Result<
    PixelWrite,
    VgaError,
> {
    if info.bytes_per_pixel != 4 {
        Err(VgaError::UnsupportedFormat)
    } else {
        match info.spec_pixel_offset(x, y) {
            Err(e) => Err(e),
            Ok(off) => if info.framebuffer_paddr + off > usize::MAX {
                Err(VgaError::InvalidFramebuffer)
            } else {
                Ok(PixelWrite { addr: (info.framebuffer_paddr + off) as usize, color })
            },
        }
    }
}

/// Computes the 32-bit store that draws pixel `(x, y)` in `color`.
///
/// Only four-byte pixels are written (`UnsupportedFormat` otherwise); the
/// offset is that of [`FramebufferInfo::pixel_offset`], added to the
/// framebuffer's address without overflow (`InvalidFramebuffer` otherwise).
/// A store that is returned lies wholly inside the framebuffer.
pub fn draw_pixel(info: &FramebufferInfo, x: u32, y: u32, color: u32) -> (r: Result<
    PixelWrite,
    VgaError,
>)
    ensures
        r == spec_draw_pixel(*info, x, y, color),
        r matches Ok(w) ==> info.framebuffer_paddr <= w.addr && w.addr + 4
            <= info.framebuffer_paddr + info.framebuffer_size,
{
    if info.bytes_per_pixel != 4 {
        return Err(VgaError::UnsupportedFormat);
    }
    let offset = match info.pixel_offset(x, y) {
        Ok(o) => o,
        Err(e) => {
            return Err(e);
        },
    };
    let addr = match info.framebuffer_paddr.checked_add(offset) {
        Some(a) => a,
        None => {
            return Err(VgaError::InvalidFramebuffer);
        },
    };
    Ok(PixelWrite { addr, color })
}

/// Number of four-byte pixels whose address `base + 4 * i` does not
/// overflow, counting from `i = 0`.
pub open spec fn addressable_pixels(base: usize) -> int {
    (usize::MAX - base) / 4 + 1
}

/// The stores that fill the whole framebuffer with `color`.
///
/// The framebuffer is taken as `framebuffer_size / 4` consecutive pixels.
/// When some of their addresses overflow, the pixels before the first such
/// one are still written and the fill reports `InvalidFramebuffer`.
pub open spec fn spec_clear_screen(info: FramebufferInfo, color: u32) -> ScreenFill {
    let base = info.framebuffer_paddr;
    if info.bytes_per_pixel != 4 {
        ScreenFill { base, count: 0, color, outcome: Err(VgaError::UnsupportedFormat) }
    } else if info.framebuffer_size % 4 != 0 {
        ScreenFill { base, count: 0, color, outcome: Err(VgaError::InvalidFramebuffer) }
    } else if info.framebuffer_size / 4 <= addressable_pixels(base) {
        ScreenFill { base, count: info.framebuffer_size / 4, color, outcome: Ok(()) }
    } else {
        ScreenFill {
            base,
            count: addressable_pixels(base) as usize,
            color,
            outcome: Err(VgaError::InvalidFramebuffer),
        }
    }
}

/// Computes the stores that fill the framebuffer with `color`.
///
/// Only four-byte pixels are written (`UnsupportedFormat`), and the
/// framebuffer must hold a whole number of them (`InvalidFramebuffer`);
/// in both cases nothing is written. Every store of the fill lies inside
/// the framebuffer and its address does not overflow.
pub fn clear_screen(info: &FramebufferInfo, color: u32) -> (r: ScreenFill)
    ensures
        r == spec_clear_screen(*info, color),
        r.color == color,
        r.base == info.framebuffer_paddr,
        r.count * 4 <= info.framebuffer_size,
        r.count == 0 || r.base + 4 * (r.count - 1) <= usize::MAX,
{
    let base = info.framebuffer_paddr;
    if info.bytes_per_pixel != 4 {
        return ScreenFill { base, count: 0, color, outcome: Err(VgaError::UnsupportedFormat) };
    }
    let bytes_per_pixel = usize::from(info.bytes_per_pixel);
    if !info.framebuffer_size.is_multiple_of(bytes_per_pixel) {
        return ScreenFill { base, count: 0, color, outcome: Err(VgaError::InvalidFramebuffer) };
    }
    let pixel_count = info.framebuffer_size / bytes_per_pixel;
    let addressable = (usize::MAX - base) / 4 + 1;
    if pixel_count <= addressable {
        ScreenFill { base, count: pixel_count, color, outcome: Ok(()) }
    } else {
        ScreenFill { base, count: addressable, color, outcome: Err(VgaError::InvalidFramebuffer) }
    }
}

impl ScreenFill {
    /// Address of the `index`-th store of the fill, if the fill has one.
    pub fn pixel_address(&self, index: usize) -> (r: Option<usize>)
        ensures
            r == (if index < self.count && self.base + 4 * index <= usize::MAX {
                Some((self.base + 4 * index) as usize)
            } else {
                None
            }),
    {
        if index >= self.count || index > (usize::MAX - self.base) / 4 {
            return None;
        }
        Some(self.base + 4 * index)
    }
}

impl FramebufferInfo {
    /// The layout rules a display must meet: a non-empty visible area, a
    /// stride of at least the width, a non-null non-empty framebuffer that
    /// ends within the address space, four-byte pixels, and room for
    /// `height` rows of `stride` pixels.
    pub open spec fn is_valid_layout(self) -> bool {
        &&& self.width > 0
        &&& self.height > 0
        &&& self.stride >= self.width
        &&& self.framebuffer_paddr != 0
        &&& self.framebuffer_size != 0
        &&& self.framebuffer_paddr + self.framebuffer_size <= usize::MAX
        &&& self.bytes_per_pixel == 4
        &&& self.framebuffer_size >= self.stride * self.height * self.bytes_per_pixel
    }

    /// The verdict on a layout, the rules taken in order: the resolution
    /// (`InvalidResolution`), the framebuffer's address and size
    /// (`InvalidFramebuffer`), the pixel size (`UnsupportedFormat`), and
    /// room for every row (`InvalidFramebuffer`).
    pub open spec fn spec_validate_layout(self) -> Result<(), VgaError> {
        if self.width == 0 || self.height == 0 || self.stride < self.width {
            Err(VgaError::InvalidResolution)
        } else if self.framebuffer_paddr == 0 || self.framebuffer_size == 0
            || self.framebuffer_paddr + self.framebuffer_size > usize::MAX {
            Err(VgaError::InvalidFramebuffer)
        } else if self.bytes_per_pixel != 4 {
            Err(VgaError::UnsupportedFormat)
        } else if self.stride * self.height * self.bytes_per_pixel > self.framebuffer_size {
            Err(VgaError::InvalidFramebuffer)
        } else {
            Ok(())
        }
    }

    /// Checks a layout against the layout rules, reporting the first rule
    /// it breaks; it passes exactly when the layout is valid.
    pub fn validate_layout(&self) -> (r: Result<(), VgaError>)
        ensures
            r == self.spec_validate_layout(),
            r is Ok <==> self.is_valid_layout(),
    {
        if self.width == 0 || self.height == 0 || self.stride < self.width {
            return Err(VgaError::InvalidResolution);
        }
        if self.framebuffer_paddr == 0 || self.framebuffer_size == 0 || self.framebuffer_paddr
            > usize::MAX - self.framebuffer_size {
            return Err(VgaError::InvalidFramebuffer);
        }
        if self.bytes_per_pixel != 4 {
            return Err(VgaError::UnsupportedFormat);
        }
        let row_pixels = match (self.stride as usize).checked_mul(self.height as usize) {
            Some(v) => v,
            None => {
                assert(self.stride * self.height * 4 >= self.stride * self.height) by (
                nonlinear_arith)
                    requires
                        self.stride * self.height >= 0,
                ;
                return Err(VgaError::InvalidFramebuffer);
            },
        };
        let needed = match row_pixels.checked_mul(4) {
            Some(v) => v,
            None => {
                return Err(VgaError::InvalidFramebuffer);
            },
        };
        if needed > self.framebuffer_size {
            return Err(VgaError::InvalidFramebuffer);
        }
        Ok(())
    }
}

/// On a valid layout the bytes of every visible pixel `(x, y)` end within
/// the framebuffer: `(y * stride + x + 1) * 4 <= framebuffer_size`.
pub proof fn lemma_visible_pixel_end(info: FramebufferInfo, x: u32, y: u32)
    requires
        info.is_valid_layout(),
        x < info.width,
        y < info.height,
    ensures
        (info.pixel_index(x, y) + 1) * 4 <= info.framebuffer_size,
{
    let s = info.stride as int;
    let h = info.height as int;
    let idx = info.pixel_index(x, y);
    assert(idx + 1 <= h * s) by (nonlinear_arith)
        requires
            idx == y * s + x,
            x < s,
            y + 1 <= h,
    ;
    assert((idx + 1) * 4 <= s * h * 4) by (nonlinear_arith)
        requires
            idx + 1 <= h * s,
    ;
}

/// On a valid layout every visible pixel has an offset: the row-major one,
/// `(y * stride + x) * 4`.
pub proof fn lemma_visible_pixel_offset(info: FramebufferInfo, x: u32, y: u32)
    requires
        info.is_valid_layout(),
        x < info.width,
        y < info.height,
    ensures
        info.spec_pixel_offset(x, y) == Ok::<usize, VgaError>(
            ((y * info.stride + x) * 4) as usize,
        ),
{
    lemma_visible_pixel_end(info, x, y);
}

/// On a valid layout every visible pixel is drawn, at
/// `framebuffer_paddr + (y * stride + x) * 4`.
pub proof fn lemma_visible_pixel_drawn(info: FramebufferInfo, x: u32, y: u32, color: u32)
    requires
        info.is_valid_layout(),
        x < info.width,
        y < info.height,
    ensures
        spec_draw_pixel(info, x, y, color) == Ok::<PixelWrite, VgaError>(
            PixelWrite {
                addr: (info.framebuffer_paddr + (y * info.stride + x) * 4) as usize,
                color,
            },
        ),
{
    lemma_visible_pixel_offset(info, x, y);
    lemma_visible_pixel_end(info, x, y);
}

/// Clearing a valid layout whose size is a whole number of pixels writes
/// every pixel of the framebuffer: `framebuffer_size / 4` stores from
/// `framebuffer_paddr` on, and succeeds.
pub proof fn lemma_valid_layout_cleared(info: FramebufferInfo, color: u32)
    requires
        info.is_valid_layout(),
        info.framebuffer_size % 4 == 0,
    ensures
        spec_clear_screen(info, color) == (ScreenFill {
            base: info.framebuffer_paddr,
            count: (info.framebuffer_size / 4) as usize,
            color,
            outcome: Ok(()),
        }),
{
}

/// When rows are at least as long as the visible width, two different
/// pixels never share a byte of the framebuffer.
pub proof fn lemma_distinct_pixels_disjoint(
    info: FramebufferInfo,
    x1: u32,
    y1: u32,
    x2: u32,
    y2: u32,
)
    requires
        info.stride >= info.width,
        info.spec_pixel_offset(x1, y1) is Ok,
        info.spec_pixel_offset(x2, y2) is Ok,
        x1 != x2 || y1 != y2,
    ensures
        ({
            let o1 = info.spec_pixel_offset(x1, y1)->Ok_0;
            let o2 = info.spec_pixel_offset(x2, y2)->Ok_0;
            o1 + info.bytes_per_pixel <= o2 || o2 + info.bytes_per_pixel <= o1
        }),
{
    let s = info.stride as int;
    let b = info.bytes_per_pixel as int;
    let i1 = y1 * s + x1;
    let i2 = y2 * s + x2;
    assert(i1 != i2) by (nonlinear_arith)
        requires
            i1 == y1 * s + x1,
            i2 == y2 * s + x2,
            0 <= x1 < s,
            0 <= x2 < s,
            0 <= y1,
            0 <= y2,
            x1 != x2 || y1 != y2,
    ;
    assert((i1 + 1) * b == i1 * b + b) by (nonlinear_arith);
    assert((i2 + 1) * b == i2 * b + b) by (nonlinear_arith);
    assert(0 <= i1 * b && 0 <= i2 * b) by (nonlinear_arith)
        requires
            i1 >= 0,
            i2 >= 0,
            b >= 0,
    ;
    assert(info.spec_pixel_offset(x1, y1)->Ok_0 == i1 * b);
    assert(info.spec_pixel_offset(x2, y2)->Ok_0 == i2 * b);
    assert(i1 * b + b <= i2 * b || i2 * b + b <= i1 * b) by (nonlinear_arith)
        requires
            i1 != i2,
            b >= 0,
    ;
}

/// Clearing the screen writes every pixel that drawing can write: when the
/// fill succeeds, the store of any drawn pixel is one of its stores.
pub proof fn lemma_clear_covers_drawn_pixel(
    info: FramebufferInfo,
    x: u32,
    y: u32,
    color: u32,
    fill_color: u32,
)
    requires
        spec_draw_pixel(info, x, y, color) is Ok,
        spec_clear_screen(info, fill_color).outcome is Ok,
    ensures
        ({
            let w = spec_draw_pixel(info, x, y, color)->Ok_0;
            let fill = spec_clear_screen(info, fill_color);
            let i = (w.addr - fill.base) / 4;
            0 <= i < fill.count && fill.base + 4 * i == w.addr
        }),
{
    let off = info.spec_pixel_offset(x, y)->Ok_0;
    let idx = info.pixel_index(x, y);
    assert(off == idx * 4);
    assert((idx * 4) / 4 == idx) by (nonlinear_arith);
    assert((idx + 1) * 4 == idx * 4 + 4) by (nonlinear_arith);
    assert(idx < info.framebuffer_size / 4);
}

/// Pixels outside the visible area have no offset, whatever the stride:
/// columns past the width (row padding) and rows past the height are
/// refused as `InvalidPixelPosition`, and drawing there writes nothing.
pub proof fn lemma_invisible_pixel_refused(info: FramebufferInfo, x: u32, y: u32, color: u32)
    requires
        x >= info.width || y >= info.height,
    ensures
        info.spec_pixel_offset(x, y) == Err::<usize, VgaError>(VgaError::InvalidPixelPosition),
        info.bytes_per_pixel == 4 ==> spec_draw_pixel(info, x, y, color) == Err::<
            PixelWrite,
            VgaError,
        >(VgaError::InvalidPixelPosition),
{
}

/// Every fill paints with the colour asked for, from the framebuffer's
/// first byte on; on a valid layout that is a whole number of pixels it
/// covers the whole framebuffer and succeeds.
pub proof fn lemma_clear_paints_requested_color(info: FramebufferInfo, color: u32)
    ensures
        spec_clear_screen(info, color).color == color,
        spec_clear_screen(info, color).base == info.framebuffer_paddr,
        info.is_valid_layout() && info.framebuffer_size % 4 == 0 ==> spec_clear_screen(
            info,
            color,
        ).count * 4 == info.framebuffer_size && spec_clear_screen(info, color).outcome
            == Ok::<(), VgaError>(()),
{
}

} // verus!
