use lbl_tg_rcore_tutorial_vga::framebuffer::{clear_screen, draw_pixel};
use lbl_tg_rcore_tutorial_vga::{FramebufferInfo, PixelFormat, PixelWrite, ScreenFill, VgaError};

fn framebuffer_info() -> FramebufferInfo {
    FramebufferInfo {
        width: 8,
        height: 6,
        stride: 8,
        framebuffer_paddr: 0x1000,
        framebuffer_size: 8 * 6 * 4,
        bytes_per_pixel: 4,
        pixel_format: PixelFormat::Xrgb8888,
    }
}

#[test]
fn pixel_offset_matches_layout() {
    let info = framebuffer_info();
    assert_eq!(info.pixel_offset(0, 0), Ok(0));
    assert_eq!(info.pixel_offset(3, 2), Ok((2 * 8 + 3) * 4));
}

#[test]
fn pixel_offset_rejects_out_of_bounds_coordinates() {
    let info = framebuffer_info();
    assert_eq!(info.pixel_offset(8, 0), Err(VgaError::InvalidPixelPosition));
    assert_eq!(info.pixel_offset(0, 6), Err(VgaError::InvalidPixelPosition));
}

#[test]
fn pixel_offset_rejects_invalid_framebuffer_range() {
    let mut info = framebuffer_info();
    info.framebuffer_size = 4;
    assert_eq!(info.pixel_offset(1, 0), Err(VgaError::InvalidFramebuffer));
}

#[test]
fn pixel_offset_uses_stride_not_width() {
    let mut info = framebuffer_info();
    info.stride = 10;
    info.framebuffer_size = 10 * 6 * 4;
    assert_eq!(info.pixel_offset(3, 2), Ok((2 * 10 + 3) * 4));
    // The last visible pixel still fits.
    assert_eq!(info.pixel_offset(7, 5), Ok((5 * 10 + 7) * 4));
}

#[test]
fn pixel_offset_checks_end_of_pixel() {
    let mut info = framebuffer_info();
    info.framebuffer_size = 8 * 6 * 4 - 1;
    assert_eq!(info.pixel_offset(6, 5), Ok((5 * 8 + 6) * 4));
    assert_eq!(info.pixel_offset(7, 5), Err(VgaError::InvalidFramebuffer));
}

#[test]
fn pixel_offset_reports_overflow() {
    let info = FramebufferInfo {
        width: u32::MAX,
        height: u32::MAX,
        stride: u32::MAX,
        framebuffer_paddr: 0,
        framebuffer_size: usize::MAX,
        bytes_per_pixel: 255,
        pixel_format: PixelFormat::Argb8888,
    };
    assert_eq!(info.pixel_offset(u32::MAX - 1, u32::MAX - 1), Err(VgaError::InvalidFramebuffer));
}

#[test]
fn draw_pixel_targets_framebuffer_address() {
    let info = framebuffer_info();
    assert_eq!(
        draw_pixel(&info, 3, 2, 0x00ff_0000),
        Ok(PixelWrite { addr: 0x1000 + (2 * 8 + 3) * 4, color: 0x00ff_0000 })
    );
    assert_eq!(draw_pixel(&info, 8, 0, 1), Err(VgaError::InvalidPixelPosition));
}

#[test]
fn draw_pixel_rejects_other_pixel_sizes() {
    let mut info = framebuffer_info();
    info.bytes_per_pixel = 3;
    assert_eq!(draw_pixel(&info, 0, 0, 1), Err(VgaError::UnsupportedFormat));
}

#[test]
fn draw_pixel_rejects_address_overflow() {
    let mut info = framebuffer_info();
    info.framebuffer_paddr = usize::MAX - 3;
    assert_eq!(
        draw_pixel(&info, 0, 0, 1),
        Ok(PixelWrite { addr: usize::MAX - 3, color: 1 })
    );
    assert_eq!(draw_pixel(&info, 1, 0, 1), Err(VgaError::InvalidFramebuffer));
}

#[test]
fn clear_screen_fills_whole_buffer() {
    let info = framebuffer_info();
    let fill = clear_screen(&info, 0x0000_00ff);
    assert_eq!(fill, ScreenFill { base: 0x1000, count: 48, color: 0x0000_00ff, outcome: Ok(()) });
    assert_eq!(fill.pixel_address(0), Some(0x1000));
    assert_eq!(fill.pixel_address(47), Some(0x1000 + 47 * 4));
    assert_eq!(fill.pixel_address(48), None);
}

#[test]
fn clear_screen_rejects_bad_layouts() {
    let mut info = framebuffer_info();
    info.bytes_per_pixel = 2;
    let fill = clear_screen(&info, 0);
    assert_eq!(fill.count, 0);
    assert_eq!(fill.outcome, Err(VgaError::UnsupportedFormat));

    let mut info = framebuffer_info();
    info.framebuffer_size = 10;
    let fill = clear_screen(&info, 0);
    assert_eq!(fill.count, 0);
    assert_eq!(fill.outcome, Err(VgaError::InvalidFramebuffer));
}

#[test]
fn clear_screen_stops_at_address_overflow() {
    let mut info = framebuffer_info();
    info.framebuffer_paddr = usize::MAX - 11;
    let fill = clear_screen(&info, 7);
    // Pixels at MAX-11, MAX-7 and MAX-3 are addressable; the fourth is not.
    assert_eq!(fill.count, 3);
    assert_eq!(fill.outcome, Err(VgaError::InvalidFramebuffer));
    assert_eq!(fill.pixel_address(2), Some(usize::MAX - 3));
    assert_eq!(fill.pixel_address(3), None);
}

#[test]
fn distinct_pixels_do_not_overlap() {
    let info = framebuffer_info();
    let a = info.pixel_offset(7, 0).unwrap();
    let b = info.pixel_offset(0, 1).unwrap();
    assert!(a + 4 <= b);
}

#[test]
fn clear_covers_drawn_pixel() {
    let info = framebuffer_info();
    let fill = clear_screen(&info, 0);
    let w = draw_pixel(&info, 5, 4, 9).unwrap();
    let i = (w.addr - fill.base) / 4;
    assert!(i < fill.count);
    assert_eq!(fill.pixel_address(i), Some(w.addr));
}
