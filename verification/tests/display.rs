use lbl_tg_rcore_tutorial_vga::device::{
    FwCfgTransfer, ProbeAction, ProbeStage, RamfbProbe, FILE_ENTRY_LEN, FRAMEBUFFER_PIXELS,
    FRAMEBUFFER_SIZE, FW_CFG_FILE_DIR, FW_CFG_ID, FW_CFG_SIGNATURE,
};
use lbl_tg_rcore_tutorial_vga::display::InitAction;
use lbl_tg_rcore_tutorial_vga::pattern::{
    test_pattern_color, test_pattern_final_color, test_pattern_guides, CROSSHAIR_COLOR,
};
use lbl_tg_rcore_tutorial_vga::{
    clear_screen, draw_pixel, framebuffer_info, resolution, DisplayState, FramebufferInfo,
    PixelFormat, PixelWrite, VgaError,
};

fn small_info() -> FramebufferInfo {
    FramebufferInfo {
        width: 8,
        height: 6,
        stride: 8,
        framebuffer_paddr: 0x1000,
        framebuffer_size: 8 * 6 * 4,
        bytes_per_pixel: 4,
        pixel_format: PixelFormat::Xrgb8888,
    }
}

#[test]
fn drawing_before_init_is_refused() {
    let display = DisplayState::new();
    assert_eq!(display.init_state(), 0);
    assert_eq!(draw_pixel(&display, 0, 0, 1), Err(VgaError::NotInitialized));
    let fill = clear_screen(&display, 1);
    assert_eq!(fill.count, 0);
    assert_eq!(fill.outcome, Err(VgaError::NotInitialized));
    assert_eq!(resolution(&display), Err(VgaError::NotInitialized));
    assert_eq!(framebuffer_info(&display), Err(VgaError::NotInitialized));
}

#[test]
fn init_records_layout_and_clears_to_black() {
    let mut display = DisplayState::new();
    assert_eq!(display.begin_init(), Ok(()));
    assert_eq!(display.init_state(), 1);
    let fill = display.finish_init(Ok(small_info()));
    assert_eq!(fill.count, 48);
    assert_eq!(fill.color, 0);
    assert_eq!(fill.outcome, Ok(()));
    assert_eq!(display.init_state(), 2);
    assert_eq!(resolution(&display), Ok((8, 6)));
    assert_eq!(framebuffer_info(&display), Ok(small_info()));
    assert_eq!(
        draw_pixel(&display, 1, 1, 5),
        Ok(PixelWrite { addr: 0x1000 + (8 + 1) * 4, color: 5 })
    );
    assert_eq!(clear_screen(&display, 3).count, 48);
}

#[test]
fn init_happens_once() {
    let mut display = DisplayState::new();
    assert_eq!(display.begin_init(), Ok(()));
    // A second claim while running is refused.
    assert_eq!(display.begin_init(), Err(VgaError::AlreadyInitialized));
    display.finish_init(Ok(small_info()));
    assert_eq!(display.begin_init(), Err(VgaError::AlreadyInitialized));
    assert_eq!(framebuffer_info(&display), Ok(small_info()));
}

#[test]
fn failed_probe_rolls_back() {
    let mut display = DisplayState::new();
    display.begin_init().unwrap();
    let fill = display.finish_init(Err(VgaError::DeviceNotReady));
    assert_eq!(fill.count, 0);
    assert_eq!(fill.outcome, Err(VgaError::DeviceNotReady));
    assert_eq!(display.init_state(), 0);
    assert_eq!(resolution(&display), Err(VgaError::NotInitialized));
    // It can be tried again.
    assert_eq!(display.begin_init(), Ok(()));
}

#[test]
fn failed_clear_rolls_back() {
    let mut display = DisplayState::new();
    display.begin_init().unwrap();
    let mut info = small_info();
    info.bytes_per_pixel = 2;
    let fill = display.finish_init(Ok(info));
    assert_eq!(fill.outcome, Err(VgaError::UnsupportedFormat));
    assert_eq!(display.init_state(), 0);
    assert_eq!(draw_pixel(&display, 0, 0, 0), Err(VgaError::NotInitialized));
}

fn directory_entry(selector: u16, name: &[u8]) -> [u8; 64] {
    let mut entry = [0u8; 64];
    entry[4..6].copy_from_slice(&selector.to_be_bytes());
    entry[8..8 + name.len()].copy_from_slice(name);
    entry
}

#[test]
fn probe_configures_ramfb() {
    let (mut probe, action) = RamfbProbe::new(0x8020_0000);
    assert_eq!(
        action,
        ProbeAction::Transfer(FwCfgTransfer::ReadItem { selector: FW_CFG_SIGNATURE, len: 4 })
    );
    let action = probe.step(Ok(b"QEMU"));
    assert_eq!(action, ProbeAction::Transfer(FwCfgTransfer::ReadItem { selector: FW_CFG_ID, len: 4 }));
    let action = probe.step(Ok(&[0x03, 0, 0, 0]));
    assert_eq!(
        action,
        ProbeAction::Transfer(FwCfgTransfer::ReadItem { selector: FW_CFG_FILE_DIR, len: 4 })
    );
    let action = probe.step(Ok(&2u32.to_be_bytes()));
    assert_eq!(action, ProbeAction::Transfer(FwCfgTransfer::ReadCurrent { len: FILE_ENTRY_LEN }));
    assert_eq!(probe.stage, ProbeStage::FileEntry { unread: 1 });
    let action = probe.step(Ok(&directory_entry(0x0020, b"etc/e820")));
    assert_eq!(action, ProbeAction::Transfer(FwCfgTransfer::ReadCurrent { len: FILE_ENTRY_LEN }));
    let action = probe.step(Ok(&directory_entry(0x0021, b"etc/ramfb")));
    match action {
        ProbeAction::Transfer(FwCfgTransfer::WriteItem { selector, data }) => {
            assert_eq!(selector, 0x0021);
            assert_eq!(&data[0..8], &0x8020_0000u64.to_be_bytes());
        }
        other => panic!("unexpected action {:?}", other),
    }
    assert_eq!(probe.stage, ProbeStage::Configure);
    let action = probe.step(Ok(&[]));
    let expected = FramebufferInfo {
        width: 640,
        height: 480,
        stride: 640,
        framebuffer_paddr: 0x8020_0000,
        framebuffer_size: FRAMEBUFFER_SIZE,
        bytes_per_pixel: 4,
        pixel_format: PixelFormat::Xrgb8888,
    };
    assert_eq!(action, ProbeAction::Finish(Ok(expected)));
    assert!(probe.is_done());

    let mut display = DisplayState::new();
    display.begin_init().unwrap();
    let fill = display.finish_init(Ok(expected));
    assert_eq!(fill.count, FRAMEBUFFER_PIXELS);
    assert_eq!(resolution(&display), Ok((640, 480)));
    assert_eq!(
        draw_pixel(&display, 10, 2, 7),
        Ok(PixelWrite { addr: 0x8020_0000 + (2 * 640 + 10) * 4, color: 7 })
    );
}

#[test]
fn probe_rejects_other_signature() {
    let (mut probe, _) = RamfbProbe::new(0x8020_0000);
    assert_eq!(probe.step(Ok(b"QEMX")), ProbeAction::Finish(Err(VgaError::DeviceNotReady)));
    assert!(probe.is_done());
}

#[test]
fn probe_requires_dma() {
    let (mut probe, _) = RamfbProbe::new(0x8020_0000);
    probe.step(Ok(b"QEMU"));
    assert_eq!(probe.step(Ok(&[0x01, 0, 0, 0])), ProbeAction::Finish(Err(VgaError::MmioFault)));
}

#[test]
fn probe_reports_missing_ramfb() {
    let (mut probe, _) = RamfbProbe::new(0x8020_0000);
    probe.step(Ok(b"QEMU"));
    probe.step(Ok(&[0x02, 0, 0, 0]));
    probe.step(Ok(&1u32.to_be_bytes()));
    assert_eq!(
        probe.step(Ok(&directory_entry(0x0020, b"etc/e820"))),
        ProbeAction::Finish(Err(VgaError::DeviceNotReady))
    );

    let (mut probe, _) = RamfbProbe::new(0x8020_0000);
    probe.step(Ok(b"QEMU"));
    probe.step(Ok(&[0x02, 0, 0, 0]));
    assert_eq!(
        probe.step(Ok(&0u32.to_be_bytes())),
        ProbeAction::Finish(Err(VgaError::DeviceNotReady))
    );
}

#[test]
fn probe_passes_on_transfer_errors() {
    let (mut probe, _) = RamfbProbe::new(0x8020_0000);
    assert_eq!(probe.step(Err(VgaError::MmioFault)), ProbeAction::Finish(Err(VgaError::MmioFault)));
    assert!(probe.is_done());
}

#[test]
fn test_pattern_gradient() {
    assert_eq!(test_pattern_color(0, 0, 640, 480), Some(0));
    // red = 639*255/640 = 254, green = 479*255/480 = 254, blue = 1118*255/1120 = 254.
    assert_eq!(test_pattern_color(639, 479, 640, 480), Some(0x00fe_fefe));
    // red = 320*255/640 = 127, green = 0, blue = 320*255/1120 = 72.
    assert_eq!(test_pattern_color(320, 0, 640, 480), Some(0x007f_0048));
    assert_eq!(test_pattern_color(0, 0, 0, 480), None);
    assert_eq!(test_pattern_color(u32::MAX / 255 + 1, 0, u32::MAX, 1), None);
}

#[test]
fn test_pattern_marks() {
    assert_eq!(test_pattern_guides(0, 480), None);
    let g = test_pattern_guides(640, 480).unwrap();
    assert_eq!((g.center_x, g.center_y), (320, 240));
    assert_eq!(
        g.markers,
        [
            (0, 0, 0x00ff_0000),
            (639, 0, 0x0000_ff00),
            (0, 479, 0x0000_00ff),
            (639, 479, 0x00ff_ff00),
            (320, 240, CROSSHAIR_COLOR),
        ]
    );
}

#[test]
fn init_refuses_invalid_layouts() {
    let cases = [
        (FramebufferInfo { width: 0, ..small_info() }, VgaError::InvalidResolution),
        (FramebufferInfo { height: 0, ..small_info() }, VgaError::InvalidResolution),
        (FramebufferInfo { stride: 7, ..small_info() }, VgaError::InvalidResolution),
        (FramebufferInfo { framebuffer_paddr: 0, ..small_info() }, VgaError::InvalidFramebuffer),
        (FramebufferInfo { framebuffer_size: 0, ..small_info() }, VgaError::InvalidFramebuffer),
        (
            FramebufferInfo { framebuffer_paddr: usize::MAX - 100, ..small_info() },
            VgaError::InvalidFramebuffer,
        ),
        (FramebufferInfo { bytes_per_pixel: 3, ..small_info() }, VgaError::UnsupportedFormat),
        (FramebufferInfo { framebuffer_size: 8 * 6 * 4 - 4, ..small_info() }, VgaError::InvalidFramebuffer),
    ];
    for (info, error) in cases {
        assert_eq!(info.validate_layout(), Err(error));
        let mut display = DisplayState::new();
        display.begin_init().unwrap();
        let fill = display.finish_init(Ok(info));
        assert_eq!(fill.count, 0);
        assert_eq!(fill.outcome, Err(error));
        assert_eq!(display.init_state(), 0);
        assert_eq!(framebuffer_info(&display), Err(VgaError::NotInitialized));
    }
    assert_eq!(small_info().validate_layout(), Ok(()));
}

#[test]
fn init_session_runs_probe_and_clears() {
    let mut display = DisplayState::new();
    let (mut probe, transfer) = display.start_init(0x8020_0000).unwrap();
    assert_eq!(transfer, FwCfgTransfer::ReadItem { selector: FW_CFG_SIGNATURE, len: 4 });
    assert_eq!(display.start_init(0x8020_0000), Err(VgaError::AlreadyInitialized));
    let replies: [&[u8]; 4] = [b"QEMU", &[0x02, 0, 0, 0], &[0, 0, 0, 1], &directory_entry(0x0021, b"etc/ramfb")];
    for reply in replies {
        match display.continue_init(&mut probe, Ok(reply)) {
            InitAction::Transfer(_) => {}
            InitAction::Finish(fill) => panic!("finished early: {:?}", fill),
        }
    }
    match display.continue_init(&mut probe, Ok(&[])) {
        InitAction::Finish(fill) => {
            assert_eq!(fill.base, 0x8020_0000);
            assert_eq!(fill.count, FRAMEBUFFER_PIXELS);
            assert_eq!(fill.color, 0);
            assert_eq!(fill.outcome, Ok(()));
        }
        other => panic!("unexpected {:?}", other),
    }
    assert_eq!(resolution(&display), Ok((640, 480)));
    assert_eq!(display.start_init(0x8020_0000), Err(VgaError::AlreadyInitialized));
}

#[test]
fn init_session_rolls_back_on_failure() {
    let mut display = DisplayState::new();
    let (mut probe, _) = display.start_init(0x8020_0000).unwrap();
    match display.continue_init(&mut probe, Err(VgaError::MmioFault)) {
        InitAction::Finish(fill) => {
            assert_eq!(fill.count, 0);
            assert_eq!(fill.outcome, Err(VgaError::MmioFault));
        }
        other => panic!("unexpected {:?}", other),
    }
    assert_eq!(draw_pixel(&display, 0, 0, 0), Err(VgaError::NotInitialized));
    assert!(display.start_init(0x8020_0000).is_ok());
}

#[test]
fn init_session_refuses_null_framebuffer() {
    let mut display = DisplayState::new();
    let (mut probe, _) = display.start_init(0).unwrap();
    let replies: [&[u8]; 4] = [b"QEMU", &[0x02, 0, 0, 0], &[0, 0, 0, 1], &directory_entry(0x0021, b"etc/ramfb")];
    for reply in replies {
        display.continue_init(&mut probe, Ok(reply));
    }
    match display.continue_init(&mut probe, Ok(&[])) {
        InitAction::Finish(fill) => {
            assert_eq!(fill.count, 0);
            assert_eq!(fill.outcome, Err(VgaError::InvalidFramebuffer));
        }
        other => panic!("unexpected {:?}", other),
    }
    assert_eq!(display.init_state(), 0);
}

#[test]
fn test_pattern_final_colors() {
    let (w, h) = (640, 480);
    assert_eq!(test_pattern_final_color(0, 0, w, h), Some(0x00ff_0000));
    assert_eq!(test_pattern_final_color(639, 0, w, h), Some(0x0000_ff00));
    assert_eq!(test_pattern_final_color(0, 479, w, h), Some(0x0000_00ff));
    assert_eq!(test_pattern_final_color(639, 479, w, h), Some(0x00ff_ff00));
    assert_eq!(test_pattern_final_color(320, 240, w, h), Some(CROSSHAIR_COLOR));
    assert_eq!(test_pattern_final_color(320, 5, w, h), Some(CROSSHAIR_COLOR));
    assert_eq!(test_pattern_final_color(5, 240, w, h), Some(CROSSHAIR_COLOR));
    assert_eq!(test_pattern_final_color(1, 1, w, h), test_pattern_color(1, 1, w, h));
    assert_eq!(test_pattern_final_color(640, 0, w, h), None);
    // On a one-pixel-wide screen the green marker, drawn after the red one,
    // wins at (0, 0); the centre (0, 1) of a 1x3 screen is white.
    assert_eq!(test_pattern_final_color(0, 0, 1, 3), Some(0x0000_ff00));
    assert_eq!(test_pattern_final_color(0, 1, 1, 3), Some(CROSSHAIR_COLOR));
}
