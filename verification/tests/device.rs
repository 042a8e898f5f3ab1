use lbl_tg_rcore_tutorial_vga::device::{
    build_ramfb_config, configure_ramfb, file_name_matches, fourcc_code, fw_cfg_dma_status,
    fw_cfg_dma_transfer, fw_cfg_read_current, fw_cfg_read_item, fw_cfg_write_item,
    ramfb_entry_selector, ramfb_file_name, validate_fw_cfg_features, validate_fw_cfg_signature,
    DmaRequest, FwCfgTransfer, FRAMEBUFFER_HEIGHT, FRAMEBUFFER_STRIDE_BYTES, FRAMEBUFFER_WIDTH,
    FW_CFG_FILE_DIR, FW_CFG_ID, RAMFB_FOURCC_XRGB8888,
};
use lbl_tg_rcore_tutorial_vga::VgaError;

#[test]
fn fourcc_matches_xrgb8888() {
    assert_eq!(RAMFB_FOURCC_XRGB8888, fourcc_code(b'X', b'R', b'2', b'4'));
}

#[test]
fn file_name_lookup_matches_nul_terminated_entry() {
    let name = ramfb_file_name();
    let mut field = [0u8; 56];
    field[..name.len()].copy_from_slice(&name);
    assert!(file_name_matches(&field, &name));
}

#[test]
fn ramfb_geometry_is_consistent() {
    assert_eq!(FRAMEBUFFER_STRIDE_BYTES, FRAMEBUFFER_WIDTH * 4);
}

#[test]
fn ramfb_config_encodes_geometry() {
    let config = build_ramfb_config(0x8020_0000).unwrap();
    assert_eq!(&config[8..12], &RAMFB_FOURCC_XRGB8888.to_be_bytes());
    assert_eq!(&config[16..20], &FRAMEBUFFER_WIDTH.to_be_bytes());
    assert_eq!(&config[20..24], &FRAMEBUFFER_HEIGHT.to_be_bytes());
    assert_eq!(&config[24..28], &FRAMEBUFFER_STRIDE_BYTES.to_be_bytes());
}

#[test]
fn ramfb_config_encodes_address_and_flags() {
    let config = build_ramfb_config(0x1234_5678_9abc_def0).unwrap();
    assert_eq!(&config[0..8], &0x1234_5678_9abc_def0u64.to_be_bytes());
    assert_eq!(&config[12..16], &[0, 0, 0, 0]);
    assert_eq!(config.len(), 28);
}

#[test]
fn fourcc_packs_first_character_lowest() {
    assert_eq!(fourcc_code(1, 2, 3, 4), 0x0403_0201);
    assert_eq!(RAMFB_FOURCC_XRGB8888, 0x3432_5258);
}

#[test]
fn file_name_match_cases() {
    let name = ramfb_file_name();
    assert_eq!(&name, b"etc/ramfb");
    // Exactly the name, no terminator.
    assert!(file_name_matches(b"etc/ramfb", b"etc/ramfb"));
    // Bytes after the terminator are ignored.
    assert!(file_name_matches(b"etc/ramfb\0garbage", b"etc/ramfb"));
    // A longer name does not match.
    assert!(!file_name_matches(b"etc/ramfbx\0", b"etc/ramfb"));
    // A shorter name does not match.
    assert!(!file_name_matches(b"etc/ram\0fb", b"etc/ramfb"));
    // A different name of the same length does not match.
    assert!(!file_name_matches(b"etc/ramfc\0", b"etc/ramfb"));
    // An empty field holds the empty name.
    assert!(file_name_matches(b"\0etc", b""));
}

#[test]
fn dma_descriptors_carry_control_length_and_address() {
    assert_eq!(
        fw_cfg_read_item(FW_CFG_FILE_DIR, 0x4000, 4),
        Ok(DmaRequest { control: (0x19 << 16) | 0x08 | 0x02, length: 4, address: 0x4000 })
    );
    assert_eq!(
        fw_cfg_read_current(0x5000, 64),
        Ok(DmaRequest { control: 0x02, length: 64, address: 0x5000 })
    );
    assert_eq!(
        fw_cfg_write_item(0x0030, 0x6000, 28),
        Ok(DmaRequest { control: (0x30 << 16) | 0x08 | 0x10, length: 28, address: 0x6000 })
    );
    assert_eq!(
        fw_cfg_dma_transfer(0x02, 0x7000, 1),
        Ok(DmaRequest { control: 0x02, length: 1, address: 0x7000 })
    );
}

#[test]
fn dma_descriptor_refuses_oversized_buffer() {
    if usize::BITS > 32 {
        let too_long = (u32::MAX as usize) + 1;
        assert_eq!(fw_cfg_dma_transfer(0x02, 0x7000, too_long), Err(VgaError::MmioFault));
    }
    assert!(fw_cfg_dma_transfer(0x02, 0x7000, u32::MAX as usize).is_ok());
}

#[test]
fn dma_status_decides_completion() {
    assert_eq!(fw_cfg_dma_status(0), Some(Ok(())));
    assert_eq!(fw_cfg_dma_status(0x01), Some(Err(VgaError::MmioFault)));
    assert_eq!(fw_cfg_dma_status(0x0b), Some(Err(VgaError::MmioFault)));
    assert_eq!(fw_cfg_dma_status(0x02), None);
    assert_eq!(fw_cfg_dma_status(0x0019_000a), None);
}

#[test]
fn signature_and_features_are_checked() {
    assert_eq!(validate_fw_cfg_signature(b"QEMU"), Ok(()));
    assert_eq!(validate_fw_cfg_signature(b"QEMV"), Err(VgaError::DeviceNotReady));
    assert_eq!(validate_fw_cfg_features(&[0x03, 0, 0, 0]), Ok(()));
    assert_eq!(validate_fw_cfg_features(&[0x01, 0, 0, 0]), Err(VgaError::MmioFault));
    assert_eq!(validate_fw_cfg_features(&[0x00, 0x02, 0, 0]), Err(VgaError::MmioFault));
}

fn directory_entry(selector: u16, name: &[u8]) -> [u8; 64] {
    let mut entry = [0u8; 64];
    entry[0..4].copy_from_slice(&0x1000u32.to_be_bytes());
    entry[4..6].copy_from_slice(&selector.to_be_bytes());
    entry[8..8 + name.len()].copy_from_slice(name);
    entry
}

#[test]
fn directory_entry_selector_is_big_endian() {
    assert_eq!(ramfb_entry_selector(&directory_entry(0x0123, b"etc/ramfb")), Some(0x0123));
    assert_eq!(ramfb_entry_selector(&directory_entry(0x0123, b"etc/e820")), None);
}

#[test]
fn configure_writes_record_to_selector() {
    let transfer = configure_ramfb(0x0031, 0x8020_0000).unwrap();
    assert_eq!(
        transfer,
        FwCfgTransfer::WriteItem { selector: 0x0031, data: build_ramfb_config(0x8020_0000).unwrap() }
    );
    assert_eq!(FW_CFG_ID, 1);
}
