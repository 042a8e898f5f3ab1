//! The ramfb display behind QEMU's firmware configuration (fw_cfg) device:
//! the DMA request format, the file directory lookup, the ramfb
//! configuration record, and the probe that drives them in order.
use crate::bytes::{
    be16_value, be32_bytes, be32_value, be64_bytes, be64_value, le32_value, lemma_be32_roundtrip,
    lemma_be64_roundtrip, u16_from_be_at, u32_from_be_prefix, u32_from_le_prefix, u32_to_be_bytes,
    u64_to_be_bytes,
};
use crate::error::VgaError;
use crate::framebuffer::{spec_clear_screen, FramebufferInfo, PixelFormat, ScreenFill};
use vstd::prelude::*;

verus! {

/// Physical base address of the fw_cfg device on the QEMU `virt` machine.
pub const FW_CFG_BASE: usize = 0x1010_0000;

/// Physical address of the fw_cfg DMA address register.
pub const FW_CFG_DMA_REGISTER: usize = FW_CFG_BASE + 0x10;

/// Item holding the four-byte signature `QEMU`.
pub const FW_CFG_SIGNATURE: u16 = 0x0000;

/// Item holding the little-endian feature bitmap.
pub const FW_CFG_ID: u16 = 0x0001;

/// Item holding the file directory.
pub const FW_CFG_FILE_DIR: u16 = 0x0019;

/// DMA control bit set by the device when a transfer failed.
pub const FW_CFG_DMA_CTL_ERROR: u32 = 0x01;

/// DMA control bit requesting a read.
pub const FW_CFG_DMA_CTL_READ: u32 = 0x02;

/// DMA control bit requesting that the item in the upper half be selected first.
pub const FW_CFG_DMA_CTL_SELECT: u32 = 0x08;

/// DMA control bit requesting a write.
pub const FW_CFG_DMA_CTL_WRITE: u32 = 0x10;

/// Feature bit announcing the DMA interface.
pub const FW_CFG_FEATURE_DMA: u32 = 0x02;

/// The DRM fourcc code `XR24` (XRGB8888), as `fourcc_code(b'X', b'R', b'2', b'4')`.
pub const RAMFB_FOURCC_XRGB8888: u32 = 0x3432_5258;

/// Visible width configured for the ramfb display, in pixels.
pub const FRAMEBUFFER_WIDTH: u32 = 640;

/// Visible height configured for the ramfb display, in pixels.
pub const FRAMEBUFFER_HEIGHT: u32 = 480;

/// Row stride configured for the ramfb display, in pixels.
pub const FRAMEBUFFER_STRIDE_PIXELS: u32 = FRAMEBUFFER_WIDTH;

/// Bytes of one pixel of the ramfb display.
pub const FRAMEBUFFER_BYTES_PER_PIXEL: u8 = 4;

/// Row stride configured for the ramfb display, in bytes.
pub const FRAMEBUFFER_STRIDE_BYTES: u32 = FRAMEBUFFER_WIDTH * 4;

/// Number of pixels of the ramfb framebuffer.
pub const FRAMEBUFFER_PIXELS: usize = 640 * 480;

/// Size of the ramfb framebuffer in bytes.
pub const FRAMEBUFFER_SIZE: usize = FRAMEBUFFER_PIXELS * 4;

/// Length of one fw_cfg file directory entry in bytes.
pub const FILE_ENTRY_LEN: usize = 64;

/// Length of the ramfb configuration record in bytes.
pub const RAMFB_CONFIG_LEN: usize = 28;

/// The name of the ramfb configuration file, `etc/ramfb` in ASCII.
pub open spec fn ramfb_file_name_bytes() -> Seq<u8> {
    seq![0x65u8, 0x74, 0x63, 0x2f, 0x72, 0x61, 0x6d, 0x66, 0x62]
}

/// The bytes of `etc/ramfb`, the fw_cfg file through which ramfb is configured.
pub fn ramfb_file_name() -> (r: [u8; 9])
    ensures
        r@ == ramfb_file_name_bytes(),
{
    let r = [0x65u8, 0x74, 0x63, 0x2f, 0x72, 0x61, 0x6d, 0x66, 0x62];
    assert(r@ =~= ramfb_file_name_bytes());
    r
}

/// The signature that the fw_cfg signature item holds, `QEMU` in ASCII.
pub open spec fn qemu_signature() -> Seq<u8> {
    seq![0x51u8, 0x45, 0x4d, 0x55]
}

/// The DRM fourcc code of four characters, the first in the lowest byte.
pub fn fourcc_code(a: u8, b: u8, c: u8, d: u8) -> (r: u32)
    ensures
        r == a + b * 0x100 + c * 0x1_0000 + d * 0x100_0000,
{
    let r = (a as u32) | ((b as u32) << 8) | ((c as u32) << 16) | ((d as u32) << 24);
    assert(r == a + b * 0x100 + c * 0x1_0000 + d * 0x100_0000) by (bit_vector)
        requires
            r == (a as u32) | ((b as u32) << 8) | ((c as u32) << 16) | ((d as u32) << 24),
    ;
    r
}

/// Position of the first NUL byte of `field` at or after `i`, or the
/// length of `field` when there is none.
pub open spec fn nul_position_from(field: Seq<u8>, i: int) -> int
    decreases field.len() - i,
{
    if 0 <= i < field.len() {
        if field[i] == 0 {
            i
        } else {
            nul_position_from(field, i + 1)
        }
    } else {
        field.len() as int
    }
}

/// The name stored in a fixed-size field: its bytes up to the first NUL,
/// or the whole field when it holds no NUL.
pub open spec fn field_name(field: Seq<u8>) -> Seq<u8> {
    field.take(nul_position_from(field, 0))
}

/// Whether the NUL-terminated name stored in `field` is `expected`.
pub fn file_name_matches(field: &[u8], expected: &[u8]) -> (r: bool)
    ensures
        r == (field_name(field@) == expected@),
{
    let mut len: usize = 0;
    while len < field.len() && field[len] != 0
        invariant
            len <= field@.len(),
            nul_position_from(field@, 0) == nul_position_from(field@, len as int),
        decreases field@.len() - len,
    {
        len = len + 1;
    }
    assert(nul_position_from(field@, len as int) == len);
    if len != expected.len() {
        return false;
    }
    let mut i: usize = 0;
    while i < len
        invariant
            i <= len,
            len == expected@.len(),
            len <= field@.len(),
            nul_position_from(field@, 0) == len,
            forall|j: int| 0 <= j < i ==> field@[j] == expected@[j],
        decreases len - i,
    {
        if field[i] != expected[i] {
            assert(field_name(field@)[i as int] != expected@[i as int]);
            return false;
        }
        i = i + 1;
    }
    assert(field_name(field@) =~= expected@);
    true
}

/// The ramfb configuration record for a framebuffer at `framebuffer_paddr`:
/// address (8 bytes), fourcc, flags, width, height and stride in bytes
/// (4 bytes each), all most significant byte first.
pub open spec fn ramfb_config_bytes(framebuffer_paddr: usize) -> Seq<u8> {
    be64_bytes(framebuffer_paddr as u64) + be32_bytes(RAMFB_FOURCC_XRGB8888) + be32_bytes(0)
        + be32_bytes(FRAMEBUFFER_WIDTH) + be32_bytes(FRAMEBUFFER_HEIGHT) + be32_bytes(
        FRAMEBUFFER_STRIDE_BYTES,
    )
}

/// Builds the ramfb configuration record that places a 640x480 XRGB8888
/// display at `framebuffer_paddr`. Every address fits the record's 64-bit
/// field, so the record is always built.
pub fn build_ramfb_config(framebuffer_paddr: usize) -> (r: Result<[u8; 28], VgaError>)
    ensures
        r matches Ok(config) && config@ == ramfb_config_bytes(framebuffer_paddr),
{
    let framebuffer_paddr = match u64::try_from(framebuffer_paddr) {
        Ok(a) => a,
        Err(_) => {
            return Err(VgaError::InvalidFramebuffer);
        },
    };
    let a = u64_to_be_bytes(framebuffer_paddr);
    let f = u32_to_be_bytes(RAMFB_FOURCC_XRGB8888);
    let z = u32_to_be_bytes(0);
    let w = u32_to_be_bytes(FRAMEBUFFER_WIDTH);
    let h = u32_to_be_bytes(FRAMEBUFFER_HEIGHT);
    let s = u32_to_be_bytes(FRAMEBUFFER_STRIDE_BYTES);
    let config = [
        a[0], a[1], a[2], a[3], a[4], a[5], a[6], a[7],
        f[0], f[1], f[2], f[3],
        z[0], z[1], z[2], z[3],
        w[0], w[1], w[2], w[3],
        h[0], h[1], h[2], h[3],
        s[0], s[1], s[2], s[3],
    ];
    assert(config@ =~= ramfb_config_bytes(framebuffer_paddr as usize));
    Ok(config)
}

/// The fields of a configuration record read back give the address and the
/// 640x480 XRGB8888 geometry it was built for.
pub proof fn lemma_ramfb_config_fields(framebuffer_paddr: usize)
    ensures
        ({
            let c = ramfb_config_bytes(framebuffer_paddr);
            &&& c.len() == RAMFB_CONFIG_LEN
            &&& be64_value(c.subrange(0, 8)) == framebuffer_paddr
            &&& be32_value(c.subrange(8, 12)) == RAMFB_FOURCC_XRGB8888
            &&& be32_value(c.subrange(12, 16)) == 0
            &&& be32_value(c.subrange(16, 20)) == FRAMEBUFFER_WIDTH
            &&& be32_value(c.subrange(20, 24)) == FRAMEBUFFER_HEIGHT
            &&& be32_value(c.subrange(24, 28)) == FRAMEBUFFER_STRIDE_BYTES
        }),
{
    let c = ramfb_config_bytes(framebuffer_paddr);
    let fields = seq![
        be32_bytes(RAMFB_FOURCC_XRGB8888),
        be32_bytes(0),
        be32_bytes(FRAMEBUFFER_WIDTH),
        be32_bytes(FRAMEBUFFER_HEIGHT),
        be32_bytes(FRAMEBUFFER_STRIDE_BYTES),
    ];
    assert(c.subrange(0, 8) =~= be64_bytes(framebuffer_paddr as u64));
    assert(c.subrange(8, 12) =~= fields[0]);
    assert(c.subrange(12, 16) =~= fields[1]);
    assert(c.subrange(16, 20) =~= fields[2]);
    assert(c.subrange(20, 24) =~= fields[3]);
    assert(c.subrange(24, 28) =~= fields[4]);
    lemma_be64_roundtrip(framebuffer_paddr as u64);
    lemma_be32_roundtrip(RAMFB_FOURCC_XRGB8888);
    lemma_be32_roundtrip(0);
    lemma_be32_roundtrip(FRAMEBUFFER_WIDTH);
    lemma_be32_roundtrip(FRAMEBUFFER_HEIGHT);
    lemma_be32_roundtrip(FRAMEBUFFER_STRIDE_BYTES);
}


/// A fw_cfg DMA access descriptor: the control word, the number of bytes to
/// transfer, and the address of the guest buffer. The device reads it from
/// memory with every field stored most significant byte first.
#[derive(Clone, Copy, Debug, PartialEq, Eq, Structural)]
pub struct DmaRequest {
    pub control: u32,
    pub length: u32,
    pub address: u64,
}

/// The descriptor for a transfer of `buffer_len` bytes at `buffer_addr`
/// under `control`, refused when the length does not fit the 32-bit field.
pub open spec fn spec_dma_transfer(control: u32, buffer_addr: usize, buffer_len: usize) -> Result<
    DmaRequest,
    VgaError,
> {
    if buffer_len > u32::MAX {
        Err(VgaError::MmioFault)
    } else {
        Ok(DmaRequest { control, length: buffer_len as u32, address: buffer_addr as u64 })
    }
}

/// Control word that selects item `selector` and then performs `operation`.
pub open spec fn select_control(selector: u16, operation: u32) -> u32 {
    (selector * 0x1_0000 + FW_CFG_DMA_CTL_SELECT + operation) as u32
}

/// Builds the DMA descriptor for a transfer of `buffer_len` bytes at
/// `buffer_addr` under `control`.
pub fn fw_cfg_dma_transfer(control: u32, buffer_addr: usize, buffer_len: usize) -> (r: Result<
    DmaRequest,
    VgaError,
>)
    ensures
        r == spec_dma_transfer(control, buffer_addr, buffer_len),
{
    let address = match u64::try_from(buffer_addr) {
        Ok(a) => a,
        Err(_) => {
            return Err(VgaError::MmioFault);
        },
    };
    let length = match u32::try_from(buffer_len) {
        Ok(l) => l,
        Err(_) => {
            return Err(VgaError::MmioFault);
        },
    };
    Ok(DmaRequest { control, length, address })
}

/// The control word `(selector << 16) | SELECT | operation`.
fn select_item_control(selector: u16, operation: u32) -> (r: u32)
    requires
        operation == FW_CFG_DMA_CTL_READ || operation == FW_CFG_DMA_CTL_WRITE,
    ensures
        r == select_control(selector, operation),
{
    let r = ((selector as u32) << 16) | FW_CFG_DMA_CTL_SELECT | operation;
    assert(r == selector * 0x1_0000 + 0x08 + operation) by (bit_vector)
        requires
            r == ((selector as u32) << 16) | 0x08u32 | operation,
            operation == 0x02u32 || operation == 0x10u32,
    ;
    r
}

/// Descriptor that selects item `selector` and reads `buffer_len` bytes of
/// it into the buffer at `buffer_addr`.
pub fn fw_cfg_read_item(selector: u16, buffer_addr: usize, buffer_len: usize) -> (r: Result<
    DmaRequest,
    VgaError,
>)
    ensures
        r == spec_dma_transfer(
            select_control(selector, FW_CFG_DMA_CTL_READ),
            buffer_addr,
            buffer_len,
        ),
{
    fw_cfg_dma_transfer(select_item_control(selector, FW_CFG_DMA_CTL_READ), buffer_addr, buffer_len)
}

/// Descriptor that reads the next `buffer_len` bytes of the item selected
/// last into the buffer at `buffer_addr`.
pub fn fw_cfg_read_current(buffer_addr: usize, buffer_len: usize) -> (r: Result<
    DmaRequest,
    VgaError,
>)
    ensures
        r == spec_dma_transfer(FW_CFG_DMA_CTL_READ, buffer_addr, buffer_len),
{
    fw_cfg_dma_transfer(FW_CFG_DMA_CTL_READ, buffer_addr, buffer_len)
}

/// Descriptor that selects item `selector` and writes the `buffer_len`
/// bytes at `buffer_addr` to it.
pub fn fw_cfg_write_item(selector: u16, buffer_addr: usize, buffer_len: usize) -> (r: Result<
    DmaRequest,
    VgaError,
>)
    ensures
        r == spec_dma_transfer(
            select_control(selector, FW_CFG_DMA_CTL_WRITE),
            buffer_addr,
            buffer_len,
        ),
{
    fw_cfg_dma_transfer(select_item_control(selector, FW_CFG_DMA_CTL_WRITE), buffer_addr, buffer_len)
}

/// What the control word of a submitted descriptor says, as read back from
/// memory: zero when the transfer completed, the error bit set when it
/// failed (`MmioFault`), and anything else while it is still running
/// (`None`: poll again).
pub fn fw_cfg_dma_status(status: u32) -> (r: Option<Result<(), VgaError>>)
    ensures
        r == (if status == 0 {
            Some(Ok(()))
        } else if status % 2 == 1 {
            Some(Err(VgaError::MmioFault))
        } else {
            None
        }),
{
    if status == 0 {
        return Some(Ok(()));
    }
    let failed = status & FW_CFG_DMA_CTL_ERROR != 0;
    assert(failed == (status % 2 == 1)) by (bit_vector)
        requires
            failed == (status & 0x01u32 != 0),
    ;
    if failed {
        return Some(Err(VgaError::MmioFault));
    }
    None
}

/// One fw_cfg transfer that the probe asks for.
#[derive(Clone, Copy, Debug, PartialEq, Eq)]
pub enum FwCfgTransfer {
    /// Select item `selector` and read its first `len` bytes.
    ReadItem { selector: u16, len: usize },
    /// Read the next `len` bytes of the item selected last.
    ReadCurrent { len: usize },
    /// Select item `selector` and write `data` to it.
    WriteItem { selector: u16, data: [u8; 28] },
}

impl FwCfgTransfer {
    /// Number of bytes the transfer moves.
    pub open spec fn spec_len(self) -> usize {
        match self {
            FwCfgTransfer::ReadItem { len, .. } => len,
            FwCfgTransfer::ReadCurrent { len } => len,
            FwCfgTransfer::WriteItem { .. } => 28,
        }
    }

    /// Control word of the transfer.
    pub open spec fn spec_control(self) -> u32 {
        match self {
            FwCfgTransfer::ReadItem { selector, .. } => select_control(
                selector,
                FW_CFG_DMA_CTL_READ,
            ),
            FwCfgTransfer::ReadCurrent { .. } => FW_CFG_DMA_CTL_READ,
            FwCfgTransfer::WriteItem { selector, .. } => select_control(
                selector,
                FW_CFG_DMA_CTL_WRITE,
            ),
        }
    }

    /// The DMA descriptor that performs this transfer with the guest buffer
    /// at `buffer_addr` (for a write, the buffer holding `data`).
    pub fn dma_request(&self, buffer_addr: usize) -> (r: Result<DmaRequest, VgaError>)
        ensures
            r == spec_dma_transfer(self.spec_control(), buffer_addr, self.spec_len()),
            *self matches FwCfgTransfer::WriteItem { selector, .. } ==> r == Ok::<
                DmaRequest,
                VgaError,
            >(
                DmaRequest {
                    control: (selector * 0x1_0000 + FW_CFG_DMA_CTL_SELECT
                        + FW_CFG_DMA_CTL_WRITE) as u32,
                    length: 28,
                    address: buffer_addr as u64,
                },
            ),
            *self matches FwCfgTransfer::ReadItem { selector, len } ==> r == spec_dma_transfer(
                (selector * 0x1_0000 + FW_CFG_DMA_CTL_SELECT + FW_CFG_DMA_CTL_READ) as u32,
                buffer_addr,
                len,
            ),
            *self matches FwCfgTransfer::ReadCurrent { len } ==> r == spec_dma_transfer(
                FW_CFG_DMA_CTL_READ,
                buffer_addr,
                len,
            ),
    {
        match self {
            FwCfgTransfer::ReadItem { selector, len } => fw_cfg_read_item(
                *selector,
                buffer_addr,
                *len,
            ),
            FwCfgTransfer::ReadCurrent { len } => fw_cfg_read_current(buffer_addr, *len),
            FwCfgTransfer::WriteItem { selector, .. } => fw_cfg_write_item(
                *selector,
                buffer_addr,
                RAMFB_CONFIG_LEN,
            ),
        }
    }
}

/// Whether the little-endian feature bitmap in `data` announces DMA.
pub open spec fn dma_supported(data: Seq<u8>) -> bool {
    (le32_value(data) / 2) % 2 == 1
}

/// Checks the signature item read from fw_cfg: it must be `QEMU`
/// (`DeviceNotReady` otherwise).
pub fn validate_fw_cfg_signature(signature: &[u8]) -> (r: Result<(), VgaError>)
    requires
        signature@.len() == 4,
    ensures
        r == (if signature@ == qemu_signature() {
            Ok(())
        } else {
            Err(VgaError::DeviceNotReady)
        }),
{
    if signature[0] == 0x51 && signature[1] == 0x45 && signature[2] == 0x4d && signature[3]
        == 0x55 {
        assert(signature@ =~= qemu_signature());
        Ok(())
    } else {
        Err(VgaError::DeviceNotReady)
    }
}

/// Checks the feature item read from fw_cfg: its little-endian bitmap must
/// announce the DMA interface (`MmioFault` otherwise).
pub fn validate_fw_cfg_features(features: &[u8]) -> (r: Result<(), VgaError>)
    requires
        features@.len() == 4,
    ensures
        r == (if dma_supported(features@) {
            Ok(())
        } else {
            Err(VgaError::MmioFault)
        }),
{
    let feature_bits = u32_from_le_prefix(features);
    let missing = feature_bits & FW_CFG_FEATURE_DMA == 0;
    assert(missing == ((feature_bits / 2) % 2 == 0)) by (bit_vector)
        requires
            missing == (feature_bits & 0x02u32 == 0),
    ;
    if missing {
        return Err(VgaError::MmioFault);
    }
    Ok(())
}

/// The selector of a fw_cfg file directory entry (bytes 4 and 5, most
/// significant first) when the entry's name (from byte 8 on) is
/// `etc/ramfb`.
pub open spec fn spec_ramfb_entry_selector(entry: Seq<u8>) -> Option<u16> {
    if field_name(entry.subrange(8, 64)) == ramfb_file_name_bytes() {
        Some(be16_value(entry[4], entry[5]) as u16)
    } else {
        None
    }
}

/// Looks at one 64-byte entry of the fw_cfg file directory and gives its
/// selector when it describes `etc/ramfb`.
pub fn ramfb_entry_selector(entry: &[u8]) -> (r: Option<u16>)
    requires
        entry@.len() == FILE_ENTRY_LEN,
    ensures
        r == spec_ramfb_entry_selector(entry@),
{
    let name = ramfb_file_name();
    if file_name_matches(&entry[8..FILE_ENTRY_LEN], &name) {
        Some(u16_from_be_at(entry, 4))
    } else {
        None
    }
}

/// The transfer that writes the ramfb configuration record for a
/// framebuffer at `framebuffer_paddr` to the fw_cfg item `selector`.
pub fn configure_ramfb(selector: u16, framebuffer_paddr: usize) -> (r: Result<
    FwCfgTransfer,
    VgaError,
>)
    ensures
        r matches Ok(FwCfgTransfer::WriteItem { selector: s, data }) && s == selector && data@
            == ramfb_config_bytes(framebuffer_paddr),
{
    let config = match build_ramfb_config(framebuffer_paddr) {
        Ok(c) => c,
        Err(e) => {
            return Err(e);
        },
    };
    Ok(FwCfgTransfer::WriteItem { selector, data: config })
}

/// The layout of the ramfb display once configured: 640x480 visible
/// pixels, a stride of 640 pixels, four-byte XRGB8888 pixels, at
/// `framebuffer_paddr`.
pub open spec fn ramfb_info(framebuffer_paddr: usize) -> FramebufferInfo {
    FramebufferInfo {
        width: FRAMEBUFFER_WIDTH,
        height: FRAMEBUFFER_HEIGHT,
        stride: FRAMEBUFFER_STRIDE_PIXELS,
        framebuffer_paddr,
        framebuffer_size: FRAMEBUFFER_SIZE,
        bytes_per_pixel: FRAMEBUFFER_BYTES_PER_PIXEL,
        pixel_format: PixelFormat::Xrgb8888,
    }
}

/// Where the ramfb probe stands: which reply it waits for.
#[derive(Clone, Copy, Debug, PartialEq, Eq, Structural)]
pub enum ProbeStage {
    /// Waiting for the four signature bytes.
    Signature,
    /// Waiting for the four feature bytes.
    Features,
    /// Waiting for the four-byte count of the file directory.
    FileCount,
    /// Waiting for a 64-byte directory entry; `unread` entries follow it.
    FileEntry { unread: u32 },
    /// Waiting for the configuration record to be written.
    Configure,
    /// Finished.
    Done,
}

/// What the probe asks of its caller next.
#[derive(Clone, Copy, Debug, PartialEq, Eq)]
pub enum ProbeAction {
    /// Perform this fw_cfg transfer and report its outcome to [`RamfbProbe::step`].
    Transfer(FwCfgTransfer),
    /// The probe is over: the configured layout, or why there is none.
    Finish(Result<FramebufferInfo, VgaError>),
}

/// The ramfb probe: checks that fw_cfg is present and offers DMA, finds
/// `etc/ramfb` in its file directory, and configures a 640x480 XRGB8888
/// display at `framebuffer_paddr`. Each transfer is carried out by the
/// caller, whose outcome drives the next step.
#[derive(Clone, Copy, Debug, PartialEq, Eq, Structural)]
pub struct RamfbProbe {
    pub stage: ProbeStage,
    pub framebuffer_paddr: usize,
}

/// Number of bytes a read reply must hold in `stage`.
pub open spec fn reply_len(stage: ProbeStage) -> int {
    match stage {
        ProbeStage::FileEntry { .. } => FILE_ENTRY_LEN as int,
        ProbeStage::Configure => 0,
        ProbeStage::Done => 0,
        _ => 4,
    }
}

/// The outcome of a transfer as bytes read (empty for a write) or the error.
pub open spec fn reply_view(reply: Result<&[u8], VgaError>) -> Result<Seq<u8>, VgaError> {
    match reply {
        Ok(d) => Ok(d@),
        Err(e) => Err(e),
    }
}

impl RamfbProbe {
    /// The probe finished with `result`.
    pub open spec fn finished(self, next: Self, action: ProbeAction, result: Result<
        FramebufferInfo,
        VgaError,
    >) -> bool {
        next.stage == ProbeStage::Done && action == ProbeAction::Finish(result)
    }

    /// The probe moved to `stage` and asks for `transfer`.
    pub open spec fn asks(self, next: Self, action: ProbeAction, stage: ProbeStage, transfer: FwCfgTransfer) -> bool {
        next.stage == stage && action == ProbeAction::Transfer(transfer)
    }

    /// The result a step reports when it finishes the probe: the transfer's
    /// error, `DeviceNotReady` for a missing device or ramfb entry,
    /// `MmioFault` for a device without DMA, and the ramfb layout once the
    /// configuration record was written.
    pub open spec fn spec_finish_result(self, reply: Result<Seq<u8>, VgaError>) -> Result<
        FramebufferInfo,
        VgaError,
    > {
        match reply {
            Err(e) => Err(e),
            Ok(_) => match self.stage {
                ProbeStage::Features => Err(VgaError::MmioFault),
                ProbeStage::Configure => Ok(ramfb_info(self.framebuffer_paddr)),
                _ => Err(VgaError::DeviceNotReady),
            },
        }
    }

    /// What one step does: from this probe and the outcome of the transfer
    /// it asked for, the next probe and the next action.
    pub open spec fn spec_step(self, reply: Result<Seq<u8>, VgaError>, next: Self, action: ProbeAction) -> bool {
        &&& self.stage != ProbeStage::Done
        &&& next.framebuffer_paddr == self.framebuffer_paddr
        &&& match reply {
            Err(e) => self.finished(next, action, Err(e)),
            Ok(data) => match self.stage {
                ProbeStage::Signature => if data == qemu_signature() {
                    self.asks(
                        next,
                        action,
                        ProbeStage::Features,
                        FwCfgTransfer::ReadItem { selector: FW_CFG_ID, len: 4 },
                    )
                } else {
                    self.finished(next, action, Err(VgaError::DeviceNotReady))
                },
                ProbeStage::Features => if dma_supported(data) {
                    self.asks(
                        next,
                        action,
                        ProbeStage::FileCount,
                        FwCfgTransfer::ReadItem { selector: FW_CFG_FILE_DIR, len: 4 },
                    )
                } else {
                    self.finished(next, action, Err(VgaError::MmioFault))
                },
                ProbeStage::FileCount => if be32_value(data) == 0 {
                    self.finished(next, action, Err(VgaError::DeviceNotReady))
                } else {
                    self.asks(
                        next,
                        action,
                        ProbeStage::FileEntry { unread: (be32_value(data) - 1) as u32 },
                        FwCfgTransfer::ReadCurrent { len: FILE_ENTRY_LEN },
                    )
                },
                ProbeStage::FileEntry { unread } => match spec_ramfb_entry_selector(data) {
                    Some(selector) => {
                        &&& next.stage == ProbeStage::Configure
                        &&& action matches ProbeAction::Transfer(
                            FwCfgTransfer::WriteItem { selector: s, data: config },
                        )
                        &&& s == selector
                        &&& config@ == ramfb_config_bytes(self.framebuffer_paddr)
                    },
                    None => if unread == 0 {
                        self.finished(next, action, Err(VgaError::DeviceNotReady))
                    } else {
                        self.asks(
                            next,
                            action,
                            ProbeStage::FileEntry { unread: (unread - 1) as u32 },
                            FwCfgTransfer::ReadCurrent { len: FILE_ENTRY_LEN },
                        )
                    },
                },
                ProbeStage::Configure => self.finished(
                    next,
                    action,
                    Ok(ramfb_info(self.framebuffer_paddr)),
                ),
                ProbeStage::Done => false,
            },
        }
    }

    /// Starts a probe that will configure the framebuffer at
    /// `framebuffer_paddr`; its first request reads the signature item.
    pub fn new(framebuffer_paddr: usize) -> (r: (Self, ProbeAction))
        ensures
            r.0 == (RamfbProbe { stage: ProbeStage::Signature, framebuffer_paddr }),
            r.1 == ProbeAction::Transfer(
                FwCfgTransfer::ReadItem { selector: FW_CFG_SIGNATURE, len: 4 },
            ),
    {
        (
            RamfbProbe { stage: ProbeStage::Signature, framebuffer_paddr },
            ProbeAction::Transfer(FwCfgTransfer::ReadItem { selector: FW_CFG_SIGNATURE, len: 4 }),
        )
    }

    /// Whether the probe has finished.
    pub fn is_done(&self) -> (r: bool)
        ensures
            r == (self.stage == ProbeStage::Done),
    {
        match self.stage {
            ProbeStage::Done => true,
            _ => false,
        }
    }

    /// Takes the outcome of the transfer asked for last (the bytes read, or
    /// the transfer's error) and gives the next action.
    pub fn step(&mut self, reply: Result<&[u8], VgaError>) -> (action: ProbeAction)
        requires
            old(self).stage != ProbeStage::Done,
            reply matches Ok(d) ==> d@.len() == reply_len(old(self).stage),
        ensures
            old(self).spec_step(reply_view(reply), *final(self), action),
    {
        let data = match reply {
            Ok(d) => d,
            Err(e) => {
                self.stage = ProbeStage::Done;
                return ProbeAction::Finish(Err(e));
            },
        };
        match self.stage {
            ProbeStage::Signature => match validate_fw_cfg_signature(data) {
                Ok(()) => {
                    self.stage = ProbeStage::Features;
                    ProbeAction::Transfer(FwCfgTransfer::ReadItem { selector: FW_CFG_ID, len: 4 })
                },
                Err(e) => {
                    self.stage = ProbeStage::Done;
                    ProbeAction::Finish(Err(e))
                },
            },
            ProbeStage::Features => match validate_fw_cfg_features(data) {
                Ok(()) => {
                    self.stage = ProbeStage::FileCount;
                    ProbeAction::Transfer(
                        FwCfgTransfer::ReadItem { selector: FW_CFG_FILE_DIR, len: 4 },
                    )
                },
                Err(e) => {
                    self.stage = ProbeStage::Done;
                    ProbeAction::Finish(Err(e))
                },
            },
            ProbeStage::FileCount => {
                let file_count = u32_from_be_prefix(data);
                if file_count == 0 {
                    self.stage = ProbeStage::Done;
                    ProbeAction::Finish(Err(VgaError::DeviceNotReady))
                } else {
                    self.stage = ProbeStage::FileEntry { unread: file_count - 1 };
                    ProbeAction::Transfer(FwCfgTransfer::ReadCurrent { len: FILE_ENTRY_LEN })
                }
            },
            ProbeStage::FileEntry { unread } => match ramfb_entry_selector(data) {
                Some(selector) => match configure_ramfb(selector, self.framebuffer_paddr) {
                    Ok(transfer) => {
                        self.stage = ProbeStage::Configure;
                        ProbeAction::Transfer(transfer)
                    },
                    Err(e) => {
                        self.stage = ProbeStage::Done;
                        ProbeAction::Finish(Err(e))
                    },
                },
                None => if unread == 0 {
                    self.stage = ProbeStage::Done;
                    ProbeAction::Finish(Err(VgaError::DeviceNotReady))
                } else {
                    self.stage = ProbeStage::FileEntry { unread: unread - 1 };
                    ProbeAction::Transfer(FwCfgTransfer::ReadCurrent { len: FILE_ENTRY_LEN })
                },
            },
            ProbeStage::Configure => {
                self.stage = ProbeStage::Done;
                ProbeAction::Finish(
                    Ok(
                        FramebufferInfo {
                            width: FRAMEBUFFER_WIDTH,
                            height: FRAMEBUFFER_HEIGHT,
                            stride: FRAMEBUFFER_STRIDE_PIXELS,
                            framebuffer_paddr: self.framebuffer_paddr,
                            framebuffer_size: FRAMEBUFFER_SIZE,
                            bytes_per_pixel: FRAMEBUFFER_BYTES_PER_PIXEL,
                            pixel_format: PixelFormat::Xrgb8888,
                        },
                    ),
                )
            },
            ProbeStage::Done => unreached(),
        }
    }
}

/// The layout the probe configures meets the layout rules exactly when
/// the framebuffer is away from address zero and ends within the address
/// space (otherwise it is refused as `InvalidFramebuffer`); clearing a valid
/// one writes all 640x480 pixels.
pub proof fn lemma_ramfb_layout_valid(framebuffer_paddr: usize, color: u32)
    ensures
        ramfb_info(framebuffer_paddr).is_valid_layout() == (framebuffer_paddr != 0
            && framebuffer_paddr + FRAMEBUFFER_SIZE <= usize::MAX),
        ramfb_info(framebuffer_paddr).spec_validate_layout() == (if ramfb_info(
            framebuffer_paddr,
        ).is_valid_layout() {
            Ok::<(), VgaError>(())
        } else {
            Err(VgaError::InvalidFramebuffer)
        }),
        ramfb_info(framebuffer_paddr).is_valid_layout() ==> spec_clear_screen(
            ramfb_info(framebuffer_paddr),
            color,
        ) == (ScreenFill {
            base: framebuffer_paddr,
            count: FRAMEBUFFER_PIXELS,
            color,
            outcome: Ok(()),
        }),
{
}

/// Progress of a probe: the number of transfers it may still ask for.
pub open spec fn probe_measure(stage: ProbeStage) -> int {
    match stage {
        ProbeStage::Signature => 0x1_0000_0004,
        ProbeStage::Features => 0x1_0000_0003,
        ProbeStage::FileCount => 0x1_0000_0002,
        ProbeStage::FileEntry { unread } => unread + 2,
        ProbeStage::Configure => 1,
        ProbeStage::Done => 0,
    }
}

/// Every step of a probe keeps the framebuffer address it was started with
/// and either finishes it or moves it strictly closer to the end, so a
/// probe asks for at most `4 + n` transfers, `n` the directory's length.
pub proof fn lemma_probe_step_progress(
    probe: RamfbProbe,
    reply: Result<Seq<u8>, VgaError>,
    next: RamfbProbe,
    action: ProbeAction,
)
    requires
        probe.spec_step(reply, next, action),
    ensures
        next.framebuffer_paddr == probe.framebuffer_paddr,
        probe_measure(next.stage) < probe_measure(probe.stage),
        (next.stage == ProbeStage::Done) == (action is Finish),
{
}

/// A probe that finishes successfully reports exactly the 640x480 XRGB8888
/// layout at the address it was started with, and does so only once its
/// configuration record was written.
pub proof fn lemma_probe_success_layout(
    probe: RamfbProbe,
    reply: Result<Seq<u8>, VgaError>,
    next: RamfbProbe,
    action: ProbeAction,
)
    requires
        probe.spec_step(reply, next, action),
        action matches ProbeAction::Finish(Ok(_)),
    ensures
        probe.stage == ProbeStage::Configure,
        reply is Ok,
        action == ProbeAction::Finish(Ok(ramfb_info(probe.framebuffer_paddr))),
{
}

/// A step that finishes the probe reports [`RamfbProbe::spec_finish_result`].
pub proof fn lemma_probe_finish_result(
    probe: RamfbProbe,
    reply: Result<Seq<u8>, VgaError>,
    next: RamfbProbe,
    action: ProbeAction,
)
    requires
        probe.spec_step(reply, next, action),
        action is Finish,
    ensures
        action == ProbeAction::Finish(probe.spec_finish_result(reply)),
{
}

/// A select control word carries the item in its upper 16 bits and, in
/// its lower 16, the select bit and the one operation asked for: a write
/// has the write bit set and the read bit clear, a read the reverse.
pub proof fn lemma_select_control_fields(selector: u16, operation: u32)
    requires
        operation == FW_CFG_DMA_CTL_READ || operation == FW_CFG_DMA_CTL_WRITE,
    ensures
        select_control(selector, operation) / 0x1_0000 == selector,
        select_control(selector, operation) % 0x1_0000 == FW_CFG_DMA_CTL_SELECT + operation,
        operation == FW_CFG_DMA_CTL_WRITE ==> (select_control(selector, operation) / 0x10) % 2 == 1
            && (select_control(selector, operation) / 0x02) % 2 == 0,
        operation == FW_CFG_DMA_CTL_READ ==> (select_control(selector, operation) / 0x02) % 2 == 1
            && (select_control(selector, operation) / 0x10) % 2 == 0,
        (select_control(selector, operation) / 0x08) % 2 == 1,
        (select_control(selector, operation) % 2) == 0,
{
}

/// The descriptor of each transfer: writing the configuration record
/// selects the item and writes all 28 bytes of the record; reading an item
/// selects it and reads; reading on reads the selected item; every one
/// points the device at the buffer given.
pub proof fn lemma_transfer_descriptor(transfer: FwCfgTransfer, buffer_addr: usize)
    ensures
        transfer matches FwCfgTransfer::WriteItem { selector, .. } ==> spec_dma_transfer(
            transfer.spec_control(),
            buffer_addr,
            transfer.spec_len(),
        ) == Ok::<DmaRequest, VgaError>(
            DmaRequest {
                control: (selector * 0x1_0000 + 0x18) as u32,
                length: 28,
                address: buffer_addr as u64,
            },
        ),
        transfer matches FwCfgTransfer::ReadItem { selector, len } ==> len <= u32::MAX
            ==> spec_dma_transfer(transfer.spec_control(), buffer_addr, transfer.spec_len())
            == Ok::<DmaRequest, VgaError>(
            DmaRequest {
                control: (selector * 0x1_0000 + 0x0a) as u32,
                length: len as u32,
                address: buffer_addr as u64,
            },
        ),
        transfer matches FwCfgTransfer::ReadCurrent { len } ==> len <= u32::MAX
            ==> spec_dma_transfer(transfer.spec_control(), buffer_addr, transfer.spec_len())
            == Ok::<DmaRequest, VgaError>(
            DmaRequest { control: 0x02, length: len as u32, address: buffer_addr as u64 },
        ),
{
}

/// How the probe walks the file directory: a count of `n > 0` entries makes
/// it read the first entry with `n - 1` left unread; an entry naming
/// `etc/ramfb` makes it write the configuration record to that entry's
/// selector; any other entry makes it read the next one while entries are
/// left, and report `DeviceNotReady` after the last.
pub proof fn lemma_probe_directory_step(
    probe: RamfbProbe,
    data: Seq<u8>,
    next: RamfbProbe,
    action: ProbeAction,
)
    requires
        probe.spec_step(Ok(data), next, action),
    ensures
        probe.stage == ProbeStage::FileCount && be32_value(data) > 0 ==> next.stage
            == (ProbeStage::FileEntry { unread: (be32_value(data) - 1) as u32 }) && action
            == ProbeAction::Transfer(FwCfgTransfer::ReadCurrent { len: 64 }),
        probe.stage == ProbeStage::FileCount && be32_value(data) == 0 ==> action
            == ProbeAction::Finish(Err(VgaError::DeviceNotReady)),
        probe.stage is FileEntry && field_name(data.subrange(8, 64)) == ramfb_file_name_bytes()
            ==> next.stage == ProbeStage::Configure && (action matches ProbeAction::Transfer(
            FwCfgTransfer::WriteItem { selector, data: config },
        ) && selector == data[4] * 0x100 + data[5] && config@ == ramfb_config_bytes(
            probe.framebuffer_paddr,
        )),
        probe.stage matches ProbeStage::FileEntry { unread } ==> (field_name(data.subrange(8, 64))
            != ramfb_file_name_bytes() ==> (if unread > 0 {
            next.stage == (ProbeStage::FileEntry { unread: (unread - 1) as u32 }) && action
                == ProbeAction::Transfer(FwCfgTransfer::ReadCurrent { len: 64 })
        } else {
            action == ProbeAction::Finish(Err(VgaError::DeviceNotReady))
        })),
{
}

/// The directory scan over a run of steps: `probes[0]` waits for the
/// first of `n` entries, `entries[i]` is the reply to the `i`-th read, and
/// none of the first `j` entries names `etc/ramfb`. Then the probe has read
/// exactly those `j` entries, waits for entry `j` with `n - 1 - j` left, and
/// still configures the address it was started with.
pub proof fn lemma_probe_scan_chain(
    probes: Seq<RamfbProbe>,
    actions: Seq<ProbeAction>,
    entries: Seq<Seq<u8>>,
    n: u32,
    j: int,
)
    requires
        n > 0,
        0 <= j < n,
        probes.len() > j,
        actions.len() >= j,
        entries.len() >= j,
        probes[0].stage == (ProbeStage::FileEntry { unread: (n - 1) as u32 }),
        forall|i: int| 0 <= i < j ==> #[trigger] probes[i].spec_step(Ok(entries[i]), probes[i + 1], actions[i]),
        forall|i: int| 0 <= i < j ==> field_name(#[trigger] entries[i].subrange(8, 64))
            != ramfb_file_name_bytes(),
    ensures
        probes[j].stage == (ProbeStage::FileEntry { unread: (n - 1 - j) as u32 }),
        probes[j].framebuffer_paddr == probes[0].framebuffer_paddr,
        forall|i: int| 0 <= i < j ==> #[trigger] actions[i] == ProbeAction::Transfer(
            FwCfgTransfer::ReadCurrent { len: 64 },
        ),
    decreases j,
{
    if j > 0 {
        lemma_probe_scan_chain(probes, actions, entries, n, j - 1);
        let i = j - 1;
        assert(probes[i].spec_step(Ok(entries[i]), probes[i + 1], actions[i]));
        assert(field_name(entries[i].subrange(8, 64)) != ramfb_file_name_bytes());
        lemma_probe_directory_step(probes[i], entries[i], probes[i + 1], actions[i]);
    }
}

/// A probe that reads a directory of `n` entries finds `etc/ramfb` wherever
/// it stands among them: when entry `k < n` is the first to name it, the
/// probe reads entries `0..k` one after another and then writes the
/// configuration record to entry `k`'s selector.
pub proof fn lemma_probe_finds_first_ramfb_entry(
    probes: Seq<RamfbProbe>,
    actions: Seq<ProbeAction>,
    entries: Seq<Seq<u8>>,
    n: u32,
    k: int,
)
    requires
        n > 0,
        0 <= k < n,
        probes.len() == k + 2,
        actions.len() == k + 1,
        entries.len() == k + 1,
        probes[0].stage == (ProbeStage::FileEntry { unread: (n - 1) as u32 }),
        forall|i: int| 0 <= i <= k ==> #[trigger] probes[i].spec_step(Ok(entries[i]), probes[i + 1], actions[i]),
        forall|i: int| 0 <= i < k ==> field_name(#[trigger] entries[i].subrange(8, 64))
            != ramfb_file_name_bytes(),
        field_name(entries[k].subrange(8, 64)) == ramfb_file_name_bytes(),
    ensures
        forall|i: int| 0 <= i < k ==> #[trigger] actions[i] == ProbeAction::Transfer(
            FwCfgTransfer::ReadCurrent { len: 64 },
        ),
        actions[k] matches ProbeAction::Transfer(FwCfgTransfer::WriteItem { selector, data })
            && selector == entries[k][4] * 0x100 + entries[k][5] && data@ == ramfb_config_bytes(
            probes[0].framebuffer_paddr,
        ),
{
    lemma_probe_scan_chain(probes, actions, entries, n, k);
    assert(probes[k].spec_step(Ok(entries[k]), probes[k + 1], actions[k]));
    lemma_probe_directory_step(probes[k], entries[k], probes[k + 1], actions[k]);
}

/// A directory of `n` entries none of which names `etc/ramfb` is read to
/// its end: the probe reads all `n` entries and only then reports
/// `DeviceNotReady`.
pub proof fn lemma_probe_reports_missing_ramfb(
    probes: Seq<RamfbProbe>,
    actions: Seq<ProbeAction>,
    entries: Seq<Seq<u8>>,
    n: u32,
)
    requires
        n > 0,
        probes.len() == n + 1,
        actions.len() == n,
        entries.len() == n,
        probes[0].stage == (ProbeStage::FileEntry { unread: (n - 1) as u32 }),
        forall|i: int| 0 <= i < n ==> #[trigger] probes[i].spec_step(Ok(entries[i]), probes[i + 1], actions[i]),
        forall|i: int| 0 <= i < n ==> field_name(#[trigger] entries[i].subrange(8, 64))
            != ramfb_file_name_bytes(),
    ensures
        forall|i: int| 0 <= i < n - 1 ==> #[trigger] actions[i] == ProbeAction::Transfer(
            FwCfgTransfer::ReadCurrent { len: 64 },
        ),
        actions[n - 1] == ProbeAction::Finish(Err(VgaError::DeviceNotReady)),
{
    let last = n - 1;
    lemma_probe_scan_chain(probes, actions, entries, n, last as int);
    assert(probes[last as int].spec_step(Ok(entries[last as int]), probes[last + 1], actions[last as int]));
    assert(field_name(entries[last as int].subrange(8, 64)) != ramfb_file_name_bytes());
    lemma_probe_directory_step(probes[last as int], entries[last as int], probes[last + 1], actions[last as int]);
}

} // verus!
