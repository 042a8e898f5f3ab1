//! A minimal display driver for the QEMU ramfb device, configured through the
//! fw_cfg DMA interface: framebuffer layout arithmetic, the firmware
//! configuration protocol, and the one-shot initialisation state.
pub mod bytes;
pub mod device;
pub mod display;
pub mod error;
pub mod framebuffer;
pub mod pattern;

pub use display::{clear_screen, draw_pixel, framebuffer_info, resolution, DisplayState};
pub use error::VgaError;
pub use framebuffer::{FramebufferInfo, PixelFormat, PixelWrite, ScreenFill};
