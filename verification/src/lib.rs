//! Core of a libretro frontend: the verified logic that drives an emulator
//! core frame by frame. Pixel-format codecs, joypad button masks, the memory
//! descriptor scan, framebuffer conversion, and the decision logic behind the
//! libretro callbacks all live here; the FFI shell around them does not.

pub mod buttons;
pub mod env;
pub mod error;
pub mod framebuffer;
pub mod gfx;
pub mod memmap;
pub mod pixels;
pub mod state;

pub use buttons::Buttons;
pub use error::RetroRsError;
pub use framebuffer::PixelFormat;
pub use gfx::HwContextType;
pub use gfx::SoftwareGfx;
pub use memmap::MemoryDescriptor;
pub use memmap::MemoryRegion;
pub use state::FrontendState;
