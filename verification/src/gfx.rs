//! The graphics-backend capability model. A backend answers which hardware
//! API it prefers and whether it can prepare a context of the kind a core
//! asks for; the software backend prefers none and refuses them all. The GL
//! calls themselves live outside the library — what is here is every decision
//! a backend makes.

use vstd::prelude::*;

verus! {

/// The hardware context kinds of the libretro ABI, by their context-type
/// words. `Other` stands for every word this frontend does not recognize.
#[derive(Clone, Copy, Debug, PartialEq, Eq, Structural, Hash)]
pub enum HwContextType {
    /// No hardware context: the core renders in software.
    NoApi,
    OpenGl,
    OpenGlEs2,
    OpenGlCore,
    OpenGlEs3,
    OpenGlEsVersion,
    Vulkan,
    Direct3D,
    Other,
}

impl HwContextType {
    /// The context kind a libretro context-type word stands for.
    pub open spec fn from_raw_spec(v: u32) -> HwContextType {
        if v == 0 {
            HwContextType::NoApi
        } else if v == 1 {
            HwContextType::OpenGl
        } else if v == 2 {
            HwContextType::OpenGlEs2
        } else if v == 3 {
            HwContextType::OpenGlCore
        } else if v == 4 {
            HwContextType::OpenGlEs3
        } else if v == 5 {
            HwContextType::OpenGlEsVersion
        } else if v == 6 {
            HwContextType::Vulkan
        } else if v == 7 {
            HwContextType::Direct3D
        } else {
            HwContextType::Other
        }
    }

    pub fn from_raw(v: u32) -> (r: HwContextType)
        ensures
            r == HwContextType::from_raw_spec(v),
    {
        if v == 0 {
            HwContextType::NoApi
        } else if v == 1 {
            HwContextType::OpenGl
        } else if v == 2 {
            HwContextType::OpenGlEs2
        } else if v == 3 {
            HwContextType::OpenGlCore
        } else if v == 4 {
            HwContextType::OpenGlEs3
        } else if v == 5 {
            HwContextType::OpenGlEsVersion
        } else if v == 6 {
            HwContextType::Vulkan
        } else if v == 7 {
            HwContextType::Direct3D
        } else {
            HwContextType::Other
        }
    }

    /// The context-type word the ABI uses for this kind. `Other` has no word
    /// of its own and maps to zero.
    pub fn to_raw(self) -> (r: u32)
        ensures
            self != HwContextType::Other ==> HwContextType::from_raw_spec(r) == self,
            self == HwContextType::Other ==> r == 0,
    {
        match self {
            HwContextType::NoApi => 0,
            HwContextType::OpenGl => 1,
            HwContextType::OpenGlEs2 => 2,
            HwContextType::OpenGlCore => 3,
            HwContextType::OpenGlEs3 => 4,
            HwContextType::OpenGlEsVersion => 5,
            HwContextType::Vulkan => 6,
            HwContextType::Direct3D => 7,
            HwContextType::Other => 0,
        }
    }
}

/// Whether the OpenGL backend can honour a request for this context kind:
/// Vulkan and Direct3D are detected and refused, everything else is taken as
/// a GL flavour and accepted.
pub fn gl_supports_context(ctype: HwContextType) -> (r: bool)
    ensures
        r == (ctype != HwContextType::Vulkan && ctype != HwContextType::Direct3D),
{
    match ctype {
        HwContextType::Vulkan => false,
        HwContextType::Direct3D => false,
        _ => true,
    }
}

/// The graphics backend for pure software cores. It prefers no hardware API
/// and refuses every hardware-context request, so a core must render in
/// software.
#[derive(Debug)]
pub struct SoftwareGfx();

impl SoftwareGfx {
    /// The hardware API this backend prefers: none.
    pub fn preferred_api(&self) -> (r: HwContextType)
        ensures
            r == HwContextType::NoApi,
    {
        HwContextType::NoApi
    }

    /// Whether this backend can prepare a hardware context: never.
    pub fn prepare_hardware_context(&mut self) -> (r: bool)
        ensures
            !r,
    {
        false
    }
}

impl Default for SoftwareGfx {
    fn default() -> (s: SoftwareGfx)
        ensures
            true,
    {
        SoftwareGfx()
    }
}

} // verus!
