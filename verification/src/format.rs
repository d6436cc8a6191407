//! Pixel-layout codes, layout modifiers and buffer flags: the value types that
//! describe how a buffer's memory is laid out.

use vstd::prelude::*;

verus! {

/// Wire value of the linear (untiled) layout modifier.
pub const MODIFIER_LINEAR: u64 = 0;

/// Wire value of the "no preference" sentinel modifier.
pub const MODIFIER_INVALID: u64 = 0x00ff_ffff_ffff_ffff;

/// A pixel-layout identifier, named after its four-character wire code.
#[derive(Clone, Copy, Debug, PartialEq, Eq, Structural)]
pub enum Fourcc {
    Argb8888,
    Xrgb8888,
    Abgr8888,
    Xbgr8888,
    Nv12,
    Yuv420,
}

impl Fourcc {
    /// The four-character code as it travels on the wire.
    pub open spec fn spec_code(self) -> u32 {
        match self {
            Fourcc::Argb8888 => 0x3432_5241,
            Fourcc::Xrgb8888 => 0x3432_5258,
            Fourcc::Abgr8888 => 0x3432_4241,
            Fourcc::Xbgr8888 => 0x3432_4258,
            Fourcc::Nv12 => 0x3231_564e,
            Fourcc::Yuv420 => 0x3231_5559,
        }
    }

    /// The layout identifier a wire code denotes, if it denotes any.
    pub open spec fn spec_from_code(code: u32) -> Option<Fourcc> {
        if code == 0x3432_5241 {
            Some(Fourcc::Argb8888)
        } else if code == 0x3432_5258 {
            Some(Fourcc::Xrgb8888)
        } else if code == 0x3432_4241 {
            Some(Fourcc::Abgr8888)
        } else if code == 0x3432_4258 {
            Some(Fourcc::Xbgr8888)
        } else if code == 0x3231_564e {
            Some(Fourcc::Nv12)
        } else if code == 0x3231_5559 {
            Some(Fourcc::Yuv420)
        } else {
            None
        }
    }

    pub fn code(self) -> (r: u32)
        ensures
            r == self.spec_code(),
    {
        match self {
            Fourcc::Argb8888 => 0x3432_5241,
            Fourcc::Xrgb8888 => 0x3432_5258,
            Fourcc::Abgr8888 => 0x3432_4241,
            Fourcc::Xbgr8888 => 0x3432_4258,
            Fourcc::Nv12 => 0x3231_564e,
            Fourcc::Yuv420 => 0x3231_5559,
        }
    }

    /// Decodes a wire code; unknown codes are rejected, never guessed at.
    pub fn from_code(code: u32) -> (r: Option<Fourcc>)
        ensures
            r == Self::spec_from_code(code),
    {
        if code == 0x3432_5241 {
            Some(Fourcc::Argb8888)
        } else if code == 0x3432_5258 {
            Some(Fourcc::Xrgb8888)
        } else if code == 0x3432_4241 {
            Some(Fourcc::Abgr8888)
        } else if code == 0x3432_4258 {
            Some(Fourcc::Xbgr8888)
        } else if code == 0x3231_564e {
            Some(Fourcc::Nv12)
        } else if code == 0x3231_5559 {
            Some(Fourcc::Yuv420)
        } else {
            None
        }
    }
}

/// A memory-layout modifier: either one of the two sentinels, or an opaque
/// driver-specific tag that must match bit-for-bit between both sides.
#[derive(Clone, Copy, Debug, PartialEq, Eq, Structural)]
pub enum Modifier {
    /// No preference: the driver may pick any layout.
    Invalid,
    /// Linear (untiled) layout, requested explicitly.
    Linear,
    /// An opaque driver-specific layout tag.
    Other(u64),
}

impl Modifier {
    pub open spec fn spec_from_u64(v: u64) -> Modifier {
        if v == MODIFIER_INVALID {
            Modifier::Invalid
        } else if v == MODIFIER_LINEAR {
            Modifier::Linear
        } else {
            Modifier::Other(v)
        }
    }

    pub open spec fn spec_to_u64(self) -> u64 {
        match self {
            Modifier::Invalid => MODIFIER_INVALID,
            Modifier::Linear => MODIFIER_LINEAR,
            Modifier::Other(v) => v,
        }
    }

    pub fn from_u64(v: u64) -> (r: Modifier)
        ensures
            r == Self::spec_from_u64(v),
    {
        if v == MODIFIER_INVALID {
            Modifier::Invalid
        } else if v == MODIFIER_LINEAR {
            Modifier::Linear
        } else {
            Modifier::Other(v)
        }
    }

    pub fn to_u64(self) -> (r: u64)
        ensures
            r == self.spec_to_u64(),
    {
        match self {
            Modifier::Invalid => MODIFIER_INVALID,
            Modifier::Linear => MODIFIER_LINEAR,
            Modifier::Other(v) => v,
        }
    }

    /// An explicit modifier is neither sentinel: it names one exact layout.
    pub open spec fn spec_is_explicit(self) -> bool {
        self is Other
    }

    pub fn is_explicit(self) -> (r: bool)
        ensures
            r == self.spec_is_explicit(),
    {
        match self {
            Modifier::Other(_) => true,
            _ => false,
        }
    }
}

/// A pixel format as advertised and negotiated: layout code plus modifier.
#[derive(Clone, Copy, Debug, PartialEq, Eq, Structural)]
pub struct Format {
    pub code: Fourcc,
    pub modifier: Modifier,
}

/// Buffer-wide orientation flags carried by the negotiation protocol.
#[derive(Clone, Copy, Debug, PartialEq, Eq, Structural)]
pub struct DmabufFlags {
    /// The buffer's contents are stored bottom row first.
    pub y_invert: bool,
    /// The buffer holds two interlaced fields rather than progressive rows.
    pub interlaced: bool,
    /// For interlaced content, the bottom field comes first in time.
    pub bottom_first: bool,
}

impl DmabufFlags {
    pub open spec fn spec_from_bits_truncate(bits: u32) -> DmabufFlags {
        DmabufFlags {
            y_invert: bits & 0x1 != 0,
            interlaced: bits & 0x2 != 0,
            bottom_first: bits & 0x4 != 0,
        }
    }

    /// Keeps the flag bits the protocol defines and drops all others.
    pub fn from_bits_truncate(bits: u32) -> (r: DmabufFlags)
        ensures
            r == Self::spec_from_bits_truncate(bits),
    {
        DmabufFlags {
            y_invert: bits & 0x1 != 0,
            interlaced: bits & 0x2 != 0,
            bottom_first: bits & 0x4 != 0,
        }
    }

    /// A flag set with every flag cleared.
    pub fn empty() -> (r: DmabufFlags)
        ensures
            r == (DmabufFlags { y_invert: false, interlaced: false, bottom_first: false }),
    {
        DmabufFlags { y_invert: false, interlaced: false, bottom_first: false }
    }
}

} // verus!
