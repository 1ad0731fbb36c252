//! The digital vibrance control (DVC) data of the vendor interface and the
//! mapping between percent levels and a display's native range.

use crate::error::VibranceError;
use vstd::prelude::*;

verus! {

/// Status with which every vendor call reports success.
pub const NVAPI_OK: i32 = 0;

/// Status with which the display enumeration reports that no display is left.
pub const NVAPI_END_ENUMERATION: i32 = -7;

/// Interface id of the call that reads a display's vibrance information.
pub const NVAPI_DISP_GET_DVC_INFO_EX_ID: u32 = 0x0e45002d;

/// Interface id of the call that writes a display's vibrance level.
pub const NVAPI_DISP_SET_DVC_LEVEL_EX_ID: u32 = 0x4a82c2b1;

/// Interface id of the call that finds a display's handle by its name.
pub const NVAPI_GET_ASSOCIATED_NVIDIA_DISPLAY_HANDLE_ID: u32 = 0x35c29134;

/// Size in bytes of the vibrance information structure as the vendor
/// interface lays it out: five 32-bit fields.
pub const DVC_INFO_EX_SIZE: u16 = 20;

/// Revision of the vibrance information structure.
pub const DVC_INFO_EX_REVISION: u16 = 1;

/// The highest level a caller may ask for, in percent.
pub const MAX_PERCENT: u32 = 100;

/// The version word of a vendor structure: its size in the low half, its
/// revision in the high half.
pub open spec fn struct_version(size: int, revision: int) -> int {
    size + revision * 0x1_0000
}

/// Builds the version word of a vendor structure.
pub fn make_version(size: u16, revision: u16) -> (version: u32)
    ensures
        version == struct_version(size as int, revision as int),
        version & 0xffff == size,
        version >> 16 == revision,
{
    let low = size as u32;
    let high = revision as u32;
    let version = low | (high << 16);
    assert(version == low + high * 0x1_0000 && version & 0xffff == low && version >> 16 == high)
        by (bit_vector)
        requires
            version == low | (high << 16),
            low < 0x1_0000,
            high < 0x1_0000,
    ;
    version
}

/// The native level that `percent` selects in the range from `min` to `max`:
/// `min` plus the share of the span, rounded down.
pub open spec fn native_level(min: int, max: int, percent: int) -> int {
    min + (percent * (max - min)) / 100
}

/// A native level chosen by a percent of at most 100 lies between the two
/// ends of the range, whichever of them is the larger.
pub proof fn lemma_native_level_bounds(min: int, max: int, percent: int)
    requires
        0 <= percent <= 100,
    ensures
        min <= max ==> min <= native_level(min, max, percent) <= max,
        max <= min ==> max <= native_level(min, max, percent) <= min,
        native_level(min, max, 0) == min,
        native_level(min, max, 100) == max,
{
    let span = max - min;
    if 0 <= span {
        assert(percent * span <= 100 * span && 0 <= percent * span) by (nonlinear_arith)
            requires
                0 <= percent <= 100,
                0 <= span,
        ;
    }
    if span <= 0 {
        assert(100 * span <= percent * span && percent * span <= 0) by (nonlinear_arith)
            requires
                0 <= percent <= 100,
                span <= 0,
        ;
    }
}

/// In a range whose minimum is not above its maximum, a higher percent
/// never selects a lower native level.
pub proof fn law_native_level_is_monotonic(min: int, max: int, lower: int, higher: int)
    requires
        min <= max,
        lower <= higher,
    ensures
        native_level(min, max, lower) <= native_level(min, max, higher),
{
    let span = max - min;
    assert(lower * span <= higher * span) by (nonlinear_arith)
        requires
            lower <= higher,
            0 <= span,
    ;
}

/// Maps a percent level onto a native range.
fn scale_level(min: u32, max: u32, percent: u32) -> (level: u32)
    requires
        percent <= 100,
    ensures
        level == native_level(min as int, max as int, percent as int),
{
    if min <= max {
        let span: u64 = (max - min) as u64;
        assert(percent * span <= 100 * span && percent * (max - min) == percent * span)
            by (nonlinear_arith)
            requires
                percent <= 100,
                span == max - min,
        ;
        let share: u64 = (percent as u64) * span / 100;
        min + (share as u32)
    } else {
        let span: u64 = (min - max) as u64;
        assert(percent * span <= 100 * span && percent * (max - min) == -(percent * span))
            by (nonlinear_arith)
            requires
                percent <= 100,
                span == min - max,
        ;
        let drop: u64 = ((percent as u64) * span + 99) / 100;
        min - (drop as u32)
    }
}

/// What a display reports of its vibrance, in native units.
#[derive(Clone, Copy, Debug, PartialEq, Eq, Structural)]
pub struct VibranceRange {
    pub min: u32,
    pub max: u32,
    pub current: u32,
    pub default: u32,
}

impl VibranceRange {
    /// The native level that `percent` selects in this range.
    pub open spec fn level_at(self, percent: int) -> int {
        native_level(self.min as int, self.max as int, percent)
    }

    /// The native level for `percent`, or `InvalidInput` above 100 percent.
    pub fn level_for(&self, percent: u32) -> (level: Result<u32, VibranceError>)
        ensures
            percent <= 100 ==> level == Ok::<u32, VibranceError>(self.level_at(percent as int) as u32)
                && self.level_at(percent as int) <= u32::MAX,
            percent > 100 ==> level == Err::<u32, VibranceError>(VibranceError::InvalidInput),
    {
        if percent > MAX_PERCENT {
            Err(VibranceError::InvalidInput)
        } else {
            Ok(scale_level(self.min, self.max, percent))
        }
    }
}

/// The vibrance information structure that the vendor calls read and write.
#[allow(non_camel_case_types)]
#[derive(Clone, Copy, Debug, PartialEq, Eq, Structural)]
pub struct NV_DISPLAY_DVC_INFO_EX {
    pub version: u32,
    pub current_level: u32,
    pub min_level: u32,
    pub max_level: u32,
    pub default_level: u32,
}

impl NV_DISPLAY_DVC_INFO_EX {
    /// The structure as it is handed to a read: its version word set, every
    /// level zero.
    pub open spec fn blank() -> Self {
        NV_DISPLAY_DVC_INFO_EX {
            version: 0x1_0014,
            current_level: 0,
            min_level: 0,
            max_level: 0,
            default_level: 0,
        }
    }

    /// The structure with its current level replaced by the native level
    /// that `percent` selects between its minimum and its maximum.
    pub open spec fn spec_with_level(self, percent: int) -> Self {
        NV_DISPLAY_DVC_INFO_EX {
            current_level: native_level(self.min_level as int, self.max_level as int, percent) as u32,
            ..self
        }
    }

    /// A structure ready to be filled by a read.
    pub fn new() -> (info: Self)
        ensures
            info == Self::blank(),
            info.version == struct_version(DVC_INFO_EX_SIZE as int, DVC_INFO_EX_REVISION as int),
    {
        NV_DISPLAY_DVC_INFO_EX {
            version: make_version(DVC_INFO_EX_SIZE, DVC_INFO_EX_REVISION),
            current_level: 0,
            min_level: 0,
            max_level: 0,
            default_level: 0,
        }
    }

    /// The range that the structure reports.
    pub fn range(&self) -> (range: VibranceRange)
        ensures
            range == (VibranceRange {
                min: self.min_level,
                max: self.max_level,
                current: self.current_level,
                default: self.default_level,
            }),
    {
        VibranceRange {
            min: self.min_level,
            max: self.max_level,
            current: self.current_level,
            default: self.default_level,
        }
    }

    /// The structure to hand to a write that sets `percent`, or
    /// `InvalidInput` above 100 percent.
    pub fn with_level(&self, percent: u32) -> (info: Result<Self, VibranceError>)
        ensures
            percent <= 100 ==> info == Ok::<Self, VibranceError>(self.spec_with_level(percent as int)),
            percent > 100 ==> info == Err::<Self, VibranceError>(VibranceError::InvalidInput),
    {
        match self.range().level_for(percent) {
            Ok(level) => Ok(
                NV_DISPLAY_DVC_INFO_EX {
                    version: self.version,
                    current_level: level,
                    min_level: self.min_level,
                    max_level: self.max_level,
                    default_level: self.default_level,
                },
            ),
            Err(e) => Err(e),
        }
    }
}

} // verus!
