//! Contains the types required to represent a [PDSC Boards](https://open-cmsis-pack.github.io/Open-CMSIS-Pack-Spec/main/html/pdsc_boards_pg.html#element_boards) element
use vstd::prelude::*;

use crate::number::{parse_unsigned, parse_unsigned_chars};
use crate::text::{has_prefix_at, starts_with, str_to_chars};


verus! {

/// What a board's address or size attribute reads as: hexadecimal after `0x`
/// or `0X`, else decimal; at most `u64::MAX`, not trimmed.
pub open spec fn hex_u64_value(s: Seq<char>) -> Option<nat> {
    if starts_with(s, "0x"@) {
        parse_unsigned(s.subrange("0x"@.len() as int, s.len() as int), 16, 0xFFFF_FFFF_FFFF_FFFF)
    } else if starts_with(s, "0X"@) {
        parse_unsigned(s.subrange("0X"@.len() as int, s.len() as int), 16, 0xFFFF_FFFF_FFFF_FFFF)
    } else {
        parse_unsigned(s, 10, 0xFFFF_FFFF_FFFF_FFFF)
    }
}

/// Reads a board's address or size attribute, as [`hex_u64_value`] says.
pub fn parse_hex_u64(s: &str) -> (r: Option<u64>)
    ensures
        match r {
            Some(n) => hex_u64_value(s@) == Some(n as nat),
            None => hex_u64_value(s@) is None,
        },
{
    let v = str_to_chars(s);
    proof {
        assert(v@.subrange(0, v@.len() as int) =~= s@);
    }
    let lower = str_to_chars("0x");
    let upper = str_to_chars("0X");
    if has_prefix_at(&v, 0, v.len(), &lower) {
        proof {
            assert(v@.subrange(lower@.len() as int, v@.len() as int) =~= s@.subrange(
                "0x"@.len() as int,
                s@.len() as int,
            ));
        }
        parse_unsigned_chars(&v, lower.len(), v.len(), 16, 0xFFFF_FFFF_FFFF_FFFF)
    } else if has_prefix_at(&v, 0, v.len(), &upper) {
        proof {
            assert(v@.subrange(upper@.len() as int, v@.len() as int) =~= s@.subrange(
                "0X"@.len() as int,
                s@.len() as int,
            ));
        }
        parse_unsigned_chars(&v, upper.len(), v.len(), 16, 0xFFFF_FFFF_FFFF_FFFF)
    } else {
        parse_unsigned_chars(&v, 0, v.len(), 10, 0xFFFF_FFFF_FFFF_FFFF)
    }
}

/// Represents the [PDSC boards](https://open-cmsis-pack.github.io/Open-CMSIS-Pack-Spec/main/html/pdsc_boards_pg.html#element_boards) element
#[derive(Debug, PartialEq, Eq, Clone, Default)]
pub struct Boards {
    /// The list of board descriptions
    pub boards: Vec<Board>,
}

/// Represents a [PDSC board](https://open-cmsis-pack.github.io/Open-CMSIS-Pack-Spec/main/html/pdsc_boards_pg.html#element_board) element
#[derive(Debug, PartialEq, Eq, Clone, Default)]
pub struct Board {
    /// Board vendor name
    pub vendor: String,

    /// Development board name
    pub name: String,

    /// Board revision suited for the BSP
    pub revision: Option<String>,

    /// 128-bit embedded debugger firmware identifier (format: 8-4-4-4-12)
    pub uuid: Option<String>,

    /// Email or webpage for sales enquiries
    pub sales_contact: Option<String>,

    /// Webpage for ordering the board
    pub order_form: Option<String>,

    /// Brief board description (max 256 characters); optional (0..1)
    pub description: Option<String>,

    /// Board features and capabilities (1..*)
    pub features: Vec<Feature>,

    /// Microcontroller devices mounted on the board (1..*)
    pub mounted_devices: Vec<MountedDevice>,

    /// Microcontroller devices compatible with the board (1..*)
    pub compatible_devices: Vec<CompatibleDevice>,

    /// Non-MCU parts mounted on the board (0..*)
    pub mounted_parts: Vec<MountedPart>,

    /// Board images (top/bottom/perspective)
    pub image: Option<Image>,

    /// On-board debug interface capabilities (0..*)
    pub debug_interfaces: Vec<DebugInterface>,

    /// Documentation files (0..*)
    pub books: Vec<Book>,

    /// On-board debug probe configuration
    pub debug_probe: Option<DebugProbe>,

    /// Additional board memory regions (0..*)
    pub memories: Vec<Memory>,

    /// Flash programming algorithms for board memory (0..*)
    pub algorithms: Vec<Algorithm>,

    /// IDE-specific tool environments for this board (0..*)
    pub environments: Option<BoardEnvironments>,
}

/// Represents a [PDSC board feature](https://open-cmsis-pack.github.io/Open-CMSIS-Pack-Spec/main/html/pdsc_boards_pg.html#element_board_feature) element
#[derive(Debug, PartialEq, Eq, Clone, Default)]
pub struct Feature {
    /// Predefined board feature type (e.g. `LED`, `Button`, `XTAL`, `USB`, `Ethernet`); valid values: [BoardFeatureType](https://open-cmsis-pack.github.io/Open-CMSIS-Pack-Spec/main/html/pdsc_boards_pg.html)
    pub feature_type: String,

    /// Quantity or primary numeric parameter; meaning depends on `feature_type`
    pub n: Option<String>,

    /// Secondary numeric parameter; meaning depends on `feature_type`
    pub m: Option<String>,

    /// Descriptive feature name
    pub name: Option<String>,
}

/// Represents a [PDSC mountedDevice](https://open-cmsis-pack.github.io/Open-CMSIS-Pack-Spec/main/html/pdsc_boards_pg.html#element_board_mountedDevice) element
#[derive(Debug, PartialEq, Eq, Clone, Default)]
pub struct MountedDevice {
    /// Device index for boards with multiple devices
    pub device_index: Option<String>,

    /// Device vendor (use `"NO_VENDOR:0"` if there is no MCU); valid values: [DeviceVendorEnum](https://open-cmsis-pack.github.io/Open-CMSIS-Pack-Spec/main/html/pdsc_boards_pg.html)
    pub device_vendor: String,

    /// Device name (use `"NO_MCU"` if there is no MCU)
    pub device_name: String,
}

/// Represents a [PDSC compatibleDevice](https://open-cmsis-pack.github.io/Open-CMSIS-Pack-Spec/main/html/pdsc_boards_pg.html#element_board_compatibleDevice) element
#[derive(Debug, PartialEq, Eq, Clone, Default)]
pub struct CompatibleDevice {
    /// Device index for multi-device boards
    pub device_index: Option<String>,

    /// Device vendor (use `"NO_VENDOR:0"` for incompatible configurations); valid values: [DeviceVendorEnum](https://open-cmsis-pack.github.io/Open-CMSIS-Pack-Spec/main/html/pdsc_boards_pg.html)
    pub device_vendor: String,

    /// Device name or wildcard pattern
    pub device_name: Option<String>,

    /// Device family name
    pub device_family: Option<String>,

    /// Device sub-family name
    pub device_sub_family: Option<String>,
}

/// Represents a [PDSC mountedPart](https://open-cmsis-pack.github.io/Open-CMSIS-Pack-Spec/main/html/pdsc_boards_pg.html#element_board_mountedPart) element
#[derive(Debug, PartialEq, Eq, Clone, Default)]
pub struct MountedPart {
    /// Quantity of parts with this name and vendor
    pub n: String,

    /// Part vendor name
    pub part_vendor: String,

    /// Part name
    pub part_name: String,

    /// Exact commercial part name (variant)
    pub part_variant: Option<String>,

    /// Part revision
    pub part_revision: Option<String>,
}

/// Represents a [PDSC board image](https://open-cmsis-pack.github.io/Open-CMSIS-Pack-Spec/main/html/pdsc_boards_pg.html#element_board_image) element
#[derive(Debug, PartialEq, Eq, Clone, Default)]
pub struct Image {
    /// Path to the large top-side board image
    pub large: Option<String>,

    /// Path to the small top-side board image (lower resolution)
    pub small: Option<String>,

    /// Path to the bottom-side board image
    pub bottom: Option<String>,

    /// Path to a perspective-view board image
    pub perspective: Option<String>,

    /// Publishing permission; default `true`
    pub public: Option<bool>,
}

/// Represents a [PDSC debugInterface](https://open-cmsis-pack.github.io/Open-CMSIS-Pack-Spec/main/html/pdsc_boards_pg.html#element_board_debugInterface) element
#[derive(Debug, PartialEq, Eq, Clone, Default)]
pub struct DebugInterface {
    /// Debug adapter type (e.g. `CMSIS-DAP`, `JTAG/SW`)
    pub adapter: Option<String>,

    /// Physical connector description
    pub connector: Option<String>,
}

/// Represents a [PDSC board book](https://open-cmsis-pack.github.io/Open-CMSIS-Pack-Spec/main/html/pdsc_boards_pg.html#element_board_book) element
#[derive(Debug, PartialEq, Eq, Clone, Default)]
pub struct Book {
    /// Documentation category (e.g. `setup`, `schematic`, `manual`, `other`)
    pub category: Option<String>,

    /// Document file path or external URL
    pub name: Option<String>,

    /// Display title for the document
    pub title: Option<String>,

    /// Publishing permission; default `true`
    pub public: Option<bool>,
}

/// Represents a [PDSC debugProbe](https://open-cmsis-pack.github.io/Open-CMSIS-Pack-Spec/main/html/pdsc_boards_pg.html#element_board_debugProbe) element
#[derive(Debug, PartialEq, Eq, Clone, Default)]
pub struct DebugProbe {
    /// Device index for the probe on multi-device boards
    pub device_index: Option<String>,

    /// Probe type (e.g. `CMSIS-DAP`, `DAP-Link`, `ST-Link`, `J-Link`)
    pub name: String,

    /// Probe firmware version
    pub version: String,

    /// Connection type: `jtag` or `swd`
    pub debug_link: String,

    /// Default debug clock speed in Hz
    pub debug_clock: u64,

    /// Physical connector type (e.g. `Mini-USB`, `Micro-USB`, `USB-C`)
    pub connector: String,
}

/// Represents a [PDSC board memory](https://open-cmsis-pack.github.io/Open-CMSIS-Pack-Spec/main/html/pdsc_boards_pg.html#element_board_memory) element
#[derive(Debug, PartialEq, Eq, Clone, Default)]
pub struct Memory {
    /// Processor identifier for multi-processor boards
    pub processor_name: Option<String>,

    /// Unique memory region name
    pub name: Option<String>,

    /// Access permissions (e.g. `rx`, `rw`, `rwx`)
    pub access: Option<String>,

    /// Base address of the memory region (hex or decimal)
    pub start: u64,

    /// Size of the memory region in bytes (hex or decimal)
    pub size: u64,

    /// Whether this is the general-purpose memory for the linker (default: `false`)
    pub default: Option<bool>,

    /// Whether startup code should be placed here (default: `false`)
    pub startup: Option<bool>,

    /// Whether the region should remain uninitialized (default: `false`)
    pub uninit: Option<bool>,

    /// Name of another memory region this region aliases
    pub alias: Option<String>,
}

/// Represents a [PDSC board algorithm](https://open-cmsis-pack.github.io/Open-CMSIS-Pack-Spec/main/html/pdsc_boards_pg.html#element_board_algorithm) element
#[derive(Debug, PartialEq, Eq, Clone, Default)]
pub struct Algorithm {
    /// Processor identifier for multi-processor boards
    pub processor_name: Option<String>,

    /// Path to the flash programming algorithm file
    pub name: String,

    /// Base address of the flash region covered by this algorithm (hex or decimal)
    pub start: u64,

    /// Size of the flash region covered by this algorithm in bytes (hex or decimal)
    pub size: u64,

    /// RAM execution base address for the algorithm (hex or decimal)
    pub ram_start: Option<u64>,

    /// Maximum RAM available for algorithm execution (hex or decimal)
    pub ram_size: Option<u64>,

    /// Whether this is the default algorithm for the covered region (default: `false`)
    pub default: Option<bool>,

    /// Algorithm style; defaults to `Keil`
    pub style: Option<String>,
}

/// Represents a [board environment](https://open-cmsis-pack.github.io/Open-CMSIS-Pack-Spec/main/html/pdsc_boards_pg.html#element_board) entry
#[derive(Debug, PartialEq, Eq, Clone, Default)]
pub struct BoardEnvironment {
    /// IDE environment name (e.g. `uvision`, `iar`, `eclipse`)
    pub name: String,

    /// Processor name for multi-core boards; limits this environment entry to one core
    pub processor_name: Option<String>,
}

/// Groups board environment entries for a [PDSC board](https://open-cmsis-pack.github.io/Open-CMSIS-Pack-Spec/main/html/pdsc_boards_pg.html#element_board)
#[derive(Debug, PartialEq, Eq, Clone, Default)]
pub struct BoardEnvironments {
    /// Individual environment entries (0..*)
    pub environments: Vec<BoardEnvironment>,
}

} // verus!
