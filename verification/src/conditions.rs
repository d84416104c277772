//! Contains the types required to represent a [PDSC Conditions](https://open-cmsis-pack.github.io/Open-CMSIS-Pack-Spec/main/html/pdsc_conditions_pg.html#element_conditions) element
use vstd::prelude::*;


verus! {

/// Represents the [PDSC conditions](https://open-cmsis-pack.github.io/Open-CMSIS-Pack-Spec/main/html/pdsc_conditions_pg.html#element_conditions) element
///
/// Groups all condition definitions used to conditionally include components, files, and other pack content.
#[derive(Debug, PartialEq)]
pub struct Conditions {
    /// Condition definitions (1..*)
    pub conditions: Vec<Condition>,
}

/// Represents a [PDSC condition](https://open-cmsis-pack.github.io/Open-CMSIS-Pack-Spec/main/html/pdsc_conditions_pg.html#element_condition) element
///
/// A condition groups `accept`, `require`, and `deny` filter rules identified by a unique `id`.
#[derive(Debug, PartialEq)]
pub struct Condition {
    /// Unique identifier for this condition within the pack
    pub id: String,

    /// Human-readable explanation of what the condition tests
    pub description: Option<String>,

    /// OR-rules: at least one `accept` filter must evaluate to true
    pub accept: Vec<Filter>,

    /// AND-rules: all `require` filters must evaluate to true
    pub require: Vec<Filter>,

    /// AND-NOT-rules: no `deny` filter may evaluate to true
    pub deny: Vec<Filter>,
}

/// Represents the shared filter attributes used by
/// [`<accept>`](https://open-cmsis-pack.github.io/Open-CMSIS-Pack-Spec/main/html/pdsc_conditions_pg.html#element_accept),
/// [`<require>`](https://open-cmsis-pack.github.io/Open-CMSIS-Pack-Spec/main/html/pdsc_conditions_pg.html#element_require), and
/// [`<deny>`](https://open-cmsis-pack.github.io/Open-CMSIS-Pack-Spec/main/html/pdsc_conditions_pg.html#element_deny) elements
///
/// All attributes are optional; at least one must be set in a valid filter.
#[derive(Debug, PartialEq)]
pub struct Filter {
    /// Device vendor (e.g. `ARM:82`, `STMicroelectronics:13`)
    pub device_vendor: Option<String>,

    /// Device name; supports wildcards `*`, `?`, `[abc]`
    pub device_name: Option<String>,

    /// Processor name for multi-core devices
    pub processor_name: Option<String>,

    /// Processor core (e.g. `Cortex-M0`, `Cortex-M4`)
    pub device_core: Option<String>,

    /// Floating-point unit type
    pub fpu: Option<String>,

    /// Memory protection unit presence
    pub mpu: Option<String>,

    /// TrustZone support
    pub trustzone: Option<String>,

    /// Secure state support
    pub secure: Option<String>,

    /// DSP instruction set support
    pub dsp: Option<String>,

    /// M-Profile Vector Extension (Helium) support
    pub mve: Option<String>,

    /// Custom Datapath Extension co-processor support
    pub cdecp: Option<String>,

    /// Pointer Authentication and Branch Target Identification support
    pub pacbti: Option<String>,

    /// Byte endianness (e.g. `Little-endian`, `Big-endian`)
    pub endian: Option<String>,

    /// Component vendor
    pub component_vendor: Option<String>,

    /// Component bundle name
    pub bundle: Option<String>,

    /// Component class
    pub class: Option<String>,

    /// Component group
    pub group: Option<String>,

    /// Component sub-group
    pub sub: Option<String>,

    /// Component variant
    pub variant: Option<String>,

    /// Component version range
    pub version: Option<String>,

    /// API version range
    pub api_version: Option<String>,

    /// Board vendor
    pub board_vendor: Option<String>,

    /// Board name
    pub board_name: Option<String>,

    /// Board revision
    pub board_revision: Option<String>,

    /// Hardware part vendor
    pub part_vendor: Option<String>,

    /// Hardware part name
    pub part_name: Option<String>,

    /// Compiler toolchain (e.g. `GCC`, `ARMCC`, `IAR`)
    pub compiler: Option<String>,

    /// Compiler options or mode (e.g. `AC5`, `AC6`)
    pub compiler_options: Option<String>,

    /// References another condition by its `id`; this filter is true only if that condition is true
    pub condition: Option<String>,
}

} // verus!
