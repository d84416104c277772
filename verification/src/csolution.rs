//! Contains the types required to represent a [PDSC csolution](https://open-cmsis-pack.github.io/Open-CMSIS-Pack-Spec/main/html/pdsc_csolution_pg.html#element_csolution) element
use vstd::prelude::*;


verus! {

/// Represents the [PDSC csolution](https://open-cmsis-pack.github.io/Open-CMSIS-Pack-Spec/main/html/pdsc_csolution_pg.html#element_csolution) element
///
/// Groups software layers and project templates published by a pack for use with csolution-based projects.
#[derive(Debug, PartialEq, Eq, Clone, Default)]
pub struct Csolution {
    /// Software layer definitions (0..*)
    pub clayers: Vec<Clayer>,

    /// Project template definitions (0..*)
    pub templates: Vec<CsolutionTemplate>,
}

/// Represents a [clayer](https://open-cmsis-pack.github.io/Open-CMSIS-Pack-Spec/main/html/pdsc_csolution_pg.html#element_clayer) element
///
/// Provides access information for a software layer stored in a pack.
#[derive(Debug, PartialEq, Eq, Clone, Default)]
pub struct Clayer {
    /// Layer type identifier
    pub layer_type: String,

    /// Path to the layer directory relative to the pack root
    pub path: String,

    /// Layer project file name (e.g. `.clayer.yml`)
    pub file: String,

    /// Optional destination path when copying the layer into a project
    pub copy_to: Option<String>,

    /// References a condition ID; layer is available only if the condition is met
    pub condition: Option<String>,
}

/// Represents a [template](https://open-cmsis-pack.github.io/Open-CMSIS-Pack-Spec/main/html/pdsc_csolution_pg.html#element_cs_template) element
///
/// Defines a project template for initialising new csolution projects in an IDE.
#[derive(Debug, PartialEq, Eq, Clone, Default)]
pub struct CsolutionTemplate {
    /// Template display name
    pub name: String,

    /// Path to the template directory relative to the pack root
    pub path: String,

    /// Template project file name (e.g. `.csolution.yml`)
    pub file: String,

    /// Optional destination path when copying the template into a project
    pub copy_to: Option<String>,

    /// References a condition ID; template is available only if the condition is met
    pub condition: Option<String>,

    /// Brief description of the template
    pub description: String,
}

} // verus!
