//! Contains the types required to represent a [PDSC Parts](https://open-cmsis-pack.github.io/Open-CMSIS-Pack-Spec/main/html/pdsc_parts_pg.html#element_parts) element
use vstd::prelude::*;


verus! {

/// Represents the [PDSC parts](https://open-cmsis-pack.github.io/Open-CMSIS-Pack-Spec/main/html/pdsc_parts_pg.html#element_parts) element
#[derive(Debug, PartialEq, Eq, Clone, Default)]
pub struct Parts {
    /// The list of hardware part descriptions
    pub parts: Vec<Part>,
}

/// Represents a [PDSC part](https://open-cmsis-pack.github.io/Open-CMSIS-Pack-Spec/main/html/pdsc_parts_pg.html#element_part) element
#[derive(Debug, PartialEq, Eq, Clone, Default)]
pub struct Part {
    /// Hardware part vendor name
    pub vendor: Option<String>,

    /// Hardware part name
    pub name: String,

    /// Hardware part class
    pub class: Option<String>,

    /// Hardware part group
    pub group: Option<String>,

    /// Hardware part sub-group
    pub sub: Option<String>,

    /// Exact commercial part name (variant)
    pub variant: Option<String>,

    /// Part revision identifier
    pub revision: Option<String>,

    /// Brief part description (max 256 characters)
    pub description: Option<String>,

    /// Part features and capabilities (0..*)
    pub features: Vec<Feature>,

    /// Documentation files for this part (0..*)
    pub books: Vec<Book>,

    /// Part images (top/bottom/perspective)
    pub image: Option<Image>,

    /// IDE-specific tool environments for this part (0..*)
    pub environments: Option<PartEnvironments>,
}

/// Represents a [PDSC part feature](https://open-cmsis-pack.github.io/Open-CMSIS-Pack-Spec/main/html/pdsc_family_pg.html#element_feature) element
#[derive(Debug, PartialEq, Eq, Clone, Default)]
pub struct Feature {
    /// Processor identifier for multi-core parts
    pub processor_name: Option<String>,

    /// Predefined feature type (e.g. `CAN`, `DMA`, `Timer`, `UART`)
    pub feature_type: String,

    /// Quantity or primary numeric parameter; meaning depends on `feature_type`
    pub n: Option<String>,

    /// Secondary numeric parameter; meaning depends on `feature_type`
    pub m: Option<String>,

    /// Descriptive feature name
    pub name: Option<String>,
}

/// Represents a [PDSC part book](https://open-cmsis-pack.github.io/Open-CMSIS-Pack-Spec/main/html/pdsc_family_pg.html#element_book) element
#[derive(Debug, PartialEq, Eq, Clone, Default)]
pub struct Book {
    /// Processor identifier for multi-core parts
    pub processor_name: Option<String>,

    /// Document file path or external URL
    pub name: String,

    /// Display title for the document
    pub title: String,

    /// Publishing permission; default `true`
    pub public: Option<bool>,
}

/// Represents a [PDSC part image](https://open-cmsis-pack.github.io/Open-CMSIS-Pack-Spec/main/html/pdsc_parts_pg.html#element_part_image) element
#[derive(Debug, PartialEq, Eq, Clone, Default)]
pub struct Image {
    /// Path to the top-side part image
    pub top: String,

    /// Path to the bottom-side part image
    pub bottom: Option<String>,

    /// Path to a perspective-view part image
    pub perspective: Option<String>,

    /// Publishing permission; default `true`
    pub public: Option<bool>,
}

/// Represents a [part environment](https://open-cmsis-pack.github.io/Open-CMSIS-Pack-Spec/main/html/pdsc_parts_pg.html#element_part) entry
#[derive(Debug, PartialEq, Eq, Clone, Default)]
pub struct PartEnvironment {
    /// IDE environment name (e.g. `uvision`, `iar`, `eclipse`)
    pub name: String,

    /// Processor name for multi-core parts; limits this environment entry to one core
    pub processor_name: Option<String>,
}

/// Groups part environment entries for a [PDSC part](https://open-cmsis-pack.github.io/Open-CMSIS-Pack-Spec/main/html/pdsc_parts_pg.html#element_part)
#[derive(Debug, PartialEq, Eq, Clone, Default)]
pub struct PartEnvironments {
    /// Individual environment entries (0..*)
    pub environments: Vec<PartEnvironment>,
}

} // verus!
