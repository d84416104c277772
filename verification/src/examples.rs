//! Contains the types required to represent a [PDSC Examples](https://open-cmsis-pack.github.io/Open-CMSIS-Pack-Spec/main/html/pdsc_examples_pg.html#element_examples) element
use vstd::prelude::*;


verus! {

/// Represents the [PDSC examples](https://open-cmsis-pack.github.io/Open-CMSIS-Pack-Spec/main/html/pdsc_examples_pg.html#element_examples) element
///
/// Groups all example projects published by a pack.
#[derive(Debug, PartialEq)]
pub struct Examples {
    /// Example project definitions (1..*)
    pub examples: Vec<Example>,
}

/// Represents a [PDSC example](https://open-cmsis-pack.github.io/Open-CMSIS-Pack-Spec/main/html/pdsc_examples_pg.html#element_example) element
///
/// Defines a single example project, its boards, tool environments, and classification attributes.
#[derive(Debug, PartialEq)]
pub struct Example {
    /// Short example identifier
    pub name: String,

    /// Path to the example folder relative to the pack root
    pub folder: String,

    /// Archive filename containing the example files
    pub archive: Option<String>,

    /// Path to the example documentation file
    pub doc: String,

    /// Example version
    pub version: Option<String>,

    /// Publishing permission; default `true`
    pub public: Option<bool>,

    /// Brief description of the example
    pub description: String,

    /// Target boards for this example (0..*)
    pub boards: Vec<ExampleBoard>,

    /// IDE/tool project files for this example
    pub project: ExampleProject,

    /// Classification attributes for discovery and filtering
    pub attributes: Option<ExampleAttributes>,
}

/// Represents an [example board reference](https://open-cmsis-pack.github.io/Open-CMSIS-Pack-Spec/main/html/pdsc_examples_pg.html#element_example_board)
///
/// Identifies a development board on which the example has been tested.
#[derive(Debug, PartialEq)]
pub struct ExampleBoard {
    /// Board vendor name
    pub vendor: String,

    /// Commercial board name
    pub name: String,

    /// Device vendor (deprecated since v1.1; prefer board's mounted device)
    pub device_vendor: Option<String>,

    /// Device family (deprecated since v1.1)
    pub device_family: Option<String>,

    /// Device sub-family (deprecated since v1.1)
    pub device_sub_family: Option<String>,

    /// Device name (deprecated since v1.1)
    pub device_name: Option<String>,
}

/// Represents the [example project](https://open-cmsis-pack.github.io/Open-CMSIS-Pack-Spec/main/html/pdsc_examples_pg.html#element_example_project) element
///
/// Groups the tool-specific environment entries for this example.
#[derive(Debug, PartialEq)]
pub struct ExampleProject {
    /// Tool environment entries (1..*)
    pub environments: Vec<ExampleEnvironment>,
}

/// Represents an [example project environment](https://open-cmsis-pack.github.io/Open-CMSIS-Pack-Spec/main/html/pdsc_examples_pg.html#element_example_project_env) entry
///
/// Identifies the project file and optional subfolder for a specific development tool
/// (e.g. `uv`, `iar`, `csolution`).
#[derive(Debug, PartialEq)]
pub struct ExampleEnvironment {
    /// Development tool identifier (e.g. `uv`, `iar`, `csolution`)
    pub name: String,

    /// Project file path with extension, relative to the example folder
    pub load: String,

    /// Subdirectory containing tool-specific files, relative to the example folder
    pub folder: Option<String>,
}

/// Represents the [example attributes](https://open-cmsis-pack.github.io/Open-CMSIS-Pack-Spec/main/html/pdsc_examples_pg.html#element_example_attributes) element
///
/// Classification metadata used for example discovery and filtering.
#[derive(Debug, PartialEq)]
pub struct ExampleAttributes {
    /// Free-form category labels (0..*)
    pub categories: Vec<String>,

    /// Component dependencies or tags (0..*)
    pub components: Vec<ExampleComponent>,

    /// Search keywords (0..*)
    pub keywords: Vec<String>,
}

/// Represents a [component attribute](https://open-cmsis-pack.github.io/Open-CMSIS-Pack-Spec/main/html/pdsc_examples_pg.html#element_example_attribute_component) entry
///
/// Tags the example with a component class, group, and optional version for filtering.
#[derive(Debug, PartialEq)]
pub struct ExampleComponent {
    /// Component class
    pub class: String,

    /// Component group
    pub group: Option<String>,

    /// Component sub-group
    pub sub: Option<String>,

    /// Component version
    pub version: Option<String>,

    /// Component vendor
    pub vendor: Option<String>,
}

} // verus!
