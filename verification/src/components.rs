//! Contains the types required to represent a [PDSC Components](https://open-cmsis-pack.github.io/Open-CMSIS-Pack-Spec/main/html/pdsc_components_pg.html#element_components) element
use vstd::prelude::*;


verus! {

/// Represents the [PDSC components](https://open-cmsis-pack.github.io/Open-CMSIS-Pack-Spec/main/html/pdsc_components_pg.html#element_components) element
///
/// Groups all software bundles and standalone components published by a pack.
#[derive(Debug, PartialEq, Eq, Clone, Default)]
pub struct Components {
    /// Generator ID applied to all enclosed components when set
    pub generator: Option<String>,

    /// Component bundle definitions (0..*)
    pub bundles: Vec<Bundle>,

    /// Standalone component definitions (0..*)
    pub components: Vec<Component>,
}

/// Represents a [bundle](https://open-cmsis-pack.github.io/Open-CMSIS-Pack-Spec/main/html/pdsc_components_pg.html#element_bundle) element
///
/// Groups a set of interdependent components under a shared class, version, and name.
/// The `Cclass` and `Cversion` attributes are inherited by all enclosed components.
#[derive(Debug, PartialEq, Eq, Clone, Default)]
pub struct Bundle {
    /// Bundle name; becomes part of each enclosed component's ID
    pub bundle: String,

    /// Component vendor; derives from package vendor if omitted
    pub vendor: Option<String>,

    /// Component class shared by all enclosed components
    pub class: String,

    /// Version shared by all enclosed components unless individually overridden
    pub version: String,

    /// References a `licenseSet` identifier governing usage rights
    pub license_set: Option<String>,

    /// References a changelog ID with the bundle change history
    pub changelog: Option<String>,

    /// Brief description of the bundle (max 256 characters)
    pub description: String,

    /// Path to the bundle documentation file relative to the pack root
    pub doc: String,

    /// Components enclosed in this bundle (1..*)
    pub components: Vec<Component>,
}

/// Represents a [component](https://open-cmsis-pack.github.io/Open-CMSIS-Pack-Spec/main/html/pdsc_components_pg.html#element_component) element
///
/// Defines a single software component. Used for both top-level components and components
/// nested inside a bundle. When inside a bundle, `class` and `version` are absent (inherited).
#[derive(Debug, PartialEq, Eq, Clone, Default)]
pub struct Component {
    /// Component vendor; derives from package vendor if omitted
    pub vendor: Option<String>,

    /// Component class; absent when nested in a bundle (inherited)
    pub class: Option<String>,

    /// Component group
    pub group: String,

    /// Component sub-group (3–32 characters)
    pub sub: Option<String>,

    /// Variant name (e.g. `release`, `debug`); mutually exclusive with other variants
    pub variant: Option<String>,

    /// Component version; absent when nested in a bundle unless overriding
    pub version: Option<String>,

    /// API version consumed by this component
    pub api_version: Option<String>,

    /// References a condition ID; component is included only if the condition is met
    pub condition: Option<String>,

    /// If `true`, suppresses the automatic resolver; component requires manual selection
    pub custom: Option<bool>,

    /// Number of simultaneous instances allowed (1–10); default is 1
    pub max_instances: Option<u32>,

    /// Marks this variant as the preferred choice for automated updates
    pub is_default_variant: Option<bool>,

    /// Links to a `<generator>` entry in the same pack
    pub generator: Option<String>,

    /// References a `licenseSet` identifier governing usage rights
    pub license_set: Option<String>,

    /// User-facing visibility (`always`, `never`, `maskable`); default is `always`
    pub view: Option<String>,

    /// References a changelog ID with the component change history
    pub changelog: Option<String>,

    /// Marks the component as deprecated; deprecated components should not be used in new designs
    pub deprecated: Option<bool>,

    /// Brief description of the component (max 256 characters)
    pub description: String,

    /// C preprocessor definitions injected verbatim into `RTE_Components.h`
    pub rte_components_h: Option<String>,

    /// Content pre-included globally for all project modules via `Pre_Include_Global.h`
    pub pre_include_global_h: Option<String>,

    /// Content pre-included for this component's modules only via `Pre_Include_<Cclass>_<component>.h`
    pub pre_include_local_component_h: Option<String>,

    /// Source and header files that implement this component
    pub files: ComponentFiles,

    /// Key/value metadata extensions for toolchain or IDE integration
    pub extensions: ComponentExtensions,

    /// IDE-specific tool integration environments (0..1)
    pub environments: Option<ComponentEnvironments>,
}

/// Represents the [files](https://open-cmsis-pack.github.io/Open-CMSIS-Pack-Spec/main/html/pdsc_components_pg.html#element_files) grouping element inside a component
#[derive(Debug, PartialEq, Eq, Clone, Default)]
pub struct ComponentFiles {
    /// Individual file entries (1..*)
    pub files: Vec<ComponentFile>,
}

/// Represents a [file](https://open-cmsis-pack.github.io/Open-CMSIS-Pack-Spec/main/html/pdsc_components_pg.html#element_file) entry within a component
///
/// Attributes follow the PDSC `FileType` definition shared across components and APIs.
#[derive(Debug, PartialEq, Eq, Clone, Default)]
pub struct ComponentFile {
    /// File path relative to the pack root; may be a URL for `category="doc"`
    pub name: String,

    /// File category (e.g. `header`, `sourceC`, `doc`, `library`)
    pub category: String,

    /// Special handling: `config` (copied to project, user-editable) or `template`
    pub attr: Option<String>,

    /// References a condition ID; file included only when condition evaluates true
    pub condition: Option<String>,

    /// File-specific version; component version used if omitted
    pub version: Option<String>,

    /// Description/purpose required when `attr="template"`; groups template options
    pub select: Option<String>,

    /// Source path relative to PDSC; semicolon-separated list for libraries
    pub src: Option<String>,

    /// For `category="header"`: an incomplete include path for project-relative includes
    pub path: Option<String>,

    /// Target compiler/assembler (`c`, `cpp`, `c-cpp`, `asm`, `link`); inferred from extension if absent
    pub language: Option<String>,

    /// Header visibility (`public` or `private`); default is `public`
    pub scope: Option<String>,

    /// Publishing permission; default `true`
    pub public: Option<bool>,

    /// IDE project explorer location override
    pub projectpath: Option<String>,
}

/// Represents the [extensions](https://open-cmsis-pack.github.io/Open-CMSIS-Pack-Spec/main/html/pdsc_components_pg.html#element_extensions) grouping element inside a component
#[derive(Debug, PartialEq, Eq, Clone, Default)]
pub struct ComponentExtensions {
    /// Key/value extension entries (1..*)
    pub extensions: Vec<ComponentExtension>,
}

/// Represents an [extension](https://open-cmsis-pack.github.io/Open-CMSIS-Pack-Spec/main/html/pdsc_components_pg.html#element_extension) entry within the extensions group
///
/// Provides arbitrary key/value metadata for toolchain or IDE integration.
#[derive(Debug, PartialEq, Eq, Clone, Default)]
pub struct ComponentExtension {
    /// Extension identifier; unique within the component
    pub key: String,

    /// Value associated with the key
    pub value: Option<String>,
}

/// Represents the [environments](https://open-cmsis-pack.github.io/Open-CMSIS-Pack-Spec/main/html/pdsc_components_pg.html#element_component_environments) grouping element inside a component
#[derive(Debug, PartialEq, Eq, Clone, Default)]
pub struct ComponentEnvironments {
    /// Tool environment entries (1..*)
    pub environments: Vec<ComponentEnvironment>,
}

/// Represents a [component environment](https://open-cmsis-pack.github.io/Open-CMSIS-Pack-Spec/main/html/pdsc_components_pg.html#element_component_environment) entry
///
/// Identifies a specific development tool (e.g. `uv`, `iar`). Tool-specific child
/// elements (often namespace-qualified) are silently ignored by the parser.
#[derive(Debug, PartialEq, Eq, Clone, Default)]
pub struct ComponentEnvironment {
    /// Development tool identifier
    pub name: String,

    /// Processor selector for multi-core devices
    pub processor_name: Option<String>,
}

} // verus!
