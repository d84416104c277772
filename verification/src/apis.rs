//! Contains the types required to represent a [PDSC APIs](https://open-cmsis-pack.github.io/Open-CMSIS-Pack-Spec/main/html/pdsc_apis_pg.html#element_apis) element
use vstd::prelude::*;


verus! {

/// Represents the [PDSC apis](https://open-cmsis-pack.github.io/Open-CMSIS-Pack-Spec/main/html/pdsc_apis_pg.html#element_apis) element
///
/// Groups all API definitions published by a pack. At most one `<apis>` section may exist per package.
#[derive(Debug, PartialEq, Eq, Clone, Default)]
pub struct Apis {
    /// API definitions (1..*)
    pub apis: Vec<Api>,
}

/// Represents a [PDSC api](https://open-cmsis-pack.github.io/Open-CMSIS-Pack-Spec/main/html/pdsc_apis_pg.html#element_api) element
///
/// Defines a software API identified by a component class, group, and optional version.
#[derive(Debug, PartialEq, Eq, Clone, Default)]
pub struct Api {
    /// Component class identifier
    pub class: String,

    /// Component group identifier
    pub group: String,

    /// API version; part of the API ID when present
    pub api_version: Option<String>,

    /// If `false`, multiple implementations of the API may coexist; default is `true`
    pub exclusive: Option<bool>,

    /// References a condition ID; this API applies only if the condition is met
    pub condition: Option<String>,

    /// References a `licenseSet` identifier governing usage rights
    pub license_set: Option<String>,

    /// References a changelog ID with the API change history
    pub changelog: Option<String>,

    /// Brief description of the API (max 256 characters)
    pub description: Option<String>,

    /// Header and documentation files that define the API interface
    pub files: Option<ApiFiles>,
}

/// Represents the `<files>` grouping element inside a [PDSC api](https://open-cmsis-pack.github.io/Open-CMSIS-Pack-Spec/main/html/pdsc_apis_pg.html#element_api)
#[derive(Debug, PartialEq, Eq, Clone, Default)]
pub struct ApiFiles {
    /// Individual file entries (1..*)
    pub files: Vec<ApiFile>,
}

/// Represents a `<file>` entry within the API files group
///
/// Attributes follow the [PDSC FileType](https://open-cmsis-pack.github.io/Open-CMSIS-Pack-Spec/main/html/pdsc_components_pg.html#element_file) definition.
#[derive(Debug, PartialEq, Eq, Clone, Default)]
pub struct ApiFile {
    /// File path relative to the pack root
    pub name: String,

    /// File category (e.g. `header`, `include`, `doc`, `sourceC`)
    pub category: String,

    /// File attribute (e.g. `config`, `template`)
    pub attr: Option<String>,

    /// References a condition ID; file is included only if condition is met
    pub condition: Option<String>,

    /// File version
    pub version: Option<String>,

    /// Selection string used when multiple template files are offered
    pub select: Option<String>,

    /// Source file for generated or templated files
    pub src: Option<String>,

    /// Alternate path for the file
    pub path: Option<String>,

    /// Programming language associated with the file
    pub language: Option<String>,

    /// Scope of the file within the project
    pub scope: Option<String>,

    /// Publishing permission; default `true`
    pub public: Option<bool>,

    /// Project-relative path override for the file
    pub projectpath: Option<String>,
}

} // verus!
