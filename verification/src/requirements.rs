//! Contains the types required for the [PDSC Requirements](https://open-cmsis-pack.github.io/Open-CMSIS-Pack-Spec/main/html/element_requirements_pg.html) element
use vstd::prelude::*;


verus! {

/// Represents the [PDSC Requirements](https://open-cmsis-pack.github.io/Open-CMSIS-Pack-Spec/main/html/element_requirements_pg.html#element_requirements)
/// element
#[derive(Debug, PartialEq, Eq, Clone, Default)]
pub struct Requirements {
    /// List of software packs required for the project to build
    pub packages: Option<PackagesList>,

    /// List of compilers required for the project to build
    pub compilers: Option<CompilersList>,

    /// List of language standards required for the project to build.
    pub languages: Option<LanguagesList>,

    /// Restrict a software pack to a list of devices, boards, or processor cores.
    pub targets: Option<TargetsList>,
}

/// Wrapper type for the `packages` xml element
#[derive(Debug, PartialEq, Eq, Clone, Default)]
pub struct PackagesList {
    pub packages: Vec<Package>,
}

/// Wrapper type for the `compilers` xml element
#[derive(Debug, PartialEq, Eq, Clone, Default)]
pub struct CompilersList {
    pub compilers: Vec<Compiler>,
}

/// Wrapper type for the `languages` xml element
#[derive(Debug, PartialEq, Eq, Clone, Default)]
pub struct LanguagesList {
    pub languages: Vec<Language>,
}

/// Wrapper type for the `targets` xml element
#[derive(Debug, PartialEq, Eq, Clone, Default)]
pub struct TargetsList {
    pub targets: Vec<Target>,
}

/// Represents the [PDSC PackagesType](https://open-cmsis-pack.github.io/Open-CMSIS-Pack-Spec/main/html/element_requirements_pg.html#element_packages) element
#[derive(Debug, PartialEq, Eq, Clone, Default)]
pub struct Package {
    /// The package vendor; pattern: `RestrictedString` = `[A-Za-z0-9_\-]+`
    pub vendor: String,

    /// Name of the pack
    pub name: String,

    /// Version of the required pack; pattern: `VersionType` (e.g. `1.2.3` or `>=1.0.0`)
    pub version: Option<String>,
}

/// Represents the [PDSC CompilersType](https://open-cmsis-pack.github.io/Open-CMSIS-Pack-Spec/main/html/element_requirements_pg.html#element_compilers) element
#[derive(Debug, PartialEq, Eq, Clone, Default)]
pub struct Compiler {
    /// Name of the required compiler
    pub name: String,

    /// Version of the required compiler
    pub version: String,
}

/// Represents the [PDSC Languages](https://open-cmsis-pack.github.io/Open-CMSIS-Pack-Spec/main/html/element_requirements_pg.html#element_languages) element
#[derive(Debug, PartialEq, Eq, Clone, Default)]
pub struct Language {
    /// Name of the porgramming language, i.e. "C", "C++", "Rust"
    pub name: String,

    /// Version of the language standard
    pub version: String,
}

/// Represents the [PDSC Targets](https://open-cmsis-pack.github.io/Open-CMSIS-Pack-Spec/main/html/element_requirements_pg.html#element_targets) element
#[derive(Debug, PartialEq, Eq, Clone, Default)]
pub struct Target {
    /// The silicon vendor of the device
    pub device_vendor: Option<String>,

    /// The name of the device (wildcards possible)
    pub device_name: Option<String>,

    /// The name of the processor core
    pub device_core: Option<String>,

    /// The name of the board vendor
    pub board_vendor: Option<String>,

    /// The name of the board
    pub board_name: Option<String>,

    /// Specifies the board revision
    pub board_revision: Option<String>,
}

} // verus!
