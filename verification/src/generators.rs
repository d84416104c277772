//! Contains the types required to represent a [PDSC Generators](https://open-cmsis-pack.github.io/Open-CMSIS-Pack-Spec/main/html/pdsc_generators_pg.html) element
use vstd::prelude::*;


verus! {

/// Represents the [PDSC generators](https://open-cmsis-pack.github.io/Open-CMSIS-Pack-Spec/main/html/pdsc_generators_pg.html#element_generators) element
#[derive(Debug, PartialEq, Eq, Clone, Default)]
pub struct Generators {
    /// The list of generator tool descriptions
    pub generators: Vec<Generator>,
}

/// Represents a [PDSC generator](https://open-cmsis-pack.github.io/Open-CMSIS-Pack-Spec/main/html/pdsc_generators_pg.html#element_generator) element
#[derive(Debug, PartialEq, Eq, Clone, Default)]
pub struct Generator {
    /// Unique identifier for this generator, referenced by components via `Gname`
    pub id: String,

    /// Silicon vendor associated with the generator tool
    pub generator_vendor: Option<String>,

    /// Plain-text name of the generator tool
    pub generator_tool: Option<String>,

    /// Version of the generator tool
    pub generator_version: Option<String>,

    /// Brief description of the generator (max 256 characters)
    pub description: Option<String>,

    /// Device or variant the generator targets
    pub select: Option<Select>,

    /// Output directory for generated files; supports `$P`, `$S` substitution variables
    pub working_dir: Option<String>,

    /// Path and filename of the generated GPDSC file produced by the tool
    pub gpdsc: Option<Gpdsc>,

    /// Native executable invocation configuration
    pub exe: Option<Exe>,

    /// Eclipse plug-in invocation configuration
    pub eclipse: Option<Eclipse>,

    /// Web service invocation configuration
    pub web: Option<Web>,

    /// Generated project files that the IDE should add to the project after generation
    pub project_files: Option<ProjectFiles>,

    /// Generator tool files (executables, libraries, etc.) that ship inside the pack
    pub files: Option<Files>,

    /// Deprecated; use `exe.command` instead
    pub command: Option<String>,

    /// Deprecated; use `exe.argument` inside `exe` instead
    pub arguments: Option<GeneratorArguments>,
}

/// Represents the [PDSC select](https://open-cmsis-pack.github.io/Open-CMSIS-Pack-Spec/main/html/pdsc_generators_pg.html#element_gen_select) element
///
/// Specifies the device or device variant this generator targets.
/// Either `device_name` or `device_variant` must be present.
#[derive(Debug, PartialEq, Eq, Clone, Default)]
pub struct Select {
    /// Silicon vendor of the targeted device (e.g. `"STMicroelectronics:13"`)
    pub device_vendor: String,

    /// Device name or wildcard pattern; required if `device_variant` is absent
    pub device_name: Option<String>,

    /// Device variant; required if `device_name` is absent
    pub device_variant: Option<String>,

    /// Processor name for multi-core devices
    pub processor_name: Option<String>,
}

/// Represents the [PDSC gpdsc](https://open-cmsis-pack.github.io/Open-CMSIS-Pack-Spec/main/html/pdsc_generators_pg.html#element_gen_gpdsc) element
///
/// Identifies the GPDSC file the generator produces. Supports `$P` substitution.
#[derive(Debug, PartialEq, Eq, Clone, Default)]
pub struct Gpdsc {
    /// Path and filename of the generated GPDSC file relative to `workingDir`
    pub name: String,
}

/// Represents the [PDSC exe](https://open-cmsis-pack.github.io/Open-CMSIS-Pack-Spec/main/html/pdsc_generators_pg.html#element_gen_exe) element
///
/// Defines native executable invocation of the generator tool. Up to four
/// platform-specific `<command>` entries may be provided.
#[derive(Debug, PartialEq, Eq, Clone, Default)]
pub struct Exe {
    /// Platform-specific command lines used to invoke the generator (1..4)
    pub commands: Vec<Command>,

    /// Arguments appended to the command line
    pub arguments: Vec<Argument>,
}

/// Represents the [PDSC eclipse](https://open-cmsis-pack.github.io/Open-CMSIS-Pack-Spec/main/html/pdsc_generators_pg.html#element_gen_eclipse) element
///
/// Defines an Eclipse plug-in invocation of the generator tool.
#[derive(Debug, PartialEq, Eq, Clone, Default)]
pub struct Eclipse {
    /// Eclipse plug-in identifier (e.g. `"com.vendor.generator"`)
    pub plugin: String,

    /// Fully-qualified Java class within the plug-in to invoke
    pub class: String,

    /// Method within the class to call
    pub method: String,

    /// Arguments passed to the Eclipse plug-in method
    pub arguments: Vec<Argument>,
}

/// Represents the [PDSC web](https://open-cmsis-pack.github.io/Open-CMSIS-Pack-Spec/main/html/pdsc_generators_pg.html#element_gen_web) element
///
/// Defines a web service invocation of the generator tool.
#[derive(Debug, PartialEq, Eq, Clone, Default)]
pub struct Web {
    /// URL of the web service endpoint to invoke
    pub url: String,

    /// Query parameters or arguments passed to the web service
    pub arguments: Vec<Argument>,
}

/// Represents a [PDSC command](https://open-cmsis-pack.github.io/Open-CMSIS-Pack-Spec/main/html/pdsc_generators_pg.html#element_gen_command) element
///
/// A single platform-specific command line that invokes the generator executable.
#[derive(Debug, PartialEq, Eq, Clone, Default)]
pub struct Command {
    /// Target host platform; one of `all`, `win`, `linux`, `mac`, `other`
    pub host: Option<String>,

    /// Command line string, including path to the executable; supports substitution variables
    pub command: String,
}

/// Represents a [PDSC argument](https://open-cmsis-pack.github.io/Open-CMSIS-Pack-Spec/main/html/pdsc_generators_pg.html#element_gen_argument) element
///
/// A single argument passed to an `exe`, `eclipse`, or `web` invocation.
#[derive(Debug, PartialEq, Eq, Clone, Default)]
pub struct Argument {
    /// Invocation mode; one of `normal` (default) or `dry-run`
    pub mode: Option<String>,

    /// Target host platform (exe only); one of `all`, `win`, `linux`, `mac`, `other`
    pub host: Option<String>,

    /// Command-line switch prefix prepended to the argument value (e.g. `"--project"`)
    pub switch: Option<String>,

    /// The argument value; supports substitution variables
    pub value: String,
}

/// Wrapper for the [PDSC project_files](https://open-cmsis-pack.github.io/Open-CMSIS-Pack-Spec/main/html/pdsc_generators_pg.html#element_gen_project_files) element
///
/// Lists the files produced by the generator that the IDE should include in the project.
#[derive(Debug, PartialEq, Eq, Clone, Default)]
pub struct ProjectFiles {
    /// Generated files to add to the project after generation completes
    pub files: Vec<File>,
}

/// Wrapper for the [PDSC files](https://open-cmsis-pack.github.io/Open-CMSIS-Pack-Spec/main/html/pdsc_generators_pg.html#element_gen_files) element
///
/// Lists generator tool files (executables, libraries, scripts) that ship inside the pack.
#[derive(Debug, PartialEq, Eq, Clone, Default)]
pub struct Files {
    /// Generator tool files included in the pack
    pub files: Vec<File>,
}

/// Represents a [PDSC file](https://open-cmsis-pack.github.io/Open-CMSIS-Pack-Spec/main/html/pdsc_generators_pg.html#element_gen_file) entry in [`ProjectFiles`] or [`Files`]
#[derive(Debug, PartialEq, Eq, Clone, Default)]
pub struct File {
    /// File path relative to the pack base directory; supports substitution variables
    pub name: String,

    /// File category (e.g. `sourceC`, `sourceAsm`, `header`, `library`, `other`)
    pub category: String,

    /// Condition identifier that controls when this file is included
    pub condition: Option<String>,

    /// Version of the file
    pub version: Option<String>,
}

/// Deprecated arguments wrapper; use `exe.argument` instead
#[derive(Debug, PartialEq, Eq, Clone, Default)]
pub struct GeneratorArguments {
    /// Individual argument strings (0..*)
    pub argument: Vec<String>,
}

} // verus!
