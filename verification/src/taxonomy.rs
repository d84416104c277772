//! Contains the types required to represent a [PDSC Taxonomy](https://open-cmsis-pack.github.io/Open-CMSIS-Pack-Spec/main/html/element_taxonomy.html#element_taxonomy) element
use vstd::prelude::*;

use crate::text::str_eq;


verus! {

/// Represents the [PDSC taxonomy](https://open-cmsis-pack.github.io/Open-CMSIS-Pack-Spec/main/html/element_taxonomy.html#element_taxonomy) element
///
/// Groups `description` entries that define the component classes and group names used in a pack.
#[derive(Debug, PartialEq, Eq, Clone, Default)]
pub struct Taxonomy {
    /// Component class and group descriptions (1..*)
    pub descriptions: Vec<TaxonomyDescription>,
}

/// Represents a [PDSC taxonomy description](https://open-cmsis-pack.github.io/Open-CMSIS-Pack-Spec/main/html/element_taxonomy.html#element_taxonomyDescription) entry
///
/// Defines a component class or a class-and-group combination used to categorise components.
#[derive(Debug, PartialEq, Eq, Clone, Default)]
pub struct TaxonomyDescription {
    /// Component class name (e.g. `Device`, `CMSIS`, `Board Support`)
    pub class: String,

    /// Component group name within the class
    pub group: Option<String>,

    /// Path or URL to documentation for this class/group
    pub doc: Option<String>,

    /// Generator identifier associated with this class/group
    pub generator: Option<String>,

    /// Publishing permission; default `true`
    pub public: Option<bool>,

    /// Human-readable description of the component class or group; empty string if absent
    pub content: String,
}

/// Predefined component class names per
/// [CclassType](https://open-cmsis-pack.github.io/Open-CMSIS-Pack-Spec/main/html/element_taxonomy.html#CclassType)
#[derive(Debug, PartialEq, Eq, Clone)]
pub enum CclassType {
    Audio,
    BoardSupport,
    BoardPart,
    Compiler,
    /// "CMSIS"
    Cmsis,
    /// "CMSIS Driver"
    CmsisDriver,
    Device,
    DataExchange,
    ExtensionBoard,
    FileSystem,
    Graphics,
    /// "IoT Client"
    IotClient,
    /// "IoT Utility"
    IotUtility,
    Network,
    /// "RTOS"
    Rtos,
    Security,
    /// "USB"
    Usb,
    Utility,
}

/// Predefined component group names per
/// [CgroupType](https://open-cmsis-pack.github.io/Open-CMSIS-Pack-Spec/main/html/element_taxonomy.html#CgroupType)
#[derive(Debug, PartialEq, Eq, Clone)]
pub enum CgroupType {
    /// "CORE"
    Core,
    /// "DSP"
    Dsp,
    /// "NN Lib"
    NnLib,
    /// "RTOS"
    Rtos,
    /// "RTOS2"
    Rtos2,
    Startup,
}

/// The name of a predefined component class, as the schema writes it.
pub open spec fn cclass_type_name(c: CclassType) -> Seq<char> {
    match c {
        CclassType::Audio => "Audio"@,
        CclassType::BoardSupport => "Board Support"@,
        CclassType::BoardPart => "Board Part"@,
        CclassType::Compiler => "Compiler"@,
        CclassType::Cmsis => "CMSIS"@,
        CclassType::CmsisDriver => "CMSIS Driver"@,
        CclassType::Device => "Device"@,
        CclassType::DataExchange => "Data Exchange"@,
        CclassType::ExtensionBoard => "Extension Board"@,
        CclassType::FileSystem => "File System"@,
        CclassType::Graphics => "Graphics"@,
        CclassType::IotClient => "IoT Client"@,
        CclassType::IotUtility => "IoT Utility"@,
        CclassType::Network => "Network"@,
        CclassType::Rtos => "RTOS"@,
        CclassType::Security => "Security"@,
        CclassType::Usb => "USB"@,
        CclassType::Utility => "Utility"@,
    }
}

impl CclassType {
    /// The predefined component class called `s`; `Err(())` when `s` names none.
    pub fn from_name(s: &str) -> (r: Result<CclassType, ()>)
        ensures
            match r {
                Ok(c) => cclass_type_name(c) == s@,
                Err(()) => forall|c: CclassType| #[trigger] cclass_type_name(c) != s@,
            },
    {
        if str_eq(s, "Audio") {
            Ok(CclassType::Audio)
        } else if str_eq(s, "Board Support") {
            Ok(CclassType::BoardSupport)
        } else if str_eq(s, "Board Part") {
            Ok(CclassType::BoardPart)
        } else if str_eq(s, "Compiler") {
            Ok(CclassType::Compiler)
        } else if str_eq(s, "CMSIS") {
            Ok(CclassType::Cmsis)
        } else if str_eq(s, "CMSIS Driver") {
            Ok(CclassType::CmsisDriver)
        } else if str_eq(s, "Device") {
            Ok(CclassType::Device)
        } else if str_eq(s, "Data Exchange") {
            Ok(CclassType::DataExchange)
        } else if str_eq(s, "Extension Board") {
            Ok(CclassType::ExtensionBoard)
        } else if str_eq(s, "File System") {
            Ok(CclassType::FileSystem)
        } else if str_eq(s, "Graphics") {
            Ok(CclassType::Graphics)
        } else if str_eq(s, "IoT Client") {
            Ok(CclassType::IotClient)
        } else if str_eq(s, "IoT Utility") {
            Ok(CclassType::IotUtility)
        } else if str_eq(s, "Network") {
            Ok(CclassType::Network)
        } else if str_eq(s, "RTOS") {
            Ok(CclassType::Rtos)
        } else if str_eq(s, "Security") {
            Ok(CclassType::Security)
        } else if str_eq(s, "USB") {
            Ok(CclassType::Usb)
        } else if str_eq(s, "Utility") {
            Ok(CclassType::Utility)
        } else {
            Err(())
        }
    }
}

impl<'a> TryFrom<&'a str> for CclassType {
    type Error = ();

    fn try_from(s: &'a str) -> (r: Result<CclassType, ()>)
        ensures
            match r {
                Ok(c) => cclass_type_name(c) == s@,
                Err(()) => forall|c: CclassType| #[trigger] cclass_type_name(c) != s@,
            },
    {
        CclassType::from_name(s)
    }
}

impl<'a> vstd::std_specs::convert::TryFromSpecImpl<&'a str> for CclassType {
    open spec fn obeys_try_from_spec() -> bool {
        false
    }

    open spec fn try_from_spec(s: &'a str) -> Result<CclassType, ()> {
        Err(())
    }
}

impl TryFrom<String> for CclassType {
    type Error = ();

    fn try_from(s: String) -> (r: Result<CclassType, ()>)
        ensures
            match r {
                Ok(c) => cclass_type_name(c) == s@,
                Err(()) => forall|c: CclassType| #[trigger] cclass_type_name(c) != s@,
            },
    {
        CclassType::from_name(s.as_str())
    }
}

impl vstd::std_specs::convert::TryFromSpecImpl<String> for CclassType {
    open spec fn obeys_try_from_spec() -> bool {
        false
    }

    open spec fn try_from_spec(s: String) -> Result<CclassType, ()> {
        Err(())
    }
}

/// The name of a predefined component group, as the schema writes it.
pub open spec fn cgroup_type_name(c: CgroupType) -> Seq<char> {
    match c {
        CgroupType::Core => "CORE"@,
        CgroupType::Dsp => "DSP"@,
        CgroupType::NnLib => "NN Lib"@,
        CgroupType::Rtos => "RTOS"@,
        CgroupType::Rtos2 => "RTOS2"@,
        CgroupType::Startup => "Startup"@,
    }
}

impl CgroupType {
    /// The predefined component group called `s`; `Err(())` when `s` names none.
    pub fn from_name(s: &str) -> (r: Result<CgroupType, ()>)
        ensures
            match r {
                Ok(c) => cgroup_type_name(c) == s@,
                Err(()) => forall|c: CgroupType| #[trigger] cgroup_type_name(c) != s@,
            },
    {
        if str_eq(s, "CORE") {
            Ok(CgroupType::Core)
        } else if str_eq(s, "DSP") {
            Ok(CgroupType::Dsp)
        } else if str_eq(s, "NN Lib") {
            Ok(CgroupType::NnLib)
        } else if str_eq(s, "RTOS") {
            Ok(CgroupType::Rtos)
        } else if str_eq(s, "RTOS2") {
            Ok(CgroupType::Rtos2)
        } else if str_eq(s, "Startup") {
            Ok(CgroupType::Startup)
        } else {
            Err(())
        }
    }
}

impl<'a> TryFrom<&'a str> for CgroupType {
    type Error = ();

    fn try_from(s: &'a str) -> (r: Result<CgroupType, ()>)
        ensures
            match r {
                Ok(c) => cgroup_type_name(c) == s@,
                Err(()) => forall|c: CgroupType| #[trigger] cgroup_type_name(c) != s@,
            },
    {
        CgroupType::from_name(s)
    }
}

impl<'a> vstd::std_specs::convert::TryFromSpecImpl<&'a str> for CgroupType {
    open spec fn obeys_try_from_spec() -> bool {
        false
    }

    open spec fn try_from_spec(s: &'a str) -> Result<CgroupType, ()> {
        Err(())
    }
}

impl TryFrom<String> for CgroupType {
    type Error = ();

    fn try_from(s: String) -> (r: Result<CgroupType, ()>)
        ensures
            match r {
                Ok(c) => cgroup_type_name(c) == s@,
                Err(()) => forall|c: CgroupType| #[trigger] cgroup_type_name(c) != s@,
            },
    {
        CgroupType::from_name(s.as_str())
    }
}

impl vstd::std_specs::convert::TryFromSpecImpl<String> for CgroupType {
    open spec fn obeys_try_from_spec() -> bool {
        false
    }

    open spec fn try_from_spec(s: String) -> Result<CgroupType, ()> {
        Err(())
    }
}

/// The predefined component class named `s`, if there is one.
pub open spec fn cclass_named(s: Seq<char>) -> Option<CclassType> {
    if s == "Audio"@ {
        Some(CclassType::Audio)
    } else if s == "Board Support"@ {
        Some(CclassType::BoardSupport)
    } else if s == "Board Part"@ {
        Some(CclassType::BoardPart)
    } else if s == "Compiler"@ {
        Some(CclassType::Compiler)
    } else if s == "CMSIS"@ {
        Some(CclassType::Cmsis)
    } else if s == "CMSIS Driver"@ {
        Some(CclassType::CmsisDriver)
    } else if s == "Device"@ {
        Some(CclassType::Device)
    } else if s == "Data Exchange"@ {
        Some(CclassType::DataExchange)
    } else if s == "Extension Board"@ {
        Some(CclassType::ExtensionBoard)
    } else if s == "File System"@ {
        Some(CclassType::FileSystem)
    } else if s == "Graphics"@ {
        Some(CclassType::Graphics)
    } else if s == "IoT Client"@ {
        Some(CclassType::IotClient)
    } else if s == "IoT Utility"@ {
        Some(CclassType::IotUtility)
    } else if s == "Network"@ {
        Some(CclassType::Network)
    } else if s == "RTOS"@ {
        Some(CclassType::Rtos)
    } else if s == "Security"@ {
        Some(CclassType::Security)
    } else if s == "USB"@ {
        Some(CclassType::Usb)
    } else if s == "Utility"@ {
        Some(CclassType::Utility)
    } else {
        None
    }
}

/// Each predefined component class is the one its name names.
pub proof fn lemma_cclass_named(c: CclassType)
    ensures
        cclass_named(cclass_type_name(c)) == Some(c),
{
    // Each name's length, and the characters that tell it from the names
    // of the same length.
    reveal_strlit("Audio");
    assert({
        &&& "Audio"@.len() == 5
        &&& "Audio"@[0] == 'A'
    });
    reveal_strlit("Board Support");
    assert({
        &&& "Board Support"@.len() == 13
        &&& "Board Support"@[0] == 'B'
    });
    reveal_strlit("Board Part");
    assert({
        &&& "Board Part"@.len() == 10
        &&& "Board Part"@[0] == 'B'
    });
    reveal_strlit("Compiler");
    assert({
        &&& "Compiler"@.len() == 8
        &&& "Compiler"@[0] == 'C'
    });
    reveal_strlit("CMSIS");
    assert({
        &&& "CMSIS"@.len() == 5
        &&& "CMSIS"@[0] == 'C'
    });
    reveal_strlit("CMSIS Driver");
    assert("CMSIS Driver"@.len() == 12);
    reveal_strlit("Device");
    assert("Device"@.len() == 6);
    reveal_strlit("Data Exchange");
    assert({
        &&& "Data Exchange"@.len() == 13
        &&& "Data Exchange"@[0] == 'D'
    });
    reveal_strlit("Extension Board");
    assert("Extension Board"@.len() == 15);
    reveal_strlit("File System");
    assert({
        &&& "File System"@.len() == 11
        &&& "File System"@[0] == 'F'
    });
    reveal_strlit("Graphics");
    assert({
        &&& "Graphics"@.len() == 8
        &&& "Graphics"@[0] == 'G'
    });
    reveal_strlit("IoT Client");
    assert({
        &&& "IoT Client"@.len() == 10
        &&& "IoT Client"@[0] == 'I'
    });
    reveal_strlit("IoT Utility");
    assert({
        &&& "IoT Utility"@.len() == 11
        &&& "IoT Utility"@[0] == 'I'
    });
    reveal_strlit("Network");
    assert({
        &&& "Network"@.len() == 7
        &&& "Network"@[0] == 'N'
    });
    reveal_strlit("RTOS");
    assert("RTOS"@.len() == 4);
    reveal_strlit("Security");
    assert({
        &&& "Security"@.len() == 8
        &&& "Security"@[0] == 'S'
    });
    reveal_strlit("USB");
    assert("USB"@.len() == 3);
    reveal_strlit("Utility");
    assert({
        &&& "Utility"@.len() == 7
        &&& "Utility"@[0] == 'U'
    });
    match c {
        CclassType::Audio => {},
        CclassType::BoardSupport => {},
        CclassType::BoardPart => {},
        CclassType::Compiler => {},
        CclassType::Cmsis => {},
        CclassType::CmsisDriver => {},
        CclassType::Device => {},
        CclassType::DataExchange => {},
        CclassType::ExtensionBoard => {},
        CclassType::FileSystem => {},
        CclassType::Graphics => {},
        CclassType::IotClient => {},
        CclassType::IotUtility => {},
        CclassType::Network => {},
        CclassType::Rtos => {},
        CclassType::Security => {},
        CclassType::Usb => {},
        CclassType::Utility => {},
    }
}

/// No two predefined component classs share a name: the names are one-to-one, so
/// a component class read by name is the only one with that name.
pub proof fn lemma_cclass_names_distinct(a: CclassType, b: CclassType)
    requires
        cclass_type_name(a) == cclass_type_name(b),
    ensures
        a == b,
{
    lemma_cclass_named(a);
    lemma_cclass_named(b);
}

/// The predefined component group named `s`, if there is one.
pub open spec fn cgroup_named(s: Seq<char>) -> Option<CgroupType> {
    if s == "CORE"@ {
        Some(CgroupType::Core)
    } else if s == "DSP"@ {
        Some(CgroupType::Dsp)
    } else if s == "NN Lib"@ {
        Some(CgroupType::NnLib)
    } else if s == "RTOS"@ {
        Some(CgroupType::Rtos)
    } else if s == "RTOS2"@ {
        Some(CgroupType::Rtos2)
    } else if s == "Startup"@ {
        Some(CgroupType::Startup)
    } else {
        None
    }
}

/// Each predefined component group is the one its name names.
pub proof fn lemma_cgroup_named(c: CgroupType)
    ensures
        cgroup_named(cgroup_type_name(c)) == Some(c),
{
    // Each name's length, and the characters that tell it from the names
    // of the same length.
    reveal_strlit("CORE");
    assert({
        &&& "CORE"@.len() == 4
        &&& "CORE"@[0] == 'C'
    });
    reveal_strlit("DSP");
    assert("DSP"@.len() == 3);
    reveal_strlit("NN Lib");
    assert("NN Lib"@.len() == 6);
    reveal_strlit("RTOS");
    assert({
        &&& "RTOS"@.len() == 4
        &&& "RTOS"@[0] == 'R'
    });
    reveal_strlit("RTOS2");
    assert("RTOS2"@.len() == 5);
    reveal_strlit("Startup");
    assert("Startup"@.len() == 7);
    match c {
        CgroupType::Core => {},
        CgroupType::Dsp => {},
        CgroupType::NnLib => {},
        CgroupType::Rtos => {},
        CgroupType::Rtos2 => {},
        CgroupType::Startup => {},
    }
}

/// No two predefined component groups share a name: the names are one-to-one, so
/// a component group read by name is the only one with that name.
pub proof fn lemma_cgroup_names_distinct(a: CgroupType, b: CgroupType)
    requires
        cgroup_type_name(a) == cgroup_type_name(b),
    ensures
        a == b,
{
    lemma_cgroup_named(a);
    lemma_cgroup_named(b);
}

/// Each predefined component class has the name that the schema gives it, written out
/// here name by name, and reading that name gives it back.
pub proof fn lemma_cclass_schema_names()
    ensures
        cclass_type_name(CclassType::Audio) == "Audio"@,
        cclass_type_name(CclassType::BoardSupport) == "Board Support"@,
        cclass_type_name(CclassType::BoardPart) == "Board Part"@,
        cclass_type_name(CclassType::Compiler) == "Compiler"@,
        cclass_type_name(CclassType::Cmsis) == "CMSIS"@,
        cclass_type_name(CclassType::CmsisDriver) == "CMSIS Driver"@,
        cclass_type_name(CclassType::Device) == "Device"@,
        cclass_type_name(CclassType::DataExchange) == "Data Exchange"@,
        cclass_type_name(CclassType::ExtensionBoard) == "Extension Board"@,
        cclass_type_name(CclassType::FileSystem) == "File System"@,
        cclass_type_name(CclassType::Graphics) == "Graphics"@,
        cclass_type_name(CclassType::IotClient) == "IoT Client"@,
        cclass_type_name(CclassType::IotUtility) == "IoT Utility"@,
        cclass_type_name(CclassType::Network) == "Network"@,
        cclass_type_name(CclassType::Rtos) == "RTOS"@,
        cclass_type_name(CclassType::Security) == "Security"@,
        cclass_type_name(CclassType::Usb) == "USB"@,
        cclass_type_name(CclassType::Utility) == "Utility"@,
        cclass_named("Audio"@) == Some(CclassType::Audio),
        cclass_named("Board Support"@) == Some(CclassType::BoardSupport),
        cclass_named("Board Part"@) == Some(CclassType::BoardPart),
        cclass_named("Compiler"@) == Some(CclassType::Compiler),
        cclass_named("CMSIS"@) == Some(CclassType::Cmsis),
        cclass_named("CMSIS Driver"@) == Some(CclassType::CmsisDriver),
        cclass_named("Device"@) == Some(CclassType::Device),
        cclass_named("Data Exchange"@) == Some(CclassType::DataExchange),
        cclass_named("Extension Board"@) == Some(CclassType::ExtensionBoard),
        cclass_named("File System"@) == Some(CclassType::FileSystem),
        cclass_named("Graphics"@) == Some(CclassType::Graphics),
        cclass_named("IoT Client"@) == Some(CclassType::IotClient),
        cclass_named("IoT Utility"@) == Some(CclassType::IotUtility),
        cclass_named("Network"@) == Some(CclassType::Network),
        cclass_named("RTOS"@) == Some(CclassType::Rtos),
        cclass_named("Security"@) == Some(CclassType::Security),
        cclass_named("USB"@) == Some(CclassType::Usb),
        cclass_named("Utility"@) == Some(CclassType::Utility),
{
    lemma_cclass_named(CclassType::Audio);
    lemma_cclass_named(CclassType::BoardSupport);
    lemma_cclass_named(CclassType::BoardPart);
    lemma_cclass_named(CclassType::Compiler);
    lemma_cclass_named(CclassType::Cmsis);
    lemma_cclass_named(CclassType::CmsisDriver);
    lemma_cclass_named(CclassType::Device);
    lemma_cclass_named(CclassType::DataExchange);
    lemma_cclass_named(CclassType::ExtensionBoard);
    lemma_cclass_named(CclassType::FileSystem);
    lemma_cclass_named(CclassType::Graphics);
    lemma_cclass_named(CclassType::IotClient);
    lemma_cclass_named(CclassType::IotUtility);
    lemma_cclass_named(CclassType::Network);
    lemma_cclass_named(CclassType::Rtos);
    lemma_cclass_named(CclassType::Security);
    lemma_cclass_named(CclassType::Usb);
    lemma_cclass_named(CclassType::Utility);
}

/// Each predefined component group has the name that the schema gives it, written out
/// here name by name, and reading that name gives it back.
pub proof fn lemma_cgroup_schema_names()
    ensures
        cgroup_type_name(CgroupType::Core) == "CORE"@,
        cgroup_type_name(CgroupType::Dsp) == "DSP"@,
        cgroup_type_name(CgroupType::NnLib) == "NN Lib"@,
        cgroup_type_name(CgroupType::Rtos) == "RTOS"@,
        cgroup_type_name(CgroupType::Rtos2) == "RTOS2"@,
        cgroup_type_name(CgroupType::Startup) == "Startup"@,
        cgroup_named("CORE"@) == Some(CgroupType::Core),
        cgroup_named("DSP"@) == Some(CgroupType::Dsp),
        cgroup_named("NN Lib"@) == Some(CgroupType::NnLib),
        cgroup_named("RTOS"@) == Some(CgroupType::Rtos),
        cgroup_named("RTOS2"@) == Some(CgroupType::Rtos2),
        cgroup_named("Startup"@) == Some(CgroupType::Startup),
{
    lemma_cgroup_named(CgroupType::Core);
    lemma_cgroup_named(CgroupType::Dsp);
    lemma_cgroup_named(CgroupType::NnLib);
    lemma_cgroup_named(CgroupType::Rtos);
    lemma_cgroup_named(CgroupType::Rtos2);
    lemma_cgroup_named(CgroupType::Startup);
}

} // verus!
