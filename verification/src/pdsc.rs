//! The root [PDSC Package](https://open-cmsis-pack.github.io/Open-CMSIS-Pack-Spec/main/html/pdsc_package_pg.html)
//! element and the elements that describe the pack itself.
use vstd::prelude::*;

use crate::requirements::Requirements;
use crate::generators::Generators;
use crate::boards::Boards;
use crate::parts::Parts;
use crate::taxonomy::Taxonomy;
use crate::part_taxonomy::PartTaxonomy;
use crate::apis::Apis;
use crate::components::Components;
use crate::conditions::Conditions;
use crate::csolution::Csolution;
use crate::examples::Examples;
use crate::family::{
    debugvars_of, flash_infos_from_nodes, flash_infos_model, pairs_represent, parse_flashinfo,
    sequences_from_nodes, sequences_model, Device, Family, FlashInfo, SubFamily, Variant,
};
use crate::xml::XmlNode;

verus! {

/// Represents [PDSC Package](https://open-cmsis-pack.github.io/Open-CMSIS-Pack-Spec/main/html/pdsc_package_pg.html)
/// which is the root element of the PDSC file
#[derive(Debug, PartialEq)]
pub struct Package {
    /// Name of the software pack
    pub name: String,

    /// Name of the software pack supplier/vendor
    pub vendor: String,

    /// PDSC schema version; valid values defined by [PDSC schema versioning](https://open-cmsis-pack.github.io/Open-CMSIS-Pack-Spec/main/html/packFormat.html)
    pub schema_version: Option<String>,

    /// Restricts pack to a specific core; valid values: [DcoreEnum](https://open-cmsis-pack.github.io/Open-CMSIS-Pack-Spec/main/html/packFormat.html)
    pub d_core: Option<String>,

    /// Restricts pack to a specific silicon vendor; valid values: [DeviceVendorEnum](https://open-cmsis-pack.github.io/Open-CMSIS-Pack-Spec/main/html/packFormat.html)
    pub d_vendor: Option<String>,

    /// Restricts pack to a specific device name; wildcards allowed
    pub d_name: Option<String>,

    /// Restricts pack to a specific toolchain; valid values: [CompilerEnumType](https://open-cmsis-pack.github.io/Open-CMSIS-Pack-Spec/main/html/packFormat.html)
    pub t_compiler: Option<String>,

    /// Brief description of the sofware pack
    pub description: Description,

    /// Export Control Classification Numbers for the EU and US
    pub eccn: Option<Eccn>,

    /// URL or file URI of the sotware pack
    pub url: String,

    /// URL or e-main for users to get support for the Pack content
    pub support_contact: Option<String>,

    /// Path to the license document of the Pack
    pub license: Option<String>,

    /// Listing containing the collection of license fils
    pub license_sets: Option<LicenseSets>,

    /// A pack that has dominate attribute overrules other packs
    pub dominate: Option<Dominate>,

    /// Specifies other CMSIS-Packs, programming languages, and compilers required by pack components
    pub requirements: Option<Requirements>,


    /// HTTPS URL of a public repository tat the pack originates from
    pub repository: Option<Repository>,

    /// Version release history with brief information about a software pack
    pub releases: Releases,

    /// Section describing one or more changelog files
    pub changelogs: Option<Changelogs>,

    /// Keywords that might be used to find a software pack
    pub keywords: Option<Keywords>,

    /// Grouping elements for environments information.
    pub environments: Option<Environments>,

    /// Specifies generator tools that have been used to generate components
    pub generators: Option<Generators>,

    /// Development boards described in this pack
    pub boards: Option<Boards>,

    /// Hardware parts described in this pack
    pub parts: Option<Parts>,

    /// Component class and group taxonomy for this pack
    pub taxonomy: Option<Taxonomy>,

    /// Hardware part class and group taxonomy for this pack
    pub part_taxonomy: Option<PartTaxonomy>,

    /// Application programming interfaces defined by this pack
    pub apis: Option<Apis>,

    /// The device family, the devices, and variants
    pub devices: Devices,

    /// Conditions defined for use throughout this pack
    pub conditions: Option<Conditions>,

    /// Example projects included in this pack
    pub examples: Option<Examples>,

    /// Software layers and project templates for csolution-based projects
    pub csolution: Option<Csolution>,

    /// Components published by this pack
    pub components: Option<Components>,
}

/// Represents the [PDSC Descrpiton](https://open-cmsis-pack.github.io/Open-CMSIS-Pack-Spec/main/html/element_package_description.html)
/// element.
#[derive(Debug, PartialEq)]
pub struct Description {
    /// File path, file name, and file extension with an overview of documentation in markdown format
    pub overview: Option<String>,

    /// The description body contaning a brief markdown desrciption
    pub content: Option<String>
}

/// Represents the [PDSC ECCN](https://open-cmsis-pack.github.io/Open-CMSIS-Pack-Spec/main/html/element_ECCN.html) element
#[derive(Debug, PartialEq)]
pub struct Eccn {
    pub eu: String,
    pub us: String,
}

/// Representation of the [PDSC LicenseSets](https://open-cmsis-pack.github.io/Open-CMSIS-Pack-Spec/main/html/pdsc_licenseSets_pg.html#element_licenseSets)
/// element
#[derive(Debug, PartialEq)]
pub struct LicenseSets {
    pub license_set: Vec<LicenseSet>
}

/// Represents the [PDSC LicenseSetsType](https://open-cmsis-pack.github.io/Open-CMSIS-Pack-Spec/main/html/pdsc_licenseSets_pg.html#element_licenseSets)
#[derive(Debug, PartialEq)]
pub struct LicenseSet {
    /// License set identifier string, must be uniqe in the PDSC file
    pub id: String,
    /// If set to true this license set is associated with all content, not explicitly referencing another license set
    pub default: Option<bool>,
    /// If set to true this license set is required to be accepted by the user before installation starts.
    pub gating: Option<bool>,
    /// Description of the license file refeneces
    pub license: Vec<License>
}

/// Represents the [PDSC License](https://open-cmsis-pack.github.io/Open-CMSIS-Pack-Spec/main/html/pdsc_licenseSets_pg.html#element_licensefile)
/// element.
///
/// Contains a description of an individual license file
#[derive(Debug, PartialEq)]
pub struct License {
    /// License filename with pack base directory relative path
    pub name: String,

    /// Display sting used by tools to represent the license
    pub title: String,

    /// Machine readable licence ID string according to the [SPDX License List](https://spdx.org/licenses/)
    pub spdx: Option<String>,

    /// Public web link to the license text
    pub url: Option<String>
}

/// Represents the [PDSC Dominate](https://open-cmsis-pack.github.io/Open-CMSIS-Pack-Spec/main/html/element_dominate.html) element
#[derive(Debug, PartialEq)]
pub struct Dominate {
    /// Descriptive text that explains the reason for dominate
    pub info: Option<String>
}

/// Represents the [PDSC Repository](https://open-cmsis-pack.github.io/Open-CMSIS-Pack-Spec/main/html/element_repository.html) element
#[derive(Debug, PartialEq)]
pub struct Repository {
    pub repository_type: String,

    pub url: String
}

/// Represents the [PDSC Releases](https://open-cmsis-pack.github.io/Open-CMSIS-Pack-Spec/main/html/element_releases.html) element
#[derive(Debug, PartialEq, Default)]
pub struct Releases {
    pub release: Vec<Release>
}

/// Represents the [PDSC Releaes](https://open-cmsis-pack.github.io/Open-CMSIS-Pack-Spec/main/html/element_releases.html#element_release) element
#[derive(Debug, PartialEq, Default)]
pub struct Release {
    /// Release version string
    pub version: String,
    /// Release date in xs:date format (e.g. `2023-01-15`)
    pub date: Option<String>,
    /// VCS tag for this release
    pub tag: Option<String>,
    /// URL of the release archive
    pub url: Option<String>,
    /// Date this release was deprecated, in xs:date format (e.g. `2023-01-15`); tools should warn users when the pack is installed
    pub deprecated: Option<String>,
    /// Pack name (`Vendor.Name`) that replaces this deprecated release
    pub replacement: Option<String>,
    pub content: String
}

/// Represents the [PDSC ChangelogsType](https://open-cmsis-pack.github.io/Open-CMSIS-Pack-Spec/main/html/pdsc_changelogs_pg.html#element_changelogs) element
#[derive(Debug, PartialEq)]
pub struct Changelogs {
    pub changelog: Vec<Changelog>
}

/// Represents the [PDSC Changelog](https://open-cmsis-pack.github.io/Open-CMSIS-Pack-Spec/main/html/pdsc_changelogs_pg.html#element_changelog) element
#[derive(Debug, PartialEq)]
pub struct Changelog {
    /// Changelog identifier string, must be uniqe within the PDSC file
    pub id: String,

    /// A path relative to the PDSC fil and the filename of the changelog file
    pub name: String,

    /// If `true` this changelog is associated with all APIs and components that do not explicitly reference another changelog; xs:boolean (`"true"` / `"false"`)
    pub default: Option<bool>
}

/// Represents the [PDSC Keywords](https://open-cmsis-pack.github.io/Open-CMSIS-Pack-Spec/main/html/element_keywords.html) element
#[derive(Debug, PartialEq)]
pub struct Keywords {
    /// The vector of keywords
    pub keywords: Vec<String>
}

/// Represents the [PDSC Envrionments](https://open-cmsis-pack.github.io/Open-CMSIS-Pack-Spec/main/html/pdsc_components_pg.html#element_component_environments) element
#[derive(Debug, PartialEq)]
pub struct Environments {
    /// The vector of environments
    pub environments: Vec<Environment>
}

/// Represents the [PDSC Environment](https://open-cmsis-pack.github.io/Open-CMSIS-Pack-Spec/main/html/pdsc_family_pg.html#element_environment) element
#[derive(Debug, PartialEq)]
pub struct Environment {
    pub name: String,
    pub processor_name: Option<String>,
}

/// Represents [PDSC Devices](https://open-cmsis-pack.github.io/Open-CMSIS-Pack-Spec/main/html/pdsc_devices_pg.html)
#[derive(Debug, PartialEq)]
pub struct Devices {
    /// Device family definitions (1..*)
    pub families: Vec<Family>
}


/// Whether the flash information `after` is what the raw `<flashinfo>` nodes
/// `raw` read as, or, where they do not read, the flash information `before`
/// as it was.
pub open spec fn flash_filled(raw: Seq<XmlNode>, before: Seq<FlashInfo>, after: Seq<FlashInfo>) -> bool {
    match flash_infos_from_nodes(raw) {
        Ok(ms) => flash_infos_model(after) == ms,
        Err(_) => after == before,
    }
}

/// Whether `after` is the variant `before` with its flash information read.
pub open spec fn variant_completed(before: Variant, after: Variant) -> bool {
    &&& after == (Variant { flashinfo: after.flashinfo, ..before })
    &&& flash_filled(before.flashinfo_raw@, before.flashinfo@, after.flashinfo@)
}

/// Whether `after` is the device `before` with its flash information read,
/// and that of each of its variants.
pub open spec fn device_completed(before: Device, after: Device) -> bool {
    &&& after == (Device { flashinfo: after.flashinfo, variants: after.variants, ..before })
    &&& flash_filled(before.flashinfo_raw@, before.flashinfo@, after.flashinfo@)
    &&& after.variants@.len() == before.variants@.len()
    &&& forall|i: int|
        0 <= i < after.variants@.len() ==> variant_completed(
            before.variants@[i],
            #[trigger] after.variants@[i],
        )
}

/// Whether `after` are the devices `before`, each completed.
pub open spec fn devices_completed(before: Seq<Device>, after: Seq<Device>) -> bool {
    &&& after.len() == before.len()
    &&& forall|i: int| 0 <= i < after.len() ==> device_completed(before[i], #[trigger] after[i])
}

/// Whether `after` is the subfamily `before` with its flash information
/// read, and that of each of its devices.
pub open spec fn sub_family_completed(before: SubFamily, after: SubFamily) -> bool {
    &&& after == (SubFamily { flashinfo: after.flashinfo, devices: after.devices, ..before })
    &&& flash_filled(before.flashinfo_raw@, before.flashinfo@, after.flashinfo@)
    &&& devices_completed(before.devices@, after.devices@)
}

/// Whether `after` is `before` with its debug variables read, its sequences
/// (where they read), and the flash information of the family, of its
/// subfamilies, devices and variants (each where it reads).
pub open spec fn family_completed(before: Family, after: Family) -> bool {
    &&& after == (Family {
        debugvars: after.debugvars,
        sequences: after.sequences,
        flashinfo: after.flashinfo,
        sub_families: after.sub_families,
        devices: after.devices,
        ..before
    })
    &&& flash_filled(before.flashinfo_raw@, before.flashinfo@, after.flashinfo@)
    &&& after.sub_families@.len() == before.sub_families@.len()
    &&& forall|i: int|
        0 <= i < after.sub_families@.len() ==> sub_family_completed(
            before.sub_families@[i],
            #[trigger] after.sub_families@[i],
        )
    &&& devices_completed(before.devices@, after.devices@)
    &&& after.debugvars.configfile == before.debugvars.configfile
    &&& after.debugvars.version == before.debugvars.version
    &&& after.debugvars.content == before.debugvars.content
    &&& after.debugvars.parsed_debugvars matches Some(vars) && pairs_represent(
        vars@,
        debugvars_of(before.debugvars.content@),
    )
    &&& after.sequences.trace_setup == before.sequences.trace_setup
    &&& after.sequences.raw_nodes == before.sequences.raw_nodes
    &&& match sequences_from_nodes(before.sequences.raw_nodes@) {
        Ok(ms) => sequences_model(after.sequences.sequences@) == ms,
        Err(_) => after.sequences.sequences == before.sequences.sequences,
    }
}

/// Reads the raw `<flashinfo>` nodes into `info`; where they do not read,
/// `info` stays as it was.
fn fill_flashinfo(raw: &Vec<XmlNode>, info: &mut Vec<FlashInfo>)
    ensures
        flash_filled(raw@, old(info)@, final(info)@),
{
    match parse_flashinfo(raw.as_slice()) {
        Ok(v) => {
            *info = v;
        },
        Err(_) => {},
    }
}

/// A variant with its flash information read.
fn complete_variant(v: Variant) -> (r: Variant)
    ensures
        variant_completed(v, r),
{
    let mut v = v;
    fill_flashinfo(&v.flashinfo_raw, &mut v.flashinfo);
    v
}

/// Variants, each with its flash information read.
fn complete_variants(vs: Vec<Variant>) -> (r: Vec<Variant>)
    ensures
        r@.len() == vs@.len(),
        forall|i: int| 0 <= i < r@.len() ==> variant_completed(vs@[i], #[trigger] r@[i]),
{
    let ghost before = vs@;
    let mut done: Vec<Variant> = Vec::new();
    let mut rest = vs;
    while rest.len() > 0
        invariant
            done@.len() + rest@.len() == before.len(),
            rest@ == before.subrange(done@.len() as int, before.len() as int),
            forall|i: int| 0 <= i < done@.len() ==> variant_completed(before[i], #[trigger] done@[i]),
        decreases rest@.len(),
    {
        let v = rest.remove(0);
        let v = complete_variant(v);
        done.push(v);
        assert(done@[done@.len() - 1] == v);
    }
    done
}

/// A device with its flash information read, and that of its variants.
fn complete_device(d: Device) -> (r: Device)
    ensures
        device_completed(d, r),
{
    let mut d = d;
    fill_flashinfo(&d.flashinfo_raw, &mut d.flashinfo);
    let mut variants = Vec::new();
    std::mem::swap(&mut variants, &mut d.variants);
    d.variants = complete_variants(variants);
    d
}

/// Devices, each completed.
fn complete_devices(ds: Vec<Device>) -> (r: Vec<Device>)
    ensures
        devices_completed(ds@, r@),
{
    let ghost before = ds@;
    let mut done: Vec<Device> = Vec::new();
    let mut rest = ds;
    while rest.len() > 0
        invariant
            done@.len() + rest@.len() == before.len(),
            rest@ == before.subrange(done@.len() as int, before.len() as int),
            forall|i: int| 0 <= i < done@.len() ==> device_completed(before[i], #[trigger] done@[i]),
        decreases rest@.len(),
    {
        let d = rest.remove(0);
        let d = complete_device(d);
        done.push(d);
        assert(done@[done@.len() - 1] == d);
    }
    done
}

/// A subfamily with its flash information read, and that of its devices.
fn complete_sub_family(f: SubFamily) -> (r: SubFamily)
    ensures
        sub_family_completed(f, r),
{
    let mut f = f;
    fill_flashinfo(&f.flashinfo_raw, &mut f.flashinfo);
    let mut devices = Vec::new();
    std::mem::swap(&mut devices, &mut f.devices);
    f.devices = complete_devices(devices);
    f
}

/// Subfamilies, each completed.
fn complete_sub_families(fs: Vec<SubFamily>) -> (r: Vec<SubFamily>)
    ensures
        r@.len() == fs@.len(),
        forall|i: int| 0 <= i < r@.len() ==> sub_family_completed(fs@[i], #[trigger] r@[i]),
{
    let ghost before = fs@;
    let mut done: Vec<SubFamily> = Vec::new();
    let mut rest = fs;
    while rest.len() > 0
        invariant
            done@.len() + rest@.len() == before.len(),
            rest@ == before.subrange(done@.len() as int, before.len() as int),
            forall|i: int|
                0 <= i < done@.len() ==> sub_family_completed(before[i], #[trigger] done@[i]),
        decreases rest@.len(),
    {
        let f = rest.remove(0);
        let f = complete_sub_family(f);
        done.push(f);
        assert(done@[done@.len() - 1] == f);
    }
    done
}

impl Package {
    /// Completes a package as read from a document: for each family, reads
    /// the debug variables and the sequences (a family whose sequences do not
    /// read keeps the ones it had), and the flash information of the family
    /// and of its subfamilies, devices and variants (flash information that
    /// does not read stays as it was). Everything else stays as it is.
    pub fn new(package: Package) -> (r: Package)
        ensures
            r == (Package { devices: Devices { families: r.devices.families }, ..package }),
            r.devices.families@.len() == package.devices.families@.len(),
            forall|i: int|
                0 <= i < r.devices.families@.len() ==> family_completed(
                    package.devices.families@[i],
                    #[trigger] r.devices.families@[i],
                ),
    {
        let ghost before = package.devices.families@;
        let mut package = package;
        let mut families = Vec::new();
        std::mem::swap(&mut families, &mut package.devices.families);
        let mut done: Vec<Family> = Vec::new();
        let mut rest = families;
        while rest.len() > 0
            invariant
                done@.len() + rest@.len() == before.len(),
                rest@ == before.subrange(done@.len() as int, before.len() as int),
                forall|i: int| 0 <= i < done@.len() ==> family_completed(before[i], #[trigger] done@[i]),
            decreases rest@.len(),
        {
            let mut f = rest.remove(0);
            let ghost b = f;
            f.debugvars.parse_debugvars();
            let _ = f.sequences.parse_sequences();
            fill_flashinfo(&f.flashinfo_raw, &mut f.flashinfo);
            let mut subs = Vec::new();
            std::mem::swap(&mut subs, &mut f.sub_families);
            f.sub_families = complete_sub_families(subs);
            let mut devices = Vec::new();
            std::mem::swap(&mut devices, &mut f.devices);
            f.devices = complete_devices(devices);
            proof {
                assert(f == (Family {
                    debugvars: f.debugvars,
                    sequences: f.sequences,
                    flashinfo: f.flashinfo,
                    sub_families: f.sub_families,
                    devices: f.devices,
                    ..b
                }));
            }
            done.push(f);
            assert(done@[done@.len() - 1] == f);
        }
        package.devices.families = done;
        package
    }
}

} // verus!
