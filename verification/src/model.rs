//! Value types for the install model: a single command-line flag, one
//! package install request, an assembled install set, the dependency
//! descriptor union, the typed manifest metadata, and the error
//! taxonomy.

use vstd::prelude::*;

verus! {

/// One command-line option: a flag name such as `--version` together
/// with an ordered list of zero or more string values.
#[derive(Debug)]
pub struct InstallFlag {
    pub name: String,
    pub values: Vec<String>,
}

/// One package install request: the package name and its ordered flags.
#[derive(Debug)]
pub struct Install {
    pub name: String,
    pub flags: Vec<InstallFlag>,
}

/// The result of translating one discovered manifest: the destination
/// bin directory, the path of the manifest the set came from (absent
/// for synthetic sets), and the ordered installs.
#[derive(Debug)]
pub struct InstallSet {
    pub bin: String,
    pub src: Option<String>,
    pub installs: Vec<Install>,
}

/// The optional fields of a detailed dependency descriptor.
/// `default_features` defaults to `true` and `features` to the empty
/// list when the manifest does not give them.
#[derive(Debug)]
pub struct DepDetail {
    pub package: Option<String>,
    pub version: Option<String>,
    pub registry: Option<String>,
    pub path: Option<String>,
    pub git: Option<String>,
    pub rev: Option<String>,
    pub tag: Option<String>,
    pub branch: Option<String>,
    pub default_features: bool,
    pub features: Vec<String>,
}

/// A dependency descriptor: a bare version string, a detailed table,
/// or any unrecognized shape (for example an inherited-from-workspace
/// marker), which translation skips without failing.
#[derive(Debug)]
pub enum DepSpec {
    Simple(String),
    Detailed(DepDetail),
    Other,
}

/// The local-install entries of one discovered manifest, keyed by
/// dependency name: the workspace-level table's entries followed by the
/// package-level table's entries, each in the order the tables hand
/// them out.
#[derive(Debug)]
pub struct ManifestMeta {
    pub workspace: Vec<(String, DepSpec)>,
    pub package: Vec<(String, DepSpec)>,
}

/// The fatal failures of manifest loading and translation. Each
/// carries a human-readable description naming the source path and the
/// underlying cause.
#[derive(Debug)]
pub enum InstallError {
    /// The current working directory could not be determined.
    EnvError(String),
    /// A located manifest file could not be read.
    IoError(String),
    /// The manifest text is not well-formed TOML.
    ParseError(String),
    /// The manifest's metadata does not match the expected shape.
    SchemaError(String),
    /// A path manipulation invariant was violated (missing parent).
    PathError(String),
}

/// The mathematical model of one flag: its name and its values, as
/// character sequences.
pub open spec fn flag_model(f: InstallFlag) -> (Seq<char>, Seq<Seq<char>>) {
    (f.name@, f.values.deep_view())
}

/// The model of an ordered flag list.
pub open spec fn flags_model(fs: Seq<InstallFlag>) -> Seq<(Seq<char>, Seq<Seq<char>>)> {
    fs.map_values(|f: InstallFlag| flag_model(f))
}

/// The model of one install: the package name and the flag models.
pub open spec fn install_model(i: Install) -> (Seq<char>, Seq<(Seq<char>, Seq<Seq<char>>)>) {
    (i.name@, flags_model(i.flags@))
}

/// The model of an ordered install list.
pub open spec fn installs_model(s: Seq<Install>) -> Seq<(Seq<char>, Seq<(Seq<char>, Seq<Seq<char>>)>)> {
    s.map_values(|i: Install| install_model(i))
}

/// The mathematical model of a detailed descriptor: each field as a
/// plain character sequence.
#[verifier::ext_equal]
pub struct DetailModel {
    pub package: Option<Seq<char>>,
    pub version: Option<Seq<char>>,
    pub registry: Option<Seq<char>>,
    pub path: Option<Seq<char>>,
    pub git: Option<Seq<char>>,
    pub rev: Option<Seq<char>>,
    pub tag: Option<Seq<char>>,
    pub branch: Option<Seq<char>>,
    pub default_features: bool,
    pub features: Seq<Seq<char>>,
}

/// The mathematical model of a dependency descriptor.
#[verifier::ext_equal]
pub enum DepModel {
    Simple(Seq<char>),
    Detailed(DetailModel),
    Other,
}

/// The model of a detailed descriptor value.
pub open spec fn detail_model(d: DepDetail) -> DetailModel {
    DetailModel {
        package: match d.package {
            Some(s) => Some(s@),
            None => None,
        },
        version: match d.version {
            Some(s) => Some(s@),
            None => None,
        },
        registry: match d.registry {
            Some(s) => Some(s@),
            None => None,
        },
        path: match d.path {
            Some(s) => Some(s@),
            None => None,
        },
        git: match d.git {
            Some(s) => Some(s@),
            None => None,
        },
        rev: match d.rev {
            Some(s) => Some(s@),
            None => None,
        },
        tag: match d.tag {
            Some(s) => Some(s@),
            None => None,
        },
        branch: match d.branch {
            Some(s) => Some(s@),
            None => None,
        },
        default_features: d.default_features,
        features: d.features.deep_view(),
    }
}

/// The model of a dependency descriptor value.
pub open spec fn dep_model(d: DepSpec) -> DepModel {
    match d {
        DepSpec::Simple(v) => DepModel::Simple(v@),
        DepSpec::Detailed(det) => DepModel::Detailed(detail_model(det)),
        DepSpec::Other => DepModel::Other,
    }
}

/// The model of a named entry list: each name with its descriptor's
/// model.
pub open spec fn entries_dep_model(v: Seq<(String, DepSpec)>) -> Seq<(Seq<char>, DepModel)> {
    v.map_values(|p: (String, DepSpec)| (p.0@, dep_model(p.1)))
}

/// True when no two entries of one metadata table share a name: the
/// tables have mapping semantics, so each name occurs at most once
/// within one table (though the same name may appear in both the
/// workspace-level and the package-level table).
pub open spec fn distinct_names(entries: Seq<(String, DepSpec)>) -> bool {
    forall|i: int, j: int| 0 <= i < j < entries.len() ==> entries[i].0@ != entries[j].0@
}

/// All entry models of a manifest's metadata, workspace table first,
/// each table in its own order.
pub open spec fn meta_dep_model(m: ManifestMeta) -> Seq<(Seq<char>, DepModel)> {
    entries_dep_model(m.workspace@) + entries_dep_model(m.package@)
}

} // verus!
