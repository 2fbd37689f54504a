//! The upward manifest search and the install-set assembly.
//!
//! The walk starts at a given directory and ascends one parent at a
//! time, probing for the fixed manifest filename. The probe itself is
//! the caller's: `Walker` hands out the candidate path to test, and the
//! caller reports back when nothing was there. The search ends at the
//! first manifest found — even one with no relevant entries, which
//! deliberately shadows any farther ancestor — or when the root has
//! been passed.
//!
//! A found manifest's text is handed to `manifest_installs`, which
//! loads it, translates every entry, and emits at most one install
//! set.

use vstd::prelude::*;

use crate::extract::{load_manifest, section_outcome};
use crate::model::{
    InstallError, InstallSet, ManifestMeta, entries_dep_model, installs_model, meta_dep_model,
};
use crate::paths::{joined_child, parent_dir, parent_of_path, join_child};
use crate::toml_read::toml_doc;
use crate::translate::{skipped_all, translate_entries, translated_all};

verus! {

/// The fixed file name probed for in each candidate directory.
pub open spec fn manifest_file_name() -> Seq<char> {
    "Cargo.toml"@
}

/// The state of the upward search: the directory whose manifest is
/// probed next, and whether the search is still going (it stops once
/// the root's parent is asked for).
pub struct Walker {
    pub dir: String,
    pub active: bool,
}

impl Walker {
    /// Starts a search at the given directory.
    pub fn start(dir: String) -> (w: Walker)
        ensures
            w.dir@ == dir@,
            w.active,
    {
        Walker { dir, active: true }
    }

    /// The manifest path to probe next: the fixed manifest filename
    /// appended to the current directory, or nothing when the search
    /// has passed the root.
    pub fn candidate(&self) -> (r: Option<String>)
        ensures
            match r {
                Option::Some(c) => self.active && c@ == joined_child(
                    self.dir@,
                    manifest_file_name(),
                ),
                Option::None => !self.active,
            },
    {
        if self.active {
            Option::Some(join_child(self.dir.as_str(), "Cargo.toml"))
        } else {
            Option::None
        }
    }

    /// Moves to the parent directory after a candidate was probed and
    /// no file was there; the search ends when no parent exists.
    pub fn step_not_found(&mut self)
        ensures
            old(self).active ==> match parent_dir(old(self).dir@) {
                Option::Some(p) => final(self).active && final(self).dir@ == p,
                Option::None => !final(self).active,
            },
            !old(self).active ==> !final(self).active,
    {
        if !self.active {
            return;
        }
        match parent_of_path(self.dir.as_str()) {
            Option::Some(p) => {
                self.dir = p;
            },
            Option::None => {
                self.active = false;
            },
        }
    }
}

/// A manifest whose metadata holds no local-install entry in either
/// the workspace or the package section translates to no install at
/// all, so `manifest_install_sets` emits no install set for it.
pub proof fn lemma_no_entries_no_installs(meta: ManifestMeta, dir: Seq<char>)
    requires
        meta.workspace@.len() == 0,
        meta.package@.len() == 0,
    ensures
        translated_all(meta_dep_model(meta), dir).len() == 0,
{
    assert(meta_dep_model(meta) =~= Seq::<(Seq<char>, crate::model::DepModel)>::empty());
}

/// Assembles one loaded manifest's install sets and skipped-entry
/// diagnostics: no set when no entry translated, and otherwise exactly
/// one set whose bin directory is the override if supplied and
/// `<manifest directory>/bin` else, whose source is the manifest path,
/// and whose installs are the translations in order. Beside the sets
/// come the names of the unrecognized entries that were skipped.
pub fn manifest_install_sets(
    meta: ManifestMeta,
    manifest_path: &str,
    dir: &str,
    dst_bin: Option<String>,
) -> (r: (Vec<InstallSet>, Vec<String>))
    ensures
        r.1.deep_view() == skipped_all(meta_dep_model(meta)),
        ({
            let installs = translated_all(meta_dep_model(meta), dir@);
            &&& installs.len() == 0 ==> r.0@.len() == 0
            &&& installs.len() > 0 ==> {
                &&& r.0@.len() == 1
                &&& installs_model(r.0@[0].installs@) == installs
                &&& r.0@[0].src matches Some(p) && p@ == manifest_path@
                &&& r.0@[0].bin@ == (match dst_bin {
                    Option::Some(b) => b@,
                    Option::None => joined_child(dir@, "bin"@),
                })
            }
        }),
{
    let ManifestMeta { workspace, mut package } = meta;
    let mut entries = workspace;
    entries.append(&mut package);
    proof {
        assert(entries_dep_model(entries@) =~= meta_dep_model(meta));
    }
    let (installs, skipped) = translate_entries(entries, dir);
    proof {
        assert(installs_model(installs@).len() == installs@.len());
    }
    if installs.len() == 0 {
        (Vec::new(), skipped)
    } else {
        let bin = match dst_bin {
            Option::Some(b) => b,
            Option::None => join_child(dir, "bin"),
        };
        let set = InstallSet {
            bin,
            src: Option::Some(String::from_str(manifest_path)),
            installs,
        };
        let mut sets: Vec<InstallSet> = Vec::new();
        sets.push(set);
        (sets, skipped)
    }
}

/// Loads one discovered manifest's text and translates it into install
/// sets, with the names of any skipped unrecognized entries beside
/// them. Succeeds exactly when the text is well-formed TOML whose
/// present metadata layers have the right shapes and the manifest path
/// has a parent: a parse failure is a parse error, a wrong shape is a
/// schema error, and a parentless path is a path error. At most one
/// set comes out, and one comes out exactly when some entry of the
/// text's local-install tables translated; its source is the manifest
/// path, its bin directory the override if supplied and the manifest
/// directory's `bin` child else, and its installs the translations of
/// the text's entries in order.
pub fn manifest_installs(text: &str, manifest_path: &str, dst_bin: Option<String>) -> (r: Result<
    (Vec<InstallSet>, Vec<String>),
    InstallError,
>)
    ensures
        (r matches Result::Err(e) && e is ParseError) <==> toml_doc(text@) is None,
        r matches Result::Err(e) ==> (e is PathError || e is ParseError || e is SchemaError),
        r matches Result::Err(InstallError::PathError(msg)) ==> msg@
            == "unable to determine containing directory for manifest "@ + manifest_path@,
        parent_dir(manifest_path@) is None ==> r is Err,
        toml_doc(text@) matches Some(doc) ==> ({
            let ws = section_outcome(doc, "workspace"@);
            let pk = section_outcome(doc, "package"@);
            &&& ((ws is Some && pk is Some && parent_dir(manifest_path@) is Some) <==> r is Ok)
            &&& (ws is Some && pk is Some && parent_dir(manifest_path@) is None) ==> (
            r matches Result::Err(e) && e is PathError)
        }),
        r matches Result::Ok(out) ==> ({
            let dir = parent_dir(manifest_path@).unwrap();
            let ws = section_outcome(toml_doc(text@).unwrap(), "workspace"@);
            let pk = section_outcome(toml_doc(text@).unwrap(), "package"@);
            &&& out.0@.len() <= 1
            &&& ({
                let entries = ws.unwrap() + pk.unwrap();
                &&& (translated_all(entries, dir).len() > 0 <==> out.0@.len() == 1)
                &&& out.0@.len() == 1 ==> installs_model(out.0@[0].installs@) == translated_all(
                    entries,
                    dir,
                )
                &&& out.1.deep_view() == skipped_all(entries)
            })
            &&& out.0@.len() == 1 ==> {
                &&& out.0@[0].src matches Some(p) && p@ == manifest_path@
                &&& out.0@[0].bin@ == (match dst_bin {
                    Option::Some(b) => b@,
                    Option::None => joined_child(dir, "bin"@),
                })
            }
        }),
{
    let meta = match load_manifest(text, manifest_path) {
        Result::Ok(m) => m,
        Result::Err(e) => return Result::Err(e),
    };
    let dir = match parent_of_path(manifest_path) {
        Option::Some(d) => d,
        Option::None => {
            let mut msg = String::from_str(
                "unable to determine containing directory for manifest ",
            );
            msg.append(manifest_path);
            return Result::Err(InstallError::PathError(msg));
        },
    };
    Result::Ok(manifest_install_sets(meta, manifest_path, dir.as_str(), dst_bin))
}

} // verus!
