//! Schema extraction: from the generic structured document to the
//! typed manifest metadata.
//!
//! The document's `workspace` and `package` sections are each searched
//! for a `metadata.local-install` table; a missing section or table
//! means no entries, while a section, `metadata`, or `local-install`
//! that is present but not a table is a schema failure. Every entry of
//! a found table is classified into the dependency-descriptor union;
//! unknown fields are ignored, and any entry of an unrecognized shape
//! becomes `DepSpec::Other` rather than an error.
//!
//! The whole pipeline is specified against the named document:
//! `classify_model` and `section_outcome` say, over `toml_doc` /
//! `table_model`, exactly which entries a text yields, when loading
//! succeeds, and which error comes when it does not.

use vstd::prelude::*;

use crate::model::{
    DepDetail, DepSpec, InstallError, ManifestMeta, dep_model, DepModel, DetailModel,
    distinct_names, entries_dep_model,
};
use crate::toml_read::{
    DocNode, lookup, table_entries, table_get, table_model, toml_doc, toml_error_text, toml_parse,
    value_as_array, value_as_bool, value_as_string, value_as_table, value_model,
};

verus! {

/// An optional string field of a descriptor table: absent, present as
/// a string, or (outer `None`) present with an ill-typed value.
pub open spec fn str_field(t: Seq<(Seq<char>, DocNode)>, key: Seq<char>) -> Option<
    Option<Seq<char>>,
> {
    match lookup(t, key) {
        None => Some(None),
        Some(DocNode::TextNode(s)) => Some(Some(s)),
        Some(_) => None,
    }
}

/// True when every element of an array is a string.
pub open spec fn all_texts(elems: Seq<DocNode>) -> bool {
    forall|i: int| 0 <= i < elems.len() ==> elems[i] is TextNode
}

/// The character sequence of a string node (empty for any other node).
pub open spec fn text_of(n: DocNode) -> Seq<char> {
    match n {
        DocNode::TextNode(s) => s,
        _ => Seq::empty(),
    }
}

/// The strings of a string array.
pub open spec fn texts_of(elems: Seq<DocNode>) -> Seq<Seq<char>> {
    elems.map_values(|e: DocNode| text_of(e))
}

/// The elements of an array node (empty for any other node).
pub open spec fn list_of(n: DocNode) -> Seq<DocNode> {
    match n {
        DocNode::ListNode(elems) => elems,
        _ => Seq::empty(),
    }
}

/// The classification of a table-shaped descriptor: a table carrying a
/// `workspace` marker or any ill-typed known field is unrecognized;
/// every other table is a detailed descriptor, with `default-features`
/// defaulting to true and `features` to the empty list, and unknown
/// fields ignored.
pub open spec fn classify_table_model(t: Seq<(Seq<char>, DocNode)>) -> DepModel {
    if lookup(t, "workspace"@) is Some {
        DepModel::Other
    } else {
        let package = str_field(t, "package"@);
        let version = str_field(t, "version"@);
        let registry = str_field(t, "registry"@);
        let path = str_field(t, "path"@);
        let git = str_field(t, "git"@);
        let rev = str_field(t, "rev"@);
        let tag = str_field(t, "tag"@);
        let branch = str_field(t, "branch"@);
        let default_features = match lookup(t, "default-features"@) {
            None => Some(true),
            Some(DocNode::FlagNode(b)) => Some(b),
            Some(_) => None,
        };
        let features = match lookup(t, "features"@) {
            None => Some(Seq::<Seq<char>>::empty()),
            Some(DocNode::ListNode(elems)) => if all_texts(elems) {
                Some(texts_of(elems))
            } else {
                None
            },
            Some(_) => None,
        };
        if package is None || version is None || registry is None || path is None || git is None
            || rev is None || tag is None || branch is None || default_features is None
            || features is None {
            DepModel::Other
        } else {
            DepModel::Detailed(
                DetailModel {
                    package: package.unwrap(),
                    version: version.unwrap(),
                    registry: registry.unwrap(),
                    path: path.unwrap(),
                    git: git.unwrap(),
                    rev: rev.unwrap(),
                    tag: tag.unwrap(),
                    branch: branch.unwrap(),
                    default_features: default_features.unwrap(),
                    features: features.unwrap(),
                },
            )
        }
    }
}

/// The classification of one descriptor node: a string is a simple
/// version requirement, a table is classified field by field, and
/// every other shape is unrecognized.
pub open spec fn classify_model(n: DocNode) -> DepModel {
    match n {
        DocNode::TextNode(s) => DepModel::Simple(s),
        DocNode::TableNode(t) => classify_table_model(t),
        _ => DepModel::Other,
    }
}

/// The local-install entries one section of a document yields:
/// `None` for a schema failure (a present layer is not a table), no
/// entries when the section or a table along the way is missing, and
/// the classified entries of the `metadata.local-install` table
/// otherwise, in the table's own order.
pub open spec fn section_outcome(doc: Seq<(Seq<char>, DocNode)>, section: Seq<char>) -> Option<
    Seq<(Seq<char>, DepModel)>,
> {
    match lookup(doc, section) {
        None => Some(Seq::empty()),
        Some(DocNode::TableNode(sec)) => match lookup(sec, "metadata"@) {
            None => Some(Seq::empty()),
            Some(DocNode::TableNode(meta)) => match lookup(meta, "local-install"@) {
                None => Some(Seq::empty()),
                Some(DocNode::TableNode(li)) => Some(
                    li.map_values(|p: (Seq<char>, DocNode)| (p.0, classify_model(p.1))),
                ),
                Some(_) => None,
            },
            Some(_) => None,
        },
        Some(_) => None,
    }
}

/// Builds a diagnostic of the shape `<what> <path>: <detail>`.
fn describe(what: &str, path: &str, detail: &str) -> (r: String)
    ensures
        r@ == what@ + " "@ + path@ + ": "@ + detail@,
{
    let mut r = String::from_str(what);
    r.append(" ");
    r.append(path);
    r.append(": ");
    r.append(detail);
    r
}

/// Reads an optional string field of a detailed descriptor table.
/// A present field of any other type makes the descriptor
/// unrecognized, reported as a unit error.
fn get_string_field(t: &toml::Table, key: &str) -> (r: Result<Option<String>, ()>)
    ensures
        ({
            let f = str_field(table_model(*t), key@);
            match r {
                Result::Ok(Option::Some(s)) => f == Some(Some(s@)),
                Result::Ok(Option::None) => f == Some(None::<Seq<char>>),
                Result::Err(_) => f is None,
            }
        }),
{
    match table_get(t, key) {
        Option::None => Result::Ok(Option::None),
        Option::Some(v) => match value_as_string(&v) {
            Option::Some(s) => Result::Ok(Option::Some(s)),
            Option::None => Result::Err(()),
        },
    }
}

/// Classifies a table-shaped descriptor, testing the fields exactly as
/// `classify_table_model` states.
#[verifier::loop_isolation(false)]
fn classify_table(t: &toml::Table) -> (r: DepSpec)
    ensures
        dep_model(r) == classify_table_model(table_model(*t)),
{
    if table_get(t, "workspace").is_some() {
        return DepSpec::Other;
    }
    let package = match get_string_field(t, "package") {
        Result::Ok(x) => x,
        Result::Err(_) => return DepSpec::Other,
    };
    let version = match get_string_field(t, "version") {
        Result::Ok(x) => x,
        Result::Err(_) => return DepSpec::Other,
    };
    let registry = match get_string_field(t, "registry") {
        Result::Ok(x) => x,
        Result::Err(_) => return DepSpec::Other,
    };
    let path = match get_string_field(t, "path") {
        Result::Ok(x) => x,
        Result::Err(_) => return DepSpec::Other,
    };
    let git = match get_string_field(t, "git") {
        Result::Ok(x) => x,
        Result::Err(_) => return DepSpec::Other,
    };
    let rev = match get_string_field(t, "rev") {
        Result::Ok(x) => x,
        Result::Err(_) => return DepSpec::Other,
    };
    let tag = match get_string_field(t, "tag") {
        Result::Ok(x) => x,
        Result::Err(_) => return DepSpec::Other,
    };
    let branch = match get_string_field(t, "branch") {
        Result::Ok(x) => x,
        Result::Err(_) => return DepSpec::Other,
    };
    let default_features = match table_get(t, "default-features") {
        Option::None => true,
        Option::Some(v) => match value_as_bool(&v) {
            Option::Some(b) => b,
            Option::None => return DepSpec::Other,
        },
    };
    let features: Vec<String> = match table_get(t, "features") {
        Option::None => {
            let no_features: Vec<String> = Vec::new();
            proof {
                assert(no_features.deep_view() =~= Seq::<Seq<char>>::empty());
            }
            no_features
        },
        Option::Some(v) => {
            let ghost field_model = value_model(v);
            match value_as_array(v) {
                Option::None => return DepSpec::Other,
                Option::Some(values) => {
                    let ghost elems = list_of(field_model);
                    proof {
                        assert(field_model == DocNode::ListNode(elems));
                        assert(elems.len() == values@.len());
                    }
                    let mut collected: Vec<String> = Vec::new();
                    let n = values.len();
                    let mut i: usize = 0;
                    while i < n
                        invariant
                            n == values.len(),
                            i <= n,
                            elems.len() == n,
                            forall|k: int|
                                0 <= k < n ==> #[trigger] elems[k] == value_model(values@[k]),
                            forall|k: int| 0 <= k < i ==> elems[k] is TextNode,
                            collected@.len() == i,
                            forall|k: int|
                                0 <= k < i ==> (#[trigger] collected@[k])@ == text_of(elems[k]),
                        decreases n - i,
                    {
                        match value_as_string(&values[i]) {
                            Option::Some(s) => {
                                collected.push(s);
                            },
                            Option::None => {
                                proof {
                                    assert(!(elems[i as int] is TextNode));
                                    assert(!all_texts(elems));
                                }
                                return DepSpec::Other;
                            },
                        }
                        i = i + 1;
                    }
                    proof {
                        assert(all_texts(elems));
                        assert(collected.deep_view() =~= texts_of(elems));
                    }
                    collected
                },
            }
        },
    };
    let result = DepSpec::Detailed(
        DepDetail {
            package,
            version,
            registry,
            path,
            git,
            rev,
            tag,
            branch,
            default_features,
            features,
        },
    );
    proof {
        assert(dep_model(result) =~= classify_table_model(table_model(*t)));
    }
    result
}

/// Classifies one dependency descriptor exactly as `classify_model`
/// states: a TOML string is a simple version requirement, a TOML
/// table is classified field by field, and every other shape is
/// unrecognized.
fn classify_dep(v: toml::Value) -> (r: DepSpec)
    ensures
        dep_model(r) == classify_model(value_model(v)),
{
    match value_as_string(&v) {
        Option::Some(s) => DepSpec::Simple(s),
        Option::None => match value_as_table(v) {
            Option::Some(t) => classify_table(&t),
            Option::None => DepSpec::Other,
        },
    }
}

/// The local-install entries of one section of the document, exactly
/// as `section_outcome` states: a schema failure where it is `None`,
/// and otherwise the entries it gives, with distinct names.
fn section_entries(doc: &toml::Table, section: &str, path_label: &str) -> (r: Result<
    Vec<(String, DepSpec)>,
    InstallError,
>)
    ensures
        ({
            let oc = section_outcome(table_model(*doc), section@);
            &&& (r is Err <==> oc is None)
            &&& r matches Result::Err(e) ==> e is SchemaError
            &&& r matches Result::Ok(entries) ==> entries_dep_model(entries@) == oc.unwrap()
                && distinct_names(entries@)
        }),
{
    let section_value = match table_get(doc, section) {
        Option::None => {
            let r: Vec<(String, DepSpec)> = Vec::new();
            proof {
                assert(entries_dep_model(r@) =~= Seq::<(Seq<char>, DepModel)>::empty());
            }
            return Result::Ok(r);
        },
        Option::Some(v) => v,
    };
    let section_table = match value_as_table(section_value) {
        Option::Some(t) => t,
        Option::None => {
            let mut detail = String::from_str(section);
            detail.append(" is not a table");
            return Result::Err(
                InstallError::SchemaError(
                    describe("unable to deserialize", path_label, detail.as_str()),
                ),
            );
        },
    };
    let metadata_value = match table_get(&section_table, "metadata") {
        Option::None => {
            let r: Vec<(String, DepSpec)> = Vec::new();
            proof {
                assert(entries_dep_model(r@) =~= Seq::<(Seq<char>, DepModel)>::empty());
            }
            return Result::Ok(r);
        },
        Option::Some(v) => v,
    };
    let metadata_table = match value_as_table(metadata_value) {
        Option::Some(t) => t,
        Option::None => {
            return Result::Err(
                InstallError::SchemaError(
                    describe("unable to deserialize", path_label, "metadata is not a table"),
                ),
            );
        },
    };
    let install_value = match table_get(&metadata_table, "local-install") {
        Option::None => {
            let r: Vec<(String, DepSpec)> = Vec::new();
            proof {
                assert(entries_dep_model(r@) =~= Seq::<(Seq<char>, DepModel)>::empty());
            }
            return Result::Ok(r);
        },
        Option::Some(v) => v,
    };
    let install_table = match value_as_table(install_value) {
        Option::Some(t) => t,
        Option::None => {
            return Result::Err(
                InstallError::SchemaError(
                    describe("unable to deserialize", path_label, "local-install is not a table"),
                ),
            );
        },
    };
    let ghost li = table_model(install_table);
    let mut raw = table_entries(&install_table);
    let ghost orig = raw@;
    let mut out: Vec<(String, DepSpec)> = Vec::new();
    while raw.len() > 0
        invariant
            out@.len() + raw@.len() == orig.len(),
            orig.len() == li.len(),
            raw@ =~= orig.subrange(out@.len() as int, orig.len() as int),
            forall|k: int|
                0 <= k < orig.len() ==> (#[trigger] orig[k]).0@ == li[k].0 && value_model(
                    orig[k].1,
                ) == li[k].1,
            forall|k: int| 0 <= k < out@.len() ==> (#[trigger] out@[k]).0@ == li[k].0,
            forall|k: int|
                0 <= k < out@.len() ==> dep_model((#[trigger] out@[k]).1) == classify_model(
                    li[k].1,
                ),
            forall|i: int, j: int| 0 <= i < j < orig.len() ==> orig[i].0@ != orig[j].0@,
        decreases raw.len(),
    {
        let ghost done = out@.len() as int;
        let (name, value) = raw.remove(0);
        proof {
            assert(name@ == orig[done].0@);
            assert(value_model(value) == li[done].1);
            assert(raw@ =~= orig.subrange(done + 1, orig.len() as int));
        }
        let classified = classify_dep(value);
        out.push((name, classified));
    }
    proof {
        assert(entries_dep_model(out@) =~= li.map_values(
            |p: (Seq<char>, DocNode)| (p.0, classify_model(p.1)),
        ));
        assert forall|i: int, j: int| 0 <= i < j < out@.len() implies out@[i].0@ != out@[j].0@ by {
            assert(out@[i].0@ == li[i].0 && li[i].0 == orig[i].0@);
            assert(out@[j].0@ == li[j].0 && li[j].0 == orig[j].0@);
        }
        assert(distinct_names(out@));
    }
    Result::Ok(out)
}

/// Parses manifest text and extracts the typed local-install metadata
/// of its workspace and package sections. The contract is exact over
/// the named document: loading fails with a parse error exactly when
/// the text is not well-formed TOML, fails with a schema error exactly
/// when a present metadata layer has the wrong shape, and otherwise
/// succeeds with precisely the entries `section_outcome` gives for
/// each section (missing sections and tables contribute none).
pub fn load_manifest(text: &str, path_label: &str) -> (r: Result<ManifestMeta, InstallError>)
    ensures
        (r matches Result::Err(e) && e is ParseError) <==> toml_doc(text@) is None,
        r matches Result::Err(e) ==> (e is ParseError || e is SchemaError),
        r matches Result::Err(InstallError::ParseError(msg)) ==> (exists|cause: Seq<char>|
            msg@ == "unable to parse"@ + " "@ + path_label@ + ": "@ + cause),
        toml_doc(text@) matches Some(doc) ==> {
            let ws = section_outcome(doc, "workspace"@);
            let pk = section_outcome(doc, "package"@);
            &&& (r is Ok <==> ws is Some && pk is Some)
            &&& r matches Result::Err(e) ==> e is SchemaError
            &&& r matches Result::Ok(m) ==> {
                &&& entries_dep_model(m.workspace@) == ws.unwrap()
                &&& entries_dep_model(m.package@) == pk.unwrap()
                &&& distinct_names(m.workspace@)
                &&& distinct_names(m.package@)
            }
        },
{
    let doc = match toml_parse(text) {
        Result::Ok(t) => t,
        Result::Err(e) => {
            let detail = toml_error_text(&e);
            return Result::Err(
                InstallError::ParseError(describe("unable to parse", path_label, detail.as_str())),
            );
        },
    };
    let workspace = match section_entries(&doc, "workspace", path_label) {
        Result::Ok(entries) => entries,
        Result::Err(e) => return Result::Err(e),
    };
    let package = match section_entries(&doc, "package", path_label) {
        Result::Ok(entries) => entries,
        Result::Err(e) => return Result::Err(e),
    };
    Result::Ok(ManifestMeta { workspace, package })
}

} // verus!
