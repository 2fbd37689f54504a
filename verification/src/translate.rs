//! Translation of one dependency descriptor into an install request.
//!
//! A simple descriptor becomes a single `--version` flag carrying the
//! normalized version. A detailed descriptor contributes one flag per
//! present field, in the fixed precedence order: version, registry,
//! path, git, rev, tag, branch, no-default-features, features. An
//! unrecognized descriptor produces nothing and never fails.

use vstd::prelude::*;

use crate::model::{DepDetail, DepSpec, DepModel, DetailModel, Install, InstallFlag};
use crate::model::{dep_model, detail_model, entries_dep_model, flag_model, flags_model, install_model, installs_model};
use crate::paths::{joined_path, join_rel};
use crate::version::{fixed_version, fix_version};

verus! {

/// The model of a `--version` flag carrying the normalized version.
pub open spec fn version_flag(v: Seq<char>) -> (Seq<char>, Seq<Seq<char>>) {
    ("--version"@, seq![fixed_version(v)])
}

/// The flag contributed by the version field, if present.
pub open spec fn version_part(d: DetailModel) -> Seq<(Seq<char>, Seq<Seq<char>>)> {
    match d.version {
        Some(v) => seq![version_flag(v)],
        None => Seq::empty(),
    }
}

/// The flag contributed by the registry field, if present.
pub open spec fn registry_part(d: DetailModel) -> Seq<(Seq<char>, Seq<Seq<char>>)> {
    match d.registry {
        Some(v) => seq![("--registry"@, seq![v])],
        None => Seq::empty(),
    }
}

/// The flag contributed by the path field, if present: the path is
/// resolved against the owning manifest's directory.
pub open spec fn path_part(d: DetailModel, dir: Seq<char>) -> Seq<(Seq<char>, Seq<Seq<char>>)> {
    match d.path {
        Some(p) => seq![("--path"@, seq![joined_path(dir, p)])],
        None => Seq::empty(),
    }
}

/// The flag contributed by the git field, if present.
pub open spec fn git_part(d: DetailModel) -> Seq<(Seq<char>, Seq<Seq<char>>)> {
    match d.git {
        Some(v) => seq![("--git"@, seq![v])],
        None => Seq::empty(),
    }
}

/// The flag contributed by the rev field, if present.
pub open spec fn rev_part(d: DetailModel) -> Seq<(Seq<char>, Seq<Seq<char>>)> {
    match d.rev {
        Some(v) => seq![("--rev"@, seq![v])],
        None => Seq::empty(),
    }
}

/// The flag contributed by the tag field, if present.
pub open spec fn tag_part(d: DetailModel) -> Seq<(Seq<char>, Seq<Seq<char>>)> {
    match d.tag {
        Some(v) => seq![("--tag"@, seq![v])],
        None => Seq::empty(),
    }
}

/// The flag contributed by the branch field, if present.
pub open spec fn branch_part(d: DetailModel) -> Seq<(Seq<char>, Seq<Seq<char>>)> {
    match d.branch {
        Some(v) => seq![("--branch"@, seq![v])],
        None => Seq::empty(),
    }
}

/// The bare flag contributed when default features are switched off.
pub open spec fn no_default_features_part(d: DetailModel) -> Seq<(Seq<char>, Seq<Seq<char>>)> {
    if !d.default_features {
        seq![("--no-default-features"@, Seq::<Seq<char>>::empty())]
    } else {
        Seq::empty()
    }
}

/// The flag carrying the full feature list, contributed when the list
/// is not empty.
pub open spec fn features_part(d: DetailModel) -> Seq<(Seq<char>, Seq<Seq<char>>)> {
    if d.features.len() > 0 {
        seq![("--features"@, d.features)]
    } else {
        Seq::empty()
    }
}

/// All flags of a detailed descriptor, in the fixed precedence order:
/// version, registry, path, git, rev, tag, branch,
/// no-default-features, features.
pub open spec fn detailed_flags(d: DetailModel, dir: Seq<char>) -> Seq<(Seq<char>, Seq<Seq<char>>)> {
    version_part(d) + registry_part(d) + path_part(d, dir) + git_part(d) + rev_part(d)
        + tag_part(d) + branch_part(d) + no_default_features_part(d) + features_part(d)
}

/// The translation of one named descriptor model: a simple descriptor
/// keeps the entry name and carries one version flag; a detailed
/// descriptor takes the package override as its name when present and
/// carries `detailed_flags`; an unrecognized descriptor translates to
/// nothing.
pub open spec fn translated_m(name: Seq<char>, d: DepModel, dir: Seq<char>) -> Option<
    (Seq<char>, Seq<(Seq<char>, Seq<Seq<char>>)>),
> {
    match d {
        DepModel::Simple(v) => Some((name, seq![version_flag(v)])),
        DepModel::Detailed(det) => Some(
            (
                match det.package {
                    Some(p) => p,
                    None => name,
                },
                detailed_flags(det, dir),
            ),
        ),
        DepModel::Other => None,
    }
}

/// The translation of one named descriptor value.
pub open spec fn translated(name: Seq<char>, d: DepSpec, dir: Seq<char>) -> Option<
    (Seq<char>, Seq<(Seq<char>, Seq<Seq<char>>)>),
> {
    translated_m(name, dep_model(d), dir)
}

/// Appending one flag appends its model.
proof fn lemma_flags_model_push(s: Seq<InstallFlag>, f: InstallFlag)
    ensures
        flags_model(s.push(f)) =~= flags_model(s) + seq![flag_model(f)],
{
}

/// Builds a flag from its name and values.
fn new_flag(name: &str, values: Vec<String>) -> (r: InstallFlag)
    ensures
        flag_model(r) == (name@, values.deep_view()),
{
    InstallFlag { name: String::from_str(name), values }
}

/// Builds a flag carrying one value.
fn new_flag_one(name: &str, value: String) -> (r: InstallFlag)
    ensures
        flag_model(r) == (name@, seq![value@]),
{
    let values = vec![value];
    proof {
        assert(values.deep_view() =~= seq![values@[0]@]);
    }
    new_flag(name, values)
}

/// Translates one detailed descriptor's fields into the ordered flag
/// list, testing each optional field in the fixed precedence order.
fn detailed_flags_of(d: &DepDetail, dir: &str) -> (r: Vec<InstallFlag>)
    ensures
        flags_model(r@) == detailed_flags(detail_model(*d), dir@),
{
    let mut flags: Vec<InstallFlag> = Vec::new();
    proof {
        assert(flags_model(flags@) =~= Seq::empty());
    }
    if let Some(version) = &d.version {
        let f = new_flag_one("--version", fix_version(version.as_str()));
        proof {
            lemma_flags_model_push(flags@, f);
        }
        flags.push(f);
    }
    assert(flags_model(flags@) =~= version_part(detail_model(*d)));
    if let Some(registry) = &d.registry {
        let f = new_flag_one("--registry", registry.clone());
        proof {
            lemma_flags_model_push(flags@, f);
        }
        flags.push(f);
    }
    assert(flags_model(flags@) =~= version_part(detail_model(*d)) + registry_part(detail_model(*d)));
    if let Some(path) = &d.path {
        let f = new_flag_one("--path", join_rel(dir, path.as_str()));
        proof {
            lemma_flags_model_push(flags@, f);
        }
        flags.push(f);
    }
    assert(flags_model(flags@) =~= version_part(detail_model(*d)) + registry_part(detail_model(*d)) + path_part(detail_model(*d), dir@));
    if let Some(git) = &d.git {
        let f = new_flag_one("--git", git.clone());
        proof {
            lemma_flags_model_push(flags@, f);
        }
        flags.push(f);
    }
    assert(flags_model(flags@) =~= version_part(detail_model(*d)) + registry_part(detail_model(*d)) + path_part(detail_model(*d), dir@)
        + git_part(detail_model(*d)));
    if let Some(rev) = &d.rev {
        let f = new_flag_one("--rev", rev.clone());
        proof {
            lemma_flags_model_push(flags@, f);
        }
        flags.push(f);
    }
    assert(flags_model(flags@) =~= version_part(detail_model(*d)) + registry_part(detail_model(*d)) + path_part(detail_model(*d), dir@)
        + git_part(detail_model(*d)) + rev_part(detail_model(*d)));
    if let Some(tag) = &d.tag {
        let f = new_flag_one("--tag", tag.clone());
        proof {
            lemma_flags_model_push(flags@, f);
        }
        flags.push(f);
    }
    assert(flags_model(flags@) =~= version_part(detail_model(*d)) + registry_part(detail_model(*d)) + path_part(detail_model(*d), dir@)
        + git_part(detail_model(*d)) + rev_part(detail_model(*d)) + tag_part(detail_model(*d)));
    if let Some(branch) = &d.branch {
        let f = new_flag_one("--branch", branch.clone());
        proof {
            lemma_flags_model_push(flags@, f);
        }
        flags.push(f);
    }
    assert(flags_model(flags@) =~= version_part(detail_model(*d)) + registry_part(detail_model(*d)) + path_part(detail_model(*d), dir@)
        + git_part(detail_model(*d)) + rev_part(detail_model(*d)) + tag_part(detail_model(*d)) + branch_part(detail_model(*d)));
    if !d.default_features {
        let f = new_flag("--no-default-features", Vec::new());
        proof {
            assert(f.values.deep_view() =~= Seq::<Seq<char>>::empty());
            lemma_flags_model_push(flags@, f);
        }
        flags.push(f);
    }
    assert(flags_model(flags@) =~= version_part(detail_model(*d)) + registry_part(detail_model(*d)) + path_part(detail_model(*d), dir@)
        + git_part(detail_model(*d)) + rev_part(detail_model(*d)) + tag_part(detail_model(*d)) + branch_part(detail_model(*d))
        + no_default_features_part(detail_model(*d)));
    if d.features.len() > 0 {
        let f = new_flag("--features", d.features.clone());
        proof {
            assert(f.values.deep_view() =~= d.features.deep_view());
            lemma_flags_model_push(flags@, f);
        }
        flags.push(f);
    }
    assert(flags_model(flags@) =~= detailed_flags(detail_model(*d), dir@));
    flags
}

/// Translates one named dependency descriptor into zero or one install
/// request: nothing for an unrecognized descriptor, an install with
/// the flags of `translated` otherwise.
pub fn translate_dep(name: String, dep: &DepSpec, dir: &str) -> (r: Option<Install>)
    ensures
        match translated(name@, *dep, dir@) {
            Some(m) => r is Some && install_model(r.unwrap()) == m,
            None => r is None,
        },
{
    match dep {
        DepSpec::Simple(version) => {
            let f = new_flag_one("--version", fix_version(version.as_str()));
            let flags = vec![f];
            proof {
                assert(flags_model(flags@) =~= seq![flag_model(f)]);
            }
            Option::Some(Install { name, flags })
        },
        DepSpec::Detailed(det) => {
            let flags = detailed_flags_of(det, dir);
            let install_name = match &det.package {
                Option::Some(p) => p.clone(),
                Option::None => name,
            };
            Option::Some(Install { name: install_name, flags })
        },
        DepSpec::Other => Option::None,
    }
}

/// The translation of an ordered entry list: each entry contributes
/// its translation when one exists, in order, and an unrecognized
/// entry contributes nothing without disturbing its siblings.
pub open spec fn translated_all(entries: Seq<(Seq<char>, DepModel)>, dir: Seq<char>) -> Seq<
    (Seq<char>, Seq<(Seq<char>, Seq<Seq<char>>)>),
>
    decreases entries.len(),
{
    if entries.len() == 0 {
        Seq::empty()
    } else {
        (match translated_m(entries[0].0, entries[0].1, dir) {
            Some(m) => seq![m],
            None => Seq::empty(),
        }) + translated_all(entries.subrange(1, entries.len() as int), dir)
    }
}

/// Translating a list with one entry appended translates the list and
/// then the entry.
proof fn lemma_translated_all_snoc(entries: Seq<(Seq<char>, DepModel)>, e: (Seq<char>, DepModel), dir: Seq<char>)
    ensures
        translated_all(entries.push(e), dir) =~= translated_all(entries, dir) + (
        match translated_m(e.0, e.1, dir) {
            Some(m) => seq![m],
            None => Seq::empty(),
        }),
    decreases entries.len(),
{
    let pushed = entries.push(e);
    let opt_e = (match translated_m(e.0, e.1, dir) {
        Some(m) => seq![m],
        None => Seq::<(Seq<char>, Seq<(Seq<char>, Seq<Seq<char>>)>)>::empty(),
    });
    assert(translated_all(Seq::<(Seq<char>, DepModel)>::empty(), dir) =~= Seq::empty());
    if entries.len() == 0 {
        assert(pushed[0] == e);
        assert(pushed.subrange(1, pushed.len() as int) =~= Seq::<(Seq<char>, DepModel)>::empty());
        assert(entries =~= Seq::<(Seq<char>, DepModel)>::empty());
        assert(translated_all(pushed, dir) =~= opt_e);
        assert(translated_all(entries, dir) + opt_e =~= opt_e);
    } else {
        let tail = entries.subrange(1, entries.len() as int);
        assert(pushed[0] == entries[0]);
        assert(pushed.subrange(1, pushed.len() as int) =~= tail.push(e));
        lemma_translated_all_snoc(tail, e, dir);
        let head = (match translated_m(entries[0].0, entries[0].1, dir) {
            Some(m) => seq![m],
            None => Seq::<(Seq<char>, Seq<(Seq<char>, Seq<Seq<char>>)>)>::empty(),
        });
        assert(translated_all(pushed, dir) =~= head + (translated_all(tail, dir) + opt_e));
        assert(translated_all(entries, dir) =~= head + translated_all(tail, dir));
    }
}

/// The names of the entries translation skips: one per unrecognized
/// descriptor, in entry order. These are the subjects of the
/// non-fatal diagnostic the caller emits.
pub open spec fn skipped_all(entries: Seq<(Seq<char>, DepModel)>) -> Seq<Seq<char>>
    decreases entries.len(),
{
    if entries.len() == 0 {
        Seq::empty()
    } else {
        (if entries[0].1 is Other {
            seq![entries[0].0]
        } else {
            Seq::empty()
        }) + skipped_all(entries.subrange(1, entries.len() as int))
    }
}

/// Skipping a list with one entry appended skips the list and then the
/// entry.
proof fn lemma_skipped_all_snoc(entries: Seq<(Seq<char>, DepModel)>, e: (Seq<char>, DepModel))
    ensures
        skipped_all(entries.push(e)) =~= skipped_all(entries) + (if e.1 is Other {
            seq![e.0]
        } else {
            Seq::empty()
        }),
    decreases entries.len(),
{
    let pushed = entries.push(e);
    assert(skipped_all(Seq::<(Seq<char>, DepModel)>::empty()) =~= Seq::empty());
    if entries.len() == 0 {
        assert(pushed[0] == e);
        assert(pushed.subrange(1, pushed.len() as int) =~= Seq::<(Seq<char>, DepModel)>::empty());
        assert(entries =~= Seq::<(Seq<char>, DepModel)>::empty());
    } else {
        let tail = entries.subrange(1, entries.len() as int);
        assert(pushed[0] == entries[0]);
        assert(pushed.subrange(1, pushed.len() as int) =~= tail.push(e));
        lemma_skipped_all_snoc(tail, e);
        let head = (if entries[0].1 is Other {
            seq![entries[0].0]
        } else {
            Seq::<Seq<char>>::empty()
        });
        let opt_e = (if e.1 is Other {
            seq![e.0]
        } else {
            Seq::<Seq<char>>::empty()
        });
        assert(skipped_all(pushed) =~= head + (skipped_all(tail) + opt_e));
        assert(skipped_all(entries) =~= head + skipped_all(tail));
    }
}

/// Translation distributes over concatenation of entry lists.
pub proof fn lemma_translated_all_concat(
    a: Seq<(Seq<char>, DepModel)>,
    b: Seq<(Seq<char>, DepModel)>,
    dir: Seq<char>,
)
    ensures
        translated_all(a + b, dir) =~= translated_all(a, dir) + translated_all(b, dir),
    decreases a.len(),
{
    assert(translated_all(Seq::<(Seq<char>, DepModel)>::empty(), dir) =~= Seq::empty());
    if a.len() == 0 {
        assert(a + b =~= b);
    } else {
        let whole = a + b;
        assert(whole[0] == a[0]);
        assert(whole.subrange(1, whole.len() as int) =~= a.subrange(1, a.len() as int) + b);
        lemma_translated_all_concat(a.subrange(1, a.len() as int), b, dir);
    }
}

/// An unrecognized descriptor raises no error and leaves no trace:
/// translating an entry list with an unrecognized entry between two
/// halves yields exactly the translation of the two halves, so every
/// sibling entry is still translated, in its place.
pub proof fn lemma_unrecognized_entry_dropped(
    pre: Seq<(Seq<char>, DepModel)>,
    name: Seq<char>,
    post: Seq<(Seq<char>, DepModel)>,
    dir: Seq<char>,
)
    ensures
        translated_all(pre + seq![(name, DepModel::Other)] + post, dir) =~= translated_all(
            pre + post,
            dir,
        ),
{
    let mid = seq![(name, DepModel::Other)];
    lemma_translated_all_concat(pre + mid, post, dir);
    lemma_translated_all_concat(pre, mid, dir);
    lemma_translated_all_concat(pre, post, dir);
    assert(mid.subrange(1, 1) =~= Seq::<(Seq<char>, DepModel)>::empty());
    assert(translated_all(Seq::<(Seq<char>, DepModel)>::empty(), dir) =~= Seq::empty());
    assert(translated_all(mid, dir) =~= Seq::empty());
}

/// Translates every entry of an ordered list, in order: the installs
/// of the recognized entries, and beside them the names of the
/// unrecognized entries that were skipped, for the caller's
/// non-fatal diagnostic.
pub fn translate_entries(entries: Vec<(String, DepSpec)>, dir: &str) -> (r: (
    Vec<Install>,
    Vec<String>,
))
    ensures
        installs_model(r.0@) == translated_all(entries_dep_model(entries@), dir@),
        r.1.deep_view() == skipped_all(entries_dep_model(entries@)),
{
    let mut out: Vec<Install> = Vec::new();
    let mut skipped: Vec<String> = Vec::new();
    proof {
        assert(installs_model(out@) =~= translated_all(
            entries_dep_model(entries@).subrange(0, 0),
            dir@,
        ));
        assert(skipped.deep_view() =~= skipped_all(entries_dep_model(entries@).subrange(0, 0)));
    }
    let n = entries.len();
    let mut i: usize = 0;
    while i < n
        invariant
            n == entries.len(),
            i <= n,
            installs_model(out@) =~= translated_all(
                entries_dep_model(entries@).subrange(0, i as int),
                dir@,
            ),
            skipped.deep_view() =~= skipped_all(entries_dep_model(entries@).subrange(0, i as int)),
        decreases n - i,
    {
        let (name, dep) = &entries[i];
        let t = translate_dep(name.clone(), dep, dir);
        proof {
            let prefix = entries_dep_model(entries@).subrange(0, i as int);
            let e = entries_dep_model(entries@)[i as int];
            lemma_translated_all_snoc(prefix, e, dir@);
            lemma_skipped_all_snoc(prefix, e);
            assert(entries_dep_model(entries@).subrange(0, i + 1) =~= prefix.push(e));
        }
        match t {
            Option::Some(install) => {
                proof {
                    let prev = out@;
                    assert(installs_model(prev.push(install)) =~= installs_model(prev) + seq![
                        install_model(install),
                    ]);
                }
                out.push(install);
            },
            Option::None => {
                let ghost prev_model = skipped.deep_view();
                skipped.push(name.clone());
                proof {
                    assert(skipped.deep_view() =~= prev_model + seq![name@]);
                }
            },
        }
        i = i + 1;
    }
    proof {
        assert(entries_dep_model(entries@).subrange(0, n as int) =~= entries_dep_model(entries@));
    }
    (out, skipped)
}

} // verus!
