use vstd::prelude::*;

use crate::manifest::{manifest_text, package_members, ManifestView, PackageView};
use crate::text::has_double_dash;
use crate::validate::{
    author_check, is_author_char, is_lower, is_project_char, name_check, project_check,
    single_slash_at, slash_index, trimmed, MAX_AUTHOR_LEN,
};

verus! {

/// Every rule on an author name, taken together.
pub open spec fn author_valid(a: Seq<char>) -> bool {
    &&& a.len() > 0
    &&& a[0] != '-'
    &&& a.last() != '-'
    &&& !has_double_dash(a)
    &&& a.len() <= MAX_AUTHOR_LEN
    &&& forall|i: int| 0 <= i < a.len() ==> is_author_char(#[trigger] a[i])
}

/// Every rule on a project name, taken together.
pub open spec fn project_valid(p: Seq<char>) -> bool {
    &&& p.len() > 0
    &&& !has_double_dash(p)
    &&& p.last() != '-'
    &&& forall|i: int| 0 <= i < p.len() ==> is_project_char(#[trigger] p[i])
    &&& is_lower(p[0])
}

/// A package name is accepted exactly when, once trimmed, it has a single
/// `/`, with a valid author before it and a valid project after it.
pub proof fn lemma_package_name_rule(name: Seq<char>)
    ensures
        name_check(trimmed(name)) is Ok <==> exists|k: int|
            {
                &&& single_slash_at(trimmed(name), k)
                &&& author_valid(trimmed(name).subrange(0, k))
                &&& project_valid(trimmed(name).subrange(k + 1, trimmed(name).len() as int))
            },
{
    let t = trimmed(name);
    if exists|k: int| single_slash_at(t, k) {
        let k = slash_index(t);
        assert forall|j: int| single_slash_at(t, j) implies j == k by {
            if j != k {
                assert(t[k] != '/');
            }
        }
    }
}

/// Rendering depends on the manifest alone: equal manifests render to the
/// same text, whenever and however often they are rendered.
pub proof fn lemma_render_deterministic(a: ManifestView, b: ManifestView)
    requires
        a == b,
    ensures
        manifest_text(a) == manifest_text(b),
{
}

/// A rendered package is an object whose first keys are `type`, `name`,
/// `summary` and `license`, in that order, with `type` set to `"package"`
/// and the other three holding the package's fields.
pub proof fn lemma_package_key_order(p: PackageView)
    ensures
        package_members(p).len() >= 4,
        package_members(p).take(4).map_values(|m: (Seq<char>, Seq<char>)| m.0) == seq![
            "type"@,
            "name"@,
            "summary"@,
            "license"@,
        ],
        package_members(p)[0].1 == "\"package\""@,
        package_members(p)[1].1 == crate::manifest::json_quoted(p.name),
        package_members(p)[2].1 == crate::manifest::json_quoted(p.summary),
        package_members(p)[3].1 == crate::manifest::json_quoted(p.license),
        manifest_text(ManifestView::Package(p)) == crate::manifest::object_text(package_members(p)),
{
    assert(package_members(p).take(4).map_values(|m: (Seq<char>, Seq<char>)| m.0) =~= seq![
        "type"@,
        "name"@,
        "summary"@,
        "license"@,
    ]);
}

} // verus!
