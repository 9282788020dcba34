use vstd::prelude::*;
use vstd::string::StringExecFns;

use crate::validate::{approved_license_ids, name_check, MAX_SUMMARY_LEN};

verus! {

/// What `serde_json::to_string` writes for the string `s`: a JSON string
/// literal, quotes and escapes included.
pub uninterp spec fn json_quoted(s: Seq<char>) -> Seq<char>;

/// Relies on `serde_json::to_string` on a `str`: the JSON string literal for
/// `s`, which depends on the characters of `s` alone. Its documentation names
/// two causes of failure, a `Serialize` impl that fails and a map with
/// non-string keys; neither can arise from a `str`.
#[verifier::external_body]
fn json_quote(s: &str) -> (r: String)
    ensures
        r@ == json_quoted(s@),
{
    serde_json::to_string(s).unwrap_or_default()
}

/// The fields of a package, as sequences of characters.
pub struct PackageView {
    pub name: Seq<char>,
    pub summary: Seq<char>,
    pub license: Seq<char>,
}

/// Whether the fields of a package passed validation: a well-formed
/// `author/project` name, a summary of at most eighty characters and an
/// approved license.
pub open spec fn package_fields_valid(p: PackageView) -> bool {
    &&& name_check(p.name) is Ok
    &&& p.summary.len() <= MAX_SUMMARY_LEN
    &&& approved_license_ids().contains(p.license)
}

/// A package manifest's own fields. Only validated fields make one.
pub struct Package {
    name: String,
    summary: String,
    license: String,
}

impl View for Package {
    type V = PackageView;

    closed spec fn view(&self) -> PackageView {
        PackageView { name: self.name@, summary: self.summary@, license: self.license@ }
    }
}

impl Package {
    #[verifier::type_invariant]
    spec fn fields_valid(&self) -> bool {
        package_fields_valid(self@)
    }

    /// Gathers validated fields into a package.
    pub fn new(name: String, summary: String, license: String) -> (r: Package)
        requires
            package_fields_valid(PackageView { name: name@, summary: summary@, license: license@ }),
        ensures
            r@ == (PackageView { name: name@, summary: summary@, license: license@ }),
    {
        Package { name, summary, license }
    }

    /// The validated `author/project` name.
    pub fn name(&self) -> (r: &str)
        ensures
            r@ == self@.name,
            package_fields_valid(self@),
    {
        proof {
            use_type_invariant(self);
        }
        self.name.as_str()
    }

    /// The validated summary.
    pub fn summary(&self) -> (r: &str)
        ensures
            r@ == self@.summary,
            package_fields_valid(self@),
    {
        proof {
            use_type_invariant(self);
        }
        self.summary.as_str()
    }

    /// The validated license.
    pub fn license(&self) -> (r: &str)
        ensures
            r@ == self@.license,
            package_fields_valid(self@),
    {
        proof {
            use_type_invariant(self);
        }
        self.license.as_str()
    }
}

/// An elm.json manifest: an application, or a package.
pub enum Manifest {
    Application,
    Package(Package),
}

/// A manifest, with each package field as a sequence of characters.
pub enum ManifestView {
    Application,
    Package(PackageView),
}

impl View for Manifest {
    type V = ManifestView;

    open spec fn view(&self) -> ManifestView {
        match self {
            Manifest::Application => ManifestView::Application,
            Manifest::Package(p) => ManifestView::Package(p@),
        }
    }
}

/// The manifest of a new application.
pub fn build_application() -> (r: Manifest)
    ensures
        r@ == ManifestView::Application,
{
    Manifest::Application
}

/// The manifest of a new package with the given fields, which must have
/// passed validation.
pub fn build_package(name: String, summary: String, license: String) -> (r: Manifest)
    requires
        package_fields_valid(PackageView { name: name@, summary: summary@, license: license@ }),
    ensures
        r@ == ManifestView::Package(
            PackageView { name: name@, summary: summary@, license: license@ },
        ),
{
    Manifest::Package(Package::new(name, summary, license))
}

/// One member of a JSON object: the key, and the text of the value.
pub type Member = (Seq<char>, Seq<char>);

/// A member on its own line, indented one level.
pub open spec fn member_line(m: Member) -> Seq<char> {
    "    \""@ + m.0 + "\": "@ + m.1
}

/// The members' lines, separated by commas.
pub open spec fn members_text(ms: Seq<Member>) -> Seq<char>
    decreases ms.len(),
{
    if ms.len() == 0 {
        Seq::empty()
    } else if ms.len() == 1 {
        member_line(ms[0])
    } else {
        members_text(ms.drop_last()) + ",\n"@ + member_line(ms.last())
    }
}

/// A JSON object over several lines, four spaces to the level.
pub open spec fn object_text(ms: Seq<Member>) -> Seq<char> {
    "{\n"@ + members_text(ms) + "\n}"@
}

/// The text of an empty pair of dependency tables, nested one level.
pub open spec fn dependency_tables_text() -> Seq<char> {
    "{\n        \"direct\": {},\n        \"indirect\": {}\n    }"@
}

/// The members of an application manifest, in order.
pub open spec fn application_members() -> Seq<Member> {
    seq![
        ("type"@, "\"application\""@),
        ("source-directories"@, "[\n        \"src\"\n    ]"@),
        ("elm-version"@, "\"0.19.0\""@),
        ("dependencies"@, dependency_tables_text()),
        ("test-dependencies"@, dependency_tables_text()),
    ]
}

/// The members of a package manifest, in order.
pub open spec fn package_members(p: PackageView) -> Seq<Member> {
    seq![
        ("type"@, "\"package\""@),
        ("name"@, json_quoted(p.name)),
        ("summary"@, json_quoted(p.summary)),
        ("license"@, json_quoted(p.license)),
        ("version"@, "\"1.0.0\""@),
        ("exposed-modules"@, "[]"@),
        ("elm-version"@, "\"0.19.0 <= v < 0.20.0\""@),
        ("dependencies"@, "{}"@),
        ("test-dependencies"@, "{}"@),
    ]
}

/// The members of a manifest's top-level object, in order.
pub open spec fn manifest_members(m: ManifestView) -> Seq<Member> {
    match m {
        ManifestView::Application => application_members(),
        ManifestView::Package(p) => package_members(p),
    }
}

/// The rendered text of a manifest.
pub open spec fn manifest_text(m: ManifestView) -> Seq<char> {
    object_text(manifest_members(m))
}

/// The members held by `ms`, as sequences of characters.
pub open spec fn members_view(ms: Seq<(&str, String)>) -> Seq<Member> {
    ms.map_values(|m: (&str, String)| (m.0@, m.1@))
}

fn object_string(ms: &Vec<(&str, String)>) -> (r: String)
    ensures
        r@ == object_text(members_view(ms@)),
{
    let ghost v = members_view(ms@);
    let mut out = String::new();
    out.append("{\n");
    let mut i: usize = 0;
    while i < ms.len()
        invariant
            v == members_view(ms@),
            0 <= i <= ms.len(),
            out@ == "{\n"@ + members_text(v.take(i as int)),
        decreases ms.len() - i,
    {
        let ghost before = out@;
        if i > 0 {
            out.append(",\n");
        }
        out.append("    \"");
        out.append(ms[i].0);
        out.append("\": ");
        out.append(ms[i].1.as_str());
        proof {
            let t = v.take(i + 1);
            assert(t.drop_last() =~= v.take(i as int));
            assert(t.last() == v[i as int]);
            if i == 0 {
                assert(out@ =~= before + member_line(v[0]));
            } else {
                assert(out@ =~= before + ",\n"@ + member_line(v[i as int]));
            }
        }
        i = i + 1;
    }
    assert(v.take(ms.len() as int) =~= v);
    out.append("\n}");
    out
}

/// Renders a manifest as JSON: keys in the manifest's fixed order, four
/// spaces of indentation per level, no trailing newline.
pub fn render(m: &Manifest) -> (r: String)
    ensures
        r@ == manifest_text(m@),
{
    let mut ms: Vec<(&str, String)> = Vec::new();
    match m {
        Manifest::Application => {
            let deps = "{\n        \"direct\": {},\n        \"indirect\": {}\n    }";
            ms.push(("type", String::from_str("\"application\"")));
            ms.push(("source-directories", String::from_str("[\n        \"src\"\n    ]")));
            ms.push(("elm-version", String::from_str("\"0.19.0\"")));
            ms.push(("dependencies", String::from_str(deps)));
            ms.push(("test-dependencies", String::from_str(deps)));
        },
        Manifest::Package(p) => {
            ms.push(("type", String::from_str("\"package\"")));
            ms.push(("name", json_quote(p.name())));
            ms.push(("summary", json_quote(p.summary())));
            ms.push(("license", json_quote(p.license())));
            ms.push(("version", String::from_str("\"1.0.0\"")));
            ms.push(("exposed-modules", String::from_str("[]")));
            ms.push(("elm-version", String::from_str("\"0.19.0 <= v < 0.20.0\"")));
            ms.push(("dependencies", String::from_str("{}")));
            ms.push(("test-dependencies", String::from_str("{}")));
        },
    }
    assert(members_view(ms@) =~= manifest_members(m@));
    object_string(&ms)
}

} // verus!
