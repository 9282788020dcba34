use vstd::prelude::*;

use crate::text::{chars_of, contains_double_dash, copy_range, has_double_dash, same_text};

verus! {

/// The longest author name accepted.
pub const MAX_AUTHOR_LEN: usize = 39;

/// The longest summary accepted, in characters.
pub const MAX_SUMMARY_LEN: usize = 80;

/// The rule that an author name broke.
#[derive(Debug, Clone, Copy, PartialEq, Eq, Structural)]
pub enum AuthorRule {
    Empty,
    LeadingDash,
    TrailingDash,
    DoubleDash,
    TooLong,
    NotAlphanumeric,
}

/// The rule that a project name broke.
#[derive(Debug, Clone, Copy, PartialEq, Eq, Structural)]
pub enum ProjectRule {
    Empty,
    DoubleDash,
    TrailingDash,
    InvalidCharacter,
    NotStartingWithLetter,
}

/// Why a field of the manifest was rejected.
#[derive(Debug, Clone, Copy, PartialEq, Eq, Structural)]
pub enum ValidationError {
    MalformedName,
    InvalidAuthor(AuthorRule),
    InvalidProject(ProjectRule),
    SummaryTooLong,
    UnapprovedLicense,
}

/// An ASCII lowercase letter.
pub open spec fn is_lower(c: char) -> bool {
    'a' <= c <= 'z'
}

/// An ASCII decimal digit.
pub open spec fn is_digit(c: char) -> bool {
    '0' <= c <= '9'
}

/// A character allowed in an author name.
pub open spec fn is_author_char(c: char) -> bool {
    is_lower(c) || ('A' <= c <= 'Z') || is_digit(c) || c == '-'
}

/// A character allowed in a project name.
pub open spec fn is_project_char(c: char) -> bool {
    is_lower(c) || is_digit(c) || c == '-'
}

/// The first rule, in the order they are checked, that author name `a` breaks.
pub open spec fn author_check(a: Seq<char>) -> Option<AuthorRule> {
    if a.len() == 0 {
        Some(AuthorRule::Empty)
    } else if a[0] == '-' {
        Some(AuthorRule::LeadingDash)
    } else if a.last() == '-' {
        Some(AuthorRule::TrailingDash)
    } else if has_double_dash(a) {
        Some(AuthorRule::DoubleDash)
    } else if a.len() > MAX_AUTHOR_LEN {
        Some(AuthorRule::TooLong)
    } else if !(forall|i: int| 0 <= i < a.len() ==> is_author_char(#[trigger] a[i])) {
        Some(AuthorRule::NotAlphanumeric)
    } else {
        None
    }
}

/// The first rule, in the order they are checked, that project name `p` breaks.
pub open spec fn project_check(p: Seq<char>) -> Option<ProjectRule> {
    if p.len() == 0 {
        Some(ProjectRule::Empty)
    } else if has_double_dash(p) {
        Some(ProjectRule::DoubleDash)
    } else if p.last() == '-' {
        Some(ProjectRule::TrailingDash)
    } else if !(forall|i: int| 0 <= i < p.len() ==> is_project_char(#[trigger] p[i])) {
        Some(ProjectRule::InvalidCharacter)
    } else if !is_lower(p[0]) {
        Some(ProjectRule::NotStartingWithLetter)
    } else {
        None
    }
}

fn check_author(a: &Vec<char>) -> (r: Option<AuthorRule>)
    ensures
        r == author_check(a@),
{
    let n = a.len();
    if n == 0 {
        return Some(AuthorRule::Empty);
    }
    if a[0] == '-' {
        return Some(AuthorRule::LeadingDash);
    }
    if a[n - 1] == '-' {
        return Some(AuthorRule::TrailingDash);
    }
    if contains_double_dash(a) {
        return Some(AuthorRule::DoubleDash);
    }
    if n > MAX_AUTHOR_LEN {
        return Some(AuthorRule::TooLong);
    }
    let mut i: usize = 0;
    while i < n
        invariant
            n == a.len(),
            0 <= i <= n,
            n > 0,
            a@[0] != '-',
            a@.last() != '-',
            !has_double_dash(a@),
            n <= MAX_AUTHOR_LEN,
            forall|j: int| 0 <= j < i ==> is_author_char(#[trigger] a@[j]),
        decreases n - i,
    {
        let c = a[i];
        if !(('a' <= c && c <= 'z') || ('A' <= c && c <= 'Z') || ('0' <= c && c <= '9') || c == '-') {
            assert(!is_author_char(a@[i as int]));
            assert(!(forall|j: int| 0 <= j < a@.len() ==> is_author_char(#[trigger] a@[j])));
            assert(a@.last() == a@[n - 1]);
            return Some(AuthorRule::NotAlphanumeric);
        }
        i = i + 1;
    }
    None
}

fn check_project(p: &Vec<char>) -> (r: Option<ProjectRule>)
    ensures
        r == project_check(p@),
{
    let n = p.len();
    if n == 0 {
        return Some(ProjectRule::Empty);
    }
    if contains_double_dash(p) {
        return Some(ProjectRule::DoubleDash);
    }
    if p[n - 1] == '-' {
        return Some(ProjectRule::TrailingDash);
    }
    let mut i: usize = 0;
    while i < n
        invariant
            n == p.len(),
            0 <= i <= n,
            n > 0,
            p@.last() != '-',
            !has_double_dash(p@),
            forall|j: int| 0 <= j < i ==> is_project_char(#[trigger] p@[j]),
        decreases n - i,
    {
        let c = p[i];
        if !(('a' <= c && c <= 'z') || ('0' <= c && c <= '9') || c == '-') {
            assert(!is_project_char(p@[i as int]));
            assert(!(forall|j: int| 0 <= j < p@.len() ==> is_project_char(#[trigger] p@[j])));
            assert(p@.last() == p@[n - 1]);
            return Some(ProjectRule::InvalidCharacter);
        }
        i = i + 1;
    }
    if !('a' <= p[0] && p[0] <= 'z') {
        return Some(ProjectRule::NotStartingWithLetter);
    }
    None
}

/// Checks an author name, reporting the first rule it breaks.
pub fn validate_author(author: &str) -> (r: Result<(), ValidationError>)
    ensures
        r == (match author_check(author@) {
            Some(rule) => Err(ValidationError::InvalidAuthor(rule)),
            None => Ok(()),
        }),
{
    match check_author(&chars_of(author)) {
        Some(rule) => Err(ValidationError::InvalidAuthor(rule)),
        None => Ok(()),
    }
}

/// Checks a project name, reporting the first rule it breaks.
pub fn validate_project(project: &str) -> (r: Result<(), ValidationError>)
    ensures
        r == (match project_check(project@) {
            Some(rule) => Err(ValidationError::InvalidProject(rule)),
            None => Ok(()),
        }),
{
    match check_project(&chars_of(project)) {
        Some(rule) => Err(ValidationError::InvalidProject(rule)),
        None => Ok(()),
    }
}

/// What `str::trim` leaves of `s`.
pub uninterp spec fn trimmed(s: Seq<char>) -> Seq<char>;

/// Relies on `str::trim`: the slice of `s` without its leading and trailing
/// whitespace, which depends on the characters of `s` alone.
#[verifier::external_body]
fn trim_whitespace(s: &str) -> (r: &str)
    ensures
        r@ == trimmed(s@),
{
    s.trim()
}

/// Whether `t` holds exactly one `/`, at index `k`.
pub open spec fn single_slash_at(t: Seq<char>, k: int) -> bool {
    &&& 0 <= k < t.len()
    &&& t[k] == '/'
    &&& forall|j: int| 0 <= j < t.len() && j != k ==> #[trigger] t[j] != '/'
}

/// The index of the one `/` of `t`, where there is exactly one.
pub open spec fn slash_index(t: Seq<char>) -> int {
    choose|k: int| single_slash_at(t, k)
}

/// The verdict on an already trimmed package name `t`: the author part is
/// checked before the project part.
pub open spec fn name_check(t: Seq<char>) -> Result<(), ValidationError> {
    if exists|k: int| single_slash_at(t, k) {
        let k = slash_index(t);
        match author_check(t.subrange(0, k)) {
            Some(rule) => Err(ValidationError::InvalidAuthor(rule)),
            None => match project_check(t.subrange(k + 1, t.len() as int)) {
                Some(rule) => Err(ValidationError::InvalidProject(rule)),
                None => Ok(()),
            },
        }
    } else {
        Err(ValidationError::MalformedName)
    }
}

/// Checks a package name of the form `author/project`, after trimming the
/// whitespace around it; on success returns the trimmed name.
pub fn validate_package_name(name: String) -> (r: Result<String, ValidationError>)
    ensures
        match r {
            Ok(t) => name_check(trimmed(name@)) is Ok && t@ == trimmed(name@),
            Err(e) => name_check(trimmed(name@)) == Err::<(), ValidationError>(e),
        },
{
    let t = trim_whitespace(name.as_str());
    let cs = chars_of(t);
    let ghost s = cs@;
    let mut count: usize = 0;
    let mut pos: usize = 0;
    let mut i: usize = 0;
    while i < cs.len()
        invariant
            s == cs@,
            0 <= i <= cs.len(),
            count <= i,
            count == 0 ==> forall|j: int| 0 <= j < i ==> #[trigger] s[j] != '/',
            count == 1 ==> pos < i && s[pos as int] == '/' && forall|j: int|
                0 <= j < i && j != pos ==> #[trigger] s[j] != '/',
            count >= 2 ==> !(exists|k: int| single_slash_at(s, k)),
        decreases cs.len() - i,
    {
        if cs[i] == '/' {
            if count == 1 {
                assert forall|k: int| !single_slash_at(s, k) by {
                    if single_slash_at(s, k) {
                        if k == pos {
                            assert(s[i as int] != '/');
                        } else {
                            assert(s[pos as int] != '/');
                        }
                    }
                }
            }
            if count < 2 {
                count = count + 1;
            }
            pos = i;
        }
        i = i + 1;
    }
    if count != 1 {
        if count == 0 {
            assert forall|k: int| !single_slash_at(s, k) by {
                if single_slash_at(s, k) {
                    assert(s[k] != '/');
                }
            }
        }
        return Err(ValidationError::MalformedName);
    }
    proof {
        assert(single_slash_at(s, pos as int));
        let k = slash_index(s);
        if k != pos {
            assert(s[pos as int] != '/');
        }
    }
    let author = copy_range(&cs, 0, pos);
    match check_author(&author) {
        Some(rule) => {
            return Err(ValidationError::InvalidAuthor(rule));
        },
        None => {},
    }
    let project = copy_range(&cs, pos + 1, cs.len());
    match check_project(&project) {
        Some(rule) => {
            return Err(ValidationError::InvalidProject(rule));
        },
        None => {},
    }
    Ok(t.to_owned())
}

/// Checks that a summary has at most eighty characters; returns it unchanged.
pub fn validate_summary(summary: String) -> (r: Result<String, ValidationError>)
    ensures
        summary@.len() <= MAX_SUMMARY_LEN ==> r == Ok::<String, ValidationError>(summary),
        summary@.len() > MAX_SUMMARY_LEN ==> r == Err::<String, ValidationError>(
            ValidationError::SummaryTooLong,
        ),
{
    let n = chars_of(summary.as_str()).len();
    if n > MAX_SUMMARY_LEN {
        return Err(ValidationError::SummaryTooLong);
    }
    Ok(summary)
}

/// Whether `s` is, character for character, one of the entries of `list`.
pub open spec fn listed(s: Seq<char>, list: Seq<&str>) -> bool {
    exists|i: int| 0 <= i < list.len() && (#[trigger] list[i])@ == s
}

/// Checks that a license is, exactly and with the same case, one of
/// `allow_list`; returns it unchanged.
pub fn validate_license(license: String, allow_list: &[&str]) -> (r: Result<String, ValidationError>)
    ensures
        listed(license@, allow_list@) ==> r == Ok::<String, ValidationError>(license),
        !listed(license@, allow_list@) ==> r == Err::<String, ValidationError>(
            ValidationError::UnapprovedLicense,
        ),
{
    let mut i: usize = 0;
    while i < allow_list.len()
        invariant
            0 <= i <= allow_list@.len(),
            forall|j: int| 0 <= j < i ==> (#[trigger] allow_list@[j])@ != license@,
        decreases allow_list@.len() - i,
    {
        if same_text(allow_list[i], license.as_str()) {
            return Ok(license);
        }
        i = i + 1;
    }
    Err(ValidationError::UnapprovedLicense)
}

/// The SPDX identifiers of the licenses that a package may carry.
pub open spec fn approved_license_ids() -> Seq<Seq<char>> {
    seq![
        "AFL-1.1"@,
        "AFL-1.2"@,
        "AFL-2.0"@,
        "AFL-2.1"@,
        "AFL-3.0"@,
        "APL-1.0"@,
        "Apache-1.1"@,
        "Apache-2.0"@,
        "APSL-1.0"@,
        "APSL-1.1"@,
        "APSL-1.2"@,
        "APSL-2.0"@,
        "Artistic-1.0"@,
        "Artistic-1.0-Perl"@,
        "Artistic-1.0-cl8"@,
        "Artistic-2.0"@,
        "AAL"@,
        "BSL-1.0"@,
        "BSD-2-Clause"@,
        "BSD-3-Clause"@,
        "0BSD"@,
        "CECILL-2.1"@,
        "CNRI-Python"@,
        "CDDL-1.0"@,
        "CPAL-1.0"@,
        "CPL-1.0"@,
        "CATOSL-1.1"@,
        "CUA-OPL-1.0"@,
        "EPL-1.0"@,
        "ECL-1.0"@,
        "ECL-2.0"@,
        "EFL-1.0"@,
        "EFL-2.0"@,
        "Entessa"@,
        "EUDatagrid"@,
        "EUPL-1.1"@,
        "Fair"@,
        "Frameworx-1.0"@,
        "AGPL-3.0"@,
        "GPL-2.0"@,
        "GPL-3.0"@,
        "LGPL-2.1"@,
        "LGPL-3.0"@,
        "LGPL-2.0"@,
        "HPND"@,
        "IPL-1.0"@,
        "Intel"@,
        "IPA"@,
        "ISC"@,
        "LPPL-1.3c"@,
        "LiLiQ-P-1.1"@,
        "LiLiQ-Rplus-1.1"@,
        "LiLiQ-R-1.1"@,
        "LPL-1.02"@,
        "LPL-1.0"@,
        "MS-PL"@,
        "MS-RL"@,
        "MirOS"@,
        "MIT"@,
        "Motosoto"@,
        "MPL-1.0"@,
        "MPL-1.1"@,
        "MPL-2.0"@,
        "MPL-2.0-no-copyleft-exception"@,
        "Multics"@,
        "NASA-1.3"@,
        "Naumen"@,
        "NGPL"@,
        "Nokia"@,
        "NPOSL-3.0"@,
        "NTP"@,
        "OCLC-2.0"@,
        "OGTSL"@,
        "OSL-1.0"@,
        "OSL-2.0"@,
        "OSL-2.1"@,
        "OSL-3.0"@,
        "OSET-PL-2.1"@,
        "PHP-3.0"@,
        "PostgreSQL"@,
        "Python-2.0"@,
        "QPL-1.0"@,
        "RPSL-1.0"@,
        "RPL-1.1"@,
        "RPL-1.5"@,
        "RSCPL"@,
        "OFL-1.1"@,
        "SimPL-2.0"@,
        "Sleepycat"@,
        "SISSL"@,
        "SPL-1.0"@,
        "Watcom-1.0"@,
        "UPL-1.0"@,
        "NCSA"@,
        "VSL-1.0"@,
        "W3C"@,
        "Xnet"@,
        "Zlib"@,
        "ZPL-2.0"@,
    ]
}

/// The SPDX identifiers of the licenses that a package may carry, in the
/// order of `approved_license_ids`.
pub fn approved_licenses() -> (r: Vec<&'static str>)
    ensures
        r@.len() == approved_license_ids().len(),
        forall|i: int| 0 <= i < r@.len() ==> (#[trigger] r@[i])@ == approved_license_ids()[i],
{
    let r = vec![
        "AFL-1.1",
        "AFL-1.2",
        "AFL-2.0",
        "AFL-2.1",
        "AFL-3.0",
        "APL-1.0",
        "Apache-1.1",
        "Apache-2.0",
        "APSL-1.0",
        "APSL-1.1",
        "APSL-1.2",
        "APSL-2.0",
        "Artistic-1.0",
        "Artistic-1.0-Perl",
        "Artistic-1.0-cl8",
        "Artistic-2.0",
        "AAL",
        "BSL-1.0",
        "BSD-2-Clause",
        "BSD-3-Clause",
        "0BSD",
        "CECILL-2.1",
        "CNRI-Python",
        "CDDL-1.0",
        "CPAL-1.0",
        "CPL-1.0",
        "CATOSL-1.1",
        "CUA-OPL-1.0",
        "EPL-1.0",
        "ECL-1.0",
        "ECL-2.0",
        "EFL-1.0",
        "EFL-2.0",
        "Entessa",
        "EUDatagrid",
        "EUPL-1.1",
        "Fair",
        "Frameworx-1.0",
        "AGPL-3.0",
        "GPL-2.0",
        "GPL-3.0",
        "LGPL-2.1",
        "LGPL-3.0",
        "LGPL-2.0",
        "HPND",
        "IPL-1.0",
        "Intel",
        "IPA",
        "ISC",
        "LPPL-1.3c",
        "LiLiQ-P-1.1",
        "LiLiQ-Rplus-1.1",
        "LiLiQ-R-1.1",
        "LPL-1.02",
        "LPL-1.0",
        "MS-PL",
        "MS-RL",
        "MirOS",
        "MIT",
        "Motosoto",
        "MPL-1.0",
        "MPL-1.1",
        "MPL-2.0",
        "MPL-2.0-no-copyleft-exception",
        "Multics",
        "NASA-1.3",
        "Naumen",
        "NGPL",
        "Nokia",
        "NPOSL-3.0",
        "NTP",
        "OCLC-2.0",
        "OGTSL",
        "OSL-1.0",
        "OSL-2.0",
        "OSL-2.1",
        "OSL-3.0",
        "OSET-PL-2.1",
        "PHP-3.0",
        "PostgreSQL",
        "Python-2.0",
        "QPL-1.0",
        "RPSL-1.0",
        "RPL-1.1",
        "RPL-1.5",
        "RSCPL",
        "OFL-1.1",
        "SimPL-2.0",
        "Sleepycat",
        "SISSL",
        "SPL-1.0",
        "Watcom-1.0",
        "UPL-1.0",
        "NCSA",
        "VSL-1.0",
        "W3C",
        "Xnet",
        "Zlib",
        "ZPL-2.0",
    ];
    assert(r@.map_values(|x: &str| x@) =~= approved_license_ids());
    r
}

} // verus!
