use elm_json_new::validate::{
    approved_licenses, validate_author, validate_license, validate_package_name,
    validate_project, validate_summary, AuthorRule, ProjectRule, ValidationError,
};

#[test]
fn test_validate_author() {
    assert!(validate_author("foobar").is_ok());
    assert!(validate_author("").is_err());
    assert!(validate_author("\n").is_err());
    assert!(validate_author("1").is_ok());
    assert!(validate_author("foo-bar-123").is_ok());
    assert!(validate_author("-foo").is_err());
    assert!(validate_author("foo-").is_err());
}

#[test]
fn test_validate_project() {
    assert!(validate_project("foobar").is_ok());
    assert!(validate_project("").is_err());
    assert!(validate_project("fo-").is_err());
    assert!(validate_project("f-o").is_ok());
}

fn author_err(rule: AuthorRule) -> Result<(), ValidationError> {
    Err(ValidationError::InvalidAuthor(rule))
}

fn project_err(rule: ProjectRule) -> Result<(), ValidationError> {
    Err(ValidationError::InvalidProject(rule))
}

#[test]
fn author_rules_each_reported() {
    assert_eq!(validate_author(""), author_err(AuthorRule::Empty));
    assert_eq!(validate_author("-foo"), author_err(AuthorRule::LeadingDash));
    assert_eq!(validate_author("foo-"), author_err(AuthorRule::TrailingDash));
    assert_eq!(validate_author("fo--o"), author_err(AuthorRule::DoubleDash));
    assert_eq!(validate_author(&"a".repeat(40)), author_err(AuthorRule::TooLong));
    assert_eq!(validate_author("foo_bar"), author_err(AuthorRule::NotAlphanumeric));
    assert_eq!(validate_author("\n"), author_err(AuthorRule::NotAlphanumeric));
    assert_eq!(validate_author("AbC-9"), Ok(()));
}

#[test]
fn author_rules_checked_in_order() {
    // leading dash is reported before the double dash and the length
    assert_eq!(validate_author("--x"), author_err(AuthorRule::LeadingDash));
    // double dash before length, length before characters
    assert_eq!(validate_author(&format!("a--{}", "b".repeat(40))), author_err(AuthorRule::DoubleDash));
    assert_eq!(validate_author(&"_".repeat(40)), author_err(AuthorRule::TooLong));
}

#[test]
fn author_length_boundary() {
    assert_eq!(validate_author(&"a".repeat(39)), Ok(()));
    assert_eq!(validate_author(&"a".repeat(40)), author_err(AuthorRule::TooLong));
}

#[test]
fn project_rules_each_reported() {
    assert_eq!(validate_project(""), project_err(ProjectRule::Empty));
    assert_eq!(validate_project("ab--c"), project_err(ProjectRule::DoubleDash));
    assert_eq!(validate_project("ab-"), project_err(ProjectRule::TrailingDash));
    assert_eq!(validate_project("Abc"), project_err(ProjectRule::InvalidCharacter));
    assert_eq!(validate_project("a_b"), project_err(ProjectRule::InvalidCharacter));
    assert_eq!(validate_project("1abc"), project_err(ProjectRule::NotStartingWithLetter));
    assert_eq!(validate_project("-ab"), project_err(ProjectRule::NotStartingWithLetter));
    assert_eq!(validate_project("a"), Ok(()));
    assert_eq!(validate_project("my-project2"), Ok(()));
}

#[test]
fn package_name_accepted_and_trimmed() {
    assert_eq!(validate_package_name("alice/my-project".to_string()), Ok("alice/my-project".to_string()));
    assert_eq!(validate_package_name("  alice/a \n".to_string()), Ok("alice/a".to_string()));
}

#[test]
fn package_name_needs_one_slash() {
    assert_eq!(validate_package_name("alice".to_string()), Err(ValidationError::MalformedName));
    assert_eq!(validate_package_name("a/b/c".to_string()), Err(ValidationError::MalformedName));
    assert_eq!(validate_package_name("".to_string()), Err(ValidationError::MalformedName));
}

#[test]
fn package_name_empty_parts() {
    assert_eq!(
        validate_package_name("/proj".to_string()),
        Err(ValidationError::InvalidAuthor(AuthorRule::Empty))
    );
    assert_eq!(
        validate_package_name("alice/".to_string()),
        Err(ValidationError::InvalidProject(ProjectRule::Empty))
    );
}

#[test]
fn package_name_leading_dash_author() {
    assert_eq!(
        validate_package_name("-alice/proj".to_string()),
        Err(ValidationError::InvalidAuthor(AuthorRule::LeadingDash))
    );
}

#[test]
fn package_name_author_checked_before_project() {
    assert_eq!(
        validate_package_name("-alice/Proj".to_string()),
        Err(ValidationError::InvalidAuthor(AuthorRule::LeadingDash))
    );
    assert_eq!(
        validate_package_name("alice/1abc".to_string()),
        Err(ValidationError::InvalidProject(ProjectRule::NotStartingWithLetter))
    );
}

#[test]
fn package_name_boundaries() {
    let ok39 = format!("{}/a", "b".repeat(39));
    assert_eq!(validate_package_name(ok39.clone()), Ok(ok39));
    assert_eq!(
        validate_package_name(format!("{}/a", "b".repeat(40))),
        Err(ValidationError::InvalidAuthor(AuthorRule::TooLong))
    );
    assert_eq!(
        validate_package_name("bob/ab--c".to_string()),
        Err(ValidationError::InvalidProject(ProjectRule::DoubleDash))
    );
    assert_eq!(
        validate_package_name("bob/ab-".to_string()),
        Err(ValidationError::InvalidProject(ProjectRule::TrailingDash))
    );
}

#[test]
fn summary_length_boundary() {
    let s80 = "x".repeat(80);
    assert_eq!(validate_summary(s80.clone()), Ok(s80));
    assert_eq!(validate_summary("x".repeat(81)), Err(ValidationError::SummaryTooLong));
    assert_eq!(validate_summary(String::new()), Ok(String::new()));
}

#[test]
fn summary_counts_characters_not_bytes() {
    let wide = "é".repeat(80);
    assert_eq!(validate_summary(wide.clone()), Ok(wide));
    assert_eq!(validate_summary("é".repeat(81)), Err(ValidationError::SummaryTooLong));
}

#[test]
fn summary_is_not_trimmed() {
    assert_eq!(validate_summary("  padded  ".to_string()), Ok("  padded  ".to_string()));
}

#[test]
fn license_exact_match_only() {
    let list = approved_licenses();
    assert_eq!(validate_license("MIT".to_string(), &list), Ok("MIT".to_string()));
    assert_eq!(validate_license("mit".to_string(), &list), Err(ValidationError::UnapprovedLicense));
    assert_eq!(validate_license("MIT ".to_string(), &list), Err(ValidationError::UnapprovedLicense));
    assert_eq!(validate_license("".to_string(), &list), Err(ValidationError::UnapprovedLicense));
    assert_eq!(validate_license("BSD-3-Clause".to_string(), &list), Ok("BSD-3-Clause".to_string()));
    assert_eq!(validate_license("ZPL-2.0".to_string(), &list), Ok("ZPL-2.0".to_string()));
}

#[test]
fn license_against_given_list() {
    let list = ["Foo", "Bar-1.0"];
    assert_eq!(validate_license("Bar-1.0".to_string(), &list), Ok("Bar-1.0".to_string()));
    assert_eq!(validate_license("MIT".to_string(), &list), Err(ValidationError::UnapprovedLicense));
    assert_eq!(validate_license("MIT".to_string(), &[]), Err(ValidationError::UnapprovedLicense));
}

#[test]
fn approved_list_contents() {
    let list = approved_licenses();
    assert_eq!(list.len(), 99);
    assert_eq!(list[0], "AFL-1.1");
    assert_eq!(list[98], "ZPL-2.0");
    assert!(list.contains(&"Apache-2.0"));
    assert!(list.contains(&"ISC"));
    assert!(list.contains(&"GPL-3.0"));
}
