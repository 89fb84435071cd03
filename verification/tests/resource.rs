use bencher_threshold::error::CliError;
use bencher_threshold::resource::is_valid_branch_name;
use bencher_threshold::resource::is_valid_slug;
use bencher_threshold::resource::ResourceId;

#[test]
fn resource_is_a_uuid_or_a_slug() {
    assert_eq!(
        ResourceId::from_str("550e8400-e29b-41d4-a716-446655440000"),
        Ok(ResourceId::Uuid(0x550e8400_e29b_41d4_a716_446655440000))
    );
    // The other ways of writing a UUID are read too.
    assert_eq!(
        ResourceId::from_str("550E8400E29B41D4A716446655440000"),
        Ok(ResourceId::Uuid(0x550e8400_e29b_41d4_a716_446655440000))
    );
    assert_eq!(
        ResourceId::from_str("my-project"),
        Ok(ResourceId::Slug("my-project".to_string()))
    );
    assert_eq!(
        ResourceId::from_str("main"),
        Ok(ResourceId::Slug("main".to_string()))
    );
    // A text of the length of a UUID that is none can still be a slug.
    assert_eq!(
        ResourceId::from_str("550e8400-e29b-41d4-a716-44665544000z"),
        Ok(ResourceId::Slug(
            "550e8400-e29b-41d4-a716-44665544000z".to_string()
        ))
    );
}

#[test]
fn other_texts_name_no_resource() {
    for text in ["", "My-Project", "my project", "my_project", "projet-é"] {
        assert_eq!(
            ResourceId::from_str(text),
            Err(CliError::ResourceId(text.to_string()))
        );
    }
}

#[test]
fn slugs_are_lower_case_letters_digits_and_hyphens() {
    assert!(is_valid_slug("a"));
    assert!(is_valid_slug("z9-0a"));
    assert!(is_valid_slug("-"));
    assert!(!is_valid_slug(""));
    assert!(!is_valid_slug("A"));
    assert!(!is_valid_slug("a b"));
    assert!(!is_valid_slug("a/b"));
    assert!(!is_valid_slug("a{"));
    assert!(!is_valid_slug("a`"));
    assert!(!is_valid_slug("a:"));
    assert!(!is_valid_slug("ü"));
}

#[test]
fn branch_names_are_not_empty() {
    assert!(is_valid_branch_name("main"));
    assert!(is_valid_branch_name("feature/one two"));
    assert!(is_valid_branch_name("ü"));
    assert!(!is_valid_branch_name(""));
}

#[test]
fn uuids_are_written_with_hyphens() {
    assert_eq!(
        ResourceId::Uuid(0x0123_4567_89ab_cdef_0123_4567_89ab_cdef).to_text(),
        "01234567-89ab-cdef-0123-456789abcdef"
    );
    assert_eq!(
        ResourceId::Uuid(0).to_text(),
        "00000000-0000-0000-0000-000000000000"
    );
    assert_eq!(
        ResourceId::Uuid(u128::MAX).to_text(),
        "ffffffff-ffff-ffff-ffff-ffffffffffff"
    );
    assert_eq!(ResourceId::Uuid(10).to_text().chars().last(), Some('a'));
    assert_eq!(ResourceId::Slug("my-project".to_string()).to_text(), "my-project");
    let id = ResourceId::Uuid(0x550e8400_e29b_41d4_a716_446655440000);
    assert_eq!(ResourceId::from_str(&id.to_text()), Ok(id.copy()));
}
