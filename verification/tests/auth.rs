use nais_build::auth::{gar_service_account_id, slug_hash_prefix_truncate, slug_with_hash, truncate};

#[test]
fn test_gar_service_account_id() {
    let slug = "crm-arbeidsforhold-admin";
    let id = gar_service_account_id(slug, "nais-management-233d");
    let expected = "projects/nais-management-233d/serviceAccounts/gar-crm-arbeidsforhold-ad-4789@nais-management-233d.iam.gserviceaccount.com";
    assert_eq!(id, expected);
}

#[test]
fn test_slug_hash_prefix_truncate() {
    const MAX_LENGTH: usize = 30;
    let slug = "crm-arbeidsforhold-admin";
    let prefix = "gar";
    let expected = "gar-crm-arbeidsforhold-ad-4789";
    let result = slug_hash_prefix_truncate(slug, prefix, MAX_LENGTH).unwrap();
    assert_eq!(result, expected);
    assert_eq!(result.len(), MAX_LENGTH);
}

#[test]
fn test_slug_hash_prefix_truncate_out_of_bounds() {
    const MAX_LENGTH: usize = 9;
    let slug = "very-long-slug-that-must-be-truncated";
    let prefix = "four";
    let result = slug_hash_prefix_truncate(slug, prefix, MAX_LENGTH);
    assert_eq!(result, None);
}

#[test]
fn slug_with_hash_keeps_short_parts_whole() {
    assert_eq!(
        slug_with_hash("app", "gar", "ab", 30),
        Some("gar-app-ab".to_string())
    );
    assert_eq!(
        slug_with_hash("application", "p", "0123456789", 12),
        Some("p-appli-0123".to_string())
    );
    assert_eq!(slug_with_hash("application", "p", "0123456789", 7), Some("p--0123".to_string()));
    assert_eq!(slug_with_hash("application", "p", "0123456789", 6), None);
}

#[test]
fn truncate_cuts_at_the_length() {
    assert_eq!(truncate("hello", 10), "hello");
    assert_eq!(truncate("hello", 5), "hello");
    assert_eq!(truncate("hello", 2), "he");
    assert_eq!(truncate("hello", 0), "");
}

#[test]
fn truncate_keeps_whole_characters() {
    assert_eq!(truncate("blåbær", 2), "bl");
    assert_eq!(truncate("blåbær", 4), "blå");
    assert_eq!(truncate("blåbær", 8), "blåbær");
    assert_eq!(truncate("blåbær", 9), "blåbær");
}

#[test]
fn slug_hash_is_the_start_of_the_sha256_of_the_slug() {
    assert_eq!(slug_hash_prefix_truncate("hello", "p", 20), Some("p-hello-2cf2".to_string()));
    assert_eq!(slug_hash_prefix_truncate("hello", "p", 10), Some("p-hel-2cf2".to_string()));
    assert_eq!(slug_hash_prefix_truncate("hello", "p", 7), Some("p--2cf2".to_string()));
    assert_eq!(slug_hash_prefix_truncate("hello", "p", 6), None);
    assert_eq!(slug_hash_prefix_truncate("", "", 6), Some("--e3b0".to_string()));
}

#[test]
fn service_account_of_a_short_slug() {
    assert_eq!(
        gar_service_account_id("hello", "proj"),
        "projects/proj/serviceAccounts/gar-hello-2cf2@proj.iam.gserviceaccount.com"
    );
}

#[test]
fn slug_hash_never_exceeds_the_maximum_length() {
    let slug = "a-slug-that-is-rather-long-and-more";
    for max_length in 0..60 {
        match slug_hash_prefix_truncate(slug, "gar", max_length) {
            None => assert!(max_length < 9),
            Some(text) => {
                assert!(max_length >= 9);
                assert!(text.len() <= max_length);
                if slug.len() + 9 >= max_length {
                    assert_eq!(text.len(), max_length);
                } else {
                    assert_eq!(text.len(), slug.len() + 9);
                }
            }
        }
    }
}
