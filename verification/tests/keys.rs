use galleria::keys::{derivative_key, metadata_key, metadata_prefix, object_url};
use galleria::models::S3Config;
use galleria::text::{bytes_at_most, bytes_equal, text_at_most, text_equal};

#[test]
fn derivative_keys_follow_the_layout() {
    assert_eq!(derivative_key("abc", "thumbnail"), "photos/abc/thumbnail.jpg");
    assert_eq!(derivative_key("abc", "original"), "photos/abc/original.jpg");
    assert_eq!(
        derivative_key("67e55044-10b1-426f-9247-bb680e5fe0c8", "large"),
        "photos/67e55044-10b1-426f-9247-bb680e5fe0c8/large.jpg"
    );
    assert_eq!(derivative_key("", ""), "photos//.jpg");
}

#[test]
fn metadata_keys_follow_the_layout() {
    assert_eq!(metadata_key("abc"), "metadata/abc.json");
    assert_eq!(metadata_prefix(), "metadata/");
    assert!(metadata_key("abc").starts_with(&metadata_prefix()));
}

#[test]
fn object_urls_name_bucket_region_and_key() {
    assert_eq!(
        object_url("pics", "eu-west-1", "photos/abc/small.jpg"),
        "https://pics.s3.eu-west-1.amazonaws.com/photos/abc/small.jpg"
    );
}

#[test]
fn text_is_ordered_by_bytes() {
    assert!(text_at_most("", ""));
    assert!(text_at_most("", "a"));
    assert!(!text_at_most("a", ""));
    assert!(text_at_most("abc", "abc"));
    assert!(text_at_most("abc", "abd"));
    assert!(!text_at_most("abd", "abc"));
    assert!(text_at_most("ab", "abc"));
    assert!(!text_at_most("abc", "ab"));
    assert!(text_at_most("Z", "a"));
    assert!(text_at_most("z", "\u{e9}"));
    assert!(text_at_most("2024-01-01T00:00:00+00:00", "2024-01-01T00:00:00.5+00:00"));
}

#[test]
fn text_order_agrees_with_string_order() {
    let samples = ["", "a", "ab", "b", "2023-12-31T23:59:59+00:00", "2024-01-01T00:00:00+00:00", "\u{e9}", "\u{1f600}", "~"];
    for a in samples {
        for b in samples {
            assert_eq!(text_at_most(a, b), a <= b);
            assert_eq!(text_equal(a, b), a == b);
            assert_eq!(bytes_at_most(a.as_bytes(), b.as_bytes()), a.as_bytes() <= b.as_bytes());
            assert_eq!(bytes_equal(a.as_bytes(), b.as_bytes()), a.as_bytes() == b.as_bytes());
        }
    }
}

#[test]
fn a_configuration_needs_all_four_settings() {
    let full = S3Config {
        bucket: "pics".to_string(),
        region: "eu-west-1".to_string(),
        access_key: "AK".to_string(),
        secret_key: "SK".to_string(),
    };
    assert!(full.is_configured());
    assert!(!S3Config { bucket: String::new(), ..full.clone() }.is_configured());
    assert!(!S3Config { region: String::new(), ..full.clone() }.is_configured());
    assert!(!S3Config { access_key: String::new(), ..full.clone() }.is_configured());
    assert!(!S3Config { secret_key: String::new(), ..full.clone() }.is_configured());
}
