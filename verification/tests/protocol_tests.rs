use route96::analytics::{full_url, page_view};
use route96::nip96::{build_upload_record, get_info_doc, upload_success_result, Nip96Response};
use route96::pipeline::FileUpload;
use route96::settings::Settings;
use route96::tags::{check_method, eq_ignore_case, find_expiration, find_tag_value, parse_dec_str};

fn settings(max: usize) -> Settings {
    Settings {
        listen: None,
        storage_dir: "data".to_string(),
        database: "mysql://localhost".to_string(),
        max_upload_bytes: max,
        public_url: "http://localhost:8000".to_string(),
        whitelist: None,
        vit_model_path: None,
        webhook_url: None,
    }
}

fn tag(entries: &[&str]) -> Vec<String> {
    entries.iter().map(|s| s.to_string()).collect()
}

#[test]
fn parse_dec_accepts_plain_numbers_only() {
    assert_eq!(parse_dec_str("0"), Some(0));
    assert_eq!(parse_dec_str("1024"), Some(1024));
    assert_eq!(parse_dec_str("18446744073709551615"), Some(u64::MAX));
    assert_eq!(parse_dec_str("18446744073709551616"), None);
    assert_eq!(parse_dec_str("99999999999999999999999"), None);
    assert_eq!(parse_dec_str(""), None);
    assert_eq!(parse_dec_str("12a"), None);
    assert_eq!(parse_dec_str("-5"), None);
    assert_eq!(parse_dec_str(" 5"), None);
}

#[test]
fn find_tag_value_returns_first_match() {
    let tags = vec![
        tag(&["name"]),
        tag(&["name", "first.png"]),
        tag(&["name", "second.png"]),
    ];
    assert_eq!(find_tag_value(&tags, "name"), Some("first.png".to_string()));
    assert_eq!(find_tag_value(&tags, "size"), None);
}

#[test]
fn expiration_tag_is_read_as_decimal() {
    let good = vec![tag(&["expiration", "1700000300"])];
    assert_eq!(find_expiration(&good), Some(1_700_000_300));
    let malformed = vec![tag(&["expiration", "soon"])];
    assert_eq!(find_expiration(&malformed), None);
    let missing = vec![tag(&["name", "x"])];
    assert_eq!(find_expiration(&missing), None);
}

#[test]
fn check_method_matches_either_key_ignoring_case() {
    assert!(check_method(&vec![tag(&["method", "Upload"])], "upload"));
    assert!(check_method(&vec![tag(&["t", "UPLOAD"])], "upload"));
    assert!(!check_method(&vec![tag(&["t", "delete"])], "upload"));
    assert!(!check_method(&vec![tag(&["name", "upload"])], "upload"));
    assert!(!check_method(&vec![tag(&["method"])], "upload"));
    assert!(!check_method(&Vec::new(), "upload"));
}

#[test]
fn eq_ignore_case_folds_ascii_only() {
    assert!(eq_ignore_case("UpLoAd", "upload"));
    assert!(eq_ignore_case("", ""));
    assert!(!eq_ignore_case("upload", "uploads"));
    assert!(!eq_ignore_case("upl0ad", "upload"));
}

#[test]
fn info_doc_reflects_configuration() {
    let doc = get_info_doc(&settings(7_000_000));
    assert_eq!(doc.api_url, "/n96");
    assert_eq!(doc.download_url, Some("/".to_string()));
    let types = doc.content_types.expect("content types");
    assert_eq!(types, vec!["image/*", "video/*", "audio/*"]);
    assert_eq!(doc.plans.len(), 1);
    assert_eq!(doc.plans[0].0, "free");
    assert!(doc.plans[0].1.is_nip98_required);
    assert_eq!(doc.plans[0].1.max_byte_size, 7_000_000);
}

#[test]
fn nip96_envelopes_carry_status_and_message() {
    match Nip96Response::error("Could not save file") {
        Nip96Response::GenericError(u) => {
            assert_eq!(u.status, "error");
            assert_eq!(u.message, Some("Could not save file".to_string()));
            assert!(u.nip94_event.is_none());
        },
        _ => panic!("expected the error envelope"),
    }
    match Nip96Response::success("File deleted.") {
        Nip96Response::UploadResult(u) => {
            assert_eq!(u.status, "success");
            assert_eq!(u.message, Some("File deleted.".to_string()));
        },
        _ => panic!("expected the success envelope"),
    }
}

#[test]
fn nip96_success_result_carries_url_hash_and_mime_tags() {
    let upload = FileUpload {
        id: vec![0xabu8; 32],
        name: "cat.png".to_string(),
        size: 1024,
        mime_type: "image/png".to_string(),
        created: 1_700_000_000,
    };
    let r = upload_success_result(&upload, "http://localhost:8000");
    assert_eq!(r.status, "success");
    let ev = r.nip94_event.expect("nip94 tags");
    let hex = "ab".repeat(32);
    assert_eq!(
        ev.tags,
        vec![
            vec!["url".to_string(), format!("http://localhost:8000/{}", hex)],
            vec!["x".to_string(), hex],
            vec!["m".to_string(), "image/png".to_string()],
        ]
    );
}

#[test]
fn form_upload_record_defaults_caption_and_media_type() {
    let with = build_upload_record(
        vec![1u8; 32],
        99,
        Some("my cat".to_string()),
        Some("image/jpeg".to_string()),
        1_700_000_000,
    );
    assert_eq!(with.name, "my cat");
    assert_eq!(with.mime_type, "image/jpeg");
    assert_eq!(with.size, 99);
    let without = build_upload_record(vec![1u8; 32], 99, None, None, 1_700_000_000);
    assert_eq!(without.name, "");
    assert_eq!(without.mime_type, "application/octet-stream");
    assert_eq!(without.id, vec![1u8; 32]);
}

#[test]
fn page_view_requires_a_host() {
    let e = page_view(
        Some("files.example".to_string()),
        "/list/ab".to_string(),
        Some("https://ref.example".to_string()),
        Some("agent".to_string()),
        None,
    )
    .expect("host present");
    assert_eq!(e.name, "pageview");
    assert_eq!(e.domain, "files.example");
    assert_eq!(e.url, "/list/ab");
    assert_eq!(e.referrer, Some("https://ref.example".to_string()));
    assert_eq!(e.xff, None);
    assert!(page_view(None, "/x".to_string(), None, None, None).is_none());
}

#[test]
fn full_url_prepends_the_public_base() {
    assert_eq!(full_url("http://localhost:8000", "/upload"), "http://localhost:8000/upload");
}
