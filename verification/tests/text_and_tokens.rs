use velox::auth::AuthService;
use velox::storage::{key_from_url, object_key, object_url};
use velox::files::{FileMeta, FileService, UploadCommand, UploadEvent, UploadStep};
use velox::handlers::UploadForm;
use velox::models::User;
use velox::text::{replace_str, str_eq};
use velox::time::Timestamp;

#[test]
fn sha256_of_known_input() {
    assert_eq!(
        AuthService::generate_sha256("abc"),
        "ba7816bf8f01cfea414140de5dae2223b00361a396177a9cb410ff61f20015ad"
    );
    assert_eq!(
        AuthService::generate_sha256(""),
        "e3b0c44298fc1c149afbf4c8996fb92427ae41e4649b934ca495991b7852b855"
    );
}

#[test]
fn token_hash_is_deterministic_and_not_the_token() {
    let raw = AuthService::generate_random_token();
    let h1 = AuthService::generate_sha256(&raw);
    let h2 = AuthService::generate_sha256(&raw);
    assert_eq!(h1, h2);
    assert_ne!(h1, raw);
    assert_eq!(h1.len(), 64);
}

#[test]
fn random_tokens_are_64_lowercase_hex_digits() {
    let a = AuthService::generate_random_token();
    let b = AuthService::generate_random_token();
    assert_eq!(a.len(), 64);
    assert!(a.chars().all(|c| c.is_ascii_hexdigit() && !c.is_ascii_uppercase()));
    assert_ne!(a, b);
}

#[test]
fn stored_token_is_lowercase_hex_of_the_digest() {
    // SHA-256("The quick brown fox jumps over the lazy dog")
    let h = AuthService::generate_sha256("The quick brown fox jumps over the lazy dog");
    assert_eq!(h, "d7a8fbb307d7809469ca9abcb0082e4f8d5651e46d3cdb762d02d0bf37c9e592");
    assert!(h.chars().all(|c| c.is_ascii_digit() || ('a'..='f').contains(&c)));
}

#[test]
fn identifiers_are_written_hyphenated_in_object_keys() {
    assert_eq!(
        object_key(0x67e5_5044_10b1_426f_9247_bb68_0e5f_e0c8, 0, "f"),
        "67e55044-10b1-426f-9247-bb680e5fe0c8/00000000-0000-0000-0000-000000000000/f"
    );
}

#[test]
fn folder_ids_are_parsed_from_form_text() {
    let mut form = UploadForm::new();
    assert_eq!(form.set_folder_id(b"67e55044-10b1-426f-9247-bb680e5fe0c8".to_vec()), Ok(()));
    assert_eq!(form.folder_id, Some(0x67e5_5044_10b1_426f_9247_bb68_0e5f_e0c8));
    assert_eq!(form.set_folder_id(b"67e5504410b1426f9247bb680e5fe0c8".to_vec()), Ok(()));
    assert_eq!(form.folder_id, Some(0x67e5_5044_10b1_426f_9247_bb68_0e5f_e0c8));
    assert_eq!(form.set_folder_id(b"not a uuid".to_vec()), Ok(()));
    assert_eq!(form.folder_id, None);
    assert!(form.set_folder_id(vec![0xff, 0xfe]).is_err());
}

fn fresh_file_id() -> u128 {
    let user = User { id: 1, email: "a@b.c".to_string(), name: None, avatar: None, gender: None, created_at: Timestamp { secs: 0, nanos: 0 } };
    let meta = FileMeta { file_name: "x".to_string(), content_type: "t".to_string() };
    let (flow, _) = FileService::upload("a@b.c", None, vec![meta]);
    let (flow, _) = flow.resume(UploadEvent::UserLookup(Some(user)));
    let (flow, _) = flow.resume(UploadEvent::TotalStorage(0));
    let (flow, _) = flow.resume(UploadEvent::StorageConfig { endpoint: "e".to_string(), bucket: "b".to_string() });
    let (_, step) = flow.resume(UploadEvent::Uploaded(1));
    match step {
        UploadStep::Run(UploadCommand::InsertFile { file_id, .. }) => file_id,
        other => panic!("{:?}", other),
    }
}

#[test]
fn fresh_file_ids_are_version_4() {
    let a = fresh_file_id();
    let b = fresh_file_id();
    for id in [a, b] {
        assert_eq!((id >> 76) & 0xf, 4);
        assert_eq!((id >> 62) & 0x3, 2);
    }
    assert_ne!(a, b);
}

#[test]
fn replace_matches_std() {
    let cases = [
        ("aaa", "aa", "b"),
        ("hello world", "o", "0"),
        ("abcabc", "abc", ""),
        ("xyz", "xyzw", "q"),
        ("ababab", "aba", "X"),
        ("", "a", "b"),
        ("日本語日本", "日本", "x"),
    ];
    for (s, p, r) in cases {
        assert_eq!(replace_str(s, p, r), s.replace(p, r), "{s} {p} {r}");
    }
}

#[test]
fn text_equality() {
    assert!(str_eq("file", "file"));
    assert!(!str_eq("file", "files"));
    assert!(!str_eq("file", "fila"));
    assert!(str_eq("", ""));
}

#[test]
fn object_key_and_url() {
    let user = 0x67e5_5044_10b1_426f_9247_bb68_0e5f_e0c8u128;
    let file = 1u128;
    let key = object_key(user, file, "notes.txt");
    assert_eq!(key, "67e55044-10b1-426f-9247-bb680e5fe0c8/00000000-0000-0000-0000-000000000001/notes.txt");
    let url = object_url("https://r2.example.com", "bucket", &key);
    assert_eq!(url, format!("https://r2.example.com/bucket/{key}"));
}

#[test]
fn key_is_read_back_from_its_url() {
    let key = object_key(7, 9, "photo.png");
    let url = object_url("https://r2.example.com", "media", &key);
    assert_eq!(key_from_url(&url, "https://r2.example.com", "media"), key);
}

#[test]
fn key_containing_the_prefix_is_not_read_back() {
    // The file name itself holds the endpoint-and-bucket prefix: every
    // occurrence is removed, as `str::replace` does.
    let key = object_key(7, 9, "e/b/x");
    let url = object_url("e", "b", &key);
    let back = key_from_url(&url, "e", "b");
    assert_ne!(back, key);
    assert_eq!(back, url.replace("e/b/", ""));
}

#[test]
fn stored_token_form_has_sixty_four_hex_digits() {
    let long = "x".repeat(1000);
    for input in ["", "a", long.as_str()] {
        let h = AuthService::generate_sha256(input);
        assert_eq!(h.len(), 64);
        assert!(h.chars().all(|c| c.is_ascii_hexdigit() && !c.is_ascii_uppercase()));
    }
}
