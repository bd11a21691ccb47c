use asset_portal::errors::{FileSystemError, UploadError};
use asset_portal::uploads::{
    classify_field, join_chunks, process_file_field, process_nonfile_field, upload_failure,
    upload_flash_messages, assemble_file_payload, FieldKind, FilePayload, NonfilePayload,
    PayloadMap, UploadPayload,
};

fn strings(v: &[&str]) -> Vec<String> {
    v.iter().map(|s| s.to_string()).collect()
}

fn payload_causes(r: &FileSystemError) -> Vec<String> {
    match r {
        FileSystemError::Payload(c) => c.clone(),
        FileSystemError::Unexpected(_) => panic!("expected a payload error"),
    }
}

#[test]
fn join_chunks_concatenates_in_order() {
    assert_eq!(join_chunks(&vec![b"ab".to_vec(), vec![], b"cd".to_vec()]), b"abcd".to_vec());
    assert_eq!(join_chunks(&vec![]), Vec::<u8>::new());
}

#[test]
fn classify_field_needs_a_name() {
    let r = classify_field(None, true);
    assert_eq!(payload_causes(&r.err().unwrap()), strings(&["Field name not found"]));
}

#[test]
fn classify_field_by_content_type() {
    let (n, k) = classify_field(Some("file-field".to_string()), true).ok().unwrap();
    assert_eq!(n, "file-field");
    assert_eq!(k, FieldKind::File);
    let (n, k) = classify_field(Some("text-field".to_string()), false).ok().unwrap();
    assert_eq!(n, "text-field");
    assert_eq!(k, FieldKind::Text);
}

#[test]
fn nonfile_field_decodes_text() {
    let r = process_nonfile_field(vec!["h\u{e9}".as_bytes().to_vec(), b"llo".to_vec()], None);
    let p = r.ok().unwrap().unwrap();
    assert_eq!(p.text, "h\u{e9}llo");
    assert_eq!(p.data, "h\u{e9}llo".as_bytes().to_vec());
}

#[test]
fn nonfile_field_empty_or_invalid_gives_nothing() {
    assert!(process_nonfile_field(vec![], None).ok().unwrap().is_none());
    assert!(process_nonfile_field(vec![vec![], vec![]], None).ok().unwrap().is_none());
    assert!(process_nonfile_field(vec![vec![0xff, 0xfe]], None).ok().unwrap().is_none());
}

#[test]
fn nonfile_field_read_failure_is_payload_error() {
    let r = process_nonfile_field(vec![b"abc".to_vec()], Some(strings(&["stream closed"])));
    assert_eq!(payload_causes(&r.err().unwrap()), strings(&["stream closed"]));
}

#[test]
fn file_field_needs_filename_mime_and_extension() {
    let r = process_file_field(None, Some("image/png".to_string()), vec![], None);
    assert_eq!(payload_causes(&r.err().unwrap()), strings(&["field missing filename"]));
    let r = process_file_field(Some("a.png".to_string()), None, vec![], None);
    assert_eq!(payload_causes(&r.err().unwrap()), strings(&["field mime not found"]));
    let r = process_file_field(
        Some("a.xyz".to_string()),
        Some("notareal/mimetype".to_string()),
        vec![b"x".to_vec()],
        None,
    );
    assert_eq!(payload_causes(&r.err().unwrap()), strings(&["Could not guess fiel field ext"]));
}

#[test]
fn file_field_is_hashed_and_named() {
    let r = process_file_field(
        Some("data.csv".to_string()),
        Some("text/csv".to_string()),
        vec![b"ab".to_vec(), b"c".to_vec()],
        None,
    );
    let p = r.ok().unwrap().unwrap();
    assert_eq!(p.data, b"abc".to_vec());
    assert_eq!(p.filename, "data.csv");
    assert_eq!(p.mime, "text/csv");
    let expected: Vec<u8> = (0..32)
        .map(|i| {
            u8::from_str_radix(
                &"6437b3ac38465133ffb63b75273a8db548c558465d79db03fd359c6cd5bd9d85"[2 * i..2 * i + 2],
                16,
            )
            .unwrap()
        })
        .collect();
    assert_eq!(p.hash, expected);
    assert!(p.tmp_path.starts_with("./app/tempfiles/"));
    assert!(p.tmp_path.ends_with(".csv"));
    assert_eq!(p.tmp_path.len(), "./app/tempfiles/".len() + 36 + ".csv".len());
    let id: Vec<char> = p.tmp_path["./app/tempfiles/".len().."./app/tempfiles/".len() + 36].chars().collect();
    for (i, c) in id.iter().enumerate() {
        if i == 8 || i == 13 || i == 18 || i == 23 {
            assert_eq!(*c, '-');
        } else {
            assert!(c.is_ascii_hexdigit() && !c.is_ascii_uppercase());
        }
    }
    assert_eq!(id[14], '4');
    assert!(matches!(id[19], '8' | '9' | 'a' | 'b'));
}

#[test]
fn file_field_empty_gives_nothing_and_failure_is_error() {
    let r = process_file_field(
        Some("a.png".to_string()),
        Some("image/png".to_string()),
        vec![],
        None,
    );
    assert!(r.ok().unwrap().is_none());
    let r = process_file_field(
        Some("a.png".to_string()),
        Some("image/png".to_string()),
        vec![b"x".to_vec()],
        Some(strings(&["payload error"])),
    );
    assert_eq!(payload_causes(&r.err().unwrap()), strings(&["payload error"]));
}

#[test]
fn assemble_file_payload_exact_path() {
    let r = assemble_file_payload(
        "x.png".to_string(),
        "image/png".to_string(),
        "png",
        "0f0e0d0c-0b0a-4908-8706-050403020100",
        vec![b"img".to_vec()],
        None,
    );
    let p = r.ok().unwrap().unwrap();
    assert_eq!(p.tmp_path, "./app/tempfiles/0f0e0d0c-0b0a-4908-8706-050403020100.png");
    assert_eq!(p.hash.len(), 32);
}

fn text(s: &str) -> UploadPayload {
    UploadPayload::Nonfile(NonfilePayload { data: s.as_bytes().to_vec(), text: s.to_string() })
}

fn file(name: &str, path: &str) -> UploadPayload {
    UploadPayload::File(FilePayload {
        data: vec![1],
        filename: name.to_string(),
        hash: vec![0; 32],
        tmp_path: path.to_string(),
        mime: "text/csv".to_string(),
    })
}

fn text_of(p: Option<&UploadPayload>) -> Option<String> {
    match p {
        Some(UploadPayload::Nonfile(f)) => Some(f.text.clone()),
        _ => None,
    }
}

#[test]
fn payload_map_get_after_record() {
    let mut m = PayloadMap::new();
    assert!(m.get("text-field").is_none());
    m.record("text-field".to_string(), Some(text("first")));
    assert_eq!(text_of(m.get("text-field")), Some("first".to_string()));
    m.record("other".to_string(), Some(text("second")));
    m.record("text-field".to_string(), Some(text("third")));
    assert_eq!(text_of(m.get("text-field")), Some("third".to_string()));
    assert_eq!(text_of(m.get("other")), Some("second".to_string()));
    m.record("other".to_string(), None);
    assert_eq!(text_of(m.get("other")), Some("second".to_string()));
    assert!(m.get("missing").is_none());
}

#[test]
fn flash_messages_for_empty_form() {
    let m = PayloadMap::new();
    assert_eq!(
        upload_flash_messages(&m),
        strings(&["text-file field not processed", "field-file field not processed"])
    );
}

#[test]
fn flash_messages_for_both_fields() {
    let mut m = PayloadMap::new();
    m.record("text-field".to_string(), Some(text("hello")));
    m.record("file-field".to_string(), Some(file("a.csv", "./app/tempfiles/x.csv")));
    assert_eq!(
        upload_flash_messages(&m),
        strings(&[
            "name: text-field | text: hello",
            "name: file-field | filename: a.csv | tmp_path: ./app/tempfiles/x.csv"
        ])
    );
}

#[test]
fn flash_messages_for_swapped_kinds() {
    let mut m = PayloadMap::new();
    m.record("text-field".to_string(), Some(file("a.csv", "p")));
    m.record("file-field".to_string(), Some(text("t")));
    assert!(upload_flash_messages(&m).is_empty());
}

#[test]
fn upload_failure_chains_the_processing_error() {
    let e = FileSystemError::Payload(strings(&["field missing filename"]));
    match upload_failure(&e) {
        UploadError::UnexpectedError(c) => assert_eq!(
            c,
            strings(&["Multipart processing error", "Error processing payload", "field missing filename"])
        ),
        UploadError::Validation(_) => panic!("expected an unexpected error"),
    }
}
