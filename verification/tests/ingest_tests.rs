use image_optimizer::ingest::{
    fresh_stored_name, stored_file_name, upload_status, IngestError, PartWriter,
};

/// A unique identifier under a writable directory; the part writer
/// appends the fixed extension to it.
fn tmp_id() -> String {
    format!("/tmp/imgopt-{}", uuid::Uuid::new_v4())
}

fn ingest_bytes(data: &[u8], chunk_size: usize) -> String {
    let mut writer = PartWriter::create(&tmp_id()).expect("create stored file");
    for chunk in data.chunks(chunk_size.max(1)) {
        writer.append_chunk(&chunk.to_vec()).expect("append chunk");
    }
    writer.finish()
}

#[test]
fn stored_file_name_appends_extension() {
    let name = stored_file_name("abc");
    assert_eq!(name, "abc.png");
}

#[test]
fn fresh_names_have_fixed_shape() {
    let name = fresh_stored_name();
    assert_eq!(name.len(), 40);
    assert!(name.ends_with(".png"));
}

#[test]
fn round_trip_single_part() {
    let data: Vec<u8> = (0..100_000u32).map(|i| (i % 251) as u8).collect();
    let path = ingest_bytes(&data, 4096);
    let stored = fs_err::read(&path).expect("read stored file");
    assert_eq!(stored.len(), data.len());
    assert_eq!(stored, data);
    fs_err::remove_file(&path).unwrap();
}

#[test]
fn round_trip_empty_part() {
    let path = ingest_bytes(&[], 4096);
    let stored = fs_err::read(&path).expect("read stored file");
    assert!(stored.is_empty());
    fs_err::remove_file(&path).unwrap();
}

#[test]
fn large_upload_streams_in_chunks() {
    // One chunk at a time: 3000 chunks of 16 KiB each, 48 MB in all,
    // with only one chunk alive on the test's side at any moment.
    let chunk: Vec<u8> = vec![0xA5; 16 * 1024];
    let mut writer = PartWriter::create(&tmp_id()).expect("create stored file");
    for _ in 0..3000 {
        writer.append_chunk(&chunk).expect("append chunk");
    }
    let path = writer.finish();
    let len = fs_err::metadata(&path).expect("stat stored file").len();
    assert_eq!(len, 3000 * 16 * 1024);
    fs_err::remove_file(&path).unwrap();
}

#[test]
fn unique_naming_many_generated_names() {
    let mut names: Vec<String> = Vec::new();
    for _ in 0..10_000 {
        names.push(fresh_stored_name());
    }
    let distinct: std::collections::HashSet<&String> = names.iter().collect();
    assert_eq!(distinct.len(), names.len());
}

#[test]
fn create_collision_fails_with_create_failed() {
    let id = tmp_id();
    let first = PartWriter::create(&id).expect("create stored file");
    let path = first.finish();
    match PartWriter::create(&id) {
        Err(IngestError::CreateFailed { path: p, cause }) => {
            assert_eq!(p, path);
            assert!(!cause.is_empty());
        }
        Err(IngestError::WriteFailed { .. }) => panic!("wrong error variant"),
        Ok(_) => panic!("exclusive creation must fail on an existing path"),
    }
    fs_err::remove_file(&path).unwrap();
}

#[test]
fn ingest_error_message_names_stage_path_and_cause() {
    let e = IngestError::CreateFailed {
        path: "a.png".to_string(),
        cause: "boom".to_string(),
    };
    assert_eq!(e.message(), "unable to create a.png: boom");
    assert_eq!(e.path(), "a.png");
    let e = IngestError::WriteFailed {
        path: "b.png".to_string(),
        cause: "disk full".to_string(),
    };
    assert_eq!(e.message(), "unable to write b.png: disk full");
}

#[test]
fn upload_status_all_ok_is_200() {
    let results: Vec<Result<String, IngestError>> =
        vec![Ok("a.png".to_string()), Ok("b.png".to_string())];
    assert_eq!(upload_status(&results), 200);
}

#[test]
fn upload_status_empty_is_200() {
    let results: Vec<Result<String, IngestError>> = Vec::new();
    assert_eq!(upload_status(&results), 200);
}

#[test]
fn upload_status_any_failure_is_500() {
    let results: Vec<Result<String, IngestError>> = vec![
        Ok("a.png".to_string()),
        Err(IngestError::WriteFailed {
            path: "b.png".to_string(),
            cause: "broken pipe".to_string(),
        }),
        Ok("c.png".to_string()),
    ];
    assert_eq!(upload_status(&results), 500);
}
