use file_share::errors::FileError;
use file_share::file::File;
use file_share::file_repository::FileRepository;
use file_share::file_service::{resolve_open, FileService, UploadStaging};
use file_share::file_store::FileStore;
use file_share::http::{content_type_for, file_error_response, upload_response};
use file_share::response::ApiResponse;

#[test]
fn test_file_new_draws_fresh_identifiers() {
    let a = File::new("a.txt".to_string(), 1, "dir/a".to_string());
    let b = File::new("b.txt".to_string(), 2, "dir/b".to_string());
    assert_eq!(a.id.len(), 36);
    assert_eq!(b.id.len(), 36);
    assert_ne!(a.id, b.id);
    assert_eq!(a.filename, "a.txt");
    assert_eq!(a.size, 1);
    assert_eq!(a.file_path, "dir/a");
}

#[test]
fn test_repository_round_trip() {
    let mut repo = FileRepository::new();
    let f = File::new("notes.txt".to_string(), 11, "store/x".to_string());
    let id = f.id.clone();
    repo.save(f.clone());
    let got = repo.get(&id).unwrap();
    assert_eq!(got.id, f.id);
    assert_eq!(got.filename, "notes.txt");
    assert_eq!(got.size, 11);
    assert!(repo.get("missing").is_none());
}

#[test]
fn test_store_paths() {
    let store = FileStore::new("file_storage".to_string());
    assert_eq!(store.generate_storage_path(), "file_storage");
    assert_eq!(store.generate_file_path("abc"), "file_storage/abc");
}

#[test]
fn test_store_index() {
    let mut store = FileStore::new("file_storage".to_string());
    let f = File::new("a.bin".to_string(), 3, "file_storage/y".to_string());
    let id = f.id.clone();
    store.add_file(f);
    assert_eq!(store.get_file(&id).unwrap().filename, "a.bin");
    assert!(store.get_file("other").is_none());
}

#[test]
fn test_upload_notes_txt() {
    // "hello world" is 11 bytes; the upload is staged chunk by chunk and
    // committed, and the record must carry the bytes actually counted.
    let mut svc = FileService::new("store".to_string());
    let mut staging = UploadStaging::new(Some("notes.txt")).unwrap();
    staging.add_chunk(5);
    staging.add_chunk(6);
    assert_eq!(staging.size, 11);
    let path = svc.generate_file_path("staged-id");
    let file = svc.save_file(staging, path).unwrap();
    assert_eq!(file.size, 11);
    assert_eq!(file.filename, "notes.txt");

    let (status, resp) = upload_response(Some(Ok(file.clone())));
    assert_eq!(status, 201);
    assert_eq!(resp.code, 0);
    assert_eq!(resp.status, "success");
    assert_eq!(resp.data.unwrap().size, 11);

    let got = svc.read_file(&file.id).unwrap();
    assert_eq!(got.size, 11);
    assert_eq!(got.filename, "notes.txt");
    assert_eq!(got.file_path, file.file_path);
    assert_eq!(content_type_for(&got), "text/plain");
}

#[test]
fn test_upload_no_file() {
    let (status, resp) = upload_response(None);
    assert_eq!(status, 400);
    assert_eq!(resp.code, 1);
    assert_eq!(resp.status, "error");
    assert_eq!(resp.message, "No file provided");
    assert!(resp.data.is_none());
}

#[test]
fn test_upload_missing_filename() {
    let r = UploadStaging::new(None);
    assert!(matches!(r, Err(FileError::InvalidFilename)));
}

#[test]
fn test_upload_sanitizes_filename() {
    let staging = UploadStaging::new(Some("../../etc/passwd")).unwrap();
    assert_eq!(staging.filename, "....etcpasswd");
    let clean = UploadStaging::new(Some("notes.txt")).unwrap();
    assert_eq!(clean.filename, "notes.txt");
}

#[test]
fn test_empty_upload_rejected() {
    let mut svc = FileService::new("store".to_string());
    let staging = UploadStaging::new(Some("empty.txt")).unwrap();
    let r = svc.save_file(staging, "store/none".to_string());
    assert!(matches!(r, Err(FileError::EmptyUpload)));
    // Nothing was registered by the refused commit.
    assert!(matches!(svc.read_file("anything"), Err(FileError::NotFound)));
}

#[test]
fn test_read_unknown_id() {
    let svc = FileService::new("store".to_string());
    let r = svc.read_file("no-such-id");
    assert!(matches!(r, Err(FileError::NotFound)));
    let (status, resp) = file_error_response(&FileError::NotFound);
    assert_eq!(status, 404);
    assert_eq!(resp.message, "File error: File not found");
}

#[test]
fn test_storage_inconsistency_not_downgraded() {
    let f = File::new("gone.txt".to_string(), 7, "store/gone".to_string());
    let r = resolve_open(f.clone(), false);
    assert!(matches!(r, Err(FileError::StorageInconsistency)));
    let (status, _) = file_error_response(&FileError::StorageInconsistency);
    assert_eq!(status, 500);
    let ok = resolve_open(f, true).unwrap();
    assert_eq!(ok.filename, "gone.txt");
}

#[test]
fn test_error_statuses() {
    assert_eq!(FileError::InvalidFilename.status_code(), 400);
    assert_eq!(FileError::EmptyUpload.status_code(), 400);
    assert_eq!(FileError::StorageIOError.status_code(), 500);
    assert_eq!(FileError::StorageInconsistency.status_code(), 500);
    assert_eq!(FileError::NotFound.status_code(), 404);
    assert_eq!(FileError::RateLimitExceeded.status_code(), 429);
}

#[test]
fn test_upload_error_response() {
    let (status, resp) = upload_response(Some(Err(FileError::StorageIOError)));
    assert_eq!(status, 500);
    assert_eq!(resp.code, 1);
    assert_eq!(resp.message, "Failed to save file: Storage I/O error");
    let (status, resp) = upload_response(Some(Err(FileError::EmptyUpload)));
    assert_eq!(status, 400);
    assert_eq!(resp.message, "Failed to save file: Empty upload");
}

#[test]
fn test_api_response_fields() {
    let resp: ApiResponse<File> = ApiResponse::new(0, "success", "ok", None);
    assert_eq!(resp.code, 0);
    assert_eq!(resp.status, "success");
    assert_eq!(resp.message, "ok");
    assert!(resp.data.is_none());
}

#[test]
fn test_octet_stream_fallback() {
    let f = File::new("blob.unknownext".to_string(), 1, "store/z".to_string());
    assert_eq!(content_type_for(&f), "application/octet-stream");
}
