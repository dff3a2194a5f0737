use ephemeral_hub::bundle::{blob_keys, build_archive, download_files};
use ephemeral_hub::error::AppError;
use ephemeral_hub::hub::{new_hub, FileInfo};
use ephemeral_hub::time::Timestamp;
use std::io::Read;

fn entries(bytes: Vec<u8>) -> Vec<(String, Vec<u8>)> {
    let mut zip = zip::ZipArchive::new(std::io::Cursor::new(bytes)).unwrap();
    let mut out = Vec::new();
    for i in 0..zip.len() {
        let mut f = zip.by_index(i).unwrap();
        let mut data = Vec::new();
        f.read_to_end(&mut data).unwrap();
        out.push((f.name().to_string(), data));
    }
    out
}

fn info(name: &str, size: u64) -> FileInfo {
    FileInfo { filename: name.to_string(), size }
}

#[test]
fn archive_holds_text_and_each_file() {
    let mut hub = new_hub("h".to_string(), Timestamp::from_unix(0, 0).unwrap());
    hub.content = "héllo".to_string();
    hub.files = vec![info("a.txt", 3), info("b.bin", 4)];
    let bytes = download_files(&hub, &vec![b"abc".to_vec(), vec![0, 255, 7, 1]]).unwrap();
    assert_eq!(
        entries(bytes),
        vec![
            ("ephemeral_text_bin.txt".to_string(), "héllo".as_bytes().to_vec()),
            ("a.txt".to_string(), b"abc".to_vec()),
            ("b.bin".to_string(), vec![0, 255, 7, 1]),
        ]
    );
}

#[test]
fn archive_of_empty_hub_has_text_entry_only() {
    let bytes = build_archive("", &vec![], &vec![]).unwrap();
    assert_eq!(entries(bytes), vec![("ephemeral_text_bin.txt".to_string(), vec![])]);
}

#[test]
fn repeated_file_name_fails_archive() {
    let files = vec![info("a", 1), info("a", 1)];
    assert_eq!(build_archive("t", &files, &vec![vec![1], vec![2]]), Err(AppError::ArchiveFailure));
    let clash = vec![info("ephemeral_text_bin.txt", 1)];
    assert_eq!(build_archive("t", &clash, &vec![vec![1]]), Err(AppError::ArchiveFailure));
}

#[test]
fn missing_blob_is_read_failure() {
    let mut hub = new_hub("h".to_string(), Timestamp::from_unix(0, 0).unwrap());
    hub.files = vec![info("a.txt", 3)];
    assert_eq!(download_files(&hub, &vec![]), Err(AppError::ReadFailure));
}

#[test]
fn blob_keys_follow_file_list() {
    let mut hub = new_hub("hub9".to_string(), Timestamp::from_unix(0, 0).unwrap());
    hub.files = vec![info("x.png", 3), info("y", 4)];
    assert_eq!(blob_keys(&hub), vec!["hub9/x.png".to_string(), "hub9/y".to_string()]);
}

#[test]
fn overlong_file_name_fails_archive() {
    let long = "x".repeat(65536);
    let files = vec![info(&long, 1)];
    assert_eq!(build_archive("t", &files, &vec![vec![1]]), Err(AppError::ArchiveFailure));
    let longest = "y".repeat(65535);
    let ok = build_archive("t", &vec![info(&longest, 1)], &vec![vec![9]]).unwrap();
    assert_eq!(entries(ok)[1], (longest, vec![9]));
}
