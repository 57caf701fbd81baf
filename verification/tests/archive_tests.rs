use std::io::Write;

use copy_dvd::error::AppError;
use copy_dvd::gui::tabs::updates::{details_date_label, list_date_label, release_details_date, release_list_date};
use copy_dvd::handbrake_manager::{binary_entry_index, checksum_outcome, extract_from_zip, verify_checksum};

fn handbrake_message(e: AppError) -> String {
    match e {
        AppError::HandbrakeError(m) => m,
        _ => panic!("expected a HandBrake error"),
    }
}

fn archive_of(entries: &[(&str, &[u8])]) -> Vec<u8> {
    let mut w = zip::ZipWriter::new(std::io::Cursor::new(Vec::new()));
    let options = zip::write::SimpleFileOptions::default().compression_method(zip::CompressionMethod::Stored);
    for (name, data) in entries {
        w.start_file(*name, options).unwrap();
        w.write_all(data).unwrap();
    }
    w.finish().unwrap().into_inner()
}

#[test]
fn extracts_the_binary_from_a_zip() {
    let archive = archive_of(&[("README.txt", b"read me"), ("HandBrakeCLI-1.9.2/HandBrakeCLI.exe", b"MZbinary")]);
    let data = extract_from_zip(&archive, "HandBrakeCLI.exe").unwrap();
    assert_eq!(data, b"MZbinary".to_vec());
}

#[test]
fn extracts_the_first_matching_entry() {
    let archive = archive_of(&[("a/HandBrake.exe", b"first"), ("b/HandBrakeCLI.exe", b"second")]);
    assert_eq!(extract_from_zip(&archive, "HandBrakeCLI.exe").unwrap(), b"first".to_vec());
}

#[test]
fn zip_without_the_binary_is_refused() {
    let archive = archive_of(&[("README.txt", b"read me")]);
    let e = extract_from_zip(&archive, "HandBrakeCLI.exe").unwrap_err();
    assert_eq!(
        handbrake_message(e),
        "HandBrake executable not found in downloaded archive. Looking for: HandBrakeCLI.exe"
    );
}

#[test]
fn bytes_that_are_no_zip_are_refused() {
    let e = extract_from_zip(b"this is not an archive", "HandBrakeCLI.exe").unwrap_err();
    assert_eq!(handbrake_message(e), "Failed to open ZIP archive");
}

#[test]
fn entry_index_follows_names() {
    let names = vec![Some("docs/readme".to_string()), Some("bin/HandBrakeCLI".to_string())];
    assert_eq!(binary_entry_index(&names, "HandBrakeCLI").unwrap(), 1);
    let blocked = vec![Some("docs/readme".to_string()), None, Some("bin/HandBrakeCLI".to_string())];
    assert_eq!(handbrake_message(binary_entry_index(&blocked, "HandBrakeCLI").unwrap_err()), "Failed to access file 1 in archive");
    let none: Vec<Option<String>> = Vec::new();
    assert_eq!(
        handbrake_message(binary_entry_index(&none, "HandBrakeCLI").unwrap_err()),
        "HandBrake executable not found in downloaded archive. Looking for: HandBrakeCLI"
    );
}

#[test]
fn checksum_of_known_bytes() {
    let digest = "ba7816bf8f01cfea414140de5dae2223b00361a396177a9cb410ff61f20015ad".to_string();
    assert!(verify_checksum(&Some(digest), b"abc").is_ok());
    assert!(verify_checksum(&None, b"abc").is_ok());
    let e = verify_checksum(&Some("00".to_string()), b"abc").unwrap_err();
    assert_eq!(
        handbrake_message(e),
        "Checksum verification failed. Expected: 00, Got: ba7816bf8f01cfea414140de5dae2223b00361a396177a9cb410ff61f20015ad"
    );
}

#[test]
fn checksum_outcome_compares_digests() {
    assert!(checksum_outcome(&Some("ab".to_string()), "ab").is_ok());
    assert!(checksum_outcome(&None, "ab").is_ok());
    assert_eq!(
        handbrake_message(checksum_outcome(&Some("ab".to_string()), "cd").unwrap_err()),
        "Checksum verification failed. Expected: ab, Got: cd"
    );
}

#[test]
fn release_dates_are_printed() {
    assert_eq!(release_list_date("2024-01-01T00:00:00Z"), Some("- 2024-01-01".to_string()));
    assert_eq!(
        release_details_date("2024-01-01T00:00:00Z"),
        Some("Released: January 01, 2024 at 00:00 UTC".to_string())
    );
    assert_eq!(release_list_date("yesterday"), None);
    assert_eq!(release_details_date(""), None);
}

#[test]
fn date_labels_wrap_the_date() {
    assert_eq!(list_date_label(Some("2024-03-05".to_string())), Some("- 2024-03-05".to_string()));
    assert_eq!(details_date_label(Some("May 1".to_string())), Some("Released: May 1".to_string()));
    assert_eq!(list_date_label(None), None);
}
