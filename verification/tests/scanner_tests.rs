use orangebox::errors::Missing;
use orangebox::errors::PipelineError;
use orangebox::scanner::scan_archive;
use std::io::Cursor;
use std::io::Write;
use zip::write::SimpleFileOptions;
use zip::write::ZipWriter;

fn archive_with(entries: &[(&str, &[u8])]) -> Vec<u8> {
    let mut writer = ZipWriter::new(Cursor::new(Vec::new()));
    let options = SimpleFileOptions::default().compression_method(zip::CompressionMethod::Stored);
    for (name, content) in entries {
        writer.start_file(*name, options).unwrap();
        writer.write_all(content).unwrap();
    }
    writer.finish().unwrap().into_inner()
}

#[test]
fn finds_the_exactly_matching_entry_not_an_earlier_one() {
    let payload = archive_with(&[
        ("build/1_compile.txt", b"compile log".as_slice()),
        ("build/2_test.txt", b"test log".as_slice()),
    ]);
    let content = scan_archive(payload, "build/2_test.txt").unwrap();
    assert_eq!(content, b"test log");
}

#[test]
fn missing_entry_is_reported_not_found_with_the_target_path() {
    let payload = archive_with(&[
        ("build/1_compile.txt", b"compile log".as_slice()),
        ("build/2_test.txt", b"test log".as_slice()),
    ]);
    let err = scan_archive(payload, "build/3_missing.txt").unwrap_err();
    match err {
        PipelineError::NotFound(Missing::Entry(path)) => assert_eq!(path, "build/3_missing.txt"),
        _ => panic!("expected the target path to be reported as not found"),
    }
}

#[test]
fn matching_is_case_sensitive_and_exact() {
    let payload = archive_with(&[("build/2_test.txt", b"test log".as_slice())]);
    let err = scan_archive(payload, "Build/2_test.txt").unwrap_err();
    assert!(matches!(err, PipelineError::NotFound(Missing::Entry(_))));
}

#[test]
fn a_payload_that_is_no_archive_is_a_transport_failure() {
    let err = scan_archive(vec![0, 1, 2, 3, 4], "build/2_test.txt").unwrap_err();
    assert!(matches!(err, PipelineError::Transport(_)));
}

#[test]
fn an_empty_archive_has_no_entries() {
    let payload = archive_with(&[]);
    let err = scan_archive(payload, "build/2_test.txt").unwrap_err();
    assert!(matches!(err, PipelineError::NotFound(Missing::Entry(_))));
}
