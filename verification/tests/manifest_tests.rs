use std::io::Write;

use cc_downloader::config::DataType;
use cc_downloader::error::DownloadError;
use cc_downloader::manifest::{manifest_url, parse_manifest, read_manifest};

fn gz(data: &[u8]) -> Vec<u8> {
    let mut e = flate2::write::GzEncoder::new(Vec::new(), flate2::Compression::default());
    e.write_all(data).unwrap();
    e.finish().unwrap()
}

const ORIGIN: &str = "https://data.commoncrawl.org/";

#[test]
fn read_manifest_basic() {
    let data = gz(b"crawl-data/CC-MAIN-2021-04/segments/a.warc.gz\ncrawl-data/CC-MAIN-2021-04/segments/b.warc.gz\n");
    let locs = read_manifest(&data).unwrap();
    assert_eq!(locs.len(), 2);
    assert_eq!(locs[0].index, 0);
    assert_eq!(locs[1].index, 1);
    assert_eq!(
        locs[0].url,
        format!("{}crawl-data/CC-MAIN-2021-04/segments/a.warc.gz", ORIGIN)
    );
    assert_eq!(
        locs[1].url,
        format!("{}crawl-data/CC-MAIN-2021-04/segments/b.warc.gz", ORIGIN)
    );
}

#[test]
fn read_manifest_skips_empty_lines() {
    let data = gz(b"first\n\nsecond\n\n");
    let locs = read_manifest(&data).unwrap();
    assert_eq!(locs.len(), 2);
    assert_eq!(locs[0].url, format!("{}first", ORIGIN));
    assert_eq!(locs[1].url, format!("{}second", ORIGIN));
}

#[test]
fn read_manifest_strips_carriage_returns() {
    let data = gz(b"one\r\ntwo\r\n");
    let locs = read_manifest(&data).unwrap();
    assert_eq!(locs.len(), 2);
    assert_eq!(locs[0].url, format!("{}one", ORIGIN));
    assert_eq!(locs[1].url, format!("{}two", ORIGIN));
}

#[test]
fn read_manifest_without_trailing_newline() {
    let data = gz(b"one\ntwo");
    let locs = read_manifest(&data).unwrap();
    assert_eq!(locs.len(), 2);
    assert_eq!(locs[1].url, format!("{}two", ORIGIN));
}

#[test]
fn read_manifest_empty_stream() {
    let data = gz(b"");
    let locs = read_manifest(&data).unwrap();
    assert_eq!(locs.len(), 0);
}

#[test]
fn read_manifest_rejects_garbage() {
    let data: Vec<u8> = vec![1, 2, 3, 4];
    let err = read_manifest(&data).unwrap_err();
    assert!(matches!(err, DownloadError::ManifestDecode(_)));
}

#[test]
fn read_manifest_rejects_truncated_stream() {
    let mut data = gz(b"a long enough manifest line to compress\nand another one\n");
    data.truncate(data.len() / 2);
    let err = read_manifest(&data).unwrap_err();
    assert!(matches!(err, DownloadError::ManifestDecode(_)));
}

#[test]
fn read_manifest_rejects_invalid_text() {
    let data = gz(&[0xff, 0xfe, b'\n']);
    let err = read_manifest(&data).unwrap_err();
    assert!(matches!(err, DownloadError::ManifestDecode(_)));
}

#[test]
fn parse_manifest_plain_bytes() {
    let bytes: Vec<u8> = b"x\ny\n".to_vec();
    let locs = parse_manifest(&bytes).unwrap();
    assert_eq!(locs.len(), 2);
    assert_eq!(locs[0].url, format!("{}x", ORIGIN));
    assert_eq!(locs[1].url, format!("{}y", ORIGIN));
}

#[test]
fn manifest_url_for_snapshot_and_type() {
    assert_eq!(
        manifest_url("CC-MAIN-2021-04", DataType::Wet),
        "https://data.commoncrawl.org/crawl-data/CC-MAIN-2021-04/wet.paths.gz"
    );
    assert_eq!(
        manifest_url("CC-MAIN-2023-50", DataType::CcIndexTable),
        "https://data.commoncrawl.org/crawl-data/CC-MAIN-2023-50/cc-index-table.paths.gz"
    );
}

#[test]
fn data_type_labels() {
    assert_eq!(DataType::Segment.as_str(), "segment");
    assert_eq!(DataType::Warc.as_str(), "warc");
    assert_eq!(DataType::Wat.as_str(), "wat");
    assert_eq!(DataType::Wet.as_str(), "wet");
    assert_eq!(DataType::Robotstxt.as_str(), "robotstxt");
    assert_eq!(DataType::Non200responses.as_str(), "non200responses");
    assert_eq!(DataType::CcIndex.as_str(), "cc-index");
    assert_eq!(DataType::CcIndexTable.as_str(), "cc-index-table");
}
