use fashion_mnist::fetch::{decompress, decompress_failure, download_url};
use std::io::Write;

#[test]
fn download_url_points_at_the_gzip_file() {
    assert_eq!(
        download_url("train-images-idx3-ubyte"),
        "https://github.com/zalandoresearch/fashion-mnist/raw/master/data/fashion/train-images-idx3-ubyte.gz"
    );
}

#[test]
fn decompress_unpacks_gzip() {
    let original: Vec<u8> = (0..5000u32).map(|k| (k % 251) as u8).collect();
    let mut encoder = flate2::write::GzEncoder::new(Vec::new(), flate2::Compression::default());
    encoder.write_all(&original).unwrap();
    let gz = encoder.finish().unwrap();
    assert_ne!(gz, original);
    assert_eq!(decompress("file", &gz).unwrap(), original);
}

#[test]
fn decompress_reports_bad_input() {
    let message = decompress("labels", b"not gzip at all").unwrap_err();
    assert!(message.starts_with("Failed to decompress labels: "), "{message}");
    assert!(message.len() > "Failed to decompress labels: ".len());
    let again = decompress("labels", b"not gzip at all").unwrap_err();
    assert_eq!(message, again);
}

#[test]
fn decompress_failure_text() {
    assert_eq!(decompress_failure("a", "bad header"), "Failed to decompress a: bad header");
}
