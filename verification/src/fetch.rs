//! Where the dataset files come from, and how their gzip form is unpacked.

use std::io::Read;
use vstd::prelude::*;

verus! {

/// Zalando's FashionMNIST mirror (same IDX format as MNIST).
pub const BASE_URL: &'static str = "https://github.com/zalandoresearch/fashion-mnist/raw/master/data/fashion";

/// The directory where the unpacked files are kept.
pub const DATA_DIR: &'static str = "data/FashionMNIST/raw";

/// The training images file.
pub const TRAIN_IMAGES_FILE: &'static str = "train-images-idx3-ubyte";

/// The training labels file.
pub const TRAIN_LABELS_FILE: &'static str = "train-labels-idx1-ubyte";

/// The test images file.
pub const TEST_IMAGES_FILE: &'static str = "t10k-images-idx3-ubyte";

/// The test labels file.
pub const TEST_LABELS_FILE: &'static str = "t10k-labels-idx1-ubyte";

/// The address of the gzip form of the file `name` on the mirror.
pub open spec fn spec_download_url(name: Seq<char>) -> Seq<char> {
    BASE_URL@ + "/"@ + name + ".gz"@
}

/// Every address is the mirror's base, a slash, the file name and `.gz`:
/// it starts with the base and the name and ends in `.gz`.
pub proof fn lemma_download_url_shape(name: Seq<char>)
    ensures
        spec_download_url(name).len() == BASE_URL@.len() + name.len() + 4,
        spec_download_url(name).subrange(0, BASE_URL@.len() as int) == BASE_URL@,
        spec_download_url(name).subrange(BASE_URL@.len() + 1int, BASE_URL@.len() + 1int + name.len())
            == name,
        spec_download_url(name).subrange(
            spec_download_url(name).len() - 3,
            spec_download_url(name).len() as int,
        ) == ".gz"@,
{
    reveal_strlit("/");
    reveal_strlit(".gz");
    let u = spec_download_url(name);
    assert(u.subrange(0, BASE_URL@.len() as int) =~= BASE_URL@);
    assert(u.subrange(BASE_URL@.len() + 1int, BASE_URL@.len() + 1int + name.len()) =~= name);
    assert(u.subrange(u.len() - 3, u.len() as int) =~= ".gz"@);
}

/// The address of the gzip form of the file `name` on the mirror:
/// `BASE_URL`, a slash, the name and `.gz`.
pub fn download_url(name: &str) -> (url: String)
    ensures
        url@ == spec_download_url(name@),
        url@ == BASE_URL@ + "/"@ + name@ + ".gz"@,
{
    let mut url = String::from_str(BASE_URL);
    url.append("/");
    url.append(name);
    url.append(".gz");
    url
}

/// What decoding the first gzip member of `gz` gives: the uncompressed bytes,
/// or the text of the error that the decoder reports.
pub uninterp spec fn gunzip_outcome(gz: Seq<u8>) -> Result<Seq<u8>, Seq<char>>;

/// Unpacks gzip bytes with `flate2::read::GzDecoder` over the slice and
/// `read_to_end` into an empty vector; an error is turned into its text by
/// the `Display` impl of `std::io::Error`. The decoder reads the first gzip
/// member only; its output, or its error, depends on the input bytes alone,
/// so the contract names it `gunzip_outcome` and says no more of it.
#[verifier::external_body]
fn gunzip(gz: &[u8]) -> (res: Result<Vec<u8>, String>)
    ensures
        match res {
            Ok(bytes) => gunzip_outcome(gz@) == Ok::<Seq<u8>, Seq<char>>(bytes@),
            Err(text) => gunzip_outcome(gz@) == Err::<Seq<u8>, Seq<char>>(text@),
        },
{
    let mut decoder = flate2::read::GzDecoder::new(gz);
    let mut bytes = Vec::new();
    match decoder.read_to_end(&mut bytes) {
        Ok(_) => Ok(bytes),
        Err(e) => Err(e.to_string()),
    }
}

/// The text of the error for a file whose gzip form does not unpack.
pub open spec fn spec_decompress_failure(name: Seq<char>, detail: Seq<char>) -> Seq<char> {
    "Failed to decompress "@ + name + ": "@ + detail
}

/// The error for the file `name` whose gzip form does not unpack, where
/// `detail` is what the decoder reported.
pub fn decompress_failure(name: &str, detail: &str) -> (message: String)
    ensures
        message@ == spec_decompress_failure(name@, detail@),
        message@ == "Failed to decompress "@ + name@ + ": "@ + detail@,
{
    let mut message = String::from_str("Failed to decompress ");
    message.append(name);
    message.append(": ");
    message.append(detail);
    message
}

/// Unpacks the downloaded gzip form of the file `name`.
pub fn decompress(name: &str, gz: &[u8]) -> (res: Result<Vec<u8>, String>)
    ensures
        res is Ok <==> gunzip_outcome(gz@) is Ok,
        res matches Ok(bytes) ==> gunzip_outcome(gz@) == Ok::<Seq<u8>, Seq<char>>(bytes@),
        res matches Err(message) ==> gunzip_outcome(gz@) matches Err(detail)
            && message@ == spec_decompress_failure(name@, detail),
{
    match gunzip(gz) {
        Ok(bytes) => Ok(bytes),
        Err(detail) => Err(decompress_failure(name, detail.as_str())),
    }
}

} // verus!
