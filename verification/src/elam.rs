//! The ELAM driver image that the protected procedures install: it is
//! shipped gzip-compressed, and used as it is when it does not decompress.

use std::io::Read;

use vstd::prelude::*;

verus! {

/// What `flate2::read::GzDecoder` yields when `data` is read to its end:
/// the decompressed first gzip member, or `None` when reading fails.
pub uninterp spec fn gzip_decoded(data: Seq<u8>) -> Option<Seq<u8>>;

/// Decompresses the first gzip member of `data`.
///
/// Calls `flate2::read::GzDecoder::new(data).read_to_end(..)`; the contract
/// claims only that the outcome is a function of `data`, named
/// `gzip_decoded`: what that function is (RFC 1952 decoding) is not stated.
#[verifier::external_body]
fn gzip_decode(data: &[u8]) -> (r: Option<Vec<u8>>)
    ensures
        match r {
            Some(v) => gzip_decoded(data@) == Some(v@),
            None => gzip_decoded(data@) is None,
        },
{
    let mut out = Vec::new();
    match flate2::read::GzDecoder::new(data).read_to_end(&mut out) {
        Ok(_) => Some(out),
        Err(_) => None,
    }
}

/// The image to write out: the decompressed data when there is any, else
/// the shipped data as it is.
pub open spec fn elam_image_of(shipped: Seq<u8>, decoded: Option<Seq<u8>>) -> Seq<u8> {
    match decoded {
        Some(d) => d,
        None => shipped,
    }
}

/// Picks the image to write out from the shipped data and the result of
/// decompressing it.
pub fn choose_elam_image(shipped: &[u8], decoded: Option<Vec<u8>>) -> (image: Vec<u8>)
    ensures
        image@ == elam_image_of(shipped@, match decoded {
            Some(d) => Some(d@),
            None => None,
        }),
{
    match decoded {
        Some(d) => d,
        None => vstd::slice::slice_to_vec(shipped),
    }
}

/// The driver image for the shipped (normally gzip-compressed) data.
pub fn elam_image(shipped: &[u8]) -> (image: Vec<u8>)
    ensures
        image@ == elam_image_of(shipped@, gzip_decoded(shipped@)),
{
    let decoded = gzip_decode(shipped);
    choose_elam_image(shipped, decoded)
}

/// Whenever the shipped data decompresses, the image is exactly the
/// decompressed data, whatever its length; when it does not, the image is
/// the shipped data unchanged.
pub proof fn image_is_decompressed_data(shipped: Seq<u8>, decompressed: Seq<u8>)
    ensures
        elam_image_of(shipped, Some(decompressed)) == decompressed,
        elam_image_of(shipped, None) == shipped,
        gzip_decoded(shipped) == Some(decompressed) ==> elam_image_of(
            shipped,
            gzip_decoded(shipped),
        ) == decompressed,
        gzip_decoded(shipped) is None ==> elam_image_of(shipped, gzip_decoded(shipped)) == shipped,
{
}

} // verus!
