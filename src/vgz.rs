//! VGZ files: VGM files compressed with gzip.

use flate2::read::GzDecoder;
use std::io::Read;
use vstd::prelude::*;
use vstd::slice::slice_to_vec;

verus! {

/// What flate2 makes of `b`: the inflated bytes where `b` is a whole gzip
/// stream, `None` where it has no gzip header or its compressed data is
/// broken. It depends on the bytes alone.
pub uninterp spec fn gunzip_of(b: Seq<u8>) -> Option<Seq<u8>>;

/// Relies on flate2's `read::GzDecoder`: `new` parses the gzip header and
/// `header` is `None` where there is none; `read_to_end` inflates the rest and
/// fails on broken data.
#[verifier::external_body]
fn gunzip(b: &[u8]) -> (r: Option<Vec<u8>>)
    ensures
        match r {
            Some(v) => gunzip_of(b@) == Some(v@),
            None => gunzip_of(b@) is None,
        },
{
    let mut gz = GzDecoder::new(b);
    gz.header()?;
    let mut inflated = Vec::new();
    gz.read_to_end(&mut inflated).ok()?;
    Some(inflated)
}

/// The VGM bytes of a file whose bytes are `raw` and whose gzip inflation gave
/// `inflated`: a file that did not inflate is taken as plain VGM.
pub fn vgm_data_from(raw: &[u8], inflated: Option<Vec<u8>>) -> (r: Vec<u8>)
    ensures
        r@ == match inflated {
            Some(v) => v@,
            None => raw@,
        },
{
    match inflated {
        Some(v) => v,
        None => slice_to_vec(raw),
    }
}

/// The VGM bytes of a VGM or VGZ file whose bytes are `raw`.
pub fn vgm_data(raw: &[u8]) -> (r: Vec<u8>)
    ensures
        r@ == match gunzip_of(raw@) {
            Some(v) => v,
            None => raw@,
        },
{
    let inflated = gunzip(raw);
    vgm_data_from(raw, inflated)
}

} // verus!
