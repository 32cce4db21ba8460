//! Case-insensitive extension to content-type lookup.

use vstd::prelude::*;
use vstd::string::StringSliceAdditionalSpecFns;

use crate::byte_scan::{bytes_eq, copy_range, last_index_of, rfind_byte};

verus! {

/// ASCII lowercasing of one byte.
pub open spec fn spec_lower(b: u8) -> u8 {
    if 65 <= b && b <= 90 {
        (b + 32) as u8
    } else {
        b
    }
}

/// The lowercased extension of the final path component: the bytes after the
/// last dot, provided that dot is not the component's first byte.
pub open spec fn spec_ext(path: Seq<u8>) -> Seq<u8> {
    let name = path.subrange(last_index_of(path, 47, path.len() as int) + 1, path.len() as int);
    let dot = last_index_of(name, 46, name.len() as int);
    if dot <= 0 {
        Seq::empty()
    } else {
        name.subrange(dot + 1, name.len() as int).map_values(|b: u8| spec_lower(b))
    }
}

/// The content type served for a path, keyed by its lowercased extension;
/// unknown extensions fall back to the generic binary type.
pub open spec fn spec_content_type(path: Seq<u8>) -> Seq<char> {
    let e = spec_ext(path);
    if e == "html".spec_bytes() {
        "text/html"@
    } else if e == "css".spec_bytes() {
        "text/css"@
    } else if e == "js".spec_bytes() {
        "application/javascript"@
    } else if e == "png".spec_bytes() {
        "image/png"@
    } else if e == "jpg".spec_bytes() {
        "image/jpeg"@
    } else if e == "jpeg".spec_bytes() {
        "image/jpeg"@
    } else if e == "gif".spec_bytes() {
        "image/gif"@
    } else if e == "svg".spec_bytes() {
        "image/svg+xml"@
    } else if e == "ico".spec_bytes() {
        "image/x-icon"@
    } else if e == "json".spec_bytes() {
        "application/json"@
    } else if e == "txt".spec_bytes() {
        "text/plain"@
    } else {
        "application/octet-stream"@
    }
}

/// Copies `data[start..end]`, lowercasing each byte.
fn lower_copy(data: &[u8], start: usize, end: usize) -> (r: Vec<u8>)
    requires
        start <= end <= data@.len(),
    ensures
        r@ == data@.subrange(start as int, end as int).map_values(|b: u8| spec_lower(b)),
{
    let mut out: Vec<u8> = Vec::new();
    let mut i: usize = start;
    while i < end
        invariant
            start <= i <= end <= data@.len(),
            out@ == data@.subrange(start as int, i as int).map_values(|b: u8| spec_lower(b)),
        decreases end - i,
    {
        let b = data[i];
        let low: u8 = if 65 <= b && b <= 90 {
            b + 32
        } else {
            b
        };
        out.push(low);
        proof {
            assert(out@ =~= data@.subrange(start as int, i + 1 as int).map_values(
                |b: u8| spec_lower(b),
            ));
        }
        i += 1;
    }
    out
}

/// Content type of the file at `file_path`, by case-insensitive extension
/// lookup.
pub fn get_content_type(file_path: &Vec<u8>) -> (r: &'static str)
    ensures
        r@ == spec_content_type(file_path@),
{
    let data: &[u8] = file_path.as_slice();
    let len = data.len();
    let name_start: usize = match rfind_byte(data, 47) {
        Some(j) => j + 1,
        None => 0,
    };
    let name = copy_range(data, name_start, len);
    let mut ext: Vec<u8> = Vec::new();
    if let Some(d) = rfind_byte(name.as_slice(), 46) {
        if d > 0 {
            ext = lower_copy(name.as_slice(), d + 1, name.len());
        }
    }
    proof {
        assert(ext@ == spec_ext(file_path@));
    }
    if bytes_eq(ext.as_slice(), "html".as_bytes()) {
        "text/html"
    } else if bytes_eq(ext.as_slice(), "css".as_bytes()) {
        "text/css"
    } else if bytes_eq(ext.as_slice(), "js".as_bytes()) {
        "application/javascript"
    } else if bytes_eq(ext.as_slice(), "png".as_bytes()) {
        "image/png"
    } else if bytes_eq(ext.as_slice(), "jpg".as_bytes()) {
        "image/jpeg"
    } else if bytes_eq(ext.as_slice(), "jpeg".as_bytes()) {
        "image/jpeg"
    } else if bytes_eq(ext.as_slice(), "gif".as_bytes()) {
        "image/gif"
    } else if bytes_eq(ext.as_slice(), "svg".as_bytes()) {
        "image/svg+xml"
    } else if bytes_eq(ext.as_slice(), "ico".as_bytes()) {
        "image/x-icon"
    } else if bytes_eq(ext.as_slice(), "json".as_bytes()) {
        "application/json"
    } else if bytes_eq(ext.as_slice(), "txt".as_bytes()) {
        "text/plain"
    } else {
        "application/octet-stream"
    }
}

} // verus!
