//! The dashboard's static assets: the content type each is served with.

use vstd::prelude::*;

use crate::text::{ends_with, has_suffix};

verus! {

/// The content type of an asset, from its file extension.
pub open spec fn mime_of(path: Seq<char>) -> Seq<char> {
    if has_suffix(path, ".js"@) || has_suffix(path, ".mjs"@) {
        "application/javascript"@
    } else if has_suffix(path, ".css"@) {
        "text/css"@
    } else if has_suffix(path, ".svg"@) {
        "image/svg+xml"@
    } else if has_suffix(path, ".png"@) {
        "image/png"@
    } else if has_suffix(path, ".jpg"@) || has_suffix(path, ".jpeg"@) {
        "image/jpeg"@
    } else if has_suffix(path, ".woff2"@) {
        "font/woff2"@
    } else if has_suffix(path, ".woff"@) {
        "font/woff"@
    } else {
        "application/octet-stream"@
    }
}

/// The content type an asset is served with.
pub fn mime_guess(path: &str) -> (r: &'static str)
    ensures
        r@ == mime_of(path@),
{
    if ends_with(path, ".js") || ends_with(path, ".mjs") {
        "application/javascript"
    } else if ends_with(path, ".css") {
        "text/css"
    } else if ends_with(path, ".svg") {
        "image/svg+xml"
    } else if ends_with(path, ".png") {
        "image/png"
    } else if ends_with(path, ".jpg") || ends_with(path, ".jpeg") {
        "image/jpeg"
    } else if ends_with(path, ".woff2") {
        "font/woff2"
    } else if ends_with(path, ".woff") {
        "font/woff"
    } else {
        "application/octet-stream"
    }
}

} // verus!
