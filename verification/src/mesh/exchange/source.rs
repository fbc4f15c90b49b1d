//! From the bytes of a source to its text.

use std::io::Read;
use vstd::prelude::*;

verus! {

/// `std::io::Error`, the error that reading from a decoder ends in. Nothing
/// is said of what it holds.
#[verifier::external_type_specification]
#[verifier::external_body]
pub struct ExIoError(std::io::Error);

/// `std::str::Utf8Error`, the error that reading bytes that are not UTF-8
/// ends in. Nothing is said of what it holds.
#[verifier::external_type_specification]
#[verifier::external_body]
pub struct ExUtf8Error(std::str::Utf8Error);

/// The extension that `std::path::Path::extension` finds in a path spelled
/// `path`, on the platform the crate is built for.
pub uninterp spec fn path_extension(path: Seq<char>) -> Option<Seq<char>>;

/// The text that the gzip stream `bytes` unpacks to: what
/// `flate2::read::GzDecoder` reads from it up to the end of its first member,
/// where that succeeds and is UTF-8.
pub uninterp spec fn gunzip_text(bytes: Seq<u8>) -> Option<Seq<char>>;

/// `std::path::Path::extension` on the path `path`: the result is the
/// extension named by [`path_extension`].
#[verifier::external_body]
fn extension_of(path: &str) -> (r: Option<&str>)
    ensures
        match r {
            Some(ext) => path_extension(path@) == Some(ext@),
            None => path_extension(path@) is None,
        },
{
    std::path::Path::new(path).extension().and_then(|ext| ext.to_str())
}

/// `std::io::Read::read_to_string` on a `flate2::read::GzDecoder` over
/// `bytes`: succeeds exactly when [`gunzip_text`] has a text for `bytes`, and
/// then returns that text.
#[verifier::external_body]
fn gunzip(bytes: &[u8]) -> (r: Result<String, std::io::Error>)
    ensures
        match r {
            Ok(text) => gunzip_text(bytes@) == Some(text@),
            Err(_) => gunzip_text(bytes@) is None,
        },
{
    let mut text = String::new();
    match flate2::read::GzDecoder::new(bytes).read_to_string(&mut text) {
        Ok(_) => Ok(text),
        Err(e) => Err(e),
    }
}

/// `core::str::from_utf8`: succeeds exactly on valid UTF-8, and then returns
/// the text that the bytes encode.
#[verifier::external_body]
fn utf8(bytes: &[u8]) -> (r: Result<&str, std::str::Utf8Error>)
    ensures
        r is Ok <==> vstd::utf8::valid_utf8(bytes@),
        r matches Ok(text) ==> text@ == vstd::utf8::decode_utf8(bytes@),
{
    std::str::from_utf8(bytes)
}

/// The extension `gz`, in any mix of upper and lower case.
pub open spec fn is_gzip_extension(ext: Seq<char>) -> bool {
    &&& ext.len() == 2
    &&& (ext[0] == 'g' || ext[0] == 'G')
    &&& (ext[1] == 'z' || ext[1] == 'Z')
}

/// A path spelled `path` names a gzip file: it has an extension, and the
/// extension is `gz` in any mix of upper and lower case.
pub open spec fn names_gzip(path: Seq<char>) -> bool {
    match path_extension(path) {
        Some(ext) => is_gzip_extension(ext),
        None => false,
    }
}

/// The text of a source with content `bytes`: unpacked from gzip if `gzip`
/// is set, read as UTF-8 otherwise; `None` where that fails.
pub open spec fn text_of(gzip: bool, bytes: Seq<u8>) -> Option<Seq<char>> {
    if gzip {
        gunzip_text(bytes)
    } else if vstd::utf8::valid_utf8(bytes) {
        Some(vstd::utf8::decode_utf8(bytes))
    } else {
        None
    }
}

/// Whether `ext` is the extension of a gzip file.
pub fn extension_is_gzip(ext: &str) -> (r: bool)
    ensures
        r == is_gzip_extension(ext@),
{
    if ext.unicode_len() != 2 {
        return false;
    }
    let g = ext.get_char(0);
    let z = ext.get_char(1);
    (g == 'g' || g == 'G') && (z == 'z' || z == 'Z')
}

/// Whether `path` names a gzip file.
pub fn path_names_gzip(path: &str) -> (r: bool)
    ensures
        r == names_gzip(path@),
{
    match extension_of(path) {
        Some(ext) => extension_is_gzip(ext),
        None => false,
    }
}

/// The text of a source with content `bytes`, if it has one.
pub fn read_text(bytes: &[u8], gzip: bool) -> (r: Option<String>)
    ensures
        match r {
            Some(text) => text_of(gzip, bytes@) == Some(text@),
            None => text_of(gzip, bytes@) is None,
        },
{
    if gzip {
        match gunzip(bytes) {
            Ok(text) => Some(text),
            Err(_) => None,
        }
    } else {
        match utf8(bytes) {
            Ok(text) => Some(text.to_owned()),
            Err(_) => None,
        }
    }
}

} // verus!
