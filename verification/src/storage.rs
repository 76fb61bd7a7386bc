//! Trusted boundary to durable storage and to identifier generation.
//!
//! Each function here wraps one call into an outside crate. The
//! wrappers only convert arguments and results; nothing else in the
//! crate touches the file system.

use vstd::prelude::*;

verus! {

#[verifier::external_type_specification]
#[verifier::external_body]
pub struct ExFsFile(fs_err::File);

/// Relies on `uuid::Uuid::new_v4` and its `Display` form: a version-4
/// UUID rendered as the 36-character hyphenated string. The value is
/// random, so nothing beyond its length is stated.
#[verifier::external_body]
pub(crate) fn fresh_id() -> (s: String)
    ensures
        s@.len() == 36,
{
    uuid::Uuid::new_v4().to_string()
}

/// Relies on `fs_err::File::create_new`: opens the path for writing,
/// failing if the path already exists or cannot be created.
#[verifier::external_body]
pub(crate) fn create_new_file(path: &str) -> (r: Result<fs_err::File, String>)
{
    fs_err::File::create_new(path).map_err(|e| e.to_string())
}

/// Relies on `std::io::Write::write_all` on an `fs_err::File`: appends
/// the whole chunk at the file's cursor, or reports an I/O error (after
/// which the file may hold a prefix of the chunk).
#[verifier::external_body]
pub(crate) fn append_all(file: &mut fs_err::File, chunk: &Vec<u8>) -> (r: Result<(), String>)
{
    std::io::Write::write_all(file, chunk.as_slice()).map_err(|e| e.to_string())
}

/// Relies on `fs_err::read`: returns the entire contents of the file at
/// the path, or an I/O error. The result depends on what is on disk, so
/// nothing is stated of it.
#[verifier::external_body]
pub(crate) fn read_file_bytes(path: &str) -> (r: Result<Vec<u8>, String>)
{
    fs_err::read(path).map_err(|e| e.to_string())
}

/// Relies on `fs_err::write`: creates (or truncates) the file at the
/// path and writes the given bytes to it, or reports an I/O error.
#[verifier::external_body]
pub(crate) fn write_file_bytes(path: &str, bytes: &Vec<u8>) -> (r: Result<(), String>)
{
    fs_err::write(path, bytes.as_slice()).map_err(|e| e.to_string())
}

} // verus!
