//! The trusted boundary to the host: integer division with the host's fault
//! behaviour, the standard output stream, and the file system.

use std::io::Write;
use vstd::prelude::*;

use crate::sem::text_lt;

verus! {

/// How a file write or append ended, as the evaluator distinguishes it.
pub enum FileOutcome {
    Done,
    OpenFailed,
    WriteFailed,
}

/// Relies on the host's `/` on `i64`: the quotient truncated toward zero.
/// On a zero divisor, and on `i64::MIN / -1`, the host faults; the language
/// deliberately inherits that fault as its fatal, uncaught failure mode
/// instead of returning a value.
#[verifier::external_body]
pub(crate) fn divide(n: i64, d: i64) -> (q: i64)
    ensures
        d != 0 && !(n == i64::MIN && d == -1) ==> q == crate::sem::trunc_div(n as int, d as int),
{
    n / d
}

/// Relies on `str`'s `Ord`: lexicographic over UTF-8 bytes, which orders
/// exactly as the sequence of Unicode scalar values does.
#[verifier::external_body]
pub(crate) fn text_less(a: &String, b: &String) -> (r: bool)
    ensures
        r == text_lt(a@, b@),
{
    a < b
}

/// Relies on `std::io::Stdout`: writes the text to standard output. Nothing
/// is promised of the stream.
#[verifier::external_body]
pub(crate) fn show_out(s: &str) {
    let _ = write!(std::io::stdout(), "{s}");
}

/// Relies on `std::io::Stdout`: writes the text and a line break to standard
/// output. Nothing is promised of the stream.
#[verifier::external_body]
pub(crate) fn show_line_out(s: &str) {
    let _ = writeln!(std::io::stdout(), "{s}");
}

/// Relies on `fs_err::OpenOptions` with `create_new`: the open fails when the
/// path already exists or cannot be created, and a successful `write_all`
/// leaves the new file holding exactly the text's bytes. The outcome depends
/// on the disk, so nothing is promised of which variant comes back.
#[verifier::external_body]
pub(crate) fn create_file_with(name: &String, content: &String) -> (r: FileOutcome) {
    match fs_err::OpenOptions::new().write(true).create_new(true).open(name) {
        Err(_) => FileOutcome::OpenFailed,
        Ok(mut f) => match std::io::Write::write_all(&mut f, content.as_bytes()) {
            Ok(_) => FileOutcome::Done,
            Err(_) => FileOutcome::WriteFailed,
        },
    }
}

/// Relies on `fs_err::OpenOptions` with `append`: the open fails when the
/// path does not exist, and a successful `write_all` adds exactly the text's
/// bytes at the end. The outcome depends on the disk, so nothing is promised
/// of which variant comes back.
#[verifier::external_body]
pub(crate) fn append_file_with(name: &String, content: &String) -> (r: FileOutcome) {
    match fs_err::OpenOptions::new().append(true).open(name) {
        Err(_) => FileOutcome::OpenFailed,
        Ok(mut f) => match std::io::Write::write_all(&mut f, content.as_bytes()) {
            Ok(_) => FileOutcome::Done,
            Err(_) => FileOutcome::WriteFailed,
        },
    }
}

/// Relies on `fs_err::read_to_string`: on success the whole file decoded as
/// text. The result depends on the disk, so nothing is promised of it.
#[verifier::external_body]
pub(crate) fn read_file_text(name: &String) -> (r: Result<String, ()>) {
    match fs_err::read_to_string(name) {
        Ok(s) => Ok(s),
        Err(_) => Err(()),
    }
}

} // verus!
