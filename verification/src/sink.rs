//! The output sink: where the bytes of the output instructions go.

use vstd::prelude::*;

verus! {

/// `std::io::Stdout`, the handle to the standard output: carried through
/// as it is, with nothing known of what it holds.
#[verifier::external_type_specification]
#[verifier::external_body]
pub struct ExStdout(std::io::Stdout);

/// `std::io::Write::write_all` on the sink: hands it all of `bytes` and
/// reports whether it accepted them. Nothing is claimed of the answer: it is
/// the sink's.
#[verifier::external_body]
pub(crate) fn write_all<T: std::io::Write>(fd: &mut T, bytes: &[u8]) -> (written: bool) {
    fd.write_all(bytes).is_ok()
}

/// `std::io::stdout`: a handle to the standard output of the process.
#[verifier::external_body]
pub(crate) fn stdout() -> (fd: std::io::Stdout) {
    std::io::stdout()
}

} // verus!
