//! The standard I/O error type, carried opaquely by the error enums.
use vstd::prelude::*;

verus! {

/// Makes `std::io::Error` usable in the library's error enums. Nothing is
/// known of a value of it: it is only carried through.
#[verifier::external_type_specification]
#[verifier::external_body]
pub struct ExIoError(std::io::Error);

} // verus!
