//! Types of std and of outside crates that the library's errors carry
//! through unchanged.
use vstd::prelude::*;
use goblin::error::Error as ObjectParseError;

verus! {

/// `std::io::Error`, carried unopened inside the errors of timers and
/// process tubes; nothing is assumed of its contents.
#[verifier::external_type_specification]
#[verifier::external_body]
pub struct ExIoError(std::io::Error);

/// `goblin::error::Error`, the failure of `goblin::elf::Elf::parse`, carried
/// unopened inside the ELF summary's error; nothing is assumed of its
/// contents.
#[verifier::external_type_specification]
#[verifier::external_body]
pub struct ExObjectParseError(ObjectParseError);

} // verus!
