//! Loading a guest binary: header validation, then compilation.
//!
//! The interpreter is an external collaborator consumed as a black-box
//! "compile module" capability. The loader guards it: its compiler is
//! handed only binaries whose eight header bytes already passed
//! validation, so a malformed binary is rejected without the interpreter
//! ever being consulted.

use vstd::prelude::*;
use crate::header::{header_ok, header_verdict, validate_header, HeaderError};

verus! {

#[verifier::external_type_specification]
#[verifier::external_body]
pub struct ExStore(wasmer::Store);

#[verifier::external_type_specification]
#[verifier::external_body]
pub struct ExModule(wasmer::Module);

#[verifier::external_type_specification]
#[verifier::external_body]
pub struct ExCompileError(wasmer::CompileError);

/// Why a guest binary could not be loaded.
pub enum LoadError {
    /// The eight header bytes were rejected; the interpreter was not
    /// consulted.
    Header(HeaderError),
    /// The interpreter's compiler rejected the binary.
    Compile(wasmer::CompileError),
}

/// Relies on wasmer::Module::new: compiles and validates the given bytes
/// against the store's engine, returning the compiled module or the
/// compilation error. Nothing further is assumed of either outcome.
#[verifier::external_body]
fn compile_module(store: &wasmer::Store, bytes: &[u8]) -> Result<
    wasmer::Module,
    wasmer::CompileError,
> {
    wasmer::Module::new(store, bytes)
}

/// Load a guest binary. The compiler is consulted exactly when the
/// header passes validation; a binary with a rejected header is turned
/// away with the header verdict and no compilation attempt.
pub fn load_module(store: &wasmer::Store, bytes: &[u8]) -> (r: Result<wasmer::Module, LoadError>)
    ensures
        r is Ok ==> header_ok(bytes@),
        !header_ok(bytes@) ==> r == Err::<wasmer::Module, LoadError>(
            LoadError::Header(header_verdict(bytes@)->Err_0),
        ),
        r matches Err(LoadError::Header(e)) ==> Err::<(), HeaderError>(e) == header_verdict(
            bytes@,
        ),
{
    match validate_header(bytes) {
        Err(e) => Err(LoadError::Header(e)),
        Ok(()) => match compile_module(store, bytes) {
            Ok(module) => Ok(module),
            Err(e) => Err(LoadError::Compile(e)),
        },
    }
}

} // verus!
