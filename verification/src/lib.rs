//! Embedding core for running a WebAssembly guest program.
//!
//! The verified library holds the decision logic of the embedding layer:
//! validating the guest binary's header, assembling the execution session
//! (arguments, environment, stream bindings), resolving the entry point,
//! and classifying the outcome of a run into an exit code. The
//! interpreter is consumed as a black-box compile capability behind a
//! trusted wrapper; the surrounding host glue (C boundary marshalling,
//! descriptor duplication, the async runtime, instantiation and the call
//! into the guest) lives outside the library and drives these functions.

pub mod args;
pub mod boundary;
pub mod descriptor;
pub mod driver;
pub mod header;
pub mod loader;
pub mod session;
pub mod version;
