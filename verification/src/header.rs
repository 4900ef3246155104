//! Validation of the guest binary's leading bytes.
//!
//! A guest binary is accepted for further processing only when it starts
//! with the four magic bytes `00 61 73 6D` followed by the four version
//! bytes `01 00 00 00`. Anything else is rejected before the interpreter
//! is ever consulted.

use vstd::prelude::*;

verus! {

/// The reason a guest binary's header was rejected.
#[derive(Clone, Copy, Debug, PartialEq, Eq)]
pub enum HeaderError {
    /// The binary is shorter than the eight header bytes.
    TooSmall,
    /// The first four bytes are not the required magic signature.
    BadMagic,
    /// The four version bytes are not the supported version.
    BadVersion,
}

/// The required four-byte magic signature.
pub open spec fn wasm_magic() -> Seq<u8> {
    seq![0x00u8, 0x61u8, 0x73u8, 0x6du8]
}

/// The single supported four-byte version field.
pub open spec fn wasm_version() -> Seq<u8> {
    seq![0x01u8, 0x00u8, 0x00u8, 0x00u8]
}

/// A binary's header is acceptable: at least eight bytes, the magic
/// signature, then the supported version.
pub open spec fn header_ok(b: Seq<u8>) -> bool {
    &&& b.len() >= 8
    &&& b.subrange(0, 4) == wasm_magic()
    &&& b.subrange(4, 8) == wasm_version()
}

/// The verdict on a binary's header: which check fails first, if any.
pub open spec fn header_verdict(b: Seq<u8>) -> Result<(), HeaderError> {
    if b.len() < 8 {
        Err(HeaderError::TooSmall)
    } else if b.subrange(0, 4) != wasm_magic() {
        Err(HeaderError::BadMagic)
    } else if b.subrange(4, 8) != wasm_version() {
        Err(HeaderError::BadVersion)
    } else {
        Ok(())
    }
}

/// Check the guest binary's header, reporting the first failing check.
pub fn validate_header(bytes: &[u8]) -> (r: Result<(), HeaderError>)
    ensures
        r == header_verdict(bytes@),
        r is Ok <==> header_ok(bytes@),
{
    if bytes.len() < 8 {
        return Err(HeaderError::TooSmall);
    }
    if !(bytes[0] == 0x00u8 && bytes[1] == 0x61u8 && bytes[2] == 0x73u8 && bytes[3] == 0x6du8) {
        proof {
            assert(bytes@.subrange(0, 4) != wasm_magic()) by {
                if bytes@.subrange(0, 4) == wasm_magic() {
                    assert(bytes@.subrange(0, 4)[0] == bytes@[0]);
                    assert(bytes@.subrange(0, 4)[1] == bytes@[1]);
                    assert(bytes@.subrange(0, 4)[2] == bytes@[2]);
                    assert(bytes@.subrange(0, 4)[3] == bytes@[3]);
                }
            }
        }
        return Err(HeaderError::BadMagic);
    }
    proof {
        assert(bytes@.subrange(0, 4) =~= wasm_magic());
    }
    if !(bytes[4] == 0x01u8 && bytes[5] == 0x00u8 && bytes[6] == 0x00u8 && bytes[7] == 0x00u8) {
        proof {
            assert(bytes@.subrange(4, 8) != wasm_version()) by {
                if bytes@.subrange(4, 8) == wasm_version() {
                    assert(bytes@.subrange(4, 8)[0] == bytes@[4]);
                    assert(bytes@.subrange(4, 8)[1] == bytes@[5]);
                    assert(bytes@.subrange(4, 8)[2] == bytes@[6]);
                    assert(bytes@.subrange(4, 8)[3] == bytes@[7]);
                }
            }
        }
        return Err(HeaderError::BadVersion);
    }
    proof {
        assert(bytes@.subrange(4, 8) =~= wasm_version());
    }
    Ok(())
}

/// Law: a binary shorter than eight bytes is rejected before the
/// interpreter is consulted, with the size verdict.
pub proof fn lemma_short_binary_rejected(b: Seq<u8>)
    requires
        b.len() < 8,
    ensures
        !header_ok(b),
        header_verdict(b) == Err::<(), HeaderError>(HeaderError::TooSmall),
{
}

/// Law: a binary whose first eight bytes are not exactly the magic
/// signature followed by the supported version is rejected.
pub proof fn lemma_bad_prefix_rejected(b: Seq<u8>)
    requires
        b.len() >= 8,
        b.subrange(0, 8) != wasm_magic() + wasm_version(),
    ensures
        !header_ok(b),
        header_verdict(b) is Err,
{
    if header_ok(b) {
        assert(b.subrange(0, 8) =~= b.subrange(0, 4) + b.subrange(4, 8));
    }
}

} // verus!
