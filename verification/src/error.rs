//! The FidelityFX return codes and the library's error type.
use vstd::prelude::*;

use crate::decimal::{append_decimal, int_decimal, lemma_int_decimal_injective};

verus! {

/// The code every FidelityFX call returns when it succeeded.
pub const FFX_OK: i32 = 0;

/// The operation failed due to an invalid pointer (bit pattern `0x8000_0000`).
pub const FFX_ERROR_INVALID_POINTER: i32 = i32::MIN;

/// The operation failed due to an invalid alignment (`0x8000_0001`).
pub const FFX_ERROR_INVALID_ALIGNMENT: i32 = i32::MIN + 1;

/// The operation failed due to an invalid size (`0x8000_0002`).
pub const FFX_ERROR_INVALID_SIZE: i32 = i32::MIN + 2;

/// The end of the file was encountered (`0x8000_0003`).
pub const FFX_EOF: i32 = i32::MIN + 3;

/// The specified path was invalid (`0x8000_0004`).
pub const FFX_ERROR_INVALID_PATH: i32 = i32::MIN + 4;

/// The end of a file was reached while reading (`0x8000_0005`).
pub const FFX_ERROR_EOF: i32 = i32::MIN + 5;

/// Some data was malformed (`0x8000_0006`).
pub const FFX_ERROR_MALFORMED_DATA: i32 = i32::MIN + 6;

/// The operation ran out of memory (`0x8000_0007`).
pub const FFX_ERROR_OUT_OF_MEMORY: i32 = i32::MIN + 7;

/// The backend interface was not fully configured (`0x8000_0008`).
pub const FFX_ERROR_INCOMPLETE_INTERFACE: i32 = i32::MIN + 8;

/// An enumeration value was invalid (`0x8000_0009`).
pub const FFX_ERROR_INVALID_ENUM: i32 = i32::MIN + 9;

/// An argument was invalid (`0x8000_000a`).
pub const FFX_ERROR_INVALID_ARGUMENT: i32 = i32::MIN + 10;

/// A value was out of range (`0x8000_000b`).
pub const FFX_ERROR_OUT_OF_RANGE: i32 = i32::MIN + 11;

/// A device was null (`0x8000_000c`).
pub const FFX_ERROR_NULL_DEVICE: i32 = i32::MIN + 12;

/// The backend API returned an error code (`0x8000_000d`).
pub const FFX_ERROR_BACKEND_API_ERROR: i32 = i32::MIN + 13;

/// There was not enough memory (`0x8000_000e`).
pub const FFX_ERROR_INSUFFICIENT_MEMORY: i32 = i32::MIN + 14;

/// The wrong backend was linked (`0x8000_000f`).
pub const FFX_ERROR_INVALID_VERSION: i32 = i32::MIN + 15;

/// Access to the resource was denied (`0x8000_0010`).
pub const FFX_ERROR_ACCESS_DENIED: i32 = i32::MIN + 16;

/// An error code returned by a FidelityFX call.
#[derive(Debug, Clone, Copy, PartialEq, Eq, Structural)]
pub struct FfxError(pub i32);

/// Turns a FidelityFX return code into a `Result`: `Ok` for `FFX_OK`, the code as
/// an error otherwise.
pub fn ok_or_error(code: i32) -> (res: Result<(), FfxError>)
    ensures
        res is Ok <==> code == FFX_OK,
        res matches Err(e) ==> e.0 == code,
{
    if code == FFX_OK {
        Ok(())
    } else {
        Err(FfxError(code))
    }
}

/// Hands back `value` when the call that produced it returned `FFX_OK`, and the code as
/// an error otherwise (a call that fills an output and returns a code).
pub fn ok_or_error_with<T>(code: i32, value: T) -> (res: Result<T, FfxError>)
    ensures
        code == FFX_OK ==> res == Ok::<T, FfxError>(value),
        code != FFX_OK ==> res == Err::<T, FfxError>(FfxError(code)),
{
    match ok_or_error(code) {
        Ok(()) => Ok(value),
        Err(e) => Err(e),
    }
}

/// The text in front of the number in the message of a code that is not one of the
/// known FidelityFX codes.
pub open spec fn unknown_prefix() -> Seq<char> {
    "Unknown FFX error code: "@
}

/// The message that describes a known code, or `None` for any other code.
pub open spec fn known_message(code: i32) -> Option<Seq<char>> {
    if code == FFX_OK {
        Some("The operation completed successfully."@)
    } else if code == FFX_ERROR_INVALID_POINTER {
        Some("The operation failed due to an invalid pointer."@)
    } else if code == FFX_ERROR_INVALID_ALIGNMENT {
        Some("The operation failed due to an invalid alignment."@)
    } else if code == FFX_ERROR_INVALID_SIZE {
        Some("The operation failed due to an invalid size."@)
    } else if code == FFX_EOF {
        Some("The end of the file was encountered."@)
    } else if code == FFX_ERROR_INVALID_PATH {
        Some("The operation failed because the specified path was invalid."@)
    } else if code == FFX_ERROR_EOF {
        Some("The operation failed because end of file was reached."@)
    } else if code == FFX_ERROR_MALFORMED_DATA {
        Some("The operation failed because of some malformed data."@)
    } else if code == FFX_ERROR_OUT_OF_MEMORY {
        Some("The operation failed because it ran out memory."@)
    } else if code == FFX_ERROR_INCOMPLETE_INTERFACE {
        Some("The operation failed because the interface was not fully configured."@)
    } else if code == FFX_ERROR_INVALID_ENUM {
        Some("The operation failed because of an invalid enumeration value."@)
    } else if code == FFX_ERROR_INVALID_ARGUMENT {
        Some("The operation failed because an argument was invalid."@)
    } else if code == FFX_ERROR_OUT_OF_RANGE {
        Some("The operation failed because a value was out of range."@)
    } else if code == FFX_ERROR_NULL_DEVICE {
        Some("The operation failed because a device was null."@)
    } else if code == FFX_ERROR_BACKEND_API_ERROR {
        Some("The operation failed because the backend API returned an error code."@)
    } else if code == FFX_ERROR_INSUFFICIENT_MEMORY {
        Some("The operation failed because there was not enough memory."@)
    } else if code == FFX_ERROR_INVALID_VERSION {
        Some("The operation failed because the wrong backend was linked."@)
    } else if code == FFX_ERROR_ACCESS_DENIED {
        Some("The operation failed because access to the resource was denied."@)
    } else {
        None
    }
}

/// The message that describes `code`: its own sentence for a known code, and
/// `Unknown FFX error code: ` followed by the code in decimal for any other.
pub open spec fn error_message(code: i32) -> Seq<char> {
    match known_message(code) {
        Some(m) => m,
        None => unknown_prefix() + int_decimal(code as int),
    }
}

impl FfxError {
    /// The code this error carries.
    pub fn code(&self) -> (c: i32)
        ensures
            c == self.0,
    {
        self.0
    }

    /// The human-readable description of this error.
    pub fn message(&self) -> (s: String)
        ensures
            s@ == error_message(self.0),
    {
        let code = self.0;
        if code == FFX_OK {
            String::from_str("The operation completed successfully.")
        } else if code == FFX_ERROR_INVALID_POINTER {
            String::from_str("The operation failed due to an invalid pointer.")
        } else if code == FFX_ERROR_INVALID_ALIGNMENT {
            String::from_str("The operation failed due to an invalid alignment.")
        } else if code == FFX_ERROR_INVALID_SIZE {
            String::from_str("The operation failed due to an invalid size.")
        } else if code == FFX_EOF {
            String::from_str("The end of the file was encountered.")
        } else if code == FFX_ERROR_INVALID_PATH {
            String::from_str("The operation failed because the specified path was invalid.")
        } else if code == FFX_ERROR_EOF {
            String::from_str("The operation failed because end of file was reached.")
        } else if code == FFX_ERROR_MALFORMED_DATA {
            String::from_str("The operation failed because of some malformed data.")
        } else if code == FFX_ERROR_OUT_OF_MEMORY {
            String::from_str("The operation failed because it ran out memory.")
        } else if code == FFX_ERROR_INCOMPLETE_INTERFACE {
            String::from_str("The operation failed because the interface was not fully configured.")
        } else if code == FFX_ERROR_INVALID_ENUM {
            String::from_str("The operation failed because of an invalid enumeration value.")
        } else if code == FFX_ERROR_INVALID_ARGUMENT {
            String::from_str("The operation failed because an argument was invalid.")
        } else if code == FFX_ERROR_OUT_OF_RANGE {
            String::from_str("The operation failed because a value was out of range.")
        } else if code == FFX_ERROR_NULL_DEVICE {
            String::from_str("The operation failed because a device was null.")
        } else if code == FFX_ERROR_BACKEND_API_ERROR {
            String::from_str("The operation failed because the backend API returned an error code.")
        } else if code == FFX_ERROR_INSUFFICIENT_MEMORY {
            String::from_str("The operation failed because there was not enough memory.")
        } else if code == FFX_ERROR_INVALID_VERSION {
            String::from_str("The operation failed because the wrong backend was linked.")
        } else if code == FFX_ERROR_ACCESS_DENIED {
            String::from_str("The operation failed because access to the resource was denied.")
        } else {
            let mut s = String::from_str("Unknown FFX error code: ");
            append_decimal(&mut s, code);
            s
        }
    }
}

/// Law: the message of a code that is not a known FidelityFX code names the code, so
/// two such codes with the same message are the same code.
pub proof fn lemma_unknown_message_names_code(a: i32, b: i32)
    requires
        known_message(a) is None,
        known_message(b) is None,
        error_message(a) == error_message(b),
    ensures
        a == b,
{
    let pa = error_message(a);
    let n = unknown_prefix().len() as int;
    assert(pa.subrange(n, pa.len() as int) =~= int_decimal(a as int));
    assert(error_message(b).subrange(n, pa.len() as int) =~= int_decimal(b as int));
    lemma_int_decimal_injective(a as int, b as int);
}

/// Law: every code has a message of its own; two codes with the same message are the
/// same code.
pub proof fn lemma_error_message_injective(a: i32, b: i32)
    requires
        error_message(a) == error_message(b),
    ensures
        a == b,
{
    if known_message(a) is None && known_message(b) is None {
        lemma_unknown_message_names_code(a, b);
    } else {
        reveal_strlit("The operation completed successfully.");
        reveal_strlit("The operation failed due to an invalid pointer.");
        reveal_strlit("The operation failed due to an invalid alignment.");
        reveal_strlit("The operation failed due to an invalid size.");
        reveal_strlit("The end of the file was encountered.");
        reveal_strlit("The operation failed because the specified path was invalid.");
        reveal_strlit("The operation failed because end of file was reached.");
        reveal_strlit("The operation failed because of some malformed data.");
        reveal_strlit("The operation failed because it ran out memory.");
        reveal_strlit("The operation failed because the interface was not fully configured.");
        reveal_strlit("The operation failed because of an invalid enumeration value.");
        reveal_strlit("The operation failed because an argument was invalid.");
        reveal_strlit("The operation failed because a value was out of range.");
        reveal_strlit("The operation failed because a device was null.");
        reveal_strlit("The operation failed because the backend API returned an error code.");
        reveal_strlit("The operation failed because there was not enough memory.");
        reveal_strlit("The operation failed because the wrong backend was linked.");
        reveal_strlit("The operation failed because access to the resource was denied.");
        reveal_strlit("Unknown FFX error code: ");
        let ma = error_message(a);
        let mb = error_message(b);
        assert(unknown_prefix()[0] == 'U');
        assert(ma.len() == mb.len());
        assert(ma[0] == mb[0]);
        if known_message(a) is Some && known_message(b) is Some {
            assert(ma[21] == mb[21]);
            assert(ma[29] == mb[29]);
            assert(ma[33] == mb[33]);
        }
    }
}

} // verus!
