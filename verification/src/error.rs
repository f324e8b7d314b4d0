//! The error taxonomy and its signed status codes.

use vstd::prelude::*;

verus! {

/// Status of an operation that succeeded.
pub const SUCCESS: i32 = 0;

/// Status for a required buffer that is absent.
pub const ERROR_NULL_POINTER: i32 = -1;

/// Status for a length outside the operation's contract.
pub const ERROR_INVALID_LENGTH: i32 = -2;

/// Status for an encryption that could not be carried out.
pub const ERROR_ENCRYPTION_FAILED: i32 = -3;

/// Status for a ciphertext that did not authenticate.
pub const ERROR_DECRYPTION_FAILED: i32 = -4;

/// Status for a key derivation that was rejected.
pub const ERROR_KEY_DERIVATION_FAILED: i32 = -5;

/// Status for text that is not valid UTF-8.
pub const ERROR_UTF8_CONVERSION: i32 = -6;

/// Why an operation failed.
#[derive(Clone, Copy, Debug, PartialEq, Eq, Structural)]
pub enum ErrorKind {
    /// A required buffer is absent.
    NullPointer,
    /// A length does not match the fixed size, or lies outside the allowed range.
    InvalidLength,
    /// The output buffer cannot hold the ciphertext, or the cipher refused the input.
    EncryptionFailed,
    /// The authentication tag did not match: tampering, a wrong key or a wrong nonce.
    DecryptionFailed,
    /// The key derivation rejected its input.
    KeyDerivationFailed,
    /// The text is not valid UTF-8.
    TextEncodingError,
}

impl ErrorKind {
    /// The status code that stands for this error.
    pub open spec fn spec_code(self) -> i32 {
        match self {
            ErrorKind::NullPointer => ERROR_NULL_POINTER,
            ErrorKind::InvalidLength => ERROR_INVALID_LENGTH,
            ErrorKind::EncryptionFailed => ERROR_ENCRYPTION_FAILED,
            ErrorKind::DecryptionFailed => ERROR_DECRYPTION_FAILED,
            ErrorKind::KeyDerivationFailed => ERROR_KEY_DERIVATION_FAILED,
            ErrorKind::TextEncodingError => ERROR_UTF8_CONVERSION,
        }
    }

    /// The status code that stands for this error.
    #[verifier::when_used_as_spec(spec_code)]
    pub fn code(self) -> (c: i32)
        ensures
            c == self.spec_code(),
            -6 <= c <= -1,
    {
        match self {
            ErrorKind::NullPointer => ERROR_NULL_POINTER,
            ErrorKind::InvalidLength => ERROR_INVALID_LENGTH,
            ErrorKind::EncryptionFailed => ERROR_ENCRYPTION_FAILED,
            ErrorKind::DecryptionFailed => ERROR_DECRYPTION_FAILED,
            ErrorKind::KeyDerivationFailed => ERROR_KEY_DERIVATION_FAILED,
            ErrorKind::TextEncodingError => ERROR_UTF8_CONVERSION,
        }
    }

    /// The error that a status code stands for, if it stands for one.
    pub open spec fn spec_from_code(code: i32) -> Option<ErrorKind> {
        if code == ERROR_NULL_POINTER {
            Some(ErrorKind::NullPointer)
        } else if code == ERROR_INVALID_LENGTH {
            Some(ErrorKind::InvalidLength)
        } else if code == ERROR_ENCRYPTION_FAILED {
            Some(ErrorKind::EncryptionFailed)
        } else if code == ERROR_DECRYPTION_FAILED {
            Some(ErrorKind::DecryptionFailed)
        } else if code == ERROR_KEY_DERIVATION_FAILED {
            Some(ErrorKind::KeyDerivationFailed)
        } else if code == ERROR_UTF8_CONVERSION {
            Some(ErrorKind::TextEncodingError)
        } else {
            None
        }
    }

    /// Reads a status code back into the error it stands for. `SUCCESS` and
    /// every number outside the taxonomy give `None`.
    #[verifier::when_used_as_spec(spec_from_code)]
    pub fn from_code(code: i32) -> (e: Option<ErrorKind>)
        ensures
            e == Self::spec_from_code(code),
    {
        if code == ERROR_NULL_POINTER {
            Some(ErrorKind::NullPointer)
        } else if code == ERROR_INVALID_LENGTH {
            Some(ErrorKind::InvalidLength)
        } else if code == ERROR_ENCRYPTION_FAILED {
            Some(ErrorKind::EncryptionFailed)
        } else if code == ERROR_DECRYPTION_FAILED {
            Some(ErrorKind::DecryptionFailed)
        } else if code == ERROR_KEY_DERIVATION_FAILED {
            Some(ErrorKind::KeyDerivationFailed)
        } else if code == ERROR_UTF8_CONVERSION {
            Some(ErrorKind::TextEncodingError)
        } else {
            None
        }
    }
}

/// The status that reports `outcome`: `SUCCESS` for `Ok`, the error's code otherwise.
pub open spec fn spec_status_of<T>(outcome: Result<T, ErrorKind>) -> i32 {
    match outcome {
        Ok(_) => SUCCESS,
        Err(e) => e.spec_code(),
    }
}

/// Maps the outcome of an operation to the status handed across the boundary.
pub fn status_of<T>(outcome: &Result<T, ErrorKind>) -> (status: i32)
    ensures
        status == spec_status_of(*outcome),
        -6 <= status <= 0,
        status == SUCCESS <==> outcome is Ok,
{
    match outcome {
        Ok(_) => SUCCESS,
        Err(e) => e.code(),
    }
}

/// The view of an outcome that carries bytes.
pub open spec fn bytes_outcome(r: Result<Vec<u8>, ErrorKind>) -> Result<Seq<u8>, ErrorKind> {
    match r {
        Ok(bytes) => Ok(bytes@),
        Err(e) => Err(e),
    }
}

/// Every error has a negative code, and reading the code back gives the error:
/// no two errors share a code, and none is mistaken for success.
pub proof fn codes_identify_errors(e: ErrorKind)
    ensures
        e.spec_code() < SUCCESS,
        ErrorKind::spec_from_code(e.spec_code()) == Some(e),
{
}

/// A status code is read back as an error exactly when some error has it.
pub proof fn from_code_inverts_code(code: i32)
    ensures
        ErrorKind::spec_from_code(code) matches Some(e) ==> e.spec_code() == code,
        ErrorKind::spec_from_code(code) is None <==> !(-6 <= code <= -1),
{
}

} // verus!
