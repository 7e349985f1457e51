//! Status codes and the two kinds of failure.
use crate::blob::Blob;
use vstd::prelude::*;
use vstd::string::StringSliceAdditionalSpecFns;
use vstd::utf8::valid_utf8;

verus! {

/// The status of a call that went through.
pub const S_OK: i32 = 0;

/// The status for an argument that the callee could not accept.
pub const E_INVALIDARG: i32 = -2147024809;

/// The status of an object that does not offer the interface it was asked for.
pub const E_NOINTERFACE: i32 = -2147467262;

/// The status of a failure of no particular kind. A call that reports its
/// failure by returning no object, and so has no status of its own, is given
/// this one.
pub const E_FAIL: i32 = -2147467259;

/// A failed call.
#[derive(Debug)]
pub enum Error {
    /// The bare status of a call that had nothing more to say.
    Result(i32),
    /// The status of the call together with the diagnostic text that the
    /// compiler produced; the blob is null where the call failed without
    /// producing any.
    Blob(i32, Blob),
}

/// A status is a success exactly when it is not negative.
pub open spec fn spec_succeeded(result: i32) -> bool {
    result >= 0
}

/// What a status alone makes of a call: nothing on success, the status itself on failure.
pub open spec fn ffi_outcome(result: i32) -> Result<(), Error> {
    if result < 0 {
        Err(Error::Result(result))
    } else {
        Ok(())
    }
}

/// What a status makes of a call that can explain itself: nothing on
/// success, the status together with the diagnostics on failure.
pub open spec fn blob_outcome(result: i32, blob: Blob) -> Result<(), Error> {
    if result < 0 {
        Err(Error::Blob(result, blob))
    } else {
        Ok(())
    }
}

/// What a call yields that reports through its status alone and stores the
/// object it made through an out-parameter.
pub open spec fn object_or_status<T>(result: i32, object: T) -> Result<T, Error> {
    if result < 0 {
        Err(Error::Result(result))
    } else {
        Ok(object)
    }
}

/// What a call yields that reports through its status, stores the object it
/// made through one out-parameter and what it has to say through another.
pub open spec fn object_or_diagnostics<T>(result: i32, object: T, blob: Blob) -> Result<T, Error> {
    if result < 0 {
        Err(Error::Blob(result, blob))
    } else {
        Ok(object)
    }
}

#[verifier::when_used_as_spec(spec_succeeded)]
pub fn succeeded(result: i32) -> (ok: bool)
    ensures
        ok == spec_succeeded(result),
{
    result >= 0
}

pub fn result_from_ffi(result: i32) -> (outcome: Result<(), Error>)
    ensures
        outcome == ffi_outcome(result),
{
    if result < 0 {
        Err(Error::Result(result))
    } else {
        Ok(())
    }
}

pub fn result_from_blob(result: i32, blob: Blob) -> (outcome: Result<(), Error>)
    ensures
        outcome == blob_outcome(result, blob),
{
    if result < 0 {
        Err(Error::Blob(result, blob))
    } else {
        Ok(())
    }
}

/// A negative status is always a failure and is never paired with the object
/// that the call may have left behind; a status that is not negative never is
/// a failure. A failure keeps what the call reported: the status itself, and
/// with it the diagnostics where the call gives any.
pub proof fn lemma_status_polarity<T>(result: i32, object: T, blob: Blob)
    ensures
        !succeeded(result) <==> result < 0,
        ffi_outcome(result) is Err <==> result < 0,
        blob_outcome(result, blob) is Err <==> result < 0,
        object_or_status(result, object) is Err <==> result < 0,
        object_or_diagnostics(result, object, blob) is Err <==> result < 0,
        result < 0 ==> ffi_outcome(result) == Err::<(), Error>(Error::Result(result)),
        result < 0 ==> blob_outcome(result, blob) == Err::<(), Error>(Error::Blob(result, blob)),
        result < 0 ==> object_or_status(result, object) == Err::<T, Error>(Error::Result(result)),
        result < 0 ==> object_or_diagnostics(result, object, blob) == Err::<T, Error>(
            Error::Blob(result, blob),
        ),
        result < 0 ==> blob_outcome(result, blob)->Err_0.code() == result,
        result < 0 ==> object_or_diagnostics(result, object, blob)->Err_0.code() == result,
        result >= 0 ==> object_or_status(result, object) == Ok::<T, Error>(object),
        result >= 0 ==> object_or_diagnostics(result, object, blob) == Ok::<T, Error>(object),
{
}

#[verifier::external_type_specification]
#[verifier::external_body]
pub struct ExUtf8Error(core::str::Utf8Error);

/// `core::str::from_utf8`. It accepts exactly the well-formed UTF-8 byte
/// sequences, and the string it returns then borrows the very bytes it was given.
#[verifier::external_body]
pub(crate) fn str_from_utf8(bytes: &[u8]) -> (r: Result<&str, core::str::Utf8Error>)
    ensures
        r is Ok <==> valid_utf8(bytes@),
        r matches Ok(s) ==> s.spec_bytes() == bytes@,
{
    core::str::from_utf8(bytes)
}

/// Whether a text can be passed as a C string: its encoding holds no zero byte.
pub open spec fn is_c_text(text: Seq<char>) -> bool {
    !vstd::utf8::encode_utf8(text).contains(0u8)
}

/// Tells whether `text` can be passed as a C string.
pub fn is_c_string(text: &str) -> (ok: bool)
    ensures
        ok == is_c_text(text@),
{
    let bytes = text.as_bytes();
    let mut i: usize = 0;
    while i < bytes.len()
        invariant
            i <= bytes@.len(),
            bytes@ == vstd::utf8::encode_utf8(text@),
            forall|j: int| 0 <= j < i ==> bytes@[j] != 0u8,
        decreases bytes@.len() - i,
    {
        if bytes[i] == 0 {
            return false;
        }
        i += 1;
    }
    true
}

impl Error {
    /// The status that the failure carries. Either kind of failure has one.
    pub open spec fn spec_code(&self) -> i32 {
        match self {
            Error::Result(code) => *code,
            Error::Blob(code, _) => *code,
        }
    }

    #[verifier::when_used_as_spec(spec_code)]
    pub fn code(&self) -> (code: i32)
        ensures
            code == self.spec_code(),
    {
        match self {
            Error::Result(code) => *code,
            Error::Blob(code, _) => *code,
        }
    }

    /// The diagnostics that the failure carries: `None` for a bare status and
    /// for a null blob alike, since neither has any text to show.
    pub fn diagnostics(&self) -> (blob: Option<&Blob>)
        ensures
            match *self {
                Error::Result(_) => blob is None,
                Error::Blob(_, held) => if held.is_null() {
                    blob is None
                } else {
                    blob == Some(&held)
                },
            },
    {
        match self {
            Error::Result(_) => None,
            Error::Blob(_, held) => if held.is_null() {
                None
            } else {
                Some(held)
            },
        }
    }
}

impl Clone for Error {
    fn clone(&self) -> (copy: Self)
        ensures
            match (*self, copy) {
                (Error::Result(a), Error::Result(b)) => a == b,
                (Error::Blob(c, a), Error::Blob(d, b)) => c == d && a@ == b@ && a.origin()
                    == b.origin(),
                _ => false,
            },
    {
        match self {
            Error::Result(code) => Error::Result(*code),
            Error::Blob(code, blob) => Error::Blob(*code, blob.clone()),
        }
    }
}

impl Default for Error {
    fn default() -> (error: Self)
        ensures
            error == Error::Result(E_INVALIDARG),
    {
        Error::Result(E_INVALIDARG)
    }
}

} // verus!
