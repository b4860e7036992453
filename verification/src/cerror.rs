//! Errors reported by the native input and capture helpers: an integer code
//! and a message.

use vstd::prelude::*;

verus! {

/// What an error code means to the rest of the program.
#[derive(Debug, Clone, Copy, PartialEq, Eq, Structural)]
pub enum CErrorCode {
    NoError,
    GenericError,
    UInputNotAccessible,
}

/// Code the helpers report when `/dev/uinput` cannot be opened.
pub const UINPUT_NOT_ACCESSIBLE: i32 = 101;

/// The meaning of a raw error code: `0` is no error, `101` an inaccessible
/// uinput device, anything else a generic error.
pub open spec fn code_kind(code: i32) -> CErrorCode {
    if code == 0 {
        CErrorCode::NoError
    } else if code == UINPUT_NOT_ACCESSIBLE {
        CErrorCode::UInputNotAccessible
    } else {
        CErrorCode::GenericError
    }
}

/// An error of the native helpers.
pub struct CError {
    code: i32,
    message: String,
}

impl CError {
    pub closed spec fn spec_code(&self) -> i32 {
        self.code
    }

    pub closed spec fn spec_message(&self) -> Seq<char> {
        self.message@
    }

    /// No error yet: code `0` and an empty message.
    pub fn new() -> (e: Self)
        ensures
            e.spec_code() == 0,
            e.spec_message() == Seq::<char>::empty(),
    {
        CError { code: 0, message: String::new() }
    }

    /// The error a helper filled in.
    pub fn from_parts(code: i32, message: String) -> (e: Self)
        ensures
            e.spec_code() == code,
            e.spec_message() == message@,
    {
        CError { code, message }
    }

    pub fn is_err(&self) -> (r: bool)
        ensures
            r == (self.spec_code() != 0),
    {
        self.code != 0
    }

    pub fn code(&self) -> (c: i32)
        ensures
            c == self.spec_code(),
    {
        self.code
    }

    pub fn message(&self) -> (m: &str)
        ensures
            m@ == self.spec_message(),
    {
        self.message.as_str()
    }

    pub fn to_enum(&self) -> (k: CErrorCode)
        ensures
            k == code_kind(self.spec_code()),
    {
        if self.code == 0 {
            CErrorCode::NoError
        } else if self.code == UINPUT_NOT_ACCESSIBLE {
            CErrorCode::UInputNotAccessible
        } else {
            CErrorCode::GenericError
        }
    }
}

/// Whether listing the X11 capturables failed: any error but code `2`, which
/// is only logged, makes the listing fail.
pub fn listing_failed(code: i32) -> (r: bool)
    ensures
        r == (code != 0 && code != 2),
{
    code != 0 && code != 2
}

/// An error code is an error exactly when it does not mean "no error".
pub proof fn is_err_agrees_with_kind(e: CError)
    ensures
        (e.spec_code() != 0) <==> (code_kind(e.spec_code()) != CErrorCode::NoError),
{
}

} // verus!
