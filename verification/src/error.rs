use vstd::prelude::*;
use vstd::string::StringExecFns;

verus! {

/// The Win32 error code `ERROR_INVALID_SID`.
pub const ERROR_INVALID_SID: u32 = 0x0539;

/// An error reported while creating, validating, or querying a SID.
///
/// Failures detected by this crate are reported as descriptive variants, while
/// failures reported by a Windows API carry the Win32 error code in
/// [`Error::Windows`].
#[derive(Clone, Copy, Debug, Eq, Hash, PartialEq, Structural)]
#[non_exhaustive]
pub enum Error {
    /// More than 15 sub-authorities were supplied.
    TooManySubAuthorities,
    /// An integer identifier authority does not fit in 48 bits.
    AuthorityOutOfRange,
    /// The bytes, string, or pointer do not describe a valid SID.
    InvalidSid,
    /// A Windows API call failed with this Win32 error code.
    Windows(u32),
}

/// The Win32 error code `ERROR_INSUFFICIENT_BUFFER`, which Windows reports
/// when a buffer is too small and which a sizing call expects.
pub const ERROR_INSUFFICIENT_BUFFER: u32 = 122;

/// A result returned by fallible SID operations.
pub type Result<T> = std::result::Result<T, Error>;

/// The Win32 code that each error maps to.
pub open spec fn win32_code_of(e: Error) -> u32 {
    match e {
        Error::Windows(code) => code,
        _ => ERROR_INVALID_SID,
    }
}

impl Error {
    /// Returns the Win32 error code equivalent of this error.
    ///
    /// Failures detected by this crate map to `ERROR_INVALID_SID`. Failures
    /// reported by Windows return the code Windows gave.
    pub fn win32_code(&self) -> (code: u32)
        ensures
            code == win32_code_of(*self),
    {
        match self {
            Error::TooManySubAuthorities | Error::AuthorityOutOfRange | Error::InvalidSid => {
                ERROR_INVALID_SID
            },
            Error::Windows(code) => *code,
        }
    }
}


/// Declares `std::io::Error` so that it can appear in signatures.
#[verifier::external_type_specification]
#[verifier::external_body]
pub struct ExIoError(std::io::Error);

/// The I/O error that `std::io::Error::from_raw_os_error` builds for a raw OS
/// error code: a function of the code alone, whose `raw_os_error` is that code.
pub uninterp spec fn io_error_of(code: u32) -> std::io::Error;

/// Builds the I/O error for a raw OS error code by calling
/// `std::io::Error::from_raw_os_error`.
///
/// Its contract says the result is the error that `from_raw_os_error` builds
/// for this code; what that error holds is opaque here.
#[verifier::external_body]
fn io_error_from_code(code: u32) -> (e: std::io::Error)
    ensures
        e == io_error_of(code),
{
    std::io::Error::from_raw_os_error(code as i32)
}

impl Error {
    /// Decides what a sizing call of a Windows function that fills a
    /// caller-supplied buffer means: the call is made with no buffer so that
    /// it reports the length it needs, and is expected to fail with
    /// `ERROR_INSUFFICIENT_BUFFER`.
    ///
    /// `failure` is `None` if the call succeeded and otherwise the Win32 error
    /// code it reported. The caller should go on to allocate the reported
    /// length (`Ok`) unless the call failed for another reason, whose error is
    /// returned.
    pub fn check_size_query(failure: Option<u32>) -> (r: Result<()>)
        ensures
            r == match failure {
                Some(code) => if code != ERROR_INSUFFICIENT_BUFFER {
                    Err(Error::Windows(code))
                } else {
                    Ok(())
                },
                None => Ok(()),
            },
    {
        match failure {
            Some(code) => {
                if code != ERROR_INSUFFICIENT_BUFFER {
                    Err(Error::Windows(code))
                } else {
                    Ok(())
                }
            },
            None => Ok(()),
        }
    }

    /// Decides what a fill call of a Windows function means: the call that
    /// writes into a caller-supplied buffer, or any call whose failure is
    /// reported through the calling thread's last Win32 error.
    ///
    /// `failure` is `None` if the call succeeded and otherwise the Win32 error
    /// code it reported, which becomes [`Error::Windows`].
    pub fn check_call(failure: Option<u32>) -> (r: Result<()>)
        ensures
            r == match failure {
                Some(code) => Err(Error::Windows(code)),
                None => Ok(()),
            },
    {
        match failure {
            Some(code) => Err(Error::Windows(code)),
            None => Ok(()),
        }
    }

    /// Returns a human-readable description of this error.
    ///
    /// For [`Error::Windows`], the text is the operating system's description
    /// of the Win32 error code.
    pub fn to_string(&self) -> (text: String)
        ensures
            *self == Error::TooManySubAuthorities ==> text@
                == "a SID holds at most 15 sub-authorities"@,
            *self == Error::AuthorityOutOfRange ==> text@
                == "the identifier authority does not fit in 48 bits"@,
            *self == Error::InvalidSid ==> text@ == "not a valid SID"@,
    {
        match self {
            Error::TooManySubAuthorities => String::from_str("a SID holds at most 15 sub-authorities"),
            Error::AuthorityOutOfRange => String::from_str(
                "the identifier authority does not fit in 48 bits",
            ),
            Error::InvalidSid => String::from_str("not a valid SID"),
            Error::Windows(code) => io_error_from_code(*code).to_string(),
        }
    }
}

impl From<Error> for std::io::Error {
    /// The I/O error for this error's Win32 code.
    fn from(error: Error) -> (r: std::io::Error)
        ensures
            r == io_error_of(win32_code_of(error)),
    {
        io_error_from_code(error.win32_code())
    }
}

/// The detail behind a [`SidParseError`].
#[derive(Clone, Copy, Debug, Eq, PartialEq, Structural)]
pub enum SidParseErrorKind {
    /// The string does not match the SID grammar.
    Invalid,
    /// The string contains an interior NUL character, so it cannot be passed
    /// to Windows.
    InteriorNul,
    /// `ConvertStringSidToSid` rejected the string with this Win32 error code.
    Windows(u32),
}

/// The error returned when a string is not a valid SID.
#[derive(Clone, Debug, Eq, PartialEq, Structural)]
pub struct SidParseError {
    kind: SidParseErrorKind,
}

impl SidParseError {
    /// The error for a string that does not match the SID grammar.
    pub fn invalid() -> (e: SidParseError)
        ensures
            e.kind() == SidParseErrorKind::Invalid,
    {
        SidParseError { kind: SidParseErrorKind::Invalid }
    }

    /// The error for a string that holds an interior NUL character.
    pub fn interior_nul() -> (e: SidParseError)
        ensures
            e.kind() == SidParseErrorKind::InteriorNul,
    {
        SidParseError { kind: SidParseErrorKind::InteriorNul }
    }

    /// The error for a string that Windows rejected with `code`.
    pub fn windows(code: u32) -> (e: SidParseError)
        ensures
            e.kind() == SidParseErrorKind::Windows(code),
    {
        SidParseError { kind: SidParseErrorKind::Windows(code) }
    }

    /// Decides what a Windows string conversion call means: `failure` is
    /// `None` if the call succeeded and otherwise the Win32 error code it
    /// reported, which becomes a [`SidParseErrorKind::Windows`] error.
    pub fn check_call(failure: Option<u32>) -> (r: std::result::Result<(), SidParseError>)
        ensures
            failure matches Some(code) ==> (r matches Err(e) && e.kind()
                == SidParseErrorKind::Windows(code)),
            failure is None ==> r is Ok,
    {
        match failure {
            Some(code) => Err(SidParseError::windows(code)),
            None => Ok(()),
        }
    }

    /// The detail of this error.
    pub closed spec fn kind(&self) -> SidParseErrorKind {
        self.kind
    }

    /// Returns the detail of this error.
    pub fn error_kind(&self) -> (k: SidParseErrorKind)
        ensures
            k == self.kind(),
    {
        self.kind
    }

    /// Returns a human-readable description of this error.
    pub fn to_string(&self) -> (text: String)
        ensures
            self.kind() == SidParseErrorKind::Invalid ==> text@ == "invalid SID string"@,
            self.kind() == SidParseErrorKind::InteriorNul ==> text@
                == "SID string contains an interior NUL byte"@,
            self.kind() is Windows ==> "invalid SID string: "@.is_prefix_of(text@),
    {
        match &self.kind {
            SidParseErrorKind::Invalid => String::from_str("invalid SID string"),
            SidParseErrorKind::InteriorNul => String::from_str(
                "SID string contains an interior NUL byte",
            ),
            SidParseErrorKind::Windows(code) => {
                let detail = io_error_from_code(*code).to_string();
                let text = String::from_str("invalid SID string: ").concat(detail.as_str());
                assert("invalid SID string: "@.is_prefix_of(text@)) by {
                    assert(text@.take("invalid SID string: "@.len() as int)
                        =~= "invalid SID string: "@);
                }
                text
            },
        }
    }
}

impl vstd::std_specs::convert::FromSpecImpl<Error> for std::io::Error {
    open spec fn obeys_from_spec() -> bool {
        true
    }

    open spec fn from_spec(v: Error) -> std::io::Error {
        io_error_of(win32_code_of(v))
    }
}

impl From<SidParseError> for Error {
    fn from(e: SidParseError) -> (r: Error)
        ensures
            r == Error::InvalidSid,
    {
        Error::InvalidSid
    }
}

impl vstd::std_specs::convert::FromSpecImpl<SidParseError> for Error {
    open spec fn obeys_from_spec() -> bool {
        true
    }

    open spec fn from_spec(v: SidParseError) -> Error {
        Error::InvalidSid
    }
}

} // verus!
