//! The closed set of error kinds reported by the native driver.

use vstd::prelude::*;
use vstd::string::StringExecFns;

verus! {

/// Status code of a native call that succeeded.
pub const UHD_ERROR_NONE: u32 = 0;
pub const UHD_ERROR_INVALID_DEVICE: u32 = 1;
pub const UHD_ERROR_INDEX: u32 = 10;
pub const UHD_ERROR_KEY: u32 = 11;
pub const UHD_ERROR_NOT_IMPLEMENTED: u32 = 20;
pub const UHD_ERROR_USB: u32 = 21;
pub const UHD_ERROR_IO: u32 = 30;
pub const UHD_ERROR_OS: u32 = 31;
pub const UHD_ERROR_ASSERTION: u32 = 40;
pub const UHD_ERROR_LOOKUP: u32 = 41;
pub const UHD_ERROR_TYPE: u32 = 42;
pub const UHD_ERROR_VALUE: u32 = 43;
pub const UHD_ERROR_RUNTIME: u32 = 44;
pub const UHD_ERROR_ENVIRONMENT: u32 = 45;
pub const UHD_ERROR_SYSTEM: u32 = 46;
pub const UHD_ERROR_EXCEPT: u32 = 47;
pub const UHD_ERROR_BOOSTEXCEPT: u32 = 60;
pub const UHD_ERROR_STDEXCEPT: u32 = 70;
pub const UHD_ERROR_UNKNOWN: u32 = 100;

pub type Result<T, E = UhdError> = core::result::Result<T, E>;

/// An error kind of the native driver, or `Unknown` for anything that could
/// not be translated on this side of the boundary.
#[derive(Clone, Copy, Debug, PartialEq, Eq, Structural)]
pub enum UhdError {
    InvalidDevice,
    Index,
    Key,
    NotImplemented,
    Usb,
    Io,
    Os,
    Assertion,
    Lookup,
    Type,
    Value,
    Runtime,
    Environment,
    System,
    Except,
    BoostExcept,
    StdExcept,
    Unknown,
}

impl UhdError {
    /// The status code that the native driver uses for this kind.
    pub open spec fn spec_code(self) -> u32 {
        match self {
            UhdError::InvalidDevice => UHD_ERROR_INVALID_DEVICE,
            UhdError::Index => UHD_ERROR_INDEX,
            UhdError::Key => UHD_ERROR_KEY,
            UhdError::NotImplemented => UHD_ERROR_NOT_IMPLEMENTED,
            UhdError::Usb => UHD_ERROR_USB,
            UhdError::Io => UHD_ERROR_IO,
            UhdError::Os => UHD_ERROR_OS,
            UhdError::Assertion => UHD_ERROR_ASSERTION,
            UhdError::Lookup => UHD_ERROR_LOOKUP,
            UhdError::Type => UHD_ERROR_TYPE,
            UhdError::Value => UHD_ERROR_VALUE,
            UhdError::Runtime => UHD_ERROR_RUNTIME,
            UhdError::Environment => UHD_ERROR_ENVIRONMENT,
            UhdError::System => UHD_ERROR_SYSTEM,
            UhdError::Except => UHD_ERROR_EXCEPT,
            UhdError::BoostExcept => UHD_ERROR_BOOSTEXCEPT,
            UhdError::StdExcept => UHD_ERROR_STDEXCEPT,
            UhdError::Unknown => UHD_ERROR_UNKNOWN,
        }
    }

    /// Whether `code` is the status code of one of the kinds.
    pub open spec fn is_known_code(code: u32) -> bool {
        exists|kind: UhdError| kind.spec_code() == code
    }

    /// The translation of a status code: nothing for success, the kind whose
    /// code it is, and `Unknown` for every other value.
    pub open spec fn spec_from_sys(code: u32) -> Option<UhdError> {
        if code == UHD_ERROR_NONE {
            None
        } else if Self::is_known_code(code) {
            Some(choose|kind: UhdError| kind.spec_code() == code)
        } else {
            Some(UhdError::Unknown)
        }
    }

    /// The human-readable description of this kind.
    pub open spec fn spec_message(self) -> Seq<char> {
        match self {
            UhdError::InvalidDevice => "invalid device arguments"@,
            UhdError::Index => "index out of range"@,
            UhdError::Key => "invalid key"@,
            UhdError::NotImplemented => "function is not yet implemented"@,
            UhdError::Usb => "error occurred during USB transaction"@,
            UhdError::Io => "error occurred during I/O"@,
            UhdError::Os => "system-related error"@,
            UhdError::Assertion => "assertion failed"@,
            UhdError::Lookup => "key or index is invalid"@,
            UhdError::Type => "function called with incorrect types"@,
            UhdError::Value => "function called with incorrect values"@,
            UhdError::Runtime => "runtime error"@,
            UhdError::Environment => "external error"@,
            UhdError::System => "system error"@,
            UhdError::Except => "uhd exception thrown"@,
            UhdError::BoostExcept => "boost::exception thrown"@,
            UhdError::StdExcept => "std::exception thrown"@,
            UhdError::Unknown => "unknown error occurred"@,
        }
    }

    /// No two kinds share a status code, and none uses the success code.
    pub proof fn lemma_code_injective(a: UhdError, b: UhdError)
        ensures
            a.spec_code() != UHD_ERROR_NONE,
            a.spec_code() == b.spec_code() ==> a == b,
    {
    }

    /// Translating the code of a kind gives that kind back.
    pub proof fn lemma_from_sys_of_code(kind: UhdError)
        ensures
            Self::spec_from_sys(kind.spec_code()) == Some(kind),
    {
        let code = kind.spec_code();
        assert(Self::is_known_code(code));
        let chosen = choose|k: UhdError| k.spec_code() == code;
        Self::lemma_code_injective(chosen, kind);
    }

    /// A status code translates to a kind other than `Unknown` only if it is
    /// that kind's own code, and to nothing only if it is the success code.
    pub proof fn lemma_from_sys_exact(code: u32, kind: UhdError)
        ensures
            Self::spec_from_sys(code) is None <==> code == UHD_ERROR_NONE,
            kind != UhdError::Unknown ==> (Self::spec_from_sys(code) == Some(kind) <==> code
                == kind.spec_code()),
            Self::spec_from_sys(code) == Some(UhdError::Unknown) <==> (code != UHD_ERROR_NONE
                && (code == UHD_ERROR_UNKNOWN || !Self::is_known_code(code))),
    {
        Self::lemma_from_sys_of_code(kind);
        Self::lemma_from_sys_of_code(UhdError::Unknown);
        if code != UHD_ERROR_NONE && Self::is_known_code(code) {
            let chosen = choose|k: UhdError| k.spec_code() == code;
            Self::lemma_code_injective(chosen, kind);
            Self::lemma_code_injective(chosen, UhdError::Unknown);
        }
    }

    /// The status code that the native driver uses for this kind.
    pub fn code(&self) -> (code: u32)
        ensures
            code == self.spec_code(),
    {
        match self {
            UhdError::InvalidDevice => UHD_ERROR_INVALID_DEVICE,
            UhdError::Index => UHD_ERROR_INDEX,
            UhdError::Key => UHD_ERROR_KEY,
            UhdError::NotImplemented => UHD_ERROR_NOT_IMPLEMENTED,
            UhdError::Usb => UHD_ERROR_USB,
            UhdError::Io => UHD_ERROR_IO,
            UhdError::Os => UHD_ERROR_OS,
            UhdError::Assertion => UHD_ERROR_ASSERTION,
            UhdError::Lookup => UHD_ERROR_LOOKUP,
            UhdError::Type => UHD_ERROR_TYPE,
            UhdError::Value => UHD_ERROR_VALUE,
            UhdError::Runtime => UHD_ERROR_RUNTIME,
            UhdError::Environment => UHD_ERROR_ENVIRONMENT,
            UhdError::System => UHD_ERROR_SYSTEM,
            UhdError::Except => UHD_ERROR_EXCEPT,
            UhdError::BoostExcept => UHD_ERROR_BOOSTEXCEPT,
            UhdError::StdExcept => UHD_ERROR_STDEXCEPT,
            UhdError::Unknown => UHD_ERROR_UNKNOWN,
        }
    }

    /// Translates the status code of a native call.
    ///
    /// Returns `None` for the success code, the matching kind for each code
    /// of the taxonomy, and `Unknown` for any other value.
    pub fn from_sys(code: u32) -> (kind: Option<UhdError>)
        ensures
            kind == Self::spec_from_sys(code),
            kind is None <==> code == UHD_ERROR_NONE,
            forall|other: UhdError|
                other != UhdError::Unknown ==> (kind == Some(other) <==> code
                    == #[trigger] other.spec_code()),
    {
        let kind = match code {
            UHD_ERROR_NONE => None,
            UHD_ERROR_INVALID_DEVICE => Some(UhdError::InvalidDevice),
            UHD_ERROR_INDEX => Some(UhdError::Index),
            UHD_ERROR_KEY => Some(UhdError::Key),
            UHD_ERROR_NOT_IMPLEMENTED => Some(UhdError::NotImplemented),
            UHD_ERROR_USB => Some(UhdError::Usb),
            UHD_ERROR_IO => Some(UhdError::Io),
            UHD_ERROR_OS => Some(UhdError::Os),
            UHD_ERROR_ASSERTION => Some(UhdError::Assertion),
            UHD_ERROR_LOOKUP => Some(UhdError::Lookup),
            UHD_ERROR_TYPE => Some(UhdError::Type),
            UHD_ERROR_VALUE => Some(UhdError::Value),
            UHD_ERROR_RUNTIME => Some(UhdError::Runtime),
            UHD_ERROR_ENVIRONMENT => Some(UhdError::Environment),
            UHD_ERROR_SYSTEM => Some(UhdError::System),
            UHD_ERROR_EXCEPT => Some(UhdError::Except),
            UHD_ERROR_BOOSTEXCEPT => Some(UhdError::BoostExcept),
            UHD_ERROR_STDEXCEPT => Some(UhdError::StdExcept),
            _ => Some(UhdError::Unknown),
        };
        proof {
            match kind {
                Some(k) => {
                    Self::lemma_from_sys_exact(code, k);
                    if k != UhdError::Unknown {
                        assert(k.spec_code() == code);
                    } else if code != UHD_ERROR_UNKNOWN {
                        assert forall|other: UhdError| other.spec_code() != code by {}
                    }
                },
                None => {},
            }
            assert forall|other: UhdError| other != UhdError::Unknown implies (kind == Some(other)
                <==> code == #[trigger] other.spec_code()) by {
                Self::lemma_code_injective(other, other);
                if let Some(k) = kind {
                    if k != UhdError::Unknown {
                        Self::lemma_code_injective(k, other);
                    }
                }
            }
        }
        kind
    }

    /// The human-readable description of this kind.
    pub fn message(&self) -> (text: String)
        ensures
            text@ == self.spec_message(),
    {
        let text = match self {
            UhdError::InvalidDevice => "invalid device arguments",
            UhdError::Index => "index out of range",
            UhdError::Key => "invalid key",
            UhdError::NotImplemented => "function is not yet implemented",
            UhdError::Usb => "error occurred during USB transaction",
            UhdError::Io => "error occurred during I/O",
            UhdError::Os => "system-related error",
            UhdError::Assertion => "assertion failed",
            UhdError::Lookup => "key or index is invalid",
            UhdError::Type => "function called with incorrect types",
            UhdError::Value => "function called with incorrect values",
            UhdError::Runtime => "runtime error",
            UhdError::Environment => "external error",
            UhdError::System => "system error",
            UhdError::Except => "uhd exception thrown",
            UhdError::BoostExcept => "boost::exception thrown",
            UhdError::StdExcept => "std::exception thrown",
            UhdError::Unknown => "unknown error occurred",
        };
        String::from_str(text)
    }
}

/// Turns the status code of a native call into a result: `Ok` for the
/// success code, the translated kind otherwise.
pub fn check_status(code: u32) -> (res: Result<()>)
    ensures
        res is Ok <==> code == UHD_ERROR_NONE,
        res is Err ==> UhdError::spec_from_sys(code) == Some(res->Err_0),
        forall|other: UhdError|
            other != UhdError::Unknown ==> (res == Err::<(), UhdError>(other) <==> code
                == #[trigger] other.spec_code()),
{
    match UhdError::from_sys(code) {
        None => Ok(()),
        Some(kind) => Err(kind),
    }
}

} // verus!
