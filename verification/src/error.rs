//! The engine's status codes and the error type that mirrors them.

use vstd::prelude::*;

verus! {

/// The status with which the engine reports that a request succeeded.
pub const ARES_SUCCESS: i32 = 0;

/// The answer holds no records of the kind asked for.
pub const ARES_ENODATA: i32 = 1;

/// The server said that the query was malformed.
pub const ARES_EFORMERR: i32 = 2;

/// The server reported a general failure.
pub const ARES_ESERVFAIL: i32 = 3;

/// The name that was asked for does not exist.
pub const ARES_ENOTFOUND: i32 = 4;

/// The server does not implement the operation.
pub const ARES_ENOTIMP: i32 = 5;

/// The server refused the query.
pub const ARES_EREFUSED: i32 = 6;

/// The query could not be built.
pub const ARES_EBADQUERY: i32 = 7;

/// The name could not be encoded as a domain name.
pub const ARES_EBADNAME: i32 = 8;

/// The address family is not supported.
pub const ARES_EBADFAMILY: i32 = 9;

/// The response could not be understood.
pub const ARES_EBADRESP: i32 = 10;

/// No server could be reached.
pub const ARES_ECONNREFUSED: i32 = 11;

/// No server answered in time.
pub const ARES_ETIMEOUT: i32 = 12;

/// The end of a file was reached.
pub const ARES_EOF: i32 = 13;

/// A file could not be read.
pub const ARES_EFILE: i32 = 14;

/// Memory ran out.
pub const ARES_ENOMEM: i32 = 15;

/// The channel is being destroyed.
pub const ARES_EDESTRUCTION: i32 = 16;

/// A string was malformed.
pub const ARES_EBADSTR: i32 = 17;

/// A flag value was not valid.
pub const ARES_EBADFLAGS: i32 = 18;

/// The name is not numeric where a numeric one was demanded.
pub const ARES_ENONAME: i32 = 19;

/// The hints were not valid.
pub const ARES_EBADHINTS: i32 = 20;

/// The engine has not been initialised.
pub const ARES_ENOTINITIALIZED: i32 = 21;

/// A platform lookup library could not be loaded.
pub const ARES_ELOADIPHLPAPI: i32 = 22;

/// The platform's network parameters could not be found.
pub const ARES_EADDRGETNETWORKPARAMS: i32 = 23;

/// The request was cancelled.
pub const ARES_ECANCELLED: i32 = 24;

/// The ways in which a request to the engine can fail.
#[allow(non_camel_case_types)]
#[derive(Clone, Copy, Debug, PartialEq, Eq, Structural, Hash)]
pub enum AresError {
    /// The query completed but the answer holds no records of the kind asked for.
    ENODATA,
    /// The server said that the query was malformed.
    EFORMERR,
    /// The server reported a general failure.
    ESERVFAIL,
    /// The name that was asked for does not exist.
    ENOTFOUND,
    /// The server does not implement the operation.
    ENOTIMP,
    /// The server refused the query.
    EREFUSED,
    /// The query could not be built.
    EBADQUERY,
    /// The name could not be encoded as a domain name.
    EBADNAME,
    /// The address family is not supported.
    EBADFAMILY,
    /// The response could not be understood.
    EBADRESP,
    /// No server could be reached.
    ECONNREFUSED,
    /// No server answered in time.
    ETIMEOUT,
    /// The end of a file was reached.
    EOF,
    /// A file could not be read.
    EFILE,
    /// Memory ran out.
    ENOMEM,
    /// The channel is being destroyed.
    EDESTRUCTION,
    /// A string was malformed.
    EBADSTR,
    /// A flag value was not valid.
    EBADFLAGS,
    /// The name is not numeric where a numeric one was demanded.
    ENONAME,
    /// The hints were not valid.
    EBADHINTS,
    /// The engine has not been initialised.
    ENOTINITIALIZED,
    /// A platform lookup library could not be loaded.
    ELOADIPHLPAPI,
    /// The platform's network parameters could not be found.
    EADDRGETNETWORKPARAMS,
    /// The request was cancelled.
    ECANCELLED,
    /// A status that this library has no name for.
    UNKNOWN,
}

impl AresError {
    /// The engine's status code for this error; `UNKNOWN` stands for no one code.
    pub open spec fn spec_code(self) -> Option<i32> {
        match self {
            AresError::ENODATA => Some(ARES_ENODATA),
            AresError::EFORMERR => Some(ARES_EFORMERR),
            AresError::ESERVFAIL => Some(ARES_ESERVFAIL),
            AresError::ENOTFOUND => Some(ARES_ENOTFOUND),
            AresError::ENOTIMP => Some(ARES_ENOTIMP),
            AresError::EREFUSED => Some(ARES_EREFUSED),
            AresError::EBADQUERY => Some(ARES_EBADQUERY),
            AresError::EBADNAME => Some(ARES_EBADNAME),
            AresError::EBADFAMILY => Some(ARES_EBADFAMILY),
            AresError::EBADRESP => Some(ARES_EBADRESP),
            AresError::ECONNREFUSED => Some(ARES_ECONNREFUSED),
            AresError::ETIMEOUT => Some(ARES_ETIMEOUT),
            AresError::EOF => Some(ARES_EOF),
            AresError::EFILE => Some(ARES_EFILE),
            AresError::ENOMEM => Some(ARES_ENOMEM),
            AresError::EDESTRUCTION => Some(ARES_EDESTRUCTION),
            AresError::EBADSTR => Some(ARES_EBADSTR),
            AresError::EBADFLAGS => Some(ARES_EBADFLAGS),
            AresError::ENONAME => Some(ARES_ENONAME),
            AresError::EBADHINTS => Some(ARES_EBADHINTS),
            AresError::ENOTINITIALIZED => Some(ARES_ENOTINITIALIZED),
            AresError::ELOADIPHLPAPI => Some(ARES_ELOADIPHLPAPI),
            AresError::EADDRGETNETWORKPARAMS => Some(ARES_EADDRGETNETWORKPARAMS),
            AresError::ECANCELLED => Some(ARES_ECANCELLED),
            AresError::UNKNOWN => None,
        }
    }

    /// The engine's status code for this error, or `None` for `UNKNOWN`.
    pub fn code(self) -> (code: Option<i32>)
        ensures
            code == self.spec_code(),
            code matches Some(c) ==> is_error_code(c),
            code is None <==> self == AresError::UNKNOWN,
    {
        match self {
            AresError::ENODATA => Some(ARES_ENODATA),
            AresError::EFORMERR => Some(ARES_EFORMERR),
            AresError::ESERVFAIL => Some(ARES_ESERVFAIL),
            AresError::ENOTFOUND => Some(ARES_ENOTFOUND),
            AresError::ENOTIMP => Some(ARES_ENOTIMP),
            AresError::EREFUSED => Some(ARES_EREFUSED),
            AresError::EBADQUERY => Some(ARES_EBADQUERY),
            AresError::EBADNAME => Some(ARES_EBADNAME),
            AresError::EBADFAMILY => Some(ARES_EBADFAMILY),
            AresError::EBADRESP => Some(ARES_EBADRESP),
            AresError::ECONNREFUSED => Some(ARES_ECONNREFUSED),
            AresError::ETIMEOUT => Some(ARES_ETIMEOUT),
            AresError::EOF => Some(ARES_EOF),
            AresError::EFILE => Some(ARES_EFILE),
            AresError::ENOMEM => Some(ARES_ENOMEM),
            AresError::EDESTRUCTION => Some(ARES_EDESTRUCTION),
            AresError::EBADSTR => Some(ARES_EBADSTR),
            AresError::EBADFLAGS => Some(ARES_EBADFLAGS),
            AresError::ENONAME => Some(ARES_ENONAME),
            AresError::EBADHINTS => Some(ARES_EBADHINTS),
            AresError::ENOTINITIALIZED => Some(ARES_ENOTINITIALIZED),
            AresError::ELOADIPHLPAPI => Some(ARES_ELOADIPHLPAPI),
            AresError::EADDRGETNETWORKPARAMS => Some(ARES_EADDRGETNETWORKPARAMS),
            AresError::ECANCELLED => Some(ARES_ECANCELLED),
            AresError::UNKNOWN => None,
        }
    }
}

/// Whether `code` is one of the engine's failure codes that this library names.
pub open spec fn is_error_code(code: i32) -> bool {
    ARES_ENODATA <= code <= ARES_ECANCELLED
}

/// The error that a status code stands for: each failure code stands for the
/// error that carries it, and every other number for `UNKNOWN`.
pub open spec fn spec_ares_error(code: i32) -> AresError {
    if code == ARES_ENODATA {
        AresError::ENODATA
    } else if code == ARES_EFORMERR {
        AresError::EFORMERR
    } else if code == ARES_ESERVFAIL {
        AresError::ESERVFAIL
    } else if code == ARES_ENOTFOUND {
        AresError::ENOTFOUND
    } else if code == ARES_ENOTIMP {
        AresError::ENOTIMP
    } else if code == ARES_EREFUSED {
        AresError::EREFUSED
    } else if code == ARES_EBADQUERY {
        AresError::EBADQUERY
    } else if code == ARES_EBADNAME {
        AresError::EBADNAME
    } else if code == ARES_EBADFAMILY {
        AresError::EBADFAMILY
    } else if code == ARES_EBADRESP {
        AresError::EBADRESP
    } else if code == ARES_ECONNREFUSED {
        AresError::ECONNREFUSED
    } else if code == ARES_ETIMEOUT {
        AresError::ETIMEOUT
    } else if code == ARES_EOF {
        AresError::EOF
    } else if code == ARES_EFILE {
        AresError::EFILE
    } else if code == ARES_ENOMEM {
        AresError::ENOMEM
    } else if code == ARES_EDESTRUCTION {
        AresError::EDESTRUCTION
    } else if code == ARES_EBADSTR {
        AresError::EBADSTR
    } else if code == ARES_EBADFLAGS {
        AresError::EBADFLAGS
    } else if code == ARES_ENONAME {
        AresError::ENONAME
    } else if code == ARES_EBADHINTS {
        AresError::EBADHINTS
    } else if code == ARES_ENOTINITIALIZED {
        AresError::ENOTINITIALIZED
    } else if code == ARES_ELOADIPHLPAPI {
        AresError::ELOADIPHLPAPI
    } else if code == ARES_EADDRGETNETWORKPARAMS {
        AresError::EADDRGETNETWORKPARAMS
    } else if code == ARES_ECANCELLED {
        AresError::ECANCELLED
    } else {
        AresError::UNKNOWN
    }
}

/// The error mapping is the inverse of `spec_code`: a failure code maps to
/// the one error that carries it.
pub proof fn lemma_error_mapping_inverts_code(code: i32)
    requires
        is_error_code(code),
    ensures
        spec_ares_error(code).spec_code() == Some(code),
        forall|e: AresError| e.spec_code() == Some(code) ==> e == spec_ares_error(code),
{
}

/// The error mapping sends two different failure codes to two different
/// errors.
pub proof fn lemma_error_mapping_injective(a: i32, b: i32)
    requires
        is_error_code(a),
        is_error_code(b),
        a != b,
    ensures
        spec_ares_error(a) != spec_ares_error(b),
{
    lemma_error_mapping_inverts_code(a);
    lemma_error_mapping_inverts_code(b);
}

/// A status code maps to `UNKNOWN` exactly when it is none of the failure
/// codes; `ARES_SUCCESS` is such a code.
pub proof fn lemma_error_mapping_unknown(code: i32)
    ensures
        spec_ares_error(code) == AresError::UNKNOWN <==> !is_error_code(code),
        !is_error_code(ARES_SUCCESS),
{
}

/// Mapping the code of a named error gives that error back.
pub proof fn lemma_error_code_round_trip(e: AresError)
    requires
        e != AresError::UNKNOWN,
    ensures
        e.spec_code() matches Some(code) && is_error_code(code) && spec_ares_error(code) == e,
{
}

} // verus!
