use vstd::prelude::*;

use crate::text::str_eq;

verus! {

/// API-level error code returned by the vendor (`errorCode`).
#[derive(Debug, Clone, PartialEq, Eq)]
pub enum ApiErrorCode {
    /// Error code `1`: request method is not POST.
    MethodNotPost,
    /// Error code `2`: one-time secret key was already used.
    SecretKeyAlreadyUsed,
    /// Error code `3`: requested scope does not exist.
    ScopeNotFound,
    /// Error code `4`: maximum number of sessions has been reached.
    MaxSessionsReached,
    /// Error code `5`: request is missing required parameters.
    MissingParameters,
    /// Error code `6`: request must use SSL.
    MissingSsl,
    /// Error code `10`: username is invalid.
    InvalidUsername,
    /// Error code `11`: password/secret key is missing.
    MissingPassword,
    /// Error code `12`: portal account is disabled.
    PortalAccountDisabled,
    /// Error code `15`: API account is disabled.
    ApiAccountDisabled,
    /// Error code `100`: no LPN data is available.
    NoLpnData,
    /// Error code `110`: no installations are available.
    NoInstallations,
    /// Error code `210`: token is corrupted.
    TokenCorrupted,
    /// Error code `220`: token is invalid or expired.
    TokenInvalid,
    /// Unknown code preserved as returned by the API.
    Unknown(String),
}

/// The raw code string a typed error code stands for.
pub open spec fn spec_code_str(c: ApiErrorCode) -> Seq<char> {
    match c {
        ApiErrorCode::MethodNotPost => "1"@,
        ApiErrorCode::SecretKeyAlreadyUsed => "2"@,
        ApiErrorCode::ScopeNotFound => "3"@,
        ApiErrorCode::MaxSessionsReached => "4"@,
        ApiErrorCode::MissingParameters => "5"@,
        ApiErrorCode::MissingSsl => "6"@,
        ApiErrorCode::InvalidUsername => "10"@,
        ApiErrorCode::MissingPassword => "11"@,
        ApiErrorCode::PortalAccountDisabled => "12"@,
        ApiErrorCode::ApiAccountDisabled => "15"@,
        ApiErrorCode::NoLpnData => "100"@,
        ApiErrorCode::NoInstallations => "110"@,
        ApiErrorCode::TokenCorrupted => "210"@,
        ApiErrorCode::TokenInvalid => "220"@,
        ApiErrorCode::Unknown(code) => code@,
    }
}

/// True when `s` is one of the raw codes with a dedicated variant.
pub open spec fn is_known_code(s: Seq<char>) -> bool {
    ||| s == "1"@
    ||| s == "2"@
    ||| s == "3"@
    ||| s == "4"@
    ||| s == "5"@
    ||| s == "6"@
    ||| s == "10"@
    ||| s == "11"@
    ||| s == "12"@
    ||| s == "15"@
    ||| s == "100"@
    ||| s == "110"@
    ||| s == "210"@
    ||| s == "220"@
}

/// The typed code that the raw string `s` maps to: the dedicated variant
/// for a known code, and `Unknown` carrying `s` itself otherwise.
pub open spec fn code_maps_to(s: Seq<char>, c: ApiErrorCode) -> bool {
    if is_known_code(s) {
        spec_code_str(c) == s && !(c is Unknown)
    } else {
        c matches ApiErrorCode::Unknown(raw) && raw@ == s
    }
}

/// True when the raw code is one of the two token-rejection codes:
/// `210` (token corrupted) and `220` (token invalid or expired).
pub open spec fn is_token_code(raw: Seq<char>) -> bool {
    raw == "210"@ || raw == "220"@
}

/// Exactly the two token codes map to token-rejection variants: a
/// mapped code is `TokenCorrupted` or `TokenInvalid` if and only if the
/// raw code was `210` or `220`.
pub(crate) proof fn lemma_token_code(raw: Seq<char>, c: ApiErrorCode)
    requires
        code_maps_to(raw, c),
    ensures
        (c is TokenCorrupted || c is TokenInvalid) == is_token_code(raw),
{
    reveal_strlit("1");
    reveal_strlit("2");
    reveal_strlit("3");
    reveal_strlit("4");
    reveal_strlit("5");
    reveal_strlit("6");
    reveal_strlit("10");
    reveal_strlit("11");
    reveal_strlit("12");
    reveal_strlit("15");
    reveal_strlit("100");
    reveal_strlit("110");
    reveal_strlit("210");
    reveal_strlit("220");
    assert("1"@.len() == 1);
    assert("2"@.len() == 1);
    assert("3"@.len() == 1);
    assert("4"@.len() == 1);
    assert("5"@.len() == 1);
    assert("6"@.len() == 1);
    assert("10"@.len() == 2);
    assert("11"@.len() == 2);
    assert("12"@.len() == 2);
    assert("15"@.len() == 2);
    assert("100"@.len() == 3);
    assert("110"@.len() == 3);
    assert("210"@.len() == 3);
    assert("220"@.len() == 3);
    assert("100"@[0] == '1');
    assert("110"@[0] == '1');
    assert("210"@[0] == '2');
    assert("220"@[0] == '2');
    assert("210"@[1] == '1');
    assert("220"@[1] == '2');
}

impl ApiErrorCode {
    /// Map a raw API error code string into a typed [`ApiErrorCode`].
    ///
    /// Unrecognized values are preserved in [`ApiErrorCode::Unknown`].
    pub fn from_api_code(code: &str) -> (r: Self)
        ensures
            code_maps_to(code@, r),
    {
        if str_eq(code, "1") {
            Self::MethodNotPost
        } else if str_eq(code, "2") {
            Self::SecretKeyAlreadyUsed
        } else if str_eq(code, "3") {
            Self::ScopeNotFound
        } else if str_eq(code, "4") {
            Self::MaxSessionsReached
        } else if str_eq(code, "5") {
            Self::MissingParameters
        } else if str_eq(code, "6") {
            Self::MissingSsl
        } else if str_eq(code, "10") {
            Self::InvalidUsername
        } else if str_eq(code, "11") {
            Self::MissingPassword
        } else if str_eq(code, "12") {
            Self::PortalAccountDisabled
        } else if str_eq(code, "15") {
            Self::ApiAccountDisabled
        } else if str_eq(code, "100") {
            Self::NoLpnData
        } else if str_eq(code, "110") {
            Self::NoInstallations
        } else if str_eq(code, "210") {
            Self::TokenCorrupted
        } else if str_eq(code, "220") {
            Self::TokenInvalid
        } else {
            Self::Unknown(code.to_owned())
        }
    }

    /// Return `true` if this code indicates token corruption or invalidity.
    pub fn is_token_error(&self) -> (r: bool)
        ensures
            r == (*self is TokenCorrupted || *self is TokenInvalid),
    {
        matches!(self, Self::TokenCorrupted | Self::TokenInvalid)
    }

    /// Return the raw API code string.
    pub fn as_str(&self) -> (r: &str)
        ensures
            r@ == spec_code_str(*self),
    {
        match self {
            Self::MethodNotPost => "1",
            Self::SecretKeyAlreadyUsed => "2",
            Self::ScopeNotFound => "3",
            Self::MaxSessionsReached => "4",
            Self::MissingParameters => "5",
            Self::MissingSsl => "6",
            Self::InvalidUsername => "10",
            Self::MissingPassword => "11",
            Self::PortalAccountDisabled => "12",
            Self::ApiAccountDisabled => "15",
            Self::NoLpnData => "100",
            Self::NoInstallations => "110",
            Self::TokenCorrupted => "210",
            Self::TokenInvalid => "220",
            Self::Unknown(code) => code.as_str(),
        }
    }
}

} // verus!
