//! The bearer credential obtained once per run. The header value embeds the
//! token type and the secret; the type is sensitive, so its diagnostic form
//! is a fixed placeholder that carries nothing of the secret.

use vstd::prelude::*;
use vstd::string::StringExecFns;

verus! {

/// Opaque bearer credential: the full authorization header value, held for
/// the lifetime of one run and never refreshed.
pub struct AccessToken {
    header_value: String,
}

impl AccessToken {
    /// The authorization header value this token stands for.
    pub closed spec fn spec_header_value(&self) -> Seq<char> {
        self.header_value@
    }

    /// Wraps an already-formatted authorization header value.
    pub fn new(header_value: String) -> (r: AccessToken)
        ensures
            r.spec_header_value() == header_value@,
    {
        AccessToken { header_value }
    }

    /// Composes the header value from the token type and the secret, as the
    /// credential grant reports them: the type, one space, the secret.
    pub fn from_parts(token_type: &str, secret: &str) -> (r: AccessToken)
        ensures
            r.spec_header_value() == token_type@ + " "@ + secret@,
    {
        let mut value = String::from_str(token_type);
        value.append(" ");
        value.append(secret);
        AccessToken { header_value: value }
    }

    /// The header value, for the transport layer alone.
    pub fn header_value(&self) -> (r: &String)
        ensures
            r@ == self.spec_header_value(),
    {
        &self.header_value
    }

    /// The only form of the token fit for diagnostics: a placeholder that
    /// reveals nothing of the secret, whatever the token holds.
    pub fn redacted(&self) -> (r: String)
        ensures
            r@ == "<redacted>"@,
    {
        String::from_str("<redacted>")
    }
}

} // verus!
