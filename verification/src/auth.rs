//! The bearer credential that every outgoing call carries.

use crate::error::ConfigError;
use tonic::metadata::errors::InvalidMetadataValue;
use tonic::metadata::{Ascii, MetadataValue};
use vstd::prelude::*;

verus! {

/// `tonic::metadata::errors::InvalidMetadataValue`, the error of a text that
/// is no metadata value.
#[verifier::external_type_specification]
#[verifier::external_body]
pub struct ExInvalidMetadataValue(InvalidMetadataValue);

/// The name of the metadata entry that carries the credential.
pub const AUTHORIZATION: &'static str = "authorization";

/// Whether a character may stand in the value of a header: the tab, or any
/// character from the space upwards but the delete character.
pub open spec fn header_char(c: char) -> bool {
    c == '\t' || (c as u32 >= 32 && c as u32 != 127)
}

/// Whether every character of a text may stand in the value of a header.
pub open spec fn header_text(text: Seq<char>) -> bool {
    forall|i: int| 0 <= i < text.len() ==> header_char(#[trigger] text[i])
}

/// The value of the authorization header for a token: the word `Bearer`, a
/// space and the token.
pub open spec fn bearer(token: Seq<char>) -> Seq<char> {
    "Bearer "@ + token
}

/// Asks tonic whether a text is an ASCII metadata value.
///
/// Calls the `FromStr` impl of `tonic::metadata::MetadataValue<Ascii>`, which
/// hands the text to `http::HeaderValue::from_str`, and drops the parsed
/// value. Trusted: the call succeeds exactly when every byte of the text is a
/// tab or is at least 32 and not 127; the bytes of a character beyond ASCII
/// are all above 127, so this is `header_text` of the characters.
#[verifier::external_body]
fn check_metadata_value(text: &str) -> (checked: Result<(), InvalidMetadataValue>)
    ensures
        checked is Ok <==> header_text(text@),
{
    match text.parse::<MetadataValue<Ascii>>() {
        Ok(_) => Ok(()),
        Err(refused) => Err(refused),
    }
}

/// A token with the bearer prefix is a header text exactly when the token is.
pub proof fn lemma_bearer_header_text(token: Seq<char>)
    ensures
        header_text(bearer(token)) <==> header_text(token),
{
    reveal_strlit("Bearer ");
    let prefix = "Bearer "@;
    let whole = bearer(token);
    if header_text(token) {
        assert forall|i: int| 0 <= i < whole.len() implies header_char(#[trigger] whole[i]) by {
            if i >= prefix.len() {
                assert(whole[i] == token[i - prefix.len()]);
            }
        }
    }
    if header_text(whole) {
        assert forall|i: int| 0 <= i < token.len() implies header_char(#[trigger] token[i]) by {
            assert(token[i] == whole[i + prefix.len()]);
        }
    }
}

/// A token that holds a control character other than the tab, or the delete
/// character, is no header text, and so is refused as a credential.
pub proof fn lemma_control_character_refused(token: Seq<char>, at: int)
    requires
        0 <= at < token.len(),
        token[at] != '\t',
        (token[at] as u32) < 32 || token[at] as u32 == 127,
    ensures
        !header_text(token),
        !header_text(bearer(token)),
{
    assert(!header_char(token[at]));
    lemma_bearer_header_text(token);
}

/// Holds the formatted bearer value that is set as the `authorization`
/// metadata entry of every outgoing call.
#[derive(Debug)]
pub struct AuthHeaderInterceptor {
    auth_header: String,
}

impl Clone for AuthHeaderInterceptor {
    fn clone(&self) -> (copy: AuthHeaderInterceptor)
        ensures
            copy.header_model() == self.header_model(),
    {
        proof {
            use_type_invariant(self);
        }
        AuthHeaderInterceptor { auth_header: self.auth_header.clone() }
    }
}

impl AuthHeaderInterceptor {
    /// What is kept is always a legal header value.
    #[verifier::type_invariant]
    spec fn well_formed(self) -> bool {
        header_text(self.auth_header@)
    }

    /// The value that is set as the authorization entry.
    pub closed spec fn header_model(self) -> Seq<char> {
        self.auth_header@
    }

    /// Formats a token as `Bearer <token>` and checks that the result is a
    /// legal header value.
    pub fn bearer(token: &str) -> (made: Result<AuthHeaderInterceptor, ConfigError>)
        ensures
            header_text(token@) ==> made is Ok && made->Ok_0.header_model() == bearer(token@),
            !header_text(token@) ==> made == Err::<AuthHeaderInterceptor, ConfigError>(
                ConfigError::MalformedToken,
            ),
    {
        let auth_header = String::from_str("Bearer ").concat(token);
        proof {
            lemma_bearer_header_text(token@);
        }
        match check_metadata_value(auth_header.as_str()) {
            Ok(()) => Ok(AuthHeaderInterceptor { auth_header }),
            Err(_) => Err(ConfigError::MalformedToken),
        }
    }

    /// The value to set as the authorization entry, overwriting any earlier
    /// one.
    pub fn header(&self) -> (value: &str)
        ensures
            value@ == self.header_model(),
            header_text(value@),
    {
        proof {
            use_type_invariant(self);
        }
        self.auth_header.as_str()
    }
}

} // verus!
