use vstd::prelude::*;
use vstd::string::*;

verus! {

/// Whether a character may stand in an ASCII metadata value: a tab, or any
/// character but the control characters below space and DEL. Characters past
/// ASCII are encoded as bytes of 128 and above, which are accepted as well.
pub open spec fn header_char_ok(c: char) -> bool {
    c == '\t' || (c as u32 >= 32 && c as u32 != 127)
}

pub open spec fn header_text_ok(s: Seq<char>) -> bool {
    forall|i: int| 0 <= i < s.len() ==> header_char_ok(#[trigger] s[i])
}

/// The authorization value sent for a token.
pub open spec fn bearer_value(token: Seq<char>) -> Seq<char> {
    "Bearer "@ + token
}

/// The authorization value for an optional token: none for an absent or empty
/// token, and none either when the value cannot be encoded as metadata.
pub open spec fn authorization_for(token: Option<Seq<char>>) -> Option<Seq<char>> {
    match token {
        Some(t) => if t.len() > 0 && header_text_ok(bearer_value(t)) {
            Some(bearer_value(t))
        } else {
            None
        },
        None => None,
    }
}

/// Relies on tonic's `TryFrom<&str> for MetadataValue<Ascii>`, which goes
/// through http's `HeaderValue::from_str`: it succeeds exactly when every byte
/// is a tab or at least 32 and not 127.
#[verifier::external_body]
fn accepted_as_metadata_value(text: &str) -> (r: bool)
    ensures
        r == header_text_ok(text@),
{
    tonic::metadata::AsciiMetadataValue::try_from(text).is_ok()
}

/// Per-call hook state: the `authorization` value stamped on each request, if any.
/// It is fixed when the hook is made, so every call sends the same header.
#[derive(Debug)]
pub struct Interceptor {
    authorization: Option<String>,
}

impl View for Interceptor {
    type V = Option<Seq<char>>;

    closed spec fn view(&self) -> Option<Seq<char>> {
        match self.authorization {
            Some(s) => Some(s@),
            None => None,
        }
    }
}

pub open spec fn token_view(token: Option<String>) -> Option<Seq<char>> {
    match token {
        Some(s) => Some(s@),
        None => None,
    }
}

impl Clone for Interceptor {
    fn clone(&self) -> (r: Interceptor)
        ensures
            r@ == self@,
    {
        Interceptor { authorization: self.authorization() }
    }
}

impl Default for Interceptor {
    /// A hook that leaves requests unchanged.
    fn default() -> (r: Interceptor)
        ensures
            r@ == None::<Seq<char>>,
    {
        Interceptor { authorization: None }
    }
}

impl Interceptor {
    /// Makes the hook for an optional access token.
    pub fn new(access_token: Option<String>) -> (r: Interceptor)
        ensures
            r@ == authorization_for(token_view(access_token)),
    {
        let authorization = match access_token {
            Some(token) => {
                if token.as_str().unicode_len() == 0 {
                    None
                } else {
                    let value = String::from_str("Bearer ").concat(token.as_str());
                    if accepted_as_metadata_value(value.as_str()) {
                        Some(value)
                    } else {
                        None
                    }
                }
            },
            None => None,
        };
        Interceptor { authorization }
    }

    /// The value to insert under the `authorization` key of each outgoing
    /// request, replacing any value there; `None` leaves requests unchanged.
    pub fn authorization(&self) -> (r: Option<String>)
        ensures
            token_view(r) == self@,
    {
        match &self.authorization {
            Some(s) => Some(s.clone()),
            None => None,
        }
    }
}

} // verus!
