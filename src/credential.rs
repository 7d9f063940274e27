use vstd::prelude::*;

use axum::http::{HeaderMap, HeaderValue};

use crate::error::{error_text, StoreError};

verus! {

#[verifier::external_type_specification]
#[verifier::external_body]
#[verifier::reject_recursive_types(T)]
pub struct ExHeaderMap<T>(HeaderMap<T>);

#[verifier::external_type_specification]
#[verifier::external_body]
pub struct ExHeaderValue(HeaderValue);

/// The fields of a header map: each lower-case name with its values, in
/// the order in which they were stored.
pub uninterp spec fn header_fields(m: HeaderMap) -> Map<Seq<char>, Seq<Seq<u8>>>;

/// The bytes of one header value.
pub uninterp spec fn value_bytes(v: HeaderValue) -> Seq<u8>;

/// The name of the `Authorization` field, as a header map keys it.
pub open spec fn authorization_name() -> Seq<char> {
    "authorization"@
}

/// The first `Authorization` value of `m`.
pub open spec fn first_authorization(m: HeaderMap) -> Seq<u8> {
    header_fields(m)[authorization_name()][0]
}

/// A byte that a header value may hold as text: visible ASCII or a tab.
pub open spec fn is_visible_byte(b: u8) -> bool {
    (32 <= b && b < 127) || b == 9
}

pub open spec fn all_visible(b: Seq<u8>) -> bool {
    forall|i: int| 0 <= i < b.len() ==> is_visible_byte(#[trigger] b[i])
}

/// `t` is the text whose characters are the (ASCII) bytes `b`.
pub open spec fn text_of(t: Seq<char>, b: Seq<u8>) -> bool {
    t.len() == b.len() && forall|i: int| 0 <= i < b.len() ==> #[trigger] t[i] as u32 == b[i] as u32
}

/// Relies on http's `HeaderMap::get`: the first value stored under the
/// `Authorization` name, and none when that name holds no value.
#[verifier::external_body]
fn authorization_value(m: &HeaderMap) -> (r: Option<&HeaderValue>)
    ensures
        r is None <==> !header_fields(*m).contains_key(authorization_name()),
        r matches Some(v) ==> header_fields(*m)[authorization_name()].len() > 0 && value_bytes(*v)
            == header_fields(*m)[authorization_name()][0],
{
    m.get(axum::http::header::AUTHORIZATION)
}

/// Relies on http's `HeaderValue::to_str`: it yields text exactly when
/// every byte is visible ASCII or a tab, and the text is those bytes.
#[verifier::external_body]
fn header_text(v: &HeaderValue) -> (r: Option<String>)
    ensures
        r is Some <==> all_visible(value_bytes(*v)),
        r matches Some(s) ==> text_of(s@, value_bytes(*v)),
{
    match v.to_str() {
        Ok(s) => Some(s.to_owned()),
        Err(_) => None,
    }
}

/// The scheme that precedes a bearer token.
pub open spec fn bearer_prefix() -> Seq<char> {
    seq!['B', 'e', 'a', 'r', 'e', 'r', ' ']
}

/// `s` opens with `Bearer `.
pub open spec fn has_bearer_prefix(s: Seq<char>) -> bool {
    s.len() >= 7 && s.subrange(0, 7) == bearer_prefix()
}

/// What reading a credential from an `Authorization` value gives: `None`
/// for an absent header.
pub open spec fn bearer_outcome(value: Option<Seq<char>>, r: Result<Credential, StoreError>) -> bool {
    match value {
        None => r matches Err(e) && e is UnprovidedAuthorization,
        Some(s) => if has_bearer_prefix(s) {
            r matches Ok(c) && c@ == s.subrange(7, s.len() as int)
        } else {
            r matches Err(e) && e is Other && error_text(e) == "unknown authentication method"@
        },
    }
}

/// An opaque bearer token, compared byte for byte against allow-lists.
pub struct Credential {
    token: String,
}

impl View for Credential {
    type V = Seq<char>;

    closed spec fn view(&self) -> Seq<char> {
        self.token@
    }
}

impl Credential {
    /// The token from an `Authorization` value: `None` when the header is
    /// absent, else everything after `Bearer ` (possibly empty).
    pub fn from_authorization(value: Option<&str>) -> (r: Result<Credential, StoreError>)
        ensures
            match value {
                None => bearer_outcome(None, r),
                Some(s) => bearer_outcome(Some(s@), r),
            },
    {
        match value {
            None => Err(StoreError::UnprovidedAuthorization),
            Some(s) => {
                let n = s.unicode_len();
                if n >= 7 && s.get_char(0) == 'B' && s.get_char(1) == 'e' && s.get_char(2) == 'a'
                    && s.get_char(3) == 'r' && s.get_char(4) == 'e' && s.get_char(5) == 'r'
                    && s.get_char(6) == ' ' {
                    assert(s@.subrange(0, 7) =~= bearer_prefix());
                    Ok(Credential { token: s.substring_char(7, n).to_owned() })
                } else {
                    assert(has_bearer_prefix(s@) ==> s@.subrange(0, 7)[0] == 'B' && s@.subrange(0, 7)[1] == 'e'
                        && s@.subrange(0, 7)[2] == 'a' && s@.subrange(0, 7)[3] == 'r' && s@.subrange(0, 7)[4] == 'e'
                        && s@.subrange(0, 7)[5] == 'r' && s@.subrange(0, 7)[6] == ' ');
                    Err(StoreError::Other(String::from_str("unknown authentication method")))
                }
            },
        }
    }

    /// The credential carried by a request's headers. A missing header is
    /// `UnprovidedAuthorization`; a value that is not text, or that names
    /// another scheme, is `Other`.
    pub fn from_headers(m: &HeaderMap) -> (r: Result<Credential, StoreError>)
        ensures
            !header_fields(*m).contains_key(authorization_name()) ==> (r matches Err(e)
                && e is UnprovidedAuthorization),
            header_fields(*m).contains_key(authorization_name()) && !all_visible(first_authorization(*m))
                ==> (r matches Err(e) && e is Other && error_text(e) == "bad header encoding"@),
            header_fields(*m).contains_key(authorization_name()) && all_visible(first_authorization(*m))
                ==> exists|t: Seq<char>| #[trigger] text_of(t, first_authorization(*m)) && bearer_outcome(Some(t), r),
    {
        match authorization_value(m) {
            None => Credential::from_authorization(None),
            Some(v) => match header_text(v) {
                None => Err(StoreError::Other(String::from_str("bad header encoding"))),
                Some(s) => {
                    let r = Credential::from_authorization(Some(s.as_str()));
                    assert(text_of(s@, first_authorization(*m)));
                    r
                },
            },
        }
    }

    pub fn token(&self) -> (r: &str)
        ensures
            r@ == self@,
    {
        self.token.as_str()
    }

    /// The token as an owned string.
    pub fn token_string(&self) -> (r: String)
        ensures
            r@ == self@,
    {
        self.token.clone()
    }
}

} // verus!
