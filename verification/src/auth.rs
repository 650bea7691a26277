//! The credential header builder: the Basic-Authentication header value
//! for a username and an optional password, with the base64 encoding
//! stated byte for byte.  The value carries credentials, so the transport
//! layer that installs it must mark the header sensitive before use.

use vstd::prelude::*;
use vstd::string::*;

verus! {

/// The standard base64 alphabet, by sextet value.
pub open spec fn b64_char(i: int) -> char {
    seq![
        'A', 'B', 'C', 'D', 'E', 'F', 'G', 'H', 'I', 'J', 'K', 'L', 'M',
        'N', 'O', 'P', 'Q', 'R', 'S', 'T', 'U', 'V', 'W', 'X', 'Y', 'Z',
        'a', 'b', 'c', 'd', 'e', 'f', 'g', 'h', 'i', 'j', 'k', 'l', 'm',
        'n', 'o', 'p', 'q', 'r', 's', 't', 'u', 'v', 'w', 'x', 'y', 'z',
        '0', '1', '2', '3', '4', '5', '6', '7', '8', '9', '+', '/',
    ][i]
}

/// Standard base64 with `=` padding: each group of three bytes becomes
/// four alphabet characters; a trailing group of one or two bytes is
/// padded out with `=`.
pub open spec fn base64_of(b: Seq<u8>) -> Seq<char>
    decreases b.len(),
{
    if b.len() == 0 {
        Seq::empty()
    } else if b.len() == 1 {
        seq![
            b64_char(b[0] as int / 4),
            b64_char((b[0] as int % 4) * 16),
            '=',
            '=',
        ]
    } else if b.len() == 2 {
        seq![
            b64_char(b[0] as int / 4),
            b64_char((b[0] as int % 4) * 16 + b[1] as int / 16),
            b64_char((b[1] as int % 16) * 4),
            '=',
        ]
    } else {
        seq![
            b64_char(b[0] as int / 4),
            b64_char((b[0] as int % 4) * 16 + b[1] as int / 16),
            b64_char((b[1] as int % 16) * 4 + b[2] as int / 64),
            b64_char(b[2] as int % 64),
        ] + base64_of(b.skip(3))
    }
}

/// Relies on base64's `BASE64_STANDARD` engine: standard-alphabet base64
/// of the input bytes, with `=` padding.
#[verifier::external_body]
fn b64_encode(bytes: &Vec<u8>) -> (r: String)
    ensures
        r@ == base64_of(bytes@),
{
    base64::Engine::encode(&base64::prelude::BASE64_STANDARD, bytes)
}

/// The Basic-Authentication header value for the given credentials: the
/// word `Basic`, a space, and the base64 form of the UTF-8 bytes of
/// `username:password` (of `username:` when no password is given).
pub open spec fn basic_auth_value(username: Seq<char>, password: Option<Seq<char>>) -> Seq<char> {
    "Basic "@ + base64_of(vstd::utf8::encode_utf8(
        username + ":"@ + match password {
            Some(p) => p,
            None => Seq::empty(),
        },
    ))
}

/// Builds the Basic-Authentication header value from a username and an
/// optional password.  Encoding cannot fail, so there is no error path.
/// The caller that installs the header must flag it sensitive so the
/// credentials are never logged.
pub fn basic_auth(username: &str, password: Option<&str>) -> (r: String)
    ensures
        r@ == basic_auth_value(username@, match password {
            Some(p) => Some(p@),
            None => None,
        }),
{
    let mut creds = String::from_str(username);
    creds.append(":");
    match password {
        Some(p) => {
            creds.append(p);
            proof {
                assert(creds@ =~= username@ + ":"@ + p@);
            }
        },
        None => {
            proof {
                assert(creds@ =~= username@ + ":"@ + Seq::<char>::empty());
            }
        },
    }
    let bytes = creds.as_str().as_bytes_vec();
    let encoded = b64_encode(&bytes);
    let mut out = String::from_str("Basic ");
    out.append(encoded.as_str());
    out
}

} // verus!
