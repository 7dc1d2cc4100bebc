//! Decoding of the locally stored session token: a token is three dot-separated
//! segments, the middle one an URL-safe, unpadded base64 encoding of a JSON
//! object whose `sub` field names the user. When `sub` carries a `|` delimiter
//! the identity is everything after the first delimiter; otherwise it is `sub`
//! itself. This module also fixes where the credential store lives on each
//! platform; actually reading it is the unverified shell's job.

use vstd::prelude::*;

use crate::text::{find_char, first_index_of};

verus! {

/// The middle segment of a token with exactly three dot-separated segments,
/// and nothing for a token of any other shape.
pub open spec fn jwt_payload(s: Seq<char>) -> Option<Seq<char>> {
    match first_index_of(s, '.') {
        None => None,
        Some(i) => {
            let rest = s.subrange(i + 1, s.len() as int);
            match first_index_of(rest, '.') {
                None => None,
                Some(j) => {
                    let tail = s.subrange(i + 1 + j + 1, s.len() as int);
                    if first_index_of(tail, '.') is Some {
                        None
                    } else {
                        Some(s.subrange(i + 1, i + 1 + j))
                    }
                },
            }
        },
    }
}

/// How many times `c` occurs in `s`.
pub open spec fn count_char(s: Seq<char>, c: char) -> nat
    decreases s.len(),
{
    if s.len() == 0 {
        0
    } else {
        count_char(s.drop_first(), c) + if s[0] == c {
            1nat
        } else {
            0nat
        }
    }
}

/// Occurrences of `c` split at the first one: none at all, or one plus those
/// past it.
pub proof fn lemma_count_after_first(s: Seq<char>, c: char)
    ensures
        match first_index_of(s, c) {
            None => count_char(s, c) == 0,
            Some(i) => count_char(s, c) == 1 + count_char(s.subrange(i + 1, s.len() as int), c),
        },
    decreases s.len(),
{
    if s.len() == 0 {
    } else if s[0] == c {
        assert(s.subrange(1, s.len() as int) =~= s.drop_first());
    } else {
        lemma_count_after_first(s.drop_first(), c);
        crate::text::lemma_first_index_properties(s.drop_first(), c);
        match first_index_of(s.drop_first(), c) {
            None => {},
            Some(j) => {
                assert(s.subrange(j + 2, s.len() as int) =~= s.drop_first().subrange(
                    j + 1,
                    s.len() - 1,
                ));
            },
        }
    }
}

/// A token carries a payload segment exactly when it holds exactly two dots,
/// that is, exactly three dot-separated segments.
pub proof fn lemma_jwt_payload_iff_two_dots(s: Seq<char>)
    ensures
        jwt_payload(s) is Some <==> count_char(s, '.') == 2,
{
    lemma_count_after_first(s, '.');
    crate::text::lemma_first_index_properties(s, '.');
    match first_index_of(s, '.') {
        None => {},
        Some(i) => {
            let rest = s.subrange(i + 1, s.len() as int);
            lemma_count_after_first(rest, '.');
            crate::text::lemma_first_index_properties(rest, '.');
            match first_index_of(rest, '.') {
                None => {},
                Some(j) => {
                    let tail = rest.subrange(j + 1, rest.len() as int);
                    assert(s.subrange(i + 1 + j + 1, s.len() as int) =~= tail);
                    lemma_count_after_first(tail, '.');
                },
            }
        },
    }
}

/// The identity a `sub` claim yields: everything after the first `|` delimiter
/// when one is present, the whole claim otherwise.
pub open spec fn identity_of_sub(sub: Seq<char>) -> Seq<char> {
    match first_index_of(sub, '|') {
        None => sub,
        Some(i) => sub.subrange(i + 1, sub.len() as int),
    }
}

/// What the URL-safe, unpadded base64 decoding of a character sequence yields:
/// the decoded bytes, or nothing when the input is not valid base64.
pub uninterp spec fn b64_url_decode_of(s: Seq<char>) -> Option<Seq<u8>>;

/// Relies on base64's `URL_SAFE_NO_PAD` engine: `Engine::decode` computes its
/// result from the input characters alone, succeeding exactly on valid
/// URL-safe, unpadded base64.
#[verifier::external_body]
fn b64_url_decode(s: &str) -> (r: Option<Vec<u8>>)
    ensures
        r.deep_view() == b64_url_decode_of(s@),
{
    base64::Engine::decode(&base64::engine::general_purpose::URL_SAFE_NO_PAD, s).ok()
}

/// What parsing a byte sequence as JSON and reading the object's `sub` field
/// yields: the field's string value, or nothing when the bytes are not a JSON
/// object carrying a string `sub`.
pub uninterp spec fn json_sub_of(b: Seq<u8>) -> Option<Seq<char>>;

/// Relies on serde_json's `from_slice`: parsing is a function of the bytes
/// alone. The wrapper hands back the string value of the top-level `sub` field.
#[verifier::external_body]
fn parse_json_sub(bytes: &[u8]) -> (r: Option<String>)
    ensures
        r.deep_view() == json_sub_of(bytes@),
{
    match serde_json::from_slice::<serde_json::Value>(bytes) {
        Ok(serde_json::Value::Object(m)) => match m.get("sub") {
            Some(serde_json::Value::String(s)) => Some(s.clone()),
            _ => None,
        },
        _ => None,
    }
}

/// The identity a raw token yields: its middle segment decoded as base64, the
/// bytes parsed as JSON, and the `sub` claim split on its first `|`. Nothing
/// when any of the three steps fails.
pub open spec fn token_identity(s: Seq<char>) -> Option<Seq<char>> {
    match jwt_payload(s) {
        None => None,
        Some(p) => match b64_url_decode_of(p) {
            None => None,
            Some(bytes) => match json_sub_of(bytes) {
                None => None,
                Some(sub) => Some(identity_of_sub(sub)),
            },
        },
    }
}

/// The middle of the token's three dot-separated segments, or `None` when the
/// token does not have exactly two dots.
pub fn payload_segment<'a>(token: &'a str) -> (r: Option<&'a str>)
    ensures
        match r {
            None => jwt_payload(token@) is None,
            Some(p) => jwt_payload(token@) == Some(p@),
        },
{
    let n = token.unicode_len();
    let p1 = match find_char(token, '.') {
        Some(i) => i,
        None => {
            return None;
        },
    };
    let rest = token.substring_char(p1 + 1, n);
    let j = match find_char(rest, '.') {
        Some(j) => j,
        None => {
            return None;
        },
    };
    let p2 = p1 + 1 + j;
    let tail = token.substring_char(p2 + 1, n);
    match find_char(tail, '.') {
        Some(_) => None,
        None => Some(token.substring_char(p1 + 1, p2)),
    }
}

/// Splits a `sub` claim on its first `|`, keeping what follows; a claim without
/// a delimiter is the identity itself.
pub fn derive_identity(sub: &str) -> (r: String)
    ensures
        r@ == identity_of_sub(sub@),
{
    let n = sub.unicode_len();
    match find_char(sub, '|') {
        None => String::from_str(sub),
        Some(i) => String::from_str(sub.substring_char(i + 1, n)),
    }
}

/// Decodes a raw token into the user identity it names, or `None` when the
/// token's shape, its base64 payload or the JSON inside is malformed.
pub fn decode_identity(token: &str) -> (r: Option<String>)
    ensures
        r is Some <==> token_identity(token@) is Some,
        r matches Some(id) ==> token_identity(token@) == Some(id@),
{
    let payload = match payload_segment(token) {
        Some(p) => p,
        None => {
            return None;
        },
    };
    let bytes = match b64_url_decode(payload) {
        Some(b) => b,
        None => {
            return None;
        },
    };
    proof {
        assert(bytes.deep_view() =~= bytes@);
    }
    let sub = match parse_json_sub(bytes.as_slice()) {
        Some(s) => s,
        None => {
            return None;
        },
    };
    Some(derive_identity(sub.as_str()))
}

/// Which platform the credential store path is resolved for.
#[derive(Clone, Copy, Debug, PartialEq, Eq, Structural)]
pub enum Platform {
    Windows,
    MacOs,
    Linux,
}

/// The well-known directory under which the store's relative path begins.
#[derive(Clone, Copy, Debug, PartialEq, Eq, Structural)]
pub enum BaseDir {
    LocalData,
    Home,
}

/// Locates the credential store: a single-file relational database holding a
/// key/value table with the stored access token. The unverified shell resolves
/// the base directory, joins the components, and reads the file.
pub struct TokenExtractor;

impl TokenExtractor {
    /// The base directory the store path starts from on each platform.
    pub fn db_base_dir(platform: Platform) -> (r: BaseDir)
        ensures
            platform == Platform::Windows ==> r == BaseDir::LocalData,
            platform != Platform::Windows ==> r == BaseDir::Home,
    {
        match platform {
            Platform::Windows => BaseDir::LocalData,
            Platform::MacOs => BaseDir::Home,
            Platform::Linux => BaseDir::Home,
        }
    }

    /// The store's path components below the base directory, per platform.
    pub fn db_path_components(platform: Platform) -> (r: Vec<&'static str>)
        ensures
            platform == Platform::Windows ==> r@.len() == 4
                && r@[0]@ == "Cursor"@
                && r@[1]@ == "User"@
                && r@[2]@ == "globalStorage"@
                && r@[3]@ == "state.vscdb"@,
            platform == Platform::MacOs ==> r@.len() == 6
                && r@[0]@ == "Library"@
                && r@[1]@ == "Application Support"@
                && r@[2]@ == "Cursor"@
                && r@[3]@ == "User"@
                && r@[4]@ == "globalStorage"@
                && r@[5]@ == "state.vscdb"@,
            platform == Platform::Linux ==> r@.len() == 4
                && r@[0]@ == ".cursor"@
                && r@[1]@ == "User"@
                && r@[2]@ == "globalStorage"@
                && r@[3]@ == "state.vscdb"@,
    {
        let mut v: Vec<&'static str> = Vec::new();
        match platform {
            Platform::Windows => {
                v.push("Cursor");
            },
            Platform::MacOs => {
                v.push("Library");
                v.push("Application Support");
                v.push("Cursor");
            },
            Platform::Linux => {
                v.push(".cursor");
            },
        }
        v.push("User");
        v.push("globalStorage");
        v.push("state.vscdb");
        v
    }

    /// The key whose row in the store's key/value table holds the raw token.
    pub fn token_key() -> (r: &'static str)
        ensures
            r@ == "cursorAuth/accessToken"@,
    {
        "cursorAuth/accessToken"
    }
}

} // verus!
