use crate::secret::SecretString;
use base64::Engine;
use vstd::prelude::*;
use vstd::utf8::*;

verus! {

broadcast use vstd::utf8::group_utf8_lib;

/// A username and password taken from one authentication attempt.
pub struct Credentials {
    pub username: String,
    pub password: SecretString,
}

impl View for Credentials {
    type V = (Seq<char>, Seq<char>);

    open spec fn view(&self) -> (Seq<char>, Seq<char>) {
        (self.username@, self.password@)
    }
}

/// Why an `Authorization` header could not be read as Basic credentials.
#[derive(Debug, Clone, Copy, PartialEq, Eq)]
pub enum HeaderError {
    /// No `Authorization` header was sent.
    Missing,
    /// The header value holds bytes that are not visible ASCII text.
    NotText,
    /// The value does not start with `Basic `.
    UnsupportedScheme,
    /// The part after `Basic ` is not padded standard Base64 of UTF-8 text.
    BadEncoding,
    /// The decoded text has no `:` between username and password.
    MissingUsername,
}

/// A failure of the system itself rather than of the supplied credentials.
#[derive(Debug, PartialEq, Eq)]
pub enum Infrastructure {
    /// The credential store could not be queried; the store's own message.
    StoreQuery(String),
    /// The hash to compare against is not a PHC string.
    UnparsableHash,
    /// The worker that runs the hash verification did not finish.
    WorkerFailed,
}

/// The outcome classes of an authentication attempt that did not succeed.
#[derive(Debug, PartialEq, Eq)]
pub enum AuthError {
    /// The request carried no usable Basic credentials.
    MalformedHeader(HeaderError),
    /// Unknown username or wrong password; the two are not told apart.
    InvalidCredentials,
    /// Something on the server side failed.
    UnexpectedError(Infrastructure),
}

pub const COLON: u8 = 58;

/// Standard padded Base64 decoding of `s`, `None` where `s` is not such text.
pub uninterp spec fn base64_decoded(s: Seq<u8>) -> Option<Seq<u8>>;

/// Standard padded Base64 encoding of `b`.
pub uninterp spec fn base64_encoded(b: Seq<u8>) -> Seq<u8>;

/// Relies on base64's `STANDARD` engine `decode`: the decoded bytes, or an
/// error where the input is not padded standard Base64.
#[verifier::external_body]
fn decode_base64(s: &[u8]) -> (r: Option<Vec<u8>>)
    ensures
        match r {
            Some(v) => base64_decoded(s@) == Some(v@),
            None => base64_decoded(s@) is None,
        },
{
    base64::engine::general_purpose::STANDARD.decode(s).ok()
}

/// Relies on base64's `STANDARD` engine `encode`: padded standard Base64 of
/// `b`, which that engine's `decode` turns back into `b`.
#[verifier::external_body]
fn encode_base64(b: &[u8]) -> (r: Vec<u8>)
    ensures
        r@ == base64_encoded(b@),
        base64_decoded(r@) == Some(b@),
        forall|i: int| 0 <= i < r@.len() ==> is_base64_symbol(#[trigger] r@[i]),
{
    base64::engine::general_purpose::STANDARD.encode(b).into_bytes()
}

/// Relies on `std::str::from_utf8`: it succeeds exactly on valid UTF-8, and
/// then holds the characters that the bytes encode.
#[verifier::external_body]
fn utf8_text(b: &[u8]) -> (r: Option<String>)
    ensures
        match r {
            Some(s) => valid_utf8(b@) && s@ == decode_utf8(b@),
            None => !valid_utf8(b@),
        },
{
    std::str::from_utf8(b).ok().map(|s| s.to_owned())
}

/// A byte of the standard Base64 alphabet, or its padding `=`.
pub open spec fn is_base64_symbol(b: u8) -> bool {
    (65 <= b && b <= 90) || (97 <= b && b <= 122) || (48 <= b && b <= 57) || b == 43 || b == 47
        || b == 61
}

/// A byte that may stand in a header value read as text: tab or visible ASCII.
pub open spec fn is_header_text_byte(b: u8) -> bool {
    b == 9 || (32 <= b && b < 127)
}

pub open spec fn is_header_text(v: Seq<u8>) -> bool {
    forall|i: int| 0 <= i < v.len() ==> is_header_text_byte(#[trigger] v[i])
}

/// The bytes of `Basic `.
pub open spec fn basic_prefix() -> Seq<u8> {
    seq![66u8, 97u8, 115u8, 105u8, 99u8, 32u8]
}

pub open spec fn has_basic_prefix(v: Seq<u8>) -> bool {
    v.len() >= 6 && v.subrange(0, 6) == basic_prefix()
}

pub open spec fn has_colon(d: Seq<u8>) -> bool {
    exists|i: int| 0 <= i < d.len() && d[i] == COLON
}

pub open spec fn is_first_colon(d: Seq<u8>, i: int) -> bool {
    &&& 0 <= i < d.len()
    &&& d[i] == COLON
    &&& forall|j: int| 0 <= j < i ==> d[j] != COLON
}

/// Position of the first `:` in `d`.
pub open spec fn first_colon(d: Seq<u8>) -> int
    recommends
        has_colon(d),
{
    choose|i: int| is_first_colon(d, i)
}

/// What a decoded Basic payload yields: the text before the first `:` and the
/// text after it.
pub open spec fn split_payload(d: Seq<u8>) -> Result<(Seq<char>, Seq<char>), HeaderError> {
    if !valid_utf8(d) {
        Err(HeaderError::BadEncoding)
    } else if !has_colon(d) {
        Err(HeaderError::MissingUsername)
    } else {
        let i = first_colon(d);
        Ok((decode_utf8(d.subrange(0, i)), decode_utf8(d.subrange(i + 1, d.len() as int))))
    }
}

/// What the value of an `Authorization` header (or its absence) yields:
/// the username and password, or the first rule that the value breaks.
pub open spec fn decode_header(header: Option<Seq<u8>>) -> Result<
    (Seq<char>, Seq<char>),
    HeaderError,
> {
    match header {
        None => Err(HeaderError::Missing),
        Some(v) => if !is_header_text(v) {
            Err(HeaderError::NotText)
        } else if !has_basic_prefix(v) {
            Err(HeaderError::UnsupportedScheme)
        } else {
            match base64_decoded(v.subrange(6, v.len() as int)) {
                None => Err(HeaderError::BadEncoding),
                Some(d) => split_payload(d),
            }
        },
    }
}

proof fn lemma_first_colon_unique(d: Seq<u8>, i: int)
    requires
        is_first_colon(d, i),
    ensures
        has_colon(d),
        first_colon(d) == i,
{
    let k = first_colon(d);
    assert(is_first_colon(d, k));
    if k < i {
        assert(d[k] != COLON);
    } else if i < k {
        assert(d[i] != COLON);
    }
}

fn is_header_text_exec(v: &[u8]) -> (r: bool)
    ensures
        r == is_header_text(v@),
{
    let mut i: usize = 0;
    while i < v.len()
        invariant
            i <= v@.len(),
            forall|j: int| 0 <= j < i ==> is_header_text_byte(#[trigger] v@[j]),
        decreases v@.len() - i,
    {
        let b = v[i];
        if !(b == 9 || (32 <= b && b < 127)) {
            return false;
        }
        i += 1;
    }
    true
}

fn has_basic_prefix_exec(v: &[u8]) -> (r: bool)
    ensures
        r == has_basic_prefix(v@),
{
    if v.len() < 6 {
        return false;
    }
    let r = v[0] == 66 && v[1] == 97 && v[2] == 115 && v[3] == 105 && v[4] == 99 && v[5] == 32;
    assert(r == (v@.subrange(0, 6) =~= basic_prefix()));
    r
}

/// Index of the first `:` in `d`, if there is one.
fn find_colon(d: &[u8]) -> (r: Option<usize>)
    ensures
        match r {
            Some(i) => is_first_colon(d@, i as int),
            None => !has_colon(d@),
        },
{
    let mut i: usize = 0;
    while i < d.len()
        invariant
            i <= d@.len(),
            forall|j: int| 0 <= j < i ==> d@[j] != COLON,
        decreases d@.len() - i,
    {
        if d[i] == COLON {
            return Some(i);
        }
        i += 1;
    }
    None
}

/// Splits a decoded Basic payload at its first `:`.
fn split_credentials(d: &[u8]) -> (r: Result<Credentials, HeaderError>)
    ensures
        match split_payload(d@) {
            Ok(v) => r matches Ok(c) && c@ == v,
            Err(e) => r == Err::<Credentials, HeaderError>(e),
        },
{
    if utf8_text(d).is_none() {
        return Err(HeaderError::BadEncoding);
    }
    let i = match find_colon(d) {
        Some(i) => i,
        None => return Err(HeaderError::MissingUsername),
    };
    proof {
        lemma_first_colon_unique(d@, i as int);
        assert(!is_continuation_byte(d@[i as int]));
        is_char_boundary_iff_not_is_continuation_byte(d@, i as int);
        valid_utf8_split(d@, i as int);
        let rest = d@.subrange(i as int, d@.len() as int);
        assert(valid_utf8(rest));
        assert(pop_first_scalar(rest) =~= d@.subrange(i as int + 1, d@.len() as int));
    }
    let (before, after) = d.split_at(i);
    let after = &after[1..after.len()];
    let username = match utf8_text(before) {
        Some(s) => s,
        None => return Err(HeaderError::BadEncoding),
    };
    let password = match utf8_text(after) {
        Some(s) => s,
        None => return Err(HeaderError::BadEncoding),
    };
    Ok(Credentials { username, password: SecretString::new(password) })
}

pub open spec fn header_view(header: Option<&[u8]>) -> Option<Seq<u8>> {
    match header {
        Some(v) => Some(v@),
        None => None,
    }
}

/// Reads Basic credentials from the raw value of an `Authorization` header,
/// `None` where the request has no such header.
pub fn basic_auth(header: Option<&[u8]>) -> (r: Result<Credentials, AuthError>)
    ensures
        match decode_header(header_view(header)) {
            Ok(v) => r matches Ok(c) && c@ == v,
            Err(e) => r == Err::<Credentials, AuthError>(AuthError::MalformedHeader(e)),
        },
{
    let v = match header {
        Some(v) => v,
        None => return Err(AuthError::MalformedHeader(HeaderError::Missing)),
    };
    if !is_header_text_exec(v) {
        return Err(AuthError::MalformedHeader(HeaderError::NotText));
    }
    if !has_basic_prefix_exec(v) {
        return Err(AuthError::MalformedHeader(HeaderError::UnsupportedScheme));
    }
    let encoded = &v[6..v.len()];
    let decoded = match decode_base64(encoded) {
        Some(d) => d,
        None => return Err(AuthError::MalformedHeader(HeaderError::BadEncoding)),
    };
    match split_credentials(decoded.as_slice()) {
        Ok(c) => Ok(c),
        Err(e) => Err(AuthError::MalformedHeader(e)),
    }
}

/// The bytes that a Basic header encodes for `username` and `password`:
/// the UTF-8 of the username, a `:`, and the UTF-8 of the password.
pub open spec fn basic_payload(username: Seq<char>, password: Seq<char>) -> Seq<u8> {
    encode_utf8(username) + seq![COLON] + encode_utf8(password)
}

pub open spec fn has_no_colon(s: Seq<char>) -> bool {
    forall|i: int| 0 <= i < s.len() ==> s[i] != ':'
}

fn append_bytes(v: &mut Vec<u8>, b: &[u8])
    ensures
        final(v)@ == old(v)@ + b@,
{
    let mut i: usize = 0;
    while i < b.len()
        invariant
            i <= b@.len(),
            v@ == old(v)@ + b@.subrange(0, i as int),
        decreases b@.len() - i,
    {
        v.push(b[i]);
        i += 1;
        assert(v@ =~= old(v)@ + b@.subrange(0, i as int));
    }
    assert(b@.subrange(0, b@.len() as int) =~= b@);
}

proof fn lemma_high_bytes_not_colon(x: u8)
    by (bit_vector)
    ensures
        (0x80u8 | x) != 58u8,
        (0xC0u8 | x) != 58u8,
        (0xE0u8 | x) != 58u8,
        (0xF0u8 | x) != 58u8,
{
}

proof fn lemma_low_byte_not_colon(s: u32)
    by (bit_vector)
    requires
        s <= 0x7f,
        s != 58,
    ensures
        ((s & 0x7f) as u8) != 58u8,
{
}

proof fn lemma_scalar_has_no_colon_byte(c: char)
    requires
        c != ':',
    ensures
        forall|i: int|
            0 <= i < encode_scalar(c as u32).len() ==> #[trigger] encode_scalar(c as u32)[i]
                != COLON,
{
    let s = c as u32;
    if s <= 0x7f {
        lemma_low_byte_not_colon(s);
    }
    lemma_high_bytes_not_colon(#[verifier::truncate] (((s >> 6) & 0x1F) as u8));
    lemma_high_bytes_not_colon(#[verifier::truncate] (((s >> 12) & 0x0F) as u8));
    lemma_high_bytes_not_colon(#[verifier::truncate] (((s >> 18) & 0x7) as u8));
    lemma_high_bytes_not_colon(#[verifier::truncate] ((s & 0x3F) as u8));
    lemma_high_bytes_not_colon(#[verifier::truncate] (((s >> 6) & 0x3F) as u8));
    lemma_high_bytes_not_colon(#[verifier::truncate] (((s >> 12) & 0x3F) as u8));
}

proof fn lemma_encoding_has_no_colon_byte(u: Seq<char>)
    requires
        has_no_colon(u),
    ensures
        forall|i: int| 0 <= i < encode_utf8(u).len() ==> #[trigger] encode_utf8(u)[i] != COLON,
    decreases u.len(),
{
    if u.len() > 0 {
        let rest = u.drop_first();
        assert(has_no_colon(rest)) by {
            assert forall|i: int| 0 <= i < rest.len() implies rest[i] != ':' by {
                assert(rest[i] == u[i + 1]);
            }
        }
        lemma_encoding_has_no_colon_byte(rest);
        lemma_scalar_has_no_colon_byte(u[0]);
        let head = encode_scalar(u[0] as u32);
        assert(encode_utf8(u) == head + encode_utf8(rest));
        assert forall|i: int| 0 <= i < encode_utf8(u).len() implies #[trigger] encode_utf8(u)[i]
            != COLON by {
            if i < head.len() {
                assert(encode_utf8(u)[i] == head[i]);
            } else {
                assert(encode_utf8(u)[i] == encode_utf8(rest)[i - head.len()]);
            }
        }
    }
}

/// Decoding a payload built from a username without `:` gives back the
/// username and the password exactly.
proof fn lemma_payload_splits(username: Seq<char>, password: Seq<char>)
    requires
        has_no_colon(username),
    ensures
        split_payload(basic_payload(username, password)) == Ok::<
            (Seq<char>, Seq<char>),
            HeaderError,
        >((username, password)),
{
    let eu = encode_utf8(username);
    let ep = encode_utf8(password);
    let d = basic_payload(username, password);
    let k = eu.len() as int;
    assert(valid_utf8(seq![COLON])) by {
        reveal_with_fuel(valid_utf8, 2);
    }
    valid_utf8_concat(eu, seq![COLON]);
    valid_utf8_concat(eu + seq![COLON], ep);
    lemma_encoding_has_no_colon_byte(username);
    assert(d[k] == COLON);
    assert forall|j: int| 0 <= j < k implies d[j] != COLON by {
        assert(d[j] == eu[j]);
    }
    lemma_first_colon_unique(d, k);
    assert(d.subrange(0, k) =~= eu);
    assert(d.subrange(k + 1, d.len() as int) =~= ep);
}

/// The value of an `Authorization` header that carries `username` and
/// `password` as Basic credentials.
pub fn basic_auth_header(username: &str, password: &str) -> (r: Vec<u8>)
    ensures
        r@ == basic_prefix() + base64_encoded(basic_payload(username@, password@)),
        has_no_colon(username@) ==> decode_header(Some(r@)) == Ok::<
            (Seq<char>, Seq<char>),
            HeaderError,
        >((username@, password@)),
{
    let mut payload: Vec<u8> = Vec::new();
    append_bytes(&mut payload, username.as_bytes());
    payload.push(COLON);
    append_bytes(&mut payload, password.as_bytes());
    assert(payload@ =~= basic_payload(username@, password@));
    let encoded = encode_base64(payload.as_slice());
    let mut r: Vec<u8> = vec![66u8, 97u8, 115u8, 105u8, 99u8, 32u8];
    append_bytes(&mut r, encoded.as_slice());
    proof {
        assert(r@.subrange(0, 6) =~= basic_prefix());
        assert(r@.subrange(6, r@.len() as int) =~= encoded@);
        assert(is_header_text(r@)) by {
            assert forall|i: int| 0 <= i < r@.len() implies is_header_text_byte(#[trigger] r@[i]) by {
                if i >= 6 {
                    assert(r@[i] == encoded@[i - 6]);
                    assert(is_base64_symbol(encoded@[i - 6]));
                }
            }
        }
        if has_no_colon(username@) {
            lemma_payload_splits(username@, password@);
        }
    }
    r
}

/// Headers without the `Basic ` prefix, with a remainder that is not Base64,
/// or whose decoded text has no `:`, are refused as malformed.
pub proof fn lemma_malformed_headers_rejected(v: Seq<u8>)
    requires
        !has_basic_prefix(v) || base64_decoded(v.subrange(6, v.len() as int)) is None || (
        base64_decoded(v.subrange(6, v.len() as int)) matches Some(d) && !has_colon(d)),
    ensures
        decode_header(Some(v)) is Err,
{
}

} // verus!
