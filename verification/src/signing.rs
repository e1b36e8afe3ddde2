//! Request signing: a canonical string over timestamp, method, path and
//! body, authenticated with HMAC-SHA256 and rendered in lower-case hex.
use vstd::prelude::*;
use vstd::string::StrSliceExecFns;
use vstd::string::StringExecFns;
use vstd::utf8::encode_utf8;
use hmac::Hmac;
use hmac::KeyInit;
use hmac::Mac;
use sha2::Sha256;
use crate::text::spec_hex_char;
use crate::text::spec_u64_dec;
use crate::text::u64_to_string;

verus! {

/// Lower-case hexadecimal rendering of a byte sequence, two digits a byte,
/// high digit first.
pub open spec fn spec_hex(bytes: Seq<u8>) -> Seq<char>
    decreases bytes.len(),
{
    if bytes.len() == 0 {
        Seq::empty()
    } else {
        spec_hex(bytes.drop_last()) + seq![
            spec_hex_char(bytes.last() as int / 16),
            spec_hex_char(bytes.last() as int % 16),
        ]
    }
}

/// The HMAC-SHA256 tag of a message under a key. The tag is a function of
/// the key and message bytes alone; its value is not restated here.
pub uninterp spec fn hmac_sha256_of(key: Seq<u8>, message: Seq<u8>) -> Seq<u8>;

/// Relies on `hex::encode`: two lower-case hex digits for each byte, in
/// order.
#[verifier::external_body]
fn hex_encode(bytes: &[u8]) -> (r: String)
    ensures
        r@ == spec_hex(bytes@),
{
    hex::encode(bytes)
}

/// Relies on `Hmac::<Sha256>` of the `hmac` crate: computes the HMAC-SHA256
/// tag of the message under the key; a SHA-256 tag is 32 bytes long, and
/// depends on the key and message bytes alone.
#[verifier::external_body]
fn hmac_sha256(key: &[u8], message: &[u8]) -> (r: Vec<u8>)
    ensures
        r@ == hmac_sha256_of(key@, message@),
        r@.len() == 32,
{
    let mut mac = Hmac::<Sha256>::new_from_slice(key).expect("HMAC accepts keys of any length");
    mac.update(message);
    mac.finalize().into_bytes().to_vec()
}

/// The canonical string a request signature is computed over: the
/// millisecond timestamp, the method, the path, a blank header-separator
/// line, and the body, joined by CRLF pairs.
pub open spec fn spec_canonical_string(
    time_ms: u64,
    method: Seq<char>,
    path: Seq<char>,
    body: Seq<char>,
) -> Seq<char> {
    spec_u64_dec(time_ms as nat) + "\r\n"@ + method + "\r\n"@ + path + "\r\n\r\n"@ + body
}

/// The signature of a request: the lower-case hex HMAC-SHA256 tag of the
/// canonical string's UTF-8 bytes, keyed by the API secret's UTF-8 bytes.
pub open spec fn spec_signature(
    secret: Seq<char>,
    time_ms: u64,
    method: Seq<char>,
    path: Seq<char>,
    body: Seq<char>,
) -> Seq<char> {
    spec_hex(
        hmac_sha256_of(
            encode_utf8(secret),
            encode_utf8(spec_canonical_string(time_ms, method, path, body)),
        ),
    )
}

/// Builds the canonical string for a request.
pub fn canonical_string(time_ms: u64, method: &str, path: &str, body: &str) -> (r: String)
    ensures
        r@ == spec_canonical_string(time_ms, method@, path@, body@),
{
    let mut s = u64_to_string(time_ms);
    s.append("\r\n");
    s.append(method);
    s.append("\r\n");
    s.append(path);
    s.append("\r\n\r\n");
    s.append(body);
    s
}

/// Signs a request: hex-encodes the HMAC-SHA256 tag of the canonical
/// string under the API secret.
pub fn sign_request(secret: &str, time_ms: u64, method: &str, path: &str, body: &str) -> (r:
    String)
    ensures
        r@ == spec_signature(secret@, time_ms, method@, path@, body@),
{
    let canonical = canonical_string(time_ms, method, path, body);
    let tag = hmac_sha256(secret.as_bytes(), canonical.as_str().as_bytes());
    hex_encode(tag.as_slice())
}

/// True when no character of `s` is a carriage return.
pub open spec fn carriage_return_free(s: Seq<char>) -> bool {
    forall|i: int| 0 <= i < s.len() ==> s[i] != '\r'
}

/// Splitting at the first carriage return is unambiguous: when two equal
/// concatenations each put a carriage-return-free part before a part that
/// opens with one, the parts agree.
proof fn lemma_split_at_carriage_return(
    x1: Seq<char>,
    y1: Seq<char>,
    x2: Seq<char>,
    y2: Seq<char>,
)
    requires
        carriage_return_free(x1),
        carriage_return_free(x2),
        y1.len() >= 1,
        y2.len() >= 1,
        y1[0] == '\r',
        y2[0] == '\r',
        x1 + y1 == x2 + y2,
    ensures
        x1 == x2,
        y1 == y2,
{
    if x1.len() < x2.len() {
        assert((x1 + y1)[x1.len() as int] == '\r');
        assert((x2 + y2)[x1.len() as int] == x2[x1.len() as int]);
    } else if x2.len() < x1.len() {
        assert((x2 + y2)[x2.len() as int] == '\r');
        assert((x1 + y1)[x2.len() as int] == x1[x2.len() as int]);
    }
    assert(x1 =~= (x1 + y1).take(x1.len() as int));
    assert(x2 =~= (x2 + y2).take(x1.len() as int));
    assert(y1 =~= (x1 + y1).skip(x1.len() as int));
    assert(y2 =~= (x2 + y2).skip(x1.len() as int));
}

/// The canonical string is injective in its inputs: methods and paths
/// never carry a carriage return, and under that condition two requests
/// with the same canonical string agree on the timestamp, the method, the
/// path and the body. Distinct requests therefore present distinct
/// strings to the MAC.
pub proof fn lemma_canonical_string_injective(
    time1: u64,
    method1: Seq<char>,
    path1: Seq<char>,
    body1: Seq<char>,
    time2: u64,
    method2: Seq<char>,
    path2: Seq<char>,
    body2: Seq<char>,
)
    requires
        carriage_return_free(method1),
        carriage_return_free(method2),
        carriage_return_free(path1),
        carriage_return_free(path2),
        spec_canonical_string(time1, method1, path1, body1) == spec_canonical_string(
            time2,
            method2,
            path2,
            body2,
        ),
    ensures
        time1 == time2,
        method1 == method2,
        path1 == path2,
        body1 == body2,
{
    reveal_strlit("\r\n");
    reveal_strlit("\r\n\r\n");
    let crlf = "\r\n"@;
    let blank = "\r\n\r\n"@;
    let dec1 = spec_u64_dec(time1 as nat);
    let dec2 = spec_u64_dec(time2 as nat);
    crate::text::lemma_u64_dec_digits(time1 as nat);
    crate::text::lemma_u64_dec_digits(time2 as nat);
    let tail1 = crlf + method1 + crlf + path1 + blank + body1;
    let tail2 = crlf + method2 + crlf + path2 + blank + body2;
    assert(dec1 + tail1 =~= spec_canonical_string(time1, method1, path1, body1));
    assert(dec2 + tail2 =~= spec_canonical_string(time2, method2, path2, body2));
    assert(carriage_return_free(dec1)) by {
        assert(forall|i: int|
            0 <= i < dec1.len() ==> crate::text::is_dec_digit(#[trigger] dec1[i]));
    }
    assert(carriage_return_free(dec2)) by {
        assert(forall|i: int|
            0 <= i < dec2.len() ==> crate::text::is_dec_digit(#[trigger] dec2[i]));
    }
    assert(tail1[0] == '\r' && tail2[0] == '\r');
    lemma_split_at_carriage_return(dec1, tail1, dec2, tail2);
    crate::text::lemma_u64_dec_injective(time1 as nat, time2 as nat);

    let mid1 = method1 + crlf + path1 + blank + body1;
    let mid2 = method2 + crlf + path2 + blank + body2;
    assert(mid1 =~= tail1.skip(2));
    assert(mid2 =~= tail2.skip(2));
    let after1 = crlf + path1 + blank + body1;
    let after2 = crlf + path2 + blank + body2;
    assert(method1 + after1 =~= mid1);
    assert(method2 + after2 =~= mid2);
    assert(after1[0] == '\r' && after2[0] == '\r');
    lemma_split_at_carriage_return(method1, after1, method2, after2);

    let last1 = path1 + (blank + body1);
    let last2 = path2 + (blank + body2);
    assert(last1 =~= after1.skip(2));
    assert(last2 =~= after2.skip(2));
    assert((blank + body1)[0] == '\r' && (blank + body2)[0] == '\r');
    lemma_split_at_carriage_return(path1, blank + body1, path2, blank + body2);
    assert(body1 =~= (blank + body1).skip(4));
    assert(body2 =~= (blank + body2).skip(4));
}

/// Signing is a pure function of secret, time, method, path and body:
/// two requests that agree on all five receive the same signature.
pub proof fn lemma_signing_deterministic(
    secret1: Seq<char>,
    time1: u64,
    method1: Seq<char>,
    path1: Seq<char>,
    body1: Seq<char>,
    secret2: Seq<char>,
    time2: u64,
    method2: Seq<char>,
    path2: Seq<char>,
    body2: Seq<char>,
)
    requires
        secret1 == secret2,
        time1 == time2,
        method1 == method2,
        path1 == path2,
        body1 == body2,
    ensures
        spec_signature(secret1, time1, method1, path1, body1) == spec_signature(
            secret2,
            time2,
            method2,
            path2,
            body2,
        ),
{
}

} // verus!
