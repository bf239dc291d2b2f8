use vstd::prelude::*;
use vstd::string::StringSliceAdditionalSpecFns;

use super::auth::{cookie_prefix, logged_in, Session};
use super::crypto::{is_random_key, rsa_hex, weapi_encrypt, weapi_fits, weapi_params};
use vstd::utf8::encode_utf8;
use super::error::Error;
use crate::text::{contains_chars, str_contains};

verus! {

/// `b` is sent unescaped by percent-encoding: an ASCII letter or digit, or
/// one of `-`, `_`, `.`, `~`.
pub open spec fn is_unreserved(b: u8) -> bool {
    ||| (0x30 <= b <= 0x39)
    ||| (0x41 <= b <= 0x5a)
    ||| (0x61 <= b <= 0x7a)
    ||| b == 0x2d
    ||| b == 0x5f
    ||| b == 0x2e
    ||| b == 0x7e
}

/// The upper-case hex digit of `d < 16`.
pub open spec fn upper_hex_digit(d: u8) -> char {
    if d < 10 {
        ((0x30 + d) as u8) as char
    } else {
        ((0x41 + d - 10) as u8) as char
    }
}

/// Percent-encoding of `bytes`: unreserved bytes are kept, every other byte
/// becomes `%` and two upper-case hex digits.
pub open spec fn percent_encode(bytes: Seq<u8>) -> Seq<char>
    decreases bytes.len(),
{
    if bytes.len() == 0 {
        Seq::empty()
    } else {
        let b = bytes[0];
        let head = if is_unreserved(b) {
            seq![b as char]
        } else {
            seq!['%', upper_hex_digit(b / 16), upper_hex_digit(b % 16)]
        };
        head + percent_encode(bytes.drop_first())
    }
}

/// The value of an upper-case hex digit character.
pub open spec fn hex_value(c: char) -> int {
    if '0' <= c <= '9' {
        c as int - '0' as int
    } else {
        c as int - 'A' as int + 10
    }
}

/// Percent-encoding works byte by byte: encoding two byte strings one
/// after the other gives the encoding of the joined bytes.
pub proof fn lemma_percent_encode_concat(a: Seq<u8>, b: Seq<u8>)
    ensures
        percent_encode(a + b) == percent_encode(a) + percent_encode(b),
    decreases a.len(),
{
    if a.len() == 0 {
        assert(a + b =~= b);
    } else {
        lemma_percent_encode_concat(a.drop_first(), b);
        assert((a + b).drop_first() =~= a.drop_first() + b);
        assert((a + b)[0] == a[0]);
    }
}

/// A single byte is sent as itself exactly when it is an ASCII letter or
/// digit or one of `-_.~`; any other byte is sent as `%` and two
/// upper-case hex digits whose value is the byte.
pub proof fn lemma_percent_encode_byte(b: u8)
    ensures
        ({
            let alnum = (0x30 <= b <= 0x39) || (0x41 <= b <= 0x5a) || (0x61 <= b <= 0x7a);
            let mark = b == 0x2d || b == 0x5f || b == 0x2e || b == 0x7e;
            let e = percent_encode(seq![b]);
            &&& (alnum || mark) ==> e == seq![b as char]
            &&& !(alnum || mark) ==> e.len() == 3 && e[0] == '%' && ('0' <= e[1] <= '9' || 'A' <= e[1] <= 'F')
                && ('0' <= e[2] <= '9' || 'A' <= e[2] <= 'F') && hex_value(e[1]) * 16 + hex_value(e[2]) == b
        }),
{
    let e = percent_encode(seq![b]);
    assert(seq![b].drop_first() =~= Seq::<u8>::empty());
    assert(e == (if is_unreserved(b) {
        seq![b as char]
    } else {
        seq!['%', upper_hex_digit(b / 16), upper_hex_digit(b % 16)]
    }) + percent_encode(Seq::<u8>::empty()));
    if is_unreserved(b) {
        assert(e =~= seq![b as char]);
    } else {
        assert(e =~= seq!['%', upper_hex_digit(b / 16), upper_hex_digit(b % 16)]);
        let hi = b / 16;
        let lo = b % 16;
        assert(upper_hex_digit(hi) as int == if hi < 10 { 0x30 + hi } else { 0x41 + hi - 10 });
        assert(upper_hex_digit(lo) as int == if lo < 10 { 0x30 + lo } else { 0x41 + lo - 10 });
        assert(hi * 16 + lo == b);
    }
}

/// Every request is posted to `https://music.163.com/weapi` followed by the
/// endpoint path.
pub proof fn lemma_endpoint_url_is_weapi(endpoint: Seq<char>)
    ensures
        endpoint_url(endpoint) == "https://music.163.com/weapi"@ + endpoint,
{
    reveal_strlit("https://music.163.com");
    reveal_strlit("/weapi");
    reveal_strlit("https://music.163.com/weapi");
    assert(endpoint_url(endpoint) =~= "https://music.163.com/weapi"@ + endpoint);
}

/// Calls `urlencoding::encode`. Claimed: the result is the percent-encoding
/// of the UTF-8 bytes of `s`, as its documentation and source state (every
/// byte but ASCII letters, digits and `-_.~` becomes `%XX`, upper-case).
#[verifier::external_body]
fn url_encode(s: &str) -> (encoded: String)
    ensures
        encoded@ == percent_encode(s.spec_bytes()),
{
    urlencoding::encode(s).into_owned()
}

/// The host every request goes to.
pub open spec fn base_url() -> Seq<char> {
    "https://music.163.com"@
}

/// A WEAPI request ready to be sent: the URL to post to, the form body and
/// the cookie header, if any.
pub struct PreparedRequest {
    pub url: String,
    pub body: String,
    pub cookie: Option<String>,
}

/// The URL of the WEAPI `endpoint`.
pub open spec fn endpoint_url(endpoint: Seq<char>) -> Seq<char> {
    base_url() + "/weapi"@ + endpoint
}

/// The form body carrying the WEAPI encryption of `data` under the secret
/// `key`.
pub open spec fn form_body(data: Seq<u8>, key: Seq<u8>) -> Seq<char> {
    "params="@ + percent_encode(encode_utf8(weapi_params(data, key))) + "&encSecKey="@ + rsa_hex(key)
}

/// A client of the WEAPI, holding the login session.
pub struct Client {
    session: Session,
}

impl Client {
    /// The session of this client.
    pub closed spec fn spec_session(&self) -> Session {
        self.session
    }

    /// A client that sends the given session.
    pub fn with_session(session: Session) -> (client: Client)
        ensures
            client.spec_session() == session,
    {
        Client { session }
    }

    /// The session of this client.
    pub fn session(&self) -> (session: &Session)
        ensures
            *session == self.spec_session(),
    {
        &self.session
    }

    /// Prepares the request of `endpoint` (such as `/song/detail`) with the
    /// JSON text `data`, encrypted under a fresh random key.
    pub fn prepare_request(&self, endpoint: &str, data: &str) -> (req: PreparedRequest)
        requires
            weapi_fits(data.spec_bytes().len() as int),
        ensures
            req.url@ == endpoint_url(endpoint@),
            exists|key: Seq<u8>| is_random_key(key, 16) && req.body@ == form_body(data.spec_bytes(), key),
            match (req.cookie, self.spec_session().music_u) {
                (Some(c), Some(m)) => c@ == cookie_prefix() + m@,
                (None, None) => true,
                _ => false,
            },
    {
        let payload = weapi_encrypt(data);
        let mut url = String::from_str("https://music.163.com");
        url.append("/weapi");
        url.append(endpoint);
        let mut body = String::from_str("params=");
        let encoded = url_encode(payload.params.as_str());
        body.append(encoded.as_str());
        body.append("&encSecKey=");
        body.append(payload.enc_sec_key.as_str());
        let cookie = self.session.cookie_header();
        PreparedRequest { url, body, cookie }
    }

    /// Checks that the session is logged in, as requests for the user's own
    /// data need.
    pub fn require_login(&self) -> (res: Result<(), Error>)
        ensures
            res is Ok <==> logged_in(self.spec_session()),
            res matches Err(e) ==> e is NotLoggedIn,
    {
        if self.session.is_logged_in() {
            Ok(())
        } else {
            Err(Error::NotLoggedIn)
        }
    }
}

/// Extension for a downloaded track: `flac` when its URL mentions `.flac`,
/// `mp3` otherwise.
pub fn download_extension(url: &str) -> (ext: &'static str)
    ensures
        ext@ == (if contains_chars(url@, ".flac"@) {
            "flac"@
        } else {
            "mp3"@
        }),
{
    if str_contains(url, ".flac") {
        "flac"
    } else {
        "mp3"
    }
}

} // verus!
