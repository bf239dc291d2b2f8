//! The WEAPI endpoints and the JSON payload each request sends, written
//! with the keys in sorted order.
use vstd::prelude::*;

use super::types::{quality_bitrate, search_type_value, Quality, SearchType};

verus! {

/// A request before encryption: the endpoint path and the JSON payload.
pub struct ApiRequest {
    pub endpoint: String,
    pub data: String,
}

/// The decimal digit character of `d < 10`.
pub open spec fn digit_char(d: nat) -> char {
    (('0' as nat) + d) as char
}

/// Decimal digits of `n`, without leading zeros.
pub open spec fn decimal(n: nat) -> Seq<char>
    decreases n,
{
    if n < 10 {
        seq![digit_char(n)]
    } else {
        decimal(n / 10).push(digit_char(n % 10))
    }
}

/// The number that the decimal digit characters `s` spell.
pub open spec fn digits_value(s: Seq<char>) -> int
    decreases s.len(),
{
    if s.len() == 0 {
        0
    } else {
        digits_value(s.drop_last()) * 10 + (s.last() as int - '0' as int)
    }
}

/// The decimal text of a number is made of the digits `0`-`9`, has no
/// leading zero (unless the number is zero) and reads back as the number.
pub proof fn lemma_decimal_reads_back(n: nat)
    ensures
        digits_value(decimal(n)) == n,
        forall|i: int| 0 <= i < decimal(n).len() ==> '0' <= #[trigger] decimal(n)[i] <= '9',
        decimal(n).len() >= 1,
        n > 0 ==> decimal(n)[0] != '0',
    decreases n,
{
    let last = digit_char(n % 10);
    assert(last as int == '0' as int + (n % 10) as int);
    if n < 10 {
        assert(decimal(n).drop_last() =~= Seq::<char>::empty());
        assert(decimal(n).last() == digit_char(n));
        assert(digit_char(n) as int == '0' as int + n);
        assert(digits_value(Seq::<char>::empty()) == 0);
        assert(digits_value(decimal(n)) == digits_value(decimal(n).drop_last()) * 10 + (decimal(n).last() as int
            - '0' as int));
    } else {
        lemma_decimal_reads_back(n / 10);
        let d = decimal(n);
        assert(d.last() == last);
        assert(digits_value(d) == digits_value(d.drop_last()) * 10 + (d.last() as int - '0' as int));
        assert((n / 10) * 10 + n % 10 == n);
        assert(d.drop_last() =~= decimal(n / 10));
        assert(d[0] == decimal(n / 10)[0]);
        assert forall|i: int| 0 <= i < d.len() implies '0' <= #[trigger] d[i] <= '9' by {
            if i < d.len() - 1 {
                assert(d[i] == decimal(n / 10)[i]);
            }
        }
    }
}

/// JSON escaping works character by character: escaping two texts one
/// after the other gives the escape of the joined text.
pub proof fn lemma_json_escape_concat(a: Seq<char>, b: Seq<char>)
    ensures
        json_escape(a + b) == json_escape(a) + json_escape(b),
    decreases a.len(),
{
    if a.len() == 0 {
        assert(a + b =~= b);
    } else {
        lemma_json_escape_concat(a.drop_first(), b);
        assert((a + b).drop_first() =~= a.drop_first() + b);
        assert((a + b)[0] == a[0]);
    }
}

/// Text with no quote, no backslash and no control character is written
/// into a JSON string unchanged; a quote or a backslash is written behind
/// a backslash.
pub proof fn lemma_json_escape_plain_text(s: Seq<char>)
    ensures
        (forall|i: int| 0 <= i < s.len() ==> #[trigger] s[i] != '"' && s[i] != '\\' && (s[i] as int)
            >= 0x20) ==> json_escape(s) == s,
        json_escape(seq!['"']) == seq!['\\', '"'],
        json_escape(seq!['\\']) == seq!['\\', '\\'],
    decreases s.len(),
{
    assert(seq!['"'].drop_first() =~= Seq::<char>::empty());
    assert(seq!['\\'].drop_first() =~= Seq::<char>::empty());
    assert(json_escape(Seq::<char>::empty()) == Seq::<char>::empty());
    assert(json_escape(seq!['"']) == json_escape_char('"') + json_escape(Seq::<char>::empty()));
    assert(json_escape(seq!['"']) =~= seq!['\\', '"']);
    assert(json_escape(seq!['\\']) == json_escape_char('\\') + json_escape(Seq::<char>::empty()));
    assert(json_escape(seq!['\\']) =~= seq!['\\', '\\']);
    if s.len() > 0 {
        lemma_json_escape_plain_text(s.drop_first());
        if forall|i: int| 0 <= i < s.len() ==> #[trigger] s[i] != '"' && s[i] != '\\' && (s[i] as int) >= 0x20 {
            assert(forall|i: int|
                0 <= i < s.drop_first().len() ==> #[trigger] s.drop_first()[i] == s[i + 1]);
            assert(json_escape(s) =~= s);
        }
    }
}

/// The lower-case hexadecimal digit of `d < 16`.
pub open spec fn lower_hex_digit(d: nat) -> char {
    if d < 10 {
        (('0' as nat) + d) as char
    } else {
        (('a' as nat) + d - 10) as char
    }
}

/// The JSON escape of one character: quote and backslash behind a
/// backslash, the short escapes `\b \t \n \f \r`, `\u00XX` (lower-case
/// hex) for the other control characters below `0x20`, and any other
/// character as it is.
pub open spec fn json_escape_char(c: char) -> Seq<char> {
    if c == '"' {
        seq!['\\', '"']
    } else if c == '\\' {
        seq!['\\', '\\']
    } else if c == '\x08' {
        seq!['\\', 'b']
    } else if c == '\t' {
        seq!['\\', 't']
    } else if c == '\n' {
        seq!['\\', 'n']
    } else if c == '\x0c' {
        seq!['\\', 'f']
    } else if c == '\r' {
        seq!['\\', 'r']
    } else if (c as nat) < 0x20 {
        seq!['\\', 'u', '0', '0', lower_hex_digit((c as nat) / 16), lower_hex_digit((c as nat) % 16)]
    } else {
        seq![c]
    }
}

/// The characters `s`, each JSON-escaped.
pub open spec fn json_escape(s: Seq<char>) -> Seq<char>
    decreases s.len(),
{
    if s.len() == 0 {
        Seq::empty()
    } else {
        json_escape_char(s[0]) + json_escape(s.drop_first())
    }
}

/// The JSON string literal of the characters `s`: escaped, within quotes.
pub open spec fn json_string_literal(s: Seq<char>) -> Seq<char> {
    seq!['"'] + json_escape(s) + seq!['"']
}

/// Calls `serde_json::to_string` on a `&str`. Claimed: the result is the
/// JSON string literal of `s`, escaped as the crate's escape table does;
/// serializing a string slice does not fail (the crate fails only for
/// failing `Serialize` impls or maps with non-string keys).
#[verifier::external_body]
fn json_quote(s: &str) -> (quoted: String)
    ensures
        quoted@ == json_string_literal(s@),
{
    match serde_json::to_string(s) {
        Ok(q) => q,
        Err(_) => String::new(),
    }
}

fn digit_str(d: u64) -> (s: &'static str)
    requires
        d < 10,
    ensures
        s@ == seq![digit_char(d as nat)],
{
    proof {
        reveal_strlit("0");
        reveal_strlit("1");
        reveal_strlit("2");
        reveal_strlit("3");
        reveal_strlit("4");
        reveal_strlit("5");
        reveal_strlit("6");
        reveal_strlit("7");
        reveal_strlit("8");
        reveal_strlit("9");
    }
    match d {
        0 => "0",
        1 => "1",
        2 => "2",
        3 => "3",
        4 => "4",
        5 => "5",
        6 => "6",
        7 => "7",
        8 => "8",
        _ => "9",
    }
}

/// Appends the decimal digits of `n` to `out`.
fn push_decimal(out: &mut String, n: u64)
    ensures
        final(out)@ == old(out)@ + decimal(n as nat),
    decreases n,
{
    if n >= 10 {
        push_decimal(out, n / 10);
    }
    out.append(digit_str(n % 10));
    proof {
        if n >= 10 {
            assert(decimal(n as nat) == decimal((n / 10) as nat).push(digit_char((n % 10) as nat)));
        }
    }
    assert(out@ =~= old(out)@ + decimal(n as nat));
}

/// Payload of a playlist detail request: `{"id":<id>,"n":100000}`.
pub open spec fn playlist_payload(id: u64) -> Seq<char> {
    "{\"id\":"@ + decimal(id as nat) + ",\"n\":100000}"@
}

/// The request for a playlist with all its tracks.
pub fn playlist_detail_request(id: u64) -> (req: ApiRequest)
    ensures
        req.endpoint@ == "/v6/playlist/detail"@,
        req.data@ == playlist_payload(id),
{
    let mut data = String::from_str("{\"id\":");
    push_decimal(&mut data, id);
    data.append(",\"n\":100000}");
    ApiRequest { endpoint: String::from_str("/v6/playlist/detail"), data }
}

/// Payload of a search request:
/// `{"limit":<limit>,"offset":<offset>,"s":<keyword>,"type":<type>}`.
pub open spec fn search_payload(keyword: Seq<char>, t: SearchType, limit: u64, offset: u64) -> Seq<char> {
    "{\"limit\":"@ + decimal(limit as nat) + ",\"offset\":"@ + decimal(offset as nat) + ",\"s\":"@
        + json_string_literal(keyword) + ",\"type\":"@ + decimal(search_type_value(t) as nat) + "}"@
}

/// The request for a page of search results.
pub fn search_request(keyword: &str, search_type: SearchType, limit: u64, offset: u64) -> (req: ApiRequest)
    ensures
        req.endpoint@ == "/cloudsearch/get/web"@,
        req.data@ == search_payload(keyword@, search_type, limit, offset),
{
    let mut data = String::from_str("{\"limit\":");
    push_decimal(&mut data, limit);
    data.append(",\"offset\":");
    push_decimal(&mut data, offset);
    data.append(",\"s\":");
    let quoted = json_quote(keyword);
    data.append(quoted.as_str());
    data.append(",\"type\":");
    push_decimal(&mut data, search_type.api_value());
    data.append("}");
    ApiRequest { endpoint: String::from_str("/cloudsearch/get/web"), data }
}

/// `[<id>]`, the id list of one track.
pub open spec fn id_list(id: u64) -> Seq<char> {
    "["@ + decimal(id as nat) + "]"@
}

/// Payload of a track detail request: `{"c":"[{\"id\":<id>}]","ids":"[<id>]"}`.
pub open spec fn track_detail_payload(id: u64) -> Seq<char> {
    "{\"c\":"@ + json_string_literal("[{\"id\":"@ + decimal(id as nat) + "}]"@) + ",\"ids\":"@
        + json_string_literal(id_list(id)) + "}"@
}

/// The request for the details of a track.
pub fn track_detail_request(id: u64) -> (req: ApiRequest)
    ensures
        req.endpoint@ == "/song/detail"@,
        req.data@ == track_detail_payload(id),
{
    let mut c = String::from_str("[{\"id\":");
    push_decimal(&mut c, id);
    c.append("}]");
    let mut ids = String::from_str("[");
    push_decimal(&mut ids, id);
    ids.append("]");
    let mut data = String::from_str("{\"c\":");
    let quoted_c = json_quote(c.as_str());
    data.append(quoted_c.as_str());
    data.append(",\"ids\":");
    let quoted_ids = json_quote(ids.as_str());
    data.append(quoted_ids.as_str());
    data.append("}");
    ApiRequest { endpoint: String::from_str("/song/detail"), data }
}

/// Payload of a track URL request: `{"br":<bitrate>,"ids":"[<id>]"}`.
pub open spec fn track_url_payload(id: u64, quality: Quality) -> Seq<char> {
    "{\"br\":"@ + decimal(quality_bitrate(quality) as nat) + ",\"ids\":"@ + json_string_literal(
        id_list(id),
    ) + "}"@
}

/// The request for the playback URL of a track at a quality.
pub fn track_url_request(id: u64, quality: Quality) -> (req: ApiRequest)
    ensures
        req.endpoint@ == "/song/enhance/player/url"@,
        req.data@ == track_url_payload(id, quality),
{
    let mut ids = String::from_str("[");
    push_decimal(&mut ids, id);
    ids.append("]");
    let mut data = String::from_str("{\"br\":");
    push_decimal(&mut data, quality.bitrate());
    data.append(",\"ids\":");
    let quoted = json_quote(ids.as_str());
    data.append(quoted.as_str());
    data.append("}");
    ApiRequest { endpoint: String::from_str("/song/enhance/player/url"), data }
}

/// Payload of a lyric request: `{"id":<id>,"lv":-1,"tv":-1}`.
pub open spec fn lyric_payload(id: u64) -> Seq<char> {
    "{\"id\":"@ + decimal(id as nat) + ",\"lv\":-1,\"tv\":-1}"@
}

/// The request for the lyrics of a track.
pub fn track_lyric_request(id: u64) -> (req: ApiRequest)
    ensures
        req.endpoint@ == "/song/lyric"@,
        req.data@ == lyric_payload(id),
{
    let mut data = String::from_str("{\"id\":");
    push_decimal(&mut data, id);
    data.append(",\"lv\":-1,\"tv\":-1}");
    ApiRequest { endpoint: String::from_str("/song/lyric"), data }
}

/// The request for the logged-in user's profile (an empty payload).
pub fn user_info_request() -> (req: ApiRequest)
    ensures
        req.endpoint@ == "/nuser/account/get"@,
        req.data@ == "{}"@,
{
    ApiRequest { endpoint: String::from_str("/nuser/account/get"), data: String::from_str("{}") }
}

/// The payloads name every request field the API documents, in sorted key
/// order: a playlist is asked for with up to 100000 tracks (`n`), a search
/// sends its page (`limit`, `offset`), keyword (`s`) and type code, track
/// details and URLs send the id inside a quoted JSON list (`ids`, and `c`
/// as a list of one `{"id":..}` object), URLs send the bitrate as `br`, and
/// lyrics ask for the latest original and translated versions (`lv` and
/// `tv` both -1).
pub proof fn lemma_payload_fields(id: u64, keyword: Seq<char>, t: SearchType, limit: u64, offset: u64, q: Quality)
    ensures
        playlist_payload(id) == "{"@ + "\"id\":"@ + decimal(id as nat) + ","@ + "\"n\":"@ + decimal(100000) + "}"@,
        search_payload(keyword, t, limit, offset) == "{"@ + "\"limit\":"@ + decimal(limit as nat) + ","@
            + "\"offset\":"@ + decimal(offset as nat) + ","@ + "\"s\":"@ + seq!['"'] + json_escape(keyword)
            + seq!['"'] + ","@ + "\"type\":"@ + decimal(search_type_value(t) as nat) + "}"@,
        track_detail_payload(id) == "{"@ + "\"c\":"@ + seq!['"'] + json_escape(
            "[{\"id\":"@ + decimal(id as nat) + "}]"@,
        ) + seq!['"'] + ","@ + "\"ids\":"@ + seq!['"'] + json_escape("["@ + decimal(id as nat) + "]"@)
            + seq!['"'] + "}"@,
        track_url_payload(id, q) == "{"@ + "\"br\":"@ + decimal(quality_bitrate(q) as nat) + ","@
            + "\"ids\":"@ + seq!['"'] + json_escape("["@ + decimal(id as nat) + "]"@) + seq!['"'] + "}"@,
        lyric_payload(id) == "{"@ + "\"id\":"@ + decimal(id as nat) + ","@ + "\"lv\":"@ + "-1"@ + ","@
            + "\"tv\":"@ + "-1"@ + "}"@,
{
    reveal_strlit("{");
    reveal_strlit("}");
    reveal_strlit(",");
    reveal_strlit("\"id\":");
    reveal_strlit("\"n\":");
    reveal_strlit("{\"id\":");
    reveal_strlit(",\"n\":100000}");
    reveal_strlit("\"limit\":");
    reveal_strlit("\"offset\":");
    reveal_strlit("\"s\":");
    reveal_strlit("\"type\":");
    reveal_strlit("{\"limit\":");
    reveal_strlit(",\"offset\":");
    reveal_strlit(",\"s\":");
    reveal_strlit(",\"type\":");
    reveal_strlit("\"c\":");
    reveal_strlit("\"ids\":");
    reveal_strlit("{\"c\":");
    reveal_strlit(",\"ids\":");
    reveal_strlit("\"br\":");
    reveal_strlit("{\"br\":");
    reveal_strlit("\"lv\":");
    reveal_strlit("\"tv\":");
    reveal_strlit("-1");
    reveal_strlit(",\"lv\":-1,\"tv\":-1}");
    reveal_strlit("[");
    reveal_strlit("]");
    reveal_strlit("[{\"id\":");
    reveal_strlit("}]");
    reveal_with_fuel(decimal, 7);
    assert(decimal(100000) =~= seq!['1', '0', '0', '0', '0', '0']);
    assert(playlist_payload(id) =~= "{"@ + "\"id\":"@ + decimal(id as nat) + ","@ + "\"n\":"@ + decimal(
        100000,
    ) + "}"@);
    assert(search_payload(keyword, t, limit, offset) =~= "{"@ + "\"limit\":"@ + decimal(limit as nat) + ","@
        + "\"offset\":"@ + decimal(offset as nat) + ","@ + "\"s\":"@ + seq!['"'] + json_escape(keyword)
        + seq!['"'] + ","@ + "\"type\":"@ + decimal(search_type_value(t) as nat) + "}"@);
    assert(track_detail_payload(id) =~= "{"@ + "\"c\":"@ + seq!['"'] + json_escape(
        "[{\"id\":"@ + decimal(id as nat) + "}]"@,
    ) + seq!['"'] + ","@ + "\"ids\":"@ + seq!['"'] + json_escape("["@ + decimal(id as nat) + "]"@)
        + seq!['"'] + "}"@);
    assert(track_url_payload(id, q) =~= "{"@ + "\"br\":"@ + decimal(quality_bitrate(q) as nat) + ","@
        + "\"ids\":"@ + seq!['"'] + json_escape("["@ + decimal(id as nat) + "]"@) + seq!['"'] + "}"@);
    assert(lyric_payload(id) =~= "{"@ + "\"id\":"@ + decimal(id as nat) + ","@ + "\"lv\":"@ + "-1"@ + ","@
        + "\"tv\":"@ + "-1"@ + "}"@);
}

} // verus!
