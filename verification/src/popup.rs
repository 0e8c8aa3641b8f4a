use vstd::prelude::*;
use vstd::utf8::encode_utf8;

verus! {

/// The lowercase hexadecimal digit for a value below sixteen.
pub open spec fn hex_lower(d: int) -> char {
    if d < 10 {
        (48 + d) as char
    } else {
        (87 + d) as char
    }
}

/// The uppercase hexadecimal digit for a value below sixteen.
pub open spec fn hex_upper(d: int) -> char {
    if d < 10 {
        (48 + d) as char
    } else {
        (55 + d) as char
    }
}

/// How a JSON string writes one character: quote and backslash behind a
/// backslash, the usual short escapes, other control characters as
/// `\u00xx`, everything else as it is.
pub open spec fn json_escape_char(c: char) -> Seq<char> {
    if c == '"' {
        seq!['\\', '"']
    } else if c == '\\' {
        seq!['\\', '\\']
    } else if c == '\x08' {
        seq!['\\', 'b']
    } else if c == '\t' {
        seq!['\\', 't']
    } else if c == '\n' {
        seq!['\\', 'n']
    } else if c == '\x0c' {
        seq!['\\', 'f']
    } else if c == '\r' {
        seq!['\\', 'r']
    } else if (c as u32) < 0x20 {
        seq!['\\', 'u', '0', '0', hex_lower(((c as u32) / 16) as int), hex_lower(((c as u32) % 16) as int)]
    } else {
        seq![c]
    }
}

/// The escaped contents of a JSON string.
pub open spec fn json_escape(s: Seq<char>) -> Seq<char>
    decreases s.len(),
{
    if s.len() == 0 {
        Seq::empty()
    } else {
        json_escape_char(s[0]) + json_escape(s.drop_first())
    }
}

/// A text as a JSON string literal.
pub open spec fn json_string(s: Seq<char>) -> Seq<char> {
    seq!['"'] + json_escape(s) + seq!['"']
}

/// A byte that URL encoding leaves as it is: ASCII letters and digits and `-._~`.
pub open spec fn is_unreserved(b: u8) -> bool {
    ||| 48 <= b <= 57
    ||| 65 <= b <= 90
    ||| 97 <= b <= 122
    ||| b == 45
    ||| b == 46
    ||| b == 95
    ||| b == 126
}

/// How URL encoding writes one byte.
pub open spec fn percent_encode_byte(b: u8) -> Seq<char> {
    if is_unreserved(b) {
        seq![b as char]
    } else {
        seq!['%', hex_upper((b as int) / 16), hex_upper((b as int) % 16)]
    }
}

/// URL encoding of a byte string.
pub open spec fn percent_encode(bytes: Seq<u8>) -> Seq<char>
    decreases bytes.len(),
{
    if bytes.len() == 0 {
        Seq::empty()
    } else {
        percent_encode_byte(bytes[0]) + percent_encode(bytes.drop_first())
    }
}

/// `urlencoding::encode`: percent-encodes every UTF-8 byte of the text
/// except ASCII letters, digits and `-._~`, with uppercase hexadecimal digits.
#[verifier::external_body]
fn url_encode(text: &str) -> (encoded: String)
    ensures
        encoded@ == percent_encode(encode_utf8(text@)),
{
    urlencoding::encode(text).into_owned()
}

/// The JSON state handed to the translation popup: the object with the keys
/// `demo` and `text`, written compactly with its keys in sorted order.
pub open spec fn popup_state(text: Seq<char>, demo: bool) -> Seq<char> {
    "{\"demo\":"@ + (if demo {
        "true"@
    } else {
        "false"@
    }) + ",\"text\":"@ + json_string(text) + "}"@
}

/// The query of the translation popup's page for this text.
pub open spec fn popup_query(text: Seq<char>, demo: bool) -> Seq<char> {
    "mode=translation&state="@ + percent_encode(encode_utf8(popup_state(text, demo)))
}

/// serde_json's rendering of the object `{"text": text, "demo": demo}`: the
/// map is built as a `serde_json::Value` and written by its `Display`, which
/// is compact. serde_json's default `Map` is a `BTreeMap` (its
/// `preserve_order` feature is off in this build), so the keys come out in
/// sorted order, `demo` then `text`; the text is escaped as a JSON string and
/// the flag written as `true` or `false`.
#[verifier::external_body]
fn json_popup_object(text: &str, demo: bool) -> (state: String)
    ensures
        state@ == popup_state(text@, demo),
{
    let mut object = serde_json::Map::new();
    object.insert("text".to_string(), serde_json::Value::String(text.to_string()));
    object.insert("demo".to_string(), serde_json::Value::Bool(demo));
    serde_json::Value::Object(object).to_string()
}

/// Writes the popup's state as JSON.
pub fn popup_state_json(text: &str, demo: bool) -> (state: String)
    ensures
        state@ == popup_state(text@, demo),
{
    json_popup_object(text, demo)
}

/// The query string that opens the translation popup on this text.
pub fn translation_popup_query(text: &str, demo: bool) -> (query: String)
    ensures
        query@ == popup_query(text@, demo),
{
    let state = popup_state_json(text, demo);
    let encoded = url_encode(state.as_str());
    let mut query = String::from_str("mode=translation&state=");
    query.append(encoded.as_str());
    query
}

/// The page of the OCR overlay window, with its JSON state in the query.
pub fn overlay_page(state: &str) -> (page: String)
    ensures
        page@ == "index.html?mode=overlay&state="@ + percent_encode(encode_utf8(state@)),
{
    let encoded = url_encode(state);
    let mut page = String::from_str("index.html?mode=overlay&state=");
    page.append(encoded.as_str());
    page
}

/// The page of a new translation popup window, with its query.
pub fn popup_page(query: &str) -> (page: String)
    ensures
        page@ == "index.html?"@ + query@,
{
    let mut page = String::from_str("index.html?");
    page.append(query);
    page
}

/// Checks that an OCR region has the geometry a popup is placed by: a polygon
/// of at least three points on a captured image that is not empty.
pub fn check_popup_region(point_count: usize, image_width: u32, image_height: u32) -> (r: Result<
    (),
    String,
>)
    ensures
        r is Ok <==> (point_count >= 3 && image_width != 0 && image_height != 0),
        r matches Err(message) ==> message@ == "The selected OCR region has no usable geometry"@,
{
    if point_count < 3 || image_width == 0 || image_height == 0 {
        return Err(String::from_str("The selected OCR region has no usable geometry"));
    }
    Ok(())
}

/// The value of a hexadecimal digit, in either case.
pub open spec fn hex_digit_value(c: char) -> int {
    if '0' <= c && c <= '9' {
        c as int - 48
    } else if 'A' <= c && c <= 'F' {
        c as int - 55
    } else if 'a' <= c && c <= 'f' {
        c as int - 87
    } else {
        0
    }
}

/// Percent-decoding of a text: `%` and two hexadecimal digits stand for a
/// byte, every other character for itself. (A query parser also reads `+` as
/// a space and keeps a malformed `%`; URL encoding writes neither.)
pub open spec fn percent_decode(s: Seq<char>) -> Seq<u8>
    decreases s.len(),
{
    if s.len() == 0 {
        Seq::empty()
    } else if s[0] == '%' && s.len() >= 3 {
        seq![(hex_digit_value(s[1]) * 16 + hex_digit_value(s[2])) as u8] + percent_decode(
            s.subrange(3, s.len() as int),
        )
    } else {
        seq![s[0] as u8] + percent_decode(s.drop_first())
    }
}

proof fn lemma_hex_upper_value(d: int)
    requires
        0 <= d < 16,
    ensures
        hex_digit_value(hex_upper(d)) == d,
        hex_upper(d) != '&' && hex_upper(d) != '=' && hex_upper(d) != '+' && hex_upper(d) != '#',
{
}

proof fn lemma_hex_lower_value(d: int)
    requires
        0 <= d < 16,
    ensures
        hex_digit_value(hex_lower(d)) == d,
{
}

/// URL encoding never writes a character that splits or alters a query
/// value (`&`, `=`, `+`, `#`), and percent-decoding gives the bytes back.
pub proof fn lemma_percent_encoding_round_trip(bytes: Seq<u8>)
    ensures
        percent_decode(percent_encode(bytes)) == bytes,
        forall|i: int|
            0 <= i < percent_encode(bytes).len() ==> {
                let c = #[trigger] percent_encode(bytes)[i];
                c != '&' && c != '=' && c != '+' && c != '#'
            },
    decreases bytes.len(),
{
    if bytes.len() > 0 {
        let b = bytes[0];
        let rest = bytes.drop_first();
        lemma_percent_encoding_round_trip(rest);
        let head = percent_encode_byte(b);
        let tail = percent_encode(rest);
        let e = percent_encode(bytes);
        assert(e == head + tail);
        if is_unreserved(b) {
            assert(e[0] == b as char);
            assert(e.drop_first() =~= tail);
            assert(percent_decode(e) == seq![(b as char) as u8] + percent_decode(tail));
            assert(percent_decode(e) =~= bytes);
        } else {
            lemma_hex_upper_value((b as int) / 16);
            lemma_hex_upper_value((b as int) % 16);
            assert(e.subrange(3, e.len() as int) =~= tail);
            assert(percent_decode(e) =~= bytes);
        }
        assert forall|i: int| 0 <= i < e.len() implies {
            let c = #[trigger] e[i];
            c != '&' && c != '=' && c != '+' && c != '#'
        } by {
            if i >= head.len() {
                assert(e[i] == tail[i - head.len()]);
            }
        }
    }
}

/// The character that a short JSON escape `\c` stands for.
pub open spec fn json_short_escape_value(c: char) -> char {
    if c == 'b' {
        '\x08'
    } else if c == 't' {
        '\t'
    } else if c == 'n' {
        '\n'
    } else if c == 'f' {
        '\x0c'
    } else if c == 'r' {
        '\r'
    } else {
        c
    }
}

/// Reading back the escaped contents of a JSON string.
pub open spec fn json_unescape(s: Seq<char>) -> Seq<char>
    decreases s.len(),
{
    if s.len() == 0 {
        Seq::empty()
    } else if s[0] == '\\' && s.len() >= 6 && s[1] == 'u' {
        seq![
            (hex_digit_value(s[2]) * 4096 + hex_digit_value(s[3]) * 256 + hex_digit_value(s[4])
                * 16 + hex_digit_value(s[5])) as u32 as char,
        ] + json_unescape(s.subrange(6, s.len() as int))
    } else if s[0] == '\\' && s.len() >= 2 {
        seq![json_short_escape_value(s[1])] + json_unescape(s.subrange(2, s.len() as int))
    } else {
        seq![s[0]] + json_unescape(s.drop_first())
    }
}

/// Escaped JSON string contents hold no bare quote and no dangling
/// backslash, read escape by escape as `json_unescape` reads them, so a JSON
/// parser ends the string at the closing quote that follows them.
pub open spec fn no_bare_quote(s: Seq<char>) -> bool
    decreases s.len(),
{
    if s.len() == 0 {
        true
    } else if s[0] == '\\' && s.len() >= 6 && s[1] == 'u' {
        no_bare_quote(s.subrange(6, s.len() as int))
    } else if s[0] == '\\' && s.len() >= 2 {
        no_bare_quote(s.subrange(2, s.len() as int))
    } else {
        s[0] != '"' && s[0] != '\\' && no_bare_quote(s.drop_first())
    }
}

/// Reading back the JSON escape of a text gives the text, and the escape
/// holds no bare quote, so the string literal ends at its closing quote.
pub proof fn lemma_json_escape_round_trip(s: Seq<char>)
    ensures
        json_unescape(json_escape(s)) == s,
        no_bare_quote(json_escape(s)),
    decreases s.len(),
{
    if s.len() > 0 {
        let c = s[0];
        let rest = s.drop_first();
        lemma_json_escape_round_trip(rest);
        let head = json_escape_char(c);
        let tail = json_escape(rest);
        let e = json_escape(s);
        assert(e == head + tail);
        if c == '"' || c == '\\' || c == '\x08' || c == '\t' || c == '\n' || c == '\x0c' || c
            == '\r' {
            assert(e.subrange(2, e.len() as int) =~= tail);
            assert(json_unescape(e) =~= s);
            assert(no_bare_quote(e));
        } else if (c as u32) < 0x20 {
            lemma_hex_lower_value(((c as u32) / 16) as int);
            lemma_hex_lower_value(((c as u32) % 16) as int);
            vstd::utf8::char_u32_cast(c, c as u32);
            assert(e.subrange(6, e.len() as int) =~= tail);
            assert(json_unescape(e) =~= s);
            assert(no_bare_quote(e));
        } else {
            assert(e.drop_first() =~= tail);
            assert(json_unescape(e) =~= s);
            assert(no_bare_quote(e));
        }
    }
}

/// The translation popup's query carries its text intact: the value after
/// `state=` holds no character that would split or alter it, percent-decoding
/// and UTF-8 decoding it give back the popup's JSON state, the `text` string
/// in that state ends at its own closing quote, and it reads back as the text.
pub proof fn lemma_popup_query_preserves_text(text: Seq<char>, demo: bool)
    ensures
        ({
            let prefix = "mode=translation&state="@;
            let query = popup_query(text, demo);
            let value = query.subrange(prefix.len() as int, query.len() as int);
            &&& query.subrange(0, prefix.len() as int) == prefix
            &&& forall|i: int|
                0 <= i < value.len() ==> {
                    let c = #[trigger] value[i];
                    c != '&' && c != '=' && c != '+' && c != '#'
                }
            &&& vstd::utf8::decode_utf8(percent_decode(value)) == popup_state(text, demo)
        }),
        popup_state(text, demo) == "{\"demo\":"@ + (if demo {
            "true"@
        } else {
            "false"@
        }) + ",\"text\":"@ + seq!['"'] + json_escape(text) + seq!['"'] + "}"@,
        no_bare_quote(json_escape(text)),
        json_unescape(json_escape(text)) == text,
{
    let prefix = "mode=translation&state="@;
    let bytes = encode_utf8(popup_state(text, demo));
    let encoded = percent_encode(bytes);
    let query = popup_query(text, demo);
    assert(query == prefix + encoded);
    assert(query.subrange(0, prefix.len() as int) =~= prefix);
    assert(query.subrange(prefix.len() as int, query.len() as int) =~= encoded);
    lemma_percent_encoding_round_trip(bytes);
    vstd::utf8::encode_utf8_decode_utf8(popup_state(text, demo));
    lemma_json_escape_round_trip(text);
    assert(popup_state(text, demo) =~= "{\"demo\":"@ + (if demo {
        "true"@
    } else {
        "false"@
    }) + ",\"text\":"@ + seq!['"'] + json_escape(text) + seq!['"'] + "}"@);
}

} // verus!
