//! Request headers, and the settings that the daemon passes in them.

use crate::bytes::append_text;
use crate::bytes::encoding_splits;
use crate::text::ascii_lower;
use crate::text::equals_ignoring_case;
use crate::text::optional_string;
use vstd::prelude::*;
use vstd::utf8::decode_utf8;
use vstd::utf8::decode_utf8_encode_utf8;
use vstd::utf8::encode_utf8;
use vstd::utf8::valid_utf8;

verus! {

/// The header that carries the API key.
pub const API_KEY_HEADER: &'static str = "x-stt-secret-mistral_api_key";

/// The header that redirects requests to another upstream. It is not a declared
/// option, so the daemon never sends it in production.
pub const BASE_URL_HEADER: &'static str = "x-stt-option-base_url";

/// The header that names the model.
pub const MODEL_HEADER: &'static str = "x-stt-model";

/// The upstream where no header names another.
pub const DEFAULT_BASE_URL: &'static str = "https://api.mistral.ai";

/// A header list as names and values.
pub open spec fn header_list(entries: Seq<(String, Vec<u8>)>) -> Seq<(Seq<char>, Seq<u8>)> {
    entries.map_values(|e: (String, Vec<u8>)| (e.0@, e.1@))
}

/// The value of the first header of a name, whatever the case of its letters.
pub open spec fn header_bytes(list: Seq<(Seq<char>, Seq<u8>)>, want: Seq<char>) -> Option<Seq<u8>>
    decreases list.len(),
{
    if list.len() == 0 {
        None
    } else if ascii_lower(list.first().0) == ascii_lower(want) {
        Some(list.first().1)
    } else {
        header_bytes(list.drop_first(), want)
    }
}

/// What `String::from_utf8_lossy` makes of bytes that are no UTF-8.
pub uninterp spec fn repaired_text(b: Seq<u8>) -> Seq<char>;

/// Bytes as text: UTF-8 is decoded, anything else repaired.
pub open spec fn lossy_text(b: Seq<u8>) -> Seq<char> {
    if valid_utf8(b) {
        decode_utf8(b)
    } else {
        repaired_text(b)
    }
}

/// Calls `String::from_utf8_lossy`. UTF-8 is decoded; what replaces bytes that
/// are no UTF-8 depends on the bytes alone, and no more is said of it.
#[verifier::external_body]
pub(crate) fn decode_lossy(b: &[u8]) -> (r: String)
    ensures
        valid_utf8(b@) ==> r@ == decode_utf8(b@),
        !valid_utf8(b@) ==> r@ == repaired_text(b@),
{
    String::from_utf8_lossy(b).into_owned()
}

/// The text of the first header of a name.
pub open spec fn header_text(list: Seq<(Seq<char>, Seq<u8>)>, want: Seq<char>) -> Option<
    Seq<char>,
> {
    match header_bytes(list, want) {
        Some(b) => Some(lossy_text(b)),
        None => None,
    }
}

/// Case-insensitive header lookup over a `(name, value)` list.
#[must_use]
pub fn header(entries: &[(String, Vec<u8>)], want: &str) -> (r: Option<String>)
    ensures
        optional_string(r) == header_text(header_list(entries@), want@),
{
    let ghost list = header_list(entries@);
    let mut i: usize = 0;
    proof {
        assert(list.skip(0) =~= list);
    }
    while i < entries.len()
        invariant
            list == header_list(entries@),
            i <= entries@.len(),
            header_bytes(list.skip(i as int), want@) == header_bytes(list, want@),
        decreases entries@.len() - i,
    {
        proof {
            assert(list.skip(i as int).first() == list[i as int]);
            assert(list.skip(i as int).drop_first() =~= list.skip(i + 1));
        }
        if equals_ignoring_case(entries[i].0.as_str(), want) {
            return Some(decode_lossy(entries[i].1.as_slice()));
        }
        i += 1;
    }
    None
}

/// What the daemon sets in the headers of a request or a session. The model may
/// be named elsewhere, so a missing one is left to the caller.
pub struct Settings {
    pub api_key: String,
    pub base_url: String,
    pub model: Option<String>,
}

/// Settings as texts.
pub struct SettingsModel {
    pub api_key: Seq<char>,
    pub base_url: Seq<char>,
    pub model: Option<Seq<char>>,
}

impl View for Settings {
    type V = SettingsModel;

    open spec fn view(&self) -> SettingsModel {
        SettingsModel {
            api_key: self.api_key@,
            base_url: self.base_url@,
            model: optional_string(self.model),
        }
    }
}

/// A text, or another where there is none.
pub open spec fn text_or(text: Option<Seq<char>>, default: Seq<char>) -> Seq<char> {
    match text {
        Some(t) => t,
        None => default,
    }
}

/// The settings in a header list: there are some exactly where there is an API
/// key.
pub open spec fn settings_in(list: Seq<(Seq<char>, Seq<u8>)>) -> Option<SettingsModel> {
    match header_text(list, API_KEY_HEADER@) {
        Some(api_key) => Some(
            SettingsModel {
                api_key,
                base_url: text_or(header_text(list, BASE_URL_HEADER@), DEFAULT_BASE_URL@),
                model: header_text(list, MODEL_HEADER@),
            },
        ),
        None => None,
    }
}

/// A text, or `default` where there is none.
pub(crate) fn or_default(text: Option<String>, default: &str) -> (r: String)
    ensures
        r@ == text_or(optional_string(text), default@),
{
    match text {
        Some(t) => t,
        None => default.to_string(),
    }
}

/// Read the injected secret and option headers: nothing where the API key is
/// missing.
pub fn settings(entries: &[(String, Vec<u8>)]) -> (r: Option<Settings>)
    ensures
        match r {
            Some(s) => settings_in(header_list(entries@)) == Some(s@),
            None => settings_in(header_list(entries@)) is None,
        },
{
    match header(entries, API_KEY_HEADER) {
        Some(api_key) => Some(
            Settings {
                api_key,
                base_url: or_default(header(entries, BASE_URL_HEADER), DEFAULT_BASE_URL),
                model: header(entries, MODEL_HEADER),
            },
        ),
        None => None,
    }
}

/// The header that shows Mistral the API key.
pub open spec fn bearer_header(api_key: Seq<char>) -> (Seq<char>, Seq<u8>) {
    ("authorization"@, encode_utf8("Bearer "@) + encode_utf8(api_key))
}

/// The header that shows Mistral the API key.
pub fn bearer(api_key: &str) -> (r: (String, Vec<u8>))
    ensures
        (r.0@, r.1@) == bearer_header(api_key@),
{
    let mut token: Vec<u8> = Vec::new();
    append_text(&mut token, "Bearer ");
    append_text(&mut token, api_key);
    proof {
        assert(token@ =~= bearer_header(api_key@).1);
    }
    ("authorization".to_string(), token)
}

/// The case of the letters in a header's name makes no difference.
pub proof fn header_name_ignores_case(list: Seq<(Seq<char>, Seq<u8>)>, a: Seq<char>, b: Seq<char>)
    requires
        ascii_lower(a) == ascii_lower(b),
    ensures
        header_bytes(list, a) == header_bytes(list, b),
    decreases list.len(),
{
    if list.len() > 0 {
        header_name_ignores_case(list.drop_first(), a, b);
    }
}

/// A header whose name is in the list is found, and it is the first of that
/// name.
pub proof fn header_is_the_first_match(
    list: Seq<(Seq<char>, Seq<u8>)>,
    want: Seq<char>,
    i: int,
)
    requires
        0 <= i < list.len(),
        ascii_lower(list[i].0) == ascii_lower(want),
        forall|j: int| 0 <= j < i ==> ascii_lower(#[trigger] list[j].0) != ascii_lower(want),
    ensures
        header_bytes(list, want) == Some(list[i].1),
    decreases list.len(),
{
    if i > 0 {
        assert(ascii_lower(list[0].0) != ascii_lower(want));
        assert forall|j: int| 0 <= j < i - 1 implies ascii_lower(
            #[trigger] list.drop_first()[j].0,
        ) != ascii_lower(want) by {
            assert(list.drop_first()[j] == list[j + 1]);
        }
        header_is_the_first_match(list.drop_first(), want, i - 1);
    }
}

/// A header whose name is not in the list is not found.
pub proof fn header_absent(list: Seq<(Seq<char>, Seq<u8>)>, want: Seq<char>)
    requires
        forall|j: int|
            0 <= j < list.len() ==> ascii_lower(#[trigger] list[j].0) != ascii_lower(want),
    ensures
        header_bytes(list, want) is None,
    decreases list.len(),
{
    if list.len() > 0 {
        assert(ascii_lower(list[0].0) != ascii_lower(want));
        assert forall|j: int| 0 <= j < list.len() - 1 implies ascii_lower(
            #[trigger] list.drop_first()[j].0,
        ) != ascii_lower(want) by {
            assert(list.drop_first()[j] == list[j + 1]);
        }
        header_absent(list.drop_first(), want);
    }
}

/// A header is read byte for byte where it is UTF-8; anything else is repaired.
/// There is a text exactly where there is a header.
pub proof fn headers_are_read_byte_for_byte(list: Seq<(Seq<char>, Seq<u8>)>, want: Seq<char>)
    ensures
        header_text(list, want) is Some <==> header_bytes(list, want) is Some,
        header_bytes(list, want) matches Some(b) ==> (valid_utf8(b) ==> encode_utf8(
            header_text(list, want)->0,
        ) == b) && (!valid_utf8(b) ==> header_text(list, want)->0 == repaired_text(b)),
{
    if let Some(b) = header_bytes(list, want) {
        if valid_utf8(b) {
            decode_utf8_encode_utf8(b);
        }
    }
}

/// A list of headers is seen whole, each name and each value.
pub proof fn header_lists_are_seen_whole(entries: Seq<(String, Vec<u8>)>)
    ensures
        header_list(entries).len() == entries.len(),
        forall|i: int|
            0 <= i < entries.len() ==> (#[trigger] header_list(entries)[i]).0 == entries[i].0@
                && header_list(entries)[i].1 == entries[i].1@,
{
}

/// Settings are the texts of three headers: there are some exactly where the
/// key's header is there, the base URL is Mistral's where its header is missing,
/// and the model is left open where its header is.
pub proof fn settings_are_three_headers(list: Seq<(Seq<char>, Seq<u8>)>)
    ensures
        settings_in(list) is Some <==> header_text(list, "x-stt-secret-mistral_api_key"@) is Some,
        settings_in(list) matches Some(s) ==> {
            &&& Some(s.api_key) == header_text(list, "x-stt-secret-mistral_api_key"@)
            &&& match header_text(list, "x-stt-option-base_url"@) {
                Some(base) => s.base_url == base,
                None => s.base_url == "https://api.mistral.ai"@,
            }
            &&& s.model == header_text(list, "x-stt-model"@)
        },
{
}

/// Settings are seen whole.
pub proof fn settings_are_seen_whole(s: Settings)
    ensures
        s@.api_key == s.api_key@,
        s@.base_url == s.base_url@,
        s@.model is Some <==> s.model is Some,
        s.model matches Some(m) ==> s@.model == Some(m@),
{
}

/// The key is shown in an `authorization` header that reads `Bearer`, a space
/// and the key.
pub proof fn the_bearer_header_reads_as_the_key(api_key: Seq<char>)
    ensures
        bearer_header(api_key).0 == "authorization"@,
        bearer_header(api_key).1 == encode_utf8("Bearer "@ + api_key),
{
    encoding_splits("Bearer "@, api_key);
}

} // verus!
