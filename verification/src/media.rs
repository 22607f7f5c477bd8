//! The media type of an image file and the `data:` URL that shows its bytes.

use vstd::prelude::*;
use vstd::string::*;
use vstd::std_specs::iter::IteratorSpec;
use base64::Engine;

verus! {

/// The standard base64 text, with padding, of a run of bytes: what
/// `base64`'s `STANDARD` engine encodes them to.
pub uninterp spec fn base64_standard(bytes: Seq<u8>) -> Seq<char>;

/// The bytes that a text stands for in standard base64 with padding, or
/// `None` where the `base64` crate's `STANDARD` engine rejects the text.
pub uninterp spec fn base64_standard_decoded(text: Seq<char>) -> Option<Seq<u8>>;

/// The error of the `base64` crate's decoder. It is carried through unread.
#[verifier::external_type_specification]
#[verifier::external_body]
pub struct ExDecodeError(base64::DecodeError);

/// A character of padded standard base64: a letter, a digit, `+`, `/` or `=`.
pub open spec fn base64_symbol(c: char) -> bool {
    ||| 'A' <= c <= 'Z'
    ||| 'a' <= c <= 'z'
    ||| '0' <= c <= '9'
    ||| c == '+'
    ||| c == '/'
    ||| c == '='
}

/// The length of the padded base64 text of `n` bytes.
pub open spec fn encoded_len(n: nat) -> nat {
    4 * ((n + 2) / 3)
}

/// Whether the base64 text of `n` bytes can be allocated.
pub open spec fn encodable(n: nat) -> bool {
    encoded_len(n) <= isize::MAX
}

/// No character of `s` is a comma.
pub open spec fn comma_free(s: Seq<char>) -> bool {
    forall|i: int| 0 <= i < s.len() ==> s[i] != ','
}

/// The media type that goes with a file extension. The extension is
/// compared as it stands, so `PNG` is no known extension.
pub open spec fn media_type(ext: Option<Seq<char>>) -> Seq<char> {
    match ext {
        Some(e) => if e == "png"@ {
            "image/png"@
        } else if e == "jpg"@ || e == "jpeg"@ {
            "image/jpeg"@
        } else if e == "webp"@ {
            "image/webp"@
        } else {
            "application/octet-stream"@
        },
        None => "application/octet-stream"@,
    }
}

/// The URL that carries `payload` as base64 data of type `mime`.
pub open spec fn data_url_text(mime: Seq<char>, payload: Seq<char>) -> Seq<char> {
    "data:"@ + mime + ";base64,"@ + payload
}

/// The index of the first comma of `s` at or after `from`; the length of
/// `s` where there is none.
pub open spec fn next_comma(s: Seq<char>, from: int) -> int
    decreases s.len() - from,
{
    if from < 0 || from >= s.len() {
        s.len() as int
    } else if s[from] == ',' {
        from
    } else {
        next_comma(s, from + 1)
    }
}

/// What stands between the first comma of `s` and the second, or the end
/// where there is no second; `None` where `s` has no comma at all.
pub open spec fn payload_text(s: Seq<char>) -> Option<Seq<char>> {
    let first = next_comma(s, 0);
    if first >= s.len() {
        None
    } else {
        Some(s.subrange(first + 1, next_comma(s, first + 1)))
    }
}

/// Encodes with `Engine::encode` of `base64::engine::general_purpose::STANDARD`.
/// Trusted: the result is the named standard encoding of the bytes, and
/// holds only characters of the standard alphabet and the padding sign.
/// The call panics where the encoded length overflows; the caller rules
/// that out.
#[verifier::external_body]
fn base64_encode(bytes: &[u8]) -> (text: String)
    requires
        encodable(bytes@.len()),
    ensures
        text@ == base64_standard(bytes@),
        forall|i: int| 0 <= i < text@.len() ==> base64_symbol(#[trigger] text@[i]),
{
    base64::engine::general_purpose::STANDARD.encode(bytes)
}

/// Decodes with `Engine::decode` of `base64::engine::general_purpose::STANDARD`.
/// Trusted: the outcome is the named decoding of the text, an error exactly
/// where that is `None`.
#[verifier::external_body]
fn base64_decode(text: &str) -> (decoded: Result<Vec<u8>, base64::DecodeError>)
    ensures
        match decoded {
            Ok(bytes) => base64_standard_decoded(text@) == Some(bytes@),
            Err(_) => base64_standard_decoded(text@) is None,
        },
{
    base64::engine::general_purpose::STANDARD.decode(text)
}

/// Whether the base64 text of `len` bytes can be allocated.
pub fn is_encodable(len: usize) -> (can: bool)
    ensures
        can == encodable(len as nat),
{
    let chunks: u128 = (len as u128 + 2) / 3;
    4 * chunks <= isize::MAX as u128
}

/// Whether two texts are the same.
pub fn same_text(a: &str, b: &str) -> (same: bool)
    ensures
        same == (a@ == b@),
{
    let left = a.to_owned();
    let right = b.to_owned();
    left == right
}

/// The media type for a file extension: `image/png`, `image/jpeg` or
/// `image/webp` for `png`, `jpg`, `jpeg` and `webp`, and
/// `application/octet-stream` for every other extension and for none.
pub fn mime_for_extension(ext: Option<&str>) -> (mime: &'static str)
    ensures
        mime@ == media_type(
            match ext {
                Some(e) => Some(e@),
                None => None,
            },
        ),
{
    match ext {
        Some(e) => {
            if same_text(e, "png") {
                "image/png"
            } else if same_text(e, "jpg") || same_text(e, "jpeg") {
                "image/jpeg"
            } else if same_text(e, "webp") {
                "image/webp"
            } else {
                "application/octet-stream"
            }
        },
        None => "application/octet-stream",
    }
}

/// Puts a media type and a base64 payload into a `data:` URL.
pub fn frame_data_url(mime: &str, payload: &str) -> (url: String)
    ensures
        url@ == data_url_text(mime@, payload@),
{
    let mut url = "data:".to_owned();
    url.append(mime);
    url.append(";base64,");
    url.append(payload);
    url
}

/// The `data:` URL of `bytes` under the media type `mime`.
pub fn data_url(mime: &str, bytes: &[u8]) -> (url: String)
    requires
        encodable(bytes@.len()),
    ensures
        url@ == data_url_text(mime@, base64_standard(bytes@)),
        comma_free(base64_standard(bytes@)),
        comma_free(mime@) ==> payload_text(url@) == Some(base64_standard(bytes@)),
{
    let payload = base64_encode(bytes);
    proof {
        if comma_free(mime@) {
            lemma_payload_round_trip(mime@, payload@);
        }
    }
    frame_data_url(mime, payload.as_str())
}

/// The `data:` URL of the bytes of a file with the given extension.
pub fn image_data_url(ext: Option<&str>, bytes: &[u8]) -> (url: String)
    requires
        encodable(bytes@.len()),
    ensures
        url@ == data_url_text(
            media_type(
                match ext {
                    Some(e) => Some(e@),
                    None => None,
                },
            ),
            base64_standard(bytes@),
        ),
        payload_text(url@) == Some(base64_standard(bytes@)),
{
    proof {
        lemma_media_type_comma_free(
            match ext {
                Some(e) => Some(e@),
                None => None,
            },
        );
    }
    data_url(mime_for_extension(ext), bytes)
}

/// From `from` on, `s` has no comma before `to`.
proof fn lemma_next_comma_skip(s: Seq<char>, from: int, to: int)
    requires
        0 <= from <= to <= s.len(),
        forall|k: int| from <= k < to ==> s[k] != ',',
    ensures
        next_comma(s, from) == next_comma(s, to),
    decreases to - from,
{
    if from < to {
        lemma_next_comma_skip(s, from + 1, to);
    }
}

/// The payload that was framed is the payload that is read back: of a URL
/// made from a media type and a payload without commas, the payload is
/// that payload.
pub proof fn lemma_payload_round_trip(mime: Seq<char>, payload: Seq<char>)
    requires
        comma_free(mime),
        comma_free(payload),
    ensures
        payload_text(data_url_text(mime, payload)) == Some(payload),
{
    reveal_strlit("data:");
    reveal_strlit(";base64,");
    let url = data_url_text(mime, payload);
    let head = "data:"@ + mime;
    let first: int = head.len() as int + 7;
    assert(url.len() == first + 1 + payload.len());
    assert forall|k: int| 0 <= k < first implies url[k] != ',' by {
        if k < 5 {
            assert(url[k] == "data:"@[k]);
        } else if k < head.len() {
            assert(url[k] == mime[k - 5]);
        } else {
            assert(url[k] == ";base64,"@[k - head.len()]);
        }
    }
    assert(url[first] == ";base64,"@[7]);
    lemma_next_comma_skip(url, 0, first);
    assert forall|k: int| first + 1 <= k < url.len() implies url[k] != ',' by {
        assert(url[k] == payload[k - first - 1]);
    }
    lemma_next_comma_skip(url, first + 1, url.len() as int);
    assert(url.subrange(first + 1, url.len() as int) =~= payload);
}

/// From `from` on, the next comma is a comma, or the end of the text, and
/// no comma stands before it.
pub proof fn lemma_next_comma(s: Seq<char>, from: int)
    requires
        0 <= from <= s.len(),
    ensures
        from <= next_comma(s, from) <= s.len(),
        next_comma(s, from) < s.len() ==> s[next_comma(s, from)] == ',',
        forall|k: int| from <= k < next_comma(s, from) ==> s[k] != ',',
    decreases s.len() - from,
{
    if from < s.len() && s[from] != ',' {
        lemma_next_comma(s, from + 1);
    }
}

/// The payload of a text holds no comma.
pub proof fn lemma_payload_comma_free(s: Seq<char>)
    ensures
        payload_text(s) matches Some(p) ==> comma_free(p),
{
    lemma_next_comma(s, 0);
    let first = next_comma(s, 0);
    if first < s.len() {
        lemma_next_comma(s, first + 1);
    }
}

/// No media type that goes with an extension holds a comma.
pub proof fn lemma_media_type_comma_free(ext: Option<Seq<char>>)
    ensures
        comma_free(media_type(ext)),
{
    reveal_strlit("image/png");
    reveal_strlit("image/jpeg");
    reveal_strlit("image/webp");
    reveal_strlit("application/octet-stream");
}

/// The payload of a URL: the text after its first comma, up to the next
/// comma or the end. `None` where the URL has no comma.
pub fn payload_of(url: &str) -> (payload: Option<&str>)
    ensures
        match payload {
            Some(p) => payload_text(url@) == Some(p@),
            None => payload_text(url@) is None,
        },
{
    broadcast use vstd::string::group_string_axioms;

    let total = url.unicode_len();
    let mut it = url.chars();
    let mut n: usize = 0;
    let mut first: Option<usize> = None;
    let mut second: Option<usize> = None;
    let ghost mut seen: Seq<char> = Seq::empty();
    assert(seen + it.remaining() =~= url@);
    while second.is_none()
        invariant
            seen + it.remaining() == url@,
            seen.len() == n,
            total == url@.len(),
            it.obeys_prophetic_iter_laws(),
            first is None ==> second is None && forall|k: int| 0 <= k < n ==> url@[k] != ',',
            first matches Some(i) ==> {
                &&& i < n
                &&& next_comma(url@, 0) == i
                &&& second is None ==> forall|k: int| i < k < n ==> url@[k] != ','
                &&& second matches Some(j) ==> i < j < total && next_comma(url@, i + 1) == j
            },
        ensures
            total == url@.len(),
            first is None ==> forall|k: int| 0 <= k < total ==> url@[k] != ',',
            first matches Some(i) ==> {
                &&& i < total
                &&& next_comma(url@, 0) == i
                &&& second is None ==> next_comma(url@, i + 1) == total
                &&& second matches Some(j) ==> i < j < total && next_comma(url@, i + 1) == j
            },
        decreases total - n,
    {
        match it.next() {
            Some(c) => {
                proof {
                    seen = seen.push(c);
                    assert(seen + it.remaining() =~= url@);
                    assert(url@[n as int] == c);
                }
                if c == ',' {
                    match first {
                        None => {
                            proof {
                                lemma_next_comma_skip(url@, 0, n as int);
                            }
                            first = Some(n);
                        },
                        Some(i) => {
                            proof {
                                lemma_next_comma_skip(url@, i + 1, n as int);
                            }
                            second = Some(n);
                        },
                    }
                }
                n = n + 1;
            },
            None => {
                proof {
                    assert(n == total);
                    if let Some(i) = first {
                        lemma_next_comma_skip(url@, i + 1, total as int);
                    }
                }
                break ;
            },
        }
    }
    match first {
        None => {
            proof {
                lemma_next_comma_skip(url@, 0, total as int);
            }
            None
        },
        Some(i) => {
            let end: usize = match second {
                Some(j) => j,
                None => total,
            };
            Some(url.substring_char(i + 1, end))
        },
    }
}

/// The bytes that a base64 payload stands for; `None` where the payload is
/// no standard base64.
pub fn payload_bytes_of(payload: &str) -> (bytes: Option<Vec<u8>>)
    ensures
        match bytes {
            Some(b) => base64_standard_decoded(payload@) == Some(b@),
            None => base64_standard_decoded(payload@) is None,
        },
{
    match base64_decode(payload) {
        Ok(b) => Some(b),
        Err(_) => None,
    }
}

} // verus!
