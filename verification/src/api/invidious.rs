//! The Invidious API: request URLs, the reading of its answers, and the
//! rotation to another instance after a failed request. The requests
//! themselves are made by the application.
use vstd::prelude::*;
use crate::api::http::{is_success, HttpStatus, TransportError};
use crate::api::health::{rotated, instance_list, instances, next_index, next_instance};
use crate::db::connection::copy_opt;
use crate::text::{
    chars_eq, chars_of, concat, owned, str_eq, string_of, strip_trailing, strip_trailing_char,
};

verus! {

pub enum InvidiousError {
    BadInstance,
    RequestFailed(String),
    NotFound(String),
    Parse(String),
}

impl InvidiousError {
    /// The text of the error, as it is shown to the user.
    pub open spec fn text(&self) -> Seq<char> {
        match self {
            InvidiousError::BadInstance => "Bad or unreachable Invidious instance"@,
            InvidiousError::RequestFailed(s) => "Request failed: "@ + s@,
            InvidiousError::NotFound(s) => "Video not found: "@ + s@,
            InvidiousError::Parse(s) => "Parse error: "@ + s@,
        }
    }

    pub fn message(&self) -> (r: String)
        ensures
            r@ == self.text(),
    {
        match self {
            InvidiousError::BadInstance => owned("Bad or unreachable Invidious instance"),
            InvidiousError::RequestFailed(s) => concat("Request failed: ", s.as_str()),
            InvidiousError::NotFound(s) => concat("Video not found: ", s.as_str()),
            InvidiousError::Parse(s) => concat("Parse error: ", s.as_str()),
        }
    }

    /// A transport failure: an unreachable or slow instance is a bad
    /// instance, anything else a failed request with the error's text.
    pub fn from_transport(e: &TransportError) -> (r: InvidiousError)
        ensures
            (e.is_connect || e.is_timeout) ==> r is BadInstance,
            !(e.is_connect || e.is_timeout) ==> r == InvidiousError::RequestFailed(e.message),
    {
        if e.is_connect || e.is_timeout {
            InvidiousError::BadInstance
        } else {
            InvidiousError::RequestFailed(e.message.clone())
        }
    }

    /// The errors after which another instance is tried.
    pub open spec fn is_retryable(&self) -> bool {
        self is BadInstance || self is RequestFailed
    }
}

pub struct Video {
    pub video_id: String,
    pub title: String,
    pub author: Option<String>,
    pub view_count: Option<u64>,
    pub length_seconds: Option<u64>,
    pub published_text: Option<String>,
}

pub struct PlaylistVideo {
    pub video_id: String,
    pub title: String,
    pub author: Option<String>,
}

impl Clone for Video {
    fn clone(&self) -> (r: Self)
        ensures
            r == *self,
    {
        Video {
            video_id: self.video_id.clone(),
            title: self.title.clone(),
            author: copy_opt(&self.author),
            view_count: self.view_count,
            length_seconds: self.length_seconds,
            published_text: copy_opt(&self.published_text),
        }
    }
}

impl Clone for PlaylistVideo {
    fn clone(&self) -> (r: Self)
        ensures
            r == *self,
    {
        PlaylistVideo {
            video_id: self.video_id.clone(),
            title: self.title.clone(),
            author: copy_opt(&self.author),
        }
    }
}

pub struct PlaylistDetails {
    pub title: String,
    pub videos: Vec<PlaylistVideo>,
}

/// One stream of a video's details: its URL and media type.
pub struct AdaptiveFormat {
    pub url: String,
    pub mime_type: String,
    pub resolution: Option<String>,
    pub quality: Option<String>,
}

pub struct VideoDetails {
    pub adaptive_formats: Vec<AdaptiveFormat>,
    pub format_streams: Vec<AdaptiveFormat>,
}

/// One item of a search answer: the value of its `type` field, and the
/// video it reads as, if it reads as one.
pub struct SearchItem {
    pub kind: Option<String>,
    pub video: Option<Video>,
}

/// Checks the status of an answer; `not_found_id` is the id that a 404
/// reports as not found (the search has none).
pub fn check_status(status: &HttpStatus, not_found_id: Option<&str>) -> (r: Result<(), InvidiousError>)
    ensures
        r is Ok <==> (is_success(status.code) && !(not_found_id is Some && status.code == 404)),
        r matches Err(InvidiousError::NotFound(id)) ==> (not_found_id matches Some(nf)
            && status.code == 404 && id@ == nf@),
        r matches Err(e) ==> (e is NotFound || e is RequestFailed),
        r matches Err(InvidiousError::RequestFailed(m)) ==> !(not_found_id is Some && status.code == 404)
            && !is_success(status.code) && m@ == "HTTP "@ + status.text@,
{
    if let Some(id) = not_found_id {
        if status.code == 404 {
            return Err(InvidiousError::NotFound(owned(id)));
        }
    }
    if status.code < 200 || status.code > 299 {
        return Err(InvidiousError::RequestFailed(concat("HTTP ", status.text.as_str())));
    }
    Ok(())
}

pub struct InvidiousClient {
    pub base_url: String,
}

/// `- . _ ~`, ASCII letters and digits: the characters that stand for
/// themselves in a query.
pub open spec fn is_unreserved(c: char) -> bool {
    ||| ('A' <= c && c <= 'Z')
    ||| ('a' <= c && c <= 'z')
    ||| ('0' <= c && c <= '9')
    ||| c == '-'
    ||| c == '_'
    ||| c == '.'
    ||| c == '~'
}

pub open spec fn hex_digit(d: nat) -> char {
    seq!['0', '1', '2', '3', '4', '5', '6', '7', '8', '9', 'A', 'B', 'C', 'D', 'E', 'F'][d as int]
}

/// The upper-case hexadecimal digits of `n`, without leading zeros.
pub open spec fn hex(n: nat) -> Seq<char>
    decreases n,
{
    if n < 16 {
        seq![hex_digit(n)]
    } else {
        hex(n / 16).push(hex_digit(n % 16))
    }
}

/// `format!("{:02X}", n)`: the hexadecimal digits, padded to two.
pub open spec fn hex2(n: nat) -> Seq<char> {
    if n < 16 {
        seq!['0', hex_digit(n)]
    } else {
        hex(n)
    }
}

/// How one character of a query is written in a URL.
pub open spec fn encode_char(c: char) -> Seq<char> {
    if is_unreserved(c) {
        seq![c]
    } else if c == ' ' {
        seq!['+']
    } else {
        seq!['%'] + hex2((c as u32) as nat)
    }
}

/// A query written into a URL, one character after the other.
pub open spec fn url_encoded(s: Seq<char>) -> Seq<char>
    decreases s.len(),
{
    if s.len() == 0 {
        Seq::empty()
    } else {
        url_encoded(s.drop_last()) + encode_char(s.last())
    }
}

/// A query made only of unreserved characters is written into a URL as it
/// is.
pub proof fn law_unreserved_text_unchanged(s: Seq<char>)
    requires
        forall|i: int| 0 <= i < s.len() ==> is_unreserved(#[trigger] s[i]),
    ensures
        url_encoded(s) == s,
    decreases s.len(),
{
    if s.len() > 0 {
        assert forall|i: int| 0 <= i < s.drop_last().len() implies is_unreserved(
            #[trigger] s.drop_last()[i],
        ) by {
            assert(s.drop_last()[i] == s[i]);
        }
        law_unreserved_text_unchanged(s.drop_last());
        assert(is_unreserved(s[s.len() - 1]));
        assert(s.drop_last() + seq![s.last()] =~= s);
    }
}


/// The value of a hexadecimal digit (either case); 0 for any other
/// character.
pub open spec fn hex_value(c: char) -> int {
    if '0' <= c && c <= '9' {
        c as int - '0' as int
    } else if 'A' <= c && c <= 'F' {
        c as int - 'A' as int + 10
    } else if 'a' <= c && c <= 'f' {
        c as int - 'a' as int + 10
    } else {
        0
    }
}

/// A query read back from a URL (form decoding): `+` is a space, `%XY`
/// the character with hexadecimal code `XY`, any other character itself.
pub open spec fn url_decoded(t: Seq<char>) -> Seq<char>
    decreases t.len(),
{
    if t.len() == 0 {
        Seq::empty()
    } else if t[0] == '+' {
        seq![' '] + url_decoded(t.skip(1))
    } else if t[0] == '%' && t.len() >= 3 {
        seq![(hex_value(t[1]) * 16 + hex_value(t[2])) as char] + url_decoded(t.skip(3))
    } else {
        seq![t[0]] + url_decoded(t.skip(1))
    }
}

/// The characters an encoded query is made of: the unreserved ones
/// (which include the hexadecimal digits), `+` and `%`.
pub open spec fn in_url_alphabet(c: char) -> bool {
    is_unreserved(c) || c == '+' || c == '%'
}

proof fn lemma_hex_value(d: nat)
    requires
        d < 16,
    ensures
        hex_value(hex_digit(d)) == d,
        is_unreserved(hex_digit(d)),
        ('0' <= hex_digit(d) && hex_digit(d) <= '9') || ('A' <= hex_digit(d) && hex_digit(d) <= 'F'),
{
    let digits = seq!['0', '1', '2', '3', '4', '5', '6', '7', '8', '9', 'A', 'B', 'C', 'D', 'E', 'F'];
    assert(hex_digit(d) == digits[d as int]);
    if d < 10 {
        assert(digits[d as int] as int == '0' as int + d) by {
            if d == 0 {} else if d == 1 {} else if d == 2 {} else if d == 3 {} else if d == 4 {}
            else if d == 5 {} else if d == 6 {} else if d == 7 {} else if d == 8 {} else {}
        }
    } else {
        assert(digits[d as int] as int == 'A' as int + d - 10) by {
            if d == 10 {} else if d == 11 {} else if d == 12 {} else if d == 13 {} else if d == 14 {}
            else {}
        }
    }
}

proof fn lemma_hex_alphabet(n: nat)
    ensures
        forall|i: int| 0 <= i < hex(n).len() ==> is_unreserved(#[trigger] hex(n)[i]),
    decreases n,
{
    if n < 16 {
        lemma_hex_value(n);
    } else {
        lemma_hex_alphabet(n / 16);
        lemma_hex_value(n % 16);
        assert forall|i: int| 0 <= i < hex(n).len() implies is_unreserved(#[trigger] hex(n)[i]) by {
            if i < hex(n / 16).len() {
                assert(hex(n)[i] == hex(n / 16)[i]);
            }
        }
    }
}

proof fn lemma_encode_char_alphabet(c: char)
    ensures
        forall|i: int| 0 <= i < encode_char(c).len() ==> in_url_alphabet(#[trigger] encode_char(c)[i]),
{
    if !is_unreserved(c) && c != ' ' {
        let n = (c as u32) as nat;
        lemma_hex_alphabet(n);
        if n < 16 {
            lemma_hex_value(n);
            lemma_hex_value(0);
        }
        assert forall|i: int| 0 <= i < encode_char(c).len() implies in_url_alphabet(
            #[trigger] encode_char(c)[i],
        ) by {
            if i > 0 {
                assert(encode_char(c)[i] == hex2(n)[i - 1]);
            }
        }
    }
}

/// Every character of an encoded query is unreserved, `+` or `%`.
pub proof fn law_encoded_alphabet(s: Seq<char>)
    ensures
        forall|i: int| 0 <= i < url_encoded(s).len() ==> in_url_alphabet(#[trigger] url_encoded(s)[i]),
    decreases s.len(),
{
    if s.len() > 0 {
        law_encoded_alphabet(s.drop_last());
        lemma_encode_char_alphabet(s.last());
        let a = url_encoded(s.drop_last());
        assert forall|i: int| 0 <= i < url_encoded(s).len() implies in_url_alphabet(
            #[trigger] url_encoded(s)[i],
        ) by {
            if i < a.len() {
                assert(url_encoded(s)[i] == a[i]);
            } else {
                assert(url_encoded(s)[i] == encode_char(s.last())[i - a.len()]);
            }
        }
    }
}

/// An upper-case hexadecimal digit.
pub open spec fn is_upper_hex(c: char) -> bool {
    ('0' <= c && c <= '9') || ('A' <= c && c <= 'F')
}

proof fn lemma_hex_digits(n: nat)
    ensures
        hex(n).len() >= 1,
        forall|i: int| 0 <= i < hex(n).len() ==> is_upper_hex(#[trigger] hex(n)[i]),
    decreases n,
{
    if n < 16 {
        lemma_hex_value(n);
    } else {
        lemma_hex_digits(n / 16);
        lemma_hex_value(n % 16);
        assert forall|i: int| 0 <= i < hex(n).len() implies is_upper_hex(#[trigger] hex(n)[i]) by {
            if i < hex(n / 16).len() {
                assert(hex(n)[i] == hex(n / 16)[i]);
            }
        }
    }
}

proof fn lemma_encode_char_escape(c: char)
    ensures
        forall|j: int| 0 <= j < encode_char(c).len() && #[trigger] encode_char(c)[j] == '%' ==> j == 0
            && encode_char(c).len() >= 3 && is_upper_hex(encode_char(c)[1]) && is_upper_hex(
            encode_char(c)[2],
        ),
{
    if !is_unreserved(c) && c != ' ' {
        let n = (c as u32) as nat;
        let h = hex2(n);
        lemma_hex_digits(n);
        if n < 16 {
            lemma_hex_value(n);
            lemma_hex_value(0);
        } else {
            lemma_hex_digits(n / 16);
            assert(hex(n) == hex(n / 16).push(hex_digit(n % 16)));
        }
        assert(h.len() >= 2);
        assert forall|j: int| 1 <= j < encode_char(c).len() implies is_upper_hex(
            #[trigger] encode_char(c)[j],
        ) by {
            assert(encode_char(c)[j] == h[j - 1]);
        }
    }
}

/// In an encoded query every `%` starts an escape: it is followed by
/// (at least) two upper-case hexadecimal digits. A space is written `+`,
/// and `+` itself `%2B`.
pub proof fn law_escapes_are_hexadecimal(s: Seq<char>)
    ensures
        forall|i: int| 0 <= i < url_encoded(s).len() && #[trigger] url_encoded(s)[i] == '%' ==> i + 2
            < url_encoded(s).len() && is_upper_hex(url_encoded(s)[i + 1]) && is_upper_hex(
            url_encoded(s)[i + 2],
        ),
        encode_char(' ') == seq!['+'],
        encode_char('+') == seq!['%', '2', 'B'],
    decreases s.len(),
{
    reveal_with_fuel(hex, 2);
    assert(hex2(('+' as u32) as nat) == seq!['2', 'B']);
    if s.len() > 0 {
        law_escapes_are_hexadecimal(s.drop_last());
        lemma_encode_char_escape(s.last());
        let a = url_encoded(s.drop_last());
        let c = encode_char(s.last());
        let t = url_encoded(s);
        assert(t == a + c);
        assert forall|i: int| 0 <= i < t.len() && #[trigger] t[i] == '%' implies i + 2 < t.len()
            && is_upper_hex(t[i + 1]) && is_upper_hex(t[i + 2]) by {
            if i < a.len() {
                assert(a[i] == '%');
                assert(t[i + 1] == a[i + 1] && t[i + 2] == a[i + 2]);
            } else {
                assert(c[i - a.len()] == '%');
                assert(t[i + 1] == c[i - a.len() + 1] && t[i + 2] == c[i - a.len() + 2]);
            }
        }
    }
}

/// Encoding, read from the front: the first character's code, then the
/// rest encoded.
proof fn lemma_encoded_front(s: Seq<char>)
    requires
        s.len() > 0,
    ensures
        url_encoded(s) == encode_char(s[0]) + url_encoded(s.skip(1)),
    decreases s.len(),
{
    if s.len() == 1 {
        assert(s.drop_last() =~= Seq::<char>::empty());
        assert(s.skip(1) =~= Seq::<char>::empty());
        assert(url_encoded(s.skip(1)) =~= Seq::<char>::empty());
        assert(encode_char(s[0]) + Seq::<char>::empty() =~= encode_char(s[0]));
    } else {
        let dl = s.drop_last();
        lemma_encoded_front(dl);
        assert(s.skip(1).drop_last() =~= dl.skip(1));
        assert(s.skip(1).last() == s.last());
        assert(dl[0] == s[0]);
        assert(url_encoded(s) =~= encode_char(s[0]) + url_encoded(s.skip(1)));
    }
}

/// An ASCII character's code, followed by more text, reads back as the
/// character followed by that text read back.
proof fn lemma_decode_char(c: char, rest: Seq<char>)
    requires
        (c as u32) < 128,
    ensures
        url_decoded(encode_char(c) + rest) == seq![c] + url_decoded(rest),
{
    let t = encode_char(c) + rest;
    if is_unreserved(c) {
        assert(t[0] == c);
        assert(t.skip(1) =~= rest);
    } else if c == ' ' {
        assert(t[0] == '+');
        assert(t.skip(1) =~= rest);
    } else {
        let n = (c as u32) as nat;
        reveal_with_fuel(hex, 2);
        let hi: nat = n / 16;
        let lo: nat = n % 16;
        lemma_hex_value(hi);
        lemma_hex_value(lo);
        lemma_hex_value(0);
        assert(hex2(n) == seq![hex_digit(hi), hex_digit(lo)]) by {
            if n < 16 {
                assert(hi == 0 && lo == n);
            } else {
                assert(hex(n / 16) == seq![hex_digit(hi)]);
            }
        }
        assert(t[0] == '%');
        assert(t[1] == hex_digit(hi));
        assert(t[2] == hex_digit(lo));
        assert(t.skip(3) =~= rest);
        assert(hi * 16 + lo == n);
        assert(((hex_value(t[1]) * 16 + hex_value(t[2])) as char) == c);
    }
}

/// A query of ASCII characters reads back from its URL form as it was.
pub proof fn law_decoding_gives_back_the_query(s: Seq<char>)
    requires
        forall|i: int| 0 <= i < s.len() ==> (#[trigger] s[i] as u32) < 128,
    ensures
        url_decoded(url_encoded(s)) == s,
    decreases s.len(),
{
    if s.len() == 0 {
        assert(url_encoded(s) =~= Seq::<char>::empty());
    } else {
        lemma_encoded_front(s);
        assert forall|i: int| 0 <= i < s.skip(1).len() implies (#[trigger] s.skip(1)[i] as u32) < 128 by {
            assert(s.skip(1)[i] == s[i + 1]);
        }
        law_decoding_gives_back_the_query(s.skip(1));
        lemma_decode_char(s[0], url_encoded(s.skip(1)));
        assert(seq![s[0]] + s.skip(1) =~= s);
    }
}

fn hex_char(d: u32) -> (r: char)
    requires
        d < 16,
    ensures
        r == hex_digit(d as nat),
{
    let digits = ['0', '1', '2', '3', '4', '5', '6', '7', '8', '9', 'A', 'B', 'C', 'D', 'E', 'F'];
    assert(digits@ =~= seq!['0', '1', '2', '3', '4', '5', '6', '7', '8', '9', 'A', 'B', 'C', 'D', 'E', 'F']);
    digits[d as usize]
}

fn push_hex(out: &mut String, n: u32)
    ensures
        final(out)@ == old(out)@ + hex(n as nat),
    decreases n,
{
    if n < 16 {
        out.push(hex_char(n));
    } else {
        push_hex(out, n / 16);
        out.push(hex_char(n % 16));
    }
}

fn is_unreserved_char(c: char) -> (r: bool)
    ensures
        r == is_unreserved(c),
{
    ('A' <= c && c <= 'Z') || ('a' <= c && c <= 'z') || ('0' <= c && c <= '9') || c == '-'
        || c == '_' || c == '.' || c == '~'
}

/// Writes a query into a URL: unreserved characters stay, a space becomes
/// `+`, any other character becomes `%` and the upper-case hexadecimal of
/// its code point, padded to two digits.
pub fn urlencoding(s: &str) -> (r: String)
    ensures
        r@ == url_encoded(s@),
{
    let v = chars_of(s);
    let mut out = String::new();
    let mut i: usize = 0;
    while i < v.len()
        invariant
            i <= v@.len(),
            v@ == s@,
            out@ == url_encoded(v@.take(i as int)),
        decreases v@.len() - i,
    {
        let c = v[i];
        proof {
            assert(v@.take(i + 1).drop_last() =~= v@.take(i as int));
        }
        if is_unreserved_char(c) {
            out.push(c);
        } else if c == ' ' {
            out.push('+');
        } else {
            out.push('%');
            let n = c as u32;
            if n < 16 {
                out.push('0');
                out.push(hex_char(n));
            } else {
                push_hex(&mut out, n);
            }
        }
        proof {
            assert(out@ =~= url_encoded(v@.take(i as int)) + encode_char(c));
        }
        i = i + 1;
    }
    assert(v@.take(v@.len() as int) =~= v@);
    out
}

impl InvidiousClient {
    /// A client of the instance at `base_url`, kept without its trailing
    /// slashes.
    pub fn new(base_url: &str) -> (r: InvidiousClient)
        ensures
            r.base_url@ == strip_trailing(base_url@, '/'),
    {
        let v = chars_of(base_url);
        let b = strip_trailing_char(&v, '/');
        InvidiousClient { base_url: string_of(&b) }
    }

    pub fn search_url(&self, query: &str) -> (r: String)
        ensures
            r@ == self.base_url@ + "/api/v1/search?q="@ + url_encoded(query@) + "&type=video"@,
    {
        let mut u = concat(self.base_url.as_str(), "/api/v1/search?q=");
        let q = urlencoding(query);
        u.push_str(q.as_str());
        u.push_str("&type=video");
        u
    }

    pub fn playlist_url(&self, playlist_id: &str) -> (r: String)
        ensures
            r@ == self.base_url@ + "/api/v1/playlists/"@ + playlist_id@,
    {
        let mut u = concat(self.base_url.as_str(), "/api/v1/playlists/");
        u.push_str(playlist_id);
        u
    }

    pub fn video_url(&self, video_id: &str) -> (r: String)
        ensures
            r@ == self.base_url@ + "/api/v1/videos/"@ + video_id@,
    {
        let mut u = concat(self.base_url.as_str(), "/api/v1/videos/");
        u.push_str(video_id);
        u
    }
}

/// A search answer item counts when its `type` is `"video"` and it reads as
/// a video.
pub open spec fn keeps(item: SearchItem) -> bool {
    &&& item.kind matches Some(k) && k@ == "video"@
    &&& item.video is Some
}

/// The videos of a search answer, in the order of the answer.
pub open spec fn search_videos(items: Seq<SearchItem>) -> Seq<Video>
    decreases items.len(),
{
    if items.len() == 0 {
        Seq::empty()
    } else {
        let rest = search_videos(items.drop_last());
        if keeps(items.last()) {
            rest.push(items.last().video->0)
        } else {
            rest
        }
    }
}

/// The videos of an answer keep the answer's order: those of an answer
/// made of two parts are those of the first part followed by those of the
/// second; an answer of one item gives its video when its type is
/// `"video"` and it reads as one, and nothing otherwise.
pub proof fn law_search_keeps_answer_order(a: Seq<SearchItem>, b: Seq<SearchItem>, x: SearchItem)
    ensures
        search_videos(a + b) == search_videos(a) + search_videos(b),
        search_videos(seq![x]) == if (x.kind matches Some(k) && k@ == "video"@) && x.video is Some {
            seq![x.video->0]
        } else {
            Seq::<Video>::empty()
        },
    decreases b.len(),
{
    assert(seq![x].drop_last() =~= Seq::<SearchItem>::empty());
    assert(search_videos(Seq::<SearchItem>::empty()) == Seq::<Video>::empty());
    assert(seq![x].last() == x);
    if keeps(x) {
        assert(search_videos(seq![x]) == Seq::<Video>::empty().push(x.video->0));
        assert(Seq::<Video>::empty().push(x.video->0) =~= seq![x.video->0]);
    }
    if b.len() == 0 {
        assert(a + b =~= a);
        assert(search_videos(a) + Seq::<Video>::empty() =~= search_videos(a));
    } else {
        law_search_keeps_answer_order(a, b.drop_last(), x);
        assert((a + b).drop_last() =~= a + b.drop_last());
        assert((a + b).last() == b.last());
        if keeps(b.last()) {
            assert(search_videos(a) + search_videos(b.drop_last()).push(b.last().video->0) =~= (search_videos(
                a,
            ) + search_videos(b.drop_last())).push(b.last().video->0));
        }
    }
}

/// Of two kept items of an answer, the video of the earlier one comes
/// first in the result.
pub proof fn law_search_results_in_answer_order(items: Seq<SearchItem>, i: int, j: int)
    requires
        0 <= i < j < items.len(),
        keeps(items[i]),
        keeps(items[j]),
    ensures
        exists|p: int, q: int|
            0 <= p < q < search_videos(items).len() && search_videos(items)[p] == items[i].video->0
                && search_videos(items)[q] == items[j].video->0,
{
    let x = items[i];
    let y = items[j];
    let a = items.take(i);
    let m = items.subrange(i + 1, j);
    let c = items.skip(j + 1);
    assert(items =~= a + seq![x] + m + seq![y] + c);
    law_search_keeps_answer_order(a, seq![x], x);
    law_search_keeps_answer_order(a + seq![x], m, x);
    law_search_keeps_answer_order(a + seq![x] + m, seq![y], y);
    law_search_keeps_answer_order(a + seq![x] + m + seq![y], c, y);
    let sa = search_videos(a);
    let sm = search_videos(m);
    let p = sa.len() as int;
    let q = p + 1 + sm.len();
    let r = search_videos(items);
    assert(r == sa + seq![x.video->0] + sm + seq![y.video->0] + search_videos(c));
    assert(r[p] == x.video->0);
    assert(r[q] == y.video->0);
}

/// Keeps, in order, the items of a search answer whose type is `"video"`
/// and that read as videos.
pub fn select_videos(items: Vec<SearchItem>) -> (r: Vec<Video>)
    ensures
        r@ == search_videos(items@),
{
    let ghost all = items@;
    let mut items = items;
    let mut out: Vec<Video> = Vec::new();
    let video_kind = chars_of("video");
    while items.len() > 0
        invariant
            items@.len() <= all.len(),
            items@ == all.skip(all.len() - items@.len()),
            out@ == search_videos(all.take(all.len() - items@.len())),
            video_kind@ == "video"@,
        decreases items@.len(),
    {
        let ghost k = all.len() - items@.len();
        let it = items.remove(0);
        proof {
            assert(all.take(k + 1).drop_last() =~= all.take(k));
            assert(all.take(k + 1).last() == it);
            assert(items@ =~= all.skip(all.len() - items@.len()));
        }
        let keep = match &it.kind {
            Some(kind) => {
                let kc = chars_of(kind.as_str());
                chars_eq(&kc, &video_kind) && it.video.is_some()
            },
            None => false,
        };
        if keep {
            let v = it.video.unwrap();
            out.push(v);
        }
    }
    assert(all.take(all.len() as int) =~= all);
    out
}

/// The stream to play from a video's details: the first of its combined
/// streams, else the first of its adaptive ones, else the video is not
/// found.
pub fn choose_stream_url(details: &VideoDetails, video_id: &str) -> (r: Result<String, InvidiousError>)
    ensures
        details.format_streams@.len() > 0 ==> r == Ok::<String, InvidiousError>(details.format_streams@[0].url),
        details.format_streams@.len() == 0 && details.adaptive_formats@.len() > 0
            ==> r == Ok::<String, InvidiousError>(details.adaptive_formats@[0].url),
        details.format_streams@.len() == 0 && details.adaptive_formats@.len() == 0
            ==> (r matches Err(InvidiousError::NotFound(id)) && id@ == video_id@),
{
    if details.format_streams.len() > 0 {
        return Ok(details.format_streams[0].url.clone());
    }
    if details.adaptive_formats.len() > 0 {
        return Ok(details.adaptive_formats[0].url.clone());
    }
    Err(InvidiousError::NotFound(owned(video_id)))
}

/// The retry loop of a request to Invidious: it starts at the configured
/// instance and, after each retryable failure, moves to the next instance,
/// at most as many times as there are instances.
pub struct InstanceRetry {
    pub origin: String,
    pub current: String,
    pub attempts: usize,
}

impl InstanceRetry {
    /// At most one round of retries was made, and the current instance is
    /// the one the rotation reaches from the configured one after as many
    /// steps as there were retries.
    pub open spec fn wf(&self) -> bool {
        &&& self.attempts <= instance_list().len()
        &&& self.current@ == rotated(self.origin@, self.attempts as nat)
    }

    pub fn new(api_url: &str) -> (r: InstanceRetry)
        ensures
            r.origin@ == api_url@,
            r.current@ == api_url@,
            r.attempts == 0,
            r.wf(),
    {
        InstanceRetry { origin: owned(api_url), current: owned(api_url), attempts: 0 }
    }

    /// After a failed request: `true` to retry on the next instance (which
    /// `current` then names), `false` to give up and report `err`.
    pub fn on_error(&mut self, err: &InvidiousError) -> (retry: bool)
        requires
            old(self).wf(),
        ensures
            final(self).wf(),
            retry == (err.is_retryable() && old(self).attempts < instance_list().len()),
            retry ==> final(self).current@ == instance_list()[next_index(old(self).current@)]
                && final(self).attempts == old(self).attempts + 1
                && final(self).origin == old(self).origin,
            !retry ==> *final(self) == *old(self),
    {
        let retryable = match err {
            InvidiousError::BadInstance => true,
            InvidiousError::RequestFailed(_) => true,
            _ => false,
        };
        let n = instances().len();
        if retryable && self.attempts < n {
            let next = next_instance(self.current.as_str());
            self.current = owned(next);
            self.attempts = self.attempts + 1;
            true
        } else {
            false
        }
    }

    /// The instance to remember after a success, when it is not the one the
    /// settings name.
    pub fn switched_instance(&self) -> (r: Option<String>)
        ensures
            r is Some <==> self.current@ != self.origin@,
            r matches Some(u) ==> u@ == self.current@,
    {
        if str_eq(self.current.as_str(), self.origin.as_str()) {
            None
        } else {
            Some(self.current.clone())
        }
    }
}

} // verus!
