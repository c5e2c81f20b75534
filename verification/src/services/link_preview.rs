//! Link previews: which request is made for an address, and what a page says of itself.

use vstd::prelude::*;
use vstd::utf8::*;

use crate::address;
use crate::numeral::{self, format_u64};
use crate::reply::Reply;
use crate::services::message_capture::PreviewMeta;
use crate::text::{self, joined2};
use crate::utf8;

verus! {

/// The user agent of ordinary requests.
pub const DEFAULT_USER_AGENT: &'static str =
    "Mozilla/5.0 (Macintosh; Intel Mac OS X 10_15_7) AppleWebKit/537.36 (KHTML, like Gecko) Chrome/111.0.0.0 Safari/537.36 Edg/111.0.1661.54";

/// The user agent for hosts that render pages only for crawlers.
pub const TWITTER_USER_AGENT: &'static str =
    "Mozilla/5.0 (compatible; Googlebot/2.1; +http://www.google.com/bot.html)";

/// The hosts that render pages only for crawlers.
pub const TWITTER_SSR_HOSTS: [&'static str; 3] = ["twitter.com", "vxtwitter.com", "fxtwitter.com"];

/// How many redirects are followed.
pub const MAX_REDIRECTS: usize = 10;

/// Seconds that a request may take in all.
pub const CLIENT_TIMEOUT_SECONDS: u64 = 120;

/// How much of a body is looked at for its encoding.
pub const SNIFFED_BYTES: usize = 512;

// ---------------------------------------------------------------------------
// Failures
// ---------------------------------------------------------------------------

/// Why there is no preview.
#[derive(Debug, Clone, Copy, PartialEq, Eq, Structural)]
pub enum LinkPreviewError {
    /// No response arrived.
    Network,
    /// A response arrived that reports no success.
    RequestFailed { status: u16 },
    /// The body of a successful response could not be read.
    BodyRead,
    /// The destination is not admitted.
    PolicyRejected,
}

pub open spec fn preview_failure(error: LinkPreviewError) -> Seq<char> {
    match error {
        LinkPreviewError::Network => "link preview network error"@,
        LinkPreviewError::RequestFailed { status } =>
            "link preview request failed, status code: "@ + numeral::decimal(status as int),
        LinkPreviewError::BodyRead => "failed to read link preview response body"@,
        LinkPreviewError::PolicyRejected => "link preview destination rejected by policy"@,
    }
}

impl LinkPreviewError {
    pub fn message(self) -> (out: String)
        ensures
            out@ == preview_failure(self),
    {
        match self {
            LinkPreviewError::Network => "link preview network error".to_owned(),
            LinkPreviewError::RequestFailed { status } => {
                let number: String = format_u64(status as u64);
                joined2("link preview request failed, status code: ", number.as_str())
            },
            LinkPreviewError::BodyRead => "failed to read link preview response body".to_owned(),
            LinkPreviewError::PolicyRejected =>
                "link preview destination rejected by policy".to_owned(),
        }
    }
}

/// Decides which destinations may be fetched.
pub trait UrlPolicy {
    /// Asked once for every preview, before the request is made.
    fn allows(&self, url: &str) -> Result<(), LinkPreviewError>;
}

/// Admits every destination.
#[derive(Debug, Clone, Copy, PartialEq, Eq, Structural)]
pub struct GoParityUrlPolicy;

impl UrlPolicy for GoParityUrlPolicy {
    fn allows(&self, url: &str) -> (r: Result<(), LinkPreviewError>)
        ensures
            r == Ok::<(), LinkPreviewError>(()),
    {
        Ok(())
    }
}

// ---------------------------------------------------------------------------
// Requests
// ---------------------------------------------------------------------------

/// Where the authority of an address ends.
pub open spec fn authority_end(s: Seq<char>, i: int) -> int
    decreases s.len() - i,
{
    if i < 0 || i >= s.len() {
        s.len() as int
    } else if s[i] == '/' || s[i] == '?' || s[i] == '#' {
        i
    } else {
        authority_end(s, i + 1)
    }
}

/// The host and port of an address as they are written, without user information.
pub open spec fn authority(url: Seq<char>) -> Option<Seq<char>> {
    match text::found(url, "://"@) {
        None => None,
        Some(at) => {
            let rest = url.skip(at + 3);
            let whole = rest.take(authority_end(rest, 0));
            match text::found_last(whole, "@"@) {
                Some(sign) => Some(whole.skip(sign + 1)),
                None => Some(whole),
            }
        },
    }
}

fn raw_authority(raw_url: &str) -> (r: Option<String>)
    ensures
        text::viewed(r) == authority(raw_url@),
{
    proof {
        reveal_strlit("://");
        reveal_strlit("@");
    }
    let at: usize = match text::find(raw_url, "://") {
        Some(at) => at,
        None => {
            return None;
        },
    };
    let rest: String = text::suffix_from(raw_url, at + 3);
    assert(rest@ =~= raw_url@.skip(at + 3));
    let chars: Vec<char> = text::chars_of(rest.as_str());
    let mut end: usize = 0;
    while end < chars.len() && chars[end] != '/' && chars[end] != '?' && chars[end] != '#'
        invariant
            end <= chars.len(),
            chars@ == rest@,
            authority_end(rest@, end as int) == authority_end(rest@, 0),
        decreases chars.len() - end,
    {
        end = end + 1;
    }
    let whole: String = text::string_of(&chars, 0, end);
    assert(whole@ =~= rest@.take(authority_end(rest@, 0)));
    match text::rfind(whole.as_str(), "@") {
        Some(sign) => {
            let host: String = text::suffix_from(whole.as_str(), sign + 1);
            assert(host@ =~= whole@.skip(sign + 1));
            Some(host)
        },
        None => Some(whole),
    }
}

/// A host that renders pages only for crawlers.
pub open spec fn crawled(host: Seq<char>) -> bool {
    host == "twitter.com"@ || host == "vxtwitter.com"@ || host == "fxtwitter.com"@
}

/// The user agent that an address is requested with.
pub open spec fn user_agent(url: Seq<char>) -> Seq<char> {
    match authority(url) {
        Some(host) => if crawled(host) {
            TWITTER_USER_AGENT@
        } else {
            DEFAULT_USER_AGENT@
        },
        None => DEFAULT_USER_AGENT@,
    }
}

/// A request for a page.
#[derive(Debug, PartialEq, Eq)]
pub struct PreviewRequest {
    pub url: String,
    pub user_agent: &'static str,
}

/// The client side of link previews.
#[derive(Debug, Clone, Copy, PartialEq, Eq, Structural)]
pub struct HttpLinkPreviewer;

impl HttpLinkPreviewer {
    /// The user agent that an address is requested with; its host is compared as it is
    /// written.
    pub fn user_agent_for(raw_url: &str) -> (out: &'static str)
        ensures
            out@ == user_agent(raw_url@),
    {
        match raw_authority(raw_url) {
            Some(host) => {
                let host: &str = host.as_str();
                if text::same(host, "twitter.com") || text::same(host, "vxtwitter.com")
                    || text::same(host, "fxtwitter.com") {
                    TWITTER_USER_AGENT
                } else {
                    DEFAULT_USER_AGENT
                }
            },
            None => DEFAULT_USER_AGENT,
        }
    }
}

// ---------------------------------------------------------------------------
// Pages
// ---------------------------------------------------------------------------

/// The most bytes that the parser of pages puts into one buffer: it makes buffers that grow
/// a power of two, keeps their size in 32 bits, and panics beyond that.
pub const LARGEST_BUFFER: u64 = 2_147_483_648;

/// The bytes that the parser writes for a page at most, from `i` on: three for a zero,
/// which it replaces, and one more than it reads for a character reference.
pub open spec fn parsed_size(page: Seq<u8>, i: int) -> int
    decreases page.len() - i,
{
    if i < 0 || i >= page.len() {
        0
    } else {
        (if page[i] == 0 {
            3int
        } else if page[i] == 0x26 {
            2
        } else {
            1
        }) + parsed_size(page, i + 1)
    }
}

proof fn lemma_parsed_size(page: Seq<u8>, i: int)
    requires
        0 <= i <= page.len(),
    ensures
        0 <= parsed_size(page, i) <= 3 * (page.len() - i),
    decreases page.len() - i,
{
    if i < page.len() {
        lemma_parsed_size(page, i + 1);
    }
}

/// Whether no text of a page can outgrow a buffer of the parser.
pub open spec fn parsable(html: Seq<char>) -> bool {
    parsed_size(encode_utf8(html), 0) <= LARGEST_BUFFER
}

fn is_parsable(html: &str) -> (r: bool)
    ensures
        r == parsable(html@),
{
    let page: &[u8] = html.as_bytes();
    let ghost all = page@;
    let mut size: u64 = 0;
    let mut i: usize = 0;
    while i < page.len()
        invariant
            i <= page.len(),
            page@ == all,
            all == encode_utf8(html@),
            size <= LARGEST_BUFFER,
            size + parsed_size(all, i as int) == parsed_size(all, 0),
        decreases page.len() - i,
    {
        let b: u8 = page[i];
        size = size + if b == 0 {
            3
        } else if b == 0x26 {
            2
        } else {
            1
        };
        i = i + 1;
        proof {
            lemma_parsed_size(all, i as int);
        }
        if size > LARGEST_BUFFER {
            return false;
        }
    }
    true
}

/// The selectors that pages are read with. The parser of selectors recurses as deep as a
/// selector nests; none of these does.
pub open spec fn is_page_selector(selector: Seq<char>) -> bool {
    selector == "head > title"@ || selector == "head > meta[property='og:title']"@ || selector
        == "meta"@
}

/// The texts under the elements of a page that `scraper` selects, in document order.
pub uninterp spec fn selected_texts(html: Seq<char>, selector: Seq<char>) -> Seq<Seq<char>>;

/// `scraper::Html::parse_document` and `Html::select`, then `ElementRef::text` of every
/// element: the pieces of text under the selected elements. The result is named and
/// nothing more is claimed. Only pages within what the parser can hold, and the selectors
/// in use here, are admitted.
#[verifier::external_body]
fn select_texts(html: &str, selector: &str) -> (out: Vec<String>)
    requires
        parsable(html@),
        is_page_selector(selector@),
    ensures
        text::texts(out@) == selected_texts(html@, selector@),
{
    let document = scraper::Html::parse_document(html);
    match scraper::Selector::parse(selector) {
        Ok(found) => document.select(&found).flat_map(|e| e.text()).map(str::to_owned).collect(),
        Err(_) => Vec::new(),
    }
}

/// The values of an attribute of the elements of a page that `scraper` selects, in
/// document order, none where an element lacks it.
pub uninterp spec fn selected_attributes(
    html: Seq<char>,
    selector: Seq<char>,
    attribute: Seq<char>,
) -> Seq<Option<Seq<char>>>;

pub open spec fn optional_texts(found: Seq<Option<String>>) -> Seq<Option<Seq<char>>> {
    Seq::new(found.len(), |i: int| text::viewed(found[i]))
}

/// `scraper::Html::parse_document` and `Html::select`, then `Element::attr` of every
/// element. The result is named and nothing more is claimed. Only pages within what the
/// parser can hold, and the selectors in use here, are admitted.
#[verifier::external_body]
fn select_attributes(html: &str, selector: &str, attribute: &str) -> (out: Vec<Option<String>>)
    requires
        parsable(html@),
        is_page_selector(selector@),
    ensures
        optional_texts(out@) == selected_attributes(html@, selector@, attribute@),
{
    let document = scraper::Html::parse_document(html);
    match scraper::Selector::parse(selector) {
        Ok(found) => document.select(&found).map(
            |e| e.value().attr(attribute).map(str::to_owned),
        ).collect(),
        Err(_) => Vec::new(),
    }
}

/// The title of a page, trimmed, and the title that it shares, as it is: the value of the
/// first element that could carry one.
pub open spec fn page_titles(
    titles: Seq<Seq<char>>,
    shared: Seq<Option<Seq<char>>>,
) -> (Seq<char>, Seq<char>) {
    (
        text::trimmed(text::join_spec(titles, Seq::empty())),
        if shared.len() > 0 {
            match shared[0] {
                Some(found) => found,
                None => Seq::empty(),
            }
        } else {
            Seq::empty()
        },
    )
}

/// The titles of a page with these title texts and shared titles.
pub fn preview_meta_from(titles: &Vec<String>, shared: &Vec<Option<String>>) -> (meta: PreviewMeta)
    ensures
        (meta.title@, meta.open_graph_title@) == page_titles(
            text::texts(titles@),
            optional_texts(shared@),
        ),
{
    proof {
        reveal_strlit("");
        assert(""@ =~= Seq::<char>::empty());
    }
    let joined: String = text::join(titles, "");
    let title: String = text::trim(joined.as_str());
    let open_graph_title: String = if shared.len() > 0 {
        match &shared[0] {
            Some(found) => found.clone(),
            None => String::new(),
        }
    } else {
        String::new()
    };
    assert(optional_texts(shared@).len() == shared@.len());
    assert(shared@.len() > 0 ==> optional_texts(shared@)[0] == text::viewed(shared@[0]));
    PreviewMeta { title, open_graph_title }
}

/// The titles of a page.
pub fn parse_preview_meta(html: &str) -> (meta: PreviewMeta)
    requires
        parsable(html@),
    ensures
        (meta.title@, meta.open_graph_title@) == page_titles(
            selected_texts(html@, "head > title"@),
            selected_attributes(html@, "head > meta[property='og:title']"@, "content"@),
        ),
{
    let titles: Vec<String> = select_texts(html, "head > title");
    let shared: Vec<Option<String>> = select_attributes(
        html,
        "head > meta[property='og:title']",
        "content",
    );
    preview_meta_from(&titles, &shared)
}

// ---------------------------------------------------------------------------
// Encodings
// ---------------------------------------------------------------------------

/// White space of a meta element.
pub open spec fn is_meta_space(c: char) -> bool {
    c == ' ' || c == '\t' || c == '\n' || c == '\u{c}' || c == '\r'
}

/// The first place from `i` on that is no white space.
pub open spec fn after_space(s: Seq<char>, i: int) -> int
    decreases s.len() - i,
{
    if i < 0 || i >= s.len() || !is_meta_space(s[i]) {
        i
    } else {
        after_space(s, i + 1)
    }
}

/// The first place from `i` on that holds `c`, or the end.
pub open spec fn place_of(s: Seq<char>, c: char, i: int) -> int
    decreases s.len() - i,
{
    if i < 0 || i >= s.len() {
        s.len() as int
    } else if s[i] == c {
        i
    } else {
        place_of(s, c, i + 1)
    }
}

/// The first place from `i` on that ends a bare value.
pub open spec fn bare_end(s: Seq<char>, i: int) -> int
    decreases s.len() - i,
{
    if i < 0 || i >= s.len() {
        s.len() as int
    } else if s[i] == ';' || is_meta_space(s[i]) {
        i
    } else {
        bare_end(s, i + 1)
    }
}

/// Where the value that starts at `v` lies: in quotes that are closed, or bare.
pub open spec fn value_span(s: Seq<char>, v: int) -> Option<(int, int)> {
    if v >= s.len() {
        None
    } else if s[v] == '\'' || s[v] == '"' {
        let end = place_of(s, s[v], v + 1);
        if end < s.len() {
            Some((v + 1, end))
        } else {
            None
        }
    } else {
        Some((v, bare_end(s, v)))
    }
}

/// Where the value of the first `charset` from `p` on lies that is followed by an equals
/// sign.
pub open spec fn charset_span(s: Seq<char>, p: int) -> Option<(int, int)>
    decreases s.len() - p,
{
    if p < 0 || p + 7 > s.len() {
        None
    } else if !text::matches_at(s, "charset"@, p) {
        charset_span(s, p + 1)
    } else {
        let q = after_space(s, p + 7);
        if q < s.len() && s[q] == '=' {
            value_span(s, after_space(s, q + 1))
        } else {
            charset_span(s, p + 7)
        }
    }
}

/// The charset that the content of a meta element names.
pub open spec fn meta_charset(content: Seq<char>) -> Option<Seq<char>> {
    match charset_span(text::ascii_lower(content), 0) {
        Some((from, to)) => Some(content.subrange(from, to)),
        None => None,
    }
}

fn meta_space(c: char) -> (r: bool)
    ensures
        r == is_meta_space(c),
{
    c == ' ' || c == '\t' || c == '\n' || c == '\u{c}' || c == '\r'
}

fn skip_space(chars: &Vec<char>, from: usize) -> (r: usize)
    requires
        from <= chars@.len(),
    ensures
        r == after_space(chars@, from as int),
        from <= r <= chars@.len(),
{
    let mut i: usize = from;
    while i < chars.len() && meta_space(chars[i])
        invariant
            from <= i <= chars.len(),
            after_space(chars@, i as int) == after_space(chars@, from as int),
        decreases chars.len() - i,
    {
        i = i + 1;
    }
    i
}

fn value_at(chars: &Vec<char>, v: usize) -> (r: Option<(usize, usize)>)
    requires
        v <= chars@.len(),
    ensures
        match r {
            Some((from, to)) => value_span(chars@, v as int) == Some((from as int, to as int))
                && from <= to <= chars@.len(),
            None => value_span(chars@, v as int) is None,
        },
{
    if v >= chars.len() {
        return None;
    }
    let first: char = chars[v];
    if first == '\'' || first == '"' {
        let mut end: usize = v + 1;
        while end < chars.len() && chars[end] != first
            invariant
                v < end <= chars.len(),
                place_of(chars@, first, end as int) == place_of(chars@, first, v + 1),
            decreases chars.len() - end,
        {
            end = end + 1;
        }
        if end < chars.len() {
            Some((v + 1, end))
        } else {
            None
        }
    } else {
        let mut end: usize = v;
        while end < chars.len() && chars[end] != ';' && !meta_space(chars[end])
            invariant
                v <= end <= chars.len(),
                bare_end(chars@, end as int) == bare_end(chars@, v as int),
            decreases chars.len() - end,
        {
            end = end + 1;
        }
        Some((v, end))
    }
}

/// The charset that the content of a meta element names.
pub fn charset_from_meta_content(content: &str) -> (r: Option<String>)
    ensures
        text::viewed(r) == meta_charset(content@),
{
    let lower: String = text::to_ascii_lower(content);
    let shown: Vec<char> = text::chars_of(content);
    let chars: Vec<char> = text::chars_of(lower.as_str());
    let ghost s = text::ascii_lower(content@);
    assert(s.len() == content@.len());
    let word: Vec<char> = text::chars_of("charset");
    proof {
        reveal_strlit("charset");
    }
    let mut p: usize = 0;
    while p < chars.len()
        invariant
            p <= chars.len(),
            chars@ == s,
            s == text::ascii_lower(content@),
            s.len() == content@.len(),
            shown@ == content@,
            word@ == "charset"@,
            word@.len() == 7,
            charset_span(s, p as int) == charset_span(s, 0),
        decreases chars.len() - p,
    {
        let mut k: usize = 0;
        while k < 7 && p < chars.len() && k < chars.len() - p && chars[p + k] == word[k]
            invariant
                p < chars.len(),
                k <= 7,
                k <= chars.len() - p,
                word@.len() == 7,
                forall|j: int| 0 <= j < k ==> chars@[p + j] == #[trigger] word@[j],
            decreases 7 - k,
        {
            k = k + 1;
        }
        if k < 7 {
            assert(!text::matches_at(s, "charset"@, p as int)) by {
                if text::matches_at(s, "charset"@, p as int) {
                    assert(s.subrange(p as int, p + 7)[k as int] == "charset"@[k as int]);
                }
            }
            p = p + 1;
        } else {
            assert(s.subrange(p as int, p + 7) =~= "charset"@) by {
                assert forall|j: int| 0 <= j < 7 implies s.subrange(p as int, p + 7)[j]
                    == "charset"@[j] by {
                    assert(chars@[p + j] == word@[j]);
                }
            }
            let q: usize = skip_space(&chars, p + 7);
            if q < chars.len() && chars[q] == '=' {
                let v: usize = skip_space(&chars, q + 1);
                return match value_at(&chars, v) {
                    Some((from, to)) => Some(text::string_of(&shown, from, to)),
                    None => None,
                };
            }
            p = p + 7;
        }
    }
    None
}

/// What is decided on the encoding of a body.
#[derive(Debug, PartialEq, Eq)]
pub enum SniffedEncoding {
    /// The body is read as UTF-8.
    Raw,
    /// The body is read in the encoding with this label.
    Decode(String),
}

#[verifier::ext_equal]
pub enum Sniffed {
    Raw,
    Decode(Seq<char>),
}

pub open spec fn sniffed(found: Option<SniffedEncoding>) -> Option<Sniffed> {
    match found {
        None => None,
        Some(SniffedEncoding::Raw) => Some(Sniffed::Raw),
        Some(SniffedEncoding::Decode(label)) => Some(Sniffed::Decode(label@)),
    }
}

/// Whether the encoding with a label is UTF-8, none where there is no such encoding.
pub uninterp spec fn label_is_utf8(label: Seq<char>) -> Option<bool>;

/// `encoding_rs::Encoding::for_label`, and whether it gives `UTF_8`. The result is named
/// and nothing more is claimed.
#[verifier::external_body]
fn utf8_label(label: &str) -> (r: Option<bool>)
    ensures
        r == label_is_utf8(label@),
{
    encoding_rs::Encoding::for_label(label.as_bytes()).map(|e| e == encoding_rs::UTF_8)
}

/// What `Encoding::decode_with_bom_removal` reads in the encoding with a label, none where
/// there is no such encoding.
pub uninterp spec fn labelled_text(label: Seq<char>, body: Seq<u8>) -> Option<Seq<char>>;

/// `encoding_rs::Encoding::for_label`, then `Encoding::decode_with_bom_removal` of what it
/// gives. The result is named and nothing more is claimed. A body so large that the buffer
/// for its text cannot be counted is left out.
#[verifier::external_body]
fn decode_labelled(label: &str, body: &[u8]) -> (r: Option<String>)
    requires
        body@.len() <= usize::MAX / 8,
    ensures
        text::viewed(r) == labelled_text(label@, body@),
{
    let encoding = encoding_rs::Encoding::for_label(label.as_bytes())?;
    Some(encoding.decode_with_bom_removal(body).0.into_owned())
}

/// What the byte order mark at the start of a body says.
pub open spec fn bom_label(prefix: Seq<u8>) -> Option<Seq<char>> {
    if prefix.len() >= 3 && prefix[0] == 0xEF && prefix[1] == 0xBB && prefix[2] == 0xBF {
        Some("UTF-8"@)
    } else if prefix.len() >= 2 && prefix[0] == 0xFF && prefix[1] == 0xFE {
        Some("UTF-16LE"@)
    } else if prefix.len() >= 2 && prefix[0] == 0xFE && prefix[1] == 0xFF {
        Some("UTF-16BE"@)
    } else {
        None
    }
}

/// `encoding_rs::Encoding::for_bom`, then `Encoding::name`: the marks of UTF-8, UTF-16LE
/// and UTF-16BE are known.
#[verifier::external_body]
fn bom_name(prefix: &[u8]) -> (r: Option<&'static str>)
    ensures
        match r {
            Some(name) => bom_label(prefix@) == Some(name@),
            None => bom_label(prefix@) is None,
        },
{
    encoding_rs::Encoding::for_bom(prefix).map(|found| found.0.name())
}

/// What a label in a meta element decides, where `known` says whether it is the label of
/// an encoding and whether of UTF-8.
pub open spec fn label_decision(label: Seq<char>, known: Option<bool>) -> Option<Sniffed> {
    match known {
        None => None,
        Some(is_utf8) => if "utf-16"@.is_prefix_of(label) || is_utf8 {
            Some(Sniffed::Raw)
        } else {
            Some(Sniffed::Decode(label))
        },
    }
}

/// What a label in a meta element decides.
pub fn judge_label(label: &str, known: Option<bool>) -> (r: Option<SniffedEncoding>)
    ensures
        sniffed(r) == label_decision(label@, known),
{
    match known {
        None => None,
        Some(is_utf8) => if text::starts_with(label, "utf-16") || is_utf8 {
            Some(SniffedEncoding::Raw)
        } else {
            Some(SniffedEncoding::Decode(label.to_owned()))
        },
    }
}

/// The label as it is looked up.
pub open spec fn plain_label(label: Seq<char>) -> Seq<char> {
    text::ascii_lower(text::trimmed(label))
}

fn encoding_from_meta_label(label: &str) -> (r: Option<SniffedEncoding>)
    ensures
        sniffed(r) == label_decision(plain_label(label@), label_is_utf8(plain_label(label@))),
{
    let trimmed: String = text::trim(label);
    let plain: String = text::to_ascii_lower(trimmed.as_str());
    let known: Option<bool> = utf8_label(plain.as_str());
    judge_label(plain.as_str(), known)
}

/// The label that one meta element names: its `charset`, or else that of its content
/// where it stands for a content type.
pub open spec fn meta_label(
    charset: Option<Seq<char>>,
    http_equiv: Option<Seq<char>>,
    content: Option<Seq<char>>,
) -> Option<Seq<char>> {
    match charset {
        Some(direct) => Some(direct),
        None => match (http_equiv, content) {
            (Some(equiv), Some(content)) => if text::ascii_lower(equiv) == "content-type"@ {
                meta_charset(content)
            } else {
                None
            },
            _ => None,
        },
    }
}

/// The label that one meta element names.
pub fn label_of_meta(
    charset: &Option<String>,
    http_equiv: &Option<String>,
    content: &Option<String>,
) -> (r: Option<String>)
    ensures
        text::viewed(r) == meta_label(
            text::viewed(*charset),
            text::viewed(*http_equiv),
            text::viewed(*content),
        ),
{
    match charset {
        Some(direct) => Some(direct.clone()),
        None => match (http_equiv, content) {
            (Some(equiv), Some(content)) => {
                let lower: String = text::to_ascii_lower(equiv.as_str());
                if text::same(lower.as_str(), "content-type") {
                    charset_from_meta_content(content.as_str())
                } else {
                    None
                }
            },
            _ => None,
        },
    }
}

pub open spec fn entry(found: Seq<Option<Seq<char>>>, i: int) -> Option<Seq<char>> {
    if 0 <= i < found.len() {
        found[i]
    } else {
        None
    }
}

/// What the meta elements from `i` on decide: the first label of an encoding counts.
pub open spec fn metas_decision(
    charsets: Seq<Option<Seq<char>>>,
    equivs: Seq<Option<Seq<char>>>,
    contents: Seq<Option<Seq<char>>>,
    i: int,
) -> Option<Sniffed>
    decreases charsets.len() - i,
{
    if i < 0 || i >= charsets.len() {
        None
    } else {
        let rest = metas_decision(charsets, equivs, contents, i + 1);
        match meta_label(charsets[i], entry(equivs, i), entry(contents, i)) {
            None => rest,
            Some(label) => match label_decision(
                plain_label(label),
                label_is_utf8(plain_label(label)),
            ) {
                Some(decision) => Some(decision),
                None => rest,
            },
        }
    }
}

fn optional_at(found: &Vec<Option<String>>, i: usize) -> (r: Option<String>)
    ensures
        text::viewed(r) == entry(optional_texts(found@), i as int),
{
    assert(optional_texts(found@).len() == found@.len());
    if i < found.len() {
        assert(optional_texts(found@)[i as int] == text::viewed(found@[i as int]));
        match &found[i] {
            Some(value) => Some(value.clone()),
            None => None,
        }
    } else {
        None
    }
}

fn judge_metas(
    charsets: &Vec<Option<String>>,
    equivs: &Vec<Option<String>>,
    contents: &Vec<Option<String>>,
) -> (r: Option<SniffedEncoding>)
    ensures
        sniffed(r) == metas_decision(
            optional_texts(charsets@),
            optional_texts(equivs@),
            optional_texts(contents@),
            0,
        ),
{
    let ghost c = optional_texts(charsets@);
    let ghost e = optional_texts(equivs@);
    let ghost t = optional_texts(contents@);
    let mut i: usize = 0;
    while i < charsets.len()
        invariant
            i <= charsets.len(),
            c == optional_texts(charsets@),
            e == optional_texts(equivs@),
            t == optional_texts(contents@),
            metas_decision(c, e, t, i as int) == metas_decision(c, e, t, 0),
        decreases charsets.len() - i,
    {
        let charset: Option<String> = optional_at(charsets, i);
        let equiv: Option<String> = optional_at(equivs, i);
        let content: Option<String> = optional_at(contents, i);
        match label_of_meta(&charset, &equiv, &content) {
            Some(label) => match encoding_from_meta_label(label.as_str()) {
                Some(decision) => {
                    return Some(decision);
                },
                None => {},
            },
            None => {},
        }
        i = i + 1;
    }
    None
}

/// What the start of a body says of its encoding: its byte order mark, or else its meta
/// elements.
pub open spec fn sniffed_prefix(prefix: Seq<u8>) -> Option<Sniffed> {
    match bom_label(prefix) {
        Some(label) => if label == "UTF-8"@ {
            Some(Sniffed::Raw)
        } else {
            Some(Sniffed::Decode(label))
        },
        None => {
            let html = utf8::lossy_text(prefix);
            metas_decision(
                selected_attributes(html, "meta"@, "charset"@),
                selected_attributes(html, "meta"@, "http-equiv"@),
                selected_attributes(html, "meta"@, "content"@),
                0,
            )
        },
    }
}

/// What the start of a body says of its encoding.
pub fn sniff_encoding(prefix: &[u8]) -> (r: Option<SniffedEncoding>)
    requires
        9 * prefix@.len() <= LARGEST_BUFFER,
    ensures
        sniffed(r) == sniffed_prefix(prefix@),
{
    match bom_name(prefix) {
        Some(name) => {
            if text::same(name, "UTF-8") {
                Some(SniffedEncoding::Raw)
            } else {
                Some(SniffedEncoding::Decode(name.to_owned()))
            }
        },
        None => {
            let html: String = utf8::from_utf8_lossy(prefix);
            proof {
                lemma_parsed_size(encode_utf8(html@), 0);
            }
            let charsets: Vec<Option<String>> = select_attributes(html.as_str(), "meta", "charset");
            let equivs: Vec<Option<String>> = select_attributes(
                html.as_str(),
                "meta",
                "http-equiv",
            );
            let contents: Vec<Option<String>> = select_attributes(html.as_str(), "meta", "content");
            judge_metas(&charsets, &equivs, &contents)
        },
    }
}

/// A content type that is read as text.
pub open spec fn is_textual(content_type: Seq<char>) -> bool {
    text::occurs(content_type, "text"@) || text::occurs(content_type, "json"@) || text::occurs(
        content_type,
        "xml"@,
    ) || text::occurs(content_type, "html"@) || text::occurs(content_type, "java"@)
}

/// What is decided by the content type and the charset that it names: none where the body
/// itself is to be looked at.
pub open spec fn declared_decision(
    content_type: Option<Seq<char>>,
    charset: Option<Seq<char>>,
) -> Option<Sniffed> {
    match content_type {
        None => Some(Sniffed::Raw),
        Some(declared) => if !is_textual(declared) {
            Some(Sniffed::Raw)
        } else {
            match charset {
                None => None,
                Some(charset) => {
                    let label = text::ascii_lower(charset);
                    if text::occurs(label, "utf-8"@) || text::occurs(label, "utf8"@) {
                        Some(Sniffed::Raw)
                    } else {
                        Some(Sniffed::Decode(label))
                    }
                },
            }
        },
    }
}

/// What is decided by the content type and the charset that it names.
pub fn judge_content_type(content_type: Option<&str>, charset: Option<&str>) -> (r: Option<
    SniffedEncoding,
>)
    ensures
        sniffed(r) == declared_decision(
            match content_type {
                Some(declared) => Some(declared@),
                None => None,
            },
            match charset {
                Some(charset) => Some(charset@),
                None => None,
            },
        ),
{
    match content_type {
        None => Some(SniffedEncoding::Raw),
        Some(declared) => {
            if !(text::contains(declared, "text") || text::contains(declared, "json")
                || text::contains(declared, "xml") || text::contains(declared, "html")
                || text::contains(declared, "java")) {
                return Some(SniffedEncoding::Raw);
            }
            match charset {
                None => None,
                Some(charset) => {
                    let label: String = text::to_ascii_lower(charset);
                    if text::contains(label.as_str(), "utf-8") || text::contains(
                        label.as_str(),
                        "utf8",
                    ) {
                        Some(SniffedEncoding::Raw)
                    } else {
                        Some(SniffedEncoding::Decode(label))
                    }
                },
            }
        },
    }
}

/// The charset parameter that `mime` finds in a content type.
pub uninterp spec fn mime_charset(content_type: Seq<char>) -> Option<Seq<char>>;

/// `Mime::from_str`, then `Mime::get_param` of the charset: none where the content type
/// does not parse or names no charset. The result is named and nothing more is claimed.
#[verifier::external_body]
fn charset_param(content_type: &str) -> (r: Option<String>)
    ensures
        text::viewed(r) == mime_charset(content_type@),
{
    let media_type = content_type.parse::<mime::Mime>().ok()?;
    media_type.get_param(mime::CHARSET).map(|charset| charset.as_str().to_owned())
}

/// The text of a body once its encoding is decided: UTF-8 where nothing else is known.
pub open spec fn decided_text(body: Seq<u8>, decision: Option<Sniffed>) -> Seq<char> {
    match decision {
        Some(Sniffed::Decode(label)) => match labelled_text(label, body) {
            Some(decoded) => decoded,
            None => utf8::lossy_text(body),
        },
        _ => utf8::lossy_text(body),
    }
}

/// The text of a body with a content type.
pub open spec fn body_text(body: Seq<u8>, content_type: Option<Seq<char>>) -> Seq<char> {
    let charset = match content_type {
        Some(declared) => mime_charset(declared),
        None => None,
    };
    match declared_decision(content_type, charset) {
        Some(decision) => decided_text(body, Some(decision)),
        None => decided_text(
            body,
            sniffed_prefix(
                body.take(
                    if body.len() < SNIFFED_BYTES {
                        body.len() as int
                    } else {
                        SNIFFED_BYTES as int
                    },
                ),
            ),
        ),
    }
}

fn decode_decided(body: &[u8], decision: &Option<SniffedEncoding>) -> (out: String)
    requires
        body@.len() <= usize::MAX / 8,
    ensures
        out@ == decided_text(body@, sniffed(*decision)),
{
    match decision {
        Some(SniffedEncoding::Decode(label)) => match decode_labelled(label.as_str(), body) {
            Some(decoded) => decoded,
            None => utf8::from_utf8_lossy(body),
        },
        _ => utf8::from_utf8_lossy(body),
    }
}

fn start_of(body: &[u8]) -> (out: Vec<u8>)
    ensures
        out@ == body@.take(
            if body@.len() < SNIFFED_BYTES {
                body@.len() as int
            } else {
                SNIFFED_BYTES as int
            },
        ),
{
    let end: usize = if body.len() < SNIFFED_BYTES {
        body.len()
    } else {
        SNIFFED_BYTES
    };
    let mut out: Vec<u8> = Vec::new();
    let mut i: usize = 0;
    while i < end
        invariant
            i <= end <= body.len(),
            out@ == body@.take(i as int),
        decreases end - i,
    {
        out.push(body[i]);
        i = i + 1;
        assert(out@ =~= body@.take(i as int));
    }
    out
}

/// The text of a body with a content type.
pub fn decode_response_body(body: &[u8], content_type: Option<&str>) -> (out: String)
    requires
        body@.len() <= usize::MAX / 8,
    ensures
        out@ == body_text(
            body@,
            match content_type {
                Some(declared) => Some(declared@),
                None => None,
            },
        ),
{
    let charset: Option<String> = match content_type {
        Some(declared) => charset_param(declared),
        None => None,
    };
    let named: Option<&str> = match &charset {
        Some(charset) => Some(charset.as_str()),
        None => None,
    };
    let declared: Option<SniffedEncoding> = judge_content_type(content_type, named);
    match &declared {
        Some(_) => decode_decided(body, &declared),
        None => {
            let prefix: Vec<u8> = start_of(body);
            let found: Option<SniffedEncoding> = sniff_encoding(prefix.as_slice());
            decode_decided(body, &found)
        },
    }
}

// ---------------------------------------------------------------------------
// Fetching
// ---------------------------------------------------------------------------

/// What is known so far of the page behind an address.
#[derive(Debug, PartialEq, Eq)]
pub struct PageFacts {
    /// What the policy says of the destination, none before it was asked.
    pub allowed: Option<Result<(), LinkPreviewError>>,
    /// The status of the response.
    pub status: Reply<u16>,
    /// The content type and the body of the response.
    pub page: Reply<(Option<String>, Vec<u8>)>,
}

impl PageFacts {
    /// Nothing is known yet.
    pub fn new() -> (r: Self)
        ensures
            r.allowed is None,
            r.status is Pending,
            r.page is Pending,
    {
        PageFacts { allowed: None, status: Reply::Pending, page: Reply::Pending }
    }
}

/// What to do next for the preview of an address.
#[derive(Debug, PartialEq, Eq)]
pub enum FetchStep {
    /// Ask the policy whether this destination may be fetched.
    AskPolicy { url: String },
    Request(PreviewRequest),
    ReadBody,
    Finished(PreviewMeta),
    Failed(LinkPreviewError),
}

#[verifier::ext_equal]
pub enum FetchModel {
    AskPolicy { url: Seq<char> },
    Request { url: Seq<char>, user_agent: Seq<char> },
    ReadBody,
    Finished { title: Seq<char>, open_graph_title: Seq<char> },
    Failed(LinkPreviewError),
}

impl View for FetchStep {
    type V = FetchModel;

    open spec fn view(&self) -> FetchModel {
        match *self {
            FetchStep::AskPolicy { url } => FetchModel::AskPolicy { url: url@ },
            FetchStep::Request(request) => FetchModel::Request {
                url: request.url@,
                user_agent: request.user_agent@,
            },
            FetchStep::ReadBody => FetchModel::ReadBody,
            FetchStep::Finished(meta) => FetchModel::Finished {
                title: meta.title@,
                open_graph_title: meta.open_graph_title@,
            },
            FetchStep::Failed(error) => FetchModel::Failed(error),
        }
    }
}

/// What is made of a page with a content type and a body: its titles, unless its text is
/// too large for the parser.
pub open spec fn read_page(content_type: Option<Seq<char>>, body: Seq<u8>) -> FetchModel {
    let html = body_text(body, content_type);
    if parsable(html) {
        let titles = page_titles(
            selected_texts(html, "head > title"@),
            selected_attributes(html, "head > meta[property='og:title']"@, "content"@),
        );
        FetchModel::Finished { title: titles.0, open_graph_title: titles.1 }
    } else {
        FetchModel::Failed(LinkPreviewError::BodyRead)
    }
}

/// What to do next for an address that reads as `serialized`: one that does not read as an
/// address counts as unreachable, and nothing is requested that the policy rejects.
pub open spec fn fetched(
    raw_url: Seq<char>,
    serialized: Option<Seq<char>>,
    facts: PageFacts,
) -> FetchModel {
    match serialized {
        None => FetchModel::Failed(LinkPreviewError::Network),
        Some(url) => match facts.allowed {
            None => FetchModel::AskPolicy { url },
            Some(Err(error)) => FetchModel::Failed(error),
            Some(Ok(_)) => match facts.status {
                Reply::Pending => FetchModel::Request { url, user_agent: user_agent(raw_url) },
                Reply::Failed => FetchModel::Failed(LinkPreviewError::Network),
                Reply::Got(status) => if status < 200 || status > 299 {
                    FetchModel::Failed(LinkPreviewError::RequestFailed { status })
                } else {
                    match facts.page {
                        Reply::Pending => FetchModel::ReadBody,
                        Reply::Failed => FetchModel::Failed(LinkPreviewError::BodyRead),
                        Reply::Got((content_type, body)) => read_page(
                            text::viewed(content_type),
                            body@,
                        ),
                    }
                },
            },
        },
    }
}

/// Whether the body that was read can be decoded.
pub open spec fn readable_page(facts: PageFacts) -> bool {
    match facts.page {
        Reply::Got((_, body)) => body@.len() <= usize::MAX / 8,
        _ => true,
    }
}

impl HttpLinkPreviewer {
    /// What to do next for an address that reads as `serialized`.
    pub fn fetch_step_with(raw_url: &str, serialized: Option<String>, facts: &PageFacts) -> (step:
        FetchStep)
        requires
            readable_page(*facts),
        ensures
            step@ == fetched(raw_url@, text::viewed(serialized), *facts),
    {
        let url: String = match serialized {
            Some(url) => url,
            None => {
                return FetchStep::Failed(LinkPreviewError::Network);
            },
        };
        match facts.allowed {
            None => {
                return FetchStep::AskPolicy { url };
            },
            Some(Err(error)) => {
                return FetchStep::Failed(error);
            },
            Some(Ok(_)) => {},
        }
        match facts.status {
            Reply::Pending => {
                let user_agent: &'static str = HttpLinkPreviewer::user_agent_for(raw_url);
                return FetchStep::Request(PreviewRequest { url, user_agent });
            },
            Reply::Failed => {
                return FetchStep::Failed(LinkPreviewError::Network);
            },
            Reply::Got(status) => {
                if status < 200 || status > 299 {
                    return FetchStep::Failed(LinkPreviewError::RequestFailed { status });
                }
            },
        }
        match &facts.page {
            Reply::Pending => FetchStep::ReadBody,
            Reply::Failed => FetchStep::Failed(LinkPreviewError::BodyRead),
            Reply::Got(page) => {
                let content_type: Option<&str> = match &page.0 {
                    Some(declared) => Some(declared.as_str()),
                    None => None,
                };
                let html: String = decode_response_body(page.1.as_slice(), content_type);
                if !is_parsable(html.as_str()) {
                    return FetchStep::Failed(LinkPreviewError::BodyRead);
                }
                FetchStep::Finished(parse_preview_meta(html.as_str()))
            },
        }
    }

    /// What to do next for an address, given what is known so far of its page.
    pub fn fetch_step(raw_url: &str, facts: &PageFacts) -> (step: FetchStep)
        requires
            readable_page(*facts),
        ensures
            step@ == fetched(raw_url@, address::url_serialized(raw_url@), *facts),
    {
        let serialized: Option<String> = address::serialize_url(raw_url);
        HttpLinkPreviewer::fetch_step_with(raw_url, serialized, facts)
    }
}

/// No destination is requested before the policy has let it pass, and one that the policy
/// rejects ends with its reason.
pub proof fn lemma_policy_comes_first(
    raw_url: Seq<char>,
    serialized: Option<Seq<char>>,
    facts: PageFacts,
)
    ensures
        fetched(raw_url, serialized, facts) is Request ==> facts.allowed is Some
            && facts.allowed->0 is Ok,
        serialized is Some && facts.allowed is Some && facts.allowed->0 is Err ==> fetched(
            raw_url,
            serialized,
            facts,
        ) == FetchModel::Failed(facts.allowed->0->Err_0),
{
}

} // verus!
