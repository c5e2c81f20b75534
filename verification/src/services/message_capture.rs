//! From a Telegram message to the row that is stored for it.

use vstd::prelude::*;
use vstd::utf8::*;

use crate::db::models::{NewHistoryModel, NewTelegramChatHistory};
use crate::reply::Reply;
use crate::text::{joined2, joined3};
use crate::utf16;
use crate::utf8;

verus! {

/// Seconds that a link preview may take.
pub const LINK_PREVIEW_TIMEOUT_SECONDS: u64 = 10;

/// Seconds that the summary of a link title may take.
pub const TITLE_SUMMARIZATION_TIMEOUT_SECONDS: u64 = 60;

/// A link title longer than this is summarized.
pub const TITLE_SUMMARIZATION_RUNE_THRESHOLD: usize = 200;

/// A message at least this long is summarized.
pub const TEXT_SUMMARIZATION_RUNE_THRESHOLD: usize = 300;

// ---------------------------------------------------------------------------
// Messages
// ---------------------------------------------------------------------------

/// What is read of a Telegram user.
#[derive(Debug, Clone, PartialEq, Eq)]
pub struct CapturedUser {
    pub id: i64,
    pub username: String,
    pub first_name: String,
    pub last_name: String,
}

/// What is read of a Telegram chat.
#[derive(Debug, Clone, PartialEq, Eq)]
pub struct CapturedChat {
    pub id: i64,
    /// Telegram's spelling, such as `group` or `supergroup`.
    pub kind: String,
    pub title: String,
}

/// The kinds of entities that are told apart.
#[derive(Debug, Clone, PartialEq, Eq)]
pub enum CapturedEntityKind {
    /// The entity's own stretch of the text is the address.
    Url,
    /// The entity carries the address; its stretch of the text is the title.
    TextLink { url: String },
    /// Nothing is rewritten.
    Other,
}

/// One entity of a message, measured in UTF-16 code units.
#[derive(Debug, Clone, PartialEq, Eq)]
pub struct CapturedEntity {
    pub kind: CapturedEntityKind,
    pub offset: usize,
    pub length: usize,
}

/// What is read of a Telegram message. What is missing is empty.
#[derive(Debug, PartialEq, Eq)]
pub struct CapturedMessage {
    pub message_id: i64,
    /// Unix seconds.
    pub date: i64,
    pub chat: CapturedChat,
    pub from: CapturedUser,
    pub text: String,
    pub caption: String,
    /// The entities that are rewritten.
    pub entities: Vec<CapturedEntity>,
    /// The entities of the caption, which are left alone.
    pub caption_entities: Vec<CapturedEntity>,
    pub forward_from: Option<CapturedUser>,
    pub forward_from_chat: Option<CapturedChat>,
    pub reply_to_message: Option<Box<CapturedMessage>>,
}

/// What an edited message changes.
#[derive(Debug, Clone, PartialEq, Eq)]
pub struct EditedMessageCapture {
    pub chat_id: i64,
    pub message_id: i64,
    pub text: String,
}

/// The titles of a previewed page.
#[derive(Debug, Clone, PartialEq, Eq)]
pub struct PreviewMeta {
    pub title: String,
    pub open_graph_title: String,
}

/// A link previewer that is never there: every preview fails.
#[derive(Debug, Clone, Copy, PartialEq, Eq, Structural)]
pub struct UnavailableLinkPreviewer;

impl UnavailableLinkPreviewer {
    /// Why a preview fails.
    pub fn failure(&self) -> (out: &'static str)
        ensures
            out@ == "link preview is not configured"@,
    {
        "link preview is not configured"
    }
}

/// The services that capturing a message asks.
#[derive(Debug, PartialEq, Eq)]
pub struct MessagePreprocessor<P, S> {
    pub previewer: P,
    pub summarizer: S,
}

impl<P, S> MessagePreprocessor<P, S> {
    pub fn new(previewer: P, summarizer: S) -> (r: Self)
        ensures
            r.previewer == previewer,
            r.summarizer == summarizer,
    {
        MessagePreprocessor { previewer, summarizer }
    }
}

// ---------------------------------------------------------------------------
// Addresses
// ---------------------------------------------------------------------------

/// A percent escape that is none.
#[derive(Debug, Clone, Copy, PartialEq, Eq, Structural)]
pub struct QueryUnescapeError;

pub open spec fn is_hex_digit(b: u8) -> bool {
    0x30 <= b <= 0x39 || 0x41 <= b <= 0x46 || 0x61 <= b <= 0x66
}

pub open spec fn hex_value(b: u8) -> int {
    if b <= 0x39 {
        b - 0x30
    } else if b <= 0x46 {
        b - 0x41 + 10
    } else {
        b - 0x61 + 10
    }
}

/// The bytes from `i` on with percent escapes resolved and `+` read as a space, or none
/// where a `%` is followed by anything but two hexadecimal digits.
pub open spec fn unescaped_from(bytes: Seq<u8>, i: int) -> Option<Seq<u8>>
    decreases bytes.len() - i,
{
    if i < 0 || i >= bytes.len() {
        Some(Seq::empty())
    } else if bytes[i] == 0x25 {
        if i + 2 < bytes.len() && is_hex_digit(bytes[i + 1]) && is_hex_digit(bytes[i + 2]) {
            match unescaped_from(bytes, i + 3) {
                Some(rest) => Some(
                    seq![(16 * hex_value(bytes[i + 1]) + hex_value(bytes[i + 2])) as u8] + rest,
                ),
                None => None,
            }
        } else {
            None
        }
    } else {
        match unescaped_from(bytes, i + 1) {
            Some(rest) => Some(
                seq![
                    if bytes[i] == 0x2b {
                        0x20u8
                    } else {
                        bytes[i]
                    },
                ] + rest,
            ),
            None => None,
        }
    }
}

/// The bytes of an address with its escapes resolved.
pub open spec fn unescaped(bytes: Seq<u8>) -> Option<Seq<u8>> {
    unescaped_from(bytes, 0)
}

fn hex_digit(b: u8) -> (r: Option<u8>)
    ensures
        match r {
            Some(n) => is_hex_digit(b) && n == hex_value(b) && n < 16,
            None => !is_hex_digit(b),
        },
{
    if 0x30 <= b && b <= 0x39 {
        Some(b - 0x30)
    } else if 0x41 <= b && b <= 0x46 {
        Some(b - 0x41 + 10)
    } else if 0x61 <= b && b <= 0x66 {
        Some(b - 0x61 + 10)
    } else {
        None
    }
}

/// The bytes of an address with its percent escapes resolved and `+` read as a space.
pub fn query_unescape(input: &[u8]) -> (r: Result<Vec<u8>, QueryUnescapeError>)
    ensures
        match r {
            Ok(out) => unescaped(input@) == Some(out@),
            Err(_) => unescaped(input@) is None,
        },
{
    let mut out: Vec<u8> = Vec::new();
    let mut i: usize = 0;
    while i < input.len()
        invariant
            i <= input.len(),
            match unescaped_from(input@, i as int) {
                Some(rest) => unescaped(input@) == Some(out@ + rest),
                None => unescaped(input@) is None,
            },
        decreases input.len() - i,
    {
        let ghost before = out@;
        let ghost at = i as int;
        let b: u8 = input[i];
        if b == 0x25 {
            if input.len() - i <= 2 {
                return Err(QueryUnescapeError);
            }
            match (hex_digit(input[i + 1]), hex_digit(input[i + 2])) {
                (Some(high), Some(low)) => {
                    out.push(16 * high + low);
                    i = i + 3;
                },
                _ => {
                    return Err(QueryUnescapeError);
                },
            }
        } else {
            out.push(
                if b == 0x2b {
                    0x20
                } else {
                    b
                },
            );
            i = i + 1;
        }
        proof {
            match (unescaped_from(input@, at), unescaped_from(input@, i as int)) {
                (Some(all), Some(rest)) => {
                    assert(before + all =~= out@ + rest);
                },
                _ => {},
            }
        }
    }
    assert(unescaped_from(input@, i as int) == Some(Seq::<u8>::empty()));
    assert(out@ + Seq::<u8>::empty() =~= out@);
    Ok(out)
}

/// The text of bytes; every byte that starts no scalar value reads as `U+FFFD`.
pub fn go_string_from_bytes(bytes: &[u8]) -> (out: String)
    ensures
        out@ == utf8::text_of_bytes(bytes@),
{
    utf8::text_from_bytes(bytes)
}

/// The text of code units; an unpaired surrogate reads as `U+FFFD`.
pub fn decode_utf16_lossy(units: &[u16]) -> (out: String)
    ensures
        out@ == utf16::decoded(units@),
{
    assert(units@.subrange(0, units@.len() as int) =~= units@);
    utf16::decode(units, 0, units.len())
}

/// An address with its escapes resolved, or as it is where they are malformed.
pub open spec fn readable_href(href: Seq<char>) -> Seq<char> {
    match unescaped(encode_utf8(href)) {
        Some(bytes) => utf8::text_of_bytes(bytes),
        None => href,
    }
}

fn readable(href: &str) -> (out: String)
    ensures
        out@ == readable_href(href@),
{
    match query_unescape(href.as_bytes()) {
        Ok(bytes) => go_string_from_bytes(bytes.as_slice()),
        Err(_) => href.to_owned(),
    }
}

proof fn lemma_nothing_to_unescape(bytes: Seq<u8>, i: int)
    requires
        0 <= i <= bytes.len(),
        forall|k: int|
            0 <= k < bytes.len() ==> #[trigger] bytes[k] != 0x25 && bytes[k] != 0x2b,
    ensures
        unescaped_from(bytes, i) == Some(bytes.skip(i)),
    decreases bytes.len() - i,
{
    if i < bytes.len() {
        lemma_nothing_to_unescape(bytes, i + 1);
        assert(seq![bytes[i]] + bytes.skip(i + 1) =~= bytes.skip(i));
    } else {
        assert(bytes.skip(i) =~= Seq::<u8>::empty());
    }
}

/// An address without a percent or plus sign in its bytes is left as it is.
pub proof fn lemma_plain_href(href: Seq<char>)
    requires
        forall|k: int|
            0 <= k < encode_utf8(href).len() ==> #[trigger] encode_utf8(href)[k] != 0x25
                && encode_utf8(href)[k] != 0x2b,
    ensures
        readable_href(href) == href,
{
    let bytes = encode_utf8(href);
    lemma_nothing_to_unescape(bytes, 0);
    assert(bytes.skip(0) =~= bytes);
    utf8::lemma_text_reads_back(href);
}

// ---------------------------------------------------------------------------
// Links
// ---------------------------------------------------------------------------

/// A link that takes the place of a stretch of the text.
#[derive(Debug, PartialEq, Eq)]
pub struct MarkdownLink {
    pub markdown: Vec<u16>,
    pub start: usize,
    pub end: usize,
}

#[verifier::ext_equal]
pub struct LinkModel {
    pub markdown: Seq<u16>,
    pub start: int,
    pub end: int,
}

impl View for MarkdownLink {
    type V = LinkModel;

    open spec fn view(&self) -> LinkModel {
        LinkModel { markdown: self.markdown@, start: self.start as int, end: self.end as int }
    }
}

pub open spec fn link_models(links: Seq<Option<MarkdownLink>>) -> Seq<Option<LinkModel>> {
    Seq::new(
        links.len(),
        |i: int|
            match links[i] {
                Some(link) => Some(link@),
                None => None,
            },
    )
}

/// What is to be done for one entity.
#[derive(Debug, PartialEq, Eq)]
pub enum LinkStep {
    /// Preview this address.
    Preview { href: String },
    /// Summarize this title.
    SummarizeTitle { title: String },
    /// Leave the entity as it is.
    Skip,
    /// Put this link in its place.
    Rewrite(MarkdownLink),
}

#[verifier::ext_equal]
pub enum LinkStepModel {
    Preview(Seq<char>),
    SummarizeTitle(Seq<char>),
    Skip,
    Rewrite(LinkModel),
}

impl View for LinkStep {
    type V = LinkStepModel;

    open spec fn view(&self) -> LinkStepModel {
        match self {
            LinkStep::Preview { href } => LinkStepModel::Preview(href@),
            LinkStep::SummarizeTitle { title } => LinkStepModel::SummarizeTitle(title@),
            LinkStep::Skip => LinkStepModel::Skip,
            LinkStep::Rewrite(link) => LinkStepModel::Rewrite(link@),
        }
    }
}

/// The link with a title and an address.
pub open spec fn link_text(title: Seq<char>, href: Seq<char>) -> Seq<char> {
    "["@ + title + "]("@ + readable_href(href) + ")"@
}

/// What is to be done once the title and the address are known: a title of more than two
/// hundred characters is replaced by the first summary of it, if there is one.
pub open spec fn titled_step(
    title: Seq<char>,
    href: Seq<char>,
    start: int,
    end: int,
    choices: Reply<Vec<String>>,
) -> LinkStepModel {
    if title.len() <= TITLE_SUMMARIZATION_RUNE_THRESHOLD {
        LinkStepModel::Rewrite(
            LinkModel { markdown: utf16::encoded(link_text(title, href)), start, end },
        )
    } else {
        match choices {
            Reply::Pending => LinkStepModel::SummarizeTitle(title),
            Reply::Failed => LinkStepModel::Skip,
            Reply::Got(found) => LinkStepModel::Rewrite(
                LinkModel {
                    markdown: utf16::encoded(
                        link_text(
                            if found@.len() > 0 {
                                found@[0]@
                            } else {
                                title
                            },
                            href,
                        ),
                    ),
                    start,
                    end,
                },
            ),
        }
    }
}

/// The title of a previewed page: its own, or else the one it shares.
pub open spec fn preview_title(meta: PreviewMeta) -> Seq<char> {
    if meta.title@.len() == 0 {
        meta.open_graph_title@
    } else {
        meta.title@
    }
}

/// What is to be done for one entity of a text; one that lies outside it is left alone.
pub open spec fn link_step(
    entity: CapturedEntity,
    units: Seq<u16>,
    preview: Reply<PreviewMeta>,
    choices: Reply<Vec<String>>,
) -> LinkStepModel {
    let start = entity.offset as int;
    let end = entity.offset + entity.length;
    if end > units.len() {
        LinkStepModel::Skip
    } else {
        let stretch = utf16::decoded(units.subrange(start, end));
        match entity.kind {
            CapturedEntityKind::Other => LinkStepModel::Skip,
            CapturedEntityKind::TextLink { url } => titled_step(stretch, url@, start, end, choices),
            CapturedEntityKind::Url => match preview {
                Reply::Pending => LinkStepModel::Preview(stretch),
                Reply::Failed => LinkStepModel::Skip,
                Reply::Got(meta) => titled_step(
                    preview_title(meta),
                    stretch,
                    start,
                    end,
                    choices,
                ),
            },
        }
    }
}

fn rewrite(title: &str, href: &str, start: usize, end: usize) -> (link: MarkdownLink)
    ensures
        link@ == (LinkModel {
            markdown: utf16::encoded(link_text(title@, href@)),
            start: start as int,
            end: end as int,
        }),
{
    let target: String = readable(href);
    let opened: String = joined3("[", title, "](");
    let full: String = joined3(opened.as_str(), target.as_str(), ")");
    assert(full@ =~= link_text(title@, href@));
    MarkdownLink { markdown: utf16::encode(full.as_str()), start, end }
}

fn with_title(
    title: &str,
    href: &str,
    start: usize,
    end: usize,
    choices: &Reply<Vec<String>>,
) -> (step: LinkStep)
    ensures
        step@ == titled_step(title@, href@, start as int, end as int, *choices),
{
    if title.unicode_len() <= TITLE_SUMMARIZATION_RUNE_THRESHOLD {
        return LinkStep::Rewrite(rewrite(title, href, start, end));
    }
    match choices {
        Reply::Pending => LinkStep::SummarizeTitle { title: title.to_owned() },
        Reply::Failed => LinkStep::Skip,
        Reply::Got(found) => if found.len() > 0 {
            LinkStep::Rewrite(rewrite(found[0].as_str(), href, start, end))
        } else {
            LinkStep::Rewrite(rewrite(title, href, start, end))
        },
    }
}

/// What is to be done for one entity of a text, as far as the previewer and the
/// summarizer have answered.
pub fn build_markdown_link_step(
    entity: &CapturedEntity,
    text_utf16: &Vec<u16>,
    preview: &Reply<PreviewMeta>,
    choices: &Reply<Vec<String>>,
) -> (step: LinkStep)
    ensures
        step@ == link_step(*entity, text_utf16@, *preview, *choices),
{
    let start: usize = entity.offset;
    if entity.length > text_utf16.len() || start > text_utf16.len() - entity.length {
        return LinkStep::Skip;
    }
    let end: usize = start + entity.length;
    match &entity.kind {
        CapturedEntityKind::Other => LinkStep::Skip,
        CapturedEntityKind::TextLink { url } => {
            let title: String = utf16::decode(text_utf16.as_slice(), start, end);
            with_title(title.as_str(), url.as_str(), start, end, choices)
        },
        CapturedEntityKind::Url => {
            let href: String = utf16::decode(text_utf16.as_slice(), start, end);
            match preview {
                Reply::Pending => LinkStep::Preview { href },
                Reply::Failed => LinkStep::Skip,
                Reply::Got(meta) => {
                    let title: &str = if meta.title.as_str().is_empty() {
                        meta.open_graph_title.as_str()
                    } else {
                        meta.title.as_str()
                    };
                    with_title(title, href.as_str(), start, end, choices)
                },
            }
        },
    }
}

// ---------------------------------------------------------------------------
// Rewriting
// ---------------------------------------------------------------------------

/// The code units with one link put in its place, where its place still fits.
pub open spec fn spliced(units: Seq<u16>, link: Option<LinkModel>) -> Seq<u16> {
    match link {
        None => units,
        Some(link) => if link.start < 0 || link.start > link.end || link.end > units.len() {
            units
        } else {
            units.take(link.start) + link.markdown + units.skip(link.end)
        },
    }
}

/// The code units with the links from `i` on put in, the last one first.
pub open spec fn rewritten(units: Seq<u16>, links: Seq<Option<LinkModel>>, i: int) -> Seq<u16>
    decreases links.len() - i,
{
    if i < 0 || i >= links.len() {
        units
    } else {
        spliced(rewritten(units, links, i + 1), links[i])
    }
}

/// The text that a message carries: its caption, or else its text.
pub open spec fn carried(message: CapturedMessage) -> Seq<char> {
    if message.caption@.len() == 0 {
        message.text@
    } else {
        message.caption@
    }
}

/// The text of a message with its links put in.
pub open spec fn extracted(message: CapturedMessage, links: Seq<Option<LinkModel>>) -> Seq<char> {
    utf16::decoded(rewritten(utf16::encoded(carried(message)), links, 0))
}

fn splice(units: Vec<u16>, link: &MarkdownLink) -> (out: Vec<u16>)
    ensures
        out@ == spliced(units@, Some(link@)),
{
    if link.start > link.end || link.end > units.len() {
        return units;
    }
    let mut out: Vec<u16> = Vec::new();
    let mut i: usize = 0;
    while i < link.start
        invariant
            i <= link.start <= units.len(),
            out@ == units@.take(i as int),
        decreases link.start - i,
    {
        out.push(units[i]);
        i = i + 1;
        assert(out@ =~= units@.take(i as int));
    }
    let mut j: usize = 0;
    while j < link.markdown.len()
        invariant
            j <= link.markdown.len(),
            link.start <= units.len(),
            out@ == units@.take(link.start as int) + link.markdown@.take(j as int),
        decreases link.markdown.len() - j,
    {
        out.push(link.markdown[j]);
        j = j + 1;
        assert(out@ =~= units@.take(link.start as int) + link.markdown@.take(j as int));
    }
    let mut k: usize = link.end;
    assert(link.markdown@.take(j as int) =~= link.markdown@);
    assert(units@.subrange(link.end as int, k as int) =~= Seq::<u16>::empty());
    assert(out@ =~= units@.take(link.start as int) + link.markdown@ + units@.subrange(
        link.end as int,
        k as int,
    ));
    while k < units.len()
        invariant
            link.start <= link.end <= k <= units.len(),
            out@ == units@.take(link.start as int) + link.markdown@ + units@.subrange(
                link.end as int,
                k as int,
            ),
        decreases units.len() - k,
    {
        out.push(units[k]);
        k = k + 1;
        assert(out@ =~= units@.take(link.start as int) + link.markdown@ + units@.subrange(
            link.end as int,
            k as int,
        ));
    }
    assert(units@.subrange(link.end as int, k as int) =~= units@.skip(link.end as int));
    out
}

/// The text that a message carries, in code units.
pub fn carried_units(message: &CapturedMessage) -> (units: Vec<u16>)
    ensures
        units@ == utf16::encoded(carried(*message)),
{
    if message.caption.as_str().is_empty() {
        utf16::encode(message.text.as_str())
    } else {
        utf16::encode(message.caption.as_str())
    }
}

/// The text of a message, its caption before its text, with the links of its entities put
/// in from the last to the first.
pub fn extract_text_from_message(
    message: &CapturedMessage,
    links: &Vec<Option<MarkdownLink>>,
) -> (out: String)
    ensures
        out@ == extracted(*message, link_models(links@)),
{
    let ghost models = link_models(links@);
    let mut units: Vec<u16> = carried_units(message);
    let mut i: usize = links.len();
    while i > 0
        invariant
            i <= links.len(),
            models == link_models(links@),
            units@ == rewritten(utf16::encoded(carried(*message)), models, i as int),
        decreases i,
    {
        i = i - 1;
        match &links[i] {
            Some(link) => {
                units = splice(units, link);
                assert(models[i as int] == Some(link@));
            },
            None => {
                assert(models[i as int] is None);
            },
        }
    }
    decode_utf16_lossy(units.as_slice())
}

/// The code units from `from` on with the links from `i` on in their places.
pub open spec fn woven(units: Seq<u16>, links: Seq<Option<LinkModel>>, i: int, from: int) -> Seq<
    u16,
>
    decreases links.len() - i,
{
    if i < 0 || i >= links.len() {
        units.skip(from)
    } else {
        match links[i] {
            None => woven(units, links, i + 1, from),
            Some(link) => units.subrange(from, link.start) + link.markdown + woven(
                units,
                links,
                i + 1,
                link.end,
            ),
        }
    }
}

/// The links from `i` on lie in the code units from `from` on, one after the other.
pub open spec fn in_order(
    units: Seq<u16>,
    links: Seq<Option<LinkModel>>,
    i: int,
    from: int,
) -> bool
    decreases links.len() - i,
{
    if i < 0 || i >= links.len() {
        true
    } else {
        match links[i] {
            None => in_order(units, links, i + 1, from),
            Some(link) => from <= link.start <= link.end <= units.len() && in_order(
                units,
                links,
                i + 1,
                link.end,
            ),
        }
    }
}

proof fn lemma_rewritten_from(
    units: Seq<u16>,
    links: Seq<Option<LinkModel>>,
    i: int,
    from: int,
)
    requires
        0 <= i <= links.len(),
        0 <= from <= units.len(),
        in_order(units, links, i, from),
    ensures
        rewritten(units, links, i) == units.take(from) + woven(units, links, i, from),
    decreases links.len() - i,
{
    if i == links.len() {
        assert(units.take(from) + units.skip(from) =~= units);
    } else {
        match links[i] {
            None => {
                lemma_rewritten_from(units, links, i + 1, from);
            },
            Some(link) => {
                lemma_rewritten_from(units, links, i + 1, link.end);
                let rest = woven(units, links, i + 1, link.end);
                let state = rewritten(units, links, i + 1);
                assert(state == units.take(link.end) + rest);
                assert(state.take(link.start) =~= units.take(link.start));
                assert(state.skip(link.end) =~= rest);
                assert(units.take(link.start) =~= units.take(from) + units.subrange(
                    from,
                    link.start,
                ));
                assert(rewritten(units, links, i) =~= units.take(from) + (units.subrange(
                    from,
                    link.start,
                ) + link.markdown + rest));
            },
        }
    }
}

/// Links that follow one another without overlap are put in at their own places: between
/// them the text is as it was.
pub proof fn lemma_links_in_place(units: Seq<u16>, links: Seq<Option<LinkModel>>)
    requires
        in_order(units, links, 0, 0),
    ensures
        rewritten(units, links, 0) == woven(units, links, 0, 0),
{
    lemma_rewritten_from(units, links, 0, 0);
    assert(units.take(0) + woven(units, links, 0, 0) =~= woven(units, links, 0, 0));
}

proof fn lemma_no_links(units: Seq<u16>, links: Seq<Option<LinkModel>>, i: int)
    requires
        0 <= i <= links.len(),
        forall|k: int| 0 <= k < links.len() ==> #[trigger] links[k] is None,
    ensures
        rewritten(units, links, i) == units,
    decreases links.len() - i,
{
    if i < links.len() {
        lemma_no_links(units, links, i + 1);
    }
}

/// A message without a link to put in keeps its text.
pub proof fn lemma_plain_message(message: CapturedMessage, links: Seq<Option<LinkModel>>)
    requires
        forall|k: int| 0 <= k < links.len() ==> #[trigger] links[k] is None,
    ensures
        extracted(message, links) == carried(message),
{
    lemma_no_links(utf16::encoded(carried(message)), links, 0);
    utf16::lemma_decode_encoded(carried(message));
}

// ---------------------------------------------------------------------------
// Names
// ---------------------------------------------------------------------------


/// Han.
pub const HAN: [(u32, u32, u32); 20] = [
    (0x2E80, 0x2E99, 1),
    (0x2E9B, 0x2EF3, 1),
    (0x2F00, 0x2FD5, 1),
    (0x3005, 0x3007, 2),
    (0x3021, 0x3029, 1),
    (0x3038, 0x303B, 1),
    (0x3400, 0x4DBF, 1),
    (0x4E00, 0x9FFF, 1),
    (0xF900, 0xFA6D, 1),
    (0xFA70, 0xFAD9, 1),
    (0x1_6FE2, 0x1_6FE3, 1),
    (0x1_6FF0, 0x1_6FF1, 1),
    (0x2_0000, 0x2_A6DF, 1),
    (0x2_A700, 0x2_B739, 1),
    (0x2_B740, 0x2_B81D, 1),
    (0x2_B820, 0x2_CEA1, 1),
    (0x2_CEB0, 0x2_EBE0, 1),
    (0x2_F800, 0x2_FA1D, 1),
    (0x3_0000, 0x3_134A, 1),
    (0x3_1350, 0x3_23AF, 1),
];

/// Hangul.
pub const HANGUL: [(u32, u32, u32); 14] = [
    (0x1100, 0x11FF, 1),
    (0x302E, 0x302F, 1),
    (0x3131, 0x318E, 1),
    (0x3200, 0x321E, 1),
    (0x3260, 0x327E, 1),
    (0xA960, 0xA97C, 1),
    (0xAC00, 0xD7A3, 1),
    (0xD7B0, 0xD7C6, 1),
    (0xD7CB, 0xD7FB, 1),
    (0xFFA0, 0xFFBE, 1),
    (0xFFC2, 0xFFC7, 1),
    (0xFFCA, 0xFFCF, 1),
    (0xFFD2, 0xFFD7, 1),
    (0xFFDA, 0xFFDC, 1),
];

/// Hiragana.
pub const HIRAGANA: [(u32, u32, u32); 6] = [
    (0x3041, 0x3096, 1),
    (0x309D, 0x309F, 1),
    (0x1_B001, 0x1_B11F, 1),
    (0x1_B132, 0x1_B150, 30),
    (0x1_B151, 0x1_B152, 1),
    (0x1_F200, 0x1_F200, 1),
];

/// Katakana.
pub const KATAKANA: [(u32, u32, u32); 14] = [
    (0x30A1, 0x30FA, 1),
    (0x30FD, 0x30FF, 1),
    (0x31F0, 0x31FF, 1),
    (0x32D0, 0x32FE, 1),
    (0x3300, 0x3357, 1),
    (0xFF66, 0xFF6F, 1),
    (0xFF71, 0xFF9D, 1),
    (0x1_AFF0, 0x1_AFF3, 1),
    (0x1_AFF5, 0x1_AFFB, 1),
    (0x1_AFFD, 0x1_AFFE, 1),
    (0x1_B000, 0x1_B120, 288),
    (0x1_B121, 0x1_B122, 1),
    (0x1_B155, 0x1_B164, 15),
    (0x1_B165, 0x1_B167, 1),
];

pub open spec fn in_range(code_point: u32, range: (u32, u32, u32)) -> bool {
    range.2 > 0 && range.0 <= code_point <= range.1 && (code_point - range.0) % (range.2 as int)
        == 0
}

pub open spec fn listed(code_point: u32, ranges: Seq<(u32, u32, u32)>) -> bool {
    exists|i: int| 0 <= i < ranges.len() && in_range(code_point, #[trigger] ranges[i])
}

/// A character of the Chinese, Japanese or Korean scripts, or of their punctuation.
pub open spec fn is_cjk(c: char) -> bool {
    let n = c as u32;
    listed(n, HAN@) || listed(n, HANGUL@) || listed(n, HIRAGANA@) || listed(n, KATAKANA@) || 0x3001
        <= n <= 0x303D
}

pub open spec fn has_cjk(s: Seq<char>) -> bool {
    exists|i: int| 0 <= i < s.len() && is_cjk(#[trigger] s[i])
}

fn in_ranges<const N: usize>(code_point: u32, ranges: &[(u32, u32, u32); N]) -> (r: bool)
    ensures
        r == listed(code_point, ranges@),
{
    let mut i: usize = 0;
    while i < N
        invariant
            i <= N,
            ranges@.len() == N,
            forall|k: int| 0 <= k < i ==> !in_range(code_point, #[trigger] ranges@[k]),
        decreases N - i,
    {
        let range: (u32, u32, u32) = ranges[i];
        if range.2 > 0 && range.0 <= code_point && code_point <= range.1 && (code_point - range.0)
            % range.2 == 0 {
            assert(in_range(code_point, ranges@[i as int]));
            return true;
        }
        i = i + 1;
    }
    false
}

/// Whether a text holds a character of the Chinese, Japanese or Korean scripts.
pub fn contains_cjk_char(s: &str) -> (r: bool)
    ensures
        r == has_cjk(s@),
{
    let chars: Vec<char> = crate::text::chars_of(s);
    let mut i: usize = 0;
    while i < chars.len()
        invariant
            i <= chars.len(),
            chars@ == s@,
            forall|k: int| 0 <= k < i ==> !is_cjk(#[trigger] s@[k]),
        decreases chars.len() - i,
    {
        let c: char = chars[i];
        let n: u32 = c as u32;
        if in_ranges(n, &HAN) || in_ranges(n, &HANGUL) || in_ranges(n, &HIRAGANA) || in_ranges(
            n,
            &KATAKANA,
        ) || (0x3001 <= n && n <= 0x303D) {
            assert(is_cjk(s@[i as int]));
            return true;
        }
        i = i + 1;
    }
    false
}

/// The full name: a Chinese, Japanese or Korean last name comes first.
pub open spec fn full_name(first: Seq<char>, last: Seq<char>) -> Seq<char> {
    if last.len() == 0 {
        first
    } else if first.len() == 0 {
        last
    } else if has_cjk(last) {
        last + " "@ + first
    } else {
        first + " "@ + last
    }
}

pub fn full_name_from_first_and_last_name(first_name: &str, last_name: &str) -> (out: String)
    ensures
        out@ == full_name(first_name@, last_name@),
{
    if last_name.is_empty() {
        return first_name.to_owned();
    }
    if first_name.is_empty() {
        return last_name.to_owned();
    }
    if contains_cjk_char(last_name) {
        joined3(last_name, " ", first_name)
    } else {
        joined3(first_name, " ", last_name)
    }
}

// ---------------------------------------------------------------------------
// Capturing
// ---------------------------------------------------------------------------

/// What is known of the text of one message so far.
#[derive(Debug, PartialEq, Eq)]
pub struct TextProgress {
    /// The links of its entities, in order, once all are settled.
    pub links: Option<Vec<Option<MarkdownLink>>>,
    /// The summaries of the text.
    pub choices: Reply<Vec<String>>,
}

/// What is to be done for the text of one message.
#[derive(Debug, PartialEq, Eq)]
pub enum TextStep {
    /// Settle the links of its entities.
    ResolveLinks,
    /// Summarize this text, without a deadline.
    Summarize { content: String },
    /// The text is known.
    Text(String),
    /// The text could not be summarized.
    Failed,
}

#[verifier::ext_equal]
pub enum TextStepModel {
    ResolveLinks,
    Summarize(Seq<char>),
    Text(Seq<char>),
    Failed,
}

impl View for TextStep {
    type V = TextStepModel;

    open spec fn view(&self) -> TextStepModel {
        match self {
            TextStep::ResolveLinks => TextStepModel::ResolveLinks,
            TextStep::Summarize { content } => TextStepModel::Summarize(content@),
            TextStep::Text(text) => TextStepModel::Text(text@),
            TextStep::Failed => TextStepModel::Failed,
        }
    }
}

/// What is to be done for the text of a message: one of three hundred characters or more
/// is replaced by the first summary of it.
pub open spec fn text_step(message: CapturedMessage, progress: TextProgress) -> TextStepModel {
    match progress.links {
        None => TextStepModel::ResolveLinks,
        Some(links) => {
            let text = extracted(message, link_models(links@));
            if text.len() < TEXT_SUMMARIZATION_RUNE_THRESHOLD {
                TextStepModel::Text(text)
            } else {
                match progress.choices {
                    Reply::Pending => TextStepModel::Summarize(text),
                    Reply::Failed => TextStepModel::Failed,
                    Reply::Got(found) => TextStepModel::Text(
                        if found@.len() > 0 {
                            found@[0]@
                        } else {
                            Seq::empty()
                        },
                    ),
                }
            }
        },
    }
}

/// What is to be done for the text of a message.
pub fn extract_text_with_summarization_step(
    message: &CapturedMessage,
    progress: &TextProgress,
) -> (step: TextStep)
    ensures
        step@ == text_step(*message, *progress),
{
    match &progress.links {
        None => TextStep::ResolveLinks,
        Some(links) => {
            let text: String = extract_text_from_message(message, links);
            if text.as_str().unicode_len() < TEXT_SUMMARIZATION_RUNE_THRESHOLD {
                return TextStep::Text(text);
            }
            match &progress.choices {
                Reply::Pending => TextStep::Summarize { content: text },
                Reply::Failed => TextStep::Failed,
                Reply::Got(found) => if found.len() > 0 {
                    TextStep::Text(found[0].clone())
                } else {
                    TextStep::Text(String::new())
                },
            }
        },
    }
}

/// Whether a message carries neither text nor caption.
pub open spec fn is_empty_message(message: CapturedMessage) -> bool {
    message.text@.len() == 0 && message.caption@.len() == 0
}

/// What is to be done for the text of a message that may be missing or empty.
pub open spec fn guarded_step(
    message: Option<&CapturedMessage>,
    progress: TextProgress,
) -> TextStepModel {
    match message {
        None => TextStepModel::Text(Seq::empty()),
        Some(message) => if is_empty_message(*message) {
            TextStepModel::Text(Seq::empty())
        } else {
            text_step(*message, progress)
        },
    }
}

/// What is to be done for the text of a message that may be missing or empty.
pub fn extract_text_guarded_step(
    message: Option<&CapturedMessage>,
    progress: &TextProgress,
) -> (step: TextStep)
    ensures
        step@ == guarded_step(message, *progress),
{
    match message {
        None => TextStep::Text(String::new()),
        Some(message) => if message.text.as_str().is_empty() && message.caption.as_str().is_empty() {
            TextStep::Text(String::new())
        } else {
            extract_text_with_summarization_step(message, progress)
        },
    }
}

/// Milliseconds of a date in seconds, wrapping around.
pub fn telegram_date_to_unix_millis(date_seconds: i64) -> (r: i64)
    ensures
        r == date_seconds.wrapping_mul(1000),
{
    date_seconds.wrapping_mul(1000)
}

/// The text with the name of who it was forwarded from in front; a user counts before a
/// chat.
pub open spec fn forwarded_text(message: CapturedMessage, text: Seq<char>) -> Seq<char> {
    match message.forward_from {
        Some(user) => "[forwarded from "@ + full_name(user.first_name@, user.last_name@) + "]: "@
            + text,
        None => match message.forward_from_chat {
            Some(chat) => "[forwarded from "@ + chat.title@ + "]: "@ + text,
            None => text,
        },
    }
}

/// The row of a message that replies to nothing.
pub open spec fn plain_row(message: CapturedMessage, text: Seq<char>) -> NewHistoryModel {
    NewHistoryModel {
        chat_id: message.chat.id,
        chat_type: message.chat.kind@,
        chat_title: message.chat.title@,
        message_id: message.message_id,
        user_id: message.from.id,
        username: message.from.username@,
        full_name: full_name(message.from.first_name@, message.from.last_name@),
        text: forwarded_text(message, text),
        replied_to_message_id: 0,
        replied_to_user_id: 0,
        replied_to_full_name: Seq::empty(),
        replied_to_username: Seq::empty(),
        replied_to_text: Seq::empty(),
        replied_to_chat_type: Seq::empty(),
        chatted_at: message.date.wrapping_mul(1000),
    }
}

/// The row with what the message replies to; a reply to an empty message counts as none.
pub open spec fn replying_row(
    row: NewHistoryModel,
    reply: CapturedMessage,
    text: Seq<char>,
) -> NewHistoryModel {
    if text.len() == 0 {
        row
    } else {
        NewHistoryModel {
            replied_to_message_id: reply.message_id,
            replied_to_user_id: reply.from.id,
            replied_to_full_name: full_name(reply.from.first_name@, reply.from.last_name@),
            replied_to_username: reply.from.username@,
            replied_to_text: text,
            replied_to_chat_type: reply.chat.kind@,
            ..row
        }
    }
}

/// What is to be done to capture a message.
#[derive(Debug, PartialEq, Eq)]
pub enum CaptureStep {
    /// Settle the links of the message.
    ResolveLinks,
    /// Summarize this text of the message.
    Summarize { content: String },
    /// Settle the links of the message it replies to.
    ResolveReplyLinks,
    /// Summarize this text of the message it replies to.
    SummarizeReply { content: String },
    /// Nothing is stored.
    Skip,
    /// This row is stored.
    Row(NewTelegramChatHistory),
    Failed,
}

#[verifier::ext_equal]
pub enum CaptureModel {
    ResolveLinks,
    Summarize(Seq<char>),
    ResolveReplyLinks,
    SummarizeReply(Seq<char>),
    Skip,
    Row(NewHistoryModel),
    Failed,
}

impl View for CaptureStep {
    type V = CaptureModel;

    open spec fn view(&self) -> CaptureModel {
        match self {
            CaptureStep::ResolveLinks => CaptureModel::ResolveLinks,
            CaptureStep::Summarize { content } => CaptureModel::Summarize(content@),
            CaptureStep::ResolveReplyLinks => CaptureModel::ResolveReplyLinks,
            CaptureStep::SummarizeReply { content } => CaptureModel::SummarizeReply(content@),
            CaptureStep::Skip => CaptureModel::Skip,
            CaptureStep::Row(row) => CaptureModel::Row(row@),
            CaptureStep::Failed => CaptureModel::Failed,
        }
    }
}

/// What is to be done to capture a message: its own text first, then that of the message
/// it replies to. The latter goes without the guard against empty messages.
pub open spec fn capture_step(
    message: CapturedMessage,
    progress: TextProgress,
    reply_progress: TextProgress,
) -> CaptureModel {
    match guarded_step(Some(&message), progress) {
        TextStepModel::ResolveLinks => CaptureModel::ResolveLinks,
        TextStepModel::Summarize(content) => CaptureModel::Summarize(content),
        TextStepModel::Failed => CaptureModel::Failed,
        TextStepModel::Text(text) => if text.len() == 0 {
            CaptureModel::Skip
        } else {
            match message.reply_to_message {
                None => CaptureModel::Row(plain_row(message, text)),
                Some(reply) => match text_step(*reply, reply_progress) {
                    TextStepModel::ResolveLinks => CaptureModel::ResolveReplyLinks,
                    TextStepModel::Summarize(content) => CaptureModel::SummarizeReply(content),
                    TextStepModel::Failed => CaptureModel::Failed,
                    TextStepModel::Text(reply_text) => CaptureModel::Row(
                        replying_row(plain_row(message, text), *reply, reply_text),
                    ),
                },
            }
        },
    }
}

fn with_forwarding(message: &CapturedMessage, text: &str) -> (out: String)
    ensures
        out@ == forwarded_text(*message, text@),
{
    match &message.forward_from {
        Some(user) => {
            let name: String = full_name_from_first_and_last_name(
                user.first_name.as_str(),
                user.last_name.as_str(),
            );
            let head: String = joined3("[forwarded from ", name.as_str(), "]: ");
            joined2(head.as_str(), text)
        },
        None => match &message.forward_from_chat {
            Some(chat) => {
                let head: String = joined3("[forwarded from ", chat.title.as_str(), "]: ");
                joined2(head.as_str(), text)
            },
            None => text.to_owned(),
        },
    }
}

fn row_of(message: &CapturedMessage, text: &str) -> (row: NewTelegramChatHistory)
    ensures
        row@ == plain_row(*message, text@),
{
    NewTelegramChatHistory {
        chat_id: message.chat.id,
        chat_type: message.chat.kind.clone(),
        chat_title: message.chat.title.clone(),
        message_id: message.message_id,
        user_id: message.from.id,
        username: message.from.username.clone(),
        full_name: full_name_from_first_and_last_name(
            message.from.first_name.as_str(),
            message.from.last_name.as_str(),
        ),
        text: with_forwarding(message, text),
        replied_to_message_id: 0,
        replied_to_user_id: 0,
        replied_to_full_name: String::new(),
        replied_to_username: String::new(),
        replied_to_text: String::new(),
        replied_to_chat_type: String::new(),
        chatted_at: telegram_date_to_unix_millis(message.date),
    }
}

fn assign_reply_message_data(
    row: NewTelegramChatHistory,
    reply: &CapturedMessage,
    text: String,
) -> (out: NewTelegramChatHistory)
    ensures
        out@ == replying_row(row@, *reply, text@),
{
    if text.as_str().is_empty() {
        return row;
    }
    NewTelegramChatHistory {
        chat_id: row.chat_id,
        chat_type: row.chat_type,
        chat_title: row.chat_title,
        message_id: row.message_id,
        user_id: row.user_id,
        username: row.username,
        full_name: row.full_name,
        text: row.text,
        replied_to_message_id: reply.message_id,
        replied_to_user_id: reply.from.id,
        replied_to_full_name: full_name_from_first_and_last_name(
            reply.from.first_name.as_str(),
            reply.from.last_name.as_str(),
        ),
        replied_to_username: reply.from.username.clone(),
        replied_to_text: text,
        replied_to_chat_type: reply.chat.kind.clone(),
        chatted_at: row.chatted_at,
    }
}

/// What is to be done to capture a message.
pub fn capture_message_step(
    message: &CapturedMessage,
    progress: &TextProgress,
    reply_progress: &TextProgress,
) -> (step: CaptureStep)
    ensures
        step@ == capture_step(*message, *progress, *reply_progress),
{
    let text: String = match extract_text_guarded_step(Some(message), progress) {
        TextStep::ResolveLinks => {
            return CaptureStep::ResolveLinks;
        },
        TextStep::Summarize { content } => {
            return CaptureStep::Summarize { content };
        },
        TextStep::Failed => {
            return CaptureStep::Failed;
        },
        TextStep::Text(text) => text,
    };
    if text.as_str().is_empty() {
        return CaptureStep::Skip;
    }
    let row: NewTelegramChatHistory = row_of(message, text.as_str());
    match &message.reply_to_message {
        None => CaptureStep::Row(row),
        Some(reply) => match extract_text_with_summarization_step(reply, reply_progress) {
            TextStep::ResolveLinks => CaptureStep::ResolveReplyLinks,
            TextStep::Summarize { content } => CaptureStep::SummarizeReply { content },
            TextStep::Failed => CaptureStep::Failed,
            TextStep::Text(reply_text) => CaptureStep::Row(
                assign_reply_message_data(row, reply, reply_text),
            ),
        },
    }
}

/// What is to be done to capture an edited message.
#[derive(Debug, PartialEq, Eq)]
pub enum EditedStep {
    ResolveLinks,
    Summarize { content: String },
    /// Nothing changes.
    Skip,
    Edited(EditedMessageCapture),
    Failed,
}

#[verifier::ext_equal]
pub enum EditedModel {
    ResolveLinks,
    Summarize(Seq<char>),
    Skip,
    Edited(i64, i64, Seq<char>),
    Failed,
}

impl View for EditedStep {
    type V = EditedModel;

    open spec fn view(&self) -> EditedModel {
        match self {
            EditedStep::ResolveLinks => EditedModel::ResolveLinks,
            EditedStep::Summarize { content } => EditedModel::Summarize(content@),
            EditedStep::Skip => EditedModel::Skip,
            EditedStep::Edited(edit) => EditedModel::Edited(
                edit.chat_id,
                edit.message_id,
                edit.text@,
            ),
            EditedStep::Failed => EditedModel::Failed,
        }
    }
}

/// What is to be done to capture an edited message: an empty text changes nothing, and no
/// forwarding is noted.
pub open spec fn edited_step(
    message: Option<&CapturedMessage>,
    progress: TextProgress,
) -> EditedModel {
    match guarded_step(message, progress) {
        TextStepModel::ResolveLinks => EditedModel::ResolveLinks,
        TextStepModel::Summarize(content) => EditedModel::Summarize(content),
        TextStepModel::Failed => EditedModel::Failed,
        TextStepModel::Text(text) => match message {
            Some(message) => if text.len() == 0 {
                EditedModel::Skip
            } else {
                EditedModel::Edited(message.chat.id, message.message_id, text)
            },
            None => EditedModel::Skip,
        },
    }
}

/// What is to be done to capture an edited message.
pub fn capture_edited_message_step(
    message: Option<&CapturedMessage>,
    progress: &TextProgress,
) -> (step: EditedStep)
    ensures
        step@ == edited_step(message, *progress),
{
    match extract_text_guarded_step(message, progress) {
        TextStep::ResolveLinks => EditedStep::ResolveLinks,
        TextStep::Summarize { content } => EditedStep::Summarize { content },
        TextStep::Failed => EditedStep::Failed,
        TextStep::Text(text) => match message {
            Some(message) => if text.as_str().is_empty() {
                EditedStep::Skip
            } else {
                EditedStep::Edited(
                    EditedMessageCapture {
                        chat_id: message.chat.id,
                        message_id: message.message_id,
                        text,
                    },
                )
            },
            None => EditedStep::Skip,
        },
    }
}

/// An empty message is never stored, and a stored message has a text.
pub proof fn lemma_stored_rows_have_text(
    message: CapturedMessage,
    progress: TextProgress,
    reply_progress: TextProgress,
)
    ensures
        is_empty_message(message) ==> capture_step(message, progress, reply_progress)
            == CaptureModel::Skip,
        match capture_step(message, progress, reply_progress) {
            CaptureModel::Row(row) => row.text.len() > 0,
            _ => true,
        },
{
}

} // verus!
