//! Chat transcripts for the models, and structured summaries as text.

use vstd::prelude::*;

use crate::db::models::ChatHistory;
use crate::numeral::{self, format_i64, format_u64};
use crate::services::prompts::{DiscussionPoint, TopicSummary};
use crate::text;

pub use crate::services::completion::{
    GO_OPENAI_REQUESTS_PER_SECOND, SARCASTIC_CONDENSE_OPERATION,
    SUMMARIZE_ANY_OPERATION, SUMMARIZE_CHAT_HISTORIES_OPERATION,
    SUMMARIZE_ONE_CHAT_HISTORY_OPERATION,
};
pub use crate::services::condensed::{CondensedGenerationError, CondensedResult};
pub use crate::services::detailed::{DetailedGenerationError, DetailedSliceResult};

verus! {

// ---------------------------------------------------------------------------
// Transcripts
// ---------------------------------------------------------------------------

/// How a sender is shown: the full name without `#`, unless it is long and there is a
/// username.
pub open spec fn sender_name(full_name: Seq<char>, username: Seq<char>) -> Seq<char> {
    if full_name.len() >= 10 && username.len() > 0 {
        username
    } else if full_name.len() > 0 {
        text::replaced(full_name, "#"@, ""@)
    } else if username.len() > 0 {
        username
    } else {
        "unknown"@
    }
}

pub fn format_user_name(full_name: &str, username: &str) -> (out: String)
    ensures
        out@ == sender_name(full_name@, username@),
{
    proof {
        reveal_strlit("#");
    }
    if full_name.unicode_len() >= 10 && username.unicode_len() > 0 {
        username.to_owned()
    } else if full_name.unicode_len() > 0 {
        text::replace(full_name, "#", "")
    } else if username.unicode_len() > 0 {
        username.to_owned()
    } else {
        "unknown".to_owned()
    }
}

/// What of a stored message stands in a transcript.
pub struct HistoryModel {
    pub message_id: int,
    pub full_name: Seq<char>,
    pub username: Seq<char>,
    pub text: Seq<char>,
}

pub open spec fn history_model(history: ChatHistory) -> HistoryModel {
    HistoryModel {
        message_id: history.message_id as int,
        full_name: history.from_full_name@,
        username: history.from_username@,
        text: history.text@,
    }
}

pub open spec fn histories_model(histories: Seq<ChatHistory>) -> Seq<HistoryModel> {
    Seq::new(histories.len(), |i: int| history_model(histories[i]))
}

pub open spec fn transcript_line(history: HistoryModel) -> Seq<char> {
    "msgId:"@ + numeral::decimal(history.message_id) + ": "@ + sender_name(
        history.full_name,
        history.username,
    ) + " sent: "@ + history.text
}

/// The lines of the messages from `i` on that have text.
pub open spec fn transcript_lines(histories: Seq<HistoryModel>, i: int) -> Seq<Seq<char>>
    decreases histories.len() - i,
{
    if i < 0 || i >= histories.len() {
        Seq::empty()
    } else if histories[i].text.len() == 0 {
        transcript_lines(histories, i + 1)
    } else {
        seq![transcript_line(histories[i])] + transcript_lines(histories, i + 1)
    }
}

/// The transcript of the messages that have text, one line each.
pub fn format_messages(histories: &Vec<ChatHistory>) -> (out: String)
    ensures
        out@ == text::join_spec(transcript_lines(histories_model(histories@), 0), "\n"@),
{
    let ghost all = histories_model(histories@);
    let mut lines: Vec<String> = Vec::new();
    let mut i: usize = 0;
    assert(text::texts(lines@) + transcript_lines(all, 0) =~= transcript_lines(all, 0));
    while i < histories.len()
        invariant
            i <= histories.len(),
            all == histories_model(histories@),
            text::texts(lines@) + transcript_lines(all, i as int) == transcript_lines(all, 0),
        decreases histories.len() - i,
    {
        let ghost before = text::texts(lines@);
        let ghost rest = transcript_lines(all, i as int);
        let history: &ChatHistory = &histories[i];
        assert(all[i as int] == history_model(*history));
        if history.text.as_str().unicode_len() > 0 {
            let sender: String = format_user_name(
                history.from_full_name.as_str(),
                history.from_username.as_str(),
            );
            let id: String = format_i64(history.message_id);
            let mut line: String = text::joined3("msgId:", id.as_str(), ": ");
            line.append(sender.as_str());
            line.append(" sent: ");
            line.append(history.text.as_str());
            assert(line@ =~= transcript_line(all[i as int]));
            lines.push(line);
            assert(text::texts(lines@) =~= before.push(line@));
        }
        i = i + 1;
        assert(text::texts(lines@) + transcript_lines(all, i as int) =~= before + rest);
    }
    assert(text::texts(lines@) =~= transcript_lines(all, 0));
    text::join(&lines, "\n")
}

/// A text without the code fence that may stand around it.
pub open spec fn unfenced(s: Seq<char>) -> Seq<char> {
    let cut = text::trimmed(s);
    if !"```"@.is_prefix_of(cut) {
        cut
    } else {
        match text::found(cut, "\n"@) {
            None => cut,
            Some(end) => {
                let body = cut.subrange(end + 1, cut.len() as int);
                match text::found_last(body, "```"@) {
                    None => cut,
                    Some(close) => text::trimmed(body.subrange(0, close)),
                }
            },
        }
    }
}

/// A response without the code fence that may stand around it.
pub fn extract_json_from_response(response: &str) -> (out: String)
    ensures
        out@ == unfenced(response@),
{
    proof {
        reveal_strlit("\n");
    }
    let cut: String = text::trim(response);
    if text::starts_with(cut.as_str(), "```") {
        match text::find(cut.as_str(), "\n") {
            Some(end) => {
                let body: String = text::suffix_from(cut.as_str(), end + 1);
                match text::rfind(body.as_str(), "```") {
                    Some(close) => {
                        return text::trim(text::prefix_to(body.as_str(), close).as_str());
                    },
                    None => {},
                }
            },
            None => {},
        }
    }
    cut
}

// ---------------------------------------------------------------------------
// Structured summaries
// ---------------------------------------------------------------------------

#[verifier::ext_equal]
pub struct PointModel {
    pub point: Seq<char>,
    pub key_ids: Seq<i64>,
}

#[verifier::ext_equal]
pub struct TopicModel {
    pub topic_name: Seq<char>,
    pub since_id: i64,
    pub participants: Seq<Seq<char>>,
    pub discussion: Seq<PointModel>,
    pub conclusion: Option<Seq<char>>,
}

pub open spec fn points_model(points: Seq<DiscussionPoint>) -> Seq<PointModel> {
    Seq::new(
        points.len(),
        |i: int| PointModel { point: points[i].point@, key_ids: points[i].key_ids@ },
    )
}

pub open spec fn topic_model(topic: TopicSummary) -> TopicModel {
    TopicModel {
        topic_name: topic.topic_name@,
        since_id: topic.since_id,
        participants: text::texts(topic.participants@),
        discussion: points_model(topic.discussion@),
        conclusion: text::viewed(topic.conclusion),
    }
}

pub open spec fn topics_model(topics: Seq<TopicSummary>) -> Seq<TopicModel> {
    Seq::new(topics.len(), |i: int| topic_model(topics[i]))
}

/// The words of a language that a summary is laid out with.
#[derive(Debug)]
pub struct SummaryLabels {
    pub participants: String,
    pub discussion: String,
    pub conclusion: String,
    pub colon: String,
    pub comma: String,
}

#[verifier::ext_equal]
pub struct LabelsModel {
    pub participants: Seq<char>,
    pub discussion: Seq<char>,
    pub conclusion: Seq<char>,
    pub colon: Seq<char>,
    pub comma: Seq<char>,
}

impl View for SummaryLabels {
    type V = LabelsModel;

    open spec fn view(&self) -> LabelsModel {
        LabelsModel {
            participants: self.participants@,
            discussion: self.discussion@,
            conclusion: self.conclusion@,
            colon: self.colon@,
            comma: self.comma@,
        }
    }
}

pub open spec fn html_escaped(s: Seq<char>) -> Seq<char> {
    text::replaced(
        text::replaced(text::replaced(s, "&"@, "&amp;"@), "<"@, "&lt;"@),
        ">"@,
        "&gt;"@,
    )
}

/// `source` with the characters that Telegram's HTML reserves escaped.
pub fn escape_html(source: &str) -> (out: String)
    ensures
        out@ == html_escaped(source@),
{
    proof {
        reveal_strlit("&");
        reveal_strlit("<");
        reveal_strlit(">");
    }
    let first: String = text::replace(source, "&", "&amp;");
    let second: String = text::replace(first.as_str(), "<", "&lt;");
    text::replace(second.as_str(), ">", "&gt;")
}

/// A text of a model as it is shown.
pub open spec fn shown(s: Seq<char>, html: bool) -> Seq<char> {
    if html {
        html_escaped(s)
    } else {
        s
    }
}

fn show(source: &str, html: bool) -> (out: String)
    ensures
        out@ == shown(source@, html),
{
    if html {
        escape_html(source)
    } else {
        source.to_owned()
    }
}

/// The number of a chat in links: without the prefix of supergroups.
pub open spec fn link_number(chat_id: int) -> int {
    if chat_id < 0 {
        -chat_id - 1_000_000_000_000
    } else {
        chat_id
    }
}

pub open spec fn link_to(chat_id: int, message_id: int) -> Seq<char> {
    "<a href=\"https://t.me/c/"@ + numeral::decimal(link_number(chat_id)) + "/"@
        + numeral::decimal(message_id) + "\">"@
}

pub open spec fn heading(topic: TopicModel, chat_id: int, html: bool) -> Seq<char> {
    let name = shown(topic.topic_name, html);
    let linked = if topic.since_id > 0 {
        link_to(chat_id, topic.since_id as int) + name + "</a>"@
    } else {
        name
    };
    if html {
        "<b>"@ + linked + "</b>"@
    } else {
        "## "@ + linked
    }
}

pub open spec fn shown_all(names: Seq<Seq<char>>, html: bool) -> Seq<Seq<char>> {
    Seq::new(names.len(), |i: int| shown(names[i], html))
}

pub open spec fn key_links(key_ids: Seq<i64>, chat_id: int) -> Seq<Seq<char>> {
    Seq::new(
        key_ids.len(),
        |i: int|
            link_to(chat_id, key_ids[i] as int) + "["@ + numeral::decimal(i + 1) + "]</a>"@,
    )
}

pub open spec fn point_line(point: PointModel, chat_id: int, html: bool) -> Seq<char> {
    (if html {
        " • "@
    } else {
        " - "@
    }) + shown(point.point, html) + if point.key_ids.len() == 0 {
        Seq::empty()
    } else {
        " "@ + text::join_spec(key_links(point.key_ids, chat_id), " "@)
    }
}

pub open spec fn point_lines(points: Seq<PointModel>, chat_id: int, html: bool) -> Seq<Seq<char>> {
    Seq::new(points.len(), |i: int| point_line(points[i], chat_id, html))
}

pub open spec fn conclusion_lines(
    conclusion: Option<Seq<char>>,
    labels: LabelsModel,
    html: bool,
) -> Seq<Seq<char>> {
    match conclusion {
        Some(found) => if found.len() > 0 {
            seq![labels.conclusion + labels.colon + shown(found, html)]
        } else {
            Seq::empty()
        },
        None => Seq::empty(),
    }
}

/// The lines of one topic, with an empty one behind it.
pub open spec fn topic_lines(
    topic: TopicModel,
    labels: LabelsModel,
    chat_id: int,
    html: bool,
) -> Seq<Seq<char>> {
    seq![
        heading(topic, chat_id, html),
        labels.participants + labels.colon + text::join_spec(
            shown_all(topic.participants, html),
            labels.comma,
        ),
        labels.discussion + labels.colon,
    ] + point_lines(topic.discussion, chat_id, html) + conclusion_lines(
        topic.conclusion,
        labels,
        html,
    ) + seq![Seq::<char>::empty()]
}

/// The lines of the topics from `i` on.
pub open spec fn summary_lines(
    topics: Seq<TopicModel>,
    i: int,
    labels: LabelsModel,
    chat_id: int,
    html: bool,
) -> Seq<Seq<char>>
    decreases topics.len() - i,
{
    if i < 0 || i >= topics.len() {
        Seq::empty()
    } else {
        topic_lines(topics[i], labels, chat_id, html) + summary_lines(
            topics,
            i + 1,
            labels,
            chat_id,
            html,
        )
    }
}

/// A structured summary as text.
pub open spec fn laid_out(
    topics: Seq<TopicModel>,
    labels: LabelsModel,
    chat_id: int,
    html: bool,
) -> Seq<char> {
    if topics.len() == 0 {
        "No discussion topics identified."@
    } else {
        text::join_spec(summary_lines(topics, 0, labels, chat_id, html), "\n"@)
    }
}

fn link_start(chat_id: i64, message_id: i64) -> (out: String)
    requires
        chat_id > i64::MIN,
    ensures
        out@ == link_to(chat_id as int, message_id as int),
{
    let number: i64 = if chat_id < 0 {
        -chat_id - 1_000_000_000_000
    } else {
        chat_id
    };
    let chat: String = format_i64(number);
    let message: String = format_i64(message_id);
    let mut out: String = text::joined3("<a href=\"https://t.me/c/", chat.as_str(), "/");
    out.append(message.as_str());
    out.append("\">");
    assert(out@ =~= link_to(chat_id as int, message_id as int));
    out
}

fn heading_of(topic: &TopicSummary, chat_id: i64, html: bool) -> (out: String)
    requires
        chat_id > i64::MIN,
    ensures
        out@ == heading(topic_model(*topic), chat_id as int, html),
{
    let name: String = show(topic.topic_name.as_str(), html);
    let linked: String = if topic.since_id > 0 {
        let start: String = link_start(chat_id, topic.since_id);
        text::joined3(start.as_str(), name.as_str(), "</a>")
    } else {
        name
    };
    if html {
        text::joined3("<b>", linked.as_str(), "</b>")
    } else {
        text::joined2("## ", linked.as_str())
    }
}

fn show_all(names: &Vec<String>, html: bool) -> (out: Vec<String>)
    ensures
        text::texts(out@) == shown_all(text::texts(names@), html),
{
    let mut out: Vec<String> = Vec::new();
    let mut i: usize = 0;
    while i < names.len()
        invariant
            i <= names.len(),
            out.len() == i,
            forall|k: int| 0 <= k < i ==> (#[trigger] out@[k])@ == shown(names@[k]@, html),
        decreases names.len() - i,
    {
        out.push(show(names[i].as_str(), html));
        i = i + 1;
    }
    assert(text::texts(out@) =~= shown_all(text::texts(names@), html));
    out
}

fn links_of(key_ids: &Vec<i64>, chat_id: i64) -> (out: Vec<String>)
    requires
        chat_id > i64::MIN,
    ensures
        text::texts(out@) == key_links(key_ids@, chat_id as int),
{
    let ghost wanted = key_links(key_ids@, chat_id as int);
    let mut out: Vec<String> = Vec::new();
    let mut i: usize = 0;
    while i < key_ids.len()
        invariant
            i <= key_ids.len(),
            chat_id > i64::MIN,
            out.len() == i,
            wanted == key_links(key_ids@, chat_id as int),
            forall|k: int| 0 <= k < i ==> (#[trigger] out@[k])@ == wanted[k],
        decreases key_ids.len() - i,
    {
        let mut link: String = link_start(chat_id, key_ids[i]);
        let number: String = format_u64((i + 1) as u64);
        link.append("[");
        link.append(number.as_str());
        link.append("]</a>");
        assert(link@ =~= wanted[i as int]);
        out.push(link);
        i = i + 1;
    }
    assert(text::texts(out@) =~= wanted);
    out
}

fn point_of(point: &DiscussionPoint, chat_id: i64, html: bool) -> (out: String)
    requires
        chat_id > i64::MIN,
    ensures
        out@ == point_line(
            PointModel { point: point.point@, key_ids: point.key_ids@ },
            chat_id as int,
            html,
        ),
{
    let bullet: &str = if html {
        " • "
    } else {
        " - "
    };
    let said: String = show(point.point.as_str(), html);
    let mut out: String = text::joined2(bullet, said.as_str());
    if point.key_ids.len() > 0 {
        let links: Vec<String> = links_of(&point.key_ids, chat_id);
        out.append(" ");
        out.append(text::join(&links, " ").as_str());
    }
    assert(out@ =~= point_line(
        PointModel { point: point.point@, key_ids: point.key_ids@ },
        chat_id as int,
        html,
    ));
    out
}

fn add_topic(
    lines: &mut Vec<String>,
    topic: &TopicSummary,
    labels: &SummaryLabels,
    chat_id: i64,
    html: bool,
)
    requires
        chat_id > i64::MIN,
    ensures
        text::texts(final(lines)@) == text::texts(old(lines)@) + topic_lines(
            topic_model(*topic),
            labels@,
            chat_id as int,
            html,
        ),
{
    let ghost model = topic_model(*topic);
    let ghost start = text::texts(lines@);
    lines.push(heading_of(topic, chat_id, html));
    let names: Vec<String> = show_all(&topic.participants, html);
    let joined: String = text::join(&names, labels.comma.as_str());
    lines.push(
        text::joined3(labels.participants.as_str(), labels.colon.as_str(), joined.as_str()),
    );
    lines.push(text::joined2(labels.discussion.as_str(), labels.colon.as_str()));
    let ghost opening = seq![
        heading(model, chat_id as int, html),
        labels@.participants + labels@.colon + text::join_spec(
            shown_all(model.participants, html),
            labels@.comma,
        ),
        labels@.discussion + labels@.colon,
    ];
    assert(text::texts(lines@) =~= start + opening);
    let ghost points = point_lines(model.discussion, chat_id as int, html);
    let mut i: usize = 0;
    while i < topic.discussion.len()
        invariant
            i <= topic.discussion.len(),
            chat_id > i64::MIN,
            model == topic_model(*topic),
            points == point_lines(model.discussion, chat_id as int, html),
            text::texts(lines@) == start + opening + points.take(i as int),
        decreases topic.discussion.len() - i,
    {
        let ghost before = text::texts(lines@);
        let line: String = point_of(&topic.discussion[i], chat_id, html);
        assert(model.discussion[i as int] == (PointModel {
            point: topic.discussion@[i as int].point@,
            key_ids: topic.discussion@[i as int].key_ids@,
        }));
        assert(line@ == points[i as int]);
        lines.push(line);
        i = i + 1;
        assert(text::texts(lines@) =~= before.push(line@));
        assert(points.take(i as int) =~= points.take(i - 1).push(points[i - 1]));
        assert(text::texts(lines@) =~= start + opening + points.take(i as int));
    }
    assert(points.take(i as int) =~= points);
    let ghost mid = text::texts(lines@);
    match &topic.conclusion {
        Some(found) => {
            if found.as_str().unicode_len() > 0 {
                let said: String = show(found.as_str(), html);
                let line: String = text::joined3(
                    labels.conclusion.as_str(),
                    labels.colon.as_str(),
                    said.as_str(),
                );
                lines.push(line);
                assert(text::texts(lines@) =~= mid.push(line@));
            }
        },
        None => {},
    }
    assert(text::texts(lines@) =~= mid + conclusion_lines(model.conclusion, labels@, html));
    let ghost late = text::texts(lines@);
    lines.push(String::new());
    assert(text::texts(lines@) =~= late.push(Seq::<char>::empty()));
    assert(text::texts(lines@) =~= start + topic_lines(model, labels@, chat_id as int, html));
}

/// A structured summary as text, in HTML or in Markdown.
pub fn format_topics(
    topics: &Vec<TopicSummary>,
    labels: &SummaryLabels,
    chat_id: i64,
    html: bool,
) -> (out: String)
    requires
        chat_id > i64::MIN,
    ensures
        out@ == laid_out(topics_model(topics@), labels@, chat_id as int, html),
{
    if topics.len() == 0 {
        return "No discussion topics identified.".to_owned();
    }
    let ghost all = topics_model(topics@);
    let ghost whole = summary_lines(all, 0, labels@, chat_id as int, html);
    let mut lines: Vec<String> = Vec::new();
    let mut i: usize = 0;
    assert(text::texts(lines@) + whole =~= whole);
    while i < topics.len()
        invariant
            i <= topics.len(),
            chat_id > i64::MIN,
            all == topics_model(topics@),
            whole == summary_lines(all, 0, labels@, chat_id as int, html),
            text::texts(lines@) + summary_lines(all, i as int, labels@, chat_id as int, html)
                == whole,
        decreases topics.len() - i,
    {
        let ghost before = text::texts(lines@);
        let ghost rest = summary_lines(all, i as int, labels@, chat_id as int, html);
        assert(all[i as int] == topic_model(topics@[i as int]));
        add_topic(&mut lines, &topics[i], labels, chat_id, html);
        i = i + 1;
        assert(text::texts(lines@) + summary_lines(all, i as int, labels@, chat_id as int, html)
            =~= before + rest);
    }
    assert(text::texts(lines@) =~= whole);
    text::join(&lines, "\n")
}

/// A structured summary in Telegram's HTML: what the model wrote is escaped.
pub fn format_topics_to_telegram_html(
    topics: &Vec<TopicSummary>,
    labels: &SummaryLabels,
    chat_id: i64,
) -> (out: String)
    requires
        chat_id > i64::MIN,
    ensures
        out@ == laid_out(topics_model(topics@), labels@, chat_id as int, true),
{
    format_topics(topics, labels, chat_id, true)
}

/// A structured summary in Markdown.
pub fn format_topics_to_markdown(
    topics: &Vec<TopicSummary>,
    labels: &SummaryLabels,
    chat_id: i64,
) -> (out: String)
    requires
        chat_id > i64::MIN,
    ensures
        out@ == laid_out(topics_model(topics@), labels@, chat_id as int, false),
{
    format_topics(topics, labels, chat_id, false)
}

// ---------------------------------------------------------------------------
// Model status
// ---------------------------------------------------------------------------

/// Whether the check model was used, and how it went.
#[derive(Debug, PartialEq, Eq)]
pub struct CheckModelTrace {
    pub model: String,
    pub backup_model: String,
    pub attempted: bool,
    pub succeeded: bool,
    pub failed: bool,
    pub backup_used: bool,
    pub backup_succeeded: bool,
}

#[verifier::ext_equal]
pub struct CheckTraceModel {
    pub model: Seq<char>,
    pub backup_model: Seq<char>,
    pub attempted: bool,
    pub succeeded: bool,
    pub failed: bool,
    pub backup_used: bool,
    pub backup_succeeded: bool,
}

impl View for CheckModelTrace {
    type V = CheckTraceModel;

    open spec fn view(&self) -> CheckTraceModel {
        CheckTraceModel {
            model: self.model@,
            backup_model: self.backup_model@,
            attempted: self.attempted,
            succeeded: self.succeeded,
            failed: self.failed,
            backup_used: self.backup_used,
            backup_succeeded: self.backup_succeeded,
        }
    }
}

impl Default for CheckModelTrace {
    fn default() -> (r: Self)
        ensures
            r@ == (CheckTraceModel {
                model: Seq::empty(),
                backup_model: Seq::empty(),
                attempted: false,
                succeeded: false,
                failed: false,
                backup_used: false,
                backup_succeeded: false,
            }),
    {
        let r = CheckModelTrace {
            model: String::new(),
            backup_model: String::new(),
            attempted: false,
            succeeded: false,
            failed: false,
            backup_used: false,
            backup_succeeded: false,
        };
        assert(r@.model =~= Seq::<char>::empty() && r@.backup_model =~= Seq::<char>::empty());
        r
    }
}

/// The models behind a recap, and how the check went.
#[derive(Debug, PartialEq, Eq)]
pub struct RecapTrace {
    pub condensed_model: String,
    pub segmented_model: String,
    pub check: CheckModelTrace,
}

/// A recap in both forms, the detailed one as Markdown and as HTML.
#[derive(Debug, PartialEq, Eq)]
pub struct RecapOutput {
    pub condensed_summary: String,
    pub segmented_summary: String,
    pub segmented_summary_html: String,
    pub trace: RecapTrace,
    /// Unix seconds.
    pub created_at: i64,
}

/// One line of the status footer, to be put into words.
#[derive(Debug, PartialEq, Eq)]
pub struct FooterLine {
    /// The name of the message.
    pub key: &'static str,
    pub model: String,
    pub backup_model: String,
}

#[verifier::ext_equal]
pub struct FooterModel {
    pub key: Seq<char>,
    pub model: Seq<char>,
    pub backup_model: Seq<char>,
}

impl View for FooterLine {
    type V = FooterModel;

    open spec fn view(&self) -> FooterModel {
        FooterModel { key: self.key@, model: self.model@, backup_model: self.backup_model@ }
    }
}

/// What is said of the check model.
pub open spec fn check_footer(check: CheckTraceModel) -> FooterModel {
    let key = if check.model.len() == 0 {
        "footer.check_not_configured"@
    } else if check.attempted && check.succeeded && check.backup_used {
        "footer.check_backup_success"@
    } else if check.attempted && check.failed && check.backup_used {
        "footer.check_backup_failed"@
    } else if check.attempted && check.failed {
        "footer.check_failed"@
    } else if check.attempted && check.succeeded {
        "footer.check_success"@
    } else {
        "footer.check_not_triggered"@
    };
    FooterModel { key, model: check.model, backup_model: check.backup_model }
}

pub open spec fn model_footer(key: Seq<char>, model: Seq<char>) -> FooterModel {
    FooterModel { key, model, backup_model: Seq::empty() }
}

/// Whether `translate` puts every footer line into the words that `words` gives.
pub open spec fn speaks<F: Fn(&FooterLine) -> String>(
    translate: F,
    words: spec_fn(FooterModel) -> Seq<char>,
) -> bool {
    forall|line: &FooterLine, out: String| #[trigger]
        translate.ensures((line,), out) ==> out@ == words(line@)
}

impl RecapTrace {
    /// What is said of the check model.
    pub fn check_line(&self) -> (line: FooterLine)
        ensures
            line@ == check_footer(self.check@),
    {
        let check: &CheckModelTrace = &self.check;
        let key: &'static str = if check.model.as_str().unicode_len() == 0 {
            "footer.check_not_configured"
        } else if check.attempted && check.succeeded && check.backup_used {
            "footer.check_backup_success"
        } else if check.attempted && check.failed && check.backup_used {
            "footer.check_backup_failed"
        } else if check.attempted && check.failed {
            "footer.check_failed"
        } else if check.attempted && check.succeeded {
            "footer.check_success"
        } else {
            "footer.check_not_triggered"
        };
        FooterLine { key, model: check.model.clone(), backup_model: check.backup_model.clone() }
    }

    /// The three lines of the status footer in the words of `translate`.
    pub fn build_status_lines<F: Fn(&FooterLine) -> String>(&self, translate: F) -> (out: String)
        requires
            forall|line: &FooterLine| translate.requires((line,)),
        ensures
            forall|words: spec_fn(FooterModel) -> Seq<char>| #[trigger]
                speaks(translate, words) ==> out@ == words(
                    model_footer("footer.condensed"@, self.condensed_model@),
                ) + "\n"@ + words(model_footer("footer.segmented"@, self.segmented_model@)) + "\n"@
                    + words(check_footer(self.check@)),
    {
        let condensed = FooterLine {
            key: "footer.condensed",
            model: self.condensed_model.clone(),
            backup_model: String::new(),
        };
        let segmented = FooterLine {
            key: "footer.segmented",
            model: self.segmented_model.clone(),
            backup_model: String::new(),
        };
        assert(condensed@ =~= model_footer("footer.condensed"@, self.condensed_model@));
        assert(segmented@ =~= model_footer("footer.segmented"@, self.segmented_model@));
        let mut out: String = translate(&condensed);
        out.append("\n");
        out.append(translate(&segmented).as_str());
        out.append("\n");
        out.append(translate(&self.check_line()).as_str());
        out
    }
}

} // verus!
