//! What holds of structured summaries: what the model reads of a chat, and how its topics
//! are laid out.

use vstd::prelude::*;

use crate::numeral;
use crate::services::openai::{self, HistoryModel, LabelsModel, PointModel, TopicModel};
use crate::text;

verus! {

/// The transcript has a line for every message that has text, in order: one more message
/// comes last and changes nothing before it.
pub proof fn lemma_transcript_in_order(histories: Seq<HistoryModel>, more: HistoryModel)
    ensures
        openai::transcript_lines(histories.push(more), 0) == if more.text.len() == 0 {
            openai::transcript_lines(histories, 0)
        } else {
            openai::transcript_lines(histories, 0).push(
                "msgId:"@ + numeral::decimal(more.message_id) + ": "@ + openai::sender_name(
                    more.full_name,
                    more.username,
                ) + " sent: "@ + more.text,
            )
        },
        openai::transcript_lines(Seq::empty(), 0).len() == 0,
{
    lemma_transcript_from(histories, more, 0);
}

proof fn lemma_transcript_from(histories: Seq<HistoryModel>, more: HistoryModel, i: int)
    requires
        0 <= i <= histories.len(),
    ensures
        openai::transcript_lines(histories.push(more), i) == if more.text.len() == 0 {
            openai::transcript_lines(histories, i)
        } else {
            openai::transcript_lines(histories, i).push(openai::transcript_line(more))
        },
    decreases histories.len() - i,
{
    let longer = histories.push(more);
    if i < histories.len() {
        assert(longer[i] == histories[i]);
        lemma_transcript_from(histories, more, i + 1);
    } else {
        assert(longer[i] == more);
        assert(openai::transcript_lines(longer, i + 1) =~= Seq::<Seq<char>>::empty());
    }
    if more.text.len() == 0 {
        assert(openai::transcript_lines(longer, i) =~= openai::transcript_lines(histories, i));
    } else {
        assert(openai::transcript_lines(longer, i) =~= openai::transcript_lines(histories, i).push(
            openai::transcript_line(more),
        ));
    }
}

/// A sender goes by the username where the full name has ten characters or more, else by
/// the full name without number signs, else by the username, and else is unknown.
pub proof fn lemma_senders_are_named(full_name: Seq<char>, username: Seq<char>)
    ensures
        ({
            let shown = openai::sender_name(full_name, username);
            &&& full_name.len() >= 10 && username.len() > 0 ==> shown == username
            &&& 0 < full_name.len() < 10 ==> shown == text::replaced(full_name, "#"@, ""@)
            &&& full_name.len() > 0 && username.len() == 0 ==> shown == text::replaced(
                full_name,
                "#"@,
                ""@,
            )
            &&& full_name.len() == 0 && username.len() > 0 ==> shown == username
            &&& full_name.len() == 0 && username.len() == 0 ==> shown == "unknown"@
        }),
{
}

/// Whether a text starts and ends with something that shows.
pub open spec fn tight(s: Seq<char>) -> bool {
    s.len() > 0 && !text::is_white(s[0]) && !text::is_white(s.last())
}

proof fn lemma_tight(s: Seq<char>)
    requires
        tight(s),
    ensures
        text::trimmed(s) == s,
{
    let (a, b) = text::lemma_trimmed_shape(s);
    if a > 0 {
        assert(text::is_white(s[0]));
    }
    if b < s.len() {
        assert(text::is_white(s[s.len() - 1]));
    }
    assert(s.subrange(0, s.len() as int) =~= s);
}

/// A fence round a reply is taken off, and where there is none nothing is.
pub proof fn lemma_unfenced(kind: Seq<char>, body: Seq<char>)
    requires
        !kind.contains('\n'),
        tight(body),
    ensures
        !"```"@.is_prefix_of(body) ==> openai::unfenced(body) == body,
        openai::unfenced("```"@ + kind + "\n"@ + body + "```"@) == body,
{
    reveal_strlit("```");
    reveal_strlit("\n");
    lemma_tight(body);
    let fenced = "```"@ + kind + "\n"@ + body + "```"@;
    assert(fenced[0] == '`' && fenced.last() == '`');
    assert(!text::is_white('`'));
    lemma_tight(fenced);
    assert(fenced.subrange(0, 3) =~= "```"@);
    let end = 3 + kind.len() as int;
    assert(fenced.subrange(end, end + 1) =~= "\n"@);
    assert(text::matches_at(fenced, "\n"@, end));
    assert forall|k: int| 0 <= k < end implies !text::matches_at(fenced, "\n"@, k) by {
        if text::matches_at(fenced, "\n"@, k) {
            assert(fenced.subrange(k, k + 1)[0] == '\n');
            if k >= 3 {
                assert(fenced[k] == kind[k - 3]);
                assert(kind.contains(kind[k - 3]));
            }
        }
    }
    text::lemma_found(fenced, "\n"@, end);
    let rest = fenced.subrange(end + 1, fenced.len() as int);
    assert(rest =~= body + "```"@);
    let close = body.len() as int;
    assert(rest.subrange(close, close + 3) =~= "```"@);
    assert(text::matches_at(rest, "```"@, close));
    text::lemma_found_last(rest, "```"@, close);
    assert(rest.subrange(0, close) =~= body);
}

/// A link leads to the message in the chat, whose number loses the mark of supergroups.
pub proof fn lemma_links_lead_to_messages(bare: int, message_id: int)
    requires
        bare > 0,
    ensures
        openai::link_to(-1_000_000_000_000 - bare, message_id) == "<a href=\"https://t.me/c/"@
            + numeral::decimal(bare) + "/"@ + numeral::decimal(message_id) + "\">"@,
{
}

/// A topic is headed with its name, with a link to where it began; its participants come
/// next, then every point in order, then the conclusion, and an empty line.
pub proof fn lemma_topic_in_order(topic: TopicModel, labels: LabelsModel, chat_id: int, k: int)
    requires
        topic.since_id > 0,
        0 <= k < topic.discussion.len(),
    ensures
        ({
            let lines = openai::topic_lines(topic, labels, chat_id, false);
            let points = topic.discussion.len() as int;
            let ended = topic.conclusion is Some && topic.conclusion->0.len() > 0;
            &&& lines[0] == "## "@ + openai::link_to(chat_id, topic.since_id as int)
                + topic.topic_name + "</a>"@
            &&& lines[1] == labels.participants + labels.colon + text::join_spec(
                topic.participants,
                labels.comma,
            )
            &&& lines[2] == labels.discussion + labels.colon
            &&& (" - "@ + topic.discussion[k].point).is_prefix_of(lines[3 + k])
            &&& ended ==> lines[3 + points] == labels.conclusion + labels.colon
                + topic.conclusion->0
            &&& lines.last().len() == 0
            &&& lines.len() == points + if ended {
                5int
            } else {
                4
            }
        }),
{
    let lines = openai::topic_lines(topic, labels, chat_id, false);
    assert(openai::shown_all(topic.participants, false) =~= topic.participants);
    let line = openai::point_line(topic.discussion[k], chat_id, false);
    assert(lines[3 + k] == line);
    let beginning = " - "@ + topic.discussion[k].point;
    assert(line.subrange(0, beginning.len() as int) =~= beginning);
    assert(lines[0] =~= "## "@ + openai::link_to(chat_id, topic.since_id as int)
        + topic.topic_name + "</a>"@);
}

/// A topic in HTML has its name in bold and escapes what the model wrote.
pub proof fn lemma_topic_in_html(topic: TopicModel, labels: LabelsModel, chat_id: int, k: int)
    requires
        topic.since_id <= 0,
        0 <= k < topic.discussion.len(),
    ensures
        ({
            let lines = openai::topic_lines(topic, labels, chat_id, true);
            &&& lines[0] == "<b>"@ + openai::html_escaped(topic.topic_name) + "</b>"@
            &&& (" • "@ + openai::html_escaped(topic.discussion[k].point)).is_prefix_of(
                lines[3 + k],
            )
        }),
{
    let lines = openai::topic_lines(topic, labels, chat_id, true);
    let line = openai::point_line(topic.discussion[k], chat_id, true);
    assert(lines[3 + k] == line);
    let beginning = " • "@ + openai::html_escaped(topic.discussion[k].point);
    assert(line.subrange(0, beginning.len() as int) =~= beginning);
}

/// Behind a point stand links to its messages, numbered from one, in order.
pub proof fn lemma_points_link_their_messages(point: PointModel, chat_id: int, i: int)
    requires
        0 <= i < point.key_ids.len(),
    ensures
        ({
            let links = openai::key_links(point.key_ids, chat_id);
            let line = openai::point_line(point, chat_id, false);
            &&& links.len() == point.key_ids.len()
            &&& links[i] == openai::link_to(chat_id, point.key_ids[i] as int) + "["@
                + numeral::decimal(i + 1) + "]</a>"@
            &&& text::occurs(line, links[i])
        }),
{
    let links = openai::key_links(point.key_ids, chat_id);
    let line = openai::point_line(point, chat_id, false);
    let joined = text::join_spec(links, " "@);
    text::lemma_join_holds(links, " "@, i);
    let before = " - "@ + point.point + " "@;
    assert(line =~= before + joined + Seq::<char>::empty());
    text::lemma_occurs_within(before, joined, Seq::empty(), links[i]);
}

/// Topics are laid out in order: one more comes last.
pub proof fn lemma_topics_in_order(
    topics: Seq<TopicModel>,
    more: TopicModel,
    labels: LabelsModel,
    chat_id: int,
    html: bool,
)
    ensures
        openai::summary_lines(topics.push(more), 0, labels, chat_id, html) == openai::summary_lines(
            topics,
            0,
            labels,
            chat_id,
            html,
        ) + openai::topic_lines(more, labels, chat_id, html),
{
    lemma_topics_from(topics, more, 0, labels, chat_id, html);
}

proof fn lemma_topics_from(
    topics: Seq<TopicModel>,
    more: TopicModel,
    i: int,
    labels: LabelsModel,
    chat_id: int,
    html: bool,
)
    requires
        0 <= i <= topics.len(),
    ensures
        openai::summary_lines(topics.push(more), i, labels, chat_id, html) == openai::summary_lines(
            topics,
            i,
            labels,
            chat_id,
            html,
        ) + openai::topic_lines(more, labels, chat_id, html),
    decreases topics.len() - i,
{
    let longer = topics.push(more);
    if i < topics.len() {
        assert(longer[i] == topics[i]);
        lemma_topics_from(topics, more, i + 1, labels, chat_id, html);
    } else {
        assert(longer[i] == more);
        assert(openai::summary_lines(longer, i + 1, labels, chat_id, html) =~= Seq::<
            Seq<char>,
        >::empty());
    }
    assert(openai::summary_lines(longer, i, labels, chat_id, html) =~= openai::summary_lines(
        topics,
        i,
        labels,
        chat_id,
        html,
    ) + openai::topic_lines(more, labels, chat_id, html));
}

} // verus!
