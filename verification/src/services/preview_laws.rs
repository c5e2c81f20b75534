//! What holds of previews of links and of messages to Telegram: what is requested and as
//! whom, how a page is read, and which fields a message has.

use vstd::prelude::*;

use crate::numeral;
use crate::reply::Reply;
use crate::services::link_preview::{self, FetchModel, LinkPreviewError, PageFacts, Sniffed};
use crate::services::telegram_rich_message::{
    self, ResponseEnvelope, RichMessageReplyParameters, SendErrorModel,
};
use crate::text;

verus! {

// ---------------------------------------------------------------------------
// Addresses
// ---------------------------------------------------------------------------

/// Whether a text has none of the marks that end the host of an address.
pub open spec fn unbroken(s: Seq<char>) -> bool {
    !s.contains('/') && !s.contains('?') && !s.contains('#')
}

/// The host of an address stands between its scheme and its path, behind the name of a
/// user where there is one.
pub proof fn lemma_host_of_an_address(scheme: Seq<char>, host: Seq<char>, path: Seq<char>)
    requires
        !scheme.contains(':'),
        unbroken(host),
        !host.contains('@'),
    ensures
        link_preview::authority(scheme + "://"@ + host + "/"@ + path) == Some(host),
        link_preview::authority(scheme + "://"@ + host + "?"@ + path) == Some(host),
        link_preview::authority(scheme + "://"@ + host) == Some(host),
{
    reveal_strlit("/");
    reveal_strlit("?");
    assert(("/"@ + path)[0] == '/' && ("?"@ + path)[0] == '?');
    lemma_host_before(scheme, Seq::empty(), host, "/"@ + path);
    lemma_host_before(scheme, Seq::empty(), host, "?"@ + path);
    lemma_host_before(scheme, Seq::empty(), host, Seq::empty());
    let front = scheme + "://"@;
    assert(front + Seq::<char>::empty() + host + ("/"@ + path) =~= front + host + "/"@ + path);
    assert(front + Seq::<char>::empty() + host + ("?"@ + path) =~= front + host + "?"@ + path);
    assert(front + Seq::<char>::empty() + host + Seq::<char>::empty() =~= front + host);
}

/// The name of a user before the host does not count.
pub proof fn lemma_host_behind_a_user(
    scheme: Seq<char>,
    user: Seq<char>,
    host: Seq<char>,
    path: Seq<char>,
)
    requires
        !scheme.contains(':'),
        unbroken(user),
        unbroken(host),
        !host.contains('@'),
    ensures
        link_preview::authority(scheme + "://"@ + user + "@"@ + host + "/"@ + path) == Some(host),
{
    reveal_strlit("/");
    reveal_strlit("@");
    lemma_host_before(scheme, user + "@"@, host, "/"@ + path);
    let front = scheme + "://"@;
    assert(front + (user + "@"@) + host + ("/"@ + path) =~= front + user + "@"@ + host + "/"@
        + path);
}

proof fn lemma_host_before(scheme: Seq<char>, user: Seq<char>, host: Seq<char>, rest: Seq<char>)
    requires
        !scheme.contains(':'),
        unbroken(user),
        unbroken(host),
        !host.contains('@'),
        user.len() == 0 || user.last() == '@',
        rest.len() == 0 || rest[0] == '/' || rest[0] == '?',
    ensures
        link_preview::authority(scheme + "://"@ + user + host + rest) == Some(host),
{
    reveal_strlit("://");
    reveal_strlit("@");
    let url = scheme + "://"@ + user + host + rest;
    let at = scheme.len() as int;
    assert(url.subrange(at, at + 3) =~= "://"@);
    assert(text::matches_at(url, "://"@, at));
    assert forall|k: int| 0 <= k < at implies !text::matches_at(url, "://"@, k) by {
        if text::matches_at(url, "://"@, k) {
            assert(url.subrange(k, k + 3)[0] == ':');
            assert(url[k] == scheme[k]);
            assert(scheme.contains(scheme[k]));
        }
    }
    text::lemma_found(url, "://"@, at);
    let behind = url.skip(at + 3);
    let whole = user + host;
    assert(behind =~= whole + rest);
    lemma_ends_at(whole, rest, 0);
    assert(behind.take(whole.len() as int) =~= whole);
    if user.len() > 0 {
        let sign = user.len() - 1;
        assert(whole.subrange(sign, sign + 1) =~= "@"@);
        assert(text::matches_at(whole, "@"@, sign));
        assert forall|k: int| sign < k implies !text::matches_at(whole, "@"@, k) by {
            if text::matches_at(whole, "@"@, k) {
                assert(whole.subrange(k, k + 1)[0] == '@');
                assert(whole[k] == host[k - user.len()]);
                assert(host.contains(host[k - user.len()]));
            }
        }
        text::lemma_found_last(whole, "@"@, sign);
        assert(whole.skip(sign + 1) =~= host);
    } else {
        assert(whole =~= host);
        if text::occurs(whole, "@"@) {
            let k = choose|k: int| text::matches_at(whole, "@"@, k);
            assert(whole.subrange(k, k + 1)[0] == '@');
            assert(host.contains(host[k]));
        }
    }
}

proof fn lemma_ends_at(whole: Seq<char>, rest: Seq<char>, i: int)
    requires
        0 <= i <= whole.len(),
        forall|k: int|
            0 <= k < whole.len() ==> #[trigger] whole[k] != '/' && whole[k] != '?' && whole[k]
                != '#',
        rest.len() == 0 || rest[0] == '/' || rest[0] == '?',
    ensures
        link_preview::authority_end(whole + rest, i) == whole.len(),
    decreases whole.len() - i,
{
    if i < whole.len() {
        assert((whole + rest)[i] == whole[i]);
        lemma_ends_at(whole, rest, i + 1);
    } else if rest.len() > 0 {
        assert((whole + rest)[i] == rest[0]);
    }
}

/// Pages of the hosts that render for crawlers alone are requested as one, and no others.
pub proof fn lemma_who_requests(url: Seq<char>)
    ensures
        ({
            let host = link_preview::authority(url);
            let crawled = host == Some("twitter.com"@) || host == Some("vxtwitter.com"@) || host
                == Some("fxtwitter.com"@);
            &&& crawled ==> link_preview::user_agent(url)
                == "Mozilla/5.0 (compatible; Googlebot/2.1; +http://www.google.com/bot.html)"@
            &&& !crawled ==> link_preview::user_agent(url) == link_preview::DEFAULT_USER_AGENT@
        }),
{
}

// ---------------------------------------------------------------------------
// Pages
// ---------------------------------------------------------------------------

/// A page is requested once it may be, from the address as it reads, and its body is read
/// where the answer reports a success.
pub proof fn lemma_page_is_fetched_in_order(
    raw_url: Seq<char>,
    url: Seq<char>,
    facts: PageFacts,
    status: u16,
)
    ensures
        ({
            let step = link_preview::fetched(raw_url, Some(url), facts);
            let may = facts.allowed is Some && facts.allowed->0 is Ok;
            &&& facts.allowed is None ==> step == (FetchModel::AskPolicy { url })
            &&& may && facts.status is Pending ==> step is Request && step->Request_url == url
                && step->user_agent == link_preview::user_agent(raw_url)
            &&& may && facts.status is Failed ==> step == FetchModel::Failed(
                LinkPreviewError::Network,
            )
            &&& may && facts.status == Reply::Got(status) && !(200 <= status < 300) ==> step
                == FetchModel::Failed(LinkPreviewError::RequestFailed { status })
            &&& may && facts.status == Reply::Got(status) && 200 <= status < 300
                && facts.page is Pending ==> step is ReadBody
            &&& may && facts.status == Reply::Got(status) && 200 <= status < 300
                && facts.page is Failed ==> step == FetchModel::Failed(LinkPreviewError::BodyRead)
        }),
        link_preview::fetched(raw_url, None, facts) == FetchModel::Failed(
            LinkPreviewError::Network,
        ),
{
}

/// The title of a page is all of its title, trimmed; the shared title is that of the first
/// element that could carry one.
pub proof fn lemma_titles_of_a_page(title: Seq<char>, shared: Seq<char>)
    ensures
        link_preview::page_titles(seq![title], seq![Some(shared)]) == (
            text::trimmed(title),
            shared,
        ),
        (link_preview::page_titles(Seq::empty(), Seq::empty()).1).len() == 0,
{
    assert(text::join_spec(seq![title], Seq::empty()) == title);
}

/// A body is decoded as its content type says: as it is where that is no text or names
/// UTF-8, and else by the charset that it names.
pub proof fn lemma_declared_encoding(declared: Seq<char>, charset: Seq<char>)
    ensures
        link_preview::declared_decision(None, None) == Some(Sniffed::Raw),
        link_preview::is_textual(declared) <==> text::occurs(declared, "text"@) || text::occurs(
            declared,
            "json"@,
        ) || text::occurs(declared, "xml"@) || text::occurs(declared, "html"@) || text::occurs(
            declared,
            "java"@,
        ),
        !link_preview::is_textual(declared) ==> link_preview::declared_decision(
            Some(declared),
            Some(charset),
        ) == Some(Sniffed::Raw),
        link_preview::is_textual(declared) ==> link_preview::declared_decision(
            Some(declared),
            None,
        ) is None,
        link_preview::is_textual(declared) && (text::occurs(text::ascii_lower(charset), "utf-8"@)
            || text::occurs(text::ascii_lower(charset), "utf8"@))
            ==> link_preview::declared_decision(Some(declared), Some(charset)) == Some(Sniffed::Raw),
        link_preview::is_textual(declared) && !text::occurs(text::ascii_lower(charset), "utf-8"@)
            && !text::occurs(text::ascii_lower(charset), "utf8"@)
            ==> link_preview::declared_decision(Some(declared), Some(charset)) == Some(
            Sniffed::Decode(text::ascii_lower(charset)),
        ),
{
}

/// The first meta element that names an encoding decides.
pub proof fn lemma_first_meta_decides(
    charsets: Seq<Option<Seq<char>>>,
    equivs: Seq<Option<Seq<char>>>,
    contents: Seq<Option<Seq<char>>>,
    i: int,
    label: Seq<char>,
)
    requires
        0 <= i < charsets.len(),
        charsets[i] == Some(label),
    ensures
        ({
            let plain = text::ascii_lower(text::trimmed(label));
            let rest = link_preview::metas_decision(charsets, equivs, contents, i + 1);
            let all = link_preview::metas_decision(charsets, equivs, contents, i);
            &&& link_preview::label_is_utf8(plain) is None ==> all == rest
            &&& link_preview::label_is_utf8(plain) == Some(true) ==> all == Some(Sniffed::Raw)
            &&& link_preview::label_is_utf8(plain) == Some(false) && !"utf-16"@.is_prefix_of(plain)
                ==> all == Some(Sniffed::Decode(plain))
        }),
{
}

/// The charset of a content type in a meta element is found behind its name, in quotes or
/// bare.
pub proof fn lemma_label_of_a_meta(
    direct: Seq<char>,
    equiv: Option<Seq<char>>,
    content: Option<Seq<char>>,
)
    ensures
        link_preview::meta_label(Some(direct), equiv, content) == Some(direct),
        equiv is Some && content is Some && text::ascii_lower(equiv->0) == "content-type"@
            ==> link_preview::meta_label(None, equiv, content) == link_preview::meta_charset(
            content->0,
        ),
        equiv is None || content is None ==> link_preview::meta_label(None, equiv, content) is None,
        equiv is Some && text::ascii_lower(equiv->0) != "content-type"@ ==> link_preview::meta_label(
            None,
            equiv,
            content,
        ) is None,
{
}

// ---------------------------------------------------------------------------
// Messages to Telegram
// ---------------------------------------------------------------------------

/// Whether a form has a field with this value.
pub open spec fn has(
    form: Seq<(Seq<char>, Seq<char>)>,
    name: Seq<char>,
    value: Seq<char>,
) -> bool {
    exists|i: int| 0 <= i < form.len() && #[trigger] form[i] == (name, value)
}

/// A rich message has its chat, its Markdown, what it replies to, its buttons, and whether
/// it is silent, each in its own field, and fields that say nothing are left out.
pub proof fn lemma_fields_of_a_message(
    chat_id: int,
    quoted: Seq<char>,
    reply: Option<RichMessageReplyParameters>,
    markup: Option<Seq<char>>,
    silent: bool,
)
    ensures
        ({
            let form = telegram_rich_message::rich_form(chat_id, quoted, reply, markup, silent);
            &&& has(form, "rich_message"@, "{\"markdown\":"@ + quoted + "}"@)
            &&& chat_id != 0 ==> has(form, "chat_id"@, numeral::decimal(chat_id))
            &&& reply is Some ==> has(
                form,
                "reply_parameters"@,
                telegram_rich_message::reply_json(reply->0),
            )
            &&& markup is Some ==> has(form, "reply_markup"@, markup->0)
            &&& silent ==> has(form, "disable_notification"@, "true"@)
            &&& form.len() == 1 + (if chat_id != 0 {
                1int
            } else {
                0
            }) + (if reply is Some {
                1int
            } else {
                0
            }) + (if markup is Some {
                1int
            } else {
                0
            }) + (if silent {
                1int
            } else {
                0
            })
        }),
{
    let form = telegram_rich_message::rich_form(chat_id, quoted, reply, markup, silent);
    let a: int = if chat_id != 0 {
        1
    } else {
        0
    };
    let b: int = if reply is Some {
        1
    } else {
        0
    };
    let c: int = if markup is Some {
        1
    } else {
        0
    };
    assert(form[a] == ("rich_message"@, "{\"markdown\":"@ + quoted + "}"@));
    if chat_id != 0 {
        assert(form[0] == ("chat_id"@, numeral::decimal(chat_id)));
    }
    if reply is Some {
        assert(form[a + 1] == (
            "reply_parameters"@,
            telegram_rich_message::reply_json(reply->0),
        ));
    }
    if markup is Some {
        assert(form[a + 1 + b] == ("reply_markup"@, markup->0));
    }
    if silent {
        assert(form[a + 1 + b + c] == ("disable_notification"@, "true"@));
    }
}

/// What a message replies to names the message, and the chat and the leave to go on
/// without it where they are set.
pub proof fn lemma_reply_names_its_message(reply: RichMessageReplyParameters)
    ensures
        ({
            let json = telegram_rich_message::reply_json(reply);
            let beginning = "{\"message_id\":"@ + numeral::decimal(reply.message_id as int);
            &&& reply.chat_id == 0 && !reply.allow_sending_without_reply ==> json == beginning
                + "}"@
            &&& reply.chat_id == 0 && reply.allow_sending_without_reply ==> json == beginning
                + ",\"allow_sending_without_reply\":true"@ + "}"@
            &&& reply.chat_id != 0 && !reply.allow_sending_without_reply ==> json == beginning
                + ",\"chat_id\":"@ + numeral::decimal(reply.chat_id as int) + "}"@
        }),
{
    let json = telegram_rich_message::reply_json(reply);
    let beginning = "{\"message_id\":"@ + numeral::decimal(reply.message_id as int);
    if reply.chat_id == 0 && !reply.allow_sending_without_reply {
        assert(json =~= beginning + "}"@);
    }
    if reply.chat_id == 0 && reply.allow_sending_without_reply {
        assert(json =~= beginning + ",\"allow_sending_without_reply\":true"@ + "}"@);
    }
    if reply.chat_id != 0 && !reply.allow_sending_without_reply {
        assert(json =~= beginning + ",\"chat_id\":"@ + numeral::decimal(reply.chat_id as int)
            + "}"@);
    }
}

/// An answer that is no refusal and has a result is no error; a refusal keeps its code, its
/// words and what Telegram adds, and takes the status where it has no code.
pub proof fn lemma_answers_of_telegram(envelope: ResponseEnvelope, status: u16)
    ensures
        ({
            let error = telegram_rich_message::envelope_error(envelope, status);
            &&& error is None <==> envelope.ok && envelope.has_result
            &&& envelope.ok && !envelope.has_result ==> error == Some(
                SendErrorModel::InvalidResponse,
            )
            &&& !envelope.ok ==> error is Some && error->0 is Api
            &&& !envelope.ok && envelope.error_code is Some ==> error->0->code
                == envelope.error_code->0
            &&& !envelope.ok && envelope.error_code is None ==> error->0->code == status
            &&& !envelope.ok && envelope.description is Some ==> error->0->description
                == envelope.description->0@
            &&& !envelope.ok && envelope.parameters is Some ==> error->0->parameters
                == envelope.parameters->0
        }),
{
}

} // verus!
