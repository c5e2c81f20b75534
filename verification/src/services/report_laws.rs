//! What holds of what is reported: which check is named in a footer, what a failure says,
//! and what stands in where nothing was written.

use vstd::prelude::*;

use crate::numeral;
use crate::services::autorecap;
use crate::services::completion::{self, OutcomeModel};
use crate::services::condensed::{self, CondensedFault, EventModel};
use crate::services::dual::{self, Repair};
use crate::services::openai::{self, CheckTraceModel};
use crate::services::recap_delivery::{self, DeliveryErrorModel};
use crate::services::telegram_rich_message::{self, SendErrorModel};
use crate::text;

verus! {

/// The footer says whether a check was configured, was needed, and how it ended, and that
/// a backup took part only where one did.
pub proof fn lemma_footer_of_a_check(check: CheckTraceModel)
    requires
        check.model.len() > 0,
        !(check.succeeded && check.failed),
    ensures
        ({
            let footer = openai::check_footer(check);
            let tried = check.attempted;
            &&& footer.model == check.model
            &&& footer.backup_model == check.backup_model
            &&& tried && check.succeeded && check.backup_used ==> footer.key
                == "footer.check_backup_success"@
            &&& tried && check.succeeded && !check.backup_used ==> footer.key
                == "footer.check_success"@
            &&& tried && check.failed && check.backup_used ==> footer.key
                == "footer.check_backup_failed"@
            &&& tried && check.failed && !check.backup_used ==> footer.key
                == "footer.check_failed"@
            &&& !tried ==> footer.key == "footer.check_not_triggered"@
        }),
{
}

/// Without a model for checks the footer says so.
pub proof fn lemma_footer_without_checks(check: CheckTraceModel)
    requires
        check.model.len() == 0,
    ensures
        openai::check_footer(check).key == "footer.check_not_configured"@,
{
}

/// A repair that ends is traced as tried, and as made or failed, never as both; it is the
/// backup's where the backup made it, and what was traced before is not lost.
pub proof fn lemma_repairs_are_traced(
    before: CheckTraceModel,
    checkers: Seq<Seq<char>>,
    found: int,
    by_backup: bool,
    next: Seq<char>,
)
    ensures
        ({
            let made = dual::repair_traced(before, checkers, Repair::Repaired(found, by_backup));
            let lost = dual::repair_traced(before, checkers, Repair::<int>::Lost);
            &&& made.attempted && made.succeeded && made.failed == before.failed
            &&& made.backup_used <==> before.backup_used || by_backup
            &&& made.backup_succeeded <==> before.backup_succeeded || by_backup
            &&& made.model == before.model && made.backup_model == before.backup_model
            &&& lost.attempted && lost.failed && lost.succeeded == before.succeeded
            &&& lost.backup_used <==> before.backup_used || checkers.len() > 1
            &&& lost.backup_succeeded == before.backup_succeeded
            &&& lost.model == before.model && lost.backup_model == before.backup_model
            &&& dual::repair_traced(before, checkers, Repair::<int>::Ask(next)) == before
        }),
{
}

/// What is wrong with a condensed recap is told in its own words.
pub proof fn lemma_faults_are_told(fault: CondensedFault)
    ensures
        ({
            let told = condensed::fault_message(fault);
            &&& fault is NoContent ==> told == "no content generated"@
            &&& fault is CodeFence ==> told == "condensed output contains code fence"@
            &&& fault is JsonLike ==> told == "condensed output is json-like"@
            &&& fault is NotSingleLine ==> told == "condensed output is not a single line"@
            &&& fault is Heading ==> told == "condensed output contains a heading"@
            &&& fault is ListItem ==> told == "condensed output contains an unordered-list item"@
        }),
{
}

/// A check that repaired nothing says why: what went wrong on the way, that nothing came,
/// or what is wrong with what came.
pub proof fn lemma_failed_checks_say_why(event: EventModel)
    ensures
        ({
            let read = condensed::check_line(event);
            &&& event.outcome matches OutcomeModel::Failed(error) ==> read == Err::<
                Seq<char>,
                Seq<char>,
            >(error)
            &&& event.outcome matches OutcomeModel::Reply(reply) ==> {
                let judged = condensed::judged(completion::content_of(reply), event.shape);
                &&& reply.choices.len() == 0 ==> read == Err::<Seq<char>, Seq<char>>(
                    "check model returned empty choices"@,
                )
                &&& reply.choices.len() > 0 && judged is Err ==> read == Err::<
                    Seq<char>,
                    Seq<char>,
                >(
                    "check model returned invalid condensed output: "@ + condensed::fault_message(
                        judged->Err_0,
                    ),
                )
                &&& reply.choices.len() > 0 && judged is Ok ==> read == Ok::<
                    Seq<char>,
                    Seq<char>,
                >(judged->Ok_0)
            }
        }),
{
}

/// A backup that wrote nothing of use says why.
pub proof fn lemma_failed_backups_say_why(event: EventModel)
    ensures
        ({
            let read = condensed::event_line(event);
            &&& event.outcome matches OutcomeModel::Failed(error) ==> read == Err::<
                Seq<char>,
                Seq<char>,
            >(error)
            &&& event.outcome matches OutcomeModel::Reply(reply) ==> {
                let content = completion::content_of(reply);
                let judged = condensed::judged(content, event.shape);
                &&& text::is_blank(content) ==> read == Err::<Seq<char>, Seq<char>>(
                    "no content generated from backup model"@,
                )
                &&& !text::is_blank(content) && judged is Err ==> read == Err::<
                    Seq<char>,
                    Seq<char>,
                >(condensed::fault_message(judged->Err_0))
                &&& judged is Ok ==> read == Ok::<Seq<char>, Seq<char>>(judged->Ok_0)
            }
        }),
{
    if let OutcomeModel::Reply(reply) = event.outcome {
        let content = completion::content_of(reply);
        let (a, b) = text::lemma_trimmed_shape(content);
    }
}

/// What stands in for a recap of so many hours names them.
pub proof fn lemma_default_names_the_hours(hours: int)
    ensures
        autorecap::default_condensed(hours) == "過去 "@ + numeral::decimal(hours)
            + " 小時的群組聊天回顧"@,
{
}

/// A failed delivery names the part that failed and what Telegram said of it.
pub proof fn lemma_failed_parts_are_named(part: int, plain: int, source: SendErrorModel)
    ensures
        ({
            let said = telegram_rich_message::send_error_message(source);
            &&& recap_delivery::delivery_message(
                DeliveryErrorModel::RichPart { part_number: part, source },
            ) == "send rich recap part "@ + numeral::decimal(part) + ": "@ + said
            &&& recap_delivery::delivery_message(
                DeliveryErrorModel::PlainFallbackPart {
                    part_number: part,
                    plain_part_number: plain,
                    source,
                },
            ) == "send plain recap fallback part "@ + numeral::decimal(part) + "."@
                + numeral::decimal(plain) + ": "@ + said
            &&& (source matches SendErrorModel::Api { code, description, .. } ==> said
                == "Telegram API error "@ + numeral::decimal(code as int) + ": "@ + description)
        }),
{
}

} // verus!
