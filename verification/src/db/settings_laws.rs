//! What holds of the statements that settings take: each sets what it is for and nothing
//! else, and rows are stored under the columns that are named.

use vstd::prelude::*;

use crate::db::chat_cleanup;
use crate::db::chat_history;
use crate::db::feature_flags::{self, GroupFlags};
use crate::db::migration;
use crate::db::models::{
    AutoRecapSendMode, NewTelegramChatHistory, TelegramChatFeatureFlags, TelegramChatRecapsOptions,
};
use crate::db::recap_logs::{self, NewRecapLog};
use crate::db::recap_options::{self, NewOptions};
use crate::db::sent_messages;
use crate::db::statement::{StatementModel, ValueModel};
use crate::db::subscribers;
use crate::db::usage_metrics;
use crate::db::DbBackend;

verus! {

// ---------------------------------------------------------------------------
// Options
// ---------------------------------------------------------------------------

/// What the options of a chat hold.
#[verifier::ext_equal]
pub struct Settings {
    pub mode: i64,
    pub pause: i64,
    pub rate: i64,
    pub pin: bool,
}

/// What is stored for a chat.
pub open spec fn stored(found: Option<TelegramChatRecapsOptions>) -> Option<Settings> {
    match found {
        Some(options) => Some(
            Settings {
                mode: options.auto_recap_send_mode,
                pause: options.manual_recap_rate_per_seconds,
                rate: options.auto_recap_rates_per_day,
                pin: options.pin_auto_recap_message,
            },
        ),
        None => None,
    }
}

/// What is stored for a chat once a statement has run.
pub open spec fn changed(
    settings: Option<Settings>,
    statement: StatementModel,
    chat_id: i64,
) -> Option<Settings> {
    let sql = statement.sql;
    let values = statement.values;
    if sql == "INSERT INTO telegram_chat_recaps_options
        (id, chat_id, auto_recap_send_mode, manual_recap_rate_per_seconds,
         auto_recap_rates_per_day, pin_auto_recap_message, created_at, updated_at)
     VALUES ($1, $2, $3, $4, $5, $6, $7, $8)"@ || sql == "INSERT INTO telegram_chat_recaps_options
        (id, chat_id, auto_recap_send_mode, manual_recap_rate_per_seconds,
         auto_recap_rates_per_day, pin_auto_recap_message, created_at, updated_at)
     VALUES (CAST($1 AS UUID), $2, $3, $4, $5, $6, $7, $8)"@ {
        if values[1] == ValueModel::Int(chat_id) {
            Some(
                Settings {
                    mode: values[2]->Int_0,
                    pause: values[3]->Int_0,
                    rate: values[4]->Int_0,
                    pin: values[5]->Flag_0,
                },
            )
        } else {
            settings
        }
    } else if settings is None || values[1] != ValueModel::Int(chat_id) {
        settings
    } else if sql == "UPDATE telegram_chat_recaps_options SET auto_recap_send_mode = $1 WHERE chat_id = $2"@ {
        Some(Settings { mode: values[0]->Int_0, ..settings->0 })
    } else if sql == "UPDATE telegram_chat_recaps_options SET auto_recap_rates_per_day = $1 WHERE chat_id = $2"@ {
        Some(Settings { rate: values[0]->Int_0, ..settings->0 })
    } else if sql == "UPDATE telegram_chat_recaps_options SET pin_auto_recap_message = $1 WHERE chat_id = $2"@ {
        Some(Settings { pin: values[0]->Flag_0, ..settings->0 })
    } else {
        settings
    }
}

/// What is stored for a chat once statements have run in order.
pub open spec fn changed_by(
    settings: Option<Settings>,
    statements: Seq<StatementModel>,
    chat_id: i64,
) -> Option<Settings>
    decreases statements.len(),
{
    if statements.len() == 0 {
        settings
    } else {
        changed(
            changed_by(settings, statements.drop_last(), chat_id),
            statements.last(),
            chat_id,
        )
    }
}

proof fn lemma_one_more_run(
    settings: Option<Settings>,
    before: Seq<StatementModel>,
    more: StatementModel,
    chat_id: i64,
)
    ensures
        changed_by(settings, before + seq![more], chat_id) == changed(
            changed_by(settings, before, chat_id),
            more,
            chat_id,
        ),
{
    let all = before + seq![more];
    assert(all.drop_last() =~= before);
    assert(all.last() == more);
}

proof fn lemma_updates_apart()
    ensures
        "INSERT INTO telegram_chat_recaps_options
        (id, chat_id, auto_recap_send_mode, manual_recap_rate_per_seconds,
         auto_recap_rates_per_day, pin_auto_recap_message, created_at, updated_at)
     VALUES ($1, $2, $3, $4, $5, $6, $7, $8)"@ != "UPDATE telegram_chat_recaps_options SET auto_recap_send_mode = $1 WHERE chat_id = $2"@,
        "INSERT INTO telegram_chat_recaps_options
        (id, chat_id, auto_recap_send_mode, manual_recap_rate_per_seconds,
         auto_recap_rates_per_day, pin_auto_recap_message, created_at, updated_at)
     VALUES ($1, $2, $3, $4, $5, $6, $7, $8)"@ != "UPDATE telegram_chat_recaps_options SET auto_recap_rates_per_day = $1 WHERE chat_id = $2"@,
        "INSERT INTO telegram_chat_recaps_options
        (id, chat_id, auto_recap_send_mode, manual_recap_rate_per_seconds,
         auto_recap_rates_per_day, pin_auto_recap_message, created_at, updated_at)
     VALUES ($1, $2, $3, $4, $5, $6, $7, $8)"@ != "UPDATE telegram_chat_recaps_options SET pin_auto_recap_message = $1 WHERE chat_id = $2"@,
        "INSERT INTO telegram_chat_recaps_options
        (id, chat_id, auto_recap_send_mode, manual_recap_rate_per_seconds,
         auto_recap_rates_per_day, pin_auto_recap_message, created_at, updated_at)
     VALUES (CAST($1 AS UUID), $2, $3, $4, $5, $6, $7, $8)"@ != "UPDATE telegram_chat_recaps_options SET auto_recap_send_mode = $1 WHERE chat_id = $2"@,
        "INSERT INTO telegram_chat_recaps_options
        (id, chat_id, auto_recap_send_mode, manual_recap_rate_per_seconds,
         auto_recap_rates_per_day, pin_auto_recap_message, created_at, updated_at)
     VALUES (CAST($1 AS UUID), $2, $3, $4, $5, $6, $7, $8)"@ != "UPDATE telegram_chat_recaps_options SET auto_recap_rates_per_day = $1 WHERE chat_id = $2"@,
        "INSERT INTO telegram_chat_recaps_options
        (id, chat_id, auto_recap_send_mode, manual_recap_rate_per_seconds,
         auto_recap_rates_per_day, pin_auto_recap_message, created_at, updated_at)
     VALUES (CAST($1 AS UUID), $2, $3, $4, $5, $6, $7, $8)"@ != "UPDATE telegram_chat_recaps_options SET pin_auto_recap_message = $1 WHERE chat_id = $2"@,
        "UPDATE telegram_chat_recaps_options SET auto_recap_send_mode = $1 WHERE chat_id = $2"@ != "UPDATE telegram_chat_recaps_options SET auto_recap_rates_per_day = $1 WHERE chat_id = $2"@,
        "UPDATE telegram_chat_recaps_options SET auto_recap_send_mode = $1 WHERE chat_id = $2"@ != "UPDATE telegram_chat_recaps_options SET pin_auto_recap_message = $1 WHERE chat_id = $2"@,
        "UPDATE telegram_chat_recaps_options SET auto_recap_rates_per_day = $1 WHERE chat_id = $2"@ != "UPDATE telegram_chat_recaps_options SET pin_auto_recap_message = $1 WHERE chat_id = $2"@,
{
    reveal_strlit("INSERT INTO telegram_chat_recaps_options
        (id, chat_id, auto_recap_send_mode, manual_recap_rate_per_seconds,
         auto_recap_rates_per_day, pin_auto_recap_message, created_at, updated_at)
     VALUES ($1, $2, $3, $4, $5, $6, $7, $8)");
    reveal_strlit("INSERT INTO telegram_chat_recaps_options
        (id, chat_id, auto_recap_send_mode, manual_recap_rate_per_seconds,
         auto_recap_rates_per_day, pin_auto_recap_message, created_at, updated_at)
     VALUES (CAST($1 AS UUID), $2, $3, $4, $5, $6, $7, $8)");
    reveal_strlit("UPDATE telegram_chat_recaps_options SET auto_recap_send_mode = $1 WHERE chat_id = $2");
    reveal_strlit("UPDATE telegram_chat_recaps_options SET auto_recap_rates_per_day = $1 WHERE chat_id = $2");
    reveal_strlit("UPDATE telegram_chat_recaps_options SET pin_auto_recap_message = $1 WHERE chat_id = $2");
    assert("INSERT INTO telegram_chat_recaps_options
        (id, chat_id, auto_recap_send_mode, manual_recap_rate_per_seconds,
         auto_recap_rates_per_day, pin_auto_recap_message, created_at, updated_at)
     VALUES ($1, $2, $3, $4, $5, $6, $7, $8)"@.len() == 243);
    assert("INSERT INTO telegram_chat_recaps_options
        (id, chat_id, auto_recap_send_mode, manual_recap_rate_per_seconds,
         auto_recap_rates_per_day, pin_auto_recap_message, created_at, updated_at)
     VALUES (CAST($1 AS UUID), $2, $3, $4, $5, $6, $7, $8)"@.len() == 257);
    assert("UPDATE telegram_chat_recaps_options SET auto_recap_send_mode = $1 WHERE chat_id = $2"@.len() == 84);
    assert("UPDATE telegram_chat_recaps_options SET auto_recap_rates_per_day = $1 WHERE chat_id = $2"@.len() == 88);
    assert("UPDATE telegram_chat_recaps_options SET pin_auto_recap_message = $1 WHERE chat_id = $2"@.len() == 86);
}

/// Options that are created have public recaps, four a day, unpinned; options that are
/// there stay as they are.
pub proof fn lemma_created_options(new: NewOptions<'_>, found: Option<TelegramChatRecapsOptions>)
    ensures
        changed_by(stored(found), recap_options::creation(new, found), new.chat_id) == match found {
            Some(_) => stored(found),
            None => Some(Settings { mode: 0, pause: 0, rate: 4, pin: false }),
        },
        found is Some ==> recap_options::creation(new, found).len() == 0,
{
    let all = recap_options::creation(new, found);
    if found is None {
        lemma_one_more_run(None, Seq::empty(), all[0], new.chat_id);
        assert(all =~= Seq::<StatementModel>::empty() + seq![all[0]]);
    }
}

/// Setting the mode sets the mode and nothing else, and where the mode is set already,
/// nothing is done.
pub proof fn lemma_mode_is_set(
    new: NewOptions<'_>,
    found: Option<TelegramChatRecapsOptions>,
    mode: AutoRecapSendMode,
)
    ensures
        ({
            let all = recap_options::mode_change(new, found, mode);
            let number: i64 = match mode {
                AutoRecapSendMode::Publicly => 0,
                AutoRecapSendMode::OnlyPrivateSubscriptions => 1,
            };
            &&& changed_by(stored(found), all, new.chat_id) == match stored(found) {
                Some(settings) => Some(Settings { mode: number, ..settings }),
                None => Some(Settings { mode: number, pause: 0, rate: 0, pin: false }),
            }
            &&& found is Some && found->0.auto_recap_send_mode == number ==> all.len() == 0
        }),
{
    let all = recap_options::mode_change(new, found, mode);
    lemma_updates_apart();
    if all.len() > 0 {
        lemma_one_more_run(stored(found), Seq::empty(), all[0], new.chat_id);
        assert(all =~= Seq::<StatementModel>::empty() + seq![all[0]]);
    }
}

/// Switching pinning switches pinning and nothing else, and where it is switched so
/// already, nothing is changed.
pub proof fn lemma_pin_is_set(
    new: NewOptions<'_>,
    found: Option<TelegramChatRecapsOptions>,
    pin: bool,
)
    ensures
        ({
            let all = recap_options::pin_change(new, found, pin);
            &&& changed_by(stored(found), all, new.chat_id) == match stored(found) {
                Some(settings) => Some(Settings { pin, ..settings }),
                None => Some(Settings { mode: 0, pause: 0, rate: 4, pin }),
            }
            &&& found is Some && found->0.pin_auto_recap_message == pin ==> all.len() == 0
        }),
{
    let all = recap_options::pin_change(new, found, pin);
    let first = recap_options::creation(new, found);
    lemma_updates_apart();
    lemma_created_options(new, found);
    if all.len() > first.len() {
        lemma_one_more_run(stored(found), first, all.last(), new.chat_id);
        assert(all =~= first + seq![all.last()]);
    } else {
        assert(all =~= first);
    }
}

// ---------------------------------------------------------------------------
// Flags
// ---------------------------------------------------------------------------

/// What the flags of a group hold.
#[verifier::ext_equal]
pub struct Flags {
    pub title: Seq<char>,
    pub recaps: bool,
    pub language: Seq<char>,
}

/// What is stored for a group.
pub open spec fn flagged(found: Option<TelegramChatFeatureFlags>) -> Option<Flags> {
    match found {
        Some(flags) => Some(
            Flags {
                title: flags.chat_title@,
                recaps: flags.feature_chat_histories_recap,
                language: flags.feature_language@,
            },
        ),
        None => None,
    }
}

/// What is stored for a group once a statement has run.
pub open spec fn reflagged(
    flags: Option<Flags>,
    statement: StatementModel,
    chat_id: i64,
) -> Option<Flags> {
    let sql = statement.sql;
    let values = statement.values;
    if sql == "INSERT INTO telegram_chat_feature_flags
        (id, chat_id, chat_type, chat_title, feature_chat_histories_recap,
         feature_language, created_at, updated_at)
     VALUES ($1, $2, $3, $4, $5, $6, $7, $8)"@ || sql == "INSERT INTO telegram_chat_feature_flags
        (id, chat_id, chat_type, chat_title, feature_chat_histories_recap,
         feature_language, created_at, updated_at)
     VALUES (CAST($1 AS UUID), $2, $3, $4, $5, $6, $7, $8)"@ {
        if values[1] == ValueModel::Int(chat_id) {
            Some(
                Flags {
                    title: values[3]->Text_0,
                    recaps: values[4]->Flag_0,
                    language: values[5]->Text_0,
                },
            )
        } else {
            flags
        }
    } else if flags is None || values[1] != ValueModel::Int(chat_id) {
        flags
    } else if sql == "UPDATE telegram_chat_feature_flags SET chat_title = $1 WHERE chat_id = $2"@ {
        Some(Flags { title: values[0]->Text_0, ..flags->0 })
    } else if sql == "UPDATE telegram_chat_feature_flags SET feature_language = $1 WHERE chat_id = $2"@ {
        Some(Flags { language: values[0]->Text_0, ..flags->0 })
    } else if sql == "UPDATE telegram_chat_feature_flags
         SET feature_chat_histories_recap = $1
         WHERE chat_id = $2"@ {
        Some(Flags { recaps: values[0]->Flag_0, ..flags->0 })
    } else {
        flags
    }
}

/// What is stored for a group once statements have run in order.
pub open spec fn reflagged_by(
    flags: Option<Flags>,
    statements: Seq<StatementModel>,
    chat_id: i64,
) -> Option<Flags>
    decreases statements.len(),
{
    if statements.len() == 0 {
        flags
    } else {
        reflagged(
            reflagged_by(flags, statements.drop_last(), chat_id),
            statements.last(),
            chat_id,
        )
    }
}

proof fn lemma_one_more_flag_run(
    flags: Option<Flags>,
    before: Seq<StatementModel>,
    more: StatementModel,
    chat_id: i64,
)
    ensures
        reflagged_by(flags, before + seq![more], chat_id) == reflagged(
            reflagged_by(flags, before, chat_id),
            more,
            chat_id,
        ),
{
    let all = before + seq![more];
    assert(all.drop_last() =~= before);
    assert(all.last() == more);
}

proof fn lemma_flag_updates_apart()
    ensures
        "INSERT INTO telegram_chat_feature_flags
        (id, chat_id, chat_type, chat_title, feature_chat_histories_recap,
         feature_language, created_at, updated_at)
     VALUES ($1, $2, $3, $4, $5, $6, $7, $8)"@ != "UPDATE telegram_chat_feature_flags SET chat_title = $1 WHERE chat_id = $2"@,
        "INSERT INTO telegram_chat_feature_flags
        (id, chat_id, chat_type, chat_title, feature_chat_histories_recap,
         feature_language, created_at, updated_at)
     VALUES ($1, $2, $3, $4, $5, $6, $7, $8)"@ != "UPDATE telegram_chat_feature_flags SET feature_language = $1 WHERE chat_id = $2"@,
        "INSERT INTO telegram_chat_feature_flags
        (id, chat_id, chat_type, chat_title, feature_chat_histories_recap,
         feature_language, created_at, updated_at)
     VALUES ($1, $2, $3, $4, $5, $6, $7, $8)"@ != "UPDATE telegram_chat_feature_flags
         SET feature_chat_histories_recap = $1
         WHERE chat_id = $2"@,
        "INSERT INTO telegram_chat_feature_flags
        (id, chat_id, chat_type, chat_title, feature_chat_histories_recap,
         feature_language, created_at, updated_at)
     VALUES (CAST($1 AS UUID), $2, $3, $4, $5, $6, $7, $8)"@ != "UPDATE telegram_chat_feature_flags SET chat_title = $1 WHERE chat_id = $2"@,
        "INSERT INTO telegram_chat_feature_flags
        (id, chat_id, chat_type, chat_title, feature_chat_histories_recap,
         feature_language, created_at, updated_at)
     VALUES (CAST($1 AS UUID), $2, $3, $4, $5, $6, $7, $8)"@ != "UPDATE telegram_chat_feature_flags SET feature_language = $1 WHERE chat_id = $2"@,
        "INSERT INTO telegram_chat_feature_flags
        (id, chat_id, chat_type, chat_title, feature_chat_histories_recap,
         feature_language, created_at, updated_at)
     VALUES (CAST($1 AS UUID), $2, $3, $4, $5, $6, $7, $8)"@ != "UPDATE telegram_chat_feature_flags
         SET feature_chat_histories_recap = $1
         WHERE chat_id = $2"@,
        "UPDATE telegram_chat_feature_flags SET chat_title = $1 WHERE chat_id = $2"@ != "UPDATE telegram_chat_feature_flags SET feature_language = $1 WHERE chat_id = $2"@,
        "UPDATE telegram_chat_feature_flags SET chat_title = $1 WHERE chat_id = $2"@ != "UPDATE telegram_chat_feature_flags
         SET feature_chat_histories_recap = $1
         WHERE chat_id = $2"@,
        "UPDATE telegram_chat_feature_flags SET feature_language = $1 WHERE chat_id = $2"@ != "UPDATE telegram_chat_feature_flags
         SET feature_chat_histories_recap = $1
         WHERE chat_id = $2"@,
{
    reveal_strlit("INSERT INTO telegram_chat_feature_flags
        (id, chat_id, chat_type, chat_title, feature_chat_histories_recap,
         feature_language, created_at, updated_at)
     VALUES ($1, $2, $3, $4, $5, $6, $7, $8)");
    reveal_strlit("INSERT INTO telegram_chat_feature_flags
        (id, chat_id, chat_type, chat_title, feature_chat_histories_recap,
         feature_language, created_at, updated_at)
     VALUES (CAST($1 AS UUID), $2, $3, $4, $5, $6, $7, $8)");
    reveal_strlit("UPDATE telegram_chat_feature_flags SET chat_title = $1 WHERE chat_id = $2");
    reveal_strlit("UPDATE telegram_chat_feature_flags SET feature_language = $1 WHERE chat_id = $2");
    reveal_strlit("UPDATE telegram_chat_feature_flags
         SET feature_chat_histories_recap = $1
         WHERE chat_id = $2");
    assert("INSERT INTO telegram_chat_feature_flags
        (id, chat_id, chat_type, chat_title, feature_chat_histories_recap,
         feature_language, created_at, updated_at)
     VALUES ($1, $2, $3, $4, $5, $6, $7, $8)"@.len() == 210);
    assert("INSERT INTO telegram_chat_feature_flags
        (id, chat_id, chat_type, chat_title, feature_chat_histories_recap,
         feature_language, created_at, updated_at)
     VALUES (CAST($1 AS UUID), $2, $3, $4, $5, $6, $7, $8)"@.len() == 224);
    assert("UPDATE telegram_chat_feature_flags SET chat_title = $1 WHERE chat_id = $2"@.len() == 73);
    assert("UPDATE telegram_chat_feature_flags SET feature_language = $1 WHERE chat_id = $2"@.len() == 79);
    assert("UPDATE telegram_chat_feature_flags
         SET feature_chat_histories_recap = $1
         WHERE chat_id = $2"@.len() == 109);
}

/// The flags of a group, with a title where they had none.
pub open spec fn titled(flags: Flags, title: Seq<char>) -> Flags {
    if flags.title.len() == 0 {
        Flags { title, ..flags }
    } else {
        flags
    }
}

/// A title that was stored empty is filled in, and nothing else is touched.
pub proof fn lemma_title_is_repaired(group: GroupFlags<'_>, found: TelegramChatFeatureFlags)
    ensures
        ({
            let all = feature_flags::repairs(group.chat_id, group.chat_title@, Some(found));
            reflagged_by(flagged(Some(found)), all, group.chat_id) == Some(
                titled(flagged(Some(found))->0, group.chat_title@),
            )
        }),
{
    let all = feature_flags::repairs(group.chat_id, group.chat_title@, Some(found));
    lemma_flag_updates_apart();
    if all.len() > 0 {
        lemma_one_more_flag_run(flagged(Some(found)), Seq::empty(), all[0], group.chat_id);
        assert(all =~= Seq::<StatementModel>::empty() + seq![all[0]]);
    } else if found.chat_title@.len() == 0 {
        assert(found.chat_title@ =~= group.chat_title@);
    }
}

/// Flags that are created have recaps off and are English; flags that are there keep what
/// they have, but for a title that was missing.
pub proof fn lemma_created_flags(group: GroupFlags<'_>, found: Option<TelegramChatFeatureFlags>)
    ensures
        reflagged_by(
            flagged(found),
            feature_flags::creation(group, found),
            group.chat_id,
        ) == match found {
            Some(_) => Some(titled(flagged(found)->0, group.chat_title@)),
            None => Some(Flags { title: group.chat_title@, recaps: false, language: "en"@ }),
        },
{
    let all = feature_flags::creation(group, found);
    match found {
        Some(flags) => {
            lemma_title_is_repaired(group, flags);
        },
        None => {
            lemma_one_more_flag_run(None, Seq::empty(), all[0], group.chat_id);
            assert(all =~= Seq::<StatementModel>::empty() + seq![all[0]]);
        },
    }
}

/// Whether a chat is a group of either kind.
pub open spec fn is_group(chat_type: Seq<char>) -> bool {
    chat_type == "group"@ || chat_type == "supergroup"@
}

/// Switching recaps on switches them on, for groups alone, and touches nothing else.
pub proof fn lemma_recaps_are_switched_on(
    group: GroupFlags<'_>,
    found: Option<TelegramChatFeatureFlags>,
)
    ensures
        ({
            let all = feature_flags::enabling(group, found);
            &&& !is_group(group.chat_type@) ==> all.len() == 0
            &&& is_group(group.chat_type@) ==> reflagged_by(flagged(found), all, group.chat_id)
                == match found {
                Some(_) => Some(
                    Flags { recaps: true, ..titled(flagged(found)->0, group.chat_title@) },
                ),
                None => Some(Flags { title: group.chat_title@, recaps: true, language: "en"@ }),
            }
        }),
{
    let all = feature_flags::enabling(group, found);
    let first = feature_flags::creation(group, found);
    lemma_flag_updates_apart();
    lemma_created_flags(group, found);
    if is_group(group.chat_type@) {
        if all.len() > first.len() {
            lemma_one_more_flag_run(flagged(found), first, all.last(), group.chat_id);
            assert(all =~= first + seq![all.last()]);
        } else {
            assert(all =~= first);
        }
    }
}

/// Switching recaps off switches them off, for groups alone, and touches nothing else.
pub proof fn lemma_recaps_are_switched_off(
    group: GroupFlags<'_>,
    found: Option<TelegramChatFeatureFlags>,
)
    ensures
        ({
            let all = feature_flags::disabling(group, found);
            &&& !is_group(group.chat_type@) ==> all.len() == 0
            &&& is_group(group.chat_type@) ==> reflagged_by(flagged(found), all, group.chat_id)
                == match found {
                Some(_) => Some(
                    Flags { recaps: false, ..titled(flagged(found)->0, group.chat_title@) },
                ),
                None => Some(Flags { title: group.chat_title@, recaps: false, language: ""@ }),
            }
        }),
{
    let all = feature_flags::disabling(group, found);
    lemma_flag_updates_apart();
    if is_group(group.chat_type@) {
        match found {
            Some(flags) => {
                let first = feature_flags::repairs(group.chat_id, group.chat_title@, found);
                lemma_title_is_repaired(group, flags);
                if all.len() > first.len() {
                    lemma_one_more_flag_run(flagged(found), first, all.last(), group.chat_id);
                    assert(all =~= first + seq![all.last()]);
                } else {
                    assert(all =~= first);
                }
            },
            None => {
                lemma_one_more_flag_run(None, Seq::empty(), all[0], group.chat_id);
                assert(all =~= Seq::<StatementModel>::empty() + seq![all[0]]);
            },
        }
    }
}

/// Setting the language sets the language, for groups alone, and touches nothing else.
pub proof fn lemma_language_is_set(
    group: GroupFlags<'_>,
    found: Option<TelegramChatFeatureFlags>,
    language: Seq<char>,
)
    ensures
        ({
            let all = feature_flags::language_change(group, found, language);
            &&& !is_group(group.chat_type@) ==> all.len() == 0
            &&& is_group(group.chat_type@) ==> reflagged_by(flagged(found), all, group.chat_id)
                == match found {
                Some(_) => Some(Flags { language, ..titled(flagged(found)->0, group.chat_title@) }),
                None => Some(Flags { title: group.chat_title@, recaps: false, language }),
            }
        }),
{
    let all = feature_flags::language_change(group, found, language);
    let first = feature_flags::creation(group, found);
    lemma_flag_updates_apart();
    lemma_created_flags(group, found);
    if is_group(group.chat_type@) {
        if all.len() > first.len() {
            lemma_one_more_flag_run(flagged(found), first, all.last(), group.chat_id);
            assert(all =~= first + seq![all.last()]);
        } else {
            assert(all =~= first);
        }
    }
}

// ---------------------------------------------------------------------------
// Rows
// ---------------------------------------------------------------------------

/// PostgreSQL is told that an identifier is one; SQLite takes it as it is. The columns are
/// the same.
pub proof fn lemma_inserts_of_the_backends()
    ensures
        recap_options::insert_sql(DbBackend::Postgres) == "INSERT INTO telegram_chat_recaps_options
        (id, chat_id, auto_recap_send_mode, manual_recap_rate_per_seconds,
         auto_recap_rates_per_day, pin_auto_recap_message, created_at, updated_at)
     VALUES (CAST($1 AS UUID), $2, $3, $4, $5, $6, $7, $8)"@,
        recap_options::insert_sql(DbBackend::Sqlite) == "INSERT INTO telegram_chat_recaps_options
        (id, chat_id, auto_recap_send_mode, manual_recap_rate_per_seconds,
         auto_recap_rates_per_day, pin_auto_recap_message, created_at, updated_at)
     VALUES ($1, $2, $3, $4, $5, $6, $7, $8)"@,
        feature_flags::insert_sql(DbBackend::Postgres) == "INSERT INTO telegram_chat_feature_flags
        (id, chat_id, chat_type, chat_title, feature_chat_histories_recap,
         feature_language, created_at, updated_at)
     VALUES (CAST($1 AS UUID), $2, $3, $4, $5, $6, $7, $8)"@,
        feature_flags::insert_sql(DbBackend::Sqlite) == "INSERT INTO telegram_chat_feature_flags
        (id, chat_id, chat_type, chat_title, feature_chat_histories_recap,
         feature_language, created_at, updated_at)
     VALUES ($1, $2, $3, $4, $5, $6, $7, $8)"@,
        sent_messages::insert_sql(DbBackend::Postgres) == "INSERT INTO sent_messages
        (id, chat_id, message_id, text, is_pinned, from_platform, message_type,
         created_at, updated_at)
     VALUES (CAST($1 AS UUID), $2, $3, $4, $5, $6, $7, $8, $9)"@,
        sent_messages::insert_sql(DbBackend::Sqlite) == "INSERT INTO sent_messages
        (id, chat_id, message_id, text, is_pinned, from_platform, message_type,
         created_at, updated_at)
     VALUES ($1, $2, $3, $4, $5, $6, $7, $8, $9)"@,
        usage_metrics::insert_sql(DbBackend::Postgres) == "INSERT INTO metric_open_ai_chat_completion_token_usages
        (id, prompt_operation, prompt_character_length, prompt_token_usage,
         completion_character_length, completion_token_usage, total_token_usage,
         model_name, created_at)
     VALUES (CAST($1 AS UUID), $2, $3, $4, $5, $6, $7, $8, $9)"@,
        usage_metrics::insert_sql(DbBackend::Sqlite) == "INSERT INTO metric_open_ai_chat_completion_token_usages
        (id, prompt_operation, prompt_character_length, prompt_token_usage,
         completion_character_length, completion_token_usage, total_token_usage,
         model_name, created_at)
     VALUES ($1, $2, $3, $4, $5, $6, $7, $8, $9)"@,
{
}

/// A message is stored under the columns that are named, each with what it is for.
pub proof fn lemma_message_columns(message: NewTelegramChatHistory, now: i64)
    ensures
        ({
            let insert = chat_history::inserted(message, now);
            let values = insert.values;
            &&& insert.sql == "INSERT INTO chat_histories
        (chat_id, chat_type, chat_title, message_id, user_id, username, full_name,
         text, replied_to_message_id, replied_to_user_id, replied_to_full_name,
         replied_to_username, replied_to_text, replied_to_chat_type, chatted_at,
         embedded, from_platform, created_at, updated_at, kind)
     VALUES ($1, $2, $3, $4, $5, $6, $7, $8, $9, $10, $11, $12, $13, $14, $15,
             $16, $17, $18, $19, $20)"@
            &&& values.len() == 20
            &&& values[0] == ValueModel::Int(message.chat_id)
            &&& values[1] == ValueModel::Text(message.chat_type@)
            &&& values[2] == ValueModel::Text(message.chat_title@)
            &&& values[3] == ValueModel::Int(message.message_id)
            &&& values[4] == ValueModel::Int(message.user_id)
            &&& values[5] == ValueModel::Text(message.username@)
            &&& values[6] == ValueModel::Text(message.full_name@)
            &&& values[7] == ValueModel::Text(message.text@)
            &&& values[8] == ValueModel::Int(message.replied_to_message_id)
            &&& values[9] == ValueModel::Int(message.replied_to_user_id)
            &&& values[10] == ValueModel::Text(message.replied_to_full_name@)
            &&& values[11] == ValueModel::Text(message.replied_to_username@)
            &&& values[12] == ValueModel::Text(message.replied_to_text@)
            &&& values[13] == ValueModel::Text(message.replied_to_chat_type@)
            &&& values[14] == ValueModel::Int(message.chatted_at)
            &&& values[15] == ValueModel::Flag(false)
            &&& values[16] == ValueModel::Int(0)
            &&& values[17] == ValueModel::Int(now)
            &&& values[18] == ValueModel::Int(now)
            &&& values[19] == ValueModel::Text("text"@)
        }),
{
}

/// A subscription is stored for the chat and the user, in that order.
pub proof fn lemma_subscriber_columns(
    backend: DbBackend,
    id: Seq<char>,
    chat_id: i64,
    user_id: i64,
    now: i64,
)
    ensures
        ({
            let insert = subscribers::new_row(backend, id, chat_id, user_id, now);
            let values = insert.values;
            &&& insert.sql == match backend {
                DbBackend::Postgres => "INSERT INTO telegram_chat_auto_recaps_subscribers
        (id, chat_id, user_id, created_at, updated_at)
     VALUES (CAST($1 AS UUID), $2, $3, $4, $5)"@,
                DbBackend::Sqlite => "INSERT INTO telegram_chat_auto_recaps_subscribers
        (id, chat_id, user_id, created_at, updated_at)
     VALUES ($1, $2, $3, $4, $5)"@,
            }
            &&& values.len() == 5
            &&& values[0] == ValueModel::Text(id)
            &&& values[1] == ValueModel::Int(chat_id)
            &&& values[2] == ValueModel::Int(user_id)
            &&& values[3] == ValueModel::Int(now)
            &&& values[4] == ValueModel::Int(now)
        }),
{
}

/// A recap is logged with what went in, what came out, and the tokens of each kind.
pub proof fn lemma_log_columns(new: NewRecapLog<'_>, recap_type: i64, model_name: Seq<char>)
    ensures
        ({
            let insert = recap_logs::inserted(new, recap_type, model_name);
            let values = insert.values;
            &&& insert.sql == match new.backend {
                DbBackend::Postgres => "INSERT INTO log_chat_histories_recaps
        (id, chat_id, recap_inputs, recap_outputs, from_platform, prompt_token_usage,
         completion_token_usage, total_token_usage, recap_type, model_name,
         created_at, updated_at)
     VALUES (CAST($1 AS UUID), $2, $3, $4, $5, $6, $7, $8, $9, $10, $11, $12)"@,
                DbBackend::Sqlite => "INSERT INTO log_chat_histories_recaps
        (id, chat_id, recap_inputs, recap_outputs, from_platform, prompt_token_usage,
         completion_token_usage, total_token_usage, recap_type, model_name,
         created_at, updated_at)
     VALUES ($1, $2, $3, $4, $5, $6, $7, $8, $9, $10, $11, $12)"@,
            }
            &&& values.len() == 12
            &&& values[0] == ValueModel::Text(new.id@)
            &&& values[1] == ValueModel::Int(new.chat_id)
            &&& values[2] == ValueModel::Text(new.recap_inputs@)
            &&& values[3] == ValueModel::Text(new.recap_outputs@)
            &&& values[4] == ValueModel::Int(0)
            &&& values[5] == ValueModel::Int(new.usage.prompt_tokens)
            &&& values[6] == ValueModel::Int(new.usage.completion_tokens)
            &&& values[7] == ValueModel::Int(new.usage.total_tokens)
            &&& values[8] == ValueModel::Int(recap_type)
            &&& values[9] == ValueModel::Text(model_name)
            &&& values[10] == ValueModel::Int(new.now)
            &&& values[11] == ValueModel::Int(new.now)
        }),
{
}

// ---------------------------------------------------------------------------
// Chats
// ---------------------------------------------------------------------------

/// Whether a statement of a migration moves rows from one chat to another: the new chat
/// is set first, and the old one is looked for last.
pub open spec fn moves(statement: StatementModel, from_chat_id: i64, to_chat_id: i64) -> bool {
    &&& statement.values.len() >= 2
    &&& statement.values[0] == ValueModel::Int(to_chat_id)
    &&& statement.values[statement.values.len() - 1] == ValueModel::Int(from_chat_id)
    &&& statement.values.len() == 3 ==> statement.values[1] == ValueModel::Text("supergroup"@)
    &&& statement.values.len() <= 3
}

/// Where a group becomes a supergroup, all that is stored of it moves.
pub proof fn lemma_everything_moves(from_chat_id: i64, to_chat_id: i64, i: int)
    requires
        0 <= i < migration::steps(from_chat_id, to_chat_id).len(),
    ensures
        moves(migration::steps(from_chat_id, to_chat_id)[i].1, from_chat_id, to_chat_id),
        ({
            let steps = migration::steps(from_chat_id, to_chat_id);
            &&& steps.len() == 5
            &&& steps[0].1.sql == "UPDATE telegram_chat_feature_flags SET chat_id = $1, chat_type = $2 WHERE chat_id = $3"@
            &&& steps[1].1.sql == "UPDATE telegram_chat_recaps_options SET chat_id = $1 WHERE chat_id = $2"@
            &&& steps[2].1.sql == "UPDATE telegram_chat_auto_recaps_subscribers SET chat_id = $1 WHERE chat_id = $2"@
            &&& steps[3].1.sql == "UPDATE chat_histories SET chat_id = $1, chat_type = $2 WHERE chat_id = $3"@
            &&& steps[4].1.sql == "UPDATE log_chat_histories_recaps SET chat_id = $1 WHERE chat_id = $2"@
        }),
{
}

/// Where the bot leaves a chat, all that is stored of it goes, and the logged recaps are
/// blanked.
pub proof fn lemma_everything_goes(chat_id: i64)
    ensures
        ({
            let steps = chat_cleanup::steps(chat_id);
            &&& steps.len() == 5
            &&& forall|i: int| 0 <= i < 5 ==> (#[trigger] steps[i]).1.values.last() == ValueModel::Int(chat_id)
            &&& steps[0].1.sql == "DELETE FROM telegram_chat_auto_recaps_subscribers WHERE chat_id = $1"@
            &&& steps[1].1.sql == "DELETE FROM telegram_chat_feature_flags WHERE chat_id = $1"@
            &&& steps[2].1.sql == "DELETE FROM telegram_chat_recaps_options WHERE chat_id = $1"@
            &&& steps[3].1.sql == "DELETE FROM chat_histories WHERE chat_id = $1"@
            &&& steps[4].1.sql == "UPDATE log_chat_histories_recaps SET recap_inputs = $1, recap_outputs = $2
         WHERE chat_id = $3"@
            &&& steps[4].1.values[0] == ValueModel::Text(""@)
            &&& steps[4].1.values[1] == ValueModel::Text(""@)
        }),
{
}

} // verus!
