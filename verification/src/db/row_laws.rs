//! What holds of rows and of the choice of a database.

use vstd::prelude::*;

use crate::db::chat_history;
use crate::db::codec::{self, Cell, CodecError, ColumnKind};
use crate::db::connect::{self, ConnectModel, CreationModel, PostgresAttempt};
use crate::db::models::{self, MessageKind};
use crate::text::{self, CharClass};
use crate::text_laws;

verus! {

/// A truth value reads back from the spellings of both backends, in any case.
pub proof fn lemma_truth_reads_back(raw: Seq<char>)
    ensures
        raw == "1"@ || raw == "t"@ || raw == "true"@ ==> codec::read_boolean(raw) == Some(true),
        raw == "0"@ || raw == "f"@ || raw == "false"@ ==> codec::read_boolean(raw) == Some(false),
{
    reveal_strlit("1");
    reveal_strlit("t");
    reveal_strlit("true");
    reveal_strlit("0");
    reveal_strlit("f");
    reveal_strlit("false");
    if raw == "1"@ || raw == "t"@ || raw == "true"@ || raw == "0"@ || raw == "f"@ || raw
        == "false"@ {
        text_laws::lemma_trimmed_already(raw);
        assert(text::ascii_lower(raw) =~= raw);
        assert("0"@[0] != "1"@[0] && "0"@[0] != "t"@[0] && "f"@[0] != "1"@[0] && "f"@[0]
            != "t"@[0]);
        assert("false"@.len() == 5 && "true"@.len() == 4 && "0"@.len() == 1 && "f"@.len() == 1
            && "1"@.len() == 1 && "t"@.len() == 1);
    }
}

/// A column is read as what it holds, and every fault names its own column.
pub proof fn lemma_columns_are_read(row: Seq<Cell>, index: int)
    requires
        0 <= index <= usize::MAX,
    ensures
        index >= row.len() ==> codec::nullable_text(row, index) == Err::<
            Option<Seq<char>>,
            CodecError,
        >(CodecError::Missing { index: index as usize }),
        index < row.len() && row[index] is Text ==> codec::required_text(row, index) == Ok::<
            Seq<char>,
            CodecError,
        >(row[index]->Text_0@),
        index < row.len() && row[index] is Null ==> codec::nullable_text(row, index) == Ok::<
            Option<Seq<char>>,
            CodecError,
        >(None) && codec::required_text(row, index) == Err::<Seq<char>, CodecError>(
            CodecError::UnexpectedNull { index: index as usize },
        ),
        index < row.len() && row[index] is Unreadable ==> codec::required_text(row, index)
            == Err::<Seq<char>, CodecError>(CodecError::Unreadable { index: index as usize }),
{
}

/// A row is read where every column is, and else the first column at fault is named.
pub proof fn lemma_first_fault_is_named(row: Seq<Cell>, kinds: Seq<ColumnKind>, i: int)
    requires
        0 <= i < kinds.len(),
        codec::cell_fault(row, i, kinds[i]) is Some,
        forall|k: int| 0 <= k < i ==> codec::cell_fault(row, k, #[trigger] kinds[k]) is None,
    ensures
        codec::row_fault(row, kinds) == codec::cell_fault(row, i, kinds[i]),
{
    lemma_first_fault_from(row, kinds, i, 0);
}

proof fn lemma_first_fault_from(row: Seq<Cell>, kinds: Seq<ColumnKind>, i: int, from: int)
    requires
        0 <= from <= i < kinds.len(),
        codec::cell_fault(row, i, kinds[i]) is Some,
        forall|k: int| 0 <= k < i ==> codec::cell_fault(row, k, #[trigger] kinds[k]) is None,
    ensures
        codec::row_fault_from(row, kinds, from) == codec::cell_fault(row, i, kinds[i]),
    decreases i - from,
{
    if from < i {
        assert(codec::cell_fault(row, from, kinds[from]) is None);
        lemma_first_fault_from(row, kinds, i, from + 1);
    }
}

/// PostgreSQL is tried first where there is an address; SQLite stands in where it cannot
/// be reached, but not where its tables cannot be served.
pub proof fn lemma_choice_of_a_database(url: Seq<char>, path: Seq<char>, attempt: PostgresAttempt)
    ensures
        attempt is NotTried ==> connect::connecting(Some(url), Some(path), attempt)
            == ConnectModel::Postgres(url),
        attempt is Connected ==> connect::connecting(Some(url), Some(path), attempt)
            == ConnectModel::UsePostgres,
        attempt is Failed && connect::incompatible(attempt->Failed_0) ==> connect::connecting(
            Some(url),
            Some(path),
            attempt,
        ) is PostgresFailure,
        attempt is Failed && !connect::incompatible(attempt->Failed_0) ==> connect::connecting(
            Some(url),
            Some(path),
            attempt,
        ) == ConnectModel::Sqlite(connect::sqlite_address(path)),
        attempt is Failed ==> connect::connecting(Some(url), None, attempt) is PostgresFailure,
        connect::connecting(None, Some(path), attempt) == ConnectModel::Sqlite(
            connect::sqlite_address(path),
        ),
        connect::connecting(None, None, attempt) is NoDatabase,
{
}

/// A file is addressed by its path and may be created.
pub proof fn lemma_address_of_a_file(path: Seq<char>)
    ensures
        !"sqlite://"@.is_prefix_of(path) ==> connect::sqlite_address(path) == "sqlite://"@ + path
            + "?mode=rwc"@,
        "sqlite://"@.is_prefix_of(path) && !path.contains('?') ==> connect::sqlite_address(path)
            == path + "?mode=rwc"@,
        "sqlite://"@.is_prefix_of(path) && path.contains('?') ==> connect::sqlite_address(path)
            == path,
{
}

/// A table is served where it is keyed by an integer of any size, however that is spelled.
pub proof fn lemma_served_tables(data_type: Seq<char>)
    ensures
        connect::integral(data_type) <==> text::ascii_lower(data_type) == "smallint"@
            || text::ascii_lower(data_type) == "integer"@ || text::ascii_lower(data_type)
            == "bigint"@,
{
}

/// A database is created under the name that its address ends with; without a name there
/// is nothing to create.
pub proof fn lemma_database_is_named_by_its_path(name: Seq<char>, admin: Seq<char>)
    requires
        name.len() > 0,
        name[0] != '/',
    ensures
        connect::creation_with(Some("/"@ + name), Some(admin)) == CreationModel::Create(
            admin,
            name,
        ),
        connect::creation_with(Some("/"@), Some(admin)) is NoName,
        connect::creation_with(None, Some(admin)) is InvalidUrl,
        connect::creation_with(Some("/"@ + name), None) is InvalidUrl,
{
    reveal_strlit("/");
    let path = "/"@ + name;
    assert(path[0] == '/' && path[1] == name[0]);
    text::lemma_trim_start(path, CharClass::Exactly('/'), 1);
    assert(path.subrange(1, path.len() as int) =~= name);
    text::lemma_trim_start("/"@, CharClass::Exactly('/'), 1);
    assert("/"@.subrange(1, 1) =~= Seq::<char>::empty());
}

/// Recaps are for groups, of either kind.
pub proof fn lemma_recaps_are_for_groups(chat_type: Seq<char>)
    ensures
        models::eligible(chat_type) <==> chat_type == "group"@ || chat_type == "supergroup"@,
{
}

/// A message is stored under the name of its kind.
pub proof fn lemma_kinds_are_named(kind: MessageKind)
    ensures
        ({
            let name = models::kind_name(kind);
            &&& kind is Text ==> name == "text"@
            &&& kind is Photo ==> name == "photo"@
            &&& kind is Video ==> name == "video"@
            &&& kind is Audio ==> name == "audio"@
            &&& kind is Voice ==> name == "voice"@
            &&& kind is Document ==> name == "document"@
            &&& kind is Sticker ==> name == "sticker"@
            &&& kind is Other ==> name == "other"@
        }),
{
}

/// The messages of a chat are read from a moment on, oldest first, and of one chat alone.
pub proof fn lemma_messages_are_read_of_one_chat()
    ensures
        text::occurs(chat_history::chatted_after(), " WHERE chat_id = $1 AND chatted_at > $2 "@),
        " ORDER BY message_id ASC"@.is_suffix_of(chat_history::chatted_after()),
{
    reveal_strlit(" WHERE chat_id = $1 AND chatted_at > $2 ORDER BY message_id ASC");
    reveal_strlit(" WHERE chat_id = $1 AND chatted_at > $2 ");
    reveal_strlit(" ORDER BY message_id ASC");
    let tail = " WHERE chat_id = $1 AND chatted_at > $2 ORDER BY message_id ASC"@;
    let limits = " WHERE chat_id = $1 AND chatted_at > $2 "@;
    let order = " ORDER BY message_id ASC"@;
    let all = chat_history::chatted_after();
    let at = all.len() - tail.len();
    assert(tail.subrange(0, limits.len() as int) =~= limits);
    assert(tail.subrange(tail.len() - order.len(), tail.len() as int) =~= order);
    assert(all.subrange(at, at + limits.len()) =~= limits);
    assert(text::matches_at(all, limits, at));
    assert(all.subrange(all.len() - order.len(), all.len() as int) =~= order);
}

} // verus!
