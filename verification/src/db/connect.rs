//! Which database serves, and how it is made ready.

use vstd::prelude::*;

use crate::address;
use crate::config::DbConfig;
use crate::text::{self, joined2, joined3, CharClass};

verus! {

/// What is reported of a PostgreSQL database that cannot be served. It quotes nothing that
/// was found there.
pub const INCOMPATIBLE_POSTGRES_SCHEMA_MESSAGE: &'static str =
    "unsupported PostgreSQL schema: chat_histories.id is not an integer column. This service owns chat_histories with an integer primary key; a UUID-keyed Go chat_histories table must be migrated before starting this service.";

/// The type of the key of `chat_histories`, in the schema that the session resolves.
pub const CHAT_HISTORIES_ID_TYPE_QUERY: &'static str = "SELECT data_type
             FROM information_schema.columns
             WHERE table_schema = current_schema()
               AND table_name = 'chat_histories'
               AND column_name = 'id'
             LIMIT 1";

/// What is reported where no database is configured.
pub const NO_DATABASE_MESSAGE: &'static str =
    "no database configured: set DATABASE_URL for PostgreSQL or SQLITE_PATH for SQLite";

// ---------------------------------------------------------------------------
// Failures
// ---------------------------------------------------------------------------

/// One cause in a chain of failures.
#[derive(Debug, PartialEq, Eq)]
pub enum Cause {
    /// The database answers, and holds a schema that must not be touched.
    IncompatiblePostgresSchema,
    Other(String),
}

/// Why a database cannot be used, the outermost cause first.
#[derive(Debug, PartialEq, Eq)]
pub struct ConnectFailure {
    pub causes: Vec<Cause>,
}

pub open spec fn cause_text(cause: Cause) -> Seq<char> {
    match cause {
        Cause::IncompatiblePostgresSchema => INCOMPATIBLE_POSTGRES_SCHEMA_MESSAGE@,
        Cause::Other(found) => found@,
    }
}

impl ConnectFailure {
    /// The failure with a single cause.
    pub fn new(cause: Cause) -> (r: Self)
        ensures
            r.causes@ == seq![cause],
    {
        ConnectFailure { causes: vec![cause] }
    }

    /// The failure with another cause around it.
    pub fn context(self, around: &str) -> (r: Self)
        ensures
            r.causes@.len() == self.causes@.len() + 1,
            r.causes@[0] matches Cause::Other(found) && found@ == around@,
            r.causes@.skip(1) == self.causes@,
    {
        let mut inner: Vec<Cause> = self.causes;
        let mut causes: Vec<Cause> = vec![Cause::Other(around.to_owned())];
        causes.append(&mut inner);
        assert(causes@.skip(1) =~= self.causes@);
        ConnectFailure { causes }
    }

    /// What is reported: the outermost cause.
    pub fn message(&self) -> (out: String)
        ensures
            out@ == if self.causes@.len() > 0 {
                cause_text(self.causes@[0])
            } else {
                Seq::empty()
            },
    {
        if self.causes.len() > 0 {
            match &self.causes[0] {
                Cause::IncompatiblePostgresSchema =>
                    INCOMPATIBLE_POSTGRES_SCHEMA_MESSAGE.to_owned(),
                Cause::Other(found) => found.clone(),
            }
        } else {
            String::new()
        }
    }
}

/// A failure that an incompatible schema is the cause of, at any depth.
pub open spec fn incompatible(failure: ConnectFailure) -> bool {
    exists|i: int|
        0 <= i < failure.causes@.len() && #[trigger] failure.causes@[i]
            is IncompatiblePostgresSchema
}

/// A cause around a failure changes nothing about what it was caused by.
pub proof fn lemma_context_keeps_cause(inner: ConnectFailure, outer: ConnectFailure)
    requires
        outer.causes@.len() > 0,
        outer.causes@[0] is Other,
        outer.causes@.skip(1) == inner.causes@,
    ensures
        incompatible(outer) == incompatible(inner),
{
    if incompatible(inner) {
        let i = choose|i: int|
            0 <= i < inner.causes@.len() && #[trigger] inner.causes@[i]
                is IncompatiblePostgresSchema;
        assert(outer.causes@[i + 1] == outer.causes@.skip(1)[i]);
    }
    if incompatible(outer) {
        let i = choose|i: int|
            0 <= i < outer.causes@.len() && #[trigger] outer.causes@[i]
                is IncompatiblePostgresSchema;
        assert(outer.causes@.skip(1)[i - 1] == outer.causes@[i]);
        assert(inner.causes@[i - 1] is IncompatiblePostgresSchema);
    }
}

// ---------------------------------------------------------------------------
// Schemas
// ---------------------------------------------------------------------------

/// The database handle's decisions.
#[derive(Debug, Clone, Copy, PartialEq, Eq, Structural)]
pub struct Database;

/// A key type that can be served.
pub open spec fn integral(data_type: Seq<char>) -> bool {
    let lower = text::ascii_lower(data_type);
    lower == "smallint"@ || lower == "integer"@ || lower == "bigint"@
}

impl Database {
    /// Reject a `chat_histories` table that cannot be served: one that is there and keyed by
    /// anything but an integer.
    pub fn ensure_supported_chat_histories_id(chat_histories_id_type: Option<&str>) -> (r: Result<
        (),
        ConnectFailure,
    >)
        ensures
            match r {
                Ok(_) => match chat_histories_id_type {
                    Some(data_type) => integral(data_type@),
                    None => true,
                },
                Err(failure) => {
                    &&& chat_histories_id_type matches Some(data_type)
                    &&& !integral(data_type@)
                    &&& failure.causes@ == seq![Cause::IncompatiblePostgresSchema]
                },
            },
    {
        match chat_histories_id_type {
            None => Ok(()),
            Some(data_type) => {
                let lower: String = text::to_ascii_lower(data_type);
                let plain: &str = lower.as_str();
                if text::same(plain, "smallint") || text::same(plain, "integer") || text::same(
                    plain,
                    "bigint",
                ) {
                    Ok(())
                } else {
                    Err(ConnectFailure::new(Cause::IncompatiblePostgresSchema))
                }
            },
        }
    }

    /// Whether an incompatible schema is the cause of a failure.
    pub fn is_incompatible_schema(failure: &ConnectFailure) -> (r: bool)
        ensures
            r == incompatible(*failure),
    {
        let mut i: usize = 0;
        while i < failure.causes.len()
            invariant
                i <= failure.causes.len(),
                forall|k: int|
                    0 <= k < i ==> !(#[trigger] failure.causes@[k] is IncompatiblePostgresSchema),
            decreases failure.causes.len() - i,
        {
            match &failure.causes[i] {
                Cause::IncompatiblePostgresSchema => {
                    assert(failure.causes@[i as int] is IncompatiblePostgresSchema);
                    return true;
                },
                Cause::Other(_) => {},
            }
            i = i + 1;
        }
        false
    }

    /// Whether SQLite may answer for a PostgreSQL that failed: never where its schema is
    /// incompatible, since its data would be passed over in silence.
    pub fn should_fall_back_to_sqlite(failure: &ConnectFailure, sqlite_configured: bool) -> (r:
        bool)
        ensures
            r == (sqlite_configured && !incompatible(*failure)),
    {
        sqlite_configured && !Database::is_incompatible_schema(failure)
    }
}

// ---------------------------------------------------------------------------
// Connecting
// ---------------------------------------------------------------------------

/// The address of an SQLite file, which is created where it is missing.
pub open spec fn sqlite_address(path: Seq<char>) -> Seq<char> {
    if "sqlite://"@.is_prefix_of(path) {
        if path.contains('?') {
            path
        } else {
            path + "?mode=rwc"@
        }
    } else {
        "sqlite://"@ + path + "?mode=rwc"@
    }
}

/// The address of an SQLite file.
pub fn sqlite_url(path: &str) -> (out: String)
    ensures
        out@ == sqlite_address(path@),
{
    if text::starts_with(path, "sqlite://") {
        if text::contains_char(path, '?') {
            path.to_owned()
        } else {
            joined2(path, "?mode=rwc")
        }
    } else {
        joined3("sqlite://", path, "?mode=rwc")
    }
}

/// What is to be done to connect.
#[derive(Debug, PartialEq, Eq)]
pub enum ConnectStep {
    /// Connect to PostgreSQL at this address.
    Postgres { url: String },
    /// PostgreSQL serves.
    UsePostgres,
    /// Connect to SQLite at this address.
    Sqlite { url: String },
    Fail(ConnectFailure),
}

/// What has become of the connection to PostgreSQL.
#[derive(Debug, PartialEq, Eq)]
pub enum PostgresAttempt {
    NotTried,
    Connected,
    Failed(ConnectFailure),
}

#[verifier::ext_equal]
pub enum ConnectModel {
    Postgres(Seq<char>),
    UsePostgres,
    Sqlite(Seq<char>),
    /// PostgreSQL failed, and its failure is reported.
    PostgresFailure,
    NoDatabase,
}

/// What is to be done to connect: PostgreSQL first where it is configured, SQLite where it
/// is not or may answer for it.
pub open spec fn connecting(
    postgres_url: Option<Seq<char>>,
    sqlite_file: Option<Seq<char>>,
    attempt: PostgresAttempt,
) -> ConnectModel {
    let fallback = match sqlite_file {
        Some(path) => ConnectModel::Sqlite(sqlite_address(path)),
        None => ConnectModel::NoDatabase,
    };
    match postgres_url {
        None => fallback,
        Some(url) => match attempt {
            PostgresAttempt::NotTried => ConnectModel::Postgres(url),
            PostgresAttempt::Connected => ConnectModel::UsePostgres,
            PostgresAttempt::Failed(failure) => if sqlite_file is Some && !incompatible(failure) {
                fallback
            } else {
                ConnectModel::PostgresFailure
            },
        },
    }
}

/// What is to be done to connect.
pub fn connect_from_env_step(cfg: &DbConfig, attempt: PostgresAttempt) -> (step: ConnectStep)
    ensures
        match (step,
            connecting(text::viewed(cfg.postgres_url), text::viewed(cfg.sqlite_file), attempt)) {
            (ConnectStep::Postgres { url }, ConnectModel::Postgres(wanted)) => url@ == wanted,
            (ConnectStep::UsePostgres, ConnectModel::UsePostgres) => true,
            (ConnectStep::Sqlite { url }, ConnectModel::Sqlite(wanted)) => url@ == wanted,
            (ConnectStep::Fail(failure), ConnectModel::PostgresFailure) => attempt
                == PostgresAttempt::Failed(failure),
            (ConnectStep::Fail(failure), ConnectModel::NoDatabase) => failure.causes@.len() == 1
                && cause_text(failure.causes@[0]) == NO_DATABASE_MESSAGE@,
            _ => false,
        },
{
    match &cfg.postgres_url {
        Some(url) => match attempt {
            PostgresAttempt::NotTried => {
                return ConnectStep::Postgres { url: url.clone() };
            },
            PostgresAttempt::Connected => {
                return ConnectStep::UsePostgres;
            },
            PostgresAttempt::Failed(failure) => {
                if !Database::should_fall_back_to_sqlite(&failure, cfg.sqlite_file.is_some()) {
                    return ConnectStep::Fail(failure);
                }
            },
        },
        None => {},
    }
    match &cfg.sqlite_file {
        Some(path) => ConnectStep::Sqlite { url: sqlite_url(path.as_str()) },
        None => ConnectStep::Fail(
            ConnectFailure::new(Cause::Other(NO_DATABASE_MESSAGE.to_owned())),
        ),
    }
}

// ---------------------------------------------------------------------------
// Creating a database
// ---------------------------------------------------------------------------

/// Whether a failed connection says that the database is not there yet.
pub fn is_missing_database(message: &str) -> (r: bool)
    ensures
        r == text::occurs(message@, "does not exist"@),
{
    text::contains(message, "does not exist")
}

/// Whether `char::is_alphanumeric` holds of a character.
pub uninterp spec fn alphanumeric(c: char) -> bool;

/// `char::is_alphanumeric`: of ASCII, the letters and the digits; of other characters it
/// is said only that the answer depends on the character alone.
pub assume_specification[ char::is_alphanumeric ](c: char) -> (r: bool)
    ensures
        r == alphanumeric(c),
        (c as u32) < 128 ==> r == ('0' <= c <= '9' || 'a' <= c <= 'z' || 'A' <= c <= 'Z'),
;

/// A name that a database can be created under.
pub open spec fn is_database_name(name: Seq<char>) -> bool {
    forall|i: int| 0 <= i < name.len() ==> alphanumeric(#[trigger] name[i]) || name[i] == '_'
}

/// Why a database cannot be created.
#[derive(Debug, PartialEq, Eq)]
pub enum CreationError {
    /// The address does not parse.
    InvalidUrl,
    /// The address names no database.
    NoName,
    /// The name could not stand in a statement.
    InvalidName(String),
}

pub open spec fn creation_failure(error: CreationError) -> Seq<char> {
    match error {
        CreationError::InvalidUrl => "invalid DATABASE_URL"@,
        CreationError::NoName => "DATABASE_URL must specify a database name"@,
        CreationError::InvalidName(name) => "invalid database name: "@ + name@,
    }
}

impl CreationError {
    pub fn message(&self) -> (out: String)
        ensures
            out@ == creation_failure(*self),
    {
        match self {
            CreationError::InvalidUrl => "invalid DATABASE_URL".to_owned(),
            CreationError::NoName => "DATABASE_URL must specify a database name".to_owned(),
            CreationError::InvalidName(name) => joined2("invalid database name: ", name.as_str()),
        }
    }
}

/// The statement that creates a database.
pub fn create_statement(name: &str) -> (r: Result<String, CreationError>)
    ensures
        match r {
            Ok(sql) => is_database_name(name@) && sql@ == "CREATE DATABASE \""@ + name@ + "\""@,
            Err(error) => !is_database_name(name@) && (error matches CreationError::InvalidName(
                shown,
            ) && shown@ == name@),
        },
{
    let chars: Vec<char> = text::chars_of(name);
    let mut i: usize = 0;
    while i < chars.len()
        invariant
            i <= chars.len(),
            chars@ == name@,
            forall|k: int| 0 <= k < i ==> alphanumeric(#[trigger] name@[k]) || name@[k] == '_',
        decreases chars.len() - i,
    {
        let c: char = chars[i];
        if !(c.is_alphanumeric() || c == '_') {
            assert(!(alphanumeric(name@[i as int]) || name@[i as int] == '_'));
            return Err(CreationError::InvalidName(name.to_owned()));
        }
        i = i + 1;
    }
    Ok(joined3("CREATE DATABASE \"", name, "\""))
}

/// The path that `url` reads in an address.
pub uninterp spec fn url_path(address: Seq<char>) -> Option<Seq<char>>;

/// `url::Url::parse`, then `Url::path`: none where parsing fails. The result is named and
/// nothing more is claimed.
#[verifier::external_body]
fn path_of_url(address: &str) -> (r: Option<String>)
    ensures
        text::viewed(r) == url_path(address@),
{
    match url::Url::parse(address) {
        Ok(parsed) => Some(parsed.path().to_owned()),
        Err(_) => None,
    }
}

/// The address that `url` writes with another path.
pub uninterp spec fn url_with_path(address: Seq<char>, path: Seq<char>) -> Option<Seq<char>>;

/// `url::Url::parse`, `Url::set_path` and `Url::as_str`: none where parsing fails. The
/// result is named and nothing more is claimed. `set_path` panics where a position leaves
/// 32 bits: what leads there is left out.
#[verifier::external_body]
fn replace_url_path(address: &str, path: &str) -> (r: Option<String>)
    requires
        address::roomy(address::url_serialized(address@), path@, Seq::empty()),
    ensures
        text::viewed(r) == url_with_path(address@, path@),
{
    let mut parsed = match url::Url::parse(address) {
        Ok(parsed) => parsed,
        Err(_) => return None,
    };
    parsed.set_path(path);
    Some(parsed.as_str().to_owned())
}

/// How a database is created: through which address, and under which name.
#[derive(Debug, PartialEq, Eq)]
pub struct DatabaseCreation {
    pub admin_url: String,
    pub name: String,
}

#[verifier::ext_equal]
pub enum CreationModel {
    InvalidUrl,
    NoName,
    /// The address of the administration database, and the name.
    Create(Seq<char>, Seq<char>),
}

pub open spec fn creation_model(r: Result<DatabaseCreation, CreationError>) -> Option<
    CreationModel,
> {
    match r {
        Ok(creation) => Some(CreationModel::Create(creation.admin_url@, creation.name@)),
        Err(CreationError::InvalidUrl) => Some(CreationModel::InvalidUrl),
        Err(CreationError::NoName) => Some(CreationModel::NoName),
        Err(CreationError::InvalidName(_)) => None,
    }
}

/// How a database is created, where its address has this path and where the address of the
/// administration database is known.
pub open spec fn creation_with(
    path: Option<Seq<char>>,
    admin_url: Option<Seq<char>>,
) -> CreationModel {
    match (path, admin_url) {
        (Some(path), Some(admin_url)) => {
            let name = text::trim_start_class(path, CharClass::Exactly('/'));
            if name.len() == 0 {
                CreationModel::NoName
            } else {
                CreationModel::Create(admin_url, name)
            }
        },
        _ => CreationModel::InvalidUrl,
    }
}

/// How a database is created, where its address has this path.
pub fn plan_database_with(path: Option<String>, admin_url: Option<String>) -> (r: Result<
    DatabaseCreation,
    CreationError,
>)
    ensures
        creation_model(r) == Some(creation_with(text::viewed(path), text::viewed(admin_url))),
{
    match (path, admin_url) {
        (Some(path), Some(admin_url)) => {
            let name: String = text::trim_start_of(path.as_str(), CharClass::Exactly('/'));
            if name.as_str().is_empty() {
                Err(CreationError::NoName)
            } else {
                Ok(DatabaseCreation { admin_url, name })
            }
        },
        _ => Err(CreationError::InvalidUrl),
    }
}

/// The address of the database `postgres` on the server of an address that reads as
/// `serialized`; none where the address does not parse or would outgrow what one can be.
pub open spec fn admin_url_with(serialized: Option<Seq<char>>, url: Seq<char>) -> Option<
    Seq<char>,
> {
    if address::roomy(serialized, "/postgres"@, Seq::empty()) {
        url_with_path(url, "/postgres"@)
    } else {
        None
    }
}

/// How the database of an address is created: through the database `postgres` of the same
/// server. An address that this would outgrow is invalid.
pub fn create_postgres_database_plan(url: &str) -> (r: Result<DatabaseCreation, CreationError>)
    ensures
        creation_model(r) == Some(
            creation_with(url_path(url@), admin_url_with(address::url_serialized(url@), url@)),
        ),
{
    proof {
        reveal_strlit("");
        assert(""@ =~= Seq::<char>::empty());
    }
    let serialized: Option<String> = address::serialize_url(url);
    let admin_url: Option<String> = if address::has_room(&serialized, "/postgres", "") {
        replace_url_path(url, "/postgres")
    } else {
        None
    };
    let path: Option<String> = path_of_url(url);
    plan_database_with(path, admin_url)
}

// ---------------------------------------------------------------------------
// Migrations
// ---------------------------------------------------------------------------

/// A line of a migration that is neither blank nor a comment.
pub open spec fn is_code_line(line: Seq<char>) -> bool {
    !text::is_blank(line) && !"--"@.is_prefix_of(text::trimmed(line))
}

/// The lines from `i` on that are neither blank nor comments.
pub open spec fn code_lines(lines: Seq<Seq<char>>, i: int) -> Seq<Seq<char>>
    decreases lines.len() - i,
{
    if i < 0 || i >= lines.len() {
        Seq::empty()
    } else if is_code_line(lines[i]) {
        seq![lines[i]] + code_lines(lines, i + 1)
    } else {
        code_lines(lines, i + 1)
    }
}

/// The statement in a piece of a migration, which may be empty.
pub open spec fn piece_code(piece: Seq<char>) -> Seq<char> {
    text::trimmed(text::join_spec(code_lines(text::lines_spec(piece), 0), "\n"@))
}

/// The statements in the pieces from `i` on.
pub open spec fn piece_statements(pieces: Seq<Seq<char>>, i: int) -> Seq<Seq<char>>
    decreases pieces.len() - i,
{
    if i < 0 || i >= pieces.len() {
        Seq::empty()
    } else if piece_code(pieces[i]).len() == 0 {
        piece_statements(pieces, i + 1)
    } else {
        seq![piece_code(pieces[i])] + piece_statements(pieces, i + 1)
    }
}

/// The statements of a migration: its pieces between semicolons, without comment lines.
pub open spec fn migration_code(sql: Seq<char>) -> Seq<Seq<char>> {
    piece_statements(text::pieces(sql, ';'), 0)
}

fn code_of_piece(piece: &str) -> (out: String)
    ensures
        out@ == piece_code(piece@),
{
    let lines: Vec<String> = text::lines(piece);
    let ghost all = text::texts(lines@);
    let mut kept: Vec<String> = Vec::new();
    let mut i: usize = 0;
    assert(text::texts(kept@) + code_lines(all, 0) =~= code_lines(all, 0));
    while i < lines.len()
        invariant
            i <= lines.len(),
            all == text::texts(lines@),
            text::texts(kept@) + code_lines(all, i as int) == code_lines(all, 0),
        decreases lines.len() - i,
    {
        let ghost before = text::texts(kept@);
        let line: &str = lines[i].as_str();
        assert(all[i as int] == line@);
        let trimmed: String = text::trim(line);
        if !text::blank(line) && !text::starts_with(trimmed.as_str(), "--") {
            kept.push(line.to_owned());
            assert(text::texts(kept@) =~= before.push(line@));
        }
        i = i + 1;
        assert(text::texts(kept@) + code_lines(all, i as int) =~= before + code_lines(all, i - 1));
    }
    assert(text::texts(kept@) =~= code_lines(all, 0));
    let joined: String = text::join(&kept, "\n");
    text::trim(joined.as_str())
}

/// The statements of a migration.
pub fn migration_statements(sql: &str) -> (out: Vec<String>)
    ensures
        text::texts(out@) == migration_code(sql@),
{
    let pieces: Vec<String> = text::split(sql, ';');
    let ghost all = text::texts(pieces@);
    let mut out: Vec<String> = Vec::new();
    let mut i: usize = 0;
    assert(text::texts(out@) + piece_statements(all, 0) =~= piece_statements(all, 0));
    while i < pieces.len()
        invariant
            i <= pieces.len(),
            all == text::texts(pieces@),
            text::texts(out@) + piece_statements(all, i as int) == piece_statements(all, 0),
        decreases pieces.len() - i,
    {
        let ghost before = text::texts(out@);
        let code: String = code_of_piece(pieces[i].as_str());
        assert(all[i as int] == pieces@[i as int]@);
        if !code.as_str().is_empty() {
            out.push(code);
            assert(text::texts(out@) =~= before.push(code@));
        }
        i = i + 1;
        assert(text::texts(out@) + piece_statements(all, i as int) =~= before + piece_statements(
            all,
            i - 1,
        ));
    }
    assert(text::texts(out@) =~= piece_statements(all, 0));
    out
}

/// Whether a failed statement says that it was applied before.
pub fn already_applied(message: &str) -> (r: bool)
    ensures
        r == (text::occurs(message@, "duplicate column"@) || text::occurs(
            message@,
            "already exists"@,
        )),
{
    text::contains(message, "duplicate column") || text::contains(message, "already exists")
}

} // verus!
