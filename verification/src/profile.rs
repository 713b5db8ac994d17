use vstd::prelude::*;

use crate::platform::Platform;
use crate::system::{read_hostname, HostnameReading};

verus! {

/// The SQLite file that holds the application's data.
pub const DATABASE_FILE: &'static str = "remit_data.db";

/// Where the database lies: on Android, [`DATABASE_FILE`] inside the
/// application's private data folder `private_data_dir`; elsewhere the file
/// name itself, in the working folder.
pub fn database_path(platform: Platform, private_data_dir: &str) -> (r: String)
    ensures
        r@ == if platform is Android {
            private_data_dir@ + seq!['/'] + DATABASE_FILE@
        } else {
            DATABASE_FILE@
        },
{
    match platform {
        Platform::Android => {
            let mut path = private_data_dir.to_string();
            path.append("/");
            path.append(DATABASE_FILE);
            proof {
                reveal_strlit("/");
            }
            path
        },
        _ => DATABASE_FILE.to_string(),
    }
}

/// Lists the known devices.
pub const SELECT_DEVICES: &'static str = "SELECT * FROM dispositivos";

/// Counts the stored user names.
pub const COUNT_USER_NAMES: &'static str = "SELECT count(*) FROM usuario_app";

/// Reads the stored user name (the first row).
pub const SELECT_USER_NAME: &'static str = "SELECT nombre_usuario FROM usuario_app";

/// Stores a first user name.
pub const INSERT_USER_NAME: &'static str = "INSERT INTO usuario_app (nombre_usuario) VALUES (?1)";

/// Replaces every stored user name.
pub const UPDATE_USER_NAME: &'static str = "UPDATE usuario_app SET nombre_usuario = ?1";

/// Counts the tables of the database.
pub const COUNT_TABLES: &'static str = "SELECT count(*) from sqlite_master";

/// Creates the table of user names.
pub const CREATE_USER_TABLE: &'static str = "CREATE TABLE IF NOT EXISTS 'usuario_app'(
        id INTEGER PRIMARY KEY NOT NULL,
        nombre_usuario TEXT NOT NULL)
        ;";

/// The error given when the machine's host name cannot be read.
pub const HOSTNAME_ERROR: &'static str = "Error al obtener el nombre del dispositivo";

/// The name given when the machine's host name is not valid Unicode.
pub const NON_UNICODE_HOSTNAME: &'static str = "Error";

/// The prefix of the error given when a user-name statement fails to run.
pub const STATEMENT_ERROR_PREFIX: &'static str = "RUST:: ";

/// A device stored in the database.
pub struct Dispositivos {
    pub id: i32,
    pub nombre_dispositivo: String,
}

/// The user name stored in the database.
pub struct UsuarioApp {
    pub nombre_usuario: String,
}

/// Where the user name comes from.
pub enum NameSource {
    /// No user name is stored: the machine's host name stands for it.
    Hostname,
    /// A user name is stored: read it.
    Stored,
}

/// The statement that stores a new user name.
pub enum UsernameStatement {
    /// No user name is stored yet: insert one.
    Insert,
    /// A user name is stored: replace it.
    Update,
}

/// Whether no user name is stored, judged by the count of stored names: true
/// exactly when the count was read and is zero. (A failed count counts as a
/// stored name.)
pub open spec fn spec_username_exists(count: Result<i8, String>) -> bool {
    count matches Ok(c) && c == 0
}

/// Where the user name comes from, given the first count of stored names and
/// whether no name is stored: a failed count is the error.
pub open spec fn spec_name_source(user_count: Result<i8, String>, missing: bool) -> Result<NameSource, String> {
    match user_count {
        Err(e) => Err(e),
        Ok(_) => if missing {
            Ok(NameSource::Hostname)
        } else {
            Ok(NameSource::Stored)
        },
    }
}

/// The statement that stores a new user name when `missing` tells that none is stored.
pub open spec fn spec_username_statement(missing: bool) -> UsernameStatement {
    if missing {
        UsernameStatement::Insert
    } else {
        UsernameStatement::Update
    }
}

/// Whether no user name is stored, judged by the count of stored names: true
/// exactly when the count was read and is zero.
pub fn username_exists(count: &Result<i8, String>) -> (r: bool)
    ensures
        r == spec_username_exists(*count),
{
    match count {
        Ok(c) => *c == 0,
        Err(_) => false,
    }
}

/// Whether the database has no table yet, judged by the count of its schema
/// entries.
pub open spec fn spec_schema_missing(table_count: i8) -> bool {
    table_count == 0
}

/// Whether the database has no table yet, so that the user-name table must be created.
pub fn schema_missing(table_count: i8) -> (r: bool)
    ensures
        r == spec_schema_missing(table_count),
{
    table_count == 0
}

/// Where the user name comes from: the error of the first count, or else the
/// host name when no name is stored and the stored name otherwise.
pub fn name_source(user_count: Result<i8, String>, missing: bool) -> (r: Result<NameSource, String>)
    ensures
        r == spec_name_source(user_count, missing),
{
    match user_count {
        Err(e) => Err(e),
        Ok(_) => if missing {
            Ok(NameSource::Hostname)
        } else {
            Ok(NameSource::Stored)
        },
    }
}

/// The user name that a host-name reading gives: the name itself, `Error`
/// for a name that is not Unicode, and [`HOSTNAME_ERROR`] when none was read.
pub fn user_name_from_hostname(reading: HostnameReading) -> (r: Result<String, String>)
    ensures
        match reading {
            HostnameReading::Unavailable => r matches Err(e) && e@ == HOSTNAME_ERROR@,
            HostnameReading::Unicode(name) => r == Ok::<String, String>(name),
            HostnameReading::NotUnicode(_) => r matches Ok(name) && name@ == NON_UNICODE_HOSTNAME@,
        },
{
    match reading {
        HostnameReading::Unavailable => Err(HOSTNAME_ERROR.to_string()),
        HostnameReading::Unicode(name) => Ok(name),
        HostnameReading::NotUnicode(_) => Ok(NON_UNICODE_HOSTNAME.to_string()),
    }
}

/// The user name that stands for a missing one: this machine's host name.
///
/// The machine decides what is read; whatever it is, an error is
/// [`HOSTNAME_ERROR`].
pub fn user_name_from_system() -> (r: Result<String, String>)
    ensures
        r matches Err(e) ==> e@ == HOSTNAME_ERROR@,
{
    user_name_from_hostname(read_hostname())
}

/// The statement that stores a new user name: insert when none is stored,
/// update otherwise.
pub fn username_statement(missing: bool) -> (r: UsernameStatement)
    ensures
        r == spec_username_statement(missing),
{
    if missing {
        UsernameStatement::Insert
    } else {
        UsernameStatement::Update
    }
}

impl UsernameStatement {
    /// The SQL text of the statement.
    pub fn sql(&self) -> (r: &'static str)
        ensures
            r@ == match self {
                UsernameStatement::Insert => INSERT_USER_NAME@,
                UsernameStatement::Update => UPDATE_USER_NAME@,
            },
    {
        match self {
            UsernameStatement::Insert => INSERT_USER_NAME,
            UsernameStatement::Update => UPDATE_USER_NAME,
        }
    }
}

/// The error given when a user-name statement fails to run: its detail after
/// [`STATEMENT_ERROR_PREFIX`].
pub fn statement_error_message(detail: &str) -> (r: String)
    ensures
        r@ == STATEMENT_ERROR_PREFIX@ + detail@,
{
    let mut message = STATEMENT_ERROR_PREFIX.to_string();
    message.append(detail);
    message
}

/// The devices read from the database, row by row, or the error of the first
/// row that could not be read.
pub fn collect_devices(rows: &Vec<Result<(i32, String), String>>) -> (r: Result<Vec<Dispositivos>, String>)
    ensures
        match r {
            Ok(devices) => {
                &&& devices.len() == rows.len()
                &&& forall|i: int| 0 <= i < rows.len() ==>
                    #[trigger] rows@[i] == Ok::<(i32, String), String>((devices@[i].id, devices@[i].nombre_dispositivo))
            },
            Err(e) => exists|k: int| {
                &&& 0 <= k < rows.len()
                &&& #[trigger] rows@[k] == Err::<(i32, String), String>(e)
                &&& forall|j: int| 0 <= j < k ==> rows@[j] is Ok
            },
        },
{
    let mut devices: Vec<Dispositivos> = Vec::new();
    let mut i: usize = 0;
    while i < rows.len()
        invariant
            i <= rows.len(),
            devices.len() == i,
            forall|j: int| 0 <= j < i ==>
                #[trigger] rows@[j] == Ok::<(i32, String), String>((devices@[j].id, devices@[j].nombre_dispositivo)),
        decreases rows.len() - i,
    {
        match &rows[i] {
            Ok((id, name)) => {
                devices.push(Dispositivos { id: *id, nombre_dispositivo: name.clone() });
            },
            Err(e) => {
                let err = e.clone();
                assert(rows@[i as int] == Err::<(i32, String), String>(err));
                return Err(err);
            },
        }
        i = i + 1;
    }
    Ok(devices)
}

/// The stored user names, one per row of the user-name table, in row order.
pub type UserRows = Seq<Seq<char>>;

/// What counting the stored names reads: the number of rows, which must fit
/// an `i8`.
pub open spec fn count_of_rows(rows: UserRows) -> Result<i8, String> {
    if rows.len() <= 127 {
        Ok(rows.len() as i8)
    } else {
        Err(arbitrary())
    }
}

/// The rows after running `statement` with the name `name`: an insert adds a
/// row, an update sets every row to the name.
pub open spec fn rows_after_write(rows: UserRows, statement: UsernameStatement, name: Seq<char>) -> UserRows {
    match statement {
        UsernameStatement::Insert => rows.push(name),
        UsernameStatement::Update => Seq::new(rows.len(), |i: int| name),
    }
}

/// The name that reading the stored user name gives: the first row's, if any.
pub open spec fn stored_name(rows: UserRows) -> Option<Seq<char>> {
    if rows.len() > 0 {
        Some(rows[0])
    } else {
        None
    }
}

/// A user name that was just changed is the one read back: after storing
/// `name` with the statement that the count of rows selects, the user name
/// comes from the table and the table's first row holds `name`.
///
/// This holds while the table's row count fits the `i8` the count is read
/// into.
pub proof fn lemma_changed_name_is_read_back(rows: UserRows, name: Seq<char>)
    requires
        rows.len() <= 127,
    ensures
        ({
            let statement = spec_username_statement(spec_username_exists(count_of_rows(rows)));
            let after = rows_after_write(rows, statement, name);
            &&& spec_name_source(count_of_rows(after), spec_username_exists(count_of_rows(after)))
                == Ok::<NameSource, String>(NameSource::Stored)
            &&& stored_name(after) == Some(name)
        }),
{
    let statement = spec_username_statement(spec_username_exists(count_of_rows(rows)));
    let after = rows_after_write(rows, statement, name);
    if rows.len() == 0 {
        assert(after.len() == 1);
    } else {
        assert(after.len() == rows.len());
        assert(after[0] == name);
    }
}

/// The rows after changing the user name to `name`: the statement is chosen
/// by the count of rows, as a change does.
pub open spec fn rows_after_change(rows: UserRows, name: Seq<char>) -> UserRows {
    rows_after_write(rows, spec_username_statement(spec_username_exists(count_of_rows(rows))), name)
}

/// A second change of the user name overrides the first: changing it to `a`
/// then to `b` leaves the table as changing it to `b` alone; in particular,
/// changing it twice to the same name leaves it as changing it once.
pub proof fn lemma_second_change_overrides_first(rows: UserRows, a: Seq<char>, b: Seq<char>)
    ensures
        rows_after_change(rows_after_change(rows, a), b) == rows_after_change(rows, b),
        rows_after_change(rows_after_change(rows, b), b) == rows_after_change(rows, b),
{
    let once = rows_after_change(rows, a);
    if rows.len() == 0 {
        assert(once.len() == 1);
        assert(rows_after_change(once, b) =~= seq![b]);
        assert(rows_after_change(rows, b) =~= seq![b]);
    } else {
        assert(once.len() == rows.len());
        assert(rows_after_change(once, b) =~= rows_after_change(rows, b));
    }
    let once_b = rows_after_change(rows, b);
    if rows.len() == 0 {
        assert(rows_after_change(once_b, b) =~= seq![b]);
    } else {
        assert(rows_after_change(once_b, b) =~= once_b);
    }
}

/// The entries of the database schema (its tables), by name.
pub type SchemaEntries = Seq<Seq<char>>;

/// The name of the user-name table.
pub open spec fn user_table_name() -> Seq<char> {
    seq!['u', 's', 'u', 'a', 'r', 'i', 'o', '_', 'a', 'p', 'p']
}

/// The schema after initialising the database: when its entries are counted
/// and there are none, the user-name table is created; otherwise nothing
/// changes.
pub open spec fn schema_after_init(entries: SchemaEntries) -> SchemaEntries {
    match count_of_rows(entries) {
        Ok(c) => if spec_schema_missing(c) {
            entries.push(user_table_name())
        } else {
            entries
        },
        Err(_) => entries,
    }
}

/// Whether initialising succeeds: the count of entries is read.
pub open spec fn init_succeeds(entries: SchemaEntries) -> bool {
    count_of_rows(entries) is Ok
}

/// Initialising the database twice is initialising it once: the second time
/// changes nothing, and it succeeds whenever the first did.
pub proof fn lemma_init_is_idempotent(entries: SchemaEntries)
    ensures
        schema_after_init(schema_after_init(entries)) == schema_after_init(entries),
        init_succeeds(entries) ==> init_succeeds(schema_after_init(entries)),
{
}

/// With no user name stored, the host name stands for the user name.
pub proof fn lemma_no_rows_reads_hostname(rows: UserRows)
    requires
        rows.len() == 0,
    ensures
        spec_name_source(count_of_rows(rows), spec_username_exists(count_of_rows(rows)))
            == Ok::<NameSource, String>(NameSource::Hostname),
{
}

} // verus!
