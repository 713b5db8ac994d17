use remit::profile::{
    collect_devices, name_source, schema_missing, statement_error_message, user_name_from_hostname,
    user_name_from_system, username_exists, username_statement, NameSource, UsernameStatement,
    CREATE_USER_TABLE, DATABASE_FILE, INSERT_USER_NAME, UPDATE_USER_NAME,
};
use remit::platform::Platform;
use remit::profile::database_path;
use remit::system::HostnameReading;

#[test]
fn database_constants() {
    assert_eq!(DATABASE_FILE, "remit_data.db");
    assert!(CREATE_USER_TABLE.starts_with("CREATE TABLE IF NOT EXISTS 'usuario_app'("));
}

#[test]
fn missing_name_means_zero_count() {
    assert!(username_exists(&Ok(0)));
    assert!(!username_exists(&Ok(1)));
    assert!(!username_exists(&Ok(-1)));
    assert!(!username_exists(&Err("no such table: usuario_app".to_string())));
}

#[test]
fn schema_is_created_only_in_an_empty_database() {
    assert!(schema_missing(0));
    assert!(!schema_missing(2));
}

#[test]
fn name_source_for_each_case() {
    assert!(matches!(name_source(Ok(0), true), Ok(NameSource::Hostname)));
    assert!(matches!(name_source(Ok(1), false), Ok(NameSource::Stored)));
    match name_source(Err("locked".to_string()), true) {
        Err(e) => assert_eq!(e, "locked"),
        Ok(_) => panic!("the count error must come out"),
    }
}

#[test]
fn user_name_from_each_hostname_reading() {
    assert_eq!(user_name_from_hostname(HostnameReading::Unicode("laptop".to_string())), Ok("laptop".to_string()));
    assert_eq!(user_name_from_hostname(HostnameReading::NotUnicode("x".to_string())), Ok("Error".to_string()));
    assert_eq!(
        user_name_from_hostname(HostnameReading::Unavailable),
        Err("Error al obtener el nombre del dispositivo".to_string())
    );
}

#[test]
fn user_name_from_system_is_a_name_or_the_hostname_error() {
    match user_name_from_system() {
        Ok(_) => {}
        Err(e) => assert_eq!(e, "Error al obtener el nombre del dispositivo"),
    }
}

#[test]
fn statement_for_each_case() {
    assert!(matches!(username_statement(true), UsernameStatement::Insert));
    assert!(matches!(username_statement(false), UsernameStatement::Update));
    assert_eq!(UsernameStatement::Insert.sql(), INSERT_USER_NAME);
    assert_eq!(UsernameStatement::Update.sql(), UPDATE_USER_NAME);
    assert_eq!(INSERT_USER_NAME, "INSERT INTO usuario_app (nombre_usuario) VALUES (?1)");
    assert_eq!(UPDATE_USER_NAME, "UPDATE usuario_app SET nombre_usuario = ?1");
}

#[test]
fn statement_error_is_prefixed() {
    assert_eq!(statement_error_message("database is locked"), "RUST:: database is locked");
}

#[test]
fn devices_are_collected_in_order() {
    let rows = vec![Ok((1, "Ana".to_string())), Ok((2, "Luis".to_string()))];
    let devices = collect_devices(&rows).ok().unwrap();
    assert_eq!(devices.len(), 2);
    assert_eq!(devices[0].id, 1);
    assert_eq!(devices[0].nombre_dispositivo, "Ana");
    assert_eq!(devices[1].id, 2);
    assert_eq!(devices[1].nombre_dispositivo, "Luis");
    assert_eq!(collect_devices(&Vec::new()).ok().unwrap().len(), 0);
}

#[test]
fn first_row_error_wins() {
    let rows = vec![
        Ok((1, "Ana".to_string())),
        Err("bad row 2".to_string()),
        Err("bad row 3".to_string()),
    ];
    match collect_devices(&rows) {
        Err(e) => assert_eq!(e, "bad row 2"),
        Ok(_) => panic!("expected the first row error"),
    }
}

/// Runs a user-name write against a table held as rows, as SQLite would.
fn write(rows: &mut Vec<String>, name: &str) {
    let count = if rows.len() <= 127 { Ok(rows.len() as i8) } else { Err("out of range".to_string()) };
    match username_statement(username_exists(&count)) {
        UsernameStatement::Insert => rows.push(name.to_string()),
        UsernameStatement::Update => {
            for row in rows.iter_mut() {
                *row = name.to_string();
            }
        }
    }
}

/// Reads the user name from a table held as rows, as the application does.
fn read(rows: &Vec<String>, host: &str) -> Result<String, String> {
    let count: Result<i8, String> = if rows.len() <= 127 { Ok(rows.len() as i8) } else { Err("out of range".to_string()) };
    let missing = username_exists(&count);
    match name_source(count, missing)? {
        NameSource::Hostname => Ok(host.to_string()),
        NameSource::Stored => rows.first().cloned().ok_or_else(|| "no rows".to_string()),
    }
}

#[test]
fn changed_name_is_read_back() {
    let mut rows: Vec<String> = Vec::new();
    assert_eq!(read(&rows, "laptop"), Ok("laptop".to_string()));
    write(&mut rows, "Ana");
    assert_eq!(rows, vec!["Ana".to_string()]);
    assert_eq!(read(&rows, "laptop"), Ok("Ana".to_string()));
    write(&mut rows, "Luis");
    assert_eq!(rows, vec!["Luis".to_string()]);
    assert_eq!(read(&rows, "laptop"), Ok("Luis".to_string()));
    let mut two = vec!["a".to_string(), "b".to_string()];
    write(&mut two, "c");
    assert_eq!(read(&two, "laptop"), Ok("c".to_string()));
}

#[test]
fn second_change_overrides_the_first() {
    for start in [vec![], vec!["x".to_string()], vec!["x".to_string(), "y".to_string()]] {
        let mut twice = start.clone();
        write(&mut twice, "a");
        write(&mut twice, "b");
        let mut once = start.clone();
        write(&mut once, "b");
        assert_eq!(twice, once);
        let mut same = start.clone();
        write(&mut same, "b");
        write(&mut same, "b");
        assert_eq!(same, once);
    }
}

/// Initialises a schema held as its entries, as the application does.
fn init(entries: &mut Vec<String>) -> Result<(), String> {
    let count: i8 = if entries.len() <= 127 { entries.len() as i8 } else { return Err("out of range".to_string()) };
    if schema_missing(count) {
        entries.push("usuario_app".to_string());
    }
    Ok(())
}

#[test]
fn initialising_twice_is_initialising_once() {
    let mut entries: Vec<String> = Vec::new();
    assert!(init(&mut entries).is_ok());
    assert_eq!(entries, vec!["usuario_app".to_string()]);
    assert!(init(&mut entries).is_ok());
    assert_eq!(entries, vec!["usuario_app".to_string()]);
    let mut existing = vec!["dispositivos".to_string()];
    assert!(init(&mut existing).is_ok());
    assert_eq!(existing, vec!["dispositivos".to_string()]);
}

#[test]
fn database_lies_in_the_private_folder_on_android() {
    assert_eq!(
        database_path(Platform::Android, "/data/user/0/com.osxar.remit/files"),
        "/data/user/0/com.osxar.remit/files/remit_data.db"
    );
    assert_eq!(database_path(Platform::Windows, "ignored"), "remit_data.db");
    assert_eq!(database_path(Platform::Linux, "ignored"), "remit_data.db");
}
