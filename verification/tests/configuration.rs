use zero2prod::configuration::{
    environment_file, environment_or_default, ApplicationSettings, DatabaseSettings, SecretText,
    Settings,
};
use zero2prod::text::{chars_of, push_decimal};

fn database(port: u16) -> DatabaseSettings {
    DatabaseSettings {
        username: "postgres".to_string(),
        password: SecretText::new("pass:w@rd/1".to_string()),
        port,
        host: "127.0.0.1".to_string(),
        database_name: "newsletter".to_string(),
    }
}

#[test]
fn the_connection_string_names_the_database() {
    let url = database(5432).connection_string();
    assert_eq!(
        url.expose_secret(),
        "postgres://postgres:pass:w@rd/1@127.0.0.1:5432/newsletter"
    );
}

#[test]
fn the_server_connection_string_leaves_the_database_out() {
    let settings = database(5432);
    let server = settings.connection_string_without_db();
    assert_eq!(server.expose_secret(), "postgres://postgres:pass:w@rd/1@127.0.0.1:5432");
    let whole = settings.connection_string();
    assert_eq!(
        whole.expose_secret(),
        format!("{}/{}", server.expose_secret(), "newsletter")
    );
    assert!(!server.expose_secret().contains("newsletter"));
}

#[test]
fn both_connection_strings_hold_the_password() {
    let settings = database(1);
    assert!(settings.connection_string().expose_secret().contains("pass:w@rd/1"));
    assert!(settings.connection_string_without_db().expose_secret().contains("pass:w@rd/1"));
}

#[test]
fn ports_are_written_in_decimal() {
    for port in [0u16, 1, 9, 10, 99, 100, 101, 5432, 9999, 10000, 65535] {
        let url = database(port).connection_string_without_db();
        assert_eq!(
            url.expose_secret(),
            format!("postgres://postgres:pass:w@rd/1@127.0.0.1:{}", port)
        );
    }
}

#[test]
fn every_number_is_written_as_the_standard_library_writes_it() {
    for n in 0..=u16::MAX {
        let mut out = String::from("p");
        push_decimal(&mut out, n);
        assert_eq!(out, format!("p{}", n));
    }
}

#[test]
fn a_secret_gives_back_its_text_and_hides_it_when_formatted() {
    let secret = SecretText::new("hunter2".to_string());
    assert_eq!(secret.expose_secret(), "hunter2");
    assert!(!format!("{:?}", secret).contains("hunter2"));
    assert!(!format!("{:?}", database(5432).connection_string()).contains("pass"));
}

#[test]
fn the_environment_defaults_to_local() {
    assert_eq!(environment_or_default(None), "local");
    assert_eq!(environment_or_default(Some("production".to_string())), "production");
    assert_eq!(environment_or_default(Some("".to_string())), "");
}

#[test]
fn the_overlay_file_is_named_after_the_environment() {
    assert_eq!(environment_file("local"), "local.yaml");
    assert_eq!(environment_file("production"), "production.yaml");
}

#[test]
fn settings_hold_both_parts() {
    let settings = Settings {
        database: database(5432),
        application: ApplicationSettings { port: 8000, host: "0.0.0.0".to_string() },
    };
    assert_eq!(settings.application.port, 8000);
    assert_eq!(settings.application.host, "0.0.0.0");
    assert_eq!(settings.database.database_name, "newsletter");
}

#[test]
fn the_characters_of_a_string_come_in_order() {
    assert_eq!(chars_of("le guin"), vec!['l', 'e', ' ', 'g', 'u', 'i', 'n']);
    assert_eq!(chars_of("e\u{301}😀"), vec!['e', '\u{301}', '😀']);
    assert_eq!(chars_of(""), Vec::<char>::new());
}
