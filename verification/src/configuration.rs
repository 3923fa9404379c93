//! Settings of the application and of its database, and the connection strings
//! that the database settings give.

use crate::text::{decimal, push_decimal};
use secrecy::{ExposeSecret, Secret};
use vstd::prelude::*;
use vstd::string::StringExecFns;

verus! {

/// A secret string, held in a `secrecy::Secret`: it is kept out of formatted
/// output and wiped from memory when dropped.
#[verifier::external_body]
#[derive(Debug)]
pub struct SecretText {
    inner: Secret<String>,
}

/// The text that a secret holds.
pub uninterp spec fn secret_text(secret: SecretText) -> Seq<char>;

/// Makes a secret with `Secret::new`, which stores the value it is given.
#[verifier::external_body]
fn seal(text: String) -> (secret: SecretText)
    ensures
        secret_text(secret) == text@,
{
    SecretText { inner: Secret::new(text) }
}

/// Reads a secret with `ExposeSecret::expose_secret`, which hands out a reference
/// to the value the secret was made of.
#[verifier::external_body]
fn unseal(secret: &SecretText) -> (text: &str)
    ensures
        text@ == secret_text(*secret),
{
    secret.inner.expose_secret().as_str()
}

impl SecretText {
    /// Wraps `text` as a secret.
    pub fn new(text: String) -> (secret: SecretText)
        ensures
            secret_text(secret) == text@,
    {
        seal(text)
    }

    /// The one way to the text of a secret.
    pub fn expose_secret(&self) -> (text: &str)
        ensures
            text@ == secret_text(*self),
    {
        unseal(self)
    }
}

/// All settings of the service.
pub struct Settings {
    pub database: DatabaseSettings,
    pub application: ApplicationSettings,
}

/// Where the database is and how to log in to it.
pub struct DatabaseSettings {
    pub username: String,
    pub password: SecretText,
    pub port: u16,
    pub host: String,
    pub database_name: String,
}

/// Where the application listens.
pub struct ApplicationSettings {
    pub port: u16,
    pub host: String,
}

/// The environment whose settings are used when none is chosen.
pub open spec fn default_environment() -> Seq<char> {
    "local"@
}

/// The name of the file that holds the settings of `environment`.
pub open spec fn environment_file_name(environment: Seq<char>) -> Seq<char> {
    environment + ".yaml"@
}

/// The address of a database server: scheme, user, password, host and port.
pub open spec fn server_url(
    username: Seq<char>,
    password: Seq<char>,
    host: Seq<char>,
    port: nat,
) -> Seq<char> {
    "postgres://"@ + username + ":"@ + password + "@"@ + host + ":"@ + decimal(port)
}

/// The address of one database on a server: the server's address, a slash and
/// the database's name.
pub open spec fn database_url(server: Seq<char>, database_name: Seq<char>) -> Seq<char> {
    server + "/"@ + database_name
}

/// Whether `part` stands somewhere in `whole` as a run of consecutive characters.
pub open spec fn occurs_in(part: Seq<char>, whole: Seq<char>) -> bool {
    exists|at: int|
        0 <= at && at + part.len() <= whole.len() && #[trigger] whole.subrange(
            at,
            at + part.len(),
        ) == part
}

impl DatabaseSettings {
    /// The connection string that selects no database.
    pub open spec fn server_text(&self) -> Seq<char> {
        server_url(self.username@, secret_text(self.password), self.host@, self.port as nat)
    }

    /// The connection string that selects the named database.
    pub open spec fn database_text(&self) -> Seq<char> {
        database_url(self.server_text(), self.database_name@)
    }

    fn server_string(&self) -> (url: String)
        ensures
            url@ == self.server_text(),
    {
        let mut url = String::from_str("postgres://");
        url.append(self.username.as_str());
        url.append(":");
        url.append(self.password.expose_secret());
        url.append("@");
        url.append(self.host.as_str());
        url.append(":");
        push_decimal(&mut url, self.port);
        url
    }

    /// The connection string for the named database, with the password in the
    /// clear inside a secret.
    pub fn connection_string(&self) -> (url: SecretText)
        ensures
            secret_text(url) == self.database_text(),
    {
        let mut url = self.server_string();
        url.append("/");
        url.append(self.database_name.as_str());
        SecretText::new(url)
    }

    /// The connection string for the server alone, used to create and drop
    /// databases, with the password in the clear inside a secret.
    pub fn connection_string_without_db(&self) -> (url: SecretText)
        ensures
            secret_text(url) == self.server_text(),
    {
        SecretText::new(self.server_string())
    }
}

/// The environment to run in: the chosen one, or `local` where none was chosen.
pub fn environment_or_default(chosen: Option<String>) -> (environment: String)
    ensures
        environment@ == match chosen {
            Some(name) => name@,
            None => default_environment(),
        },
{
    match chosen {
        Some(name) => name,
        None => String::from_str("local"),
    }
}

/// The name of the file that overlays the base settings in `environment`.
pub fn environment_file(environment: &str) -> (name: String)
    ensures
        name@ == environment_file_name(environment@),
{
    String::from_str(environment).concat(".yaml")
}

/// The connection string for a database is the one for its server, then a slash
/// and the database's name; the one for the server holds nothing of that name.
pub proof fn database_text_extends_server_text(settings: DatabaseSettings)
    ensures
        settings.server_text().is_prefix_of(settings.database_text()),
        settings.database_text().skip(settings.server_text().len() as int) == "/"@
            + settings.database_name@,
{
    let server = settings.server_text();
    let whole = settings.database_text();
    assert(whole =~= server + ("/"@ + settings.database_name@));
    assert(whole.skip(server.len() as int) =~= "/"@ + settings.database_name@);
    assert(whole.subrange(0, server.len() as int) =~= server);
}

/// Two settings that differ in the database's name alone give the same
/// connection string for the server.
pub proof fn server_text_ignores_database_name(a: DatabaseSettings, b: DatabaseSettings)
    requires
        a.username@ == b.username@,
        secret_text(a.password) == secret_text(b.password),
        a.host@ == b.host@,
        a.port == b.port,
    ensures
        a.server_text() == b.server_text(),
{
}

/// Both connection strings hold the password as it was set.
pub proof fn connection_strings_embed_password(settings: DatabaseSettings)
    ensures
        occurs_in(secret_text(settings.password), settings.server_text()),
        occurs_in(secret_text(settings.password), settings.database_text()),
{
    let password = secret_text(settings.password);
    let head = "postgres://"@ + settings.username@ + ":"@;
    let tail = "@"@ + settings.host@ + ":"@ + decimal(settings.port as nat);
    let server = settings.server_text();
    let whole = settings.database_text();
    let at = head.len() as int;
    assert(server =~= head + password + tail);
    assert(server.subrange(at, at + password.len()) =~= password);
    assert(whole =~= head + password + (tail + "/"@ + settings.database_name@));
    assert(whole.subrange(at, at + password.len()) =~= password);
}

} // verus!
