//! A database of its own for each test run: its name, the statements that
//! create and drop it, and the order of the steps that set it up and remove it.

use crate::configuration::{DatabaseSettings, SecretText};
use crate::ids::{fresh_id, is_random_uuid, uuid_string, uuid_text};
use vstd::prelude::*;
use vstd::string::StringExecFns;

verus! {

/// The statement that creates the database `name`.
pub open spec fn create_statement(name: Seq<char>) -> Seq<char> {
    "CREATE DATABASE \""@ + name + "\";"@
}

/// The statement that drops the database `name`.
pub open spec fn drop_statement(name: Seq<char>) -> Seq<char> {
    "drop database \""@ + name + "\";"@
}

/// A name for a new database that no other run will pick: a random UUID, drawn
/// for this call.
pub fn fresh_database_name() -> (name: String)
    ensures
        exists|id: u128| is_random_uuid(id) && name@ == #[trigger] uuid_text(id),
{
    uuid_string(fresh_id())
}

/// The statement that creates the database `name`.
pub fn create_database_statement(name: &str) -> (statement: String)
    ensures
        statement@ == create_statement(name@),
{
    let mut statement = String::from_str("CREATE DATABASE \"");
    statement.append(name);
    statement.append("\";");
    statement
}

/// The statement that drops the database `name`.
pub fn drop_database_statement(name: &str) -> (statement: String)
    ensures
        statement@ == drop_statement(name@),
{
    let mut statement = String::from_str("drop database \"");
    statement.append(name);
    statement.append("\";");
    statement
}

/// How far the setting up of a run's database has come.
#[derive(Clone, Copy, Debug, PartialEq, Eq, Structural)]
pub enum Provisioning {
    /// About to connect to the server, with no database selected.
    ConnectingToServer,
    /// Connected to the server; about to create the database.
    CreatingDatabase,
    /// The database exists; about to connect to it.
    ConnectingToDatabase,
    /// Connected to the database; about to bring its schema up to date.
    Migrating,
    /// The database is ready and its connections go to the application.
    Ready,
    /// A step failed: the run ends here.
    Failed,
}

/// How far the removal of a run's database has come.
#[derive(Clone, Copy, Debug, PartialEq, Eq, Structural)]
pub enum Teardown {
    /// About to connect to the server, with no database selected.
    ConnectingToServer,
    /// Connected to the server; about to drop the database.
    DroppingDatabase,
    /// Nothing is left to do, whether or not the database is gone.
    Done,
}

/// What is to be done to the database server at one point of the setting up or
/// the removal.
pub enum Work {
    /// Open connections with this connection string.
    Connect(SecretText),
    /// Run this statement.
    Execute(String),
    /// Apply every schema migration that is pending.
    Migrate,
    /// Nothing.
    Rest,
}

/// The state that follows `state` when its step has succeeded or failed, in
/// setting up: a success leads on to the next step, any failure ends the run.
pub open spec fn provisioning_after(state: Provisioning, succeeded: bool) -> Provisioning {
    match state {
        Provisioning::Ready => Provisioning::Ready,
        Provisioning::Failed => Provisioning::Failed,
        _ if !succeeded => Provisioning::Failed,
        Provisioning::ConnectingToServer => Provisioning::CreatingDatabase,
        Provisioning::CreatingDatabase => Provisioning::ConnectingToDatabase,
        Provisioning::ConnectingToDatabase => Provisioning::Migrating,
        _ => Provisioning::Ready,
    }
}

/// The state that the outcomes `outcomes` of successive steps lead to from
/// `state`.
pub open spec fn provisioning_after_all(state: Provisioning, outcomes: Seq<bool>) -> Provisioning
    decreases outcomes.len(),
{
    if outcomes.len() == 0 {
        state
    } else {
        provisioning_after_all(provisioning_after(state, outcomes[0]), outcomes.drop_first())
    }
}

/// The state that follows `state` in the removal: a success leads on to the next
/// step, and a failure ends the removal without failing the run.
pub open spec fn teardown_after(state: Teardown, succeeded: bool) -> Teardown {
    match state {
        Teardown::ConnectingToServer if succeeded => Teardown::DroppingDatabase,
        _ => Teardown::Done,
    }
}

/// The state that follows `state` in setting up, once its step has ended.
pub fn provisioning_step(state: Provisioning, succeeded: bool) -> (next: Provisioning)
    ensures
        next == provisioning_after(state, succeeded),
{
    match state {
        Provisioning::Ready => Provisioning::Ready,
        Provisioning::Failed => Provisioning::Failed,
        Provisioning::ConnectingToServer => if succeeded {
            Provisioning::CreatingDatabase
        } else {
            Provisioning::Failed
        },
        Provisioning::CreatingDatabase => if succeeded {
            Provisioning::ConnectingToDatabase
        } else {
            Provisioning::Failed
        },
        Provisioning::ConnectingToDatabase => if succeeded {
            Provisioning::Migrating
        } else {
            Provisioning::Failed
        },
        Provisioning::Migrating => if succeeded {
            Provisioning::Ready
        } else {
            Provisioning::Failed
        },
    }
}

/// The state that follows `state` in the removal, once its step has ended.
pub fn teardown_step(state: Teardown, succeeded: bool) -> (next: Teardown)
    ensures
        next == teardown_after(state, succeeded),
{
    match state {
        Teardown::ConnectingToServer => if succeeded {
            Teardown::DroppingDatabase
        } else {
            Teardown::Done
        },
        Teardown::DroppingDatabase => Teardown::Done,
        Teardown::Done => Teardown::Done,
    }
}

/// What to do in `state` of setting up the database that `settings` names.
pub fn provisioning_work(state: Provisioning, settings: &DatabaseSettings) -> (work: Work)
    ensures
        match state {
            Provisioning::ConnectingToServer => work matches Work::Connect(url)
                && crate::configuration::secret_text(url) == settings.server_text(),
            Provisioning::CreatingDatabase => work matches Work::Execute(statement) && statement@
                == create_statement(settings.database_name@),
            Provisioning::ConnectingToDatabase => work matches Work::Connect(url)
                && crate::configuration::secret_text(url) == settings.database_text(),
            Provisioning::Migrating => work is Migrate,
            Provisioning::Ready => work is Rest,
            Provisioning::Failed => work is Rest,
        },
{
    match state {
        Provisioning::ConnectingToServer => Work::Connect(settings.connection_string_without_db()),
        Provisioning::CreatingDatabase => Work::Execute(
            create_database_statement(settings.database_name.as_str()),
        ),
        Provisioning::ConnectingToDatabase => Work::Connect(settings.connection_string()),
        Provisioning::Migrating => Work::Migrate,
        Provisioning::Ready => Work::Rest,
        Provisioning::Failed => Work::Rest,
    }
}

/// What to do in `state` of removing the database that `settings` names.
pub fn teardown_work(state: Teardown, settings: &DatabaseSettings) -> (work: Work)
    ensures
        match state {
            Teardown::ConnectingToServer => work matches Work::Connect(url)
                && crate::configuration::secret_text(url) == settings.server_text(),
            Teardown::DroppingDatabase => work matches Work::Execute(statement) && statement@
                == drop_statement(settings.database_name@),
            Teardown::Done => work is Rest,
        },
{
    match state {
        Teardown::ConnectingToServer => Work::Connect(settings.connection_string_without_db()),
        Teardown::DroppingDatabase => Work::Execute(
            drop_database_statement(settings.database_name.as_str()),
        ),
        Teardown::Done => Work::Rest,
    }
}

/// A database is ready exactly when its four steps have all succeeded: after a
/// failed step, whatever follows, it is never handed to the application.
pub proof fn ready_only_after_four_successes(outcomes: Seq<bool>)
    ensures
        provisioning_after_all(Provisioning::ConnectingToServer, outcomes) == Provisioning::Ready
            <==> outcomes.len() >= 4 && outcomes[0] && outcomes[1] && outcomes[2] && outcomes[3],
{
    let s0 = Provisioning::ConnectingToServer;
    if outcomes.len() == 0 {
    } else {
        let s1 = provisioning_after(s0, outcomes[0]);
        let o1 = outcomes.drop_first();
        if o1.len() == 0 {
            assert(provisioning_after_all(s1, o1) == s1);
        } else {
            let s2 = provisioning_after(s1, o1[0]);
            let o2 = o1.drop_first();
            if o2.len() == 0 {
                assert(provisioning_after_all(s2, o2) == s2);
            } else {
                let s3 = provisioning_after(s2, o2[0]);
                let o3 = o2.drop_first();
                if o3.len() == 0 {
                    assert(provisioning_after_all(s3, o3) == s3);
                } else {
                    let s4 = provisioning_after(s3, o3[0]);
                    let o4 = o3.drop_first();
                    terminal_states_stay(s4, o4);
                }
            }
        }
    }
}

/// Once a database is ready, or its setting up has failed, no outcome changes
/// that.
pub proof fn terminal_states_stay(state: Provisioning, outcomes: Seq<bool>)
    requires
        state == Provisioning::Ready || state == Provisioning::Failed,
    ensures
        provisioning_after_all(state, outcomes) == state,
    decreases outcomes.len(),
{
    if outcomes.len() > 0 {
        terminal_states_stay(state, outcomes.drop_first());
    }
}

/// The removal is over after two steps at most, whether they succeed or fail.
pub proof fn teardown_always_ends(first: bool, second: bool)
    ensures
        teardown_after(teardown_after(Teardown::ConnectingToServer, first), second)
            == Teardown::Done,
{
}

} // verus!
