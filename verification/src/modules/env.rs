use vstd::prelude::*;
use crate::common::env_config::{DataWarehouseConfig, postgres_url};
use crate::common::ids::{is_generated_id, random_id};
use crate::common::text::owned;
use crate::modules::async_tasks::tasks::DataspaceInitArgs;

verus! {

/// Creates users and provisions their dataspaces.
pub struct Initer {}

/// Why creating a user or provisioning a warehouse failed.
#[derive(Debug, PartialEq, Eq)]
pub enum IniterError {
    /// A database step failed with this error.
    DbError { source: String },
    /// The background job could not be prepared.
    JobRunnerError { source: String },
}

pub enum IniterErrorView {
    DbError { source: Seq<char> },
    JobRunnerError { source: Seq<char> },
}

impl View for IniterError {
    type V = IniterErrorView;

    open spec fn view(&self) -> IniterErrorView {
        match self {
            IniterError::DbError { source } => IniterErrorView::DbError { source: source@ },
            IniterError::JobRunnerError { source } => IniterErrorView::JobRunnerError {
                source: source@,
            },
        }
    }
}

/// The text an error displays.
pub open spec fn initer_error_message(e: IniterErrorView) -> Seq<char> {
    match e {
        IniterErrorView::DbError { source } => "Sqlx error: "@ + source,
        IniterErrorView::JobRunnerError { source } => "Error creating job runner: "@ + source,
    }
}

impl IniterError {
    pub fn message(&self) -> (r: String)
        ensures
            r@ == initer_error_message(self@),
    {
        match self {
            IniterError::DbError { source } => {
                let mut m = owned("Sqlx error: ");
                m.append(source.as_str());
                m
            },
            IniterError::JobRunnerError { source } => {
                let mut m = owned("Error creating job runner: ");
                m.append(source.as_str());
                m
            },
        }
    }
}

/// How a user is known from outside.
#[derive(Debug, PartialEq, Eq)]
pub enum UserExternalId {
    Email(String),
}

/// A user, by id.
#[derive(Debug, PartialEq, Eq)]
pub struct User {
    pub id: String,
}

/// A database of the warehouse server, by name.
#[derive(Debug, PartialEq, Eq)]
pub struct Database {
    pub datname: String,
}

// ----------------------------------------------------------------------------
// Getting or creating a user
// ----------------------------------------------------------------------------

/// Where getting or creating a user stands. The steps after `Beginning` run
/// in one transaction, which is rolled back when the flow ends with an error.
pub enum UserSetup {
    LookingUp { email: String },
    Beginning { email: String },
    InsertingUser { user_id: String, dataspace_id: String },
    InsertingDataspace { user: User, user_id: String, dataspace_id: String },
    InsertingMember { user: User, dataspace_id: String },
    SettingJobArgs { user: User },
    SpawningJob { user: User },
    Committing { user: User },
    Finished,
}

/// What the last database step gave back; an `Err` holds the error's text.
pub enum UserSetupEvent {
    LookedUp(Result<Option<User>, String>),
    Began(Result<(), String>),
    UserInserted(Result<User, String>),
    DataspaceInserted(Result<(), String>),
    MemberInserted(Result<(), String>),
    /// The job's arguments were encoded as JSON, or not.
    JobArgsSet(Result<(), String>),
    JobSpawned(Result<(), String>),
    Committed(Result<(), String>),
}

/// What to do next.
#[derive(Debug, PartialEq, Eq)]
pub enum UserSetupAction {
    LookUpUser { email: String },
    Begin,
    InsertUser { user_id: String, email: String },
    InsertDataspace { dataspace_id: String, name: String },
    InsertMember { user_id: String, dataspace_id: String },
    SetJobArgs(DataspaceInitArgs),
    SpawnJob,
    Commit,
    Finish(Result<User, IniterError>),
}

pub enum UserSetupView {
    LookingUp { email: Seq<char> },
    Beginning { email: Seq<char> },
    InsertingUser { user_id: Seq<char>, dataspace_id: Seq<char> },
    InsertingDataspace { user: Seq<char>, user_id: Seq<char>, dataspace_id: Seq<char> },
    InsertingMember { user: Seq<char>, dataspace_id: Seq<char> },
    SettingJobArgs { user: Seq<char> },
    SpawningJob { user: Seq<char> },
    Committing { user: Seq<char> },
    Finished,
}

/// Events by their payload: a user's id, or the error's text.
pub enum UserSetupEventView {
    LookedUp(Result<Option<Seq<char>>, Seq<char>>),
    Began(Result<(), Seq<char>>),
    UserInserted(Result<Seq<char>, Seq<char>>),
    DataspaceInserted(Result<(), Seq<char>>),
    MemberInserted(Result<(), Seq<char>>),
    JobArgsSet(Result<(), Seq<char>>),
    JobSpawned(Result<(), Seq<char>>),
    Committed(Result<(), Seq<char>>),
}

pub enum UserSetupActionView {
    LookUpUser { email: Seq<char> },
    Begin,
    InsertUser { user_id: Seq<char>, email: Seq<char> },
    InsertDataspace { dataspace_id: Seq<char>, name: Seq<char> },
    InsertMember { user_id: Seq<char>, dataspace_id: Seq<char> },
    SetJobArgs { dataspace_id: Seq<char> },
    SpawnJob,
    Commit,
    Finish(Result<Seq<char>, IniterErrorView>),
}

pub open spec fn unit_view(r: Result<(), String>) -> Result<(), Seq<char>> {
    match r {
        Ok(_) => Ok(()),
        Err(e) => Err(e@),
    }
}

impl View for UserSetup {
    type V = UserSetupView;

    open spec fn view(&self) -> UserSetupView {
        match self {
            UserSetup::LookingUp { email } => UserSetupView::LookingUp { email: email@ },
            UserSetup::Beginning { email } => UserSetupView::Beginning { email: email@ },
            UserSetup::InsertingUser { user_id, dataspace_id } => UserSetupView::InsertingUser {
                user_id: user_id@,
                dataspace_id: dataspace_id@,
            },
            UserSetup::InsertingDataspace { user, user_id, dataspace_id } =>
                UserSetupView::InsertingDataspace {
                user: user.id@,
                user_id: user_id@,
                dataspace_id: dataspace_id@,
            },
            UserSetup::InsertingMember { user, dataspace_id } => UserSetupView::InsertingMember {
                user: user.id@,
                dataspace_id: dataspace_id@,
            },
            UserSetup::SettingJobArgs { user } => UserSetupView::SettingJobArgs { user: user.id@ },
            UserSetup::SpawningJob { user } => UserSetupView::SpawningJob { user: user.id@ },
            UserSetup::Committing { user } => UserSetupView::Committing { user: user.id@ },
            UserSetup::Finished => UserSetupView::Finished,
        }
    }
}

impl View for UserSetupEvent {
    type V = UserSetupEventView;

    open spec fn view(&self) -> UserSetupEventView {
        match self {
            UserSetupEvent::LookedUp(r) => UserSetupEventView::LookedUp(
                match r {
                    Ok(Some(u)) => Ok(Some(u.id@)),
                    Ok(None) => Ok(None),
                    Err(e) => Err(e@),
                },
            ),
            UserSetupEvent::Began(r) => UserSetupEventView::Began(unit_view(*r)),
            UserSetupEvent::UserInserted(r) => UserSetupEventView::UserInserted(
                match r {
                    Ok(u) => Ok(u.id@),
                    Err(e) => Err(e@),
                },
            ),
            UserSetupEvent::DataspaceInserted(r) => UserSetupEventView::DataspaceInserted(
                unit_view(*r),
            ),
            UserSetupEvent::MemberInserted(r) => UserSetupEventView::MemberInserted(unit_view(*r)),
            UserSetupEvent::JobArgsSet(r) => UserSetupEventView::JobArgsSet(unit_view(*r)),
            UserSetupEvent::JobSpawned(r) => UserSetupEventView::JobSpawned(unit_view(*r)),
            UserSetupEvent::Committed(r) => UserSetupEventView::Committed(unit_view(*r)),
        }
    }
}

impl View for UserSetupAction {
    type V = UserSetupActionView;

    open spec fn view(&self) -> UserSetupActionView {
        match self {
            UserSetupAction::LookUpUser { email } => UserSetupActionView::LookUpUser {
                email: email@,
            },
            UserSetupAction::Begin => UserSetupActionView::Begin,
            UserSetupAction::InsertUser { user_id, email } => UserSetupActionView::InsertUser {
                user_id: user_id@,
                email: email@,
            },
            UserSetupAction::InsertDataspace { dataspace_id, name } =>
                UserSetupActionView::InsertDataspace { dataspace_id: dataspace_id@, name: name@ },
            UserSetupAction::InsertMember { user_id, dataspace_id } =>
                UserSetupActionView::InsertMember { user_id: user_id@, dataspace_id: dataspace_id@ },
            UserSetupAction::SetJobArgs(args) => UserSetupActionView::SetJobArgs {
                dataspace_id: args.dataspace_id@,
            },
            UserSetupAction::SpawnJob => UserSetupActionView::SpawnJob,
            UserSetupAction::Commit => UserSetupActionView::Commit,
            UserSetupAction::Finish(r) => UserSetupActionView::Finish(
                match r {
                    Ok(u) => Ok(u.id@),
                    Err(e) => Err(e@),
                },
            ),
        }
    }
}

/// A database failure ends the flow.
pub open spec fn db_failure(e: Seq<char>) -> UserSetupActionView {
    UserSetupActionView::Finish(Err(IniterErrorView::DbError { source: e }))
}

/// Whether `event` is what the step of `state` gives back.
pub open spec fn setup_answers(state: UserSetupView, event: UserSetupEventView) -> bool {
    match (state, event) {
        (UserSetupView::LookingUp { .. }, UserSetupEventView::LookedUp(_)) => true,
        (UserSetupView::Beginning { .. }, UserSetupEventView::Began(_)) => true,
        (UserSetupView::InsertingUser { .. }, UserSetupEventView::UserInserted(_)) => true,
        (UserSetupView::InsertingDataspace { .. }, UserSetupEventView::DataspaceInserted(_)) => true,
        (UserSetupView::InsertingMember { .. }, UserSetupEventView::MemberInserted(_)) => true,
        (UserSetupView::SettingJobArgs { .. }, UserSetupEventView::JobArgsSet(_)) => true,
        (UserSetupView::SpawningJob { .. }, UserSetupEventView::JobSpawned(_)) => true,
        (UserSetupView::Committing { .. }, UserSetupEventView::Committed(_)) => true,
        _ => false,
    }
}

/// One step of getting or creating a user. Fresh ids are random: for them the
/// relation holds of every id of the generated shape.
pub open spec fn user_setup_step(
    state: UserSetupView,
    event: UserSetupEventView,
    next: UserSetupView,
    action: UserSetupActionView,
) -> bool {
    match (state, event) {
        (UserSetupView::LookingUp { email }, UserSetupEventView::LookedUp(r)) => match r {
            Err(e) => next == UserSetupView::Finished && action == db_failure(e),
            Ok(Some(user)) => next == UserSetupView::Finished && action == UserSetupActionView::Finish(
                Ok(user),
            ),
            Ok(None) => next == (UserSetupView::Beginning { email }) && action
                == UserSetupActionView::Begin,
        },
        (UserSetupView::Beginning { email }, UserSetupEventView::Began(r)) => match r {
            Err(e) => next == UserSetupView::Finished && action == db_failure(e),
            Ok(_) => next matches UserSetupView::InsertingUser { user_id, dataspace_id }
                && is_generated_id(user_id) && is_generated_id(dataspace_id) && action == (
            UserSetupActionView::InsertUser { user_id, email }),
        },
        (
            UserSetupView::InsertingUser { user_id, dataspace_id },
            UserSetupEventView::UserInserted(r),
        ) => match r {
            Err(e) => next == UserSetupView::Finished && action == db_failure(e),
            Ok(user) => next == (UserSetupView::InsertingDataspace { user, user_id, dataspace_id })
                && action == (UserSetupActionView::InsertDataspace {
                dataspace_id,
                name: "Your dataspace"@,
            }),
        },
        (
            UserSetupView::InsertingDataspace { user, user_id, dataspace_id },
            UserSetupEventView::DataspaceInserted(r),
        ) => match r {
            Err(e) => next == UserSetupView::Finished && action == db_failure(e),
            Ok(_) => next == (UserSetupView::InsertingMember { user, dataspace_id }) && action == (
            UserSetupActionView::InsertMember { user_id, dataspace_id }),
        },
        (
            UserSetupView::InsertingMember { user, dataspace_id },
            UserSetupEventView::MemberInserted(r),
        ) => match r {
            Err(e) => next == UserSetupView::Finished && action == db_failure(e),
            Ok(_) => next == (UserSetupView::SettingJobArgs { user }) && action == (
            UserSetupActionView::SetJobArgs { dataspace_id }),
        },
        (UserSetupView::SettingJobArgs { user }, UserSetupEventView::JobArgsSet(r)) => match r {
            Err(e) => next == UserSetupView::Finished && action == UserSetupActionView::Finish(
                Err(IniterErrorView::JobRunnerError { source: e }),
            ),
            Ok(_) => next == (UserSetupView::SpawningJob { user }) && action
                == UserSetupActionView::SpawnJob,
        },
        (UserSetupView::SpawningJob { user }, UserSetupEventView::JobSpawned(r)) => match r {
            Err(e) => next == UserSetupView::Finished && action == db_failure(e),
            Ok(_) => next == (UserSetupView::Committing { user }) && action
                == UserSetupActionView::Commit,
        },
        (UserSetupView::Committing { user }, UserSetupEventView::Committed(r)) => match r {
            Err(e) => next == UserSetupView::Finished && action == db_failure(e),
            Ok(_) => next == UserSetupView::Finished && action == UserSetupActionView::Finish(
                Ok(user),
            ),
        },
        _ => false,
    }
}

fn db_error(e: String) -> (r: UserSetupAction)
    ensures
        r@ == db_failure(e@),
{
    UserSetupAction::Finish(Err(IniterError::DbError { source: e }))
}

impl Initer {
    pub fn new() -> (r: Initer) {
        Initer {}
    }

    /// Gets the user of an address, or creates one: the user, a dataspace, the
    /// user's membership of it and the job that provisions its warehouse, in
    /// one transaction. This is the first step; `user_setup_step` goes on.
    pub fn get_or_create_user(&self, external_id: UserExternalId) -> (r: (UserSetup, UserSetupAction))
        ensures
            match external_id {
                UserExternalId::Email(email) => r.0@ == (UserSetupView::LookingUp { email: email@ })
                    && r.1@ == (UserSetupActionView::LookUpUser { email: email@ }),
            },
    {
        let UserExternalId::Email(email) = external_id;
        let lookup = owned(email.as_str());
        (UserSetup::LookingUp { email }, UserSetupAction::LookUpUser { email: lookup })
    }
}

impl UserSetup {
    /// One step of getting or creating a user (see `user_setup_step`).
    pub fn step(self, event: UserSetupEvent) -> (r: (UserSetup, UserSetupAction))
        requires
            setup_answers(self@, event@),
        ensures
            user_setup_step(self@, event@, r.0@, r.1@),
    {
        match (self, event) {
            (UserSetup::LookingUp { email }, UserSetupEvent::LookedUp(r)) => match r {
                Err(e) => (UserSetup::Finished, db_error(e)),
                Ok(Some(user)) => (UserSetup::Finished, UserSetupAction::Finish(Ok(user))),
                Ok(None) => (UserSetup::Beginning { email }, UserSetupAction::Begin),
            },
            (UserSetup::Beginning { email }, UserSetupEvent::Began(r)) => match r {
                Err(e) => (UserSetup::Finished, db_error(e)),
                Ok(_) => {
                    let dataspace_id = random_id();
                    let user_id = random_id();
                    let action = UserSetupAction::InsertUser { user_id: owned(user_id.as_str()), email };
                    (UserSetup::InsertingUser { user_id, dataspace_id }, action)
                },
            },
            (UserSetup::InsertingUser { user_id, dataspace_id }, UserSetupEvent::UserInserted(r)) => match r {
                Err(e) => (UserSetup::Finished, db_error(e)),
                Ok(user) => {
                    let action = UserSetupAction::InsertDataspace {
                        dataspace_id: owned(dataspace_id.as_str()),
                        name: owned("Your dataspace"),
                    };
                    (UserSetup::InsertingDataspace { user, user_id, dataspace_id }, action)
                },
            },
            (
                UserSetup::InsertingDataspace { user, user_id, dataspace_id },
                UserSetupEvent::DataspaceInserted(r),
            ) => match r {
                Err(e) => (UserSetup::Finished, db_error(e)),
                Ok(_) => {
                    let action = UserSetupAction::InsertMember {
                        user_id,
                        dataspace_id: owned(dataspace_id.as_str()),
                    };
                    (UserSetup::InsertingMember { user, dataspace_id }, action)
                },
            },
            (UserSetup::InsertingMember { user, dataspace_id }, UserSetupEvent::MemberInserted(r)) => match r {
                Err(e) => (UserSetup::Finished, db_error(e)),
                Ok(_) => (
                    UserSetup::SettingJobArgs { user },
                    UserSetupAction::SetJobArgs(DataspaceInitArgs { dataspace_id }),
                ),
            },
            (UserSetup::SettingJobArgs { user }, UserSetupEvent::JobArgsSet(r)) => match r {
                Err(e) => (
                    UserSetup::Finished,
                    UserSetupAction::Finish(Err(IniterError::JobRunnerError { source: e })),
                ),
                Ok(_) => (UserSetup::SpawningJob { user }, UserSetupAction::SpawnJob),
            },
            (UserSetup::SpawningJob { user }, UserSetupEvent::JobSpawned(r)) => match r {
                Err(e) => (UserSetup::Finished, db_error(e)),
                Ok(_) => (UserSetup::Committing { user }, UserSetupAction::Commit),
            },
            (UserSetup::Committing { user }, UserSetupEvent::Committed(r)) => match r {
                Err(e) => (UserSetup::Finished, db_error(e)),
                Ok(_) => (UserSetup::Finished, UserSetupAction::Finish(Ok(user))),
            },
            // `requires` pairs every state with its own event.
            (_, _) => (UserSetup::Finished, UserSetupAction::Commit),
        }
    }
}


// ----------------------------------------------------------------------------
// Provisioning a dataspace's warehouse
// ----------------------------------------------------------------------------

/// `"name"`: a quoted SQL identifier.
pub open spec fn quoted(name: Seq<char>) -> Seq<char> {
    "\""@ + name + "\""@
}

/// The warehouse database of a dataspace.
pub open spec fn database_name(dataspace_id: Seq<char>) -> Seq<char> {
    "dataspace_"@ + dataspace_id
}

/// The schema of a dataspace's models.
pub open spec fn model_schema_name(dataspace_id: Seq<char>) -> Seq<char> {
    "model_"@ + dataspace_id
}

/// The role that owns a dataspace's data.
pub open spec fn role_name(dataspace_id: Seq<char>) -> Seq<char> {
    "username_"@ + dataspace_id
}

/// The statements that set up a dataspace's role and schema, in order.
pub open spec fn setup_statements(dataspace_id: Seq<char>) -> Seq<Seq<char>> {
    statements_for(
        database_name(dataspace_id),
        model_schema_name(dataspace_id),
        role_name(dataspace_id),
    )
}

/// The set-up statements for a database, a schema and a role of these names.
pub open spec fn statements_for(database: Seq<char>, schema: Seq<char>, role: Seq<char>) -> Seq<
    Seq<char>,
> {
    let database = quoted(database);
    let schema = quoted(schema);
    let role = quoted(role);
    seq![
        "CREATE ROLE "@ + role + ";"@,
        "CREATE SCHEMA "@ + schema + ";"@,
        "GRANT CONNECT ON DATABASE "@ + database + " TO "@ + role + ";"@,
        "ALTER DEFAULT PRIVILEGES GRANT USAGE ON SCHEMAS TO "@ + role + ";"@,
        "ALTER DEFAULT PRIVILEGES GRANT SELECT ON TABLES TO "@ + role + ";"@,
        "GRANT SELECT, INSERT, UPDATE, DELETE, TRUNCATE, REFERENCES ON ALL TABLES IN SCHEMA "@
            + schema + " TO "@ + role + ";"@,
    ]
}

/// The statement sent when the dataspace's database is missing. It is sent as
/// it is written, braces included: nothing is put in its place.
pub open spec fn create_database_statement() -> Seq<char> {
    "CREATE DATABASE \"{database}\";"@
}

/// The names of a dataspace's warehouse objects.
#[derive(Debug, PartialEq, Eq)]
pub struct WarehouseNames {
    pub database: String,
    pub model_schema_name: String,
    pub role_name: String,
}

impl WarehouseNames {
    pub open spec fn of(&self, dataspace_id: Seq<char>) -> bool {
        &&& self.database@ == database_name(dataspace_id)
        &&& self.model_schema_name@ == model_schema_name(dataspace_id)
        &&& self.role_name@ == role_name(dataspace_id)
    }

    /// The names for a dataspace.
    pub fn new(dataspace_id: &str) -> (r: WarehouseNames)
        ensures
            r.of(dataspace_id@),
    {
        let mut database = owned("dataspace_");
        database.append(dataspace_id);
        let mut model_schema_name = owned("model_");
        model_schema_name.append(dataspace_id);
        let mut role_name = owned("username_");
        role_name.append(dataspace_id);
        WarehouseNames { database, model_schema_name, role_name }
    }

    /// The set-up statements for these names.
    pub fn statements(&self) -> (r: Vec<String>)
        ensures
            r@.map_values(|s: String| s@) == statements_for(
                self.database@,
                self.model_schema_name@,
                self.role_name@,
            ),
            r.len() == 6,
    {
        let role = quote(self.role_name.as_str());
        let schema = quote(self.model_schema_name.as_str());
        let database = quote(self.database.as_str());
        let mut statements: Vec<String> = Vec::new();
        statements.push(three("CREATE ROLE ", role.as_str(), ";"));
        statements.push(three("CREATE SCHEMA ", schema.as_str(), ";"));
        let mut grant = three("GRANT CONNECT ON DATABASE ", database.as_str(), " TO ");
        grant.append(role.as_str());
        grant.append(";");
        statements.push(grant);
        statements.push(
            three("ALTER DEFAULT PRIVILEGES GRANT USAGE ON SCHEMAS TO ", role.as_str(), ";"),
        );
        statements.push(
            three("ALTER DEFAULT PRIVILEGES GRANT SELECT ON TABLES TO ", role.as_str(), ";"),
        );
        let mut all = three(
            "GRANT SELECT, INSERT, UPDATE, DELETE, TRUNCATE, REFERENCES ON ALL TABLES IN SCHEMA ",
            schema.as_str(),
            " TO ",
        );
        all.append(role.as_str());
        all.append(";");
        statements.push(all);
        proof {
            assert(statements@.map_values(|s: String| s@) =~= statements_for(
                self.database@,
                self.model_schema_name@,
                self.role_name@,
            ));
        }
        statements
    }
}

fn quote(name: &str) -> (r: String)
    ensures
        r@ == quoted(name@),
{
    three("\"", name, "\"")
}

fn three(a: &str, b: &str, c: &str) -> (r: String)
    ensures
        r@ == a@ + b@ + c@,
{
    let mut s = owned(a);
    s.append(b);
    s.append(c);
    s
}

/// Where provisioning a dataspace's warehouse stands. The set-up statements
/// run in one transaction, rolled back when the flow ends with an error.
pub enum WarehouseSetup {
    Connecting { dataspace_id: String },
    FindingDatabase { dataspace_id: String, names: WarehouseNames },
    CreatingDatabase { dataspace_id: String, names: WarehouseNames },
    Beginning { dataspace_id: String, names: WarehouseNames },
    /// Running `statements[next - 1]`.
    Executing { statements: Vec<String>, next: usize },
    Committing,
    Finished,
}

/// What the last step gave back; an `Err` holds the error's text.
pub enum WarehouseEvent {
    Connected(Result<(), String>),
    DatabaseFound(Result<Option<Database>, String>),
    /// The database was created, or creating it failed (the outcome is not used).
    DatabaseCreated,
    Began(Result<(), String>),
    Executed(Result<(), String>),
    Committed(Result<(), String>),
}

/// What to do next.
#[derive(Debug, PartialEq, Eq)]
pub enum WarehouseAction {
    /// Open a connection (one at most) to the warehouse server at `url`.
    Connect { url: String },
    FindDatabase { name: String },
    CreateDatabase { statement: String },
    Begin,
    Execute { statement: String },
    Commit,
    Finish(Result<(), IniterError>),
}

pub enum WarehouseSetupView {
    Connecting { dataspace_id: Seq<char> },
    FindingDatabase { dataspace_id: Seq<char> },
    CreatingDatabase { dataspace_id: Seq<char> },
    Beginning { dataspace_id: Seq<char> },
    Executing { statements: Seq<Seq<char>>, next: nat },
    Committing,
    Finished,
}

pub enum WarehouseEventView {
    Connected(Result<(), Seq<char>>),
    DatabaseFound(Result<bool, Seq<char>>),
    DatabaseCreated,
    Began(Result<(), Seq<char>>),
    Executed(Result<(), Seq<char>>),
    Committed(Result<(), Seq<char>>),
}

pub enum WarehouseActionView {
    Connect { url: Seq<char> },
    FindDatabase { name: Seq<char> },
    CreateDatabase { statement: Seq<char> },
    Begin,
    Execute { statement: Seq<char> },
    Commit,
    Finish(Result<(), IniterErrorView>),
}

impl View for WarehouseSetup {
    type V = WarehouseSetupView;

    open spec fn view(&self) -> WarehouseSetupView {
        match self {
            WarehouseSetup::Connecting { dataspace_id } => WarehouseSetupView::Connecting {
                dataspace_id: dataspace_id@,
            },
            WarehouseSetup::FindingDatabase { dataspace_id, .. } =>
                WarehouseSetupView::FindingDatabase { dataspace_id: dataspace_id@ },
            WarehouseSetup::CreatingDatabase { dataspace_id, .. } =>
                WarehouseSetupView::CreatingDatabase { dataspace_id: dataspace_id@ },
            WarehouseSetup::Beginning { dataspace_id, .. } => WarehouseSetupView::Beginning {
                dataspace_id: dataspace_id@,
            },
            WarehouseSetup::Executing { statements, next } => WarehouseSetupView::Executing {
                statements: statements@.map_values(|s: String| s@),
                next: *next as nat,
            },
            WarehouseSetup::Committing => WarehouseSetupView::Committing,
            WarehouseSetup::Finished => WarehouseSetupView::Finished,
        }
    }
}

impl View for WarehouseEvent {
    type V = WarehouseEventView;

    open spec fn view(&self) -> WarehouseEventView {
        match self {
            WarehouseEvent::Connected(r) => WarehouseEventView::Connected(unit_view(*r)),
            WarehouseEvent::DatabaseFound(r) => WarehouseEventView::DatabaseFound(
                match r {
                    Ok(found) => Ok(found is Some),
                    Err(e) => Err(e@),
                },
            ),
            WarehouseEvent::DatabaseCreated => WarehouseEventView::DatabaseCreated,
            WarehouseEvent::Began(r) => WarehouseEventView::Began(unit_view(*r)),
            WarehouseEvent::Executed(r) => WarehouseEventView::Executed(unit_view(*r)),
            WarehouseEvent::Committed(r) => WarehouseEventView::Committed(unit_view(*r)),
        }
    }
}

impl View for WarehouseAction {
    type V = WarehouseActionView;

    open spec fn view(&self) -> WarehouseActionView {
        match self {
            WarehouseAction::Connect { url } => WarehouseActionView::Connect { url: url@ },
            WarehouseAction::FindDatabase { name } => WarehouseActionView::FindDatabase {
                name: name@,
            },
            WarehouseAction::CreateDatabase { statement } => WarehouseActionView::CreateDatabase {
                statement: statement@,
            },
            WarehouseAction::Begin => WarehouseActionView::Begin,
            WarehouseAction::Execute { statement } => WarehouseActionView::Execute {
                statement: statement@,
            },
            WarehouseAction::Commit => WarehouseActionView::Commit,
            WarehouseAction::Finish(r) => WarehouseActionView::Finish(
                match r {
                    Ok(_) => Ok(()),
                    Err(e) => Err(e@),
                },
            ),
        }
    }
}

impl WarehouseSetup {
    /// The names held by a state agree with its dataspace id, and a running
    /// state points into its statements.
    pub open spec fn well_formed(&self) -> bool {
        match self {
            WarehouseSetup::FindingDatabase { dataspace_id, names } => names.of(dataspace_id@),
            WarehouseSetup::CreatingDatabase { dataspace_id, names } => names.of(dataspace_id@),
            WarehouseSetup::Beginning { dataspace_id, names } => names.of(dataspace_id@),
            WarehouseSetup::Executing { statements, next } => 1 <= *next <= statements.len(),
            _ => true,
        }
    }
}

/// A failure ends the flow with a database error.
pub open spec fn warehouse_failure(e: Seq<char>) -> WarehouseActionView {
    WarehouseActionView::Finish(Err(IniterErrorView::DbError { source: e }))
}

/// Whether `event` is what the step of `state` gives back.
pub open spec fn warehouse_answers(state: WarehouseSetupView, event: WarehouseEventView) -> bool {
    match (state, event) {
        (WarehouseSetupView::Connecting { .. }, WarehouseEventView::Connected(_)) => true,
        (WarehouseSetupView::FindingDatabase { .. }, WarehouseEventView::DatabaseFound(_)) => true,
        (WarehouseSetupView::CreatingDatabase { .. }, WarehouseEventView::DatabaseCreated) => true,
        (WarehouseSetupView::Beginning { .. }, WarehouseEventView::Began(_)) => true,
        (WarehouseSetupView::Executing { .. }, WarehouseEventView::Executed(_)) => true,
        (WarehouseSetupView::Committing, WarehouseEventView::Committed(_)) => true,
        _ => false,
    }
}

/// One step of provisioning a warehouse: connect; look for the dataspace's
/// database and, when it is missing, send the create statement (its outcome
/// is not used); then run the set-up statements in order in a transaction and
/// commit. Any failure that is used ends the flow with a database error.
pub open spec fn warehouse_step(
    state: WarehouseSetupView,
    event: WarehouseEventView,
    next: WarehouseSetupView,
    action: WarehouseActionView,
) -> bool {
    match (state, event) {
        (WarehouseSetupView::Connecting { dataspace_id }, WarehouseEventView::Connected(r)) => match r {
            Err(e) => next == WarehouseSetupView::Finished && action == warehouse_failure(e),
            Ok(_) => next == (WarehouseSetupView::FindingDatabase { dataspace_id }) && action == (
            WarehouseActionView::FindDatabase { name: database_name(dataspace_id) }),
        },
        (
            WarehouseSetupView::FindingDatabase { dataspace_id },
            WarehouseEventView::DatabaseFound(r),
        ) => match r {
            Err(e) => next == WarehouseSetupView::Finished && action == warehouse_failure(e),
            Ok(true) => next == (WarehouseSetupView::Beginning { dataspace_id }) && action
                == WarehouseActionView::Begin,
            Ok(false) => next == (WarehouseSetupView::CreatingDatabase { dataspace_id }) && action
                == (WarehouseActionView::CreateDatabase { statement: create_database_statement() }),
        },
        (
            WarehouseSetupView::CreatingDatabase { dataspace_id },
            WarehouseEventView::DatabaseCreated,
        ) => next == (WarehouseSetupView::Beginning { dataspace_id }) && action
            == WarehouseActionView::Begin,
        (WarehouseSetupView::Beginning { dataspace_id }, WarehouseEventView::Began(r)) => match r {
            Err(e) => next == WarehouseSetupView::Finished && action == warehouse_failure(e),
            Ok(_) => next == (WarehouseSetupView::Executing {
                statements: setup_statements(dataspace_id),
                next: 1,
            }) && action == (WarehouseActionView::Execute {
                statement: setup_statements(dataspace_id)[0],
            }),
        },
        (WarehouseSetupView::Executing { statements, next: n }, WarehouseEventView::Executed(r)) =>
            match r {
            Err(e) => next == WarehouseSetupView::Finished && action == warehouse_failure(e),
            Ok(_) => if n < statements.len() {
                next == (WarehouseSetupView::Executing { statements, next: n + 1 }) && action == (
                WarehouseActionView::Execute { statement: statements[n as int] })
            } else {
                next == WarehouseSetupView::Committing && action == WarehouseActionView::Commit
            },
        },
        (WarehouseSetupView::Committing, WarehouseEventView::Committed(r)) => match r {
            Err(e) => next == WarehouseSetupView::Finished && action == warehouse_failure(e),
            Ok(_) => next == WarehouseSetupView::Finished && action == WarehouseActionView::Finish(
                Ok(()),
            ),
        },
        _ => false,
    }
}

fn warehouse_error(e: String) -> (r: WarehouseAction)
    ensures
        r@ == warehouse_failure(e@),
{
    WarehouseAction::Finish(Err(IniterError::DbError { source: e }))
}

impl Initer {
    /// Provisions the warehouse of a dataspace. This is the first step:
    /// connect with the warehouse's admin credentials; `WarehouseSetup::step`
    /// goes on.
    pub fn init_data_warehouse(dataspace_id: String, warehouse: &DataWarehouseConfig) -> (r: (
        WarehouseSetup,
        WarehouseAction,
    ))
        ensures
            r.0@ == (WarehouseSetupView::Connecting { dataspace_id: dataspace_id@ }),
            r.0.well_formed(),
            r.1@ == (WarehouseActionView::Connect { url: warehouse.url_with(&warehouse.admin_creds) }),
    {
        let url = warehouse.get_url_admin();
        (WarehouseSetup::Connecting { dataspace_id }, WarehouseAction::Connect { url })
    }
}

impl WarehouseSetup {
    /// One step of provisioning a warehouse (see `warehouse_step`).
    pub fn step(self, event: WarehouseEvent) -> (r: (WarehouseSetup, WarehouseAction))
        requires
            self.well_formed(),
            warehouse_answers(self@, event@),
        ensures
            r.0.well_formed(),
            warehouse_step(self@, event@, r.0@, r.1@),
    {
        match (self, event) {
            (WarehouseSetup::Connecting { dataspace_id }, WarehouseEvent::Connected(r)) => match r {
                Err(e) => (WarehouseSetup::Finished, warehouse_error(e)),
                Ok(_) => {
                    let names = WarehouseNames::new(dataspace_id.as_str());
                    let name = owned(names.database.as_str());
                    (
                        WarehouseSetup::FindingDatabase { dataspace_id, names },
                        WarehouseAction::FindDatabase { name },
                    )
                },
            },
            (
                WarehouseSetup::FindingDatabase { dataspace_id, names },
                WarehouseEvent::DatabaseFound(r),
            ) => match r {
                Err(e) => (WarehouseSetup::Finished, warehouse_error(e)),
                Ok(Some(_)) => (
                    WarehouseSetup::Beginning { dataspace_id, names },
                    WarehouseAction::Begin,
                ),
                Ok(None) => (
                    WarehouseSetup::CreatingDatabase { dataspace_id, names },
                    WarehouseAction::CreateDatabase {
                        statement: owned("CREATE DATABASE \"{database}\";"),
                    },
                ),
            },
            (
                WarehouseSetup::CreatingDatabase { dataspace_id, names },
                WarehouseEvent::DatabaseCreated,
            ) => (WarehouseSetup::Beginning { dataspace_id, names }, WarehouseAction::Begin),
            (WarehouseSetup::Beginning { dataspace_id, names }, WarehouseEvent::Began(r)) => match r {
                Err(e) => (WarehouseSetup::Finished, warehouse_error(e)),
                Ok(_) => {
                    let statements = names.statements();
                    proof {
                        assert(statements@.map_values(|s: String| s@)[0] == statements@[0]@);
                    }
                    let first = owned(statements[0].as_str());
                    (
                        WarehouseSetup::Executing { statements, next: 1 },
                        WarehouseAction::Execute { statement: first },
                    )
                },
            },
            (WarehouseSetup::Executing { statements, next }, WarehouseEvent::Executed(r)) => match r {
                Err(e) => (WarehouseSetup::Finished, warehouse_error(e)),
                Ok(_) => {
                    if next < statements.len() {
                        proof {
                            assert(statements@.map_values(|s: String| s@)[next as int]
                                == statements@[next as int]@);
                        }
                        let statement = owned(statements[next].as_str());
                        (
                            WarehouseSetup::Executing { statements, next: next + 1 },
                            WarehouseAction::Execute { statement },
                        )
                    } else {
                        (WarehouseSetup::Committing, WarehouseAction::Commit)
                    }
                },
            },
            (WarehouseSetup::Committing, WarehouseEvent::Committed(r)) => match r {
                Err(e) => (WarehouseSetup::Finished, warehouse_error(e)),
                Ok(_) => (WarehouseSetup::Finished, WarehouseAction::Finish(Ok(()))),
            },
            // `requires` pairs every state with its own event.
            (_, _) => (WarehouseSetup::Finished, WarehouseAction::Commit),
        }
    }
}


// ----------------------------------------------------------------------------
// Laws
// ----------------------------------------------------------------------------

proof fn lemma_prefix_cancel(p: Seq<char>, a: Seq<char>, b: Seq<char>)
    requires
        p + a == p + b,
    ensures
        a == b,
{
    assert((p + a).skip(p.len() as int) =~= a);
    assert((p + b).skip(p.len() as int) =~= b);
}

/// Different dataspaces never share a warehouse database, model schema or role.
pub proof fn lemma_warehouse_names_distinct(a: Seq<char>, b: Seq<char>)
    requires
        a != b,
    ensures
        database_name(a) != database_name(b),
        model_schema_name(a) != model_schema_name(b),
        role_name(a) != role_name(b),
{
    if database_name(a) == database_name(b) {
        lemma_prefix_cancel("dataspace_"@, a, b);
    }
    if model_schema_name(a) == model_schema_name(b) {
        lemma_prefix_cancel("model_"@, a, b);
    }
    if role_name(a) == role_name(b) {
        lemma_prefix_cancel("username_"@, a, b);
    }
}

/// Getting or creating a user hands a user back only when one was found, or
/// once the transaction that created it has committed; a step finishes the
/// flow exactly when it gives its outcome.
pub proof fn lemma_user_only_when_found_or_committed(
    state: UserSetupView,
    event: UserSetupEventView,
    next: UserSetupView,
    action: UserSetupActionView,
)
    requires
        user_setup_step(state, event, next, action),
    ensures
        (next is Finished) <==> (action is Finish),
        action matches UserSetupActionView::Finish(Ok(_)) ==> {
            ||| event matches UserSetupEventView::LookedUp(Ok(Some(_)))
            ||| event matches UserSetupEventView::Committed(Ok(_))
        },
{
}

/// Provisioning reports success only once its transaction has committed;
/// every statement it runs is one of the dataspace's set-up statements, and a
/// step finishes the flow exactly when it gives its outcome.
pub proof fn lemma_warehouse_ok_only_after_commit(
    state: WarehouseSetupView,
    event: WarehouseEventView,
    next: WarehouseSetupView,
    action: WarehouseActionView,
)
    requires
        warehouse_step(state, event, next, action),
        state matches WarehouseSetupView::Executing { statements, next: n } ==> (exists|d: Seq<char>|
            statements == #[trigger] setup_statements(d)) && 1 <= n <= statements.len(),
    ensures
        (next is Finished) <==> (action is Finish),
        action matches WarehouseActionView::Finish(Ok(_)) ==> (state is Committing && event
            matches WarehouseEventView::Committed(Ok(_))),
        action matches WarehouseActionView::Execute { statement } ==> exists|d: Seq<char>, i: int|
            0 <= i < 6 && statement == #[trigger] setup_statements(d)[i],
{
    match action {
        WarehouseActionView::Execute { statement } => {
            match state {
                WarehouseSetupView::Beginning { dataspace_id } => {
                    assert(statement == setup_statements(dataspace_id)[0]);
                },
                WarehouseSetupView::Executing { statements, next: n } => {
                    let d = choose|d: Seq<char>| statements == #[trigger] setup_statements(d);
                    assert(statement == setup_statements(d)[n as int]);
                },
                _ => {},
            }
        },
        _ => {},
    }
}


/// Provisioning runs the six set-up statements of the dataspace in order, one
/// per step, and commits after the last one: in a run that began its
/// transaction (`states[0]` to `states[1]`) and whose statements all succeed,
/// step `i` runs statement `i - 1` for `i` from 1 to 6, and step 7 commits.
pub proof fn lemma_statements_run_in_order(
    dataspace_id: Seq<char>,
    states: Seq<WarehouseSetupView>,
    actions: Seq<WarehouseActionView>,
)
    requires
        states.len() == 8,
        actions.len() == 8,
        states[0] == (WarehouseSetupView::Beginning { dataspace_id }),
        warehouse_step(states[0], WarehouseEventView::Began(Ok(())), states[1], actions[1]),
        forall|i: int|
            1 <= i < 7 ==> warehouse_step(
                #[trigger] states[i],
                WarehouseEventView::Executed(Ok(())),
                states[i + 1],
                actions[i + 1],
            ),
    ensures
        forall|i: int|
            1 <= i <= 6 ==> #[trigger] actions[i] == (WarehouseActionView::Execute {
                statement: setup_statements(dataspace_id)[i - 1],
            }),
        actions[7] == WarehouseActionView::Commit,
{
    let statements = setup_statements(dataspace_id);
    assert(statements.len() == 6);
    lemma_run_from(statements, states, actions, 1);
}

proof fn lemma_run_from(
    statements: Seq<Seq<char>>,
    states: Seq<WarehouseSetupView>,
    actions: Seq<WarehouseActionView>,
    i: int,
)
    requires
        1 <= i <= 6,
        statements.len() == 6,
        states.len() == 8,
        actions.len() == 8,
        states[i] == (WarehouseSetupView::Executing { statements, next: i as nat }),
        forall|k: int|
            1 <= k < 7 ==> warehouse_step(
                #[trigger] states[k],
                WarehouseEventView::Executed(Ok(())),
                states[k + 1],
                actions[k + 1],
            ),
    ensures
        forall|j: int|
            i < j <= 6 ==> #[trigger] actions[j] == (WarehouseActionView::Execute {
                statement: statements[j - 1],
            }),
        actions[7] == WarehouseActionView::Commit,
    decreases 7 - i,
{
    assert(warehouse_step(
        states[i],
        WarehouseEventView::Executed(Ok(())),
        states[i + 1],
        actions[i + 1],
    ));
    if i < 6 {
        lemma_run_from(statements, states, actions, i + 1);
    }
}

/// A user created by the flow joins the dataspace created in the same run,
/// and the provisioning job is given that dataspace: the member inserted is
/// the user id inserted, and the dataspace of the membership and of the job is
/// the dataspace inserted.
pub proof fn lemma_membership_matches_inserts(
    email: Seq<char>,
    user: Seq<char>,
    states: Seq<UserSetupView>,
    actions: Seq<UserSetupActionView>,
)
    requires
        states.len() == 5,
        actions.len() == 5,
        states[0] == (UserSetupView::Beginning { email }),
        user_setup_step(states[0], UserSetupEventView::Began(Ok(())), states[1], actions[1]),
        user_setup_step(states[1], UserSetupEventView::UserInserted(Ok(user)), states[2], actions[2]),
        user_setup_step(states[2], UserSetupEventView::DataspaceInserted(Ok(())), states[3], actions[3]),
        user_setup_step(states[3], UserSetupEventView::MemberInserted(Ok(())), states[4], actions[4]),
    ensures
        exists|user_id: Seq<char>, dataspace_id: Seq<char>|
            {
                &&& actions[1] == (UserSetupActionView::InsertUser { user_id, email })
                &&& actions[2] == (UserSetupActionView::InsertDataspace {
                    dataspace_id,
                    name: "Your dataspace"@,
                })
                &&& actions[3] == (UserSetupActionView::InsertMember { user_id, dataspace_id })
                &&& actions[4] == (UserSetupActionView::SetJobArgs { dataspace_id })
            },
        states[4] == (UserSetupView::SettingJobArgs { user }),
{
    let user_id = states[1]->InsertingUser_user_id;
    let dataspace_id = states[1]->InsertingUser_dataspace_id;
    assert(actions[1] == (UserSetupActionView::InsertUser { user_id, email }));
    assert(actions[2] == (UserSetupActionView::InsertDataspace {
        dataspace_id,
        name: "Your dataspace"@,
    }));
}

} // verus!
