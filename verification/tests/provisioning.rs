use seeable::common::env_config::{DataWarehouseConfig, DataWarehouseCreds};
use seeable::modules::async_tasks::tasks::{
    dataspace_init, dataspace_init_done, DataspaceInitArgs, DataspaceInitError, JobFailure, JobStep,
};
use seeable::modules::env::{
    Database, Initer, IniterError, User, UserExternalId, UserSetup, UserSetupAction, UserSetupEvent,
    WarehouseAction, WarehouseEvent, WarehouseNames, WarehouseSetup,
};

fn is_id(s: &str) -> bool {
    s.chars().count() == 21
        && s.chars().all(|c| c == '_' || c == '-' || c.is_ascii_digit() || c.is_ascii_alphabetic())
}

fn db_error(s: &str) -> IniterError {
    IniterError::DbError { source: s.to_string() }
}

#[test]
fn error_messages() {
    assert_eq!(db_error("timeout").message(), "Sqlx error: timeout");
    assert_eq!(
        IniterError::JobRunnerError { source: "bad json".to_string() }.message(),
        "Error creating job runner: bad json"
    );
    assert_eq!(DataspaceInitError::MissingArgumentsError.message(), "Missing arguments");
}

fn start() -> (UserSetup, UserSetupAction) {
    Initer::new().get_or_create_user(UserExternalId::Email("a@b.c".to_string()))
}

#[test]
fn existing_user_is_returned() {
    let (s, a) = start();
    assert_eq!(a, UserSetupAction::LookUpUser { email: "a@b.c".to_string() });
    let (s, a) = s.step(UserSetupEvent::LookedUp(Ok(Some(User { id: "u1".to_string() }))));
    assert!(matches!(s, UserSetup::Finished));
    assert_eq!(a, UserSetupAction::Finish(Ok(User { id: "u1".to_string() })));
}

#[test]
fn new_user_is_created_in_one_transaction() {
    let (s, _) = start();
    let (s, a) = s.step(UserSetupEvent::LookedUp(Ok(None)));
    assert_eq!(a, UserSetupAction::Begin);
    let (s, a) = s.step(UserSetupEvent::Began(Ok(())));
    let user_id = match a {
        UserSetupAction::InsertUser { user_id, email } => {
            assert_eq!(email, "a@b.c");
            assert!(is_id(&user_id));
            user_id
        }
        other => panic!("unexpected {:?}", other),
    };
    let (s, a) = s.step(UserSetupEvent::UserInserted(Ok(User { id: user_id.clone() })));
    let dataspace_id = match a {
        UserSetupAction::InsertDataspace { dataspace_id, name } => {
            assert_eq!(name, "Your dataspace");
            assert!(is_id(&dataspace_id));
            assert_ne!(dataspace_id, user_id);
            dataspace_id
        }
        other => panic!("unexpected {:?}", other),
    };
    let (s, a) = s.step(UserSetupEvent::DataspaceInserted(Ok(())));
    assert_eq!(
        a,
        UserSetupAction::InsertMember { user_id: user_id.clone(), dataspace_id: dataspace_id.clone() }
    );
    let (s, a) = s.step(UserSetupEvent::MemberInserted(Ok(())));
    assert_eq!(a, UserSetupAction::SetJobArgs(DataspaceInitArgs { dataspace_id }));
    let (s, a) = s.step(UserSetupEvent::JobArgsSet(Ok(())));
    assert_eq!(a, UserSetupAction::SpawnJob);
    let (s, a) = s.step(UserSetupEvent::JobSpawned(Ok(())));
    assert_eq!(a, UserSetupAction::Commit);
    let (s, a) = s.step(UserSetupEvent::Committed(Ok(())));
    assert!(matches!(s, UserSetup::Finished));
    assert_eq!(a, UserSetupAction::Finish(Ok(User { id: user_id })));
}

fn to_step(n: usize) -> UserSetup {
    let (mut s, _) = start();
    let events = vec![
        UserSetupEvent::LookedUp(Ok(None)),
        UserSetupEvent::Began(Ok(())),
        UserSetupEvent::UserInserted(Ok(User { id: "u".to_string() })),
        UserSetupEvent::DataspaceInserted(Ok(())),
        UserSetupEvent::MemberInserted(Ok(())),
        UserSetupEvent::JobArgsSet(Ok(())),
        UserSetupEvent::JobSpawned(Ok(())),
    ];
    for e in events.into_iter().take(n) {
        s = s.step(e).0;
    }
    s
}

#[test]
fn user_setup_failures() {
    let failing = |n: usize| -> UserSetupEvent {
        let e = "boom".to_string();
        match n {
            0 => UserSetupEvent::LookedUp(Err(e)),
            1 => UserSetupEvent::Began(Err(e)),
            2 => UserSetupEvent::UserInserted(Err(e)),
            3 => UserSetupEvent::DataspaceInserted(Err(e)),
            4 => UserSetupEvent::MemberInserted(Err(e)),
            5 => UserSetupEvent::JobArgsSet(Err(e)),
            6 => UserSetupEvent::JobSpawned(Err(e)),
            _ => UserSetupEvent::Committed(Err(e)),
        }
    };
    for n in 0..8 {
        let (s, a) = to_step(n).step(failing(n));
        assert!(matches!(s, UserSetup::Finished));
        let expected = if n == 5 {
            IniterError::JobRunnerError { source: "boom".to_string() }
        } else {
            db_error("boom")
        };
        assert_eq!(a, UserSetupAction::Finish(Err(expected)), "step {}", n);
    }
}

#[test]
fn warehouse_names_and_statements() {
    let names = WarehouseNames::new("abc");
    assert_eq!(names.database, "dataspace_abc");
    assert_eq!(names.model_schema_name, "model_abc");
    assert_eq!(names.role_name, "username_abc");
    assert_eq!(
        names.statements(),
        vec![
            "CREATE ROLE \"username_abc\";".to_string(),
            "CREATE SCHEMA \"model_abc\";".to_string(),
            "GRANT CONNECT ON DATABASE \"dataspace_abc\" TO \"username_abc\";".to_string(),
            "ALTER DEFAULT PRIVILEGES GRANT USAGE ON SCHEMAS TO \"username_abc\";".to_string(),
            "ALTER DEFAULT PRIVILEGES GRANT SELECT ON TABLES TO \"username_abc\";".to_string(),
            "GRANT SELECT, INSERT, UPDATE, DELETE, TRUNCATE, REFERENCES ON ALL TABLES IN SCHEMA \"model_abc\" TO \"username_abc\";".to_string(),
        ]
    );
    let other = WarehouseNames::new("abd");
    assert_ne!(names.database, other.database);
    assert_ne!(names.role_name, other.role_name);
    assert_ne!(names.model_schema_name, other.model_schema_name);
}

fn warehouse() -> DataWarehouseConfig {
    DataWarehouseConfig {
        host: "dw".to_string(),
        port: "5432".to_string(),
        admin_creds: DataWarehouseCreds::new("admin".to_string(), "pw".to_string(), "postgres".to_string()),
    }
}

#[test]
fn warehouse_is_provisioned() {
    let (s, a) = Initer::init_data_warehouse("abc".to_string(), &warehouse());
    assert_eq!(a, WarehouseAction::Connect { url: "postgres://admin:pw@dw:5432/postgres".to_string() });
    let (s, a) = s.step(WarehouseEvent::Connected(Ok(())));
    assert_eq!(a, WarehouseAction::FindDatabase { name: "dataspace_abc".to_string() });
    let (s, a) = s.step(WarehouseEvent::DatabaseFound(Ok(None)));
    assert_eq!(
        a,
        WarehouseAction::CreateDatabase { statement: "CREATE DATABASE \"{database}\";".to_string() }
    );
    let (mut s, a) = s.step(WarehouseEvent::DatabaseCreated);
    assert_eq!(a, WarehouseAction::Begin);
    let mut executed = Vec::new();
    let mut event = WarehouseEvent::Began(Ok(()));
    loop {
        let (next, a) = s.step(event);
        s = next;
        match a {
            WarehouseAction::Execute { statement } => executed.push(statement),
            WarehouseAction::Commit => break,
            other => panic!("unexpected {:?}", other),
        }
        event = WarehouseEvent::Executed(Ok(()));
    }
    assert_eq!(executed, WarehouseNames::new("abc").statements());
    let (s, a) = s.step(WarehouseEvent::Committed(Ok(())));
    assert!(matches!(s, WarehouseSetup::Finished));
    assert_eq!(a, WarehouseAction::Finish(Ok(())));
}

#[test]
fn warehouse_with_existing_database() {
    let (s, _) = Initer::init_data_warehouse("x".to_string(), &warehouse());
    let (s, _) = s.step(WarehouseEvent::Connected(Ok(())));
    let (s, a) = s.step(WarehouseEvent::DatabaseFound(Ok(Some(Database { datname: "dataspace_x".to_string() }))));
    assert_eq!(a, WarehouseAction::Begin);
    let (_, a) = s.step(WarehouseEvent::Began(Err("no tx".to_string())));
    assert_eq!(a, WarehouseAction::Finish(Err(db_error("no tx"))));
}

#[test]
fn warehouse_failures() {
    let (s, _) = Initer::init_data_warehouse("x".to_string(), &warehouse());
    let (s, a) = s.step(WarehouseEvent::Connected(Err("refused".to_string())));
    assert!(matches!(s, WarehouseSetup::Finished));
    assert_eq!(a, WarehouseAction::Finish(Err(db_error("refused"))));

    let (s, _) = Initer::init_data_warehouse("x".to_string(), &warehouse());
    let (s, _) = s.step(WarehouseEvent::Connected(Ok(())));
    let (_, a) = s.step(WarehouseEvent::DatabaseFound(Err("q".to_string())));
    assert_eq!(a, WarehouseAction::Finish(Err(db_error("q"))));

    let (s, _) = Initer::init_data_warehouse("x".to_string(), &warehouse());
    let (s, _) = s.step(WarehouseEvent::Connected(Ok(())));
    let (s, _) = s.step(WarehouseEvent::DatabaseFound(Ok(None)));
    let (s, _) = s.step(WarehouseEvent::DatabaseCreated);
    let (s, _) = s.step(WarehouseEvent::Began(Ok(())));
    let (s, a) = s.step(WarehouseEvent::Executed(Err("exists".to_string())));
    assert!(matches!(s, WarehouseSetup::Finished));
    assert_eq!(a, WarehouseAction::Finish(Err(db_error("exists"))));
}

#[test]
fn provisioning_job() {
    assert_eq!(
        dataspace_init(Some(DataspaceInitArgs { dataspace_id: "d1".to_string() })),
        JobStep::Initialize { dataspace_id: "d1".to_string() }
    );
    assert_eq!(
        dataspace_init(None),
        JobStep::Fail(JobFailure::MissingArguments(DataspaceInitError::MissingArgumentsError))
    );
    assert_eq!(dataspace_init_done(Ok(())), JobStep::Complete);
    assert_eq!(
        dataspace_init_done(Err(db_error("x"))),
        JobStep::Fail(JobFailure::Init(db_error("x")))
    );
}
