use dbtool::cli::{Commands, Create, Drop, Dump, Restore};
use dbtool::command::{
    build_command, effective_dump_path, plan_restore, request_of, ActionKind, ActionRequest,
    RestorePlan,
};
use dbtool::outcome::Outcome;

fn req(kind: ActionKind, container: Option<&str>) -> ActionRequest {
    ActionRequest {
        kind,
        db_name: "mydb".to_string(),
        db_user: "bob".to_string(),
        dump_file: None,
        container: container.map(|c| c.to_string()),
    }
}

#[test]
fn create_native_command() {
    let c = build_command(&req(ActionKind::Create, None));
    assert_eq!(c.program, "createdb");
    assert_eq!(c.args, vec!["mydb".to_string(), "-U".to_string(), "bob".to_string()]);
}

#[test]
fn drop_native_command() {
    let c = build_command(&req(ActionKind::Drop, None));
    assert_eq!(c.program, "dropdb");
    assert_eq!(c.args, vec!["mydb".to_string(), "-U".to_string(), "bob".to_string()]);
}

#[test]
fn dump_native_command() {
    let c = build_command(&req(ActionKind::Dump, None));
    assert_eq!(c.program, "pg_dump");
    assert_eq!(
        c.args,
        vec![
            "-U".to_string(),
            "bob".to_string(),
            "-Fc".to_string(),
            "--no-acl".to_string(),
            "--no-owner".to_string(),
            "mydb".to_string(),
        ]
    );
}

#[test]
fn restore_native_command() {
    let c = build_command(&req(ActionKind::Restore, None));
    assert_eq!(c.program, "pg_restore");
    assert_eq!(
        c.args,
        vec![
            "-d".to_string(),
            "mydb".to_string(),
            "-U".to_string(),
            "bob".to_string(),
            "--if-exists".to_string(),
            "-c".to_string(),
            "--no-owner".to_string(),
        ]
    );
}

#[test]
fn container_mode_wraps_inner_tool() {
    let c = build_command(&req(ActionKind::Dump, Some("pg1")));
    assert_eq!(c.program, "docker");
    assert_eq!(c.args[0], "exec");
    assert_eq!(c.args[1], "-i");
    assert_eq!(c.args[2], "pg1");
    assert_eq!(c.args[3], "pg_dump");
    assert_eq!(
        &c.args[4..],
        &[
            "-U".to_string(),
            "bob".to_string(),
            "-Fc".to_string(),
            "--no-acl".to_string(),
            "--no-owner".to_string(),
            "mydb".to_string(),
        ]
    );
}

#[test]
fn container_mode_create() {
    let c = build_command(&req(ActionKind::Create, Some("box9")));
    assert_eq!(c.program, "docker");
    assert_eq!(
        c.args,
        vec![
            "exec".to_string(),
            "-i".to_string(),
            "box9".to_string(),
            "createdb".to_string(),
            "mydb".to_string(),
            "-U".to_string(),
            "bob".to_string(),
        ]
    );
}

#[test]
fn dump_path_defaults() {
    assert_eq!(effective_dump_path(&None), "db.dump");
    assert_eq!(effective_dump_path(&Some("site.dump".to_string())), "site.dump");
}

#[test]
fn request_of_dump() {
    let r = request_of(Commands::Dump(Dump {
        db_name: "a".to_string(),
        db_user: "u".to_string(),
        dump_file: Some("f.dump".to_string()),
        docker_container: None,
    }));
    assert!(matches!(r.kind, ActionKind::Dump));
    assert_eq!(r.db_name, "a");
    assert_eq!(r.db_user, "u");
    assert_eq!(r.dump_file.as_deref(), Some("f.dump"));
    assert!(r.container.is_none());
}

#[test]
fn request_of_restore() {
    let r = request_of(Commands::Restore(Restore {
        db_name: "a".to_string(),
        db_user: "u".to_string(),
        dump_file: "f.dump".to_string(),
        docker_container: Some("pg1".to_string()),
    }));
    assert!(matches!(r.kind, ActionKind::Restore));
    assert_eq!(r.dump_file.as_deref(), Some("f.dump"));
    assert_eq!(r.container.as_deref(), Some("pg1"));
}

#[test]
fn request_of_drop_and_create() {
    let d = request_of(Commands::Drop(Drop {
        db_name: "a".to_string(),
        db_user: "u".to_string(),
        docker_container: None,
    }));
    assert!(matches!(d.kind, ActionKind::Drop));
    assert!(d.dump_file.is_none());
    let c = request_of(Commands::Create(Create {
        db_name: "a".to_string(),
        db_user: "u".to_string(),
        docker_container: None,
    }));
    assert!(matches!(c.kind, ActionKind::Create));
    assert!(c.dump_file.is_none());
}

#[test]
fn missing_dump_file_rejects_before_spawn() {
    let mut r = req(ActionKind::Restore, None);
    r.dump_file = Some("absent.dump".to_string());
    let path = "absent.dump".to_string();
    match plan_restore(&r, &path, false) {
        RestorePlan::Reject(Outcome::PathNotFound(p)) => assert_eq!(p, "absent.dump"),
        _ => panic!("expected a path-not-found rejection"),
    }
}

#[test]
fn existing_dump_file_proceeds() {
    let mut r = req(ActionKind::Restore, None);
    r.dump_file = Some("ok.dump".to_string());
    let path = "ok.dump".to_string();
    match plan_restore(&r, &path, true) {
        RestorePlan::Proceed(c) => {
            assert_eq!(c.program, "pg_restore");
            assert_eq!(c.args.len(), 7);
        },
        _ => panic!("expected the restore to proceed"),
    }
}
