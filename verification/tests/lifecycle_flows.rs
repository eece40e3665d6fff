use servicer::lifecycle::{
    create_init, create_step, interpret_job_result, restart_init, restart_step, ControlPlaneError,
    CreateAction, CreateArgs, CreateError, CreateEvent, CreateMachine, Identity, RestartAction,
    RestartEvent,
};

fn args(command: &[&str]) -> CreateArgs {
    CreateArgs {
        name: None,
        directory: None,
        debug: false,
        user: None,
        start: false,
        enable: false,
        auto_restart: false,
        interpreter: None,
        env_vars: Vec::new(),
        command: command.iter().map(|s| s.to_string()).collect(),
    }
}

fn identity() -> Identity {
    Identity {
        user: Some("alice".to_string()),
        sudo_user: None,
    }
}

fn begun(a: CreateArgs) -> (CreateMachine, CreateAction) {
    create_init(a, identity()).expect("create begins")
}

#[test]
fn create_checks_existence_first() {
    let (_, action) = begun(args(&["index.js"]));
    match action {
        CreateAction::CheckExists { path } => {
            assert_eq!(path, "/etc/systemd/system/index.js.ser.service");
        }
        _ => panic!("the first action must be the existence check"),
    }
}

#[test]
fn existing_unit_file_fails_with_already_exists_and_writes_nothing() {
    let (m, _) = begun(args(&["index.js"]));
    let (m, action) = create_step(m, CreateEvent::ExistsChecked { exists: true });
    assert!(matches!(
        action,
        CreateAction::Report { error: CreateError::AlreadyExists }
    ));
    // The failed machine absorbs everything: no write can follow.
    let (m, action) = create_step(m, CreateEvent::Written { ok: true });
    assert!(matches!(action, CreateAction::Halt));
    let (_, action) = create_step(m, CreateEvent::StatusShown);
    assert!(matches!(action, CreateAction::Halt));
}

#[test]
fn missing_command_is_rejected() {
    let r = create_init(args(&[]), identity());
    assert!(matches!(r, Err(CreateError::NoCommand)));
}

#[test]
fn missing_user_is_rejected_once_the_path_proves_free() {
    let (m, _) = create_init(args(&["run.sh"]), Identity { user: None, sudo_user: None })
        .expect("the existence check still comes first");
    let (_, action) = create_step(m, CreateEvent::ExistsChecked { exists: false });
    assert!(matches!(
        action,
        CreateAction::Report { error: CreateError::NoUser }
    ));
}

#[test]
fn an_existing_unit_file_outranks_a_missing_user() {
    let (m, _) = create_init(args(&["run.sh"]), Identity { user: None, sudo_user: None })
        .expect("the existence check still comes first");
    let (_, action) = create_step(m, CreateEvent::ExistsChecked { exists: true });
    assert!(matches!(
        action,
        CreateAction::Report { error: CreateError::AlreadyExists }
    ));
}

#[test]
fn sudo_user_outranks_login_user() {
    let id = Identity {
        user: Some("root".to_string()),
        sudo_user: Some("carol".to_string()),
    };
    let (m, _) = create_init(args(&["run.sh"]), id).expect("create begins");
    assert_eq!(m.user, "carol");
}

#[test]
fn unresolvable_interpreter_fails_with_binary_not_found() {
    let mut a = args(&["myscript"]);
    a.interpreter = Some("python3".to_string());
    let (m, _) = begun(a);
    let (m, action) = create_step(m, CreateEvent::ExistsChecked { exists: false });
    match &action {
        CreateAction::LookupBinary { name, user } => {
            assert_eq!(name, "python3");
            assert_eq!(user, "alice");
        }
        _ => panic!("the interpreter must be looked up"),
    }
    let (_, action) = create_step(m, CreateEvent::BinaryLooked { found: None });
    assert!(matches!(
        action,
        CreateAction::Report { error: CreateError::BinaryNotFound }
    ));
}

#[test]
fn js_file_resolves_node_and_runs_from_its_parent() {
    // A bare `index.js` has no parent directory: the current directory
    // stands in.
    let (m, _) = begun(args(&["index.js"]));
    let (m, action) = create_step(m, CreateEvent::ExistsChecked { exists: false });
    match &action {
        CreateAction::LookupBinary { name, .. } => assert_eq!(name, "node"),
        _ => panic!("the node runtime must be looked up"),
    }
    let (m, action) = create_step(
        m,
        CreateEvent::BinaryLooked { found: Some("/usr/bin/node".to_string()) },
    );
    assert!(matches!(action, CreateAction::GetCwd));
    let (m, action) = create_step(m, CreateEvent::CwdIs { dir: Some("/home/alice".to_string()) });
    assert_eq!(m.command, vec!["/usr/bin/node".to_string(), "index.js".to_string()]);
    match action {
        CreateAction::WriteFile { text, .. } => {
            assert!(text.contains("ExecStart=/usr/bin/node index.js\n"));
            assert!(text.contains("WorkingDirectory=/home/alice\n"));
        }
        _ => panic!("the definition must be persisted"),
    }
}

#[test]
fn js_file_in_a_directory_runs_from_that_directory() {
    let (m, _) = begun(args(&["app/index.js"]));
    let (m, _) = create_step(m, CreateEvent::ExistsChecked { exists: false });
    let (_, action) = create_step(
        m,
        CreateEvent::BinaryLooked { found: Some("/usr/bin/node".to_string()) },
    );
    match action {
        CreateAction::Canonicalize { path } => assert_eq!(path, "app"),
        _ => panic!("the target's parent must be canonicalized"),
    }
}

#[test]
fn explicit_interpreter_with_env_var_shapes_the_definition() {
    let mut a = args(&["myscript"]);
    a.interpreter = Some("python3".to_string());
    a.env_vars = vec!["FOO=BAR".to_string()];
    let (m, _) = begun(a);
    let (m, _) = create_step(m, CreateEvent::ExistsChecked { exists: false });
    let (m, action) = create_step(
        m,
        CreateEvent::BinaryLooked { found: Some("/usr/bin/python3".to_string()) },
    );
    assert!(matches!(action, CreateAction::GetCwd));
    let (_, action) = create_step(m, CreateEvent::CwdIs { dir: Some("/work".to_string()) });
    match action {
        CreateAction::WriteFile { text, .. } => {
            assert!(text.contains("ExecStart=/usr/bin/python3 myscript\n"));
            let envs: Vec<&str> = text
                .lines()
                .filter(|l| l.starts_with("Environment="))
                .collect();
            assert_eq!(envs, vec!["Environment=FOO=BAR"]);
        }
        _ => panic!("the definition must be persisted"),
    }
}

#[test]
fn plain_command_falls_back_to_path_lookup() {
    let (m, _) = begun(args(&["mytool", "--serve"]));
    let (m, action) = create_step(m, CreateEvent::ExistsChecked { exists: false });
    match &action {
        CreateAction::CheckIsFile { path } => assert_eq!(path, "mytool"),
        _ => panic!("the target must be probed as a file"),
    }
    let (m, action) = create_step(m, CreateEvent::IsFileChecked { is_file: false });
    match &action {
        CreateAction::LookupBinary { name, .. } => assert_eq!(name, "mytool"),
        _ => panic!("the command itself must be looked up"),
    }
    let (m, action) = create_step(
        m,
        CreateEvent::BinaryLooked { found: Some("/usr/local/bin/mytool".to_string()) },
    );
    assert!(matches!(action, CreateAction::GetCwd));
    let (m, _) = create_step(m, CreateEvent::CwdIs { dir: Some("/work".to_string()) });
    assert_eq!(
        m.command,
        vec!["/usr/local/bin/mytool".to_string(), "--serve".to_string()]
    );
}

#[test]
fn unfound_fallback_leaves_the_command_unresolved() {
    let (m, _) = begun(args(&["./local-tool"]));
    let (m, _) = create_step(m, CreateEvent::ExistsChecked { exists: false });
    let (m, _) = create_step(m, CreateEvent::IsFileChecked { is_file: false });
    let (m, _) = create_step(m, CreateEvent::BinaryLooked { found: None });
    assert_eq!(m.command, vec!["./local-tool".to_string()]);
}

#[test]
fn dry_run_emits_and_concludes_without_effects() {
    let mut a = args(&["run.sh"]);
    a.debug = true;
    a.start = true;
    a.enable = true;
    let (m, _) = begun(a);
    let (m, _) = create_step(m, CreateEvent::ExistsChecked { exists: false });
    let (m, _) = create_step(m, CreateEvent::IsFileChecked { is_file: true });
    let (m, action) = create_step(m, CreateEvent::CwdIs { dir: Some("/work".to_string()) });
    match action {
        CreateAction::Emit { text } => assert!(text.contains("ExecStart=run.sh\n")),
        _ => panic!("a dry run must only emit the text"),
    }
    // Concluded: nothing further is asked for, whatever arrives.
    let (_, action) = create_step(m, CreateEvent::Written { ok: true });
    assert!(matches!(action, CreateAction::Halt));
}

#[test]
fn failed_write_reports_persist_failed() {
    let (m, _) = begun(args(&["run.sh"]));
    let (m, _) = create_step(m, CreateEvent::ExistsChecked { exists: false });
    let (m, _) = create_step(m, CreateEvent::IsFileChecked { is_file: true });
    let (m, action) = create_step(m, CreateEvent::CwdIs { dir: Some("/work".to_string()) });
    assert!(matches!(action, CreateAction::WriteFile { .. }));
    let (_, action) = create_step(m, CreateEvent::Written { ok: false });
    assert!(matches!(
        action,
        CreateAction::Report { error: CreateError::PersistFailed }
    ));
}

#[test]
fn unknown_directory_aborts() {
    let mut a = args(&["run.sh"]);
    a.directory = Some("/nowhere".to_string());
    let (m, _) = begun(a);
    let (m, _) = create_step(m, CreateEvent::ExistsChecked { exists: false });
    let (m, action) = create_step(m, CreateEvent::IsFileChecked { is_file: true });
    match &action {
        CreateAction::Canonicalize { path } => assert_eq!(path, "/nowhere"),
        _ => panic!("the explicit directory must be canonicalized"),
    }
    let (_, action) = create_step(m, CreateEvent::DirResolved { dir: None });
    assert!(matches!(
        action,
        CreateAction::Report { error: CreateError::UnknownDirectory }
    ));
}

#[test]
fn create_chains_start_enable_then_status() {
    let mut a = args(&["run.sh"]);
    a.start = true;
    a.enable = true;
    let (m, _) = begun(a);
    let (m, _) = create_step(m, CreateEvent::ExistsChecked { exists: false });
    let (m, _) = create_step(m, CreateEvent::IsFileChecked { is_file: true });
    let (m, _) = create_step(m, CreateEvent::CwdIs { dir: Some("/work".to_string()) });
    let (m, action) = create_step(m, CreateEvent::Written { ok: true });
    assert!(matches!(action, CreateAction::StartUnit { .. }));
    // A failed start is reported but never stops the chain.
    let (m, action) = create_step(m, CreateEvent::ControlDone { ok: false });
    assert!(matches!(action, CreateAction::EnableUnit { .. }));
    let (m, action) = create_step(m, CreateEvent::ControlDone { ok: true });
    match &action {
        CreateAction::QueryStatus { unit } => assert_eq!(unit, "run.sh.ser.service"),
        _ => panic!("status must close the operation"),
    }
    let (_, action) = create_step(m, CreateEvent::StatusShown);
    assert!(matches!(action, CreateAction::Halt));
}

#[test]
fn restart_stops_then_starts_even_when_stop_reports_not_running() {
    let (m, action) = restart_init("web", true);
    match &action {
        RestartAction::StopUnit { unit } => assert_eq!(unit, "web.ser.service"),
        _ => panic!("stop must come first"),
    }
    // The stop reported the unit was not running: start is still attempted.
    let (m, action) = restart_step(m, RestartEvent::ControlDone { ok: false });
    match &action {
        RestartAction::StartUnit { unit } => assert_eq!(unit, "web.ser.service"),
        _ => panic!("start must follow stop, whatever stop reported"),
    }
    let (m, action) = restart_step(m, RestartEvent::ControlDone { ok: true });
    assert!(matches!(action, RestartAction::QueryStatus { .. }));
    let (_, action) = restart_step(m, RestartEvent::StatusShown);
    assert!(matches!(action, RestartAction::Halt));
}

#[test]
fn restart_without_status_concludes_after_start() {
    let (m, _) = restart_init("web", false);
    let (m, _) = restart_step(m, RestartEvent::ControlDone { ok: true });
    let (_, action) = restart_step(m, RestartEvent::ControlDone { ok: true });
    assert!(matches!(action, RestartAction::Halt));
}

#[test]
fn only_a_done_job_counts_as_success() {
    assert_eq!(interpret_job_result("done"), Ok(()));
    assert_eq!(interpret_job_result("failed"), Err(ControlPlaneError::JobFailed));
    assert_eq!(interpret_job_result("canceled"), Err(ControlPlaneError::JobFailed));
    assert_eq!(interpret_job_result(""), Err(ControlPlaneError::JobFailed));
}

#[test]
fn custom_name_outranks_the_base_name() {
    let mut a = args(&["srv/app.py"]);
    a.name = Some("backend".to_string());
    let (m, _) = begun(a);
    assert_eq!(m.unit_path, "/etc/systemd/system/backend.ser.service");
}
