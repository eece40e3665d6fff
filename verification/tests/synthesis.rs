use servicer::synth::{synthesize, ResolvedUnitSpec};

fn spec(
    command: &[&str],
    directory: &str,
    user: &str,
    env_vars: &[&str],
    auto_restart: bool,
) -> ResolvedUnitSpec {
    ResolvedUnitSpec {
        command: command.iter().map(|s| s.to_string()).collect(),
        directory: directory.to_string(),
        user: user.to_string(),
        env_vars: env_vars.iter().map(|s| s.to_string()).collect(),
        auto_restart,
    }
}

#[test]
fn synthesize_is_deterministic() {
    let a = spec(
        &["/usr/bin/node", "index.js"],
        "/srv/app",
        "alice",
        &["FOO=BAR", "BAZ=1"],
        true,
    );
    let b = spec(
        &["/usr/bin/node", "index.js"],
        "/srv/app",
        "alice",
        &["FOO=BAR", "BAZ=1"],
        true,
    );
    assert_eq!(synthesize(&a), synthesize(&b));
}

#[test]
fn synthesize_exact_text() {
    let s = spec(&["/usr/bin/node", "index.js"], "/srv/app", "alice", &[], false);
    let expected = "# Generated with Servicer\n\
                    [Unit]\n\
                    After=network.target\n\
                    \n\
                    [Service]\n\
                    Type=simple\n\
                    User=alice\n\
                    \n\
                    WorkingDirectory=/srv/app\n\
                    ExecStart=/usr/bin/node index.js\n\
                    \n\
                    [Install]\n\
                    WantedBy=multi-user.target\n";
    assert_eq!(synthesize(&s), expected);
}

#[test]
fn exec_start_line_joins_tokens_with_spaces() {
    let s = spec(&["/bin/run", "--port", "8080"], "/d", "u", &[], false);
    let text = synthesize(&s);
    let line = text
        .lines()
        .find(|l| l.starts_with("ExecStart="))
        .expect("an ExecStart line");
    assert_eq!(line, "ExecStart=/bin/run --port 8080");
}

#[test]
fn restart_line_follows_exec_start_exactly_when_asked() {
    let with = spec(&["/bin/x"], "/d", "u", &[], true);
    let text = synthesize(&with);
    let lines: Vec<&str> = text.lines().collect();
    let at = lines.iter().position(|l| l.starts_with("ExecStart=")).unwrap();
    assert_eq!(lines[at + 1], "Restart=always");

    let without = spec(&["/bin/x"], "/d", "u", &[], false);
    let text2 = synthesize(&without);
    assert!(text2.lines().all(|l| l != "Restart=always"));
}

#[test]
fn one_environment_line_per_entry_in_input_order() {
    let s = spec(&["/bin/x"], "/d", "u", &["B=2", "A=1"], false);
    let text = synthesize(&s);
    let envs: Vec<&str> = text.lines().filter(|l| l.starts_with("Environment=")).collect();
    assert_eq!(envs, vec!["Environment=B=2", "Environment=A=1"]);
}

#[test]
fn auto_restart_without_env_vars_appends_exactly_one_line() {
    let s = spec(&["/bin/x"], "/d", "u", &[], true);
    let text = synthesize(&s);
    let lines: Vec<&str> = text.lines().collect();
    let at = lines.iter().position(|l| l.starts_with("ExecStart=")).unwrap();
    assert_eq!(lines[at + 1], "Restart=always");
    assert_eq!(lines[at + 2], "");
    assert_eq!(text.lines().filter(|l| l.starts_with("Environment=")).count(), 0);
}

#[test]
fn round_trip_recovers_the_fields() {
    let s = spec(
        &["/usr/bin/python3", "job.py", "--fast"],
        "/var/lib/jobs",
        "worker",
        &["MODE=prod"],
        true,
    );
    let text = synthesize(&s);
    let field = |key: &str| -> Option<String> {
        text.lines()
            .find(|l| l.starts_with(key))
            .map(|l| l[key.len()..].to_string())
    };
    assert_eq!(field("Type=").unwrap(), "simple");
    assert_eq!(field("User=").unwrap(), "worker");
    assert_eq!(field("WorkingDirectory=").unwrap(), "/var/lib/jobs");
    assert_eq!(field("ExecStart=").unwrap(), "/usr/bin/python3 job.py --fast");
}

#[test]
fn four_stanza_headers_in_order() {
    let s = spec(&["/bin/x"], "/d", "u", &[], false);
    let text = synthesize(&s);
    let headers: Vec<&str> = text.lines().filter(|l| l.starts_with('[')).collect();
    assert_eq!(headers, vec!["[Unit]", "[Service]", "[Install]"]);
    assert!(text.starts_with("# "));
}
