use tmup::config::{BeforeCommand, Config, Window as WindowConfig};
use tmup::driver::{Action, BuildDriver, BuildError, Stage};
use tmup::tmux::{send_command, Op, Session, Window};
use tmup::workspace::{find_workspace_file, Entry};

fn s(x: &str) -> String {
    x.to_string()
}

fn window(name: &str, dir: Option<&str>, cmd: Option<BeforeCommand>) -> WindowConfig {
    WindowConfig { name: s(name), start_directory: dir.map(s), before_command: cmd }
}

fn config(dir: Option<&str>, name: Option<&str>, windows: Vec<WindowConfig>) -> Config {
    Config { start_directory: dir.map(s), session_name: name.map(s), windows }
}

fn new_session(dir: &str, name: Option<&str>, window: Option<&str>) -> Op {
    Op::NewSession { start_directory: s(dir), session_name: name.map(s), window_name: window.map(s) }
}

fn new_window(name: &str, dir: &str) -> Op {
    Op::NewWindow { window_name: Some(s(name)), start_directory: s(dir) }
}

fn keys(k: &str) -> Op {
    Op::SendKeys { keys: s(k) }
}

#[test]
fn single_command_becomes_list() {
    let w = Window::from_config(window("vim", None, Some(BeforeCommand::One(s("vim")))));
    assert_eq!(w.name, Some(s("vim")));
    assert_eq!(w.dir, None);
    assert_eq!(w.cmds, Some(vec![s("vim")]));
}

#[test]
fn many_commands_kept_in_order() {
    let cmds = vec![s("cd"), s("vim")];
    let w = Window::from_config(window("vim", None, Some(BeforeCommand::Many(cmds))));
    assert_eq!(w.cmds, Some(vec![s("cd"), s("vim")]));
}

#[test]
fn no_command_stays_none() {
    let w = Window::from_config(window("vim", Some("/tmp/test"), None));
    assert_eq!(w.cmds, None);
    assert_eq!(w.dir, Some(s("/tmp/test")));
}

#[test]
fn session_from_config_keeps_fields_and_order() {
    let c = config(
        Some("/tmp"),
        Some("Test"),
        vec![window("a", None, None), window("b", Some("/srv"), None), window("c", None, None)],
    );
    let session = Session::from_config(c);
    assert_eq!(session.name, Some(s("Test")));
    assert_eq!(session.dir, s("/tmp"));
    let names: Vec<Option<String>> = session.windows.iter().map(|w| w.name.clone()).collect();
    assert_eq!(names, vec![Some(s("a")), Some(s("b")), Some(s("c"))]);
    assert_eq!(session.windows[1].dir, Some(s("/srv")));
}

#[test]
fn session_dir_defaults_to_dot() {
    let session = Session::from_config(config(None, None, vec![window("vim", None, None)]));
    assert_eq!(session.dir, s("."));
    assert_eq!(session.name, None);
}

#[test]
fn window_dir_inherits_session_dir() {
    let c = config(Some("/tmp"), None, vec![window("a", None, None), window("b", None, None)]);
    let plan = Session::from_config(c).build();
    assert_eq!(plan[1], new_window("b", "/tmp"));
}

#[test]
fn window_dir_inherits_default_dot() {
    let c = config(None, None, vec![window("a", None, None), window("b", None, None)]);
    let plan = Session::from_config(c).build();
    assert_eq!(plan[0], new_session(".", None, Some("a")));
    assert_eq!(plan[1], new_window("b", "."));
}

#[test]
fn single_window_scenario() {
    let c = config(
        Some("/tmp"),
        Some("Test"),
        vec![window("vim", None, Some(BeforeCommand::One(s("vim"))))],
    );
    let plan = Session::from_config(c).build();
    assert_eq!(
        plan,
        vec![new_session("/tmp", Some("Test"), Some("vim")), keys("vim\n"), Op::AttachSession]
    );
}

#[test]
fn second_window_own_dir_scenario() {
    let c = config(
        Some("/tmp"),
        Some("Test"),
        vec![window("vim", None, None), window("shell", Some("/tmp/test"), None)],
    );
    let plan = Session::from_config(c).build();
    assert_eq!(
        plan,
        vec![
            new_session("/tmp", Some("Test"), Some("vim")),
            new_window("shell", "/tmp/test"),
            Op::AttachSession,
        ]
    );
}

#[test]
fn three_windows_in_order() {
    let c = config(
        Some("/tmp"),
        Some("Work"),
        vec![
            window("edit", None, Some(BeforeCommand::Many(vec![s("cd src"), s("vim")]))),
            window("logs", Some("/var/log"), Some(BeforeCommand::One(s("tail -f syslog")))),
            window("shell", None, None),
        ],
    );
    let plan = Session::from_config(c).build();
    assert_eq!(
        plan,
        vec![
            new_session("/tmp", Some("Work"), Some("edit")),
            keys("cd src\n"),
            keys("vim\n"),
            new_window("logs", "/var/log"),
            keys("tail -f syslog\n"),
            new_window("shell", "/tmp"),
            Op::AttachSession,
        ]
    );
    let creates = plan.iter().filter(|o| matches!(o, Op::NewSession { .. })).count();
    let windows = plan.iter().filter(|o| matches!(o, Op::NewWindow { .. })).count();
    let attaches = plan.iter().filter(|o| matches!(o, Op::AttachSession)).count();
    assert_eq!((creates, windows, attaches), (1, 2, 1));
}

#[test]
fn build_without_windows() {
    let plan = Session::from_config(config(Some("/tmp"), Some("Empty"), vec![])).build();
    assert_eq!(plan, vec![new_session("/tmp", Some("Empty"), None), Op::AttachSession]);
}

#[test]
fn send_command_appends_line_terminators() {
    let mut plan = vec![Op::AttachSession];
    send_command(&vec![s("cd /tmp"), s("ls")], &mut plan);
    assert_eq!(plan, vec![Op::AttachSession, keys("cd /tmp\n"), keys("ls\n")]);
}

#[test]
fn send_command_empty_list() {
    let mut plan: Vec<Op> = Vec::new();
    send_command(&vec![], &mut plan);
    assert!(plan.is_empty());
}

#[test]
fn window_build_uses_root_without_own_dir() {
    let w = Window { name: None, dir: None, cmds: Some(vec![s("htop")]) };
    let mut plan: Vec<Op> = Vec::new();
    w.build("/home", &mut plan);
    assert_eq!(
        plan,
        vec![Op::NewWindow { window_name: None, start_directory: s("/home") }, keys("htop\n")]
    );
}

#[test]
fn window_build_prefers_own_dir() {
    let w = Window { name: Some(s("w")), dir: Some(s("/opt")), cmds: None };
    let mut plan: Vec<Op> = Vec::new();
    w.build("/home", &mut plan);
    assert_eq!(plan, vec![new_window("w", "/opt")]);
}

fn two_window_session() -> Session {
    Session::from_config(config(
        Some("/tmp"),
        Some("Test"),
        vec![
            window("vim", None, Some(BeforeCommand::One(s("vim")))),
            window("shell", None, Some(BeforeCommand::One(s("ls")))),
        ],
    ))
}

#[test]
fn driver_runs_every_operation_then_done() {
    let session = two_window_session();
    let expected = session.build();
    let mut driver = BuildDriver::new(&session);
    let mut seen = vec![driver.pending()];
    loop {
        match driver.step(Ok(())) {
            Action::Run(op) => seen.push(op),
            Action::Done => break,
            Action::Fail(e) => panic!("unexpected failure {:?}", e),
        }
    }
    assert!(driver.is_finished());
    assert_eq!(seen, expected);
}

#[test]
fn driver_stops_at_first_failure() {
    let session = two_window_session();
    let mut driver = BuildDriver::new(&session);
    assert_eq!(driver.pending(), new_session("/tmp", Some("Test"), Some("vim")));
    assert_eq!(driver.step(Ok(())), Action::Run(keys("vim\n")));
    assert_eq!(driver.step(Ok(())), Action::Run(new_window("shell", "/tmp")));
    let r = driver.step(Err(s("no server")));
    assert_eq!(
        r,
        Action::Fail(BuildError { stage: Stage::WindowCreate, diagnostic: s("no server") })
    );
    assert!(driver.is_finished());
}

#[test]
fn driver_failure_stages() {
    let session = two_window_session();
    let mut driver = BuildDriver::new(&session);
    match driver.step(Err(s("duplicate session"))) {
        Action::Fail(e) => assert_eq!(e.stage, Stage::SessionCreate),
        other => panic!("unexpected {:?}", other),
    }

    let mut driver = BuildDriver::new(&session);
    driver.step(Ok(()));
    match driver.step(Err(s("bad key"))) {
        Action::Fail(e) => {
            assert_eq!(e.stage, Stage::CommandSend);
            assert_eq!(e.diagnostic, s("bad key"));
        },
        other => panic!("unexpected {:?}", other),
    }

    let mut driver = BuildDriver::new(&session);
    for _ in 0..4 {
        driver.step(Ok(()));
    }
    assert_eq!(driver.pending(), Op::AttachSession);
    match driver.step(Err(s("not a terminal"))) {
        Action::Fail(e) => assert_eq!(e.stage, Stage::Attach),
        other => panic!("unexpected {:?}", other),
    }
}

#[test]
fn driver_without_windows() {
    let session = Session::from_config(config(None, None, vec![]));
    let mut driver = BuildDriver::new(&session);
    assert_eq!(driver.pending(), new_session(".", None, None));
    assert_eq!(driver.step(Ok(())), Action::Run(Op::AttachSession));
    assert_eq!(driver.step(Ok(())), Action::Done);
}

fn entry(stem: &str, path: &str) -> Entry {
    Entry { stem: s(stem), path: s(path) }
}

#[test]
fn workspace_file_first_match() {
    let entries = vec![
        entry("dev", "/h/.tmup/dev.yml"),
        entry("ops", "/h/.tmup/ops.yml"),
        entry("ops", "/h/.tmup/ops.yaml"),
    ];
    assert_eq!(find_workspace_file("ops", &entries), Some(s("/h/.tmup/ops.yml")));
    assert_eq!(find_workspace_file("dev", &entries), Some(s("/h/.tmup/dev.yml")));
}

#[test]
fn workspace_file_not_found() {
    let entries = vec![entry("dev", "/h/.tmup/dev.yml")];
    assert_eq!(find_workspace_file("missing", &entries), None);
    assert_eq!(find_workspace_file("dev", &vec![]), None);
}
