use ripple_resolver::command::build_command;
use ripple_resolver::paths::{join_path, probe_candidates, Mode, Os};
use ripple_resolver::resolver::{Event, Op, RippleExtension, Status};

/// A host whose PATH, files and package state are plain lists.
struct FakeHost {
    path: Vec<(String, String)>,
    files: Vec<String>,
    installed: Option<String>,
    /// `None`: installs succeed and put the launcher in place.
    /// `Some((error, version))`: installs fail, leaving `version` installed.
    failure: Option<(String, Option<String>)>,
    installs: Vec<(String, String)>,
    notices: Vec<Status>,
    lookups: Vec<String>,
}

impl FakeHost {
    fn new() -> Self {
        FakeHost {
            path: vec![],
            files: vec![],
            installed: None,
            failure: None,
            installs: vec![],
            notices: vec![],
            lookups: vec![],
        }
    }
}

const LAUNCHER: &str = "/ext/node_modules/.bin/ripple-language-server";
const ENTRY: &str = "/ext/node_modules/@ripple-ts/language-server/bin/ripple-language-server.js";

fn resolve(ext: &mut RippleExtension, host: &mut FakeHost) -> Result<String, String> {
    let mut step = ext.step(Event::Start);
    loop {
        host.notices.extend(step.notices.iter().copied());
        let event = match step.op {
            Op::Finish(r) => return r,
            Op::Which(name) => {
                host.lookups.push(name.clone());
                Event::Found(host.path.iter().find(|(n, _)| *n == name).map(|(_, p)| p.clone()))
            }
            Op::CheckFile(p) => Event::IsFile(host.files.contains(&p)),
            Op::QueryInstalledVersion => Event::Version(host.installed.clone()),
            Op::Install { package, version } => {
                host.installs.push((package, version.clone()));
                match &host.failure {
                    None => {
                        host.installed = Some(version);
                        host.files.push(LAUNCHER.to_string());
                        Event::Installed(Ok(()))
                    }
                    Some((error, left)) => {
                        host.installed = left.clone();
                        Event::Installed(Err(error.clone()))
                    }
                }
            }
        };
        step = ext.step(event);
    }
}

fn full(os: Os, pin: Option<&str>) -> RippleExtension {
    RippleExtension::new(Mode::Full, os, Ok("/ext".to_string()), Ok(pin.map(|p| p.to_string())))
}

#[test]
fn candidate_order_per_platform() {
    assert_eq!(
        probe_candidates(Mode::Full, Os::Windows),
        vec![
            "language-server.cmd",
            "language-server",
            "node_modules/.bin/language-server.cmd",
            "node_modules/.bin/language-server"
        ]
    );
    for os in [Os::Linux, Os::Mac] {
        assert_eq!(
            probe_candidates(Mode::Full, os),
            vec!["@ripple-ts/language-server", "node_modules/.bin/@ripple-ts/language-server"]
        );
        assert_eq!(probe_candidates(Mode::Full, os), probe_candidates(Mode::Full, os));
    }
    assert_eq!(
        probe_candidates(Mode::PathOnly, Os::Windows),
        vec!["ripple-language-server", "node_modules/.bin/ripple-language-server"]
    );
}

#[test]
fn windows_prefers_cmd_launcher() {
    let mut host = FakeHost::new();
    host.path.push(("language-server".to_string(), "C:/bin/language-server".to_string()));
    host.path.push(("language-server.cmd".to_string(), "C:/bin/language-server.cmd".to_string()));
    host.files.push("C:/bin/language-server".to_string());
    host.files.push("C:/bin/language-server.cmd".to_string());
    let mut ext = full(Os::Windows, Some("0.2.0"));
    assert_eq!(resolve(&mut ext, &mut host), Ok("C:/bin/language-server.cmd".to_string()));
}

#[test]
fn join_path_separators() {
    assert_eq!(join_path("/ext", "a/b"), "/ext/a/b");
    assert_eq!(join_path("/ext/", "a/b"), "/ext/a/b");
    assert_eq!(join_path("", "a/b"), "a/b");
}

#[test]
fn command_runs_in_stdio_mode() {
    let env = vec![("PATH".to_string(), "/usr/bin".to_string()), ("HOME".to_string(), "/h".to_string())];
    let c = build_command("/usr/bin/rls".to_string(), env.clone());
    assert_eq!(c.command, "/usr/bin/rls");
    assert_eq!(c.args, vec!["--stdio".to_string()]);
    assert_eq!(c.env, env);
}

#[test]
fn fresh_install_returns_local_bin_path() {
    let mut host = FakeHost::new();
    let mut ext = full(Os::Linux, Some("0.2.0"));
    assert_eq!(resolve(&mut ext, &mut host), Ok(LAUNCHER.to_string()));
    assert_eq!(host.installs, vec![("@ripple-ts/language-server".to_string(), "0.2.0".to_string())]);
    assert_eq!(host.notices, vec![Status::CheckingForUpdate, Status::Downloading]);
    assert_eq!(ext.cached_binary_path(), Some(LAUNCHER.to_string()));
}

#[test]
fn path_hit_skips_install() {
    let mut host = FakeHost::new();
    host.path.push(("@ripple-ts/language-server".to_string(), "/usr/bin/rls".to_string()));
    host.files.push("/usr/bin/rls".to_string());
    let mut ext = full(Os::Linux, None);
    assert_eq!(resolve(&mut ext, &mut host), Ok("/usr/bin/rls".to_string()));
    assert!(host.installs.is_empty());
    assert!(host.notices.is_empty());
    assert!(ext.pinned_version().is_none());
}

#[test]
fn missing_pin_stops_before_install() {
    let mut host = FakeHost::new();
    let mut ext = full(Os::Linux, None);
    let r = resolve(&mut ext, &mut host);
    assert_eq!(
        r,
        Err("Add config.@ripple-ts/language-server to package.json to pin the language server version.".to_string())
    );
    assert!(host.installs.is_empty());
}

#[test]
fn stale_path_entry_is_rejected() {
    let mut host = FakeHost::new();
    host.path.push(("@ripple-ts/language-server".to_string(), "/gone/rls".to_string()));
    host.path.push(("node_modules/.bin/@ripple-ts/language-server".to_string(), "/w/nm/rls".to_string()));
    host.files.push("/w/nm/rls".to_string());
    let mut ext = full(Os::Linux, Some("0.2.0"));
    assert_eq!(resolve(&mut ext, &mut host), Ok("/w/nm/rls".to_string()));
}

#[test]
fn deleted_cached_path_is_not_returned() {
    let mut host = FakeHost::new();
    host.path.push(("@ripple-ts/language-server".to_string(), "/usr/bin/rls".to_string()));
    host.files.push("/usr/bin/rls".to_string());
    let mut ext = full(Os::Linux, Some("0.2.0"));
    assert_eq!(resolve(&mut ext, &mut host), Ok("/usr/bin/rls".to_string()));
    host.files.clear();
    host.path.clear();
    assert_eq!(resolve(&mut ext, &mut host), Ok(LAUNCHER.to_string()));
    assert_eq!(host.installs.len(), 1);
    assert_eq!(ext.cached_binary_path(), Some(LAUNCHER.to_string()));
}

#[test]
fn second_resolution_does_not_install_again() {
    let mut host = FakeHost::new();
    let mut ext = full(Os::Linux, Some("0.2.0"));
    let first = resolve(&mut ext, &mut host);
    let lookups = host.lookups.len();
    let second = resolve(&mut ext, &mut host);
    assert_eq!(first, Ok(LAUNCHER.to_string()));
    assert_eq!(second, first);
    assert_eq!(host.installs.len(), 1);
    assert_eq!(host.lookups.len(), lookups);
}

#[test]
fn current_install_is_not_repeated() {
    let mut host = FakeHost::new();
    host.files.push(LAUNCHER.to_string());
    host.installed = Some("0.2.0\n".to_string());
    let mut ext = full(Os::Linux, Some("0.2.0"));
    assert_eq!(resolve(&mut ext, &mut host), Ok(LAUNCHER.to_string()));
    assert!(host.installs.is_empty());
    assert!(host.notices.is_empty());
}

#[test]
fn outdated_or_unknown_install_is_updated() {
    for installed in [Some("0.1.0".to_string()), None] {
        let mut host = FakeHost::new();
        host.files.push(LAUNCHER.to_string());
        host.installed = installed;
        let mut ext = full(Os::Linux, Some("0.2.0"));
        assert_eq!(resolve(&mut ext, &mut host), Ok(LAUNCHER.to_string()));
        assert_eq!(host.installs.len(), 1);
        assert_eq!(host.notices, vec![Status::CheckingForUpdate, Status::Downloading]);
    }
}

#[test]
fn failed_install_self_heals_when_version_is_present() {
    let mut host = FakeHost::new();
    host.files.push(LAUNCHER.to_string());
    host.failure = Some(("network down".to_string(), Some("0.2.0".to_string())));
    let mut ext = full(Os::Linux, Some("0.2.0"));
    assert_eq!(resolve(&mut ext, &mut host), Ok(LAUNCHER.to_string()));
    assert_eq!(host.installs.len(), 1);
}

#[test]
fn failed_install_error_is_passed_through() {
    let mut host = FakeHost::new();
    host.failure = Some(("network down".to_string(), Some("0.1.0".to_string())));
    let mut ext = full(Os::Linux, Some("0.2.0"));
    assert_eq!(resolve(&mut ext, &mut host), Err("network down".to_string()));
    assert_eq!(host.installs.len(), 1);
}

#[test]
fn entry_script_is_the_fallback() {
    let mut host = FakeHost::new();
    host.files.push(ENTRY.to_string());
    host.installed = Some("0.2.0".to_string());
    let mut ext = full(Os::Linux, Some("0.2.0"));
    assert_eq!(resolve(&mut ext, &mut host), Ok(ENTRY.to_string()));
    assert!(host.installs.is_empty());
}

#[test]
fn missing_binary_after_install_names_both_paths() {
    let mut host = FakeHost::new();
    host.failure = Some(("ignored".to_string(), Some("0.2.0".to_string())));
    let mut ext = full(Os::Windows, Some("0.2.0"));
    assert_eq!(
        resolve(&mut ext, &mut host),
        Err(format!(
            "Failed to locate language server binary: expected a binary at {} or {}",
            "/ext/node_modules/.bin/ripple-language-server.cmd", ENTRY
        ))
    );
}

#[test]
fn unknown_extension_dir_installs_then_fails_to_locate() {
    let mut host = FakeHost::new();
    let mut ext = RippleExtension::new(Mode::Full, Os::Linux, Err("no cwd".to_string()), Ok(Some("0.2.0".to_string())));
    assert_eq!(
        resolve(&mut ext, &mut host),
        Err("Failed to locate language server binary: no cwd".to_string())
    );
    assert_eq!(host.notices, vec![Status::CheckingForUpdate, Status::Downloading]);
    assert_eq!(host.installs.len(), 1);
}

#[test]
fn path_only_mode_never_installs() {
    let mut host = FakeHost::new();
    let mut ext = RippleExtension::new(Mode::PathOnly, Os::Linux, Ok("/ext".to_string()), Ok(None));
    assert_eq!(
        resolve(&mut ext, &mut host),
        Err("ripple-language-server not found. Please install it:\nnpm install -g ripple-language-server\nor add it to your project:\nnpm install --save-dev ripple-language-server".to_string())
    );
    assert!(host.installs.is_empty());
    host.path.push(("node_modules/.bin/ripple-language-server".to_string(), "/w/rls".to_string()));
    host.files.push("/w/rls".to_string());
    assert_eq!(resolve(&mut ext, &mut host), Ok("/w/rls".to_string()));
}

#[test]
fn unexpected_answer_ends_resolution() {
    let mut ext = full(Os::Linux, Some("0.2.0"));
    let s = ext.step(Event::IsFile(true));
    match s.op {
        Op::Finish(r) => assert_eq!(r, Err("resolution received an answer it did not ask for".to_string())),
        other => panic!("{:?}", other),
    }
    assert!(ext.is_idle());
}
