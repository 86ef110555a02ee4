use lapce_tabnine::launch::{DocumentFilterSpec, LaunchPlan, ServerLocation};
use lapce_tabnine::pipeline::{step, Action, Event, Stage};
use lapce_tabnine::platform::{Target, TargetArch, TargetOs};
use lapce_tabnine::release::{archive_file_name, download_url, version_url, DEFAULT_BUNDLES_BASE};
use lapce_tabnine::settings::LspSettings;

fn catch_all() -> Vec<DocumentFilterSpec> {
    vec![DocumentFilterSpec {
        language: Some(String::new()),
        pattern: Some(String::from("**/*")),
        scheme: None,
    }]
}

fn settings(path: Option<&str>, args: Option<Vec<Option<&str>>>) -> LspSettings {
    LspSettings {
        server_path: path.map(String::from),
        server_args: args.map(|v| v.into_iter().map(|a| a.map(String::from)).collect()),
    }
}

fn start(s: LspSettings) -> (Stage, Action) {
    step(Stage::Start, Event::Initialize { settings: s, base: String::from(DEFAULT_BUNDLES_BASE) })
}

fn linux_x86() -> Target {
    Target { os: TargetOs::Linux, arch: TargetArch::X86_64 }
}

#[test]
fn override_launches_without_network() {
    let (stage, action) = start(settings(Some("/usr/bin/custom-ls"), Some(vec![Some("--flag")])));
    assert_eq!(stage, Stage::Launched);
    assert_eq!(
        action,
        Action::Launch(LaunchPlan {
            location: ServerLocation::Identifier(String::from("urn:/usr/bin/custom-ls")),
            args: vec![String::from("--flag")],
            selector: catch_all(),
        })
    );
    let (stage, action) = step(stage, Event::VersionFetched { status: 200, body: b"1".to_vec() });
    assert_eq!(stage, Stage::Launched);
    assert_eq!(action, Action::Nothing);
}

#[test]
fn empty_path_runs_pipeline() {
    let (stage, action) = start(settings(Some(""), None));
    assert_eq!(
        stage,
        Stage::AwaitingVersion { base: String::from(DEFAULT_BUNDLES_BASE), args: vec![] }
    );
    assert_eq!(
        action,
        Action::FetchVersion(String::from("https://update.tabnine.com/bundles/version"))
    );
}

#[test]
fn blank_path_and_missing_path_run_pipeline() {
    let (_, action) = start(settings(Some("  \t"), None));
    assert!(matches!(action, Action::FetchVersion(_)));
    let (_, action) = start(settings(None, Some(vec![Some("-x")])));
    assert!(matches!(action, Action::FetchVersion(_)));
}

#[test]
fn non_string_args_are_skipped() {
    let s = settings(Some("ls"), Some(vec![Some("a"), None, Some("b")]));
    assert_eq!(s.args(), vec![String::from("a"), String::from("b")]);
    let (_, action) = start(s);
    match action {
        Action::Launch(plan) => assert_eq!(plan.args, vec![String::from("a"), String::from("b")]),
        other => panic!("unexpected {:?}", other),
    }
}

#[test]
fn version_error_reports_once() {
    let (stage, action) = start(LspSettings::empty());
    assert!(matches!(action, Action::FetchVersion(_)));
    let (stage, action) = step(stage, Event::VersionFetched { status: 404, body: vec![] });
    assert_eq!(stage, Stage::Failed);
    assert_eq!(action, Action::Report(String::from("plugin returned with error: Response error: 404")));
    let (stage, action) = step(stage, Event::ArchiveFetched { status: 200, body: vec![1] });
    assert_eq!(stage, Stage::Failed);
    assert_eq!(action, Action::Nothing);
}

#[test]
fn invalid_version_text_fails() {
    let stage = Stage::AwaitingVersion { base: String::from("b"), args: vec![] };
    let (stage, action) = step(stage, Event::VersionFetched { status: 200, body: vec![0xfe] });
    assert_eq!(stage, Stage::Failed);
    assert_eq!(
        action,
        Action::Report(String::from("plugin returned with error: version response is not valid UTF-8"))
    );
}

#[test]
fn environment_failures() {
    let waiting = || Stage::AwaitingEnvironment {
        base: String::from("b"),
        args: vec![],
        version: String::from("1"),
    };
    let (_, a) = step(waiting(), Event::EnvironmentRead { os: Err(String::from("no os")), arch: Ok(String::from("x86_64")) });
    assert_eq!(a, Action::Report(String::from("plugin returned with error: environment unavailable: no os")));
    let (_, a) = step(waiting(), Event::EnvironmentRead { os: Ok(String::from("freebsd")), arch: Ok(String::from("x86_64")) });
    assert_eq!(a, Action::Report(String::from("plugin returned with error: unsupported platform freebsd")));
    let (_, a) = step(waiting(), Event::EnvironmentRead { os: Ok(String::from("linux")), arch: Err(String::from("no arch")) });
    assert_eq!(a, Action::Report(String::from("plugin returned with error: environment unavailable: no arch")));
    let (s, a) = step(waiting(), Event::EnvironmentRead { os: Ok(String::from("linux")), arch: Ok(String::from("armv7")) });
    assert_eq!(s, Stage::Failed);
    assert_eq!(a, Action::Report(String::from("plugin returned with error: unsupported architecture armv7")));
}

#[test]
fn full_pipeline_on_windows() {
    let (stage, _) = start(settings(None, Some(vec![Some("--log")])));
    let (stage, action) = step(stage, Event::VersionFetched { status: 200, body: b"4.5.6".to_vec() });
    assert_eq!(action, Action::ReadEnvironment);
    let (stage, action) = step(
        stage,
        Event::EnvironmentRead { os: Ok(String::from("windows")), arch: Ok(String::from("aarch64")) },
    );
    assert_eq!(
        action,
        Action::FetchArchive(String::from(
            "https://update.tabnine.com/bundles/4.5.6/aarch64-pc-windows-gnu/TabNine.zip"
        ))
    );
    let (stage, action) = step(stage, Event::ArchiveFetched { status: 204, body: vec![9, 8] });
    assert_eq!(
        action,
        Action::Extract { file: String::from("TabNine-4.5.6-aarch64-pc-windows-gnu.zip"), body: vec![9, 8] }
    );
    let (stage, action) = step(stage, Event::Extracted { failure: None });
    assert_eq!(stage, Stage::Launched);
    assert_eq!(
        action,
        Action::Launch(LaunchPlan {
            location: ServerLocation::PluginFile(String::from("TabNine.exe")),
            args: vec![String::from("--log")],
            selector: catch_all(),
        })
    );
}

#[test]
fn linux_launch_has_no_suffix() {
    let stage = Stage::AwaitingExtraction { args: vec![], target: linux_x86() };
    let (_, action) = step(stage, Event::Extracted { failure: None });
    match action {
        Action::Launch(plan) => assert_eq!(plan.location, ServerLocation::PluginFile(String::from("TabNine"))),
        other => panic!("unexpected {:?}", other),
    }
}

#[test]
fn archive_errors_fail() {
    let stage = Stage::AwaitingArchive { args: vec![], version: String::from("1"), target: linux_x86() };
    let (s, a) = step(stage, Event::ArchiveFetched { status: 500, body: vec![] });
    assert_eq!(s, Stage::Failed);
    assert_eq!(a, Action::Report(String::from("plugin returned with error: Response error: 500")));
    let stage = Stage::AwaitingExtraction { args: vec![], target: linux_x86() };
    let (s, a) = step(stage, Event::Extracted { failure: Some(String::from("disk full")) });
    assert_eq!(s, Stage::Failed);
    assert_eq!(a, Action::Report(String::from("plugin returned with error: I/O failure: disk full")));
}

#[test]
fn unexpected_event_changes_nothing() {
    let (s, a) = step(Stage::Start, Event::Extracted { failure: None });
    assert_eq!(s, Stage::Start);
    assert_eq!(a, Action::Nothing);
}

#[test]
fn release_names() {
    assert_eq!(version_url("http://mock"), "http://mock/version");
    assert_eq!(
        download_url(DEFAULT_BUNDLES_BASE, "4.5.6", linux_x86()),
        "https://update.tabnine.com/bundles/4.5.6/x86_64-unknown-linux-gnu/TabNine.zip"
    );
    assert_eq!(archive_file_name("4.5.6", linux_x86()), "TabNine-4.5.6-x86_64-unknown-linux-gnu.zip");
}
