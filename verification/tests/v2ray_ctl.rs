use v2ray_maid::v2ray_ctl::{
    config_file_name_for, fresh_config_file_name, stop_outcome, Launch, LaunchAction, LaunchEvent,
    LaunchPhase, StartError, Teardown, TeardownAction, TeardownError, TeardownPhase, V2rayApp,
    V2rayAppProcess,
};

fn app() -> V2rayApp {
    V2rayApp::init("/usr/bin/v2ray", "V2Ray 4.27.0 (V2Fly, a community-driven edition) Custom\n")
        .unwrap()
}

/// A program that came up from a launch whose file is named with `suffix`.
fn running(suffix: &str) -> V2rayAppProcess {
    let mut launch = Launch::with_suffix(&app(), suffix);
    launch.step(LaunchEvent::Begin);
    launch.step(LaunchEvent::ConfigWritten(true));
    launch.step(LaunchEvent::Spawned(true));
    launch.step(LaunchEvent::Line("V2Ray 4.27.0 started"));
    launch.into_process().unwrap()
}

#[test]
fn init_finds_the_version() {
    let app = app();
    assert_eq!(app.version(), "4.27.0");
    assert_eq!(app.program(), "/usr/bin/v2ray");
}

#[test]
fn init_takes_the_first_version_in_the_output() {
    let app = V2rayApp::init("v2ray", "banner\nV2Ray 4.1.12 x\nV2Ray 5.0.0 y").unwrap();
    assert_eq!(app.version(), "4.1.12");
}

#[test]
fn init_fails_without_a_version() {
    assert!(V2rayApp::init("v2ray", "").is_none());
    assert!(V2rayApp::init("v2ray", "command not found").is_none());
    assert!(V2rayApp::init("v2ray", "V2Ray 4.27").is_none());
    assert!(V2rayApp::init("v2ray", "V2Ray 4.27.0").is_none());
    assert!(V2rayApp::init("v2ray", "v2ray 4.27.0 ").is_none());
}

#[test]
fn with_version_needs_a_version() {
    assert!(V2rayApp::with_version("v2ray", None).is_none());
    let app = V2rayApp::with_version("v2ray", Some("1.2.3".to_string())).unwrap();
    assert_eq!(app.version(), "1.2.3");
    assert_eq!(app.program(), "v2ray");
}

#[test]
fn ready_marker_embeds_the_version() {
    assert_eq!(app().ready_marker(), "V2Ray 4.27.0 started");
}

#[test]
fn ready_line_holds_the_marker() {
    let app = app();
    assert!(app.is_ready_line("2021/01/01 10:00:00 [Warning] V2Ray 4.27.0 started\n"));
    assert!(app.is_ready_line("V2Ray 4.27.0 started"));
    assert!(!app.is_ready_line("V2Ray 4.27.1 started"));
    assert!(!app.is_ready_line("V2Ray 4.27.0 starting"));
    assert!(!app.is_ready_line(""));
}

#[test]
fn config_file_name_carries_the_suffix() {
    assert_eq!(config_file_name_for("abc"), "v2ray-maid-running-abc.json");
    assert_eq!(config_file_name_for(""), "v2ray-maid-running-.json");
}

#[test]
fn fresh_config_file_names_are_unique_and_well_formed() {
    let a = fresh_config_file_name();
    let b = fresh_config_file_name();
    assert_ne!(a, b);
    for name in [&a, &b] {
        assert_eq!(name.len(), 56);
        let suffix =
            name.strip_prefix("v2ray-maid-running-").unwrap().strip_suffix(".json").unwrap();
        assert_eq!(suffix.len(), 32);
        assert!(suffix.chars().all(|c| matches!(c, '0'..='9' | 'a'..='f')));
    }
}

#[test]
fn launch_succeeds_on_the_marker_line() {
    let mut launch = Launch::with_suffix(&app(), "s1");
    assert_eq!(launch.config_name(), "v2ray-maid-running-s1.json");
    assert_eq!(launch.phase(), LaunchPhase::Fresh);
    assert_eq!(launch.step(LaunchEvent::Begin), LaunchAction::WriteConfig);
    assert_eq!(launch.step(LaunchEvent::ConfigWritten(true)), LaunchAction::Spawn);
    assert_eq!(launch.step(LaunchEvent::Spawned(true)), LaunchAction::ReadLine);
    assert_eq!(launch.step(LaunchEvent::Line("starting up\n")), LaunchAction::ReadLine);
    assert_eq!(launch.step(LaunchEvent::Line("\n")), LaunchAction::ReadLine);
    assert_eq!(
        launch.step(LaunchEvent::Line("[Warning] V2Ray 4.27.0 started\n")),
        LaunchAction::Succeed
    );
    assert_eq!(launch.phase(), LaunchPhase::Ready);
    assert_eq!(launch.step(LaunchEvent::StreamEnded), LaunchAction::Succeed);
}

#[test]
fn launch_fails_after_cleanup_when_the_output_ends() {
    let mut launch = Launch::new(&app());
    launch.step(LaunchEvent::Begin);
    launch.step(LaunchEvent::ConfigWritten(true));
    launch.step(LaunchEvent::Spawned(true));
    launch.step(LaunchEvent::Line("failed to read config\n"));
    assert_eq!(launch.step(LaunchEvent::StreamEnded), LaunchAction::CleanUp);
    assert_eq!(launch.phase(), LaunchPhase::CleaningUp(StartError::ReadinessTimeout));
    assert_eq!(launch.step(LaunchEvent::Line("V2Ray 4.27.0 started")), LaunchAction::CleanUp);
    assert_eq!(
        launch.step(LaunchEvent::CleanedUp),
        LaunchAction::Fail(StartError::ReadinessTimeout)
    );
    assert_eq!(launch.phase(), LaunchPhase::Failed(StartError::ReadinessTimeout));
}

#[test]
fn launch_times_out_when_the_program_stays_silent() {
    let mut launch = Launch::new(&app());
    launch.step(LaunchEvent::Begin);
    launch.step(LaunchEvent::ConfigWritten(true));
    launch.step(LaunchEvent::Spawned(true));
    assert_eq!(launch.step(LaunchEvent::Expired), LaunchAction::CleanUp);
    assert_eq!(
        launch.step(LaunchEvent::CleanedUp),
        LaunchAction::Fail(StartError::ReadinessTimeout)
    );
}

#[test]
fn launch_cleans_up_when_the_program_cannot_be_run() {
    let mut launch = Launch::new(&app());
    launch.step(LaunchEvent::Begin);
    launch.step(LaunchEvent::ConfigWritten(true));
    assert_eq!(launch.step(LaunchEvent::Spawned(false)), LaunchAction::CleanUp);
    assert_eq!(launch.step(LaunchEvent::CleanedUp), LaunchAction::Fail(StartError::SpawnFailed));
}

#[test]
fn launch_cleans_up_when_the_config_cannot_be_written() {
    let mut launch = Launch::new(&app());
    launch.step(LaunchEvent::Begin);
    assert_eq!(launch.step(LaunchEvent::ConfigWritten(false)), LaunchAction::CleanUp);
    assert_eq!(launch.step(LaunchEvent::CleanedUp), LaunchAction::Fail(StartError::SpawnFailed));
    assert_eq!(launch.step(LaunchEvent::Begin), LaunchAction::Fail(StartError::SpawnFailed));
}

#[test]
fn launch_ignores_reports_it_does_not_wait_for() {
    let mut launch = Launch::new(&app());
    launch.step(LaunchEvent::Begin);
    assert_eq!(launch.step(LaunchEvent::Spawned(true)), LaunchAction::WriteConfig);
    assert_eq!(launch.step(LaunchEvent::CleanedUp), LaunchAction::WriteConfig);
    launch.step(LaunchEvent::ConfigWritten(true));
    assert_eq!(launch.step(LaunchEvent::Line("V2Ray 4.27.0 started")), LaunchAction::Spawn);
    assert_eq!(launch.phase(), LaunchPhase::Spawning);
}

#[test]
fn launches_get_different_config_names() {
    let app = app();
    assert_ne!(Launch::new(&app).config_name(), Launch::new(&app).config_name());
}

#[test]
fn teardown_kills_then_removes() {
    let mut teardown = Teardown::new(running("t"));
    assert_eq!(teardown.step(true), TeardownAction::Kill);
    assert_eq!(teardown.step(true), TeardownAction::RemoveConfig);
    assert_eq!(teardown.step(true), TeardownAction::Succeed);
    assert_eq!(teardown.step(false), TeardownAction::Succeed);
}

#[test]
fn teardown_removes_the_file_even_if_the_kill_failed() {
    let mut teardown = Teardown::new(running("t"));
    teardown.step(true);
    assert_eq!(teardown.step(false), TeardownAction::RemoveConfig);
    assert_eq!(
        teardown.step(true),
        TeardownAction::Fail(TeardownError { kill_failed: true, cleanup_failed: false })
    );
}

#[test]
fn teardown_reports_both_failures() {
    let mut teardown = Teardown::new(running("t"));
    teardown.step(false);
    teardown.step(false);
    assert_eq!(
        teardown.step(false),
        TeardownAction::Fail(TeardownError { kill_failed: true, cleanup_failed: true })
    );
}

#[test]
fn stop_outcome_names_each_failed_step() {
    assert_eq!(stop_outcome(true, true), Ok(()));
    assert_eq!(
        stop_outcome(true, false),
        Err(TeardownError { kill_failed: false, cleanup_failed: true })
    );
    assert_eq!(
        stop_outcome(false, true),
        Err(TeardownError { kill_failed: true, cleanup_failed: false })
    );
    assert_eq!(
        stop_outcome(false, false),
        Err(TeardownError { kill_failed: true, cleanup_failed: true })
    );
}

#[test]
fn controller_begins_launch_and_teardown() {
    let app = app();
    let mut launch = app.start();
    assert_eq!(launch.phase(), LaunchPhase::Fresh);
    assert!(launch.config_name().starts_with("v2ray-maid-running-"));
    assert_eq!(launch.step(LaunchEvent::Begin), LaunchAction::WriteConfig);
    launch.step(LaunchEvent::ConfigWritten(true));
    launch.step(LaunchEvent::Spawned(true));
    launch.step(LaunchEvent::Line("V2Ray 4.27.0 started"));
    let name = launch.config_name().to_string();
    let process = launch.into_process().unwrap();
    assert_eq!(process.config_name(), name);
    let mut teardown = app.stop(process);
    assert_eq!(teardown.config_name(), name);
    assert_eq!(teardown.phase(), TeardownPhase::Fresh);
    assert_eq!(teardown.step(true), TeardownAction::Kill);
    assert_eq!(teardown.step(true), TeardownAction::RemoveConfig);
    assert_eq!(teardown.config_name(), name);
}

#[test]
fn stop_tears_down_the_process_it_is_given() {
    let app = app();
    let first = app.stop(running("one"));
    let second = app.stop(running("two"));
    assert_eq!(first.config_name(), "v2ray-maid-running-one.json");
    assert_eq!(second.config_name(), "v2ray-maid-running-two.json");
}

#[test]
fn only_a_ready_launch_hands_out_a_process() {
    let app = app();
    assert!(Launch::with_suffix(&app, "a").into_process().is_none());
    let mut launch = Launch::with_suffix(&app, "b");
    launch.step(LaunchEvent::Begin);
    launch.step(LaunchEvent::ConfigWritten(true));
    launch.step(LaunchEvent::Spawned(true));
    assert!(launch.into_process().is_none());
    let mut launch = Launch::with_suffix(&app, "c");
    launch.step(LaunchEvent::Begin);
    launch.step(LaunchEvent::ConfigWritten(true));
    launch.step(LaunchEvent::Spawned(true));
    launch.step(LaunchEvent::Expired);
    launch.step(LaunchEvent::CleanedUp);
    assert!(launch.into_process().is_none());
    assert_eq!(running("d").config_name(), "v2ray-maid-running-d.json");
}

#[test]
fn teardown_keeps_its_file_through_every_step() {
    let mut teardown = Teardown::new(running("keep"));
    for ok in [true, false, true, true] {
        teardown.step(ok);
        assert_eq!(teardown.config_name(), "v2ray-maid-running-keep.json");
    }
    assert_eq!(teardown.phase(), TeardownPhase::Finished(false, true));
}
