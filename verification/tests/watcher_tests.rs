use launcher_core::data::DanserData;
use launcher_core::errors::AppProcessError;
use launcher_core::watcher::key_held_from_sample;
use launcher_core::watcher::interpret_key_state;
use launcher_core::watcher::plan_replay_watcher;
use launcher_core::watcher::render_decision;
use launcher_core::watcher::RenderInvocation;
use launcher_core::watcher::WatchEvent;
use launcher_core::watcher::WatchEventKind;
use launcher_core::watcher::WatchPlan;

fn renderer(enabled: bool) -> DanserData {
    DanserData {
        path: Some("R".to_string()),
        executable_name: Some("danser-cli.exe".to_string()),
        settings_name: Some("default".to_string()),
        osu_replays_path: Some("D".to_string()),
        download: false,
        source: None,
        enabled,
    }
}

fn plan() -> WatchPlan {
    WatchPlan {
        executable: "R/danser-cli.exe".to_string(),
        settings_name: "default".to_string(),
        replays_dir: "D".to_string(),
    }
}

#[test]
fn creation_with_key_held_issues_exactly_one_invocation() {
    let event = WatchEvent { kind: WatchEventKind::Create, path: "D/replay1.osr".to_string() };
    let decision = render_decision(&plan(), &event, true);
    let invocation: RenderInvocation = decision.expect("a creation with the key held renders");
    assert_eq!(invocation.executable, "R/danser-cli.exe");
    let args = invocation.command_line_args();
    assert_eq!(args.len(), 4);
    assert_eq!(args[0], "--out=replay1.osr");
    assert_eq!(args[1], "--settings=default");
    assert_eq!(args[2], "--replay=D/replay1.osr");
    assert_eq!(args[3], "--quickstart");
}

#[test]
fn creation_with_key_up_is_silently_ignored() {
    let event = WatchEvent { kind: WatchEventKind::Create, path: "D/replay1.osr".to_string() };
    assert!(render_decision(&plan(), &event, false).is_none());
}

#[test]
fn non_creation_events_are_ignored_even_with_key_held() {
    let event = WatchEvent { kind: WatchEventKind::Other, path: "D/replay1.osr".to_string() };
    assert!(render_decision(&plan(), &event, true).is_none());
}

#[test]
fn creation_without_a_file_name_is_ignored() {
    let event = WatchEvent { kind: WatchEventKind::Create, path: "D/".to_string() };
    assert!(render_decision(&plan(), &event, true).is_none());
}

#[test]
fn rapid_events_each_recheck_the_key() {
    let first = WatchEvent { kind: WatchEventKind::Create, path: "D/a.osr".to_string() };
    let second = WatchEvent { kind: WatchEventKind::Create, path: "D/a.osr".to_string() };
    // The same path delivered twice renders twice when the key stays held,
    // and not at all when it was released in between: no de-duplication.
    assert!(render_decision(&plan(), &first, true).is_some());
    assert!(render_decision(&plan(), &second, true).is_some());
    assert!(render_decision(&plan(), &second, false).is_none());
}

#[test]
fn watcher_refuses_a_disabled_renderer() {
    let r = plan_replay_watcher(&renderer(false), true);
    assert!(matches!(r, Err(AppProcessError::AppNotFound)));
}

#[test]
fn watcher_is_not_applicable_without_its_fields() {
    let mut missing_settings = renderer(true);
    missing_settings.settings_name = None;
    assert!(matches!(
        plan_replay_watcher(&missing_settings, true),
        Err(AppProcessError::AppNotFound)
    ));

    let mut missing_replays = renderer(true);
    missing_replays.osu_replays_path = None;
    assert!(matches!(
        plan_replay_watcher(&missing_replays, true),
        Err(AppProcessError::AppNotFound)
    ));

    let mut missing_exe = renderer(true);
    missing_exe.executable_name = None;
    assert!(matches!(plan_replay_watcher(&missing_exe, true), Err(AppProcessError::AppNotFound)));
}

#[test]
fn watcher_reports_an_absent_executable() {
    let r = plan_replay_watcher(&renderer(true), false);
    match r {
        Err(AppProcessError::AppLaunchError(m)) => assert_eq!(m, "Danser executable not found"),
        other => panic!("expected a launch error, got {:?}", other),
    }
}

#[test]
fn watcher_borrows_the_renderer_fields() {
    let p = plan_replay_watcher(&renderer(true), true).unwrap();
    assert_eq!(p.executable, "R/danser-cli.exe");
    assert_eq!(p.settings_name, "default");
    assert_eq!(p.replays_dir, "D");
}

#[test]
fn key_codes_outside_the_byte_range_are_invalid() {
    assert_eq!(interpret_key_state(-1, 0), Err("Invalid key code".to_string()));
    assert_eq!(interpret_key_state(256, 0), Err("Invalid key code".to_string()));
}

#[test]
fn key_state_sign_bit_means_held() {
    assert_eq!(interpret_key_state(0x52, 0), Ok(false));
    assert_eq!(interpret_key_state(0x52, 1), Ok(false));
    assert_eq!(interpret_key_state(0x52, -32768), Ok(true));
    assert_eq!(interpret_key_state(0, -1), Ok(true));
    assert_eq!(interpret_key_state(255, 4), Ok(false));
}

#[test]
fn failed_key_queries_count_as_not_held() {
    assert!(key_held_from_sample(&Ok(true)));
    assert!(!key_held_from_sample(&Ok(false)));
    assert!(!key_held_from_sample(&Err("Invalid key code".to_string())));
}
