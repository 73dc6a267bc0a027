use comfyui_launcher::restart::{Restart, RestartPhase, StartAction, StartEvent};
use comfyui_launcher::state::{ComfyProcess, ComfyStatus, COMFY_URL};

fn failed_message(s: &ComfyStatus) -> String {
    match s {
        ComfyStatus::Failed { message, .. } => message.clone(),
        other => panic!("not failed: {:?}", other),
    }
}

#[test]
fn first_start_shows_starting_then_probes() {
    let mut p = ComfyProcess::new();
    let mut r = Restart::new();
    assert_eq!(r.step(&mut p, StartEvent::Begin), StartAction::ShowStatusThenProbe);
    assert_eq!(p.status, ComfyStatus::Starting);
    assert_eq!(p.generation, 1);
    assert_eq!(r.phase, RestartPhase::Probing);
}

#[test]
fn restart_kills_tree_then_goes_home_before_starting() {
    let mut p = ComfyProcess::new();
    let mut first = Restart::new();
    first.step(&mut p, StartEvent::Begin);
    first.step(&mut p, StartEvent::Probed { responding: false });
    first.step(&mut p, StartEvent::ConfigChecked { problem: None });
    assert_eq!(first.step(&mut p, StartEvent::Spawned { pid: Some(77) }), StartAction::Watch { generation: 1 });
    assert!(p.mark_ready(1));

    let mut r = Restart::new();
    assert_eq!(r.step(&mut p, StartEvent::Begin), StartAction::KillTree { pid: 77 });
    assert_eq!(p.pid, None);
    assert_eq!(p.generation, 1);
    assert_eq!(r.step(&mut p, StartEvent::TreeKilled), StartAction::NavigateHome);
    assert_eq!(p.generation, 2);
    assert_eq!(p.status, ComfyStatus::Ready { url: COMFY_URL.to_string() });
    assert_eq!(r.step(&mut p, StartEvent::HomeShown), StartAction::ShowStatusThenProbe);
    assert_eq!(p.status, ComfyStatus::Starting);
}

#[test]
fn answering_server_is_adopted_and_never_spawned() {
    let mut p = ComfyProcess::new();
    let mut r = Restart::new();
    r.step(&mut p, StartEvent::Begin);
    assert_eq!(r.step(&mut p, StartEvent::Probed { responding: true }), StartAction::ShowStatusThenOpenComfy);
    assert_eq!(p.status, ComfyStatus::Ready { url: COMFY_URL.to_string() });
    assert_eq!(r.phase, RestartPhase::Done);
    assert_eq!(r.step(&mut p, StartEvent::ConfigChecked { problem: None }), StartAction::Ignore);
    assert_eq!(r.step(&mut p, StartEvent::Spawned { pid: Some(1) }), StartAction::Ignore);
    assert_eq!(p.pid, None);
}

#[test]
fn superseded_adoption_finishes_quietly() {
    let mut p = ComfyProcess::new();
    let mut r = Restart::new();
    r.step(&mut p, StartEvent::Begin);
    p.begin_attempt();
    assert_eq!(r.step(&mut p, StartEvent::Probed { responding: true }), StartAction::Finish);
    assert_eq!(p.status, ComfyStatus::Starting);
}

#[test]
fn bad_config_opens_settings() {
    let mut p = ComfyProcess::new();
    let mut r = Restart::new();
    r.step(&mut p, StartEvent::Begin);
    assert_eq!(r.step(&mut p, StartEvent::Probed { responding: false }), StartAction::CheckConfig);
    let action = r.step(&mut p, StartEvent::ConfigChecked { problem: Some("缺少".to_string()) });
    assert_eq!(action, StartAction::ShowStatusThenOpenSettings);
    assert_eq!(failed_message(&p.status), "尚未正确配置 ComfyUI 目录：缺少");
    assert_eq!(r.phase, RestartPhase::Done);
}

#[test]
fn spawn_failure_is_shown() {
    let mut p = ComfyProcess::new();
    let mut r = Restart::new();
    r.step(&mut p, StartEvent::Begin);
    r.step(&mut p, StartEvent::Probed { responding: false });
    assert_eq!(r.step(&mut p, StartEvent::ConfigChecked { problem: None }), StartAction::Spawn);
    assert_eq!(r.step(&mut p, StartEvent::SpawnFailed { error: "not found".to_string() }), StartAction::ShowStatus);
    assert_eq!(failed_message(&p.status), "无法启动 ComfyUI 进程: not found");
}

#[test]
fn events_out_of_order_are_ignored() {
    let mut p = ComfyProcess::new();
    let mut r = Restart::new();
    assert_eq!(r.step(&mut p, StartEvent::Probed { responding: true }), StartAction::Ignore);
    assert_eq!(r.step(&mut p, StartEvent::TreeKilled), StartAction::Ignore);
    assert_eq!(r.phase, RestartPhase::Begin);
    assert_eq!(p.generation, 0);
    assert!(r.begins_attempt(&p, &StartEvent::Begin));
    assert!(!r.begins_attempt(&p, &StartEvent::HomeShown));
}

#[test]
fn next_sequence_kills_the_child_of_the_previous_one() {
    let mut p = ComfyProcess::new();
    let mut a = Restart::new();
    a.step(&mut p, StartEvent::Begin);
    a.step(&mut p, StartEvent::Probed { responding: false });
    a.step(&mut p, StartEvent::ConfigChecked { problem: None });
    a.step(&mut p, StartEvent::Spawned { pid: Some(9) });
    assert_eq!(p.pid, Some(9));
    let mut b = Restart::new();
    assert_eq!(b.step(&mut p, StartEvent::Begin), StartAction::KillTree { pid: 9 });
    assert_eq!(p.pid, None);
    b.step(&mut p, StartEvent::TreeKilled);
    assert_eq!(b.generation, a.generation + 1);
    assert_eq!(p.generation, a.generation + 1);
    assert_eq!(p.pid, None);
}
