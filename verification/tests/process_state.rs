use comfyui_launcher::state::{ComfyProcess, ComfyStatus, COMFY_URL, LOG_CAPACITY};

fn failed_parts(s: &ComfyStatus) -> (String, Vec<String>) {
    match s {
        ComfyStatus::Failed { message, log_tail } => (message.clone(), log_tail.clone()),
        other => panic!("not failed: {:?}", other),
    }
}

#[test]
fn new_process_is_stopped_and_empty() {
    let p = ComfyProcess::new();
    assert_eq!(p.pid, None);
    assert_eq!(p.status, ComfyStatus::Stopped);
    assert!(p.log.is_empty());
    assert_eq!(p.generation, 0);
}

#[test]
fn log_keeps_newest_lines_only() {
    let mut p = ComfyProcess::new();
    for i in 0..(LOG_CAPACITY + 3) {
        p.push_log(format!("line {i}"));
    }
    let tail = p.log_tail();
    assert_eq!(tail.len(), LOG_CAPACITY);
    assert_eq!(tail[0], "line 3");
    assert_eq!(tail[LOG_CAPACITY - 1], format!("line {}", LOG_CAPACITY + 2));
}

#[test]
fn log_below_capacity_keeps_everything() {
    let mut p = ComfyProcess::new();
    p.push_log("a".to_string());
    p.push_log("b".to_string());
    assert_eq!(p.log_tail(), vec!["a".to_string(), "b".to_string()]);
}

#[test]
fn first_attempt_does_not_navigate_home() {
    let mut p = ComfyProcess::new();
    p.push_log("old".to_string());
    let a = p.begin_attempt();
    assert_eq!(a.generation, 1);
    assert!(!a.navigate_home);
    assert_eq!(p.status, ComfyStatus::Stopped);
    assert!(p.log.is_empty());
    p.show_starting();
    assert_eq!(p.status, ComfyStatus::Starting);
    p.process_exited(a.generation, Some(1));
    let b = p.begin_attempt();
    assert_eq!(b.generation, 2);
    assert!(b.navigate_home);
    assert!(matches!(p.status, ComfyStatus::Failed { .. }));
}

#[test]
fn take_pid_hands_back_tracked_process() {
    let mut p = ComfyProcess::new();
    p.record_pid(Some(4242));
    assert_eq!(p.take_pid(), Some(4242));
    assert_eq!(p.pid, None);
    assert_eq!(p.take_pid(), None);
}

#[test]
fn adopting_running_server_becomes_ready() {
    let mut p = ComfyProcess::new();
    p.record_pid(Some(7));
    let a = p.begin_attempt();
    assert!(p.adopt_running(a.generation));
    assert_eq!(p.pid, None);
    assert_eq!(p.status, ComfyStatus::Ready { url: COMFY_URL.to_string() });
}

#[test]
fn stale_events_are_ignored() {
    let mut p = ComfyProcess::new();
    let first = p.begin_attempt();
    p.record_pid(Some(10));
    let second = p.begin_attempt();
    p.show_starting();
    assert!(!p.is_current(first.generation));
    assert!(p.is_current(second.generation));
    assert!(!p.accept_log_line(first.generation, "stale".to_string()));
    assert!(!p.mark_ready(first.generation));
    assert!(!p.process_exited(first.generation, Some(1)));
    assert!(!p.adopt_running(first.generation));
    assert!(p.log.is_empty());
    assert_eq!(p.status, ComfyStatus::Starting);
    assert_eq!(p.pid, Some(10));
}

#[test]
fn log_lines_of_current_attempt_are_kept() {
    let mut p = ComfyProcess::new();
    let a = p.begin_attempt();
    assert!(p.accept_log_line(a.generation, "hello".to_string()));
    assert_eq!(p.log_tail(), vec!["hello".to_string()]);
}

#[test]
fn ready_keeps_the_tracked_process() {
    let mut p = ComfyProcess::new();
    let a = p.begin_attempt();
    p.record_pid(Some(99));
    assert!(p.mark_ready(a.generation));
    assert_eq!(p.status, ComfyStatus::Ready { url: "http://127.0.0.1:8188/".to_string() });
    assert_eq!(p.pid, Some(99));
}

#[test]
fn exit_reports_code_and_log() {
    let mut p = ComfyProcess::new();
    let a = p.begin_attempt();
    p.record_pid(Some(99));
    p.accept_log_line(a.generation, "Traceback".to_string());
    assert!(p.process_exited(a.generation, Some(1)));
    assert_eq!(p.pid, None);
    let (message, tail) = failed_parts(&p.status);
    assert_eq!(message, "ComfyUI 进程已退出（退出码 1）");
    assert_eq!(tail, vec!["Traceback".to_string()]);
}

#[test]
fn exit_without_code_reports_minus_one() {
    let mut p = ComfyProcess::new();
    let a = p.begin_attempt();
    assert!(p.process_exited(a.generation, None));
    assert_eq!(failed_parts(&p.status).0, "ComfyUI 进程已退出（退出码 -1）");
}

#[test]
fn exit_code_extremes_are_printed_in_decimal() {
    let mut p = ComfyProcess::new();
    let a = p.begin_attempt();
    p.process_exited(a.generation, Some(i32::MIN));
    assert_eq!(failed_parts(&p.status).0, "ComfyUI 进程已退出（退出码 -2147483648）");
    let b = p.begin_attempt();
    p.process_exited(b.generation, Some(3221225786u32 as i32));
    assert_eq!(failed_parts(&p.status).0, "ComfyUI 进程已退出（退出码 -1073741510）");
    let c = p.begin_attempt();
    p.process_exited(c.generation, Some(0));
    assert_eq!(failed_parts(&p.status).0, "ComfyUI 进程已退出（退出码 0）");
}

#[test]
fn rejected_config_and_spawn_failure_messages() {
    let mut p = ComfyProcess::new();
    p.begin_attempt();
    p.reject_config("尚未设置");
    assert_eq!(failed_parts(&p.status), ("尚未正确配置 ComfyUI 目录：尚未设置".to_string(), vec![]));
    p.spawn_failed("os error 2");
    assert_eq!(failed_parts(&p.status), ("无法启动 ComfyUI 进程: os error 2".to_string(), vec![]));
}

#[test]
fn status_snapshot_is_a_copy() {
    let mut p = ComfyProcess::new();
    let a = p.begin_attempt();
    p.accept_log_line(a.generation, "x".to_string());
    p.process_exited(a.generation, Some(2));
    let s = p.get_status();
    assert_eq!(s, p.status);
}
