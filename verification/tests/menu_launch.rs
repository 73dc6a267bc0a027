use comfyui_launcher::config::Config;
use comfyui_launcher::launch::{comfy_url, home_poll_step, kill_tree_args, launch_spec, HomePoll};
use comfyui_launcher::menu::{menu_command, update_notice, MenuCommand, NoticeKind};
use comfyui_launcher::nodes::ActionResult;
use comfyui_launcher::state::COMFY_URL;

const ALL: [MenuCommand; 9] = [
    MenuCommand::StartRestart,
    MenuCommand::ReloadPage,
    MenuCommand::UpdateComfyui,
    MenuCommand::ManageNodes,
    MenuCommand::OpenComfyuiDir,
    MenuCommand::OpenNodesDir,
    MenuCommand::OpenOutputDir,
    MenuCommand::OpenModelsDir,
    MenuCommand::Settings,
];

#[test]
fn every_menu_item_dispatches_its_command() {
    for c in ALL {
        assert_eq!(menu_command(c.id()), Some(c));
    }
}

#[test]
fn unknown_menu_ids_are_ignored() {
    assert_eq!(menu_command("quit"), None);
    assert_eq!(menu_command(""), None);
    assert_eq!(menu_command("settings "), None);
}

#[test]
fn menu_ids_labels_and_folders() {
    assert_eq!(MenuCommand::StartRestart.id(), "start_restart");
    assert_eq!(MenuCommand::StartRestart.label(), "启动/重启");
    assert_eq!(MenuCommand::UpdateComfyui.label(), "更新 ComfyUI 代码");
    assert_eq!(MenuCommand::OpenComfyuiDir.folder_kind(), Some("comfyui"));
    assert_eq!(MenuCommand::OpenNodesDir.folder_kind(), Some("custom_nodes"));
    assert_eq!(MenuCommand::OpenOutputDir.folder_kind(), Some("output"));
    assert_eq!(MenuCommand::OpenModelsDir.folder_kind(), Some("models"));
    assert_eq!(MenuCommand::Settings.folder_kind(), None);
}

#[test]
fn update_notice_kinds() {
    let ok = update_notice(Ok(ActionResult { success: true, message: "已是最新".to_string() }));
    assert_eq!((ok.kind, ok.message.as_str()), (NoticeKind::Info, "已是最新"));
    let bad = update_notice(Ok(ActionResult { success: false, message: "conflict".to_string() }));
    assert_eq!((bad.kind, bad.message.as_str()), (NoticeKind::Error, "conflict"));
    let err = update_notice(Err("ComfyUI 不是一个 git 仓库".to_string()));
    assert_eq!((err.kind, err.message.as_str()), (NoticeKind::Error, "ComfyUI 不是一个 git 仓库"));
}

#[test]
fn comfy_url_parses() {
    let u = comfy_url().expect("the ComfyUI address parses");
    assert_eq!(u.as_str(), COMFY_URL);
    assert_eq!(u.port(), Some(8188));
}

#[test]
fn kill_arguments_name_the_process_tree() {
    assert_eq!(kill_tree_args(4242), vec!["/PID", "4242", "/T", "/F"]);
    assert_eq!(kill_tree_args(0), vec!["/PID", "0", "/T", "/F"]);
    assert_eq!(kill_tree_args(u32::MAX), vec!["/PID", "4294967295", "/T", "/F"]);
}

#[test]
fn launch_spec_for_portable_install() {
    let spec = launch_spec(&Config { root_path: "D:\\c".to_string() });
    assert_eq!(spec.program.base, "D:\\c");
    assert_eq!(spec.program.parts, vec!["python_embeded", "python.exe"]);
    assert_eq!(spec.working_dir, "D:\\c");
    assert_eq!(spec.interpreter_args, vec!["-s"]);
    assert_eq!(spec.script.parts, vec!["ComfyUI", "main.py"]);
    assert_eq!(
        spec.script_args,
        vec!["--windows-standalone-build", "--disable-auto-launch", "--disable-api-nodes"]
    );
    assert_eq!(spec.path_addition.parts, vec!["ComfyUI", "sox"]);
    assert_eq!(
        spec.env,
        vec![
            ("PYTHONUTF8".to_string(), "1".to_string()),
            ("PYTHONIOENCODING".to_string(), "utf-8".to_string())
        ]
    );
}

#[test]
fn home_poll_keeps_real_address() {
    assert!(matches!(home_poll_step(0, Some("http://tauri.localhost/")), HomePoll::Keep));
    assert!(matches!(home_poll_step(99, Some("http://localhost:1420/")), HomePoll::Keep));
}

#[test]
fn home_poll_retries_then_gives_up() {
    assert!(matches!(home_poll_step(0, Some("about:blank")), HomePoll::Retry));
    assert!(matches!(home_poll_step(98, None), HomePoll::Retry));
    assert!(matches!(home_poll_step(99, None), HomePoll::GiveUp));
    assert!(matches!(home_poll_step(99, Some("about:blank")), HomePoll::GiveUp));
}

#[test]
fn open_commands_name_folders_the_config_knows() {
    let c = Config { root_path: "R".to_string() };
    for cmd in [MenuCommand::OpenNodesDir, MenuCommand::OpenOutputDir, MenuCommand::OpenModelsDir] {
        assert!(c.folder(cmd.folder_kind().unwrap()).is_ok());
    }
    assert_eq!(
        c.folder(MenuCommand::OpenComfyuiDir.folder_kind().unwrap()).unwrap_err(),
        "未知的目录类型: comfyui"
    );
}
