use comfyui_launcher::config::{missing_folder_error, Config, InstallProbe};
use comfyui_launcher::paths::JoinedPath;

fn config(root: &str) -> Config {
    Config { root_path: root.to_string() }
}

fn parts(p: &JoinedPath) -> Vec<&str> {
    p.parts.iter().map(|s| s.as_str()).collect()
}

fn probe(python: bool, main: bool) -> InstallProbe {
    InstallProbe {
        python_exe_is_file: python,
        python_exe_shown: "D:\\c\\python_embeded\\python.exe".to_string(),
        main_py_is_file: main,
        main_py_shown: "D:\\c\\ComfyUI\\main.py".to_string(),
    }
}

#[test]
fn default_config_has_empty_root() {
    assert_eq!(Config::default().root_path, "");
}

#[test]
fn install_locations_are_joined_under_root() {
    let c = config("D:\\ComfyUI_windows_portable");
    let py = c.python_exe();
    assert_eq!(py.base, "D:\\ComfyUI_windows_portable");
    assert_eq!(parts(&py), vec!["python_embeded", "python.exe"]);
    assert_eq!(parts(&c.main_py()), vec!["ComfyUI", "main.py"]);
    assert_eq!(parts(&c.custom_nodes_dir()), vec!["ComfyUI", "custom_nodes"]);
    assert_eq!(parts(&c.output_dir()), vec!["ComfyUI", "output"]);
    assert_eq!(parts(&c.models_dir()), vec!["ComfyUI", "models"]);
    assert_eq!(parts(&c.sox_dir()), vec!["ComfyUI", "sox"]);
    assert_eq!(parts(&c.comfyui_dir()), vec!["ComfyUI"]);
    assert_eq!(parts(&c.node_dir("ComfyUI-Manager")), vec!["ComfyUI", "custom_nodes", "ComfyUI-Manager"]);
}

#[test]
fn join_appends_one_component() {
    let p = JoinedPath::new("/opt").join("a").join(".git");
    assert_eq!(p.base, "/opt");
    assert_eq!(parts(&p), vec!["a", ".git"]);
}

#[test]
fn validate_rejects_blank_root() {
    let err = config(" \t\u{3000} ").validate(&probe(true, true)).unwrap_err();
    assert_eq!(err, "尚未设置 ComfyUI 安装目录，请在设置中指定");
    let err = config("").validate(&probe(true, true)).unwrap_err();
    assert_eq!(err, "尚未设置 ComfyUI 安装目录，请在设置中指定");
}

#[test]
fn validate_rejects_missing_interpreter_first() {
    let err = config("D:\\c").validate(&probe(false, false)).unwrap_err();
    assert_eq!(err, "未找到 D:\\c\\python_embeded\\python.exe，请确认路径下存在 python_embeded\\python.exe");
}

#[test]
fn validate_rejects_missing_main_script() {
    let err = config("D:\\c").validate(&probe(true, false)).unwrap_err();
    assert_eq!(err, "未找到 D:\\c\\ComfyUI\\main.py，请确认路径下存在 ComfyUI\\main.py");
}

#[test]
fn validate_accepts_complete_install() {
    assert_eq!(config(" D:\\c ").validate(&probe(true, true)), Ok(()));
}

#[test]
fn folder_kinds_map_to_their_directories() {
    let c = config("R");
    assert_eq!(parts(&c.folder("custom_nodes").unwrap()), vec!["ComfyUI", "custom_nodes"]);
    assert_eq!(parts(&c.folder("output").unwrap()), vec!["ComfyUI", "output"]);
    assert_eq!(parts(&c.folder("models").unwrap()), vec!["ComfyUI", "models"]);
}

#[test]
fn unknown_folder_kind_is_an_error() {
    assert_eq!(config("R").folder("comfyui").unwrap_err(), "未知的目录类型: comfyui");
    assert_eq!(config("R").folder("").unwrap_err(), "未知的目录类型: ");
}

#[test]
fn missing_folder_message_names_the_path() {
    assert_eq!(missing_folder_error("D:\\x"), "目录不存在: D:\\x");
}
