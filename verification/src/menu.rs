//! The launcher's File menu: its commands, how a clicked item is dispatched
//! and how the result of updating ComfyUI is reported.
use vstd::prelude::*;

use crate::config::Config;
use crate::nodes::ActionResult;
use crate::text::same_text;

verus! {

/// A command of the File menu.
#[derive(Clone, Copy, Debug, PartialEq, Eq, Structural)]
pub enum MenuCommand {
    StartRestart,
    ReloadPage,
    UpdateComfyui,
    ManageNodes,
    OpenComfyuiDir,
    OpenNodesDir,
    OpenOutputDir,
    OpenModelsDir,
    Settings,
}

impl MenuCommand {
    /// The id of the menu item for this command.
    pub open spec fn id_text(self) -> Seq<char> {
        match self {
            MenuCommand::StartRestart => "start_restart"@,
            MenuCommand::ReloadPage => "reload_page"@,
            MenuCommand::UpdateComfyui => "update_comfyui"@,
            MenuCommand::ManageNodes => "manage_nodes"@,
            MenuCommand::OpenComfyuiDir => "open_comfyui_dir"@,
            MenuCommand::OpenNodesDir => "open_nodes_dir"@,
            MenuCommand::OpenOutputDir => "open_output_dir"@,
            MenuCommand::OpenModelsDir => "open_models_dir"@,
            MenuCommand::Settings => "settings"@,
        }
    }

    /// The label of the menu item for this command.
    pub open spec fn label_text(self) -> Seq<char> {
        match self {
            MenuCommand::StartRestart => "启动/重启"@,
            MenuCommand::ReloadPage => "刷新页面"@,
            MenuCommand::UpdateComfyui => "更新 ComfyUI 代码"@,
            MenuCommand::ManageNodes => "自定义节点管理"@,
            MenuCommand::OpenComfyuiDir => "ComfyUI 目录"@,
            MenuCommand::OpenNodesDir => "自定义节点目录"@,
            MenuCommand::OpenOutputDir => "输出目录"@,
            MenuCommand::OpenModelsDir => "模型目录"@,
            MenuCommand::Settings => "设置"@,
        }
    }

    /// The folder kind an "open" command asks for.
    pub open spec fn folder_kind_text(self) -> Option<Seq<char>> {
        match self {
            MenuCommand::OpenComfyuiDir => Some("comfyui"@),
            MenuCommand::OpenNodesDir => Some("custom_nodes"@),
            MenuCommand::OpenOutputDir => Some("output"@),
            MenuCommand::OpenModelsDir => Some("models"@),
            _ => None,
        }
    }

    /// The id of the menu item for this command.
    pub fn id(&self) -> (r: &'static str)
        ensures
            r@ == self.id_text(),
    {
        match self {
            MenuCommand::StartRestart => "start_restart",
            MenuCommand::ReloadPage => "reload_page",
            MenuCommand::UpdateComfyui => "update_comfyui",
            MenuCommand::ManageNodes => "manage_nodes",
            MenuCommand::OpenComfyuiDir => "open_comfyui_dir",
            MenuCommand::OpenNodesDir => "open_nodes_dir",
            MenuCommand::OpenOutputDir => "open_output_dir",
            MenuCommand::OpenModelsDir => "open_models_dir",
            MenuCommand::Settings => "settings",
        }
    }

    /// The label of the menu item for this command.
    pub fn label(&self) -> (r: &'static str)
        ensures
            r@ == self.label_text(),
    {
        match self {
            MenuCommand::StartRestart => "启动/重启",
            MenuCommand::ReloadPage => "刷新页面",
            MenuCommand::UpdateComfyui => "更新 ComfyUI 代码",
            MenuCommand::ManageNodes => "自定义节点管理",
            MenuCommand::OpenComfyuiDir => "ComfyUI 目录",
            MenuCommand::OpenNodesDir => "自定义节点目录",
            MenuCommand::OpenOutputDir => "输出目录",
            MenuCommand::OpenModelsDir => "模型目录",
            MenuCommand::Settings => "设置",
        }
    }

    /// The folder kind an "open" command asks for; `None` for the others.
    pub fn folder_kind(&self) -> (r: Option<&'static str>)
        ensures
            match (r, self.folder_kind_text()) {
                (Some(k), Some(t)) => k@ == t,
                (None, None) => true,
                _ => false,
            },
    {
        match self {
            MenuCommand::OpenComfyuiDir => Some("comfyui"),
            MenuCommand::OpenNodesDir => Some("custom_nodes"),
            MenuCommand::OpenOutputDir => Some("output"),
            MenuCommand::OpenModelsDir => Some("models"),
            _ => None,
        }
    }
}

/// The command whose menu item has id `id`.
pub open spec fn command_for(id: Seq<char>) -> Option<MenuCommand> {
    if id == "start_restart"@ {
        Some(MenuCommand::StartRestart)
    } else if id == "reload_page"@ {
        Some(MenuCommand::ReloadPage)
    } else if id == "update_comfyui"@ {
        Some(MenuCommand::UpdateComfyui)
    } else if id == "manage_nodes"@ {
        Some(MenuCommand::ManageNodes)
    } else if id == "open_comfyui_dir"@ {
        Some(MenuCommand::OpenComfyuiDir)
    } else if id == "open_nodes_dir"@ {
        Some(MenuCommand::OpenNodesDir)
    } else if id == "open_output_dir"@ {
        Some(MenuCommand::OpenOutputDir)
    } else if id == "open_models_dir"@ {
        Some(MenuCommand::OpenModelsDir)
    } else if id == "settings"@ {
        Some(MenuCommand::Settings)
    } else {
        None
    }
}

/// The command for a clicked menu item; `None` for an id the launcher does
/// not know, which is ignored.
pub fn menu_command(id: &str) -> (r: Option<MenuCommand>)
    ensures
        r == command_for(id@),
{
    if same_text(id, "start_restart") {
        Some(MenuCommand::StartRestart)
    } else if same_text(id, "reload_page") {
        Some(MenuCommand::ReloadPage)
    } else if same_text(id, "update_comfyui") {
        Some(MenuCommand::UpdateComfyui)
    } else if same_text(id, "manage_nodes") {
        Some(MenuCommand::ManageNodes)
    } else if same_text(id, "open_comfyui_dir") {
        Some(MenuCommand::OpenComfyuiDir)
    } else if same_text(id, "open_nodes_dir") {
        Some(MenuCommand::OpenNodesDir)
    } else if same_text(id, "open_output_dir") {
        Some(MenuCommand::OpenOutputDir)
    } else if same_text(id, "open_models_dir") {
        Some(MenuCommand::OpenModelsDir)
    } else if same_text(id, "settings") {
        Some(MenuCommand::Settings)
    } else {
        None
    }
}

/// Law: clicking the item of any command dispatches that command.
pub proof fn menu_items_dispatch_their_command(c: MenuCommand)
    ensures
        command_for(c.id_text()) == Some(c),
{
    reveal_strlit("start_restart");
    reveal_strlit("reload_page");
    reveal_strlit("update_comfyui");
    reveal_strlit("manage_nodes");
    reveal_strlit("open_comfyui_dir");
    reveal_strlit("open_nodes_dir");
    reveal_strlit("open_output_dir");
    reveal_strlit("open_models_dir");
    reveal_strlit("settings");
    match c {
        MenuCommand::StartRestart => {
        },
        MenuCommand::ReloadPage => {
            assert("reload_page"@.len() != "start_restart"@.len());
        },
        MenuCommand::UpdateComfyui => {
            assert("update_comfyui"@.len() != "start_restart"@.len());
            assert("update_comfyui"@.len() != "reload_page"@.len());
        },
        MenuCommand::ManageNodes => {
            assert("manage_nodes"@.len() != "start_restart"@.len());
            assert("manage_nodes"@.len() != "reload_page"@.len());
            assert("manage_nodes"@.len() != "update_comfyui"@.len());
        },
        MenuCommand::OpenComfyuiDir => {
            assert("open_comfyui_dir"@.len() != "start_restart"@.len());
            assert("open_comfyui_dir"@.len() != "reload_page"@.len());
            assert("open_comfyui_dir"@.len() != "update_comfyui"@.len());
            assert("open_comfyui_dir"@.len() != "manage_nodes"@.len());
        },
        MenuCommand::OpenNodesDir => {
            assert("open_nodes_dir"@.len() != "start_restart"@.len());
            assert("open_nodes_dir"@.len() != "reload_page"@.len());
            assert("open_nodes_dir"@[0] != "update_comfyui"@[0]);
            assert("open_nodes_dir"@.len() != "manage_nodes"@.len());
            assert("open_nodes_dir"@.len() != "open_comfyui_dir"@.len());
        },
        MenuCommand::OpenOutputDir => {
            assert("open_output_dir"@.len() != "start_restart"@.len());
            assert("open_output_dir"@.len() != "reload_page"@.len());
            assert("open_output_dir"@.len() != "update_comfyui"@.len());
            assert("open_output_dir"@.len() != "manage_nodes"@.len());
            assert("open_output_dir"@.len() != "open_comfyui_dir"@.len());
            assert("open_output_dir"@.len() != "open_nodes_dir"@.len());
        },
        MenuCommand::OpenModelsDir => {
            assert("open_models_dir"@.len() != "start_restart"@.len());
            assert("open_models_dir"@.len() != "reload_page"@.len());
            assert("open_models_dir"@.len() != "update_comfyui"@.len());
            assert("open_models_dir"@.len() != "manage_nodes"@.len());
            assert("open_models_dir"@.len() != "open_comfyui_dir"@.len());
            assert("open_models_dir"@.len() != "open_nodes_dir"@.len());
            assert("open_models_dir"@[5] != "open_output_dir"@[5]);
        },
        MenuCommand::Settings => {
            assert("settings"@.len() != "start_restart"@.len());
            assert("settings"@.len() != "reload_page"@.len());
            assert("settings"@.len() != "update_comfyui"@.len());
            assert("settings"@.len() != "manage_nodes"@.len());
            assert("settings"@.len() != "open_comfyui_dir"@.len());
            assert("settings"@.len() != "open_nodes_dir"@.len());
            assert("settings"@.len() != "open_output_dir"@.len());
            assert("settings"@.len() != "open_models_dir"@.len());
        },
    }
}

/// Law: every "open" command other than the one for the ComfyUI directory
/// asks for a folder kind that [`Config::folder`] knows.
pub proof fn open_commands_name_known_folders(c: MenuCommand)
    requires
        c.folder_kind_text() is Some,
        c != MenuCommand::OpenComfyuiDir,
    ensures
        Config::folder_parts(c.folder_kind_text()->0) is Some,
{
}

/// Law: the label of each "open" command names the folder it opens.
pub proof fn labels_name_the_folders_they_open(c: MenuCommand)
    ensures
        c.folder_kind_text() == Some("output"@) ==> c.label_text() == "输出目录"@,
        c.folder_kind_text() == Some("models"@) ==> c.label_text() == "模型目录"@,
        c.folder_kind_text() == Some("custom_nodes"@) ==> c.label_text() == "自定义节点目录"@,
        c.folder_kind_text() == Some("comfyui"@) ==> c.label_text() == "ComfyUI 目录"@,
        c.folder_kind_text() is None ==> !(c.label_text() == "输出目录"@ || c.label_text()
            == "模型目录"@ || c.label_text() == "自定义节点目录"@ || c.label_text()
            == "ComfyUI 目录"@),
{
    reveal_strlit("output");
    reveal_strlit("models");
    reveal_strlit("custom_nodes");
    reveal_strlit("comfyui");
    assert("output"@[0] != "models"@[0]);
    assert("output"@.len() != "custom_nodes"@.len());
    assert("output"@.len() != "comfyui"@.len());
    assert("models"@.len() != "custom_nodes"@.len());
    assert("models"@.len() != "comfyui"@.len());
    assert("custom_nodes"@.len() != "comfyui"@.len());
    reveal_strlit("启动/重启");
    reveal_strlit("刷新页面");
    reveal_strlit("更新 ComfyUI 代码");
    reveal_strlit("自定义节点管理");
    reveal_strlit("ComfyUI 目录");
    reveal_strlit("自定义节点目录");
    reveal_strlit("输出目录");
    reveal_strlit("模型目录");
    reveal_strlit("设置");
    match c {
        MenuCommand::StartRestart | MenuCommand::UpdateComfyui | MenuCommand::ManageNodes | MenuCommand::Settings => {
            assert(c.label_text().len() != "输出目录"@.len() || c.label_text()[0] != "输出目录"@[0]);
            assert(c.label_text().len() != "模型目录"@.len() || c.label_text()[0] != "模型目录"@[0]);
            assert(c.label_text().len() != "自定义节点目录"@.len() || c.label_text()[5]
                != "自定义节点目录"@[5]);
            assert(c.label_text().len() != "ComfyUI 目录"@.len() || c.label_text()[0]
                != "ComfyUI 目录"@[0]);
        },
        MenuCommand::ReloadPage => {
            assert(c.label_text()[0] != "输出目录"@[0]);
            assert(c.label_text()[0] != "模型目录"@[0]);
            assert(c.label_text().len() != "自定义节点目录"@.len());
            assert(c.label_text().len() != "ComfyUI 目录"@.len());
        },
        _ => {},
    }
}

/// Law: each command is shown under its own wording in the File menu.
pub proof fn each_command_shows_its_wording(c: MenuCommand)
    ensures
        c == MenuCommand::StartRestart ==> c.label_text() == "启动/重启"@,
        c == MenuCommand::ReloadPage ==> c.label_text() == "刷新页面"@,
        c == MenuCommand::UpdateComfyui ==> c.label_text() == "更新 ComfyUI 代码"@,
        c == MenuCommand::ManageNodes ==> c.label_text() == "自定义节点管理"@,
        c == MenuCommand::OpenComfyuiDir ==> c.label_text() == "ComfyUI 目录"@,
        c == MenuCommand::OpenNodesDir ==> c.label_text() == "自定义节点目录"@,
        c == MenuCommand::OpenOutputDir ==> c.label_text() == "输出目录"@,
        c == MenuCommand::OpenModelsDir ==> c.label_text() == "模型目录"@,
        c == MenuCommand::Settings ==> c.label_text() == "设置"@,
{
}

/// How a notice is presented.
#[derive(Clone, Copy, Debug, PartialEq, Eq, Structural)]
pub enum NoticeKind {
    Info,
    Error,
}

/// A message to show the user in a dialog.
#[derive(Debug, Clone, PartialEq)]
pub struct Notice {
    pub kind: NoticeKind,
    pub message: String,
}

/// The notice after updating ComfyUI's code: informational on success,
/// an error otherwise, with the message of the outcome or the error.
pub fn update_notice(outcome: Result<ActionResult, String>) -> (r: Notice)
    ensures
        match outcome {
            Ok(a) => r.kind == (if a.success {
                NoticeKind::Info
            } else {
                NoticeKind::Error
            }) && r.message == a.message,
            Err(e) => r.kind == NoticeKind::Error && r.message == e,
        },
{
    match outcome {
        Ok(a) => {
            let kind = if a.success {
                NoticeKind::Info
            } else {
                NoticeKind::Error
            };
            Notice { kind, message: a.message }
        },
        Err(e) => Notice { kind: NoticeKind::Error, message: e },
    }
}

} // verus!
