//! The launcher's configuration: where the portable ComfyUI install lives,
//! the locations inside it, and whether it looks usable.
use vstd::prelude::*;

use crate::paths::{JoinedPath, PathView};
use crate::text::{concat, concat3, same_text, trim, trim_ws};

verus! {

/// The launcher's configuration.
#[derive(Debug, Clone, PartialEq)]
pub struct Config {
    /// Root directory of the portable ComfyUI install.
    pub root_path: String,
}

impl Default for Config {
    fn default() -> (r: Config)
        ensures
            r.root_path@ == Seq::<char>::empty(),
    {
        Config { root_path: String::new() }
    }
}

/// What was found on disk for a configuration: whether its interpreter and
/// entry script are files, and how their paths are displayed.
#[derive(Debug, Clone, PartialEq)]
pub struct InstallProbe {
    pub python_exe_is_file: bool,
    pub python_exe_shown: String,
    pub main_py_is_file: bool,
    pub main_py_shown: String,
}

/// The message for a root directory that was never set.
pub open spec fn unset_root_message() -> Seq<char> {
    "尚未设置 ComfyUI 安装目录，请在设置中指定"@
}

/// The message for a missing interpreter shown as `shown`.
pub open spec fn missing_python_message(shown: Seq<char>) -> Seq<char> {
    "未找到 "@ + shown + "，请确认路径下存在 python_embeded\\python.exe"@
}

/// The message for a missing entry script shown as `shown`.
pub open spec fn missing_main_message(shown: Seq<char>) -> Seq<char> {
    "未找到 "@ + shown + "，请确认路径下存在 ComfyUI\\main.py"@
}

/// The message for a folder kind that the launcher does not know.
pub open spec fn unknown_folder_message(kind: Seq<char>) -> Seq<char> {
    "未知的目录类型: "@ + kind
}

/// The message for a folder that does not exist, shown as `shown`.
pub open spec fn missing_folder_message(shown: Seq<char>) -> Seq<char> {
    "目录不存在: "@ + shown
}

impl Config {
    /// The location `parts` under the root directory.
    pub open spec fn under_root(self, parts: Seq<Seq<char>>) -> PathView {
        PathView { base: self.root_path@, parts }
    }

    /// Why this configuration cannot start ComfyUI, given what `probe`
    /// found on disk; `None` when it can.
    pub open spec fn problem(self, probe: InstallProbe) -> Option<Seq<char>> {
        if trim_ws(self.root_path@).len() == 0 {
            Some(unset_root_message())
        } else if !probe.python_exe_is_file {
            Some(missing_python_message(probe.python_exe_shown@))
        } else if !probe.main_py_is_file {
            Some(missing_main_message(probe.main_py_shown@))
        } else {
            None
        }
    }

    /// The location of a folder the user can open by kind.
    pub open spec fn folder_parts(kind: Seq<char>) -> Option<Seq<Seq<char>>> {
        if kind == "custom_nodes"@ {
            Some(seq!["ComfyUI"@, "custom_nodes"@])
        } else if kind == "output"@ {
            Some(seq!["ComfyUI"@, "output"@])
        } else if kind == "models"@ {
            Some(seq!["ComfyUI"@, "models"@])
        } else {
            None
        }
    }

    fn under(&self, first: &str, second: &str) -> (r: JoinedPath)
        ensures
            r@ == self.under_root(seq![first@, second@]),
    {
        let r = JoinedPath::new(self.root_path.as_str()).join(first).join(second);
        assert(r@.parts =~= seq![first@, second@]);
        r
    }

    /// The ComfyUI source directory, `<root>/ComfyUI`.
    pub fn comfyui_dir(&self) -> (r: JoinedPath)
        ensures
            r@ == self.under_root(seq!["ComfyUI"@]),
    {
        let r = JoinedPath::new(self.root_path.as_str()).join("ComfyUI");
        assert(r@.parts =~= seq!["ComfyUI"@]);
        r
    }

    /// The embedded interpreter, `<root>/python_embeded/python.exe`.
    pub fn python_exe(&self) -> (r: JoinedPath)
        ensures
            r@ == self.under_root(seq!["python_embeded"@, "python.exe"@]),
    {
        self.under("python_embeded", "python.exe")
    }

    /// The entry script, `<root>/ComfyUI/main.py`.
    pub fn main_py(&self) -> (r: JoinedPath)
        ensures
            r@ == self.under_root(seq!["ComfyUI"@, "main.py"@]),
    {
        self.under("ComfyUI", "main.py")
    }

    /// The custom nodes directory, `<root>/ComfyUI/custom_nodes`.
    pub fn custom_nodes_dir(&self) -> (r: JoinedPath)
        ensures
            r@ == self.under_root(seq!["ComfyUI"@, "custom_nodes"@]),
    {
        self.under("ComfyUI", "custom_nodes")
    }

    /// The output directory, `<root>/ComfyUI/output`.
    pub fn output_dir(&self) -> (r: JoinedPath)
        ensures
            r@ == self.under_root(seq!["ComfyUI"@, "output"@]),
    {
        self.under("ComfyUI", "output")
    }

    /// The models directory, `<root>/ComfyUI/models`.
    pub fn models_dir(&self) -> (r: JoinedPath)
        ensures
            r@ == self.under_root(seq!["ComfyUI"@, "models"@]),
    {
        self.under("ComfyUI", "models")
    }

    /// The SoX directory added to the child's `PATH`, `<root>/ComfyUI/sox`.
    pub fn sox_dir(&self) -> (r: JoinedPath)
        ensures
            r@ == self.under_root(seq!["ComfyUI"@, "sox"@]),
    {
        self.under("ComfyUI", "sox")
    }

    /// The directory of the custom node `name`.
    pub fn node_dir(&self, name: &str) -> (r: JoinedPath)
        ensures
            r@ == self.under_root(seq!["ComfyUI"@, "custom_nodes"@, name@]),
    {
        let r = self.custom_nodes_dir().join(name);
        assert(r@.parts =~= seq!["ComfyUI"@, "custom_nodes"@, name@]);
        r
    }

    /// Checks that this configuration points at a usable portable install,
    /// given what `probe` found on disk: a root directory that is not blank,
    /// then the interpreter, then the entry script.
    pub fn validate(&self, probe: &InstallProbe) -> (r: Result<(), String>)
        ensures
            match r {
                Ok(_) => self.problem(*probe) is None,
                Err(e) => self.problem(*probe) == Some(e@),
            },
    {
        let trimmed = trim(self.root_path.as_str());
        if trimmed.as_str().is_empty() {
            return Err("尚未设置 ComfyUI 安装目录，请在设置中指定".to_owned());
        }
        if !probe.python_exe_is_file {
            return Err(
                concat3(
                    "未找到 ",
                    probe.python_exe_shown.as_str(),
                    "，请确认路径下存在 python_embeded\\python.exe",
                ),
            );
        }
        if !probe.main_py_is_file {
            return Err(
                concat3(
                    "未找到 ",
                    probe.main_py_shown.as_str(),
                    "，请确认路径下存在 ComfyUI\\main.py",
                ),
            );
        }
        Ok(())
    }

    /// The folder of kind `kind` (`custom_nodes`, `output` or `models`);
    /// an error naming any other kind.
    pub fn folder(&self, kind: &str) -> (r: Result<JoinedPath, String>)
        ensures
            match (r, Config::folder_parts(kind@)) {
                (Ok(p), Some(parts)) => p@ == self.under_root(parts),
                (Err(e), None) => e@ == unknown_folder_message(kind@),
                _ => false,
            },
    {
        if same_text(kind, "custom_nodes") {
            Ok(self.custom_nodes_dir())
        } else if same_text(kind, "output") {
            Ok(self.output_dir())
        } else if same_text(kind, "models") {
            Ok(self.models_dir())
        } else {
            Err(concat("未知的目录类型: ", kind))
        }
    }
}

/// Law: a root that is blank is rejected first, whatever is on disk.
pub proof fn blank_root_is_rejected(c: Config, probe: InstallProbe)
    requires
        trim_ws(c.root_path@).len() == 0,
    ensures
        c.problem(probe) == Some("尚未设置 ComfyUI 安装目录，请在设置中指定"@),
{
}

/// Law: with a root that is not blank, a missing interpreter is always
/// reported, whether or not the entry script is there.
pub proof fn missing_interpreter_is_rejected(c: Config, probe: InstallProbe)
    requires
        trim_ws(c.root_path@).len() > 0,
        !probe.python_exe_is_file,
    ensures
        c.problem(probe) == Some(
            "未找到 "@ + probe.python_exe_shown@ + "，请确认路径下存在 python_embeded\\python.exe"@,
        ),
{
}

/// Law: with a root that is not blank and the interpreter in place, a
/// missing entry script is reported.
pub proof fn missing_entry_script_is_rejected(c: Config, probe: InstallProbe)
    requires
        trim_ws(c.root_path@).len() > 0,
        probe.python_exe_is_file,
        !probe.main_py_is_file,
    ensures
        c.problem(probe) == Some(
            "未找到 "@ + probe.main_py_shown@ + "，请确认路径下存在 ComfyUI\\main.py"@,
        ),
{
}

/// Law: an install is accepted exactly when its root is not blank and both
/// the interpreter and the entry script are files.
pub proof fn accepted_only_when_complete(c: Config, probe: InstallProbe)
    ensures
        c.problem(probe) is None <==> (trim_ws(c.root_path@).len() > 0 && probe.python_exe_is_file
            && probe.main_py_is_file),
{
}

/// Law: the folder of each known kind is the directory of that name inside
/// `ComfyUI`, and only `custom_nodes`, `output` and `models` are known.
pub proof fn folder_of_kind_is_named_after_it(kind: Seq<char>)
    ensures
        Config::folder_parts(kind) is Some <==> (kind == "custom_nodes"@ || kind == "output"@
            || kind == "models"@),
        Config::folder_parts(kind) matches Some(parts) ==> parts == seq!["ComfyUI"@, kind],
{
}

/// The error for a folder that does not exist on disk, shown as `shown`.
pub fn missing_folder_error(shown: &str) -> (r: String)
    ensures
        r@ == missing_folder_message(shown@),
{
    concat("目录不存在: ", shown)
}

} // verus!
