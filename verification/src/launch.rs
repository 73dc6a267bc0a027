//! How the ComfyUI process is started and stopped, and where its web UI is.
use vstd::prelude::*;

use crate::config::Config;
use crate::paths::{JoinedPath, PathView};
use crate::state::{texts, COMFY_URL};
use crate::text::{
    decimal, decimal_reads_back, decimal_string, is_canonical_numeral, numeral_value, same_text,
};

verus! {

#[verifier::external_type_specification]
#[verifier::external_body]
pub struct ExUrl(url::Url);

#[verifier::external_type_specification]
#[verifier::external_body]
pub struct ExUrlParseError(url::ParseError);

/// A name for whether `url::Url::parse` accepts `input` as an absolute URL.
pub uninterp spec fn url_parses(input: Seq<char>) -> bool;

/// A name for the URL that `url::Url::parse` builds from `input` when it
/// succeeds (it parses with no base URL and no other options, so the result
/// depends on the input alone).
pub uninterp spec fn parsed_url(input: Seq<char>) -> url::Url;

/// Parses an absolute URL: calls `url::Url::parse` and claims only that it
/// succeeds exactly when [`url_parses`] holds of the input, and that the URL
/// it gives is then [`parsed_url`] of the input.
#[verifier::external_body]
fn parse_url(input: &str) -> (r: Result<url::Url, url::ParseError>)
    ensures
        r is Ok <==> url_parses(input@),
        r matches Ok(u) ==> u == parsed_url(input@),
{
    url::Url::parse(input)
}

/// The address of ComfyUI's web UI, for navigating the main window to it.
pub fn comfy_url() -> (r: Option<url::Url>)
    ensures
        r is Some <==> url_parses(COMFY_URL@),
        r matches Some(u) ==> u == parsed_url(COMFY_URL@),
{
    match parse_url(COMFY_URL) {
        Ok(u) => Some(u),
        Err(_) => None,
    }
}

/// Everything needed to spawn ComfyUI for a configuration.
#[derive(Debug, Clone, PartialEq)]
pub struct LaunchSpec {
    /// The interpreter to run.
    pub program: JoinedPath,
    /// The directory to run it in.
    pub working_dir: String,
    /// Interpreter flags, before the script.
    pub interpreter_args: Vec<String>,
    /// The script to run.
    pub script: JoinedPath,
    /// Script flags, after the script.
    pub script_args: Vec<String>,
    /// The directory appended to the child's `PATH`.
    pub path_addition: JoinedPath,
    /// Further environment variables for the child.
    pub env: Vec<(String, String)>,
}

/// The texts of a list of name/value pairs.
pub open spec fn pair_texts(v: Seq<(String, String)>) -> Seq<(Seq<char>, Seq<char>)> {
    v.map_values(|p: (String, String)| (p.0@, p.1@))
}

/// How ComfyUI is spawned for `config`: its embedded interpreter, in the
/// root directory, isolated from user site packages (`-s`), running
/// `main.py` as a standalone build without opening a browser or the API
/// nodes, with SoX on the `PATH` and UTF-8 forced for Python's output.
pub open spec fn launch_of(config: Config) -> (
    PathView,
    Seq<char>,
    Seq<Seq<char>>,
    PathView,
    Seq<Seq<char>>,
    PathView,
    Seq<(Seq<char>, Seq<char>)>,
) {
    (
        config.under_root(seq!["python_embeded"@, "python.exe"@]),
        config.root_path@,
        seq!["-s"@],
        config.under_root(seq!["ComfyUI"@, "main.py"@]),
        seq!["--windows-standalone-build"@, "--disable-auto-launch"@, "--disable-api-nodes"@],
        config.under_root(seq!["ComfyUI"@, "sox"@]),
        seq![("PYTHONUTF8"@, "1"@), ("PYTHONIOENCODING"@, "utf-8"@)],
    )
}

/// How ComfyUI is spawned for `config`.
pub fn launch_spec(config: &Config) -> (r: LaunchSpec)
    ensures
        (r.program@, r.working_dir@, texts(r.interpreter_args@), r.script@, texts(
            r.script_args@,
        ), r.path_addition@, pair_texts(r.env@)) == launch_of(*config),
{
    let mut interpreter_args: Vec<String> = Vec::new();
    interpreter_args.push("-s".to_owned());
    let mut script_args: Vec<String> = Vec::new();
    script_args.push("--windows-standalone-build".to_owned());
    script_args.push("--disable-auto-launch".to_owned());
    script_args.push("--disable-api-nodes".to_owned());
    let mut env: Vec<(String, String)> = Vec::new();
    env.push(("PYTHONUTF8".to_owned(), "1".to_owned()));
    env.push(("PYTHONIOENCODING".to_owned(), "utf-8".to_owned()));
    let r = LaunchSpec {
        program: config.python_exe(),
        working_dir: config.root_path.clone(),
        interpreter_args,
        script: config.main_py(),
        script_args,
        path_addition: config.sox_dir(),
        env,
    };
    assert(texts(r.interpreter_args@) =~= seq!["-s"@]);
    assert(texts(r.script_args@) =~= seq![
        "--windows-standalone-build"@,
        "--disable-auto-launch"@,
        "--disable-api-nodes"@,
    ]);
    assert(pair_texts(r.env@) =~= seq![("PYTHONUTF8"@, "1"@), ("PYTHONIOENCODING"@, "utf-8"@)]);
    r
}

/// The arguments of `taskkill` that force-end process `pid` and all of its
/// children.
pub open spec fn kill_tree_args_of(pid: u32) -> Seq<Seq<char>> {
    seq!["/PID"@, decimal(pid as nat), "/T"@, "/F"@]
}

/// The arguments of `taskkill` that force-end process `pid` and all of its
/// children.
pub fn kill_tree_args(pid: u32) -> (r: Vec<String>)
    ensures
        texts(r@) == kill_tree_args_of(pid),
{
    let mut r: Vec<String> = Vec::new();
    r.push("/PID".to_owned());
    r.push(decimal_string(pid as u64));
    r.push("/T".to_owned());
    r.push("/F".to_owned());
    assert(texts(r@) =~= kill_tree_args_of(pid));
    r
}

/// Law: `taskkill` is asked to end exactly process `pid` (written as a
/// canonical decimal numeral that reads back as `pid`), with its whole tree
/// (`/T`) and by force (`/F`).
pub proof fn kill_tree_args_name_the_process(pid: u32)
    ensures
        kill_tree_args_of(pid).len() == 4,
        kill_tree_args_of(pid)[0] == "/PID"@,
        is_canonical_numeral(kill_tree_args_of(pid)[1]),
        numeral_value(kill_tree_args_of(pid)[1]) == pid,
        kill_tree_args_of(pid)[2] == "/T"@,
        kill_tree_args_of(pid)[3] == "/F"@,
{
    decimal_reads_back(pid as nat);
}

/// Law: ComfyUI is spawned from the configured install: its embedded
/// interpreter, isolated from user site packages, runs `ComfyUI/main.py`
/// from the root directory without opening a browser, with the install's
/// SoX on the `PATH` and Python's output in UTF-8.
pub proof fn launch_runs_the_configured_install(c: Config)
    ensures
        launch_of(c).0 == c.under_root(seq!["python_embeded"@, "python.exe"@]),
        launch_of(c).1 == c.root_path@,
        launch_of(c).2 == seq!["-s"@],
        launch_of(c).3 == c.under_root(seq!["ComfyUI"@, "main.py"@]),
        launch_of(c).4.contains("--disable-auto-launch"@),
        launch_of(c).4.contains("--windows-standalone-build"@),
        launch_of(c).4.contains("--disable-api-nodes"@),
        launch_of(c).4.len() == 3,
        launch_of(c).5 == c.under_root(seq!["ComfyUI"@, "sox"@]),
        launch_of(c).6.contains(("PYTHONUTF8"@, "1"@)),
        launch_of(c).6.contains(("PYTHONIOENCODING"@, "utf-8"@)),
        launch_of(c).6.len() == 2,
{
    assert(launch_of(c).4[1] == "--disable-auto-launch"@);
    assert(launch_of(c).4[0] == "--windows-standalone-build"@);
    assert(launch_of(c).4[2] == "--disable-api-nodes"@);
    assert(launch_of(c).6[0] == ("PYTHONUTF8"@, "1"@));
    assert(launch_of(c).6[1] == ("PYTHONIOENCODING"@, "utf-8"@));
}

/// How many times the main window's address is read before giving up.
pub const HOME_POLL_ATTEMPTS: u32 = 100;

/// What to do after reading the main window's address.
pub enum HomePoll {
    /// The address is the launcher page: remember it.
    Keep,
    /// Not there yet: wait and read again.
    Retry,
    /// Not there after the last attempt: stop.
    GiveUp,
}

/// The page a window shows before its first navigation.
pub open spec fn blank_page() -> Seq<char> {
    "about:blank"@
}

/// Decides on attempt `attempt` (counting from 0), having read `current`
/// (`None` when it could not be read): keep a real address, else retry
/// until [`HOME_POLL_ATTEMPTS`] attempts are used up.
pub fn home_poll_step(attempt: u32, current: Option<&str>) -> (r: HomePoll)
    ensures
        r is Keep <==> (current matches Some(u) && u@ != blank_page()),
        r is GiveUp <==> (!(current matches Some(u) && u@ != blank_page()) && attempt + 1
            >= HOME_POLL_ATTEMPTS),
{
    if let Some(u) = current {
        if !same_text(u, "about:blank") {
            return HomePoll::Keep;
        }
    }
    if attempt >= HOME_POLL_ATTEMPTS - 1 {
        HomePoll::GiveUp
    } else {
        HomePoll::Retry
    }
}

} // verus!
