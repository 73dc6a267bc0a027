//! Custom nodes: what a node directory looks like to the launcher, how git
//! output is read, and how pulls and clones are reported.
use vstd::prelude::*;

use crate::text::{
    before_first, before_first_bound, chars_of, concat, concat3, decode_lossy, starts_with,
    starts_with_at, string_of, trim, trim_ws, utf8_lossy, after_last, after_last_bound,
    ends_with, strip_end_char, strip_end_char_bound, strip_end_seq, strip_end_seq_bound,
    trim_bounds, first_word, skip_white_space, word_end, is_white_space, trim_start_ws,
};
use vstd::utf8::{
    encode_utf8, encode_utf8_decode_utf8, encode_utf8_valid_utf8, is_ascii_chars,
    is_ascii_chars_encode_utf8, is_ascii_chars_nat_bound, is_char_boundary,
    is_char_boundary_iff_not_is_continuation_byte, is_char_boundary_start_end_of_seq,
};

verus! {

/// What the launcher shows for one custom node directory.
#[derive(Debug, Clone, PartialEq)]
pub struct NodeInfo {
    pub name: String,
    pub has_git: bool,
    pub remote_url: Option<String>,
    pub version: String,
    pub last_update: Option<String>,
}

/// The outcome of an action on a node, as shown to the user.
#[derive(Debug, Clone, PartialEq)]
pub struct ActionResult {
    pub success: bool,
    pub message: String,
}

/// The outcome of cloning a new node.
#[derive(Debug, Clone, PartialEq)]
pub struct CloneResult {
    pub success: bool,
    pub message: String,
    pub dir_name: String,
}

/// Whether a node is at its remote's HEAD.
#[derive(Debug, Clone, PartialEq)]
pub struct UpdateCheck {
    pub name: String,
    /// Short hash of the remote's HEAD, if it could be determined.
    pub remote_version: Option<String>,
    pub up_to_date: bool,
}

/// The text of an optional string.
pub open spec fn opt_text(o: Option<String>) -> Option<Seq<char>> {
    match o {
        Some(s) => Some(s@),
        None => None,
    }
}

/// The texts of a result whose both sides are strings.
pub open spec fn result_text(r: Result<String, String>) -> Result<Seq<char>, Seq<char>> {
    match r {
        Ok(s) => Ok(s@),
        Err(e) => Err(e@),
    }
}

/// The mathematical model of a [`NodeInfo`].
pub struct NodeView {
    pub name: Seq<char>,
    pub has_git: bool,
    pub remote_url: Option<Seq<char>>,
    pub version: Seq<char>,
    pub last_update: Option<Seq<char>>,
}

impl View for NodeInfo {
    type V = NodeView;

    open spec fn view(&self) -> NodeView {
        NodeView {
            name: self.name@,
            has_git: self.has_git,
            remote_url: opt_text(self.remote_url),
            version: self.version@,
            last_update: opt_text(self.last_update),
        }
    }
}

/// What `git -C <dir> <args>` reports: its trimmed standard output when it
/// succeeded, else its trimmed standard error, both decoded lossily.
pub open spec fn git_report(succeeded: bool, stdout: Seq<u8>, stderr: Seq<u8>) -> Result<
    Seq<char>,
    Seq<char>,
> {
    if succeeded {
        Ok(trim_ws(utf8_lossy(stdout)))
    } else {
        Err(trim_ws(utf8_lossy(stderr)))
    }
}

/// Reads the outcome of a finished git command.
pub fn git_result(succeeded: bool, stdout: &[u8], stderr: &[u8]) -> (r: Result<String, String>)
    ensures
        result_text(r) == git_report(succeeded, stdout@, stderr@),
{
    if !succeeded {
        let text = decode_lossy(stderr);
        return Err(trim(text.as_str()));
    }
    let text = decode_lossy(stdout);
    Ok(trim(text.as_str()))
}

/// Law: a git command that succeeded is read from its standard output
/// alone, one that failed from its standard error alone, and the result is
/// `Ok` exactly when it succeeded.
pub proof fn git_report_reads_the_stream_of_its_outcome(
    succeeded: bool,
    stdout: Seq<u8>,
    stderr: Seq<u8>,
    other: Seq<u8>,
)
    ensures
        git_report(succeeded, stdout, stderr) is Ok <==> succeeded,
        succeeded ==> git_report(succeeded, stdout, stderr) == git_report(succeeded, stdout, other),
        !succeeded ==> git_report(succeeded, stdout, stderr) == git_report(succeeded, other, stderr),
{
}

/// The message for a git command that could not be started, for `detail`.
pub open spec fn git_launch_message(detail: Seq<char>) -> Seq<char> {
    "无法执行 git: "@ + detail
}

/// The error for a git command that could not be started.
pub fn git_launch_error(detail: &str) -> (r: String)
    ensures
        r@ == git_launch_message(detail@),
{
    concat("无法执行 git: ", detail)
}

/// The message for a custom nodes directory that cannot be read.
pub open spec fn read_dir_message(shown: Seq<char>, detail: Seq<char>) -> Seq<char> {
    "无法读取自定义节点目录 "@ + shown + ": "@ + detail
}

/// The error for a custom nodes directory, shown as `shown`, that cannot be
/// read, for `detail`.
pub fn read_dir_error(shown: &str, detail: &str) -> (r: String)
    ensures
        r@ == read_dir_message(shown@, detail@),
{
    let mut r = concat3("无法读取自定义节点目录 ", shown, ": ");
    r.append(detail);
    r
}

/// Names that mark a directory as internal (`__pycache__` and the like).
pub open spec fn is_internal_name(name: Seq<char>) -> bool {
    starts_with(name, seq!['_', '_'])
}

fn internal_name(name: &str) -> (r: bool)
    ensures
        r == is_internal_name(name@),
{
    let v = chars_of(name);
    let mut prefix: Vec<char> = Vec::new();
    prefix.push('_');
    prefix.push('_');
    assert(prefix@ =~= seq!['_', '_']);
    assert(v@.subrange(0, v@.len() as int) =~= v@);
    starts_with_at(&v, 0, v.len(), &prefix)
}

/// Whether a directory entry is listed as a custom node: a directory whose
/// name is not internal.
pub fn lists_entry(is_dir: bool, name: &str) -> (r: bool)
    ensures
        r == (is_dir && !is_internal_name(name@)),
{
    is_dir && !internal_name(name)
}

/// Whether a directory entry is checked for updates: a git-tracked
/// directory whose name is not internal.
pub fn checks_entry(is_dir: bool, has_git: bool, name: &str) -> (r: bool)
    ensures
        r == (is_dir && has_git && !is_internal_name(name@)),
{
    is_dir && has_git && !internal_name(name)
}

/// What the three git queries about a tracked node reported.
#[derive(Debug)]
pub struct GitFacts {
    /// `git remote get-url origin`.
    pub remote_url: Result<String, String>,
    /// `git describe --tags --always`.
    pub version: Result<String, String>,
    /// `git log -1 --format=%cI|%h|%s`.
    pub last_commit: Result<String, String>,
}

/// The description of node `name`, from what git reported about it
/// (`None` for a directory that is not a git repository).
pub open spec fn node_description(
    name: Seq<char>,
    git: Option<(Result<Seq<char>, Seq<char>>, Result<Seq<char>, Seq<char>>, Result<Seq<char>, Seq<char>>)>,
) -> NodeView {
    match git {
        None => NodeView {
            name,
            has_git: false,
            remote_url: None,
            version: "N/A"@,
            last_update: None,
        },
        Some((remote_url, version, last_commit)) => NodeView {
            name,
            has_git: true,
            remote_url: match remote_url {
                Ok(u) => Some(u),
                Err(_) => None,
            },
            version: match version {
                Ok(v) => v,
                Err(_) => "unknown"@,
            },
            last_update: match last_commit {
                Ok(line) => Some(before_first(line, '|')),
                Err(_) => None,
            },
        },
    }
}

/// The texts of what git reported about a node.
pub open spec fn facts_text(git: Option<GitFacts>) -> Option<
    (Result<Seq<char>, Seq<char>>, Result<Seq<char>, Seq<char>>, Result<Seq<char>, Seq<char>>),
> {
    match git {
        None => None,
        Some(f) => Some((result_text(f.remote_url), result_text(f.version), result_text(f.last_commit))),
    }
}

proof fn lemma_before_first_shape(s: Seq<char>, c: char)
    ensures
        before_first(s, c).len() <= s.len(),
        s.subrange(0, before_first(s, c).len() as int) == before_first(s, c),
        !before_first(s, c).contains(c),
        before_first(s, c).len() < s.len() ==> s[before_first(s, c).len() as int] == c,
    decreases s.len(),
{
    if s.len() > 0 && s[0] != c {
        let t = before_first(s.drop_first(), c);
        lemma_before_first_shape(s.drop_first(), c);
        assert(s.subrange(0, t.len() as int + 1) =~= seq![s[0]] + t);
        assert forall|i: int| 0 <= i < t.len() + 1 implies (seq![s[0]] + t)[i] != c by {
            if i > 0 {
                assert((seq![s[0]] + t)[i] == t[i - 1]);
            }
        }
    } else if s.len() > 0 {
        assert(s.subrange(0, 0) =~= Seq::<char>::empty());
    } else {
        assert(s.subrange(0, 0) =~= s);
    }
}

/// Law: a git-tracked node shows exactly what git reported: the origin URL
/// when it came back, the `git describe` output as it is (or `unknown`), and
/// as last update the part of the log line before its first `|` (all of it
/// when there is none).
pub proof fn git_node_shows_what_git_reported(
    name: Seq<char>,
    remote_url: Result<Seq<char>, Seq<char>>,
    version: Result<Seq<char>, Seq<char>>,
    last_commit: Result<Seq<char>, Seq<char>>,
)
    ensures
        ({
            let d = node_description(name, Some((remote_url, version, last_commit)));
            &&& d.name == name
            &&& d.has_git
            &&& (version matches Ok(v) ==> d.version == v)
            &&& (version is Err ==> d.version == "unknown"@)
            &&& (remote_url matches Ok(u) ==> d.remote_url == Some(u))
            &&& (remote_url is Err ==> d.remote_url is None)
            &&& (last_commit is Err ==> d.last_update is None)
            &&& (last_commit matches Ok(line) ==> d.last_update matches Some(t) && line.subrange(
                0,
                t.len() as int,
            ) == t && !t.contains('|') && (t.len() < line.len() ==> line[t.len() as int]
                == '|'))
        }),
{
    if let Ok(line) = last_commit {
        lemma_before_first_shape(line, '|');
    }
}

/// Law: a directory that is not a git repository is shown under its name,
/// with version `N/A` and nothing else.
pub proof fn plain_directory_shows_no_git_facts(name: Seq<char>)
    ensures
        node_description(name, None) == (NodeView {
            name,
            has_git: false,
            remote_url: None,
            version: "N/A"@,
            last_update: None,
        }),
{
}

/// Describes node `name` from what git reported about it: the origin URL
/// when known, the described version or `unknown`, and the date of the last
/// commit (the first `|`-separated field of the log line).
pub fn describe_node(name: String, git: Option<GitFacts>) -> (r: NodeInfo)
    ensures
        r@ == node_description(name@, facts_text(git)),
{
    match git {
        None => NodeInfo {
            name,
            has_git: false,
            remote_url: None,
            version: "N/A".to_owned(),
            last_update: None,
        },
        Some(facts) => {
            let remote_url = match facts.remote_url {
                Ok(u) => Some(u),
                Err(_) => None,
            };
            let version = match facts.version {
                Ok(v) => v,
                Err(_) => "unknown".to_owned(),
            };
            let last_update = match facts.last_commit {
                Ok(line) => {
                    let v = chars_of(line.as_str());
                    let end = before_first_bound(&v, 0, v.len(), '|');
                    assert(v@.subrange(0, v@.len() as int) =~= v@);
                    Some(string_of(&v, 0, end))
                },
                Err(_) => None,
            };
            NodeInfo { name, has_git: true, remote_url, version, last_update }
        },
    }
}

/// The message for pulling a node that is not a git repository.
pub open spec fn not_a_repo_message(name: Seq<char>) -> Seq<char> {
    name + " 不是一个 git 仓库"@
}

/// A node can only be pulled when its directory is a git repository.
pub fn pull_precheck(name: &str, is_repo: bool) -> (r: Result<(), String>)
    ensures
        r is Ok <==> is_repo,
        r matches Err(e) ==> e@ == not_a_repo_message(name@),
{
    if is_repo {
        Ok(())
    } else {
        Err(concat(name, " 不是一个 git 仓库"))
    }
}

/// Reports a `git pull --ff-only`: a success with git's output, or
/// `已是最新` when it printed nothing; a failure with git's error.
pub fn pull_outcome(git: Result<String, String>) -> (r: ActionResult)
    ensures
        r.success == (git is Ok),
        match git {
            Ok(out) => r.message@ == (if out@.len() == 0 {
                "已是最新"@
            } else {
                out@
            }),
            Err(err) => r.message@ == err@,
        },
{
    match git {
        Ok(out) => {
            let message = if out.as_str().is_empty() {
                "已是最新".to_owned()
            } else {
                out
            };
            ActionResult { success: true, message }
        },
        Err(err) => ActionResult { success: false, message: err },
    }
}

/// The trailing `.git` of a repository URL.
pub open spec fn git_suffix() -> Seq<char> {
    seq!['.', 'g', 'i', 't']
}

/// The directory name a clone of `url` gets: the URL trimmed, without
/// trailing slashes, its last path segment, without trailing `.git`.
pub open spec fn dir_name_of(url: Seq<char>) -> Seq<char> {
    strip_end_seq(after_last(strip_end_char(trim_ws(url), '/'), '/'), git_suffix())
}

/// The directory name a clone of `url` gets.
pub fn derive_dir_name(url: &str) -> (r: String)
    ensures
        r@ == dir_name_of(url@),
{
    let v = chars_of(url);
    assert(v@.subrange(0, v@.len() as int) =~= v@);
    let (a, b) = trim_bounds(&v, 0, v.len());
    let b2 = strip_end_char_bound(&v, a, b, '/');
    let j = after_last_bound(&v, a, b2, '/');
    let mut suffix: Vec<char> = Vec::new();
    suffix.push('.');
    suffix.push('g');
    suffix.push('i');
    suffix.push('t');
    assert(suffix@ =~= git_suffix());
    let e = strip_end_seq_bound(&v, j, b2, &suffix);
    string_of(&v, j, e)
}

proof fn lemma_after_last_has_no(s: Seq<char>, c: char)
    ensures
        !after_last(s, c).contains(c),
    decreases s.len(),
{
    if s.len() > 0 && s.last() != c {
        lemma_after_last_has_no(s.drop_last(), c);
        let t = after_last(s.drop_last(), c);
        assert forall|i: int| 0 <= i < t.push(s.last()).len() implies t.push(s.last())[i] != c by {
            if i < t.len() {
                assert(t[i] != c);
            }
        }
    }
}

proof fn lemma_strip_end_seq_prefix(s: Seq<char>, suffix: Seq<char>)
    ensures
        strip_end_seq(s, suffix).len() <= s.len(),
        s.subrange(0, strip_end_seq(s, suffix).len() as int) == strip_end_seq(s, suffix),
        suffix.len() > 0 ==> !ends_with(strip_end_seq(s, suffix), suffix),
    decreases s.len(),
{
    if suffix.len() > 0 && ends_with(s, suffix) {
        let t = s.subrange(0, s.len() - suffix.len());
        lemma_strip_end_seq_prefix(t, suffix);
        assert(s.subrange(0, strip_end_seq(t, suffix).len() as int) =~= t.subrange(
            0,
            strip_end_seq(t, suffix).len() as int,
        ));
    } else {
        assert(s.subrange(0, s.len() as int) =~= s);
    }
}

/// Law: the directory name derived from any URL holds no `/` and does not
/// end with `.git`.
pub proof fn derived_dir_name_is_a_plain_name(url: Seq<char>)
    ensures
        !dir_name_of(url).contains('/'),
        !ends_with(dir_name_of(url), git_suffix()),
{
    let last = after_last(strip_end_char(trim_ws(url), '/'), '/');
    lemma_after_last_has_no(strip_end_char(trim_ws(url), '/'), '/');
    lemma_strip_end_seq_prefix(last, git_suffix());
    let r = dir_name_of(url);
    assert forall|i: int| 0 <= i < r.len() implies r[i] != '/' by {
        assert(r[i] == last.subrange(0, r.len() as int)[i]);
        assert(last[i] != '/');
    }
}

proof fn lemma_strip_end_char_prefix(s: Seq<char>, c: char)
    ensures
        strip_end_char(s, c).len() <= s.len(),
        strip_end_char(s, c) == s.subrange(0, strip_end_char(s, c).len() as int),
    decreases s.len(),
{
    if s.len() > 0 && s.last() == c {
        lemma_strip_end_char_prefix(s.drop_last(), c);
        assert(s.drop_last().subrange(0, strip_end_char(s, c).len() as int) =~= s.subrange(
            0,
            strip_end_char(s, c).len() as int,
        ));
    } else {
        assert(s.subrange(0, s.len() as int) =~= s);
    }
}

proof fn lemma_after_last_suffix(s: Seq<char>, c: char)
    ensures
        after_last(s, c).len() <= s.len(),
        after_last(s, c) == s.subrange(s.len() - after_last(s, c).len(), s.len() as int),
    decreases s.len(),
{
    if s.len() == 0 {
        assert(s.subrange(0, 0) =~= s);
    } else if s.last() == c {
        assert(s.subrange(s.len() as int, s.len() as int) =~= Seq::<char>::empty());
    } else {
        lemma_after_last_suffix(s.drop_last(), c);
        let t = after_last(s.drop_last(), c);
        assert(t.push(s.last()) =~= s.subrange(s.len() - t.len() - 1, s.len() as int));
    }
}

proof fn lemma_after_last_without(s: Seq<char>, c: char)
    requires
        !s.contains(c),
    ensures
        after_last(s, c) == s,
    decreases s.len(),
{
    if s.len() > 0 {
        assert(s[s.len() - 1] != c);
        assert(!s.drop_last().contains(c)) by {
            if s.drop_last().contains(c) {
                let i = choose|i: int| 0 <= i < s.drop_last().len() && s.drop_last()[i] == c;
                assert(s[i] == c);
            }
        }
        lemma_after_last_without(s.drop_last(), c);
        assert(s.drop_last().push(s.last()) =~= s);
    }
}

/// Law: for a URL without white space, deriving the directory name again
/// from the derived name gives the same name.
pub proof fn derived_dir_name_is_stable(url: Seq<char>)
    requires
        forall|i: int| 0 <= i < url.len() ==> !is_white_space(#[trigger] url[i]),
    ensures
        dir_name_of(dir_name_of(url)) == dir_name_of(url),
{
    let t = trim_ws(url);
    assert(trim_start_ws(url) == url);
    assert(t == url);
    let u = strip_end_char(t, '/');
    let l = after_last(u, '/');
    let d = dir_name_of(url);
    lemma_strip_end_char_prefix(t, '/');
    lemma_after_last_suffix(u, '/');
    lemma_strip_end_seq_prefix(l, git_suffix());
    derived_dir_name_is_a_plain_name(url);
    assert forall|i: int| 0 <= i < d.len() implies !is_white_space(#[trigger] d[i]) by {
        assert(d[i] == l[i]);
        let k = u.len() - l.len() + i;
        assert(l[i] == u[k]);
        assert(u[k] == url[k]);
    }
    assert(trim_start_ws(d) == d);
    assert(trim_ws(d) == d);
    assert(d.len() > 0 ==> d[d.len() - 1] != '/');
    assert(strip_end_char(d, '/') == d);
    lemma_after_last_without(d, '/');
    assert(strip_end_seq(d, git_suffix()) == d);
}

/// The message for a URL from which no directory name can be derived.
pub open spec fn no_repo_name_message() -> Seq<char> {
    "无法从该地址解析出仓库名称"@
}

/// The directory a clone of `url` goes into; an error when the URL yields
/// no name.
pub fn clone_target(url: &str) -> (r: Result<String, String>)
    ensures
        match r {
            Ok(d) => d@ == dir_name_of(url@) && d@.len() > 0,
            Err(e) => dir_name_of(url@).len() == 0 && e@ == no_repo_name_message(),
        },
{
    let d = derive_dir_name(url);
    if d.as_str().is_empty() {
        Err("无法从该地址解析出仓库名称".to_owned())
    } else {
        Ok(d)
    }
}

/// The message for a clone whose directory already exists.
pub open spec fn dir_exists_message(dir_name: Seq<char>) -> Seq<char> {
    "目录 "@ + dir_name + " 已存在，请改用更新按钮"@
}

/// Reports a clone that was not attempted because `dir_name` exists.
pub fn clone_blocked(dir_name: String) -> (r: CloneResult)
    ensures
        !r.success,
        r.message@ == dir_exists_message(dir_name@),
        r.dir_name == dir_name,
{
    let message = concat3("目录 ", dir_name.as_str(), " 已存在，请改用更新按钮");
    CloneResult { success: false, message, dir_name }
}

/// What to do with a clone into `dir_name`.
pub enum ClonePlan {
    /// The directory exists already: report this without cloning.
    Blocked(CloneResult),
    /// Clone into `dir_name`.
    Clone { dir_name: String },
}

/// Decides a clone into `dir_name`: an existing directory is never cloned
/// into, and the user is told to update it instead.
pub fn plan_clone(dir_name: String, target_exists: bool) -> (r: ClonePlan)
    ensures
        r is Blocked <==> target_exists,
        r matches ClonePlan::Blocked(b) ==> !b.success && b.message@ == dir_exists_message(
            dir_name@,
        ) && b.dir_name == dir_name,
        r matches ClonePlan::Clone { dir_name: d } ==> d == dir_name,
{
    if target_exists {
        ClonePlan::Blocked(clone_blocked(dir_name))
    } else {
        ClonePlan::Clone { dir_name }
    }
}

/// Reports a finished `git clone` into `dir_name`: `克隆完成` on success,
/// else git's trimmed error output.
pub fn clone_outcome(succeeded: bool, stderr: &[u8], dir_name: String) -> (r: CloneResult)
    ensures
        r.success == succeeded,
        r.message@ == (if succeeded {
            "克隆完成"@
        } else {
            trim_ws(utf8_lossy(stderr@))
        }),
        r.dir_name == dir_name,
{
    if succeeded {
        CloneResult { success: true, message: "克隆完成".to_owned(), dir_name }
    } else {
        let text = decode_lossy(stderr);
        CloneResult { success: false, message: trim(text.as_str()), dir_name }
    }
}

/// The hash in the text `git ls-remote <url> HEAD` printed: its first
/// word, when that word is at least 7 bytes long.
pub open spec fn head_hash_of(text: Seq<char>) -> Option<Seq<char>> {
    match first_word(text) {
        None => None,
        Some(w) => if encode_utf8(w).len() < 7 {
            None
        } else {
            Some(w)
        },
    }
}

/// The remote HEAD hash read from `git ls-remote <url> HEAD`: found in its
/// lossily decoded output, when the command succeeded.
pub open spec fn remote_head_of(succeeded: bool, stdout: Seq<u8>) -> Option<Seq<char>> {
    if !succeeded {
        None
    } else {
        head_hash_of(utf8_lossy(stdout))
    }
}

/// Reads the remote HEAD hash from the text `git ls-remote` printed.
pub fn head_hash_in(text: &str) -> (r: Option<String>)
    ensures
        opt_text(r) == head_hash_of(text@),
{
    let v = chars_of(text);
    assert(v@.subrange(0, v@.len() as int) =~= v@);
    let start = skip_white_space(&v, 0, v.len());
    if start == v.len() {
        return None;
    }
    let end = word_end(&v, start, v.len());
    let word = string_of(&v, start, end);
    if word.as_str().as_bytes().len() < 7 {
        None
    } else {
        Some(word)
    }
}

/// Reads the remote HEAD hash from the output of `git ls-remote`.
pub fn remote_head(succeeded: bool, stdout: &[u8]) -> (r: Option<String>)
    ensures
        opt_text(r) == remote_head_of(succeeded, stdout@),
{
    if !succeeded {
        return None;
    }
    let text = decode_lossy(stdout);
    head_hash_in(text.as_str())
}

/// The remote to ask for its HEAD: the origin URL, when both it and the
/// local HEAD are known.
pub fn remote_lookup(remote_url: &Option<String>, local_hash: &Option<String>) -> (r: Option<String>)
    ensures
        opt_text(r) == (if local_hash is Some {
            opt_text(*remote_url)
        } else {
            None
        }),
{
    match (remote_url, local_hash) {
        (Some(url), Some(_)) => Some(url.clone()),
        _ => None,
    }
}

/// How many bytes of a hash are shown: at most 7.
pub open spec fn short_hash_len(hash: Seq<char>) -> int {
    if encode_utf8(hash).len() < 7 {
        encode_utf8(hash).len() as int
    } else {
        7
    }
}

/// Whether the origin URL, the local HEAD and the remote HEAD all came back.
pub open spec fn fully_known(
    remote_url: Option<String>,
    local_hash: Option<String>,
    remote_head: Option<String>,
) -> bool {
    remote_url is Some && local_hash is Some && remote_head is Some
}

/// Compares node `name`'s local HEAD with its remote's HEAD: up to date
/// only when both are known and equal; the remote version is the first
/// 7 bytes of the remote hash.
pub fn update_check(
    name: String,
    remote_url: Option<String>,
    local_hash: Option<String>,
    remote_head: Option<String>,
) -> (r: UpdateCheck)
    requires
        fully_known(remote_url, local_hash, remote_head) ==> is_char_boundary(
            encode_utf8(remote_head->0@),
            short_hash_len(remote_head->0@),
        ),
    ensures
        r.name == name,
        r.up_to_date == (fully_known(remote_url, local_hash, remote_head) && remote_head->0@
            == local_hash->0@),
        r.remote_version is Some <==> fully_known(remote_url, local_hash, remote_head),
        r.remote_version matches Some(v) ==> encode_utf8(v@) == encode_utf8(
            remote_head->0@,
        ).subrange(0, short_hash_len(remote_head->0@)),
{
    match (remote_url, local_hash, remote_head) {
        (Some(_), Some(local), Some(remote)) => {
            let up_to_date = remote == local;
            let len = remote.as_str().as_bytes().len();
            let n = if len < 7 {
                len
            } else {
                7
            };
            let (head, _) = remote.as_str().split_at(n);
            UpdateCheck { name, remote_version: Some(head.to_owned()), up_to_date }
        },
        _ => UpdateCheck { name, remote_version: None, up_to_date: false },
    }
}

/// Law: for an ASCII hash, which is what git prints, the cut after 7 bytes
/// falls on a character boundary, so [`update_check`] accepts it, and the
/// version shown is the hash's first 7 characters (all of it when shorter).
pub proof fn ascii_hash_shortens_to_its_first_chars(hash: Seq<char>, shown: Seq<char>)
    requires
        is_ascii_chars(hash),
    ensures
        short_hash_len(hash) == (if hash.len() < 7 {
            hash.len() as int
        } else {
            7
        }),
        is_char_boundary(encode_utf8(hash), short_hash_len(hash)),
        encode_utf8(shown) == encode_utf8(hash).subrange(0, short_hash_len(hash)) ==> shown
            == hash.take(short_hash_len(hash)),
{
    let bytes = encode_utf8(hash);
    is_ascii_chars_encode_utf8(hash);
    encode_utf8_valid_utf8(hash);
    let k = short_hash_len(hash);
    if k < bytes.len() {
        assert(bytes[k] == hash[k] as u8);
        is_ascii_chars_nat_bound(hash);
        is_char_boundary_iff_not_is_continuation_byte(bytes, k);
    } else {
        is_char_boundary_start_end_of_seq(bytes);
    }
    let head = hash.take(k);
    assert(is_ascii_chars(head));
    is_ascii_chars_encode_utf8(head);
    assert(encode_utf8(head) =~= bytes.subrange(0, k));
    if encode_utf8(shown) == bytes.subrange(0, k) {
        encode_utf8_decode_utf8(shown);
        encode_utf8_decode_utf8(head);
    }
}

} // verus!
