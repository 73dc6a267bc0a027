use comfyui_launcher::listing::{sort_by_keys, sort_nodes};
use comfyui_launcher::nodes::{
    checks_entry, clone_blocked, clone_outcome, head_hash_in, plan_clone, ClonePlan, clone_target, derive_dir_name, describe_node,
    git_launch_error, git_result, lists_entry, pull_outcome, pull_precheck, read_dir_error,
    remote_head, remote_lookup, update_check, GitFacts, NodeInfo,
};

fn node(name: &str) -> NodeInfo {
    NodeInfo {
        name: name.to_string(),
        has_git: false,
        remote_url: None,
        version: "N/A".to_string(),
        last_update: None,
    }
}

fn names(v: &[NodeInfo]) -> Vec<&str> {
    v.iter().map(|n| n.name.as_str()).collect()
}

#[test]
fn dir_name_from_plain_repository_url() {
    assert_eq!(derive_dir_name("https://github.com/ltdrdata/ComfyUI-Manager.git"), "ComfyUI-Manager");
    assert_eq!(derive_dir_name("https://github.com/ltdrdata/ComfyUI-Manager"), "ComfyUI-Manager");
}

#[test]
fn dir_name_ignores_white_space_and_trailing_slashes() {
    assert_eq!(derive_dir_name("  https://github.com/a/b///  \n"), "b");
    assert_eq!(derive_dir_name("\thttps://github.com/a/repo.git/ "), "repo");
}

#[test]
fn dir_name_strips_every_trailing_git_suffix() {
    assert_eq!(derive_dir_name("https://x/y.git.git"), "y");
    assert_eq!(derive_dir_name("https://x/.git"), "");
    assert_eq!(derive_dir_name("https://x/my.github"), "my.github");
}

#[test]
fn dir_name_without_slash_is_the_whole_text() {
    assert_eq!(derive_dir_name("repo.git"), "repo");
    assert_eq!(derive_dir_name(""), "");
    assert_eq!(derive_dir_name("///"), "");
}

#[test]
fn derived_names_never_hold_a_slash_or_git_suffix() {
    for url in ["a/b/c.git/", "x", "/.git.git", "  ", "a b/c d.git", "https://h/p/", "q.git/.git"] {
        let d = derive_dir_name(url);
        assert!(!d.contains('/'), "{url:?} gave {d:?}");
        assert!(!d.ends_with(".git"), "{url:?} gave {d:?}");
    }
}

#[test]
fn clone_target_needs_a_name() {
    assert_eq!(clone_target("https://github.com/a/b.git"), Ok("b".to_string()));
    assert_eq!(clone_target("https://github.com/a/.git/"), Err("无法从该地址解析出仓库名称".to_string()));
}

#[test]
fn existing_clone_directory_is_reported() {
    let r = clone_blocked("b".to_string());
    assert!(!r.success);
    assert_eq!(r.message, "目录 b 已存在，请改用更新按钮");
    assert_eq!(r.dir_name, "b");
}

#[test]
fn finished_clone_is_reported() {
    let ok = clone_outcome(true, b"ignored", "b".to_string());
    assert!(ok.success);
    assert_eq!(ok.message, "克隆完成");
    let failed = clone_outcome(false, b"  fatal: repository not found\n", "b".to_string());
    assert!(!failed.success);
    assert_eq!(failed.message, "fatal: repository not found");
    assert_eq!(failed.dir_name, "b");
}

#[test]
fn git_result_trims_and_decodes() {
    assert_eq!(git_result(true, b"  v1.2-3-gabc\r\n", b"warn"), Ok("v1.2-3-gabc".to_string()));
    assert_eq!(git_result(false, b"out", b"\nerror: bad\n"), Err("error: bad".to_string()));
    assert_eq!(git_result(true, b"a\xffb", b""), Ok("a\u{fffd}b".to_string()));
    assert_eq!(git_result(true, "\u{4e2d}".as_bytes(), b""), Ok("中".to_string()));
}

#[test]
fn git_launch_and_read_dir_errors() {
    assert_eq!(git_launch_error("program not found"), "无法执行 git: program not found");
    assert_eq!(read_dir_error("D:\\n", "denied"), "无法读取自定义节点目录 D:\\n: denied");
}

#[test]
fn entry_filters_skip_internal_directories() {
    assert!(lists_entry(true, "ComfyUI-Manager"));
    assert!(!lists_entry(false, "ComfyUI-Manager"));
    assert!(!lists_entry(true, "__pycache__"));
    assert!(lists_entry(true, "_single"));
    assert!(checks_entry(true, true, "node"));
    assert!(!checks_entry(true, false, "node"));
    assert!(!checks_entry(true, true, "__x"));
    assert!(!checks_entry(false, true, "node"));
}

#[test]
fn node_without_git_is_described_plainly() {
    let n = describe_node("plain".to_string(), None);
    assert_eq!(n, node("plain"));
}

#[test]
fn git_node_is_described_from_its_facts() {
    let facts = GitFacts {
        remote_url: Ok("https://github.com/a/b".to_string()),
        version: Ok("v1.0".to_string()),
        last_commit: Ok("2024-05-01T10:00:00+08:00|abc1234|fix: a|b".to_string()),
    };
    let n = describe_node("b".to_string(), Some(facts));
    assert!(n.has_git);
    assert_eq!(n.remote_url.as_deref(), Some("https://github.com/a/b"));
    assert_eq!(n.version, "v1.0");
    assert_eq!(n.last_update.as_deref(), Some("2024-05-01T10:00:00+08:00"));
}

#[test]
fn git_node_with_failed_queries_uses_fallbacks() {
    let facts = GitFacts {
        remote_url: Err("no origin".to_string()),
        version: Err("x".to_string()),
        last_commit: Err("y".to_string()),
    };
    let n = describe_node("b".to_string(), Some(facts));
    assert!(n.has_git);
    assert_eq!(n.remote_url, None);
    assert_eq!(n.version, "unknown");
    assert_eq!(n.last_update, None);
}

#[test]
fn nodes_are_sorted_by_lowercased_name() {
    let sorted = sort_nodes(vec![node("B1"), node("a2"), node("C0")]);
    assert_eq!(names(&sorted), vec!["a2", "B1", "C0"]);
}

#[test]
fn sorting_is_stable_for_equal_keys() {
    let mut first = node("Same");
    first.version = "first".to_string();
    let mut second = node("same");
    second.version = "second".to_string();
    let sorted = sort_nodes(vec![node("z"), first, node("a"), second]);
    assert_eq!(names(&sorted), vec!["a", "Same", "same", "z"]);
    assert_eq!(sorted[1].version, "first");
    assert_eq!(sorted[2].version, "second");
}

#[test]
fn sorting_keeps_every_node() {
    assert!(sort_nodes(vec![]).is_empty());
    let sorted = sort_nodes(vec![node("x"), node("x"), node("Éclair"), node("abc")]);
    assert_eq!(names(&sorted), vec!["abc", "x", "x", "Éclair"]);
}

#[test]
fn remote_head_is_first_word_of_ls_remote() {
    let out = b"0123456789abcdef0123456789abcdef01234567\tHEAD\n";
    assert_eq!(remote_head(true, out), Some("0123456789abcdef0123456789abcdef01234567".to_string()));
    assert_eq!(remote_head(true, b"  \n abcdefg HEAD"), Some("abcdefg".to_string()));
}

#[test]
fn remote_head_rejects_failures_and_short_words() {
    assert_eq!(remote_head(false, b"0123456789abcdef\tHEAD"), None);
    assert_eq!(remote_head(true, b"abc123\tHEAD"), None);
    assert_eq!(remote_head(true, b"   \n\t"), None);
    assert_eq!(remote_head(true, "\u{4e2d}\u{6587}\u{5b57}".as_bytes()), Some("中文字".to_string()));
}

#[test]
fn remote_lookup_needs_url_and_local_hash() {
    let url = Some("https://x/y".to_string());
    assert_eq!(remote_lookup(&url, &Some("h".to_string())), url);
    assert_eq!(remote_lookup(&url, &None), None);
    assert_eq!(remote_lookup(&None, &Some("h".to_string())), None);
}

#[test]
fn update_check_compares_heads() {
    let h = "0123456789abcdef".to_string();
    let same = update_check("n".to_string(), Some("u".to_string()), Some(h.clone()), Some(h.clone()));
    assert!(same.up_to_date);
    assert_eq!(same.remote_version.as_deref(), Some("0123456"));
    let other = update_check("n".to_string(), Some("u".to_string()), Some(h.clone()), Some("fedcba9876".to_string()));
    assert!(!other.up_to_date);
    assert_eq!(other.remote_version.as_deref(), Some("fedcba9"));
    assert_eq!(other.name, "n");
}

#[test]
fn update_check_without_facts_is_unknown() {
    let h = Some("0123456789".to_string());
    let no_remote = update_check("n".to_string(), Some("u".to_string()), h.clone(), None);
    assert_eq!((no_remote.remote_version, no_remote.up_to_date), (None, false));
    let no_url = update_check("n".to_string(), None, h.clone(), h.clone());
    assert_eq!((no_url.remote_version, no_url.up_to_date), (None, false));
    let no_local = update_check("n".to_string(), Some("u".to_string()), None, h.clone());
    assert_eq!((no_local.remote_version, no_local.up_to_date), (None, false));
}

#[test]
fn pull_requires_a_repository() {
    assert_eq!(pull_precheck("node", true), Ok(()));
    assert_eq!(pull_precheck("node", false), Err("node 不是一个 git 仓库".to_string()));
}

#[test]
fn pull_outcome_messages() {
    let quiet = pull_outcome(Ok(String::new()));
    assert!(quiet.success);
    assert_eq!(quiet.message, "已是最新");
    let loud = pull_outcome(Ok("Fast-forward".to_string()));
    assert!(loud.success);
    assert_eq!(loud.message, "Fast-forward");
    let failed = pull_outcome(Err("fatal: not possible".to_string()));
    assert!(!failed.success);
    assert_eq!(failed.message, "fatal: not possible");
}

#[test]
fn derived_name_is_stable_without_white_space() {
    for url in ["https://github.com/a/b.git", "x/y/", "a.git.git", "/.git", "plain", "a//b//"] {
        let d = derive_dir_name(url);
        assert_eq!(derive_dir_name(&d), d, "{url:?}");
    }
}

#[test]
fn existing_target_blocks_the_clone() {
    match plan_clone("b".to_string(), true) {
        ClonePlan::Blocked(r) => {
            assert!(!r.success);
            assert_eq!(r.message, "目录 b 已存在，请改用更新按钮");
            assert_eq!(r.dir_name, "b");
        }
        ClonePlan::Clone { .. } => panic!("cloned into an existing directory"),
    }
    match plan_clone("b".to_string(), false) {
        ClonePlan::Clone { dir_name } => assert_eq!(dir_name, "b"),
        ClonePlan::Blocked(_) => panic!("blocked a new directory"),
    }
}

#[test]
fn head_hash_from_given_text() {
    assert_eq!(head_hash_in("\n 0123456789abcdef\tHEAD"), Some("0123456789abcdef".to_string()));
    assert_eq!(head_hash_in("abcdef\tHEAD"), None);
    assert_eq!(head_hash_in(""), None);
    assert_eq!(head_hash_in("中文字"), Some("中文字".to_string()));
    assert_eq!(head_hash_in("中文"), None);
}

#[test]
fn sorting_by_given_keys_is_stable() {
    let sorted = sort_by_keys(vec![
        ("b".to_string(), node("first")),
        ("a".to_string(), node("second")),
        ("b".to_string(), node("third")),
        ("B".to_string(), node("fourth")),
    ]);
    assert_eq!(names(&sorted), vec!["fourth", "second", "first", "third"]);
}
