use xprompt::commands::{DEFAULT_COMMAND, INIT_SCRIPT};
use xprompt::vcs::{
    INDEX_CHANGED, INDEX_DELETED, INDEX_MODIFIED, INDEX_NEW, INDEX_RENAMED, INDEX_TYPECHANGE,
    WT_CHANGED, WT_DELETED, WT_MODIFIED, WT_NEW, WT_RENAMED, WT_TYPECHANGE,
};
use xprompt::{
    BashString, BashStrings, FlagSet, GitFlags, HeadRef, InitCommand, Pallet, Ps1Command,
    Ps2Command, RepoFacts, VcsCommand,
};

fn repo(head: HeadRef, statuses: Vec<u32>, stashed: bool) -> Option<RepoFacts> {
    Some(RepoFacts { head, statuses, stashed })
}

fn branch(name: &str) -> HeadRef {
    HeadRef::Branch(Some(name.to_string()))
}

fn commit_id() -> [u8; 20] {
    [
        0xab, 0xc1, 0x23, 0x45, 0x67, 0x89, 0x0a, 0xbc, 0xde, 0xf0, 0x12, 0x34, 0x56, 0x78, 0x9a,
        0xbc, 0xde, 0xf0, 0x00, 0x0f,
    ]
}

#[test]
fn status_bits_match_git2() {
    assert_eq!(INDEX_NEW, git2::Status::INDEX_NEW.bits());
    assert_eq!(INDEX_MODIFIED, git2::Status::INDEX_MODIFIED.bits());
    assert_eq!(INDEX_DELETED, git2::Status::INDEX_DELETED.bits());
    assert_eq!(INDEX_RENAMED, git2::Status::INDEX_RENAMED.bits());
    assert_eq!(INDEX_TYPECHANGE, git2::Status::INDEX_TYPECHANGE.bits());
    assert_eq!(WT_NEW, git2::Status::WT_NEW.bits());
    assert_eq!(WT_MODIFIED, git2::Status::WT_MODIFIED.bits());
    assert_eq!(WT_DELETED, git2::Status::WT_DELETED.bits());
    assert_eq!(WT_TYPECHANGE, git2::Status::WT_TYPECHANGE.bits());
    assert_eq!(WT_RENAMED, git2::Status::WT_RENAMED.bits());
    assert_eq!(WT_CHANGED, 0xf00);
    assert_eq!(INDEX_CHANGED, 0x1f);
}

#[test]
fn flag_glyphs() {
    assert_eq!(GitFlags::Unversioned.val(), "?");
    assert_eq!(GitFlags::Modified.val(), "!");
    assert_eq!(GitFlags::Added.val(), "+");
    assert_eq!(GitFlags::Stashed.val(), "$");
}

#[test]
fn flag_set_insert_and_contains() {
    let mut s = FlagSet::new();
    assert!(s.is_empty());
    s.insert(GitFlags::Added);
    s.insert(GitFlags::Added);
    assert!(!s.is_empty());
    assert!(s.contains(GitFlags::Added));
    assert!(!s.contains(GitFlags::Modified));
    assert_eq!(s.to_vec(), vec![GitFlags::Added]);
}

#[test]
fn glyphs_follow_display_order_whatever_the_insertion_order() {
    let mut a = FlagSet::new();
    for f in [GitFlags::Stashed, GitFlags::Added, GitFlags::Modified, GitFlags::Unversioned] {
        a.insert(f);
    }
    let mut b = FlagSet::new();
    for f in [GitFlags::Modified, GitFlags::Unversioned, GitFlags::Stashed, GitFlags::Added] {
        b.insert(f);
    }
    assert_eq!(a.glyphs(), "?!+$");
    assert_eq!(b.glyphs(), "?!+$");
    assert_eq!(
        a.to_vec(),
        vec![GitFlags::Unversioned, GitFlags::Modified, GitFlags::Added, GitFlags::Stashed]
    );
    let mut c = FlagSet::new();
    c.insert(GitFlags::Stashed);
    c.insert(GitFlags::Unversioned);
    assert_eq!(c.glyphs(), "?$");
    assert_eq!(FlagSet::new().glyphs(), "");
}

#[test]
fn classification_of_single_bits() {
    assert!(VcsCommand::is_unversioned(WT_NEW));
    assert!(!VcsCommand::is_unversioned(INDEX_NEW));
    for bit in [WT_DELETED, WT_MODIFIED, WT_RENAMED, WT_TYPECHANGE] {
        assert!(VcsCommand::is_working_tree_modified(bit));
        assert!(!VcsCommand::is_index_modified(bit));
    }
    for bit in [INDEX_DELETED, INDEX_MODIFIED, INDEX_NEW, INDEX_RENAMED, INDEX_TYPECHANGE] {
        assert!(VcsCommand::is_index_modified(bit));
        assert!(!VcsCommand::is_working_tree_modified(bit));
    }
    assert!(!VcsCommand::is_working_tree_modified(WT_NEW));
    assert!(!VcsCommand::is_unversioned(0));
    assert!(!VcsCommand::is_working_tree_modified(0));
    assert!(!VcsCommand::is_index_modified(0));
}

#[test]
fn staged_then_modified_file_shows_both_flags() {
    let s = VcsCommand.get_git_flags(&vec![INDEX_MODIFIED | WT_MODIFIED], false);
    assert!(s.contains(GitFlags::Modified));
    assert!(s.contains(GitFlags::Added));
    assert!(!s.contains(GitFlags::Unversioned));
    assert_eq!(s.glyphs(), "!+");
}

#[test]
fn stash_flag_follows_stash_state() {
    let none = VcsCommand.get_git_flags(&vec![WT_NEW, INDEX_NEW], false);
    assert!(!none.contains(GitFlags::Stashed));
    let some = VcsCommand.get_git_flags(&vec![], true);
    assert!(some.contains(GitFlags::Stashed));
    assert_eq!(some.glyphs(), "$");
    let clean = VcsCommand.get_git_flags(&vec![], false);
    assert!(clean.is_empty());
}

#[test]
fn untracked_and_staged_new_file() {
    let s = VcsCommand.get_git_flags(&vec![WT_NEW, INDEX_NEW], false);
    assert_eq!(s.to_vec(), vec![GitFlags::Unversioned, GitFlags::Added]);
    assert_eq!(s.glyphs(), "?+");
    let out = VcsCommand.run(&Pallet::default(), &repo(branch("main"), vec![WT_NEW, INDEX_NEW], false));
    assert_eq!(
        out,
        "\x1b[1;38;5;15mon \x1b[38;5;61mmain\x1b[0m\x1b[1;38;5;33m [?+]\x1b[0m"
    );
}

#[test]
fn branch_label_of_named_branch() {
    assert_eq!(VcsCommand.get_git_branch(&branch("feature/x")), Some("feature/x".to_string()));
    assert_eq!(VcsCommand.get_git_branch(&HeadRef::Branch(None)), None);
    assert_eq!(VcsCommand.get_git_branch(&HeadRef::Unresolved), None);
    assert_eq!(VcsCommand.get_git_branch(&HeadRef::Detached(None)), None);
}

#[test]
fn detached_head_is_labelled_with_full_commit_id() {
    let label = VcsCommand.get_git_branch(&HeadRef::Detached(Some(commit_id()))).unwrap();
    assert_eq!(label, "abc1234567890abcdef0123456789abcdef0000f");
    assert_eq!(label.len(), 40);
}

#[test]
fn no_repository_prints_nothing() {
    assert_eq!(VcsCommand.run(&Pallet::default(), &None), "");
}

#[test]
fn repository_without_head_prints_nothing() {
    let out = VcsCommand.run(&Pallet::default(), &repo(HeadRef::Unresolved, vec![WT_NEW], true));
    assert_eq!(out, "");
}

#[test]
fn clean_repository_shows_branch_only() {
    let out = VcsCommand.run(&Pallet::default(), &repo(branch("main"), vec![], false));
    assert_eq!(out, "\x1b[1;38;5;15mon \x1b[38;5;61mmain\x1b[0m");
}

#[test]
fn detached_repository_status_line() {
    let out = VcsCommand.run(
        &Pallet::default(),
        &repo(HeadRef::Detached(Some(commit_id())), vec![WT_DELETED], true),
    );
    assert_eq!(
        out,
        "\x1b[1;38;5;15mon \x1b[38;5;61mabc1234567890abcdef0123456789abcdef0000f\x1b[0m\x1b[1;38;5;33m [!$]\x1b[0m"
    );
}

#[test]
fn status_mode_is_repeatable() {
    let facts = repo(branch("dev"), vec![WT_MODIFIED, INDEX_RENAMED, WT_NEW], true);
    let first = VcsCommand.run(&Pallet::default(), &facts);
    let second = VcsCommand.run(&Pallet::default(), &facts);
    assert_eq!(first, second);
    assert!(first.contains("[?!+$]"));
}

#[test]
fn same_colour_branch_run_has_no_switch() {
    let mut p = Pallet::default();
    p.violet = p.white;
    let mut buf = String::from(">");
    VcsCommand.write_git_branch(&mut buf, &p, "x");
    assert_eq!(buf, ">\x1b[1;38;5;15mon x\x1b[0m");
}

#[test]
fn write_git_status_appends_bracketed_glyphs() {
    let mut flags = FlagSet::new();
    flags.insert(GitFlags::Modified);
    let mut buf = String::new();
    VcsCommand.write_git_status(&mut buf, &Pallet::default(), &flags);
    assert_eq!(buf, "\x1b[1;38;5;33m [!]\x1b[0m");
}

#[test]
fn default_pallet_colours() {
    let p = Pallet::default();
    assert_eq!(
        [p.black, p.blue, p.cyan, p.green, p.orange, p.purple, p.red, p.violet, p.white, p.yellow],
        [0, 33, 37, 64, 166, 125, 124, 61, 15, 136]
    );
}

#[test]
fn bash_string_marks_its_codes() {
    let s = BashString::new(166, "host");
    assert_eq!(s.render(), "\\[\x1b[1;38;5;166m\\]host\\[\x1b[0m\\]");
    assert_eq!(BashString::new(7, "").render(), "\\[\x1b[1;38;5;7m\\]\\[\x1b[0m\\]");
}

#[test]
fn bash_strings_reset_once_after_the_last() {
    let run = BashStrings::new(vec![BashString::new(37, "a"), BashString::new(15, "b")]);
    assert_eq!(
        run.render(),
        "\\[\x1b[1;38;5;37m\\]a\\[\x1b[1;38;5;15m\\]b\\[\x1b[0m\\]"
    );
    assert_eq!(BashStrings::new(vec![]).render(), "");
}

#[test]
fn primary_prompt_with_explicit_path() {
    let cmd = Ps1Command { path: Some("/usr/bin/xprompt".to_string()), input: "$".to_string() };
    let out = cmd.run(&Pallet::default(), &Some("/elsewhere/xprompt".to_string()));
    let expected = [
        "\\n",
        "\\[\x1b[1;38;5;37m\\]\\D{%H:%M:%S}",
        "\\[\x1b[1;38;5;15m\\] as ",
        "\\[\x1b[1;38;5;33m\\]\\u",
        "\\[\x1b[1;38;5;15m\\] at ",
        "\\[\x1b[1;38;5;166m\\]\\h",
        "\\[\x1b[1;38;5;15m\\] in ",
        "\\[\x1b[1;38;5;64m\\]\\w",
        "\\[\x1b[0m\\]",
        " $(/usr/bin/xprompt vcs)",
        "\\n\\[\x1b[1;38;5;15m\\]$\\[\x1b[0m\\] ",
    ]
    .concat();
    assert_eq!(out, expected);
}

#[test]
fn vcs_callback_falls_back_to_running_program_then_name() {
    let cmd = Ps1Command { path: None, input: "#".to_string() };
    let mut buf = String::new();
    cmd.write_vcs_callback(&mut buf, &Some("/opt/xprompt".to_string()));
    assert_eq!(buf, " $(/opt/xprompt vcs)");
    let mut buf = String::new();
    cmd.write_vcs_callback(&mut buf, &None);
    assert_eq!(buf, format!(" $({} vcs)", DEFAULT_COMMAND));
    assert_eq!(DEFAULT_COMMAND, "xprompt");
}

#[test]
fn command_prompt_line() {
    let cmd = Ps1Command { path: None, input: "#".to_string() };
    let mut buf = String::new();
    cmd.write_command_prompt(&mut buf, &Pallet::default());
    assert_eq!(buf, "\\n\\[\x1b[1;38;5;15m\\]#\\[\x1b[0m\\] ");
}

#[test]
fn continuation_prompt_is_fixed() {
    let first = Ps2Command.run(&Pallet::default());
    let second = Ps2Command.run(&Pallet::default());
    assert_eq!(first, "\\[\x1b[1;38;5;136m\\]-> \\[\x1b[0m\\]");
    assert_eq!(first, second);
}

#[test]
fn init_emits_the_shell_snippet() {
    let out = InitCommand.run();
    assert_eq!(out, INIT_SCRIPT);
    assert!(out.contains("PS1=\"$(xprompt ps1)\""));
    assert!(out.contains("PS2=\"$(xprompt ps2)\""));
}
