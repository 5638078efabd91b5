use vstd::prelude::*;
use vstd::string::StringExecFns;

use crate::flags::{glyph_text, FlagSet, GitFlags};
use crate::style::{ansi_run, paint_run, spans_view, Pallet};

verus! {

/// Status bit of a file newly added to the index.
pub const INDEX_NEW: u32 = 0x1;

/// Status bit of a file modified in the index.
pub const INDEX_MODIFIED: u32 = 0x2;

/// Status bit of a file deleted in the index.
pub const INDEX_DELETED: u32 = 0x4;

/// Status bit of a file renamed in the index.
pub const INDEX_RENAMED: u32 = 0x8;

/// Status bit of a file whose type changed in the index.
pub const INDEX_TYPECHANGE: u32 = 0x10;

/// Status bit of a file in the working tree that git does not track.
pub const WT_NEW: u32 = 0x80;

/// Status bit of a file modified in the working tree.
pub const WT_MODIFIED: u32 = 0x100;

/// Status bit of a file deleted from the working tree.
pub const WT_DELETED: u32 = 0x200;

/// Status bit of a file whose type changed in the working tree.
pub const WT_TYPECHANGE: u32 = 0x400;

/// Status bit of a file renamed in the working tree.
pub const WT_RENAMED: u32 = 0x800;

/// The bits of unstaged changes to tracked files.
pub const WT_CHANGED: u32 = WT_DELETED | WT_MODIFIED | WT_RENAMED | WT_TYPECHANGE;

/// The bits of staged changes.
pub const INDEX_CHANGED: u32 = INDEX_DELETED | INDEX_MODIFIED | INDEX_NEW | INDEX_RENAMED
    | INDEX_TYPECHANGE;

/// Whether a status has any of the bits of `mask`.
pub open spec fn has_any(status: u32, mask: u32) -> bool {
    status & mask != 0
}

/// Whether one of the first `n` statuses has any of the bits of `mask`.
pub open spec fn any_before(statuses: Seq<u32>, n: int, mask: u32) -> bool {
    exists|j: int| 0 <= j < n && #[trigger] has_any(statuses[j], mask)
}

/// The flags that a repository shows: one per kind of change found among the
/// status entries of its files, and `Stashed` when it has a stash entry.
pub open spec fn flags_of(statuses: Seq<u32>, stashed: bool) -> Set<GitFlags> {
    Set::new(
        |f: GitFlags|
            match f {
                GitFlags::Unversioned => any_before(statuses, statuses.len() as int, WT_NEW),
                GitFlags::Modified => any_before(statuses, statuses.len() as int, WT_CHANGED),
                GitFlags::Added => any_before(statuses, statuses.len() as int, INDEX_CHANGED),
                GitFlags::Stashed => stashed,
            },
    )
}

/// What HEAD of a repository refers to.
pub enum HeadRef {
    /// HEAD cannot be resolved, as in a repository without commits.
    Unresolved,
    /// HEAD names a branch: its short name, if that name could be read.
    Branch(Option<String>),
    /// HEAD points at a commit directly: the commit's id, if it could be read.
    Detached(Option<[u8; 20]>),
}

/// The lower-case hexadecimal digit `d`, for `0 <= d < 16`.
pub open spec fn hex_digit(d: int) -> char {
    seq!['0', '1', '2', '3', '4', '5', '6', '7', '8', '9', 'a', 'b', 'c', 'd', 'e', 'f'][d]
}

/// `bytes` in lower-case hexadecimal, two digits per byte, high digit first.
pub open spec fn hex_of(bytes: Seq<u8>) -> Seq<char>
    decreases bytes.len(),
{
    if bytes.len() == 0 {
        seq![]
    } else {
        seq![hex_digit(bytes[0] as int / 16), hex_digit(bytes[0] as int % 16)] + hex_of(
            bytes.drop_first(),
        )
    }
}

/// The text of an optional string.
pub open spec fn text_of(s: Option<String>) -> Option<Seq<char>> {
    match s {
        Some(t) => Some(t@),
        None => None,
    }
}

/// The label of a HEAD: a branch's short name, or a detached commit's full id.
pub open spec fn branch_label(head: HeadRef) -> Option<Seq<char>> {
    match head {
        HeadRef::Unresolved => None,
        HeadRef::Branch(name) => text_of(name),
        HeadRef::Detached(Some(id)) => Some(hex_of(id@)),
        HeadRef::Detached(None) => None,
    }
}

/// Relies on git2's `Oid::from_bytes`, which accepts any 20 bytes, and on
/// `Oid`'s `Display`, which writes each byte as two lower-case hex digits.
#[verifier::external_body]
fn commit_hex(id: &[u8; 20]) -> (r: String)
    ensures
        r@ == hex_of(id@),
{
    match git2::Oid::from_bytes(id) {
        Ok(oid) => oid.to_string(),
        Err(_) => String::new(),
    }
}

/// What was read from a repository: its HEAD, the status bits of each file
/// entry, and whether it has any stash entry.
pub struct RepoFacts {
    pub head: HeadRef,
    pub statuses: Vec<u32>,
    pub stashed: bool,
}

/// The status line: `on <branch>`, then the glyphs of the flags in brackets
/// when there are any; nothing outside a repository or without a label.
pub open spec fn status_text(
    p: Pallet,
    label: Option<Seq<char>>,
    flags: Set<GitFlags>,
) -> Seq<char> {
    match label {
        None => seq![],
        Some(b) => branch_text(p, b) + if flags == Set::<GitFlags>::empty() {
            seq![]
        } else {
            flags_text(p, flags)
        },
    }
}

/// `on ` in white and the branch in violet, written as one run.
pub open spec fn branch_text(p: Pallet, branch: Seq<char>) -> Seq<char> {
    ansi_run(seq![(seq!['o', 'n', ' '], p.white), (branch, p.violet)])
}

/// The glyphs of `flags` between ` [` and `]`, in blue, written as one run.
pub open spec fn flags_text(p: Pallet, flags: Set<GitFlags>) -> Seq<char> {
    ansi_run(seq![(seq![' ', '['], p.blue), (glyph_text(flags), p.blue), (seq![']'], p.blue)])
}

/// What status mode prints for what was read from the repository, if any.
pub open spec fn vcs_text(p: Pallet, repo: Option<RepoFacts>) -> Seq<char> {
    match repo {
        None => seq![],
        Some(r) => status_text(p, branch_label(r.head), flags_of(r.statuses@, r.stashed)),
    }
}

/// Status mode: version control information for the current directory.
pub struct VcsCommand;

impl VcsCommand {
    /// The status line for a repository, or the empty string when there is none.
    pub fn run(&self, pallet: &Pallet, repo: &Option<RepoFacts>) -> (r: String)
        ensures
            r@ == vcs_text(*pallet, *repo),
    {
        let mut buf = String::new();
        if let Some(facts) = repo {
            let git_branch = self.get_git_branch(&facts.head);
            let git_flags = self.get_git_flags(&facts.statuses, facts.stashed);
            if let Some(b) = git_branch {
                self.write_git_branch(&mut buf, pallet, b.as_str());
                if !git_flags.is_empty() {
                    self.write_git_status(&mut buf, pallet, &git_flags);
                }
            }
        }
        buf
    }

    /// Appends `on ` and the branch, coloured.
    pub fn write_git_branch(&self, buf: &mut String, pallet: &Pallet, branch: &str)
        ensures
            final(buf)@ == old(buf)@ + branch_text(*pallet, branch@),
    {
        let on = "on ";
        proof {
            reveal_strlit("on ");
        }
        let spans = vec![(on, pallet.white), (branch, pallet.violet)];
        assert(on@ =~= seq!['o', 'n', ' ']);
        assert(spans_view(spans@) =~= seq![(seq!['o', 'n', ' '], pallet.white), (branch@, pallet.violet)]);
        let text = paint_run(&spans);
        buf.append(text.as_str());
    }

    /// Appends the glyphs of `flags` in brackets, coloured.
    pub fn write_git_status(&self, buf: &mut String, pallet: &Pallet, flags: &FlagSet)
        ensures
            final(buf)@ == old(buf)@ + flags_text(*pallet, flags@),
    {
        let flag_str = flags.glyphs();
        let open = " [";
        let close = "]";
        proof {
            reveal_strlit(" [");
            reveal_strlit("]");
        }
        let spans = vec![(open, pallet.blue), (flag_str.as_str(), pallet.blue), (close, pallet.blue)];
        assert(open@ =~= seq![' ', '[']);
        assert(close@ =~= seq![']']);
        assert(spans_view(spans@) =~= seq![
            (seq![' ', '['], pallet.blue),
            (glyph_text(flags@), pallet.blue),
            (seq![']'], pallet.blue),
        ]);
        let text = paint_run(&spans);
        buf.append(text.as_str());
    }

    /// The label of HEAD: the branch's short name, or the full id of a detached commit.
    pub fn get_git_branch(&self, head: &HeadRef) -> (r: Option<String>)
        ensures
            text_of(r) == branch_label(*head),
    {
        match head {
            HeadRef::Unresolved => None,
            HeadRef::Branch(Some(name)) => Some(name.clone()),
            HeadRef::Branch(None) => None,
            HeadRef::Detached(Some(id)) => Some(commit_hex(id)),
            HeadRef::Detached(None) => None,
        }
    }

    /// The flags shown for the given file statuses and stash state.
    pub fn get_git_flags(&self, statuses: &Vec<u32>, stashed: bool) -> (r: FlagSet)
        ensures
            r@ == flags_of(statuses@, stashed),
    {
        let mut flags = FlagSet::new();
        let mut i: usize = 0;
        while i < statuses.len()
            invariant
                i <= statuses@.len(),
                flags@.contains(GitFlags::Unversioned) == any_before(statuses@, i as int, WT_NEW),
                flags@.contains(GitFlags::Modified) == any_before(statuses@, i as int, WT_CHANGED),
                flags@.contains(GitFlags::Added) == any_before(statuses@, i as int, INDEX_CHANGED),
                !flags@.contains(GitFlags::Stashed),
            decreases statuses@.len() - i,
        {
            let status = statuses[i];
            if Self::is_unversioned(status) {
                flags.insert(GitFlags::Unversioned);
            }
            if Self::is_working_tree_modified(status) {
                flags.insert(GitFlags::Modified);
            }
            if Self::is_index_modified(status) {
                flags.insert(GitFlags::Added);
            }
            proof {
                Self::lemma_any_before_step(statuses@, i as int, WT_NEW);
                Self::lemma_any_before_step(statuses@, i as int, WT_CHANGED);
                Self::lemma_any_before_step(statuses@, i as int, INDEX_CHANGED);
            }
            i = i + 1;
        }
        if stashed {
            flags.insert(GitFlags::Stashed);
        }
        assert(flags@ =~= flags_of(statuses@, stashed));
        flags
    }

    proof fn lemma_any_before_step(statuses: Seq<u32>, i: int, mask: u32)
        requires
            0 <= i < statuses.len(),
        ensures
            any_before(statuses, i + 1, mask) == (any_before(statuses, i, mask) || has_any(
                statuses[i],
                mask,
            )),
    {
        if has_any(statuses[i], mask) {
            assert(any_before(statuses, i + 1, mask));
        }
    }

    /// Whether a file is untracked.
    pub fn is_unversioned(status: u32) -> (r: bool)
        ensures
            r == has_any(status, WT_NEW),
    {
        (status & WT_NEW) != 0
    }

    /// Whether a tracked file has unstaged changes.
    pub fn is_working_tree_modified(status: u32) -> (r: bool)
        ensures
            r == has_any(status, WT_CHANGED),
    {
        (status & WT_CHANGED) != 0
    }

    /// Whether a file has staged changes.
    pub fn is_index_modified(status: u32) -> (r: bool)
        ensures
            r == has_any(status, INDEX_CHANGED),
    {
        (status & INDEX_CHANGED) != 0
    }
}

} // verus!
