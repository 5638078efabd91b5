use vstd::prelude::*;

use crate::flags::{glyph, glyph_text, ordered, rank, GitFlags};
use crate::style::{ansi_rest, ansi_run, prefix_of, reset, Pallet};
use crate::vcs::{
    branch_label, flags_of, flags_text, has_any, hex_of, vcs_text, HeadRef, RepoFacts,
    INDEX_CHANGED, WT_CHANGED,
};

verus! {

/// A file with both an unstaged and a staged change makes the repository
/// show both `Modified` and `Added`.
pub proof fn lemma_staged_and_unstaged_change(statuses: Seq<u32>, stashed: bool, i: int)
    requires
        0 <= i < statuses.len(),
        has_any(statuses[i], WT_CHANGED),
        has_any(statuses[i], INDEX_CHANGED),
    ensures
        flags_of(statuses, stashed).contains(GitFlags::Modified),
        flags_of(statuses, stashed).contains(GitFlags::Added),
{
}

/// `Stashed` is shown exactly when the repository has a stash entry, whatever
/// its files' statuses.
pub proof fn lemma_stash_flag(statuses: Seq<u32>, stashed: bool)
    ensures
        flags_of(statuses, stashed).contains(GitFlags::Stashed) == stashed,
{
}

/// Whatever the order in which flags were found, the glyphs shown are those of
/// the flags found, each once, in the order `?`, `!`, `+`, `$`.
pub proof fn lemma_glyphs_in_display_order(found: Seq<GitFlags>, other: Seq<GitFlags>)
    requires
        forall|f: GitFlags| found.contains(f) <==> other.contains(f),
    ensures
        glyph_text(found.to_set()) == glyph_text(other.to_set()),
        glyph_text(found.to_set()) == ordered(found.to_set()).map_values(|f: GitFlags| glyph(f)),
        forall|f: GitFlags| ordered(found.to_set()).contains(f) <==> found.contains(f),
        forall|i: int, j: int|
            0 <= i < j < ordered(found.to_set()).len() ==> rank(ordered(found.to_set())[i]) < rank(
                ordered(found.to_set())[j],
            ),
{
    assert(found.to_set() =~= other.to_set());
    let s = found.to_set();
    let o = ordered(s);
    assert forall|f: GitFlags| o.contains(f) <==> found.contains(f) by {
        if o.contains(f) {
            let k = choose|k: int| 0 <= k < o.len() && o[k] == f;
            assert(s.contains(o[k]));
        }
        if found.contains(f) {
            assert(s.contains(f));
            match f {
                GitFlags::Unversioned => assert(o[0] == f),
                GitFlags::Modified => {
                    let k: int = if s.contains(GitFlags::Unversioned) { 1 } else { 0 };
                    assert(o[k] == f);
                },
                GitFlags::Added => {
                    let k: int = (if s.contains(GitFlags::Unversioned) { 1int } else { 0int }) + (
                    if s.contains(GitFlags::Modified) { 1int } else { 0int });
                    assert(o[k] == f);
                },
                GitFlags::Stashed => {
                    let k: int = (if s.contains(GitFlags::Unversioned) { 1int } else { 0int }) + (
                    if s.contains(GitFlags::Modified) { 1int } else { 0int }) + (if s.contains(
                        GitFlags::Added,
                    ) { 1int } else { 0int });
                    assert(o[k] == f);
                },
            }
        }
    }
}

/// The flags part of the status line is a single blue run: one colour code,
/// ` [`, the glyphs, `]`, and one reset.
pub proof fn lemma_flags_text_is_one_run(p: Pallet, flags: Set<GitFlags>)
    ensures
        flags_text(p, flags) == prefix_of(p.blue) + seq![' ', '['] + glyph_text(flags) + seq![']']
            + reset(),
{
    let spans = seq![(seq![' ', '['], p.blue), (glyph_text(flags), p.blue), (seq![']'], p.blue)];
    assert(ansi_rest(spans, 3) == Seq::<char>::empty());
    assert(ansi_rest(spans, 2) =~= seq![']'] + ansi_rest(spans, 3));
    assert(ansi_rest(spans, 1) =~= glyph_text(flags) + ansi_rest(spans, 2));
    assert(ansi_run(spans) =~= prefix_of(p.blue) + seq![' ', '['] + glyph_text(flags) + seq![']']
        + reset());
}

/// The hex form of bytes has two digits per byte.
pub proof fn lemma_hex_length(bytes: Seq<u8>)
    ensures
        hex_of(bytes).len() == 2 * bytes.len(),
    decreases bytes.len(),
{
    if bytes.len() > 0 {
        lemma_hex_length(bytes.drop_first());
    }
}

/// A detached HEAD is labelled with the full id of its commit, all 40 hex
/// digits, never a shortened form.
pub proof fn lemma_detached_label_is_full_id(id: [u8; 20])
    ensures
        branch_label(HeadRef::Detached(Some(id))) == Some(hex_of(id@)),
        hex_of(id@).len() == 40,
{
    lemma_hex_length(id@);
}

/// Status mode prints the same text for the same repository state: the same
/// label of HEAD, the same file statuses and the same stash state.
pub proof fn lemma_status_output_repeatable(p: Pallet, a: RepoFacts, b: RepoFacts)
    requires
        branch_label(a.head) == branch_label(b.head),
        a.statuses@ == b.statuses@,
        a.stashed == b.stashed,
    ensures
        vcs_text(p, Some(a)) == vcs_text(p, Some(b)),
{
}

} // verus!
