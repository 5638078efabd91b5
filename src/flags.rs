use vstd::prelude::*;
use vstd::string::StringExecFns;

verus! {

/// A state that files in a git repository, or the repository itself, may be in.
///
/// The order of declaration is the order in which flags are displayed.
#[derive(Debug, Clone, Copy, PartialEq, Eq, Structural)]
pub enum GitFlags {
    /// Files that git does not track yet.
    Unversioned,
    /// Changes in the working tree that are not staged.
    Modified,
    /// Changes staged in the index.
    Added,
    /// At least one stash entry.
    Stashed,
}

/// The character shown for a flag.
pub open spec fn glyph(f: GitFlags) -> char {
    match f {
        GitFlags::Unversioned => '?',
        GitFlags::Modified => '!',
        GitFlags::Added => '+',
        GitFlags::Stashed => '$',
    }
}

/// The place of a flag in display order.
pub open spec fn rank(f: GitFlags) -> int {
    match f {
        GitFlags::Unversioned => 0,
        GitFlags::Modified => 1,
        GitFlags::Added => 2,
        GitFlags::Stashed => 3,
    }
}

/// The flags of `s`, each once, in display order.
pub open spec fn ordered(s: Set<GitFlags>) -> Seq<GitFlags> {
    (if s.contains(GitFlags::Unversioned) { seq![GitFlags::Unversioned] } else { seq![] })
        + (if s.contains(GitFlags::Modified) { seq![GitFlags::Modified] } else { seq![] })
        + (if s.contains(GitFlags::Added) { seq![GitFlags::Added] } else { seq![] })
        + (if s.contains(GitFlags::Stashed) { seq![GitFlags::Stashed] } else { seq![] })
}

/// The glyphs of the flags of `s`, in display order.
pub open spec fn glyph_text(s: Set<GitFlags>) -> Seq<char> {
    ordered(s).map_values(|f: GitFlags| glyph(f))
}

impl GitFlags {
    /// The glyph of this flag as a string.
    pub fn val(&self) -> (r: &'static str)
        ensures
            r@ == seq![glyph(*self)],
    {
        match self {
            GitFlags::Unversioned => {
                proof {
                    reveal_strlit("?");
                }
                "?"
            },
            GitFlags::Modified => {
                proof {
                    reveal_strlit("!");
                }
                "!"
            },
            GitFlags::Added => {
                proof {
                    reveal_strlit("+");
                }
                "+"
            },
            GitFlags::Stashed => {
                proof {
                    reveal_strlit("$");
                }
                "$"
            },
        }
    }
}

/// A set of flags, each present or absent.
#[derive(Debug, Clone, Copy, PartialEq, Eq, Structural)]
pub struct FlagSet {
    unversioned: bool,
    modified: bool,
    added: bool,
    stashed: bool,
}

impl View for FlagSet {
    type V = Set<GitFlags>;

    closed spec fn view(&self) -> Set<GitFlags> {
        Set::new(
            |f: GitFlags|
                match f {
                    GitFlags::Unversioned => self.unversioned,
                    GitFlags::Modified => self.modified,
                    GitFlags::Added => self.added,
                    GitFlags::Stashed => self.stashed,
                },
        )
    }
}

impl FlagSet {
    /// The empty set.
    pub fn new() -> (r: FlagSet)
        ensures
            r@ == Set::<GitFlags>::empty(),
    {
        let r = FlagSet { unversioned: false, modified: false, added: false, stashed: false };
        assert(r@ =~= Set::<GitFlags>::empty());
        r
    }

    /// Adds `f`; adding a flag that is present already changes nothing.
    pub fn insert(&mut self, f: GitFlags)
        ensures
            final(self)@ == old(self)@.insert(f),
    {
        match f {
            GitFlags::Unversioned => self.unversioned = true,
            GitFlags::Modified => self.modified = true,
            GitFlags::Added => self.added = true,
            GitFlags::Stashed => self.stashed = true,
        }
        assert(self@ =~= old(self)@.insert(f));
    }

    /// Whether `f` is in the set.
    pub fn contains(&self, f: GitFlags) -> (r: bool)
        ensures
            r == self@.contains(f),
    {
        match f {
            GitFlags::Unversioned => self.unversioned,
            GitFlags::Modified => self.modified,
            GitFlags::Added => self.added,
            GitFlags::Stashed => self.stashed,
        }
    }

    /// Whether no flag is set.
    pub fn is_empty(&self) -> (r: bool)
        ensures
            r == (self@ == Set::<GitFlags>::empty()),
    {
        let r = !(self.unversioned || self.modified || self.added || self.stashed);
        if r {
            assert(self@ =~= Set::<GitFlags>::empty());
        } else {
            assert(self@.contains(GitFlags::Unversioned) || self@.contains(GitFlags::Modified)
                || self@.contains(GitFlags::Added) || self@.contains(GitFlags::Stashed));
        }
        r
    }

    /// The flags of the set, in display order.
    pub fn to_vec(&self) -> (r: Vec<GitFlags>)
        ensures
            r@ == ordered(self@),
    {
        let mut r: Vec<GitFlags> = Vec::new();
        if self.unversioned {
            r.push(GitFlags::Unversioned);
        }
        if self.modified {
            r.push(GitFlags::Modified);
        }
        if self.added {
            r.push(GitFlags::Added);
        }
        if self.stashed {
            r.push(GitFlags::Stashed);
        }
        assert(r@ =~= ordered(self@));
        r
    }

    /// The glyphs of the set's flags, in display order, with nothing between them.
    pub fn glyphs(&self) -> (r: String)
        ensures
            r@ == glyph_text(self@),
    {
        let flags = self.to_vec();
        let mut r = String::new();
        let mut i: usize = 0;
        while i < flags.len()
            invariant
                flags@ == ordered(self@),
                i <= flags@.len(),
                r@ == flags@.take(i as int).map_values(|f: GitFlags| glyph(f)),
            decreases flags@.len() - i,
        {
            let g = flags[i].val();
            r.append(g);
            assert(flags@.take(i + 1) == flags@.take(i as int).push(flags@[i as int]));
            assert(r@ =~= flags@.take(i + 1).map_values(|f: GitFlags| glyph(f)));
            i = i + 1;
        }
        assert(flags@.take(i as int) == flags@);
        r
    }
}

} // verus!
