//! Classification of working-tree status entries into summary flags.

use vstd::prelude::*;

verus! {

/// An entry's status as libgit2 reports it (`git_status_t`): no bit set
/// means the path is unchanged.
pub const CURRENT: u32 = 0;
pub const INDEX_NEW: u32 = 1;
pub const INDEX_MODIFIED: u32 = 2;
pub const INDEX_DELETED: u32 = 4;
pub const INDEX_RENAMED: u32 = 8;
pub const INDEX_TYPECHANGE: u32 = 16;
pub const WT_NEW: u32 = 128;
pub const WT_MODIFIED: u32 = 256;
pub const WT_DELETED: u32 = 512;
pub const WT_TYPECHANGE: u32 = 1024;
pub const WT_RENAMED: u32 = 2048;

/// The five facts that the summary shows about a working tree.
#[derive(Clone, Copy, Debug, PartialEq, Eq, Structural)]
pub struct Flags {
    pub dirty: bool,
    pub new_files: bool,
    pub untracked: bool,
    pub deleted: bool,
    pub moved: bool,
}

pub open spec fn has_bit(s: u32, bit: u32) -> bool {
    s & bit != 0
}

pub open spec fn entry_dirty(s: u32) -> bool {
    has_bit(s, INDEX_MODIFIED) || has_bit(s, INDEX_TYPECHANGE) || has_bit(s, WT_MODIFIED)
        || has_bit(s, WT_TYPECHANGE)
}

pub open spec fn entry_new(s: u32) -> bool {
    has_bit(s, INDEX_NEW)
}

pub open spec fn entry_untracked(s: u32) -> bool {
    has_bit(s, WT_NEW)
}

pub open spec fn entry_deleted(s: u32) -> bool {
    has_bit(s, INDEX_DELETED) || has_bit(s, WT_DELETED)
}

pub open spec fn entry_moved(s: u32) -> bool {
    has_bit(s, INDEX_RENAMED) || has_bit(s, WT_RENAMED)
}

/// Some entry of `entries` that is not `CURRENT` satisfies `p`.
pub open spec fn any_entry(entries: Seq<u32>, p: spec_fn(u32) -> bool) -> bool {
    exists|i: int| 0 <= i < entries.len() && entries[i] != CURRENT && p(#[trigger] entries[i])
}

/// The flags of a set of status entries: each is set iff some changed entry
/// carries a bit of its category.
pub open spec fn flags_of(entries: Seq<u32>) -> Flags {
    Flags {
        dirty: any_entry(entries, |s: u32| entry_dirty(s)),
        new_files: any_entry(entries, |s: u32| entry_new(s)),
        untracked: any_entry(entries, |s: u32| entry_untracked(s)),
        deleted: any_entry(entries, |s: u32| entry_deleted(s)),
        moved: any_entry(entries, |s: u32| entry_moved(s)),
    }
}

impl Flags {
    /// No flag is set.
    pub open spec fn spec_is_clean(self) -> bool {
        !self.dirty && !self.new_files && !self.untracked && !self.deleted && !self.moved
    }

    #[verifier::when_used_as_spec(spec_is_clean)]
    pub fn is_clean(self) -> (r: bool)
        ensures
            r == self.spec_is_clean(),
    {
        !self.dirty && !self.new_files && !self.untracked && !self.deleted && !self.moved
    }
}

/// Folds the status entries of a working tree into its flags, skipping the
/// entries that are unchanged.
pub fn classify(entries: &Vec<u32>) -> (f: Flags)
    ensures
        f == flags_of(entries@),
{
    let mut f = Flags {
        dirty: false,
        new_files: false,
        untracked: false,
        deleted: false,
        moved: false,
    };
    let mut i: usize = 0;
    while i < entries.len()
        invariant
            i <= entries@.len(),
            f == flags_of(entries@.take(i as int)),
        decreases entries@.len() - i,
    {
        let s = entries[i];
        if s != CURRENT {
            f.new_files = f.new_files || s & INDEX_NEW != 0;
            f.untracked = f.untracked || s & WT_NEW != 0;
            f.deleted = f.deleted || s & INDEX_DELETED != 0 || s & WT_DELETED != 0;
            f.moved = f.moved || s & INDEX_RENAMED != 0 || s & WT_RENAMED != 0;
            f.dirty = f.dirty || s & INDEX_MODIFIED != 0 || s & INDEX_TYPECHANGE != 0
                || s & WT_MODIFIED != 0 || s & WT_TYPECHANGE != 0;
        }
        proof {
            lemma_flags_of_push(entries@.take(i as int), s);
            assert(entries@.take(i as int).push(s) =~= entries@.take(i + 1));
        }
        i = i + 1;
    }
    assert(entries@.take(i as int) =~= entries@);
    f
}

/// Adding one entry sets exactly the flags of that entry, if it is changed.
pub proof fn lemma_flags_of_push(entries: Seq<u32>, s: u32)
    ensures
        ({
            let before = flags_of(entries);
            let after = flags_of(entries.push(s));
            let c = s != CURRENT;
            after == (Flags {
                dirty: before.dirty || (c && entry_dirty(s)),
                new_files: before.new_files || (c && entry_new(s)),
                untracked: before.untracked || (c && entry_untracked(s)),
                deleted: before.deleted || (c && entry_deleted(s)),
                moved: before.moved || (c && entry_moved(s)),
            })
        }),
{
    lemma_any_entry_push(entries, s, |x: u32| entry_dirty(x));
    lemma_any_entry_push(entries, s, |x: u32| entry_new(x));
    lemma_any_entry_push(entries, s, |x: u32| entry_untracked(x));
    lemma_any_entry_push(entries, s, |x: u32| entry_deleted(x));
    lemma_any_entry_push(entries, s, |x: u32| entry_moved(x));
}

proof fn lemma_any_entry_push(entries: Seq<u32>, s: u32, p: spec_fn(u32) -> bool)
    ensures
        any_entry(entries.push(s), p) == (any_entry(entries, p) || (s != CURRENT && p(s))),
{
    let e2 = entries.push(s);
    let n = entries.len() as int;
    assert(e2[n] == s);
    if any_entry(entries, p) {
        let i = choose|i: int| 0 <= i < entries.len() && entries[i] != CURRENT && p(#[trigger] entries[i]);
        assert(e2[i] == entries[i]);
    }
    if any_entry(e2, p) {
        let i = choose|i: int| 0 <= i < e2.len() && e2[i] != CURRENT && p(#[trigger] e2[i]);
        if i < n {
            assert(e2[i] == entries[i]);
        }
    }
}

/// When every changed entry is a newly staged file, the "new" flag is the
/// only one set.
pub proof fn lemma_only_index_new(entries: Seq<u32>)
    requires
        entries.len() > 0,
        forall|i: int| 0 <= i < entries.len() ==> entries[i] == INDEX_NEW,
    ensures
        flags_of(entries) == (Flags {
            dirty: false,
            new_files: true,
            untracked: false,
            deleted: false,
            moved: false,
        }),
{
    assert forall|i: int| 0 <= i < entries.len() implies entry_new(entries[i]) && !entry_dirty(
        entries[i],
    ) && !entry_untracked(entries[i]) && !entry_deleted(entries[i]) && !entry_moved(
        entries[i],
    ) by {
        let s = entries[i];
        assert(s == 1u32 ==> (s & 1u32 != 0 && s & 2u32 == 0 && s & 4u32 == 0 && s & 8u32 == 0
            && s & 16u32 == 0 && s & 128u32 == 0 && s & 256u32 == 0 && s & 512u32 == 0 && s
            & 1024u32 == 0 && s & 2048u32 == 0)) by (bit_vector);
    }
    assert(entries[0] != CURRENT && entry_new(entries[0]));
}

/// Entries that are all unchanged set no flag: the working tree is clean.
pub proof fn lemma_unchanged_is_clean(entries: Seq<u32>)
    requires
        forall|i: int| 0 <= i < entries.len() ==> entries[i] == CURRENT,
    ensures
        flags_of(entries).spec_is_clean(),
{
}

/// The flags depend on which statuses occur among the entries, not on their
/// order or on how often each occurs.
pub proof fn lemma_flags_depend_on_entry_set(e1: Seq<u32>, e2: Seq<u32>)
    requires
        e1.to_set() == e2.to_set(),
    ensures
        flags_of(e1) == flags_of(e2),
{
    lemma_any_entry_same_set(e1, e2, |x: u32| entry_dirty(x));
    lemma_any_entry_same_set(e1, e2, |x: u32| entry_new(x));
    lemma_any_entry_same_set(e1, e2, |x: u32| entry_untracked(x));
    lemma_any_entry_same_set(e1, e2, |x: u32| entry_deleted(x));
    lemma_any_entry_same_set(e1, e2, |x: u32| entry_moved(x));
}

proof fn lemma_any_entry_same_set(e1: Seq<u32>, e2: Seq<u32>, p: spec_fn(u32) -> bool)
    requires
        e1.to_set() == e2.to_set(),
    ensures
        any_entry(e1, p) == any_entry(e2, p),
{
    if any_entry(e1, p) {
        lemma_any_entry_subset(e1, e2, p);
    }
    if any_entry(e2, p) {
        lemma_any_entry_subset(e2, e1, p);
    }
}

proof fn lemma_any_entry_subset(e1: Seq<u32>, e2: Seq<u32>, p: spec_fn(u32) -> bool)
    requires
        e1.to_set() == e2.to_set(),
        any_entry(e1, p),
    ensures
        any_entry(e2, p),
{
    let i = choose|i: int| 0 <= i < e1.len() && e1[i] != CURRENT && p(#[trigger] e1[i]);
    assert(e1.contains(e1[i]));
    assert(e1.to_set().contains(e1[i]));
    assert(e2.contains(e1[i]));
    let j = choose|j: int| 0 <= j < e2.len() && e2[j] == e1[i];
    assert(p(e2[j]));
}

} // verus!
