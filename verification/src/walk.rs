//! The shared vocabulary of directory traversal: one listed entry, the
//! depth-first pending stack, and first-match / all-matches searches over a
//! directory listing.
//!
//! Traversal order, used by every scanner of this crate: the entries of a
//! directory are considered in enumeration order, and directories are visited
//! depth-first — all children of a directory before its later siblings. The
//! pending stack realises this: children are pushed in reverse enumeration
//! order and popped from the back.

use crate::strutil::component_suffix_matches;
use vstd::prelude::*;

verus! {

/// One entry of a directory listing, as the caller read it: its path and
/// whether it is itself a directory.
#[derive(Clone, Debug)]
pub struct FsEntry {
    pub path: String,
    pub is_dir: bool,
}

/// The paths of the directory entries of a listing, in enumeration order.
pub open spec fn child_dirs(es: Seq<FsEntry>) -> Seq<String>
    decreases es.len(),
{
    if es.len() == 0 {
        Seq::empty()
    } else {
        child_dirs(es.drop_last()) + if es.last().is_dir {
            seq![es.last().path]
        } else {
            Seq::empty()
        }
    }
}

/// `child_dirs` distributes over concatenation.
pub proof fn lemma_child_dirs_concat(a: Seq<FsEntry>, b: Seq<FsEntry>)
    ensures
        child_dirs(a + b) == child_dirs(a) + child_dirs(b),
    decreases b.len(),
{
    if b.len() == 0 {
        assert(a + b =~= a);
        assert(child_dirs(a) + child_dirs(b) =~= child_dirs(a));
    } else {
        lemma_child_dirs_concat(a, b.drop_last());
        assert((a + b).drop_last() =~= a + b.drop_last());
        assert((a + b).last() == b.last());
        if b.last().is_dir {
            assert(child_dirs(a) + child_dirs(b.drop_last()) + seq![b.last().path]
                =~= child_dirs(a) + (child_dirs(b.drop_last()) + seq![b.last().path]));
        } else {
            assert(child_dirs(a) + child_dirs(b.drop_last()) + Seq::<String>::empty()
                =~= child_dirs(a) + (child_dirs(b.drop_last()) + Seq::<String>::empty()));
        }
    }
}

/// Pushes the child directories of a listing onto the pending stack in
/// reverse enumeration order, so that popping from the back visits them in
/// enumeration order, depth-first.
pub fn push_child_dirs(pending: &mut Vec<String>, entries: &Vec<FsEntry>)
    ensures
        final(pending)@ == old(pending)@ + child_dirs(entries@).reverse(),
{
    let ghost pending0 = old(pending)@;
    let mut i: usize = entries.len();
    while i > 0
        invariant
            i <= entries@.len(),
            pending@ == pending0 + child_dirs(entries@.skip(i as int)).reverse(),
        decreases i,
    {
        i = i - 1;
        let e = &entries[i];
        proof {
            let e_i = entries@[i as int];
            assert(entries@.skip(i as int) =~= seq![e_i] + entries@.skip(i as int + 1));
            lemma_child_dirs_concat(seq![e_i], entries@.skip(i as int + 1));
            assert(seq![e_i].drop_last() =~= Seq::<FsEntry>::empty());
            assert(child_dirs(Seq::<FsEntry>::empty()) =~= Seq::<String>::empty());
            if e_i.is_dir {
                assert(child_dirs(seq![e_i]) =~= seq![e_i.path]);
            } else {
                assert(child_dirs(seq![e_i]) =~= Seq::<String>::empty());
            }
        }
        if e.is_dir {
            pending.push(e.path.clone());
            proof {
                assert(child_dirs(entries@.skip(i as int)).reverse() =~= child_dirs(
                    entries@.skip(i as int + 1),
                ).reverse().push(entries@[i as int].path));
            }
        } else {
            proof {
                assert(child_dirs(entries@.skip(i as int)).reverse() =~= child_dirs(
                    entries@.skip(i as int + 1),
                ).reverse());
            }
        }
    }
    proof {
        assert(entries@.skip(0) =~= entries@);
    }
}

/// The path of the first entry of the listing that has the wanted kind
/// (directory or file) and whose path ends with `suffix` as final path
/// components (the match sits at a `/` boundary); `None` when the listing
/// holds no such entry.
pub open spec fn first_entry_match(es: Seq<FsEntry>, want_dir: bool, suffix: Seq<char>) -> Option<
    String,
>
    decreases es.len(),
{
    if es.len() == 0 {
        None
    } else if es[0].is_dir == want_dir && component_suffix_matches(es[0].path@, suffix) {
        Some(es[0].path)
    } else {
        first_entry_match(es.drop_first(), want_dir, suffix)
    }
}

/// A first match is unaffected by dropping a matchless prefix.
proof fn lemma_first_entry_match_skip(es: Seq<FsEntry>, want_dir: bool, suffix: Seq<char>, i: int)
    requires
        0 <= i <= es.len(),
        forall|j: int|
            0 <= j < i ==> !((#[trigger] es[j]).is_dir == want_dir && component_suffix_matches(
                es[j].path@,
                suffix,
            )),
    ensures
        first_entry_match(es, want_dir, suffix) == first_entry_match(es.skip(i), want_dir, suffix),
    decreases i,
{
    if i > 0 {
        assert(es.skip(1) =~= es.drop_first());
        lemma_first_entry_match_skip(es.drop_first(), want_dir, suffix, i - 1);
        assert(es.drop_first().skip(i - 1) =~= es.skip(i));
    } else {
        assert(es.skip(0) =~= es);
    }
}

/// Scans a listing for its first entry of the wanted kind whose path ends
/// with `suffix` as final path components.
pub fn find_entry_match(entries: &Vec<FsEntry>, want_dir: bool, suffix: &str) -> (r: Option<String>)
    ensures
        r == first_entry_match(entries@, want_dir, suffix@),
{
    let mut i: usize = 0;
    while i < entries.len()
        invariant
            i <= entries@.len(),
            forall|j: int|
                0 <= j < i ==> !((#[trigger] entries@[j]).is_dir == want_dir && component_suffix_matches(
                    entries@[j].path@,
                    suffix@,
                )),
        decreases entries@.len() - i,
    {
        let e = &entries[i];
        if e.is_dir == want_dir && crate::strutil::path_ends_with_component(e.path.as_str(), suffix) {
            proof {
                lemma_first_entry_match_skip(entries@, want_dir, suffix@, i as int);
                assert(entries@.skip(i as int)[0] == entries@[i as int]);
            }
            return Some(e.path.clone());
        }
        i = i + 1;
    }
    proof {
        lemma_first_entry_match_skip(entries@, want_dir, suffix@, i as int);
        assert(entries@.skip(i as int) =~= Seq::<FsEntry>::empty());
    }
    None
}

/// The paths of every file entry of the listing whose path ends with
/// `suffix` as final path components, in enumeration order.
pub open spec fn files_with_suffix(es: Seq<FsEntry>, suffix: Seq<char>) -> Seq<String>
    decreases es.len(),
{
    if es.len() == 0 {
        Seq::empty()
    } else {
        files_with_suffix(es.drop_last(), suffix) + if !es.last().is_dir && component_suffix_matches(
            es.last().path@,
            suffix,
        ) {
            seq![es.last().path]
        } else {
            Seq::empty()
        }
    }
}

/// Collects every file of the listing whose path ends with `suffix` as
/// final path components, in enumeration order.
pub fn collect_files_with_suffix(entries: &Vec<FsEntry>, suffix: &str) -> (r: Vec<String>)
    ensures
        r@ == files_with_suffix(entries@, suffix@),
{
    let mut out: Vec<String> = Vec::new();
    let mut i: usize = 0;
    while i < entries.len()
        invariant
            i <= entries@.len(),
            out@ == files_with_suffix(entries@.take(i as int), suffix@),
        decreases entries@.len() - i,
    {
        let e = &entries[i];
        proof {
            assert(entries@.take(i as int + 1).drop_last() =~= entries@.take(i as int));
            assert(entries@.take(i as int + 1).last() == entries@[i as int]);
        }
        if !e.is_dir && crate::strutil::path_ends_with_component(e.path.as_str(), suffix) {
            out.push(e.path.clone());
            proof {
                assert(out@ =~= files_with_suffix(entries@.take(i as int + 1), suffix@));
            }
        } else {
            proof {
                assert(out@ =~= files_with_suffix(entries@.take(i as int + 1), suffix@));
            }
        }
        i = i + 1;
    }
    proof {
        assert(entries@.take(entries@.len() as int) =~= entries@);
    }
    out
}

} // verus!
