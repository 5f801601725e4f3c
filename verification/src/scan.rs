//! The two cache-tree scans.
//!
//! The single-repository scan is a two-stage search: first for the first
//! directory whose path ends with the repository tag (matched as final path
//! components), then, inside that
//! subtree only, for the first metadata document; both searches stop for good
//! once the document is found, and a decode failure of that one committed
//! document aborts the scan. The aggregate scan never stops early: it visits
//! every directory beneath the cache root, takes in every metadata document,
//! and skips the ones that fail to decode.
//!
//! Both are state machines over a depth-first pending stack; the caller
//! performs the directory reads and the document decodes and hands the
//! results back (`on_listing`, `on_document`).

use crate::error::DecodeError;
use crate::package::{Package, Repo};
use crate::repository::Repository;
use crate::walk::{
    child_dirs, collect_files_with_suffix, files_with_suffix, find_entry_match, first_entry_match,
    push_child_dirs, FsEntry,
};
use vstd::prelude::*;

verus! {

/// Where the single-repository scan stands.
#[derive(Clone, Copy, Debug, PartialEq, Eq, Structural)]
pub enum ScanPhase {
    /// Still searching the cache tree for the tag's directory.
    SearchingRepo,
    /// Tag directory found; searching its subtree for the metadata document.
    SearchingDocument,
    /// Document found and handed to the caller to decode; traversal is over.
    AwaitingDocument,
    /// Terminal: exhausted, aborted, or the document was taken in.
    Finished,
}

/// The single-repository scan: finds the first directory whose path ends
/// with `tag` as final path components, then the first metadata document
/// inside it, and yields that document's packages. An exhausted search yields zero packages and no
/// error; a decode failure of the one committed document ends the scan with
/// that error.
pub struct RepositoryPackageScanner {
    /// The repository tag searched for; a directory matches when its path
    /// ends with the tag as final path components.
    pub tag: String,
    pub phase: ScanPhase,
    /// Directories still to list, popped from the back, depth-first.
    pub pending: Vec<String>,
    /// The packages gathered, in document order.
    pub packages: Vec<Package>,
    /// The decode failure of the committed document, if any.
    pub error: Option<DecodeError>,
    /// Whether some directory listing has been taken in.
    pub started: bool,
}

impl RepositoryPackageScanner {
    /// The no-match law, kept by every step: until the one committed
    /// document has been taken in, the scan has yielded nothing and holds no
    /// error. Since only a listing whose tag directory matches can advance
    /// the phase, a traversal over a tree with no matching directory stays
    /// in its searching stage until the pending stack empties, and then
    /// finishes with zero packages and no error.
    pub open spec fn wf(&self) -> bool {
        self.phase != ScanPhase::Finished ==> (self.packages@.len() == 0 && self.error is None)
    }

    /// A scan for `tag` over the cache tree under `cache_root`.
    pub fn new(tag: String, cache_root: String) -> (r: Self)
        ensures
            r.tag == tag,
            r.phase == ScanPhase::SearchingRepo,
            r.pending@ == seq![cache_root],
            r.packages@ == Seq::<Package>::empty(),
            r.error is None,
            !r.started,
            r.wf(),
    {
        let mut pending: Vec<String> = Vec::new();
        pending.push(cache_root);
        proof {
            assert(pending@ =~= seq![cache_root]);
        }
        RepositoryPackageScanner {
            tag,
            phase: ScanPhase::SearchingRepo,
            pending,
            packages: Vec::new(),
            error: None,
            started: false,
        }
    }

    /// The next directory to list, depth-first. `None` ends the traversal:
    /// either the search is exhausted (the scan finishes with zero packages
    /// and no error) or the scan already left its searching stages.
    pub fn next_dir(&mut self) -> (r: Option<String>)
        ensures
            final(self).tag == old(self).tag,
            final(self).packages == old(self).packages,
            final(self).error == old(self).error,
            final(self).started == old(self).started,
            old(self).wf() ==> final(self).wf(),
            (old(self).phase == ScanPhase::SearchingRepo || old(self).phase
                == ScanPhase::SearchingDocument) && old(self).pending@.len() > 0 ==> (r == Some(
                old(self).pending@.last(),
            ) && final(self).pending@ == old(self).pending@.drop_last() && final(self).phase == old(self).phase),
            (old(self).phase == ScanPhase::SearchingRepo || old(self).phase
                == ScanPhase::SearchingDocument) && old(self).pending@.len() == 0 ==> (r is None
                && final(self).phase == ScanPhase::Finished && final(self).pending == old(self).pending),
            (old(self).phase == ScanPhase::AwaitingDocument || old(self).phase
                == ScanPhase::Finished) ==> (r is None && *final(self) == *old(self)),
    {
        match self.phase {
            ScanPhase::SearchingRepo | ScanPhase::SearchingDocument => {
                if self.pending.len() == 0 {
                    self.phase = ScanPhase::Finished;
                    None
                } else {
                    self.pending.pop()
                }
            },
            _ => None,
        }
    }

    /// Takes in the listing of the directory `next_dir` handed out.
    ///
    /// While searching for the tag: the first directory entry whose path ends
    /// with the tag wins — the pending stack is replaced by that single
    /// subtree and the search turns to the document; with no match the
    /// descent continues. While searching for the document: the first file
    /// entry ending with the metadata marker is returned for the caller to
    /// decode, and the traversal stops for good; with no match the descent
    /// continues.
    pub fn on_listing(&mut self, entries: &Vec<FsEntry>) -> (doc: Option<String>)
        requires
            old(self).phase == ScanPhase::SearchingRepo || old(self).phase
                == ScanPhase::SearchingDocument,
        ensures
            final(self).tag == old(self).tag,
            final(self).packages == old(self).packages,
            final(self).error == old(self).error,
            final(self).started,
            old(self).wf() ==> final(self).wf(),
            old(self).phase == ScanPhase::SearchingRepo ==> doc is None && match first_entry_match(
                entries@,
                true,
                old(self).tag@,
            ) {
                Some(p) => final(self).phase == ScanPhase::SearchingDocument && final(self).pending@ == seq![p],
                None => final(self).phase == ScanPhase::SearchingRepo && final(self).pending@
                    == old(self).pending@ + child_dirs(entries@).reverse(),
            },
            old(self).phase == ScanPhase::SearchingDocument ==> match first_entry_match(
                entries@,
                false,
                "primary.xml"@,
            ) {
                Some(p) => doc == Some(p) && final(self).phase == ScanPhase::AwaitingDocument
                    && final(self).pending@ == Seq::<String>::empty(),
                None => doc is None && final(self).phase == ScanPhase::SearchingDocument && final(self).pending@ == old(self).pending@ + child_dirs(entries@).reverse(),
            },
    {
        self.started = true;
        match self.phase {
            ScanPhase::SearchingRepo => {
                match find_entry_match(entries, true, self.tag.as_str()) {
                    Some(p) => {
                        let mut sub: Vec<String> = Vec::new();
                        sub.push(p);
                        self.pending = sub;
                        self.phase = ScanPhase::SearchingDocument;
                        proof {
                            assert(self.pending@ =~= seq![
                                first_entry_match(entries@, true, old(self).tag@)->Some_0,
                            ]);
                        }
                        None
                    },
                    None => {
                        push_child_dirs(&mut self.pending, entries);
                        None
                    },
                }
            },
            ScanPhase::SearchingDocument => {
                match find_entry_match(entries, false, "primary.xml") {
                    Some(p) => {
                        self.pending = Vec::new();
                        self.phase = ScanPhase::AwaitingDocument;
                        proof {
                            assert(self.pending@ =~= Seq::<String>::empty());
                        }
                        Some(p)
                    },
                    None => {
                        push_child_dirs(&mut self.pending, entries);
                        None
                    },
                }
            },
            _ => {
                proof {
                    assert(false);
                }
                None
            },
        }
    }

    /// Whether a failure to list a directory is fatal: it is exactly when
    /// the traversal root itself could not be listed. Later listing failures
    /// skip the directory and the search continues.
    pub fn listing_error_fatal(&self) -> (fatal: bool)
        ensures
            fatal == !self.started,
    {
        !self.started
    }

    /// Takes in the decode of the one committed document. On success the
    /// document's packages are gathered, in document order; on failure the
    /// scan ends with that error, yielding nothing — no fallback document is
    /// tried.
    pub fn on_document(&mut self, doc: Result<Repo, DecodeError>)
        requires
            old(self).phase == ScanPhase::AwaitingDocument,
        ensures
            final(self).tag == old(self).tag,
            final(self).pending == old(self).pending,
            final(self).started == old(self).started,
            final(self).phase == ScanPhase::Finished,
            final(self).wf(),
            match doc {
                Ok(d) => final(self).packages@ == old(self).packages@ + d.packages@ && final(self).error == old(self).error,
                Err(e) => final(self).packages == old(self).packages && final(self).error == Some(
                    e,
                ),
            },
    {
        match doc {
            Ok(d) => {
                let mut pkgs = d.packages;
                self.packages.append(&mut pkgs);
            },
            Err(e) => {
                self.error = Some(e);
            },
        }
        self.phase = ScanPhase::Finished;
    }

    /// The scan's outcome: its packages, or the decode error it aborted on.
    pub fn into_packages(self) -> (r: Result<Vec<Package>, DecodeError>)
        requires
            self.phase == ScanPhase::Finished,
        ensures
            match self.error {
                Some(e) => r == Err::<Vec<Package>, DecodeError>(e),
                None => r == Ok::<Vec<Package>, DecodeError>(self.packages),
            },
    {
        match self.error {
            Some(e) => Err(e),
            None => Ok(self.packages),
        }
    }
}

impl Repository {
    /// Begins the single-repository scan for this repository's tag over the
    /// cache tree under `cache_root`.
    pub fn scanner(&self, cache_root: String) -> (r: RepositoryPackageScanner)
        ensures
            r.tag == self.tag,
            r.phase == ScanPhase::SearchingRepo,
            r.pending@ == seq![cache_root],
            r.packages@ == Seq::<Package>::empty(),
            r.error is None,
            !r.started,
    {
        RepositoryPackageScanner::new(self.tag.clone(), cache_root)
    }
}

/// What one decoded document contributes to the aggregate: its packages, or
/// nothing when it failed to decode.
pub open spec fn doc_contribution(d: Result<Repo, DecodeError>) -> Seq<Package> {
    match d {
        Ok(r) => r.packages@,
        Err(_) => Seq::empty(),
    }
}

/// The packages gathered from a run of documents, in order: the
/// concatenation of every document's contribution.
pub open spec fn aggregate_of(ds: Seq<Result<Repo, DecodeError>>) -> Seq<Package>
    decreases ds.len(),
{
    if ds.len() == 0 {
        Seq::empty()
    } else {
        aggregate_of(ds.drop_last()) + doc_contribution(ds.last())
    }
}

/// Aggregation law: documents contribute independently and in order — a run
/// that takes in the documents `a` and then the documents `b` gathers
/// exactly the packages of `a` followed by the packages of `b`. In
/// particular, for two independent repository subtrees the aggregate is the
/// union of both documents' packages and the counts add up.
pub proof fn lemma_aggregate_concat(a: Seq<Result<Repo, DecodeError>>, b: Seq<
    Result<Repo, DecodeError>,
>)
    ensures
        aggregate_of(a + b) == aggregate_of(a) + aggregate_of(b),
    decreases b.len(),
{
    if b.len() == 0 {
        assert(a + b =~= a);
        assert(aggregate_of(a) + aggregate_of(b) =~= aggregate_of(a));
    } else {
        lemma_aggregate_concat(a, b.drop_last());
        assert((a + b).drop_last() =~= a + b.drop_last());
        assert((a + b).last() == b.last());
        assert(aggregate_of(a) + aggregate_of(b.drop_last()) + doc_contribution(b.last())
            =~= aggregate_of(a) + (aggregate_of(b.drop_last()) + doc_contribution(b.last())));
    }
}

/// The aggregate of two decodable documents is the first document's packages
/// followed by the second's, and its size is the sum of both counts.
pub proof fn lemma_aggregate_two_documents(d1: Repo, d2: Repo)
    ensures
        aggregate_of(seq![Ok::<Repo, DecodeError>(d1), Ok::<Repo, DecodeError>(d2)])
            == d1.packages@ + d2.packages@,
        aggregate_of(seq![Ok::<Repo, DecodeError>(d1), Ok::<Repo, DecodeError>(d2)]).len()
            == d1.packages@.len() + d2.packages@.len(),
{
    let ds = seq![Ok::<Repo, DecodeError>(d1), Ok::<Repo, DecodeError>(d2)];
    assert(ds.drop_last() =~= seq![Ok::<Repo, DecodeError>(d1)]);
    assert(seq![Ok::<Repo, DecodeError>(d1)].drop_last() =~= Seq::<
        Result<Repo, DecodeError>,
    >::empty());
    assert(aggregate_of(Seq::<Result<Repo, DecodeError>>::empty()) =~= Seq::<Package>::empty());
    assert(seq![Ok::<Repo, DecodeError>(d1)].last() == Ok::<Repo, DecodeError>(d1));
    assert(aggregate_of(seq![Ok::<Repo, DecodeError>(d1)]) =~= d1.packages@);
    assert(ds.last() == Ok::<Repo, DecodeError>(d2));
    assert(aggregate_of(ds) =~= d1.packages@ + d2.packages@);
}

/// The whole-cache aggregate scan: visits every directory beneath the cache
/// root, takes in every metadata document found anywhere below it, and
/// gathers the union of their packages, in traversal order. A document that
/// fails to decode is skipped; a directory that fails to list is skipped
/// unless it is the root itself.
pub struct CacheAggregateScanner {
    /// Directories still to list, popped from the back, depth-first.
    pub pending: Vec<String>,
    /// The packages gathered so far, in traversal order.
    pub packages: Vec<Package>,
    /// The decode outcomes taken in so far, in order.
    pub docs: Ghost<Seq<Result<Repo, DecodeError>>>,
    /// Whether some directory listing has been taken in.
    pub started: bool,
}

impl CacheAggregateScanner {
    /// The gathered packages are exactly the aggregate of the documents
    /// taken in; holds from construction and is kept by every step.
    pub open spec fn wf(&self) -> bool {
        self.packages@ == aggregate_of(self.docs@)
    }

    /// An aggregate scan of the cache tree under `cache_root`.
    pub fn new(cache_root: String) -> (r: Self)
        ensures
            r.pending@ == seq![cache_root],
            r.packages@ == Seq::<Package>::empty(),
            r.docs@ == Seq::<Result<Repo, DecodeError>>::empty(),
            !r.started,
            r.wf(),
    {
        let mut pending: Vec<String> = Vec::new();
        pending.push(cache_root);
        proof {
            assert(pending@ =~= seq![cache_root]);
        }
        CacheAggregateScanner {
            pending,
            packages: Vec::new(),
            docs: Ghost(Seq::empty()),
            started: false,
        }
    }

    /// The next directory to list, depth-first; `None` when every subtree
    /// has been visited.
    pub fn next_dir(&mut self) -> (r: Option<String>)
        ensures
            final(self).packages == old(self).packages,
            final(self).docs == old(self).docs,
            final(self).started == old(self).started,
            old(self).wf() ==> final(self).wf(),
            match r {
                Some(d) => old(self).pending@.len() > 0 && d == old(self).pending@.last()
                    && final(self).pending@ == old(self).pending@.drop_last(),
                None => old(self).pending@.len() == 0
                    && final(self).pending@ == old(self).pending@,
            },
    {
        self.pending.pop()
    }

    /// Takes in the listing of the directory `next_dir` handed out: pushes
    /// every child directory for the depth-first descent — no early stop —
    /// and returns the metadata documents of this listing, in enumeration
    /// order, for the caller to decode.
    pub fn on_listing(&mut self, entries: &Vec<FsEntry>) -> (docs: Vec<String>)
        ensures
            final(self).packages == old(self).packages,
            final(self).docs == old(self).docs,
            final(self).started,
            old(self).wf() ==> final(self).wf(),
            final(self).pending@ == old(self).pending@ + child_dirs(entries@).reverse(),
            docs@ == files_with_suffix(entries@, "primary.xml"@),
    {
        self.started = true;
        push_child_dirs(&mut self.pending, entries);
        collect_files_with_suffix(entries, "primary.xml")
    }

    /// Whether a failure to list a directory is fatal: it is exactly when
    /// the traversal root itself could not be listed. A later failure skips
    /// that subtree's contribution and the traversal continues with its
    /// siblings.
    pub fn listing_error_fatal(&self) -> (fatal: bool)
        ensures
            fatal == !self.started,
    {
        !self.started
    }

    /// Takes in one document's decode outcome: a decoded document
    /// contributes its packages, in document order; one that failed to
    /// decode is skipped and contributes nothing, and the traversal goes on
    /// either way.
    pub fn on_document(&mut self, doc: Result<Repo, DecodeError>)
        ensures
            final(self).pending == old(self).pending,
            final(self).started == old(self).started,
            final(self).docs@ == old(self).docs@.push(doc),
            final(self).packages@ == old(self).packages@ + doc_contribution(doc),
            old(self).wf() ==> final(self).wf(),
    {
        proof {
            self.docs@ = self.docs@.push(doc);
        }
        match doc {
            Ok(d) => {
                let mut pkgs = d.packages;
                self.packages.append(&mut pkgs);
            },
            Err(_) => {
                proof {
                    assert(self.packages@ + Seq::<Package>::empty() =~= self.packages@);
                }
            },
        }
        proof {
            assert(self.docs@.drop_last() =~= old(self).docs@);
        }
    }

    /// The packages gathered by the whole run, in traversal order.
    pub fn into_packages(self) -> (r: Vec<Package>)
        ensures
            r == self.packages,
    {
        self.packages
    }
}

} // verus!

