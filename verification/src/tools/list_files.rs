//! Listing the regular files below a directory.

use crate::model::views;
use crate::tools::{PathStatus, PathStatusView, ToolExecutionError, ToolFault};
use vstd::prelude::*;

verus! {

/// What an entry of a walk is.
#[derive(Debug, Clone, Copy, PartialEq, Eq, Structural)]
pub enum EntryKind {
    /// A regular file.
    File,
    /// A directory, or anything else that is no regular file.
    Other,
    /// The entry's metadata could not be read.
    Unknown,
}

/// One step of a walk through a directory, in the order of the walk.
#[derive(Debug, PartialEq, Eq)]
pub enum WalkEntry {
    /// An entry that the walk came upon.
    Found { path: String, kind: EntryKind },
    /// The walk failed here; the message is the walker's.
    Failed(String),
}

/// `WalkEntry` as a mathematical value.
pub enum WalkEntryView {
    Found { path: Seq<char>, kind: EntryKind },
    Failed(Seq<char>),
}

impl View for WalkEntry {
    type V = WalkEntryView;

    open spec fn view(&self) -> WalkEntryView {
        match self {
            WalkEntry::Found { path, kind } => WalkEntryView::Found { path: path@, kind: *kind },
            WalkEntry::Failed(m) => WalkEntryView::Failed(m@),
        }
    }
}

/// Whether a path can be listed: it must be a directory.
pub open spec fn listable(status: PathStatusView) -> Result<(), ToolFault> {
    match status {
        PathStatusView::Directory => Ok(()),
        PathStatusView::File => Err(ToolFault::NotADirectory),
        PathStatusView::Other => Err(ToolFault::NotADirectory),
        PathStatusView::Missing(m) => Err(ToolFault::Metadata(m)),
        PathStatusView::Failed(m) => Err(ToolFault::Metadata(m)),
    }
}

/// Refuses to list a path that is no directory.
pub fn check_directory(status: &PathStatus) -> (r: Result<(), ToolExecutionError>)
    ensures
        match r {
            Ok(_) => listable(status@) is Ok,
            Err(e) => listable(status@) == Err::<(), ToolFault>(e@),
        },
{
    match status {
        PathStatus::Directory => Ok(()),
        PathStatus::File => Err(ToolExecutionError::NotADirectory),
        PathStatus::Other => Err(ToolExecutionError::NotADirectory),
        PathStatus::Missing(m) => Err(ToolExecutionError::Metadata(m.clone())),
        PathStatus::Failed(m) => Err(ToolExecutionError::Metadata(m.clone())),
    }
}

/// The paths of the regular files among the entries of a walk, in the order of
/// the walk; the first step at which the walk failed decides the error.
pub open spec fn listing(entries: Seq<WalkEntryView>) -> Result<Seq<Seq<char>>, ToolFault>
    decreases entries.len(),
{
    if entries.len() == 0 {
        Ok(Seq::empty())
    } else {
        match listing(entries.drop_last()) {
            Err(e) => Err(e),
            Ok(files) => match entries.last() {
                WalkEntryView::Failed(m) => Err(ToolFault::Walk(m)),
                WalkEntryView::Found { path, kind } => if kind == EntryKind::File {
                    Ok(files.push(path))
                } else {
                    Ok(files)
                },
            },
        }
    }
}

/// Once the walk has failed, the entries after that change nothing.
pub proof fn lemma_listing_fault(entries: Seq<WalkEntryView>, n: int)
    requires
        0 <= n <= entries.len(),
        listing(entries.take(n)) is Err,
    ensures
        listing(entries) == listing(entries.take(n)),
    decreases entries.len() - n,
{
    if n == entries.len() {
        assert(entries.take(n) =~= entries);
    } else {
        assert(entries.take(n + 1).drop_last() =~= entries.take(n));
        lemma_listing_fault(entries, n + 1);
    }
}

/// Lists the regular files that a walk of a directory came upon, in the order of
/// the walk. Directories and entries whose kind is not known are left out. Fails
/// at the first step at which the walk failed.
pub fn list_files(entries: &Vec<WalkEntry>) -> (r: Result<Vec<String>, ToolExecutionError>)
    ensures
        match r {
            Ok(files) => listing(views(entries@)) == Ok::<Seq<Seq<char>>, ToolFault>(
                views(files@),
            ),
            Err(e) => listing(views(entries@)) == Err::<Seq<Seq<char>>, ToolFault>(e@),
        },
{
    let ghost all = views(entries@);
    let mut files: Vec<String> = Vec::new();
    let mut i: usize = 0;
    assert(views(files@) =~= Seq::<Seq<char>>::empty());
    while i < entries.len()
        invariant
            all == views(entries@),
            i <= entries.len(),
            listing(all.take(i as int)) == Ok::<Seq<Seq<char>>, ToolFault>(views(files@)),
        decreases entries.len() - i,
    {
        proof {
            assert(all.take(i + 1).drop_last() =~= all.take(i as int));
        }
        match &entries[i] {
            WalkEntry::Failed(m) => {
                proof {
                    lemma_listing_fault(all, i + 1);
                }
                return Err(ToolExecutionError::Walk(m.clone()));
            },
            WalkEntry::Found { path, kind } => {
                match kind {
                    EntryKind::File => {
                        let ghost before = files@;
                        files.push(path.clone());
                        assert(views(files@) =~= views(before).push(path@));
                    },
                    _ => {},
                }
            },
        }
        i += 1;
    }
    assert(all.take(entries.len() as int) =~= all);
    Ok(files)
}

/// How many of the entries are regular files.
pub open spec fn regular_files(entries: Seq<WalkEntryView>) -> nat
    decreases entries.len(),
{
    if entries.len() == 0 {
        0
    } else {
        regular_files(entries.drop_last()) + if entries.last() matches WalkEntryView::Found {
            kind: EntryKind::File,
            ..
        } {
            1nat
        } else {
            0nat
        }
    }
}

/// A walk that did not fail lists as many paths as it came upon regular files,
/// and every path that it lists is that of a regular file among its entries.
pub proof fn lemma_listing_holds_the_regular_files(entries: Seq<WalkEntryView>)
    requires
        listing(entries) is Ok,
    ensures
        listing(entries)->Ok_0.len() == regular_files(entries),
        forall|k: int|
            0 <= k < listing(entries)->Ok_0.len() ==> exists|i: int|
                0 <= i < entries.len() && entries[i] == (WalkEntryView::Found {
                    path: #[trigger] listing(entries)->Ok_0[k],
                    kind: EntryKind::File,
                }),
    decreases entries.len(),
{
    if entries.len() > 0 {
        let first = entries.drop_last();
        lemma_listing_holds_the_regular_files(first);
        let files = listing(entries)->Ok_0;
        assert forall|k: int| 0 <= k < files.len() implies exists|i: int|
            0 <= i < entries.len() && entries[i] == (WalkEntryView::Found {
                path: #[trigger] files[k],
                kind: EntryKind::File,
            }) by {
            if k < listing(first)->Ok_0.len() {
                let i = choose|i: int|
                    0 <= i < first.len() && first[i] == (WalkEntryView::Found {
                        path: listing(first)->Ok_0[k],
                        kind: EntryKind::File,
                    });
                assert(entries[i] == first[i]);
            } else {
                assert(entries[entries.len() - 1] == entries.last());
            }
        }
    }
}

} // verus!
