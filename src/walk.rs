use vstd::prelude::*;
use vstd::string::*;

use crate::report::Report;

verus! {

/// What the walker is told after an entry: go on, or leave this entry (and
/// the subtree under it) alone. There is no third signal: no entry can end
/// the walk.
#[derive(PartialEq, Eq, Structural, Clone, Copy, Debug)]
pub enum WalkDecision {
    Continue,
    Skip,
}

/// What the walker found at one entry.
pub enum EntryEvent {
    /// The entry itself could not be read; the message says why.
    EntryError(String),
    /// The entry was read, but not its metadata.
    MetadataError(String),
    /// A directory: it is descended into, never classified.
    Directory,
    /// Anything else that passed the filter: it is classified.
    File,
}

/// What the worker does for an entry besides telling the walker.
pub enum EntryAction {
    /// Nothing at all.
    Nothing,
    /// Write this block.
    Emit(Report),
    /// Read and classify the file.
    Classify,
}

/// The decision and the action owed to each kind of entry.
pub open spec fn entry_step(event: EntryEvent) -> (WalkDecision, Option<(bool, Seq<char>)>, bool) {
    match event {
        EntryEvent::EntryError(msg) => (WalkDecision::Skip, Some((false, msg@ + seq!['\n'])), false),
        EntryEvent::MetadataError(msg) => (WalkDecision::Skip, Some((false, msg@ + seq!['\n'])), false),
        EntryEvent::Directory => (WalkDecision::Continue, None, false),
        EntryEvent::File => (WalkDecision::Continue, None, true),
    }
}

impl EntryAction {
    /// The block to write, if any, and whether the file is to be classified.
    pub open spec fn view(self) -> (Option<(bool, Seq<char>)>, bool) {
        match self {
            EntryAction::Nothing => (None, false),
            EntryAction::Emit(r) => (Some(r@), false),
            EntryAction::Classify => (None, true),
        }
    }
}

/// Decides what becomes of one entry of the walk. A failed read of the entry
/// or of its metadata is reported on the error stream and only that entry is
/// skipped; a directory is descended into; a file is classified.
pub fn decide_entry(event: EntryEvent) -> (r: (WalkDecision, EntryAction))
    ensures
        r.0 == entry_step(event).0,
        r.1@ == (entry_step(event).1, entry_step(event).2),
{
    match event {
        EntryEvent::EntryError(msg) | EntryEvent::MetadataError(msg) => {
            let mut text = msg;
            text.append("\n");
            proof {
                reveal_strlit("\n");
            }
            (WalkDecision::Skip, EntryAction::Emit(Report::Stderr(text)))
        },
        EntryEvent::Directory => (WalkDecision::Continue, EntryAction::Nothing),
        EntryEvent::File => (WalkDecision::Continue, EntryAction::Classify),
    }
}

/// An entry that could not be read, or whose metadata could not be read, is
/// reported on the error stream and skipped by itself, with the walk going
/// on past it.
pub proof fn lemma_failed_entry_is_skipped(event: EntryEvent)
    requires
        event is EntryError || event is MetadataError,
    ensures
        entry_step(event).0 == WalkDecision::Skip,
        entry_step(event).1 matches Some(block) && !block.0,
        !entry_step(event).2,
{
}

/// Exactly the file entries are classified, each once: a directory never is,
/// nor an entry that failed.
pub proof fn lemma_only_files_are_classified(event: EntryEvent)
    ensures
        entry_step(event).2 <==> event is File,
        event is File ==> entry_step(event).0 == WalkDecision::Continue && entry_step(event).1 is None,
{
}

} // verus!
