use vstd::prelude::*;

use crate::args::Args;
use crate::filter::{entry_matches, filter_args, Entry};

verus! {

/// What the executor does with one traversed entry.
#[derive(Clone, Copy, Debug, PartialEq, Eq, Structural)]
pub enum EntryAction {
    /// The entry is left alone and nothing is reported.
    Skip,
    /// The filename is reported; the file stays.
    Print,
    /// The filename is reported and the file is removed.
    PrintAndDelete,
}

/// The action that the configuration `args` prescribes for `entry`: a
/// non-matching entry is skipped; a matching one is removed (and reported)
/// only when `delete` is set and `dry_run` is not; otherwise it is reported
/// when either flag is set.
pub open spec fn action_for(args: Args, entry: Entry) -> EntryAction {
    if !entry_matches(args, entry) {
        EntryAction::Skip
    } else if args.delete && !args.dry_run {
        EntryAction::PrintAndDelete
    } else if args.dry_run || args.delete {
        EntryAction::Print
    } else {
        EntryAction::Skip
    }
}

/// Decides what to do with one entry under the configuration that is live
/// now: the filter is re-evaluated here, at consumption time.
pub fn plan_entry(args: &Args, entry: &Entry) -> (action: EntryAction)
    ensures
        action == action_for(*args, *entry),
{
    if !filter_args(args, entry) {
        EntryAction::Skip
    } else if args.delete && !args.dry_run {
        EntryAction::PrintAndDelete
    } else if args.dry_run || args.delete {
        EntryAction::Print
    } else {
        EntryAction::Skip
    }
}

/// The running state of one sweep: how many files were removed so far.
pub struct SweepRun {
    pub deleted: u64,
}

impl SweepRun {
    /// Notes the outcome of one removal attempt: a successful removal
    /// raises the count by one, a failed one leaves it unchanged.
    pub fn record_deletion(&mut self, removed: bool)
        requires
            removed ==> old(self).deleted < u64::MAX,
        ensures
            final(self).deleted == old(self).deleted + if removed {
                1int
            } else {
                0int
            },
    {
        if removed {
            self.deleted = self.deleted + 1;
        }
    }

    /// The count to report once all entries are processed: the total of
    /// removed files when `delete` is set, and nothing otherwise.
    pub fn finish(&self, args: &Args) -> (summary: Option<u64>)
        ensures
            summary == if args.delete {
                Some(self.deleted)
            } else {
                None::<u64>
            },
    {
        if args.delete {
            Some(self.deleted)
        } else {
            None
        }
    }
}

/// Main entry point for the application logic: starts a sweep, with a fresh
/// deletion count, exactly when the configuration asks for one. With neither
/// `dry_run` nor `delete` set there is nothing to do and no traversal
/// side effect may occur.
pub fn cli_parser(args: &Args) -> (run: Option<SweepRun>)
    ensures
        run is Some <==> (args.dry_run || args.delete),
        run matches Some(r) ==> r.deleted == 0,
{
    if args.dry_run || args.delete {
        Some(SweepRun { deleted: 0 })
    } else {
        None
    }
}

/// How many of `entries` the configuration `args` would remove.
pub open spec fn deletions_planned(args: Args, entries: Seq<Entry>) -> nat
    decreases entries.len(),
{
    if entries.len() == 0 {
        0
    } else {
        (if action_for(args, entries[0]) == EntryAction::PrintAndDelete {
            1nat
        } else {
            0nat
        }) + deletions_planned(args, entries.drop_first())
    }
}

/// A dry run never deletes: with `dry_run` set, no entry is ever planned
/// for removal, whatever the other flags and filters say.
pub proof fn lemma_dry_run_never_deletes(args: Args, entry: Entry)
    requires
        args.dry_run,
    ensures
        action_for(args, entry) != EntryAction::PrintAndDelete,
{
}

/// A dry run plans zero removals over any sequence of entries.
pub proof fn lemma_dry_run_plans_no_deletions(args: Args, entries: Seq<Entry>)
    requires
        args.dry_run,
    ensures
        deletions_planned(args, entries) == 0,
    decreases entries.len(),
{
    if entries.len() > 0 {
        lemma_dry_run_never_deletes(args, entries[0]);
        lemma_dry_run_plans_no_deletions(args, entries.drop_first());
    }
}

/// Only matching entries are deleted: an entry planned for removal passes
/// the filter of the configuration under which it was planned.
pub proof fn lemma_deletes_only_matches(args: Args, entry: Entry)
    ensures
        action_for(args, entry) == EntryAction::PrintAndDelete ==> entry_matches(args, entry),
{
}

/// With no extension filter, no name filter, `delete` set and `dry_run`
/// not set, every regular file is removed, and a non-file never is.
pub proof fn lemma_unfiltered_delete_sweeps_files(args: Args, entry: Entry)
    requires
        args.extension@.len() == 0,
        args.name_contains is None,
        args.delete,
        !args.dry_run,
    ensures
        entry.is_file ==> action_for(args, entry) == EntryAction::PrintAndDelete,
        !entry.is_file ==> action_for(args, entry) == EntryAction::Skip,
{
}

/// The filter binds late: the action taken on an entry is decided by the
/// configuration live at consumption time, so an entry that matched an
/// earlier configuration but not the current one is skipped.
pub proof fn lemma_late_binding_filter(first: Args, current: Args, entry: Entry)
    requires
        entry_matches(first, entry),
        !entry_matches(current, entry),
    ensures
        action_for(current, entry) == EntryAction::Skip,
{
}

/// A pass over entries none of which is a regular file — a directory tree
/// already emptied of files — plans zero removals.
pub proof fn lemma_empty_pass_deletes_nothing(args: Args, entries: Seq<Entry>)
    requires
        forall|i: int| 0 <= i < entries.len() ==> !(#[trigger] entries[i]).is_file,
    ensures
        deletions_planned(args, entries) == 0,
    decreases entries.len(),
{
    if entries.len() > 0 {
        assert(!entries[0].is_file);
        lemma_empty_pass_deletes_nothing(args, entries.drop_first());
    }
}

} // verus!
