//! Bringing one version of the tool into its container directory.
//!
//! A [`FetchJob`] holds the decisions; the host holds the network and the
//! file system. The host starts the job with [`FetchEvent::Started`], performs
//! each [`FetchAction`] that [`FetchJob::step`] returns and reports the
//! outcome as the next event, until the job hands back
//! [`FetchAction::Finish`].
use vstd::prelude::*;
use crate::binary::{
    LanguageServerBinary, cache_entry_name, cache_entry_path, entry_name, entry_path,
    is_server_binary, server_binary, texts,
};
use crate::error::{DownloadFailure, ProvisionError, is_success, status_is_success};
use crate::release::GitHubLspBinaryVersion;

verus! {

/// Where a job stands: each phase waits for the outcome of one action.
#[derive(Debug, Clone, Copy, PartialEq, Eq)]
pub enum FetchPhase {
    Start,
    Probing,
    Requesting,
    Creating(u16),
    Writing,
    Marking,
    Listing,
    Pruning,
    Done,
}

/// What the host reports back.
#[derive(Debug, Clone)]
pub enum FetchEvent {
    Started,
    /// Whether a file exists at the entry's path.
    Probed(bool),
    /// The download answered with this status.
    Responded(u16),
    RequestFailed,
    Created,
    CreateFailed,
    Written,
    WriteFailed,
    Marked,
    MarkFailed,
    /// The file names in the container directory, in listing order.
    Listed(Vec<String>),
    ListFailed,
    Pruned,
}

/// What the host is asked to do next.
#[derive(Debug)]
pub enum FetchAction {
    /// Look whether a file exists at the entry's path.
    CheckExists,
    /// Send the download request for the job's address.
    Download,
    /// Create the file at the entry's path.
    CreateFile,
    /// Stream the response body into the file.
    WriteBody,
    /// Set the execute bits of owner, group and others on the file.
    MarkExecutable,
    /// List the file names of the container directory.
    ListContainer,
    /// Delete these entries of the container directory; failures are only
    /// logged.
    Remove(Vec<String>),
    /// The job is over, with this outcome.
    Finish(Result<LanguageServerBinary, ProvisionError>),
    /// The event does not belong to the current phase; nothing changes.
    Ignore,
}

/// One attempt to bring a version of the tool into the cache.
#[derive(Debug, Clone)]
pub struct FetchJob {
    /// The file name of the entry, `{tool}-{version}`.
    pub entry: String,
    /// The entry's path inside the container directory.
    pub binary_path: String,
    /// Where the asset is downloaded from.
    pub url: String,
    /// Whether the platform needs explicit execute bits.
    pub needs_exec_bits: bool,
    pub phase: FetchPhase,
}

/// Whether a name differs from the entry's.
pub open spec fn other_than(entry: Seq<char>) -> spec_fn(Seq<char>) -> bool {
    |n: Seq<char>| n != entry
}

/// The names of a listing that pruning removes: all but the entry.
pub open spec fn stale_entries(listing: Seq<Seq<char>>, entry: Seq<char>) -> Seq<Seq<char>> {
    listing.filter(other_than(entry))
}

/// The job is over, with the entry's binary in server mode.
pub open spec fn finishes_with_entry(job: FetchJob, next: FetchJob, a: FetchAction) -> bool {
    &&& next.phase == FetchPhase::Done
    &&& a matches FetchAction::Finish(Ok(b))
    &&& is_server_binary(b, job.binary_path@)
}

/// The job is over, with a failed download.
pub open spec fn finishes_with_failure(next: FetchJob, a: FetchAction, f: DownloadFailure) -> bool {
    &&& next.phase == FetchPhase::Done
    &&& a == FetchAction::Finish(Err(ProvisionError::DownloadFailed(f)))
}

/// Moves to `phase` and asks for an action of the given kind.
pub open spec fn moves_to(next: FetchJob, phase: FetchPhase, a: FetchAction, asked: FetchAction) -> bool {
    next.phase == phase && a == asked
}

/// One step of a job: from `job`, on `ev`, to `next`, asking for `a`.
pub open spec fn step_result(job: FetchJob, ev: FetchEvent, next: FetchJob, a: FetchAction) -> bool {
    &&& next.entry == job.entry
    &&& next.binary_path == job.binary_path
    &&& next.url == job.url
    &&& next.needs_exec_bits == job.needs_exec_bits
    &&& match (job.phase, ev) {
        (FetchPhase::Start, FetchEvent::Started) => moves_to(
            next,
            FetchPhase::Probing,
            a,
            FetchAction::CheckExists,
        ),
        (FetchPhase::Probing, FetchEvent::Probed(exists)) => if exists {
            finishes_with_entry(job, next, a)
        } else {
            moves_to(next, FetchPhase::Requesting, a, FetchAction::Download)
        },
        (FetchPhase::Requesting, FetchEvent::Responded(s)) => moves_to(
            next,
            FetchPhase::Creating(s),
            a,
            FetchAction::CreateFile,
        ),
        (FetchPhase::Requesting, FetchEvent::RequestFailed) => finishes_with_failure(
            next,
            a,
            DownloadFailure::Request,
        ),
        (FetchPhase::Creating(s), FetchEvent::Created) => if status_is_success(s) {
            moves_to(next, FetchPhase::Writing, a, FetchAction::WriteBody)
        } else {
            finishes_with_failure(next, a, DownloadFailure::Status(s))
        },
        (FetchPhase::Creating(_), FetchEvent::CreateFailed) => finishes_with_failure(
            next,
            a,
            DownloadFailure::Io,
        ),
        (FetchPhase::Writing, FetchEvent::Written) => if job.needs_exec_bits {
            moves_to(next, FetchPhase::Marking, a, FetchAction::MarkExecutable)
        } else {
            moves_to(next, FetchPhase::Listing, a, FetchAction::ListContainer)
        },
        (FetchPhase::Writing, FetchEvent::WriteFailed) => finishes_with_failure(
            next,
            a,
            DownloadFailure::Io,
        ),
        (FetchPhase::Marking, FetchEvent::Marked) => moves_to(
            next,
            FetchPhase::Listing,
            a,
            FetchAction::ListContainer,
        ),
        (FetchPhase::Marking, FetchEvent::MarkFailed) => finishes_with_failure(
            next,
            a,
            DownloadFailure::Io,
        ),
        (FetchPhase::Listing, FetchEvent::Listed(names)) => {
            &&& next.phase == FetchPhase::Pruning
            &&& a matches FetchAction::Remove(stale)
            &&& texts(stale@) == stale_entries(texts(names@), job.entry@)
        },
        (FetchPhase::Listing, FetchEvent::ListFailed) => finishes_with_entry(job, next, a),
        (FetchPhase::Pruning, FetchEvent::Pruned) => finishes_with_entry(job, next, a),
        _ => next.phase == job.phase && a is Ignore,
    }
}

impl FetchJob {
    /// A job for `version` of `tool`, cached under `container`.
    pub fn new(
        tool: &str,
        version: &GitHubLspBinaryVersion,
        container: &str,
        needs_exec_bits: bool,
    ) -> (r: FetchJob)
        ensures
            r.entry@ == entry_name(tool@, version.name@),
            r.binary_path@ == entry_path(container@, r.entry@),
            r.url@ == version.url@,
            r.needs_exec_bits == needs_exec_bits,
            r.phase == FetchPhase::Start,
    {
        let entry = cache_entry_name(tool, version.name.as_str());
        let binary_path = cache_entry_path(container, entry.as_str());
        FetchJob {
            entry,
            binary_path,
            url: version.url.clone(),
            needs_exec_bits,
            phase: FetchPhase::Start,
        }
    }

    fn finish_with_entry(&mut self) -> (a: FetchAction)
        ensures
            finishes_with_entry(*old(self), *final(self), a),
            final(self).entry == old(self).entry,
            final(self).binary_path == old(self).binary_path,
            final(self).url == old(self).url,
            final(self).needs_exec_bits == old(self).needs_exec_bits,
    {
        self.phase = FetchPhase::Done;
        FetchAction::Finish(Ok(server_binary(self.binary_path.clone())))
    }

    fn fail(&mut self, f: DownloadFailure) -> (a: FetchAction)
        ensures
            finishes_with_failure(*final(self), a, f),
            final(self).entry == old(self).entry,
            final(self).binary_path == old(self).binary_path,
            final(self).url == old(self).url,
            final(self).needs_exec_bits == old(self).needs_exec_bits,
    {
        self.phase = FetchPhase::Done;
        FetchAction::Finish(Err(ProvisionError::DownloadFailed(f)))
    }

    /// Takes the outcome of the last action and says what to do next.
    pub fn step(&mut self, event: FetchEvent) -> (a: FetchAction)
        ensures
            step_result(*old(self), event, *final(self), a),
    {
        let ghost ev = event;
        match event {
            FetchEvent::Started => match self.phase {
                FetchPhase::Start => {
                    self.phase = FetchPhase::Probing;
                    FetchAction::CheckExists
                },
                _ => FetchAction::Ignore,
            },
            FetchEvent::Probed(exists) => match self.phase {
                FetchPhase::Probing => {
                    if exists {
                        self.finish_with_entry()
                    } else {
                        self.phase = FetchPhase::Requesting;
                        FetchAction::Download
                    }
                },
                _ => FetchAction::Ignore,
            },
            FetchEvent::Responded(s) => match self.phase {
                FetchPhase::Requesting => {
                    self.phase = FetchPhase::Creating(s);
                    FetchAction::CreateFile
                },
                _ => FetchAction::Ignore,
            },
            FetchEvent::RequestFailed => match self.phase {
                FetchPhase::Requesting => self.fail(DownloadFailure::Request),
                _ => FetchAction::Ignore,
            },
            FetchEvent::Created => match self.phase {
                FetchPhase::Creating(s) => {
                    if is_success(s) {
                        self.phase = FetchPhase::Writing;
                        FetchAction::WriteBody
                    } else {
                        self.fail(DownloadFailure::Status(s))
                    }
                },
                _ => FetchAction::Ignore,
            },
            FetchEvent::CreateFailed => match self.phase {
                FetchPhase::Creating(_) => self.fail(DownloadFailure::Io),
                _ => FetchAction::Ignore,
            },
            FetchEvent::Written => match self.phase {
                FetchPhase::Writing => {
                    if self.needs_exec_bits {
                        self.phase = FetchPhase::Marking;
                        FetchAction::MarkExecutable
                    } else {
                        self.phase = FetchPhase::Listing;
                        FetchAction::ListContainer
                    }
                },
                _ => FetchAction::Ignore,
            },
            FetchEvent::WriteFailed => match self.phase {
                FetchPhase::Writing => self.fail(DownloadFailure::Io),
                _ => FetchAction::Ignore,
            },
            FetchEvent::Marked => match self.phase {
                FetchPhase::Marking => {
                    self.phase = FetchPhase::Listing;
                    FetchAction::ListContainer
                },
                _ => FetchAction::Ignore,
            },
            FetchEvent::MarkFailed => match self.phase {
                FetchPhase::Marking => self.fail(DownloadFailure::Io),
                _ => FetchAction::Ignore,
            },
            FetchEvent::Listed(names) => match self.phase {
                FetchPhase::Listing => {
                    let stale = stale_names(&names, &self.entry);
                    self.phase = FetchPhase::Pruning;
                    FetchAction::Remove(stale)
                },
                _ => FetchAction::Ignore,
            },
            FetchEvent::ListFailed => match self.phase {
                FetchPhase::Listing => self.finish_with_entry(),
                _ => FetchAction::Ignore,
            },
            FetchEvent::Pruned => match self.phase {
                FetchPhase::Pruning => self.finish_with_entry(),
                _ => FetchAction::Ignore,
            },
        }
    }
}

/// A job whose probe finds its entry already in place ends at once, with that
/// entry, and asks for no download.
pub proof fn lemma_present_entry_is_reused(job: FetchJob, next: FetchJob, a: FetchAction)
    requires
        job.phase == FetchPhase::Probing,
        step_result(job, FetchEvent::Probed(true), next, a),
    ensures
        finishes_with_entry(job, next, a),
        !(a is Download),
{
}

/// A download is asked for only where the probe found no entry: so of two
/// jobs for the same version and container directory, run one after the
/// other, the second downloads nothing once the first has created the entry.
pub proof fn lemma_download_only_for_missing_entry(
    job: FetchJob,
    ev: FetchEvent,
    next: FetchJob,
    a: FetchAction,
)
    requires
        step_result(job, ev, next, a),
        a is Download,
    ensures
        job.phase == FetchPhase::Probing,
        ev == FetchEvent::Probed(false),
{
}

/// Two jobs for the same tool, version and container directory name the
/// same entry and the same path.
pub proof fn lemma_same_version_same_path(
    tool: Seq<char>,
    version: Seq<char>,
    container: Seq<char>,
    first: FetchJob,
    second: FetchJob,
)
    requires
        first.entry@ == entry_name(tool, version),
        second.entry@ == entry_name(tool, version),
        first.binary_path@ == entry_path(container, first.entry@),
        second.binary_path@ == entry_path(container, second.entry@),
    ensures
        first.entry@ == second.entry@,
        first.binary_path@ == second.binary_path@,
{
}

/// Once the stale entries are removed from a listing that holds the job's
/// entry, the container directory holds that entry and nothing else.
pub proof fn lemma_pruning_leaves_only_entry(
    job: FetchJob,
    names: Vec<String>,
    next: FetchJob,
    a: FetchAction,
)
    requires
        job.phase == FetchPhase::Listing,
        step_result(job, FetchEvent::Listed(names), next, a),
        texts(names@).contains(job.entry@),
    ensures
        a matches FetchAction::Remove(stale) && texts(names@).to_set().filter(
            |n: Seq<char>| !texts(stale@).contains(n),
        ) == set![job.entry@],
{
    broadcast use vstd::seq_lib::group_filter_ensures;

    let listing = texts(names@);
    let entry = job.entry@;
    let pred = other_than(entry);
    if let FetchAction::Remove(stale) = a {
        let removed = texts(stale@);
        assert(removed == listing.filter(pred));
        assert forall|n: Seq<char>| listing.contains(n) implies (removed.contains(n) <==> n
            != entry) by {
            if removed.contains(n) {
                let k = choose|k: int| 0 <= k < removed.len() && removed[k] == n;
                assert(pred(listing.filter(pred)[k]));
            }
            if n != entry {
                let k = choose|k: int| 0 <= k < listing.len() && listing[k] == n;
                assert(listing.filter(pred).contains(listing[k]));
            }
        }
        assert(listing.to_set().filter(|n: Seq<char>| !removed.contains(n)) =~= set![entry]);
    }
}

/// A download answered with a failing status ends the job with that status,
/// after the entry's file was created, and the job asks for nothing more: the
/// empty file stays in the container directory.
pub proof fn lemma_failed_status_keeps_created_file(
    job: FetchJob,
    status: u16,
    next: FetchJob,
    a: FetchAction,
)
    requires
        job.phase == FetchPhase::Creating(status),
        !status_is_success(status),
        step_result(job, FetchEvent::Created, next, a),
    ensures
        finishes_with_failure(next, a, DownloadFailure::Status(status)),
        forall|ev: FetchEvent, later: FetchJob, b: FetchAction|
            step_result(next, ev, later, b) ==> b is Ignore && later.phase == FetchPhase::Done,
{
}

/// A job reaches the phase in which a status is checked only by asking for the
/// entry's file to be created.
pub proof fn lemma_status_checked_after_create(
    job: FetchJob,
    ev: FetchEvent,
    next: FetchJob,
    a: FetchAction,
)
    requires
        step_result(job, ev, next, a),
        next.phase is Creating,
        !(job.phase is Creating),
    ensures
        a is CreateFile,
{
}

/// The names of `listing` other than `entry`, in listing order.
pub fn stale_names(listing: &Vec<String>, entry: &String) -> (r: Vec<String>)
    ensures
        texts(r@) == stale_entries(texts(listing@), entry@),
{
    let ghost all = texts(listing@);
    let mut r: Vec<String> = Vec::new();
    let mut i: usize = 0;
    while i < listing.len()
        invariant
            i <= listing@.len(),
            all == texts(listing@),
            texts(r@) == stale_entries(all.take(i as int), entry@),
        decreases listing@.len() - i,
    {
        proof {
            reveal(Seq::filter);
            assert(all.take(i + 1).drop_last() =~= all.take(i as int));
            assert(all.take(i + 1).last() == listing@[i as int]@);
        }
        if listing[i] != *entry {
            r.push(listing[i].clone());
            assert(texts(r@) =~= stale_entries(all.take(i + 1), entry@));
        } else {
            assert(texts(r@) =~= stale_entries(all.take(i + 1), entry@));
        }
        i = i + 1;
    }
    assert(all.take(listing@.len() as int) =~= all);
    r
}

} // verus!
