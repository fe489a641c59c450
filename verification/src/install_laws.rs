//! What holds of every installation, whatever the caller reports.

use vstd::prelude::*;
use crate::errors::ErrorKind;
use crate::install::{
    is_success, start, start_download, step, well_formed, ActionView, EventView, InstallView,
    Operation, OutcomeView,
};
use crate::layout::{archive_path_of, MANIFEST_FILE, MODULES_DIR, PACKAGE_HOST};
use crate::link::link_of;

verus! {

/// The state after the events `events`, in their order, from the state `s`.
pub open spec fn run(s: InstallView, events: Seq<EventView>) -> InstallView
    decreases events.len(),
{
    if events.len() == 0 {
        s
    } else {
        step(run(s, events.drop_last()), events.last())
    }
}

/// An installation and a download start in a well-formed state.
pub proof fn lemma_starts_are_well_formed(
    package: Seq<char>,
    url: Seq<char>,
    name: Seq<char>,
    output_dir: Seq<char>,
)
    ensures
        well_formed(start(package)),
        well_formed(start_download(url, name, output_dir)),
{
}

/// A step keeps the target, and keeps a state well formed.
pub proof fn lemma_step_is_well_formed(s: InstallView, e: EventView)
    requires
        well_formed(s),
    ensures
        well_formed(step(s, e)),
        step(s, e).target == s.target,
{
}

/// Every state of a run from a well-formed state is well formed, with the
/// same target.
pub proof fn lemma_run_is_well_formed(s: InstallView, events: Seq<EventView>)
    requires
        well_formed(s),
    ensures
        well_formed(run(s, events)),
        run(s, events).target == s.target,
    decreases events.len(),
{
    if events.len() > 0 {
        lemma_run_is_well_formed(s, events.drop_last());
        lemma_step_is_well_formed(run(s, events.drop_last()), events.last());
    }
}

/// Running the events `[first] + later` is taking the step for `first` and
/// running `later`.
pub proof fn lemma_run_from_first(s: InstallView, first: EventView, later: Seq<EventView>)
    ensures
        run(s, seq![first] + later) == run(step(s, first), later),
    decreases later.len(),
{
    let all = seq![first] + later;
    if later.len() == 0 {
        assert(all.drop_last() =~= Seq::empty());
        assert(run(s, all.drop_last()) == s);
    } else {
        lemma_run_from_first(s, first, later.drop_last());
        assert(all.drop_last() =~= seq![first] + later.drop_last());
    }
}

/// An installation that has ended stays as it is, whatever is reported.
pub proof fn lemma_ended_installation_stays(s: InstallView, events: Seq<EventView>)
    requires
        s.pending is Finish,
    ensures
        run(s, events) == s,
    decreases events.len(),
{
    if events.len() > 0 {
        lemma_ended_installation_stays(s, events.drop_last());
    }
}

/// A fetch that fails, with an unsuccessful status or without a response,
/// ends the installation at once and for good: whatever is reported later, no
/// archive is written, nothing is extracted, and the outcome is the failure of
/// the fetch.
pub proof fn lemma_failed_fetch_ends_installation(
    s: InstallView,
    first: EventView,
    later: Seq<EventView>,
)
    requires
        s.pending is Fetch,
        well_formed(s),
        first is Failed || (first is Response && !is_success(first->status)),
    ensures
        run(s, seq![first] + later) == step(s, first),
        step(s, first).pending is Finish,
        step(s, first).pending->outcome.failure is Some,
        step(s, first).pending->outcome.failure->0.operation == Operation::Fetch,
        first is Response ==> step(s, first).pending->outcome.failure->0.kind
            == ErrorKind::HttpStatusFailure,
        !step(s, first).pending->outcome.unregistered,
        !step(s, first).extracted,
{
    lemma_run_from_first(s, first, later);
    lemma_ended_installation_stays(step(s, first), later);
}

/// An archive is written only in answer to a successful response to the
/// fetch, to the archive path of the target, and with the body of that
/// response.
pub proof fn lemma_archive_is_written_only_after_success(s: InstallView, e: EventView)
    requires
        step(s, e).pending is WriteArchive,
        !(s.pending is WriteArchive),
    ensures
        s.pending is Fetch,
        e is Response,
        is_success(e->status),
        step(s, e).pending == (ActionView::WriteArchive { path: s.target.archive, body: e->body }),
{
}

/// Once the extraction of the archive is due, whatever comes of it, done or
/// failed, the next action is to delete the archive.
pub proof fn lemma_archive_is_deleted_after_extraction(
    s: InstallView,
    events: Seq<EventView>,
    k: int,
)
    requires
        well_formed(s),
        0 <= k < events.len(),
        run(s, events.take(k)).pending is Extract,
        events[k] is Done || events[k] is Failed,
    ensures
        run(s, events.take(k)).pending == (ActionView::Extract {
            archive: s.target.archive,
            output_dir: s.target.output_dir,
        }),
        run(s, events.take(k + 1)).pending == (ActionView::DeleteArchive {
            path: s.target.archive,
        }),
{
    lemma_run_is_well_formed(s, events.take(k));
    assert(events.take(k + 1).drop_last() =~= events.take(k));
}

/// After a written archive, an installation ends only by way of the removal
/// of the archive: the one step that leads to the end from an action other
/// than the fetch leaves from that removal or from the update of the manifest,
/// and the update is due only after a removal that was done.
pub proof fn lemma_end_follows_removal(s: InstallView, e: EventView)
    ensures
        step(s, e).pending is Finish && !(s.pending is Finish) ==> s.pending is Fetch
            || s.pending is DeleteArchive || s.pending is UpdateManifest,
        step(s, e).pending is UpdateManifest && !(s.pending is UpdateManifest) ==> s.pending
            is DeleteArchive && e is Done && s.failure is None,
        s.pending is WriteArchive && step(s, e) != s ==> step(s, e).pending is Extract || step(
            s,
            e,
        ).pending is DeleteArchive,
        s.pending is Extract && step(s, e) != s ==> step(s, e).pending is DeleteArchive,
{
}

/// An installation in which everything succeeds asks for the fetch, the
/// writing of the archive, its extraction, its removal and the update of the
/// manifest, in this order, and ends well.
pub proof fn lemma_successful_installation(
    package: Seq<char>,
    status: u16,
    status_text: Seq<char>,
    body: Seq<u8>,
)
    requires
        is_success(status),
    ensures
        ({
            let response = EventView::Response { status, status_text, body };
            let s0 = start(package);
            let s1 = step(s0, response);
            let s2 = step(s1, EventView::Done);
            let s3 = step(s2, EventView::Done);
            let s4 = step(s3, EventView::Done);
            let s5 = step(s4, EventView::Done);
            &&& s0.pending == (ActionView::Fetch { url: link_of(PACKAGE_HOST@, package) })
            &&& s1.pending == (ActionView::WriteArchive { path: archive_path_of(package), body })
            &&& s2.pending == (ActionView::Extract {
                archive: archive_path_of(package),
                output_dir: MODULES_DIR@,
            })
            &&& s3.pending == (ActionView::DeleteArchive { path: archive_path_of(package) })
            &&& s4.pending == (ActionView::UpdateManifest { path: MANIFEST_FILE@, module: package })
            &&& s5.pending == (ActionView::Finish {
                outcome: OutcomeView { failure: None, unregistered: false },
            })
        }),
{
}

/// A download in which everything succeeds asks for the fetch, the writing of
/// the archive, its extraction and its removal, in this order, and ends well
/// without touching the manifest.
pub proof fn lemma_successful_download(
    url: Seq<char>,
    name: Seq<char>,
    output_dir: Seq<char>,
    status: u16,
    status_text: Seq<char>,
    body: Seq<u8>,
)
    requires
        is_success(status),
    ensures
        ({
            let response = EventView::Response { status, status_text, body };
            let s0 = start_download(url, name, output_dir);
            let s1 = step(s0, response);
            let s2 = step(s1, EventView::Done);
            let s3 = step(s2, EventView::Done);
            let s4 = step(s3, EventView::Done);
            &&& s0.pending == (ActionView::Fetch { url })
            &&& s1.pending == (ActionView::WriteArchive { path: name, body })
            &&& s2.pending == (ActionView::Extract { archive: name, output_dir })
            &&& s3.pending == (ActionView::DeleteArchive { path: name })
            &&& s4.pending == (ActionView::Finish {
                outcome: OutcomeView { failure: None, unregistered: false },
            })
        }),
{
}

} // verus!
