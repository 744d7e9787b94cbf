//! The pagination state machine: one processed-or-skipped iteration per
//! playlist track, refetching at the current offset, until the stable total
//! is reached.

use vstd::prelude::*;
use crate::download::DownloadError;
use crate::download::TrackPlan;

verus! {

/// All state the pagination loop keeps: how many tracks were processed or
/// skipped so far (`offset`), and the playlist's stable `total`.
#[derive(Debug, Clone, Copy, PartialEq, Eq, Structural)]
pub struct Paginator {
    pub offset: u16,
    pub total: u16,
}

/// What the orchestrator does with one track whose plan is made.
#[derive(Debug, PartialEq)]
pub enum TrackStart {
    /// The output file already exists: no network call is made for this
    /// track, and its iteration is already recorded.
    Skip,
    /// The track must be downloaded: search with this plan's query, then
    /// convert and stream into this plan's filename.
    Download(TrackPlan),
}

impl Paginator {
    pub open spec fn wf(self) -> bool {
        self.offset <= self.total
    }

    /// The loop is finished exactly when every track was processed or
    /// skipped.
    pub open spec fn done(self) -> bool {
        self.offset == self.total
    }

    /// One processed-or-skipped track iteration.
    pub open spec fn step_spec(self) -> Paginator {
        Paginator { offset: (self.offset + 1) as u16, total: self.total }
    }

    /// Starts a run from the first page's total count; a page without one
    /// is the fatal error the run aborts with.
    pub fn start(total: Option<u16>) -> (r: Result<Paginator, DownloadError>)
        ensures
            total is Some ==> r == Ok::<Paginator, DownloadError>(
                (Paginator { offset: 0, total: total.unwrap() }),
            ),
            total is None ==> r == Err::<Paginator, DownloadError>(DownloadError::MissingTotal),
    {
        match total {
            Some(t) => Ok(Paginator { offset: 0, total: t }),
            None => Err(DownloadError::MissingTotal),
        }
    }

    /// True while tracks remain; the loop fetches another page exactly then.
    pub fn should_fetch(&self) -> (b: bool)
        requires
            self.wf(),
        ensures
            b == !self.done(),
    {
        self.offset < self.total
    }

    /// The next page is requested at the current offset — the count of
    /// tracks processed or skipped so far, not a page number.
    pub fn next_fetch_offset(&self) -> (r: u16)
        ensures
            r == self.offset,
    {
        self.offset
    }

    /// Records one processed-or-skipped track.
    pub fn record_track(&mut self)
        requires
            old(self).wf(),
            !old(self).done(),
        ensures
            *final(self) == old(self).step_spec(),
            final(self).wf(),
    {
        self.offset = self.offset + 1;
    }

    /// Decides one track, given whether its sanitized output file already
    /// exists: an existing file is skipped — zero network calls — and its
    /// iteration is recorded at once; otherwise the plan is handed back for
    /// download, and the iteration is recorded by `record_track` once the
    /// streaming finished.
    pub fn begin_track(&mut self, plan: TrackPlan, exists: bool) -> (r: TrackStart)
        requires
            old(self).wf(),
            !old(self).done(),
        ensures
            final(self).wf(),
            exists ==> r == TrackStart::Skip && *final(self) == old(self).step_spec(),
            !exists ==> r == TrackStart::Download(plan) && *final(self) == *old(self),
    {
        if exists {
            self.record_track();
            TrackStart::Skip
        } else {
            TrackStart::Download(plan)
        }
    }
}

/// The paginator after `k` processed-or-skipped track iterations.
pub open spec fn advanced(p: Paginator, k: nat) -> Paginator
    decreases k,
{
    if k == 0 {
        p
    } else {
        advanced(p, (k - 1) as nat).step_spec()
    }
}

proof fn lemma_advanced(p: Paginator, k: nat)
    requires
        p.offset + k <= p.total,
    ensures
        advanced(p, k).offset == p.offset + k,
        advanced(p, k).total == p.total,
    decreases k,
{
    if k > 0 {
        lemma_advanced(p, (k - 1) as nat);
    }
}

/// Law (pagination termination): a run over a playlist with `total` tracks
/// performs exactly `total` processed-or-skipped track iterations, whatever
/// page sizes the remote returns: after `k` iterations from the start the
/// paginator is done if and only if `k == total`.
pub proof fn lemma_pagination_termination(total: u16, k: nat)
    requires
        k <= total,
    ensures
        advanced((Paginator { offset: 0, total }), k).done() <==> k == total,
{
    lemma_advanced(Paginator { offset: 0, total }, k);
}

} // verus!
