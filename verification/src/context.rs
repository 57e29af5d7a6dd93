//! The run's configuration and shared state, constructed once and passed
//! to every component: no ambient globals. Argument parsing and the
//! progress display live outside; they hand plain values in.

use vstd::prelude::*;

use crate::throttle::{spec_acquire_transition, AcquireOutcome, TicketPolicy, Ticketer};
use crate::uuid_value::UuidValue;

verus! {

/// What one invocation downloads: a whole title or a single chapter.
#[derive(Debug, Clone)]
pub enum DownloadType {
    Title(UuidValue),
    Chapter(UuidValue),
}

/// Everything a run shares: the read-only configuration and the admission
/// controller that gates every fetch.
#[derive(Debug)]
pub struct ScrapeContext {
    pub verbose: bool,
    pub lang_code: String,
    pub start_chapter: Option<usize>,
    pub end_chapter: Option<usize>,
    pub ignored_groups: Vec<usize>,
    pub download_type: DownloadType,
    pub show_progress: bool,
    pub ticketer: Ticketer,
}

/// The configuration fields of `pre` and `post` agree; only the admission
/// controller may have moved.
pub open spec fn config_unchanged(pre: ScrapeContext, post: ScrapeContext) -> bool {
    &&& post.verbose == pre.verbose
    &&& post.lang_code@ == pre.lang_code@
    &&& post.start_chapter == pre.start_chapter
    &&& post.end_chapter == pre.end_chapter
    &&& post.ignored_groups@ == pre.ignored_groups@
    &&& post.download_type == pre.download_type
    &&& post.show_progress == pre.show_progress
}

impl ScrapeContext {
    pub open spec fn wf(&self) -> bool {
        self.ticketer.wf()
    }

    /// Builds the context from already-parsed configuration values,
    /// starting with a fresh admission controller under `policy`.
    pub fn new(
        verbose: bool,
        lang_code: String,
        start_chapter: Option<usize>,
        end_chapter: Option<usize>,
        ignored_groups: Vec<usize>,
        download_type: DownloadType,
        show_progress: bool,
        policy: &TicketPolicy,
    ) -> (c: ScrapeContext)
        requires
            policy.wf(),
        ensures
            c.wf(),
            c.verbose == verbose,
            c.lang_code@ == lang_code@,
            c.start_chapter == start_chapter,
            c.end_chapter == end_chapter,
            c.ignored_groups@ == ignored_groups@,
            c.download_type == download_type,
            c.show_progress == show_progress,
            c.ticketer.policy == *policy,
            c.ticketer.global_in_use == 0,
            c.ticketer.origins@.len() == 0,
    {
        ScrapeContext {
            verbose,
            lang_code,
            start_chapter,
            end_chapter,
            ignored_groups,
            download_type,
            show_progress,
            ticketer: Ticketer::new(policy),
        }
    }

    /// Ordinary admission: asks the controller for a ticket for `origin`
    /// on behalf of `waiter` at time `now`, behind ordinary waiters.
    pub fn get_ticket(&mut self, origin: usize, waiter: u64, now: u64) -> (out: AcquireOutcome)
        requires
            old(self).wf(),
            origin < usize::MAX,
        ensures
            final(self).wf(),
            config_unchanged(*old(self), *final(self)),
            spec_acquire_transition(
                old(self).ticketer,
                final(self).ticketer,
                origin,
                waiter,
                false,
                now,
                out,
            ),
    {
        self.ticketer.get_ticket(origin, waiter, false, now)
    }

    /// Priority admission, for the most time-sensitive sub-fetch of a
    /// unit: served before ordinary waiters, in order among priority
    /// waiters.
    pub fn get_priority_ticket(&mut self, origin: usize, waiter: u64, now: u64) -> (out:
        AcquireOutcome)
        requires
            old(self).wf(),
            origin < usize::MAX,
        ensures
            final(self).wf(),
            config_unchanged(*old(self), *final(self)),
            spec_acquire_transition(
                old(self).ticketer,
                final(self).ticketer,
                origin,
                waiter,
                true,
                now,
                out,
            ),
    {
        self.ticketer.get_ticket(origin, waiter, true, now)
    }
}

} // verus!
