//! Finalizing a request when the work on it is done.
//!
//! A unit that has finished its request does not finalize it on the spot: it
//! leaves a record and has a one-shot event posted for it. When the reactor
//! runs that event, the record yields the request and its status code, once.
//! If the request's memory goes away first, the record is torn down, the event
//! is withdrawn and nothing is finalized.

use vstd::prelude::*;

verus! {

/// Where a finalization stands.
#[derive(Clone, Copy, Debug, PartialEq, Eq, Structural)]
pub enum Stage {
    /// Its event is posted and has not run.
    Posted,
    /// Its event has run: the request is finalized.
    Fired,
    /// It was torn down while its event was posted: the request is not
    /// finalized through it.
    Withdrawn,
}

/// What the host is to do when a finalization fires: finalize `request` with
/// the status code `rc`.
#[derive(Clone, Copy, Debug, PartialEq, Eq, Structural)]
pub struct Completion {
    pub request: usize,
    pub rc: isize,
}

/// What a finalization is, for its contracts: the request that it finalizes,
/// the status code that it finalizes the request with, and where it stands.
pub struct Record {
    pub request: usize,
    pub rc: isize,
    pub stage: Stage,
}

impl Record {
    /// The record of a finalization whose event has just been posted.
    pub open spec fn posted(request: usize, rc: isize) -> Record {
        Record { request, rc, stage: Stage::Posted }
    }

    /// What is due when the event of this record runs: the completion while
    /// the event is posted, nothing at any other stage.
    pub open spec fn due(self) -> Option<Completion> {
        if self.stage == Stage::Posted {
            Some(Completion { request: self.request, rc: self.rc })
        } else {
            None
        }
    }

    /// Whether the posted event is to be withdrawn when this record is torn
    /// down.
    pub open spec fn withdraws(self) -> bool {
        self.stage == Stage::Posted
    }

    /// The record after its event has run.
    pub open spec fn fired(self) -> Record {
        if self.stage == Stage::Posted {
            Record { request: self.request, rc: self.rc, stage: Stage::Fired }
        } else {
            self
        }
    }

    /// The record after it was torn down.
    pub open spec fn torn_down(self) -> Record {
        if self.stage == Stage::Posted {
            Record { request: self.request, rc: self.rc, stage: Stage::Withdrawn }
        } else {
            self
        }
    }
}

/// The record of one pending finalization. It lives in the memory of the
/// request that it finalizes.
#[derive(Debug)]
pub struct Finalization {
    request: usize,
    rc: isize,
    stage: Stage,
}

impl View for Finalization {
    type V = Record;

    closed spec fn view(&self) -> Record {
        Record { request: self.request, rc: self.rc, stage: self.stage }
    }
}

impl Finalization {
    /// The request that this record finalizes.
    pub fn request(&self) -> (request: usize)
        ensures
            request == self@.request,
    {
        self.request
    }

    /// The status code that the request is finalized with.
    pub fn rc(&self) -> (rc: isize)
        ensures
            rc == self@.rc,
    {
        self.rc
    }

    /// Where this record stands.
    pub fn stage(&self) -> (stage: Stage)
        ensures
            stage == self@.stage,
    {
        self.stage
    }

    /// Runs the event of this record. While the event is posted this yields
    /// the completion for the host to carry out and the record is fired; at
    /// any other stage it yields nothing and changes nothing.
    pub fn fire(&mut self) -> (action: Option<Completion>)
        ensures
            action == old(self)@.due(),
            final(self)@ == old(self)@.fired(),
    {
        match self.stage {
            Stage::Posted => {
                self.stage = Stage::Fired;
                Some(Completion { request: self.request, rc: self.rc })
            },
            _ => None,
        }
    }

    /// Tears the record down, as its request's memory goes away. The result
    /// says whether the posted event is to be withdrawn, which it is while it
    /// has not run.
    pub fn teardown(&mut self) -> (withdraw: bool)
        ensures
            withdraw == old(self)@.withdraws(),
            final(self)@ == old(self)@.torn_down(),
    {
        match self.stage {
            Stage::Posted => {
                self.stage = Stage::Withdrawn;
                true
            },
            _ => false,
        }
    }
}

/// Leaves a record that finalizes `request` with the status code `rc`. The
/// caller posts the record's event; nothing is finalized before that event
/// runs.
pub fn finalize_request(request: usize, rc: isize) -> (record: Finalization)
    ensures
        record@ == Record::posted(request, rc),
{
    Finalization { request, rc, stage: Stage::Posted }
}

/// A request is finalized exactly once: the first run of a posted record's
/// event yields its completion, and whatever the stage of a record, nothing is
/// due any more once its event has run.
pub proof fn lemma_finalized_exactly_once(record: Record, request: usize, rc: isize)
    ensures
        Record::posted(request, rc).due() == Some(Completion { request, rc }),
        record.fired().due() is None,
        record.fired().fired() == record.fired(),
        !record.fired().withdraws(),
{
}

/// A record that was torn down before its event ran never fires: nothing is
/// due from it, and running its event or tearing it down again changes
/// nothing.
pub proof fn lemma_teardown_stops_the_event(record: Record)
    ensures
        record.torn_down().due() is None,
        record.torn_down().fired() == record.torn_down(),
        record.torn_down().torn_down() == record.torn_down(),
        !record.torn_down().withdraws(),
{
}

/// A record ends in one way only: once it has fired it cannot be withdrawn,
/// once it is withdrawn it cannot fire, and neither changes the request or
/// the status code.
pub proof fn lemma_one_way_out(record: Record)
    ensures
        record.fired().stage == Stage::Withdrawn ==> record.stage == Stage::Withdrawn,
        record.torn_down().stage == Stage::Fired ==> record.stage == Stage::Fired,
        record.fired().torn_down() == record.fired(),
        record.torn_down().fired() == record.torn_down(),
        record.fired().request == record.request && record.fired().rc == record.rc,
        record.torn_down().request == record.request && record.torn_down().rc == record.rc,
{
}

} // verus!
