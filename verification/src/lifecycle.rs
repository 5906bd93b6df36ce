//! The life of a pack as a state machine: what is held, what is to be done
//! next, and what each report from the driver changes.
use crate::resource::{acquisition_order, Resource, RESOURCE_COUNT};
use vstd::prelude::*;

verus! {

/// Where a pack is in its life.
#[derive(Clone, Copy, Debug, PartialEq, Eq, Structural)]
pub enum Phase {
    /// Construction is under way: resources are being acquired.
    Uninitialized,
    /// All five resources are held. Source can be run through the pack.
    Ready,
    /// Resources are being released, after a failed acquisition or for teardown.
    Releasing,
    /// Nothing is held and nothing will be acquired again.
    Finished,
}

/// What the driver reports to the pack.
#[derive(Clone, Copy, Debug, PartialEq, Eq, Structural)]
pub enum Event {
    /// The acquisition that was asked for succeeded.
    Acquired,
    /// The acquisition that was asked for failed.
    AcquireFailed,
    /// The release that was asked for is done.
    Released,
    /// The owner is done with the pack: tear it down.
    Close,
}

/// What the pack asks of the driver next.
#[derive(Clone, Copy, Debug, PartialEq, Eq, Structural)]
pub enum Step {
    /// Acquire this resource and report `Acquired` or `AcquireFailed`.
    Acquire(Resource),
    /// Release this resource and report `Released`.
    Release(Resource),
    /// Nothing: the pack is ready for use.
    Ready,
    /// Nothing: construction failed at this resource, and all is released.
    Failed(Resource),
    /// Nothing: the pack was torn down, and all is released.
    Closed,
}

/// An entry in the history of what was done to the native resources.
#[derive(Clone, Copy, Debug, PartialEq, Eq, Structural)]
pub enum Record {
    /// The resource was acquired.
    Acquired(Resource),
    /// The resource was released.
    Released(Resource),
}

/// The mathematical value of a pack.
pub struct PackModel {
    /// The resources that are held, oldest first.
    pub held: Seq<Resource>,
    /// Where the pack is in its life.
    pub phase: Phase,
    /// The resource whose acquisition failed, if one did.
    pub failed: Option<Resource>,
}

impl PackModel {
    /// A pack at the start of construction.
    pub open spec fn initial() -> PackModel {
        PackModel { held: Seq::empty(), phase: Phase::Uninitialized, failed: None }
    }

    /// What holds of every pack: the held resources are a prefix of the
    /// acquisition order, as long as the phase says, and none was acquired
    /// past a failure.
    pub open spec fn wf(self) -> bool {
        &&& self.held.len() <= RESOURCE_COUNT
        &&& self.held == acquisition_order().take(self.held.len() as int)
        &&& match self.phase {
            Phase::Uninitialized => self.held.len() < RESOURCE_COUNT && self.failed is None,
            Phase::Ready => self.held.len() == RESOURCE_COUNT && self.failed is None,
            Phase::Releasing => self.held.len() > 0,
            Phase::Finished => self.held.len() == 0,
        }
        &&& (self.failed matches Some(r) ==> self.held.len() <= r.rank())
    }

    /// The resource that is acquired next during construction.
    pub open spec fn next_resource(self) -> Resource {
        acquisition_order()[self.held.len() as int]
    }

    /// The phase that releasing leads to when `remaining` resources are held.
    pub open spec fn winding_down(remaining: nat) -> Phase {
        if remaining == 0 {
            Phase::Finished
        } else {
            Phase::Releasing
        }
    }

    /// What the pack asks of the driver.
    pub open spec fn pending(self) -> Step {
        match self.phase {
            Phase::Uninitialized => Step::Acquire(self.next_resource()),
            Phase::Ready => Step::Ready,
            Phase::Releasing => Step::Release(self.held.last()),
            Phase::Finished => match self.failed {
                Some(r) => Step::Failed(r),
                None => Step::Closed,
            },
        }
    }

    /// The pack after the driver has reported `event`.
    ///
    /// A report that answers nothing the pack has asked for changes nothing.
    pub open spec fn apply(self, event: Event) -> PackModel {
        match (self.phase, event) {
            (Phase::Uninitialized, Event::Acquired) => PackModel {
                held: self.held.push(self.next_resource()),
                phase: if self.held.len() + 1 == RESOURCE_COUNT {
                    Phase::Ready
                } else {
                    Phase::Uninitialized
                },
                failed: None,
            },
            (Phase::Uninitialized, Event::AcquireFailed) => PackModel {
                held: self.held,
                phase: Self::winding_down(self.held.len()),
                failed: Some(self.next_resource()),
            },
            (Phase::Releasing, Event::Released) => PackModel {
                held: self.held.drop_last(),
                phase: Self::winding_down((self.held.len() - 1) as nat),
                failed: self.failed,
            },
            (Phase::Uninitialized, Event::Close) | (Phase::Ready, Event::Close) => PackModel {
                held: self.held,
                phase: Self::winding_down(self.held.len()),
                failed: self.failed,
            },
            _ => self,
        }
    }

    /// What the driver did to a native resource, given that it reports `event`.
    pub open spec fn record(self, event: Event) -> Option<Record> {
        match (self.phase, event) {
            (Phase::Uninitialized, Event::Acquired) => Some(Record::Acquired(self.next_resource())),
            (Phase::Releasing, Event::Released) => Some(Record::Released(self.held.last())),
            _ => None,
        }
    }
}

/// The pack that `start` becomes when the driver reports `events` in turn.
pub open spec fn run(start: PackModel, events: Seq<Event>) -> PackModel
    decreases events.len(),
{
    if events.len() == 0 {
        start
    } else {
        run(start, events.drop_last()).apply(events.last())
    }
}

/// The history of acquisitions and releases behind the reports `events`.
pub open spec fn history(start: PackModel, events: Seq<Event>) -> Seq<Record>
    decreases events.len(),
{
    if events.len() == 0 {
        Seq::empty()
    } else {
        let earlier = history(start, events.drop_last());
        match run(start, events.drop_last()).record(events.last()) {
            Some(record) => earlier.push(record),
            None => earlier,
        }
    }
}

/// Plays a history against a stack of held resources.
///
/// An acquisition pushes a resource that is not held; a release pops the
/// resource on top. The result is the stack at the end, or nothing where some
/// entry breaks that discipline.
pub open spec fn replay(stack: Seq<Resource>, records: Seq<Record>) -> Option<Seq<Resource>>
    decreases records.len(),
{
    if records.len() == 0 {
        Some(stack)
    } else {
        match replay(stack, records.drop_last()) {
            None => None,
            Some(s) => match records.last() {
                Record::Acquired(r) => if s.contains(r) {
                    None
                } else {
                    Some(s.push(r))
                },
                Record::Released(r) => if s.len() > 0 && s.last() == r {
                    Some(s.drop_last())
                } else {
                    None
                },
            },
        }
    }
}

/// How often `record` occurs in a history.
pub open spec fn occurrences(records: Seq<Record>, record: Record) -> nat
    decreases records.len(),
{
    if records.len() == 0 {
        0
    } else {
        occurrences(records.drop_last(), record) + if records.last() == record {
            1nat
        } else {
            0nat
        }
    }
}

/// The same report, `n` times over.
pub open spec fn repeated(event: Event, n: nat) -> Seq<Event> {
    Seq::new(n, |i: int| event)
}

/// The history of acquiring the first `n` resources of the order, in order.
pub open spec fn acquired_in_order(n: nat) -> Seq<Record> {
    Seq::new(n, |i: int| Record::Acquired(acquisition_order()[i]))
}

/// The history of releasing the resources `held`, the newest first.
pub open spec fn released_in_reverse(held: Seq<Resource>) -> Seq<Record> {
    Seq::new(held.len(), |i: int| Record::Released(held[held.len() - 1 - i]))
}

} // verus!
