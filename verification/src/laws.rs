//! What holds of every pack and of every run, proved from the definitions.
use crate::blob::{decoded, BlobView};
use crate::error::ErrorView;
use crate::job::{pipeline_result, validation_blob, JobView, RequestView};
use crate::lifecycle::{
    acquired_in_order, history, occurrences, released_in_reverse, repeated, replay, run, Event,
    PackModel, Phase, Record, Step,
};
use crate::outcome::{translated, OutcomeView, Stage};
use crate::resource::{acquisition_order, Resource, RESOURCE_COUNT};
use vstd::prelude::*;

verus! {

/// A well-formed pack holds exactly the resources that rank below the number
/// it holds, each at the position of its rank.
pub proof fn lemma_held_by_rank(s: PackModel, r: Resource)
    requires
        s.wf(),
    ensures
        s.held.contains(r) <==> r.rank() < s.held.len(),
        r.rank() < s.held.len() ==> s.held[r.rank() as int] == r,
{
    if s.held.contains(r) {
        let i = choose|i: int| 0 <= i < s.held.len() && s.held[i] == r;
        assert(acquisition_order()[i].rank() == i);
    }
    if r.rank() < s.held.len() {
        assert(s.held[r.rank() as int] == r);
    }
}

/// A service is never held without the subsystem that it was created from.
pub proof fn lemma_service_within_subsystem(s: PackModel, r: Resource)
    requires
        s.wf(),
        s.held.contains(r),
    ensures
        r.parent() matches Some(p) ==> s.held.contains(p),
{
    lemma_held_by_rank(s, r);
    if let Some(p) = r.parent() {
        lemma_held_by_rank(s, p);
    }
}

/// No report takes a well-formed pack to one that is not.
pub proof fn lemma_apply_keeps_wf(s: PackModel, event: Event)
    requires
        s.wf(),
    ensures
        s.apply(event).wf(),
{
    let t = s.apply(event);
    let n = s.held.len() as int;
    match (s.phase, event) {
        (Phase::Uninitialized, Event::Acquired) => {
            assert(t.held =~= acquisition_order().take(n + 1));
        },
        (Phase::Uninitialized, Event::AcquireFailed) => {
            assert(acquisition_order()[n].rank() == n);
        },
        (Phase::Releasing, Event::Released) => {
            assert(t.held =~= acquisition_order().take(n - 1));
        },
        _ => {},
    }
}

/// Reports change what is held by one resource at a time, at the top: an
/// acquisition adds the next resource of the order, a release takes the last
/// one away, and every other report leaves the held resources alone.
pub proof fn lemma_apply_moves_the_top(s: PackModel, event: Event)
    requires
        s.wf(),
    ensures
        match s.record(event) {
            Some(Record::Acquired(r)) => s.pending() == Step::Acquire(r) && s.apply(event).held
                == s.held.push(r) && r.rank() == s.held.len(),
            Some(Record::Released(r)) => s.pending() == Step::Release(r) && s.held.len() > 0
                && s.held.last() == r && s.apply(event).held == s.held.drop_last(),
            None => s.apply(event).held == s.held,
        },
{
    let n = s.held.len() as int;
    if s.phase == Phase::Uninitialized {
        assert(acquisition_order()[n].rank() == n);
    }
}

/// Once nothing is left to do, no report changes the pack.
pub proof fn lemma_finished_is_final(s: PackModel, event: Event)
    requires
        s.phase == Phase::Finished,
    ensures
        s.apply(event) == s,
{
}

/// A ready pack stays ready until its owner closes it.
pub proof fn lemma_ready_until_closed(s: PackModel, event: Event)
    requires
        s.phase == Phase::Ready,
        event != Event::Close,
    ensures
        s.apply(event) == s,
{
}

/// Running a pack on reports that come in two parts is running it on the
/// first part and then on the second, and the histories follow one another.
pub proof fn lemma_run_in_parts(start: PackModel, first: Seq<Event>, second: Seq<Event>)
    ensures
        run(start, first + second) == run(run(start, first), second),
        history(start, first + second) == history(start, first) + history(
            run(start, first),
            second,
        ),
    decreases second.len(),
{
    if second.len() == 0 {
        assert(first + second =~= first);
        assert(history(start, first) + Seq::<Record>::empty() =~= history(start, first));
    } else {
        let all = first + second;
        assert(all.drop_last() =~= first + second.drop_last());
        assert(all.last() == second.last());
        lemma_run_in_parts(start, first, second.drop_last());
        let middle = run(start, first);
        let before = run(middle, second.drop_last());
        match before.record(second.last()) {
            Some(record) => {
                assert(history(start, all) =~= history(start, first) + history(middle, second));
            },
            None => {},
        }
    }
}

/// What ties a pack to the history behind it.
spec fn accounted(s: PackModel, records: Seq<Record>) -> bool {
    &&& s.wf()
    &&& replay(Seq::empty(), records) == Some(s.held)
    &&& forall|r: Resource|
        {
            let taken = #[trigger] occurrences(records, Record::Acquired(r));
            let given = occurrences(records, Record::Released(r));
            &&& taken <= 1
            &&& given <= taken
            &&& (taken - given == 1 <==> s.held.contains(r))
            &&& (s.phase == Phase::Uninitialized || s.phase == Phase::Ready ==> given == 0)
        }
}

proof fn lemma_accounted_step(s: PackModel, records: Seq<Record>, event: Event)
    requires
        accounted(s, records),
    ensures
        accounted(
            s.apply(event),
            match s.record(event) {
                Some(record) => records.push(record),
                None => records,
            },
        ),
{
    let t = s.apply(event);
    lemma_apply_keeps_wf(s, event);
    lemma_apply_moves_the_top(s, event);
    match s.record(event) {
        Some(record) => {
            let after = records.push(record);
            assert(after.drop_last() =~= records);
            assert(after.last() == record);
            match record {
                Record::Acquired(r0) => {
                    lemma_held_by_rank(s, r0);
                    assert forall|r: Resource|
                        {
                            let taken = #[trigger] occurrences(after, Record::Acquired(r));
                            let given = occurrences(after, Record::Released(r));
                            &&& taken <= 1
                            &&& given <= taken
                            &&& (taken - given == 1 <==> t.held.contains(r))
                            &&& (t.phase == Phase::Uninitialized || t.phase == Phase::Ready
                                ==> given == 0)
                        } by {
                        let taken = occurrences(records, Record::Acquired(r));
                        lemma_held_by_rank(s, r);
                        lemma_held_by_rank(t, r);
                    }
                },
                Record::Released(r0) => {
                    lemma_held_by_rank(s, r0);
                    assert forall|r: Resource|
                        {
                            let taken = #[trigger] occurrences(after, Record::Acquired(r));
                            let given = occurrences(after, Record::Released(r));
                            &&& taken <= 1
                            &&& given <= taken
                            &&& (taken - given == 1 <==> t.held.contains(r))
                            &&& (t.phase == Phase::Uninitialized || t.phase == Phase::Ready
                                ==> given == 0)
                        } by {
                        let taken = occurrences(records, Record::Acquired(r));
                        lemma_held_by_rank(s, r);
                        lemma_held_by_rank(t, r);
                    }
                },
            }
        },
        None => {
            assert forall|r: Resource|
                {
                    let taken = #[trigger] occurrences(records, Record::Acquired(r));
                    let given = occurrences(records, Record::Released(r));
                    &&& taken <= 1
                    &&& given <= taken
                    &&& (taken - given == 1 <==> t.held.contains(r))
                    &&& (t.phase == Phase::Uninitialized || t.phase == Phase::Ready ==> given
                        == 0)
                } by {
                let taken = occurrences(records, Record::Acquired(r));
            }
        },
    }
}

proof fn lemma_accounted_run(events: Seq<Event>)
    ensures
        accounted(run(PackModel::initial(), events), history(PackModel::initial(), events)),
    decreases events.len(),
{
    let start = PackModel::initial();
    if events.len() == 0 {
        assert(start.held =~= acquisition_order().take(0));
        assert forall|r: Resource| !start.held.contains(r) by {}
    } else {
        lemma_accounted_run(events.drop_last());
        lemma_accounted_step(
            run(start, events.drop_last()),
            history(start, events.drop_last()),
            events.last(),
        );
    }
}

/// Whatever the driver reports, and in whatever order, a pack that began with
/// [`PackModel::initial`] stays well formed.
pub proof fn lemma_run_keeps_wf(events: Seq<Event>)
    ensures
        run(PackModel::initial(), events).wf(),
{
    lemma_accounted_run(events);
}

/// Acquisitions and releases keep the discipline of a stack: over the whole
/// life of a pack a resource is released only while it is the one acquired
/// last among those still held, and what is held in the end is what the
/// history leaves on the stack.
pub proof fn lemma_stack_discipline(events: Seq<Event>)
    ensures
        replay(Seq::empty(), history(PackModel::initial(), events)) == Some(
            run(PackModel::initial(), events).held,
        ),
{
    lemma_accounted_run(events);
}

/// No resource is acquired twice, none is released that was not acquired, and
/// none is released twice. A resource is held exactly while it was acquired
/// and not yet released. Once the pack is finished, every resource that was
/// acquired has been released exactly once: nothing leaks.
pub proof fn lemma_released_exactly_once(events: Seq<Event>, r: Resource)
    ensures
        ({
            let records = history(PackModel::initial(), events);
            let end = run(PackModel::initial(), events);
            let taken = occurrences(records, Record::Acquired(r));
            let given = occurrences(records, Record::Released(r));
            &&& taken <= 1
            &&& given <= taken
            &&& (end.held.contains(r) <==> taken == 1 && given == 0)
            &&& (end.phase == Phase::Finished ==> given == taken)
        }),
{
    lemma_accounted_run(events);
    let records = history(PackModel::initial(), events);
    let taken = occurrences(records, Record::Acquired(r));
}

proof fn lemma_acquisitions(k: nat)
    requires
        k <= RESOURCE_COUNT,
    ensures
        run(PackModel::initial(), repeated(Event::Acquired, k)) == (PackModel {
            held: acquisition_order().take(k as int),
            phase: if k == RESOURCE_COUNT {
                Phase::Ready
            } else {
                Phase::Uninitialized
            },
            failed: None,
        }),
        history(PackModel::initial(), repeated(Event::Acquired, k)) == acquired_in_order(k),
    decreases k,
{
    let start = PackModel::initial();
    let events = repeated(Event::Acquired, k);
    if k == 0 {
        assert(start.held =~= acquisition_order().take(0));
        assert(history(start, events) =~= acquired_in_order(0));
    } else {
        let j = (k - 1) as nat;
        lemma_acquisitions(j);
        assert(events.drop_last() =~= repeated(Event::Acquired, j));
        let before = run(start, repeated(Event::Acquired, j));
        assert(before.held.len() == j);
        assert(before.apply(Event::Acquired).held =~= acquisition_order().take(k as int));
        assert(acquired_in_order(j).push(Record::Acquired(acquisition_order()[j as int]))
            =~= acquired_in_order(k));
    }
}

proof fn lemma_releases(s: PackModel, k: nat)
    requires
        s.wf(),
        s.phase == Phase::Releasing,
        k <= s.held.len(),
    ensures
        run(s, repeated(Event::Released, k)) == (PackModel {
            held: s.held.take(s.held.len() - k),
            phase: PackModel::winding_down((s.held.len() - k) as nat),
            failed: s.failed,
        }),
        history(s, repeated(Event::Released, k)) == released_in_reverse(s.held).take(k as int),
    decreases k,
{
    let events = repeated(Event::Released, k);
    let n = s.held.len();
    if k == 0 {
        assert(s.held.take(n as int) =~= s.held);
        assert(history(s, events) =~= released_in_reverse(s.held).take(0));
    } else {
        let j = (k - 1) as nat;
        lemma_releases(s, j);
        assert(events.drop_last() =~= repeated(Event::Released, j));
        let before = run(s, repeated(Event::Released, j));
        assert(before.held.len() == n - j);
        assert(before.phase == Phase::Releasing);
        assert(before.held.drop_last() =~= s.held.take(n - k));
        assert(before.held.last() == s.held[n - 1 - j]);
        assert(released_in_reverse(s.held).take(j as int).push(Record::Released(before.held.last()))
            =~= released_in_reverse(s.held).take(k as int));
    }
}

/// A pack that has begun to release goes on until nothing is held: after as
/// many releases as it held resources it is finished, and the resources went
/// in exactly the reverse of the order in which they were held.
pub proof fn lemma_unwinding_releases_all(s: PackModel)
    requires
        s.wf(),
        s.phase == Phase::Releasing,
    ensures
        run(s, repeated(Event::Released, s.held.len())) == (PackModel {
            held: Seq::empty(),
            phase: Phase::Finished,
            failed: s.failed,
        }),
        history(s, repeated(Event::Released, s.held.len())) == released_in_reverse(s.held),
{
    lemma_releases(s, s.held.len());
    assert(s.held.take(0) =~= Seq::<Resource>::empty());
    assert(released_in_reverse(s.held).take(s.held.len() as int) =~= released_in_reverse(s.held));
}

/// Construction that meets no failure ends with a ready pack that holds all
/// five resources, acquired in the fixed order.
pub proof fn lemma_construction_succeeds()
    ensures
        run(PackModel::initial(), repeated(Event::Acquired, RESOURCE_COUNT as nat)) == (PackModel {
            held: acquisition_order(),
            phase: Phase::Ready,
            failed: None,
        }),
        history(PackModel::initial(), repeated(Event::Acquired, RESOURCE_COUNT as nat))
            == acquired_in_order(RESOURCE_COUNT as nat),
{
    lemma_acquisitions(RESOURCE_COUNT as nat);
    assert(acquisition_order().take(RESOURCE_COUNT as int) =~= acquisition_order());
}

/// Construction that fails at the resource of rank `k` is undone at once: the
/// `k` resources acquired before it are released, the newest first, each once,
/// and only then does the failure come out, naming the resource that failed.
pub proof fn lemma_failed_construction_unwinds(k: nat)
    requires
        k < RESOURCE_COUNT,
    ensures
        ({
            let events = repeated(Event::Acquired, k).push(Event::AcquireFailed) + repeated(
                Event::Released,
                k,
            );
            let end = run(PackModel::initial(), events);
            &&& end == PackModel {
                held: Seq::empty(),
                phase: Phase::Finished,
                failed: Some(acquisition_order()[k as int]),
            }
            &&& end.pending() == Step::Failed(acquisition_order()[k as int])
            &&& history(PackModel::initial(), events) == acquired_in_order(k)
                + released_in_reverse(acquisition_order().take(k as int))
        }),
{
    let start = PackModel::initial();
    let building = repeated(Event::Acquired, k);
    let attempt = building.push(Event::AcquireFailed);
    lemma_acquisitions(k);
    assert(attempt.drop_last() =~= building);
    let built = run(start, building);
    let broken = run(start, attempt);
    assert(broken == built.apply(Event::AcquireFailed));
    assert(history(start, attempt) == acquired_in_order(k));
    lemma_run_keeps_wf(attempt);
    lemma_run_in_parts(start, attempt, repeated(Event::Released, k));
    if k == 0 {
        assert(repeated(Event::Released, 0) =~= Seq::<Event>::empty());
        assert(broken.held =~= Seq::<Resource>::empty());
        assert(released_in_reverse(acquisition_order().take(0)) =~= Seq::<Record>::empty());
        assert(acquired_in_order(k) + Seq::<Record>::empty() =~= acquired_in_order(k));
    } else {
        lemma_unwinding_releases_all(broken);
    }
}

/// Teardown undoes construction: a ready pack that is closed releases its
/// five resources in exactly the reverse of the order in which they were
/// acquired, and is closed when the last one is gone.
pub proof fn lemma_teardown_reverses_construction()
    ensures
        ({
            let events = repeated(Event::Acquired, RESOURCE_COUNT as nat).push(Event::Close)
                + repeated(Event::Released, RESOURCE_COUNT as nat);
            let end = run(PackModel::initial(), events);
            &&& end == PackModel { held: Seq::empty(), phase: Phase::Finished, failed: None }
            &&& end.pending() == Step::Closed
            &&& history(PackModel::initial(), events) == acquired_in_order(RESOURCE_COUNT as nat)
                + released_in_reverse(acquisition_order())
        }),
{
    let start = PackModel::initial();
    let n = RESOURCE_COUNT as nat;
    let building = repeated(Event::Acquired, n);
    let closing = building.push(Event::Close);
    lemma_construction_succeeds();
    assert(closing.drop_last() =~= building);
    let closed = run(start, closing);
    assert(closed == run(start, building).apply(Event::Close));
    assert(history(start, closing) == acquired_in_order(n));
    lemma_run_keeps_wf(closing);
    lemma_run_in_parts(start, closing, repeated(Event::Released, n));
    lemma_unwinding_releases_all(closed);
}

/// A failed stage ends the run with that stage's error, and the other stage
/// is not asked again: a failed compilation reaches no validator.
pub proof fn lemma_failure_ends_run(job: JobView, outcome: OutcomeView)
    requires
        job.pending() matches Some(stage) && translated(stage, outcome) is Err,
    ensures
        job.advance(outcome) == JobView::Done(Err(translated(job.pending().unwrap(), outcome)->Err_0)),
        job.advance(outcome).pending() is None,
{
}

/// A compilation that fails with a diagnostic buffer which is text ends the
/// run with `CompileError`, and the error carries exactly that text.
pub proof fn lemma_compile_error_carries_diagnostic(
    request: RequestView,
    diagnostic: BlobView,
    text: Seq<char>,
)
    requires
        decoded(diagnostic.bytes, diagnostic.encoding) == Some(text),
    ensures
        JobView::Compile(request).advance(OutcomeView::Failure(diagnostic)) == JobView::Done(
            Err(ErrorView::CompileError(text)),
        ),
{
}

/// The result of a whole run is a function of what the two stages answered:
/// an error of the first stage that failed, or else the validated bytes.
pub proof fn lemma_run_result(request: RequestView, compilation: OutcomeView, validation: OutcomeView)
    ensures
        ({
            let compiled = JobView::Compile(request).advance(compilation);
            if translated(Stage::Compilation, compilation) is Err {
                compiled == JobView::Done(pipeline_result(compilation, validation))
            } else {
                compiled.advance(validation) == JobView::Done(
                    pipeline_result(compilation, validation),
                )
            }
        }),
{
}

/// Where both stages succeed the run yields the validated bytes as the
/// validator gave them, so bytes that are not empty come out not empty; and
/// the run yields an error in no such case.
pub proof fn lemma_success_yields_validated_bytes(
    request: RequestView,
    compiled: BlobView,
    validated: BlobView,
)
    ensures
        JobView::Compile(request).advance(OutcomeView::Success(compiled)).advance(
            OutcomeView::Success(validated),
        ) == JobView::Done(Ok(validated.bytes)),
        pipeline_result(OutcomeView::Success(compiled), OutcomeView::Success(validated)) == Ok::<
            Seq<u8>,
            ErrorView,
        >(validated.bytes),
{
}

/// Validation depends on the compiled bytes alone. After a successful
/// compilation the run stands exactly where a run stands that validates the
/// same bytes on their own, whatever was compiled and however the compiler
/// tagged its result; so both end alike on every answer of the validator.
pub proof fn lemma_validation_round_trip(
    request: RequestView,
    compiled: BlobView,
    validation: OutcomeView,
)
    ensures
        JobView::Compile(request).advance(OutcomeView::Success(compiled)) == JobView::Validate(
            validation_blob(compiled.bytes),
        ),
        JobView::Compile(request).advance(OutcomeView::Success(compiled)).advance(validation)
            == JobView::Validate(validation_blob(compiled.bytes)).advance(validation),
{
}

/// A run that is over stays over: no further answer changes its result.
pub proof fn lemma_done_is_final(result: Result<Seq<u8>, ErrorView>, outcome: OutcomeView)
    ensures
        JobView::Done(result).advance(outcome) == JobView::Done(result),
{
}

} // verus!
