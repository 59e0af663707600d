use vstd::prelude::*;

use crate::base::{FillBufferAction, FillBufferError};
use crate::buffer::StackBuffer;
use crate::growable::{settlement, Argument, FrozenBuffer, GrowableBuffer};
use crate::strategy::{
    GrowForSmallBinary, GrowForStaticText, GrowForStoredIsReturned, GrowToNearestQuarterKibi,
};
use crate::traits::{Bytes, GrowStrategy, RawToInternal, ToResult, WriteBuffer};
use crate::win::{text_view, CAPACITY_FOR_NAMES, CAPACITY_FOR_PATHS, FLOOR_FOR_PATHS};

verus! {

/// One attempt of a negotiation: the negotiation, the size and the count as
/// they are handed to the call; what the call returns; the negotiation and
/// the size as the call leaves them; and the negotiation as it is once the
/// attempt is settled.
pub struct Attempt<'gs, 'sb, WB: WriteBuffer, GS: GrowStrategy, IT: RawToInternal, WR> {
    /// The negotiation when the argument is handed to the call.
    pub before: GrowableBuffer<'gs, 'sb, WB, GS, IT>,
    /// The size that the call is offered.
    pub size: u32,
    /// The number of the attempt that the call is told.
    pub tries: usize,
    /// What the call returns.
    pub outcome: WR,
    /// The negotiation when the call has returned.
    pub after: GrowableBuffer<'gs, 'sb, WB, GS, IT>,
    /// The size that the call leaves behind.
    pub size_after: u32,
    /// The negotiation when the attempt is settled.
    pub settled: GrowableBuffer<'gs, 'sb, WB, GS, IT>,
}

impl<'gs, 'sb, WB: WriteBuffer, GS: GrowStrategy, IT: RawToInternal, WR: ToResult> Attempt<
    'gs,
    'sb,
    WB,
    GS,
    IT,
    WR,
> {
    /// The call is handed an argument with the negotiation `before`, the
    /// size `size` and the count `tries`, and hands it back with the
    /// negotiation `after` and the size `size_after`.
    pub open spec fn made_with(
        &self,
        before: GrowableBuffer<'gs, 'sb, WB, GS, IT>,
        size: u32,
        tries: usize,
        after: GrowableBuffer<'gs, 'sb, WB, GS, IT>,
        size_after: u32,
    ) -> bool {
        &&& before == self.before
        &&& size == self.size
        &&& tries == self.tries
        &&& after == self.after
        &&& size_after == self.size_after
    }

    /// The call is offered a well-formed negotiation in which nothing is
    /// committed, the capacity of its buffer as the size, and the number of
    /// the attempt; and it leaves a well-formed negotiation behind.
    pub open spec fn offered(&self) -> bool {
        &&& self.before.wf()
        &&& self.before.final_size() == 0
        &&& self.size == IT::size_of(self.before.capacity())
        &&& self.tries == self.before.attempt()
        &&& self.after.wf()
    }

    /// How the attempt ends: with an error, or with the word whether the
    /// negotiation is over.
    pub open spec fn verdict(&self) -> Result<bool, FillBufferError> {
        settlement(self.outcome, self.after, self.size_after)
    }

    /// The attempt asks for another, and is settled by making room for the
    /// size that its outcome leaves recorded.
    pub open spec fn goes_on(&self) -> bool {
        &&& self.verdict() == Ok::<bool, FillBufferError>(false)
        &&& self.settled.wf()
        &&& self.settled.grown(&self.after, self.outcome.next_size(self.size_after))
    }
}

/// The attempts `run` are made one after the other in the negotiation that
/// starts as `start`: each is offered what an attempt is offered, the first
/// is made in the buffers of `start`, and each later one in the buffers
/// that the attempt before it was settled with.
#[verifier::opaque]
pub open spec fn chained<'gs, 'sb, WB, GS, IT, WR>(
    start: GrowableBuffer<'gs, 'sb, WB, GS, IT>,
    run: Seq<Attempt<'gs, 'sb, WB, GS, IT, WR>>,
) -> bool where WB: WriteBuffer + 'sb, GS: GrowStrategy + 'gs, IT: RawToInternal, WR: ToResult {
    &&& forall|i: int| 0 <= i < run.len() ==> (#[trigger] run[i]).offered()
    &&& run.len() > 0 ==> run[0].before.buffers().same(&start.buffers())
    &&& forall|i: int|
        0 < i < run.len() ==> (#[trigger] run[i]).before.buffers().same(&run[i - 1].settled.buffers())
}

/// Each of the first `count` attempts of `run` asks for another.
#[verifier::opaque]
pub open spec fn go_on<'gs, 'sb, WB, GS, IT, WR>(
    run: Seq<Attempt<'gs, 'sb, WB, GS, IT, WR>>,
    count: int,
) -> bool where WB: WriteBuffer + 'sb, GS: GrowStrategy + 'gs, IT: RawToInternal, WR: ToResult {
    forall|i: int| 0 <= i < count && i < run.len() ==> (#[trigger] run[i]).goes_on()
}

/// The attempts `run` are made one after the other in the negotiation that
/// starts as `start`, and each of them asks for another.
pub open spec fn goes_on<'gs, 'sb, WB, GS, IT, WR>(
    start: GrowableBuffer<'gs, 'sb, WB, GS, IT>,
    run: Seq<Attempt<'gs, 'sb, WB, GS, IT, WR>>,
) -> bool where WB: WriteBuffer + 'sb, GS: GrowStrategy + 'gs, IT: RawToInternal, WR: ToResult {
    chained(start, run) && go_on(run, run.len() as int)
}

/// The attempts `run` are all the attempts of a negotiation that starts as
/// `start`: there is at least one, they are made one after the other,
/// every attempt but the last asks for another, and the last does so only
/// where no further attempt can be counted.
pub open spec fn is_run<'gs, 'sb, WB, GS, IT, WR>(
    start: GrowableBuffer<'gs, 'sb, WB, GS, IT>,
    run: Seq<Attempt<'gs, 'sb, WB, GS, IT, WR>>,
) -> bool where WB: WriteBuffer + 'sb, GS: GrowStrategy + 'gs, IT: RawToInternal, WR: ToResult {
    &&& 1 <= run.len() <= usize::MAX
    &&& chained(start, run)
    &&& go_on(run, run.len() - 1)
    &&& run.last().verdict() == Ok::<bool, FillBufferError>(false) ==> run.len() == usize::MAX
}

/// The negotiation `start` starts in a buffer of `CAPACITY` bytes that is as
/// it is made, with a strategy of its kind.
pub open spec fn starts_fresh<'gs, 'sb, const CAPACITY: usize, GS, IT>(
    start: GrowableBuffer<'gs, 'sb, StackBuffer<CAPACITY>, GS, IT>,
) -> bool where GS: GrowStrategy + 'gs, IT: RawToInternal {
    exists|initial: StackBuffer<CAPACITY>, strategy: GS|
        initial.fresh() && #[trigger] start.starts_in(initial, strategy)
}

/// An attempt ends the negotiation in `last`: with the size committed that
/// its outcome leaves recorded, or with nothing committed where the outcome
/// is that there is no data.
pub open spec fn settles_in<'gs, 'sb, WB, GS, IT, WR>(
    attempt: Attempt<'gs, 'sb, WB, GS, IT, WR>,
    last: GrowableBuffer<'gs, 'sb, WB, GS, IT>,
) -> bool where WB: WriteBuffer + 'sb, GS: GrowStrategy + 'gs, IT: RawToInternal, WR: ToResult {
    &&& attempt.verdict() == Ok::<bool, FillBufferError>(true)
    &&& last.wf()
    &&& match attempt.outcome.action(attempt.size_after) {
        Ok(FillBufferAction::Commit) => last.committed(
            &attempt.after,
            attempt.outcome.next_size(attempt.size_after),
        ),
        Ok(FillBufferAction::NoData) => last.committed(&attempt.after, 0),
        _ => false,
    }
}

/// Why the negotiation with the attempts `run` ends without a buffer to
/// hand out, if it does: the error of the last attempt where that does not
/// settle, and that the count of attempts is used up where the last attempt
/// asks for another.
pub open spec fn stopped<'gs, 'sb, WB, GS, IT, WR>(
    run: Seq<Attempt<'gs, 'sb, WB, GS, IT, WR>>,
) -> Option<FillBufferError> where WB: WriteBuffer + 'sb, GS: GrowStrategy + 'gs, IT: RawToInternal, WR: ToResult {
    match run.last().verdict() {
        Ok(false) => Some(FillBufferError::Exhausted),
        Err(error) => Some(error),
        Ok(true) => None,
    }
}

/// `frozen` is what the negotiation with the attempts `run` freezes to once
/// its last attempt has ended it.
pub open spec fn freezes_to<'gs, 'sb, WB, GS, IT, WR>(
    run: Seq<Attempt<'gs, 'sb, WB, GS, IT, WR>>,
    frozen: FrozenBuffer<'sb, WB>,
) -> bool where WB: WriteBuffer + 'sb, GS: GrowStrategy + 'gs, IT: RawToInternal, WR: ToResult {
    exists|last: GrowableBuffer<'gs, 'sb, WB, GS, IT>|
        settles_in(run.last(), last) && #[trigger] frozen.is_freeze_of(&last)
}

/// The negotiation that makes the attempts `run` has the result `result`:
/// the error that stops it, or what `finalize` makes of the buffer that it
/// freezes to.
pub open spec fn ended<'gs, 'sb, WB, GS, IT, WR, F, U>(
    run: Seq<Attempt<'gs, 'sb, WB, GS, IT, WR>>,
    finalize: F,
    result: Result<U, FillBufferError>,
) -> bool where
    WB: WriteBuffer + 'sb,
    GS: GrowStrategy + 'gs,
    IT: RawToInternal,
    WR: ToResult,
    F: FnOnce(FrozenBuffer<'sb, WB>) -> Result<U, FillBufferError>,
 {
    match stopped(run) {
        Some(error) => result == Err::<U, FillBufferError>(error),
        None => exists|frozen: FrozenBuffer<'sb, WB>| #[trigger]
            freezes_to(run, frozen) && call_ensures(finalize, (frozen,), result),
    }
}

/// The negotiation that makes the attempts `run` has the result `result`:
/// the error that stops it, or what the buffer that it freezes to holds as
/// text.
pub open spec fn ended_in_text<'gs, 'sb, WB, GS, IT, WR>(
    run: Seq<Attempt<'gs, 'sb, WB, GS, IT, WR>>,
    lossy_ok: bool,
    result: Result<Result<String, Vec<u16>>, FillBufferError>,
) -> bool where WB: WriteBuffer + 'sb, GS: GrowStrategy + 'gs, IT: RawToInternal, WR: ToResult {
    match stopped(run) {
        Some(error) => result == Err::<Result<String, Vec<u16>>, FillBufferError>(error),
        None => result is Ok && exists|frozen: FrozenBuffer<'sb, WB>| #[trigger]
            freezes_to(run, frozen) && text_view(result->Ok_0) == frozen.text(lossy_ok),
    }
}

/// The negotiation that makes the attempts `run` has the result `result`:
/// the error that stops it, or the code units that the buffer that it
/// freezes to holds, none where it holds none.
pub open spec fn ended_in_wide<'gs, 'sb, WB, GS, IT, WR>(
    run: Seq<Attempt<'gs, 'sb, WB, GS, IT, WR>>,
    result: Result<Vec<u16>, FillBufferError>,
) -> bool where WB: WriteBuffer + 'sb, GS: GrowStrategy + 'gs, IT: RawToInternal, WR: ToResult {
    match stopped(run) {
        Some(error) => result == Err::<Vec<u16>, FillBufferError>(error),
        None => result is Ok && exists|frozen: FrozenBuffer<'sb, WB>| #[trigger]
            freezes_to(run, frozen) && result->Ok_0@ == match frozen.wide() {
                Some(path) => path,
                None => Seq::empty(),
            },
    }
}

/// Before the first attempt, every attempt has asked for another.
pub proof fn lemma_no_attempt_goes_on<'gs, 'sb, WB, GS, IT, WR>(
    start: GrowableBuffer<'gs, 'sb, WB, GS, IT>,
) where WB: WriteBuffer + 'sb, GS: GrowStrategy + 'gs, IT: RawToInternal, WR: ToResult
    ensures
        goes_on(start, Seq::<Attempt<'gs, 'sb, WB, GS, IT, WR>>::empty()),
{
    reveal(chained);
    reveal(go_on);
}

/// As many attempts as can be counted, each of which asks for another, are
/// the whole run of a negotiation, whose last attempt asks for another.
pub proof fn lemma_run_is_used_up<'gs, 'sb, WB, GS, IT, WR>(
    start: GrowableBuffer<'gs, 'sb, WB, GS, IT>,
    run: Seq<Attempt<'gs, 'sb, WB, GS, IT, WR>>,
) where WB: WriteBuffer + 'sb, GS: GrowStrategy + 'gs, IT: RawToInternal, WR: ToResult
    requires
        goes_on(start, run),
        run.len() == usize::MAX,
    ensures
        is_run(start, run),
        run.last().verdict() == Ok::<bool, FillBufferError>(false),
{
    reveal(go_on);
    assert(run[run.len() - 1].goes_on());
}

/// Attempts that are made one after the other stay so with an attempt that
/// is made in the buffers that the last of them was settled with.
pub proof fn lemma_chained_push<'gs, 'sb, WB, GS, IT, WR>(
    start: GrowableBuffer<'gs, 'sb, WB, GS, IT>,
    run: Seq<Attempt<'gs, 'sb, WB, GS, IT, WR>>,
    made: Attempt<'gs, 'sb, WB, GS, IT, WR>,
) where WB: WriteBuffer + 'sb, GS: GrowStrategy + 'gs, IT: RawToInternal, WR: ToResult
    requires
        chained(start, run),
        made.offered(),
        run.len() == 0 ==> made.before.buffers().same(&start.buffers()),
        run.len() > 0 ==> made.before.buffers().same(&run.last().settled.buffers()),
    ensures
        chained(start, run.push(made)),
{
    reveal(chained);
    let longer = run.push(made);
    assert forall|i: int| 0 <= i < longer.len() implies (#[trigger] longer[i]).offered() by {
        if i < run.len() {
            assert(longer[i] == run[i]);
        }
    }
    assert forall|i: int| 0 < i < longer.len() implies (#[trigger] longer[i]).before.buffers().same(
        &longer[i - 1].settled.buffers(),
    ) by {
        if i < run.len() {
            assert(longer[i] == run[i]);
            assert(longer[i - 1] == run[i - 1]);
        } else {
            assert(longer[i] == made);
            assert(longer[i - 1] == run.last());
        }
    }
    if run.len() > 0 {
        assert(longer[0] == run[0]);
    } else {
        assert(longer[0] == made);
    }
}

/// Attempts of which each asks for another stay so with one more attempt,
/// as far as they were counted before.
pub proof fn lemma_go_on_push<'gs, 'sb, WB, GS, IT, WR>(
    run: Seq<Attempt<'gs, 'sb, WB, GS, IT, WR>>,
    made: Attempt<'gs, 'sb, WB, GS, IT, WR>,
) where WB: WriteBuffer + 'sb, GS: GrowStrategy + 'gs, IT: RawToInternal, WR: ToResult
    requires
        go_on(run, run.len() as int),
    ensures
        go_on(run.push(made), run.len() as int),
        made.goes_on() ==> go_on(run.push(made), run.len() as int + 1),
{
    reveal(go_on);
    let longer = run.push(made);
    assert forall|i: int| 0 <= i < run.len() implies (#[trigger] longer[i]).goes_on() by {
        assert(longer[i] == run[i]);
    }
    assert(longer[run.len() as int] == made);
}

/// A run in which every attempt asks for another stays one when an attempt
/// that asks for another is made in the buffers that the last was settled
/// with.
pub proof fn lemma_run_goes_on<'gs, 'sb, WB, GS, IT, WR>(
    start: GrowableBuffer<'gs, 'sb, WB, GS, IT>,
    run: Seq<Attempt<'gs, 'sb, WB, GS, IT, WR>>,
    made: Attempt<'gs, 'sb, WB, GS, IT, WR>,
) where WB: WriteBuffer + 'sb, GS: GrowStrategy + 'gs, IT: RawToInternal, WR: ToResult
    requires
        goes_on(start, run),
        made.offered(),
        made.goes_on(),
        run.len() == 0 ==> made.before.buffers().same(&start.buffers()),
        run.len() > 0 ==> made.before.buffers().same(&run.last().settled.buffers()),
    ensures
        goes_on(start, run.push(made)),
{
    lemma_chained_push(start, run, made);
    lemma_go_on_push(run, made);
}

/// A run in which every attempt asks for another becomes the whole run of a
/// negotiation with an attempt, made in the buffers that the last was
/// settled with, that does not ask for another, or after which no further
/// attempt can be counted.
pub proof fn lemma_run_ends<'gs, 'sb, WB, GS, IT, WR>(
    start: GrowableBuffer<'gs, 'sb, WB, GS, IT>,
    run: Seq<Attempt<'gs, 'sb, WB, GS, IT, WR>>,
    made: Attempt<'gs, 'sb, WB, GS, IT, WR>,
) where WB: WriteBuffer + 'sb, GS: GrowStrategy + 'gs, IT: RawToInternal, WR: ToResult
    requires
        goes_on(start, run),
        made.offered(),
        run.len() < usize::MAX,
        run.len() == 0 ==> made.before.buffers().same(&start.buffers()),
        run.len() > 0 ==> made.before.buffers().same(&run.last().settled.buffers()),
        made.verdict() == Ok::<bool, FillBufferError>(false) ==> run.len() + 1 == usize::MAX,
    ensures
        is_run(start, run.push(made)),
        run.push(made).last() == made,
{
    lemma_chained_push(start, run, made);
    lemma_go_on_push(run, made);
}

/// What the whole run of a negotiation says of its attempts, one by one:
/// each is offered what an attempt is offered; the first is made in the
/// buffers that the negotiation starts with, and each later one in the
/// buffers that the attempt before it was settled with; and each but the
/// last asks for another.
pub proof fn lemma_run_unfolds<'gs, 'sb, WB, GS, IT, WR>(
    start: GrowableBuffer<'gs, 'sb, WB, GS, IT>,
    run: Seq<Attempt<'gs, 'sb, WB, GS, IT, WR>>,
) where WB: WriteBuffer + 'sb, GS: GrowStrategy + 'gs, IT: RawToInternal, WR: ToResult
    requires
        is_run(start, run),
    ensures
        forall|i: int| 0 <= i < run.len() ==> (#[trigger] run[i]).offered(),
        run[0].before.buffers().same(&start.buffers()),
        forall|i: int|
            0 < i < run.len() ==> (#[trigger] run[i]).before.buffers().same(
                &run[i - 1].settled.buffers(),
            ),
        forall|i: int| 0 <= i < run.len() - 1 ==> (#[trigger] run[i]).goes_on(),
{
    reveal(chained);
    reveal(go_on);
}

/// Runs a negotiation to its end: makes attempt after attempt with
/// `api_wrapper`, in a buffer that grows whenever an attempt finds it too
/// small, and hands the frozen buffer to `finalize` once an attempt has
/// committed its data or has found that there is none.
///
/// The negotiation ends with an error, and `finalize` is not called, as soon
/// as an attempt does not settle.
#[verifier::spinoff_prover]
pub fn winapi_generic<'gs, 'sb, WB, GS, IT, W, WR, F, U>(
    growable_buffer: GrowableBuffer<'gs, 'sb, WB, GS, IT>,
    api_wrapper: W,
    finalize: F,
) -> (result: Result<U, FillBufferError>) where
    WB: WriteBuffer,
    GS: GrowStrategy,
    IT: RawToInternal,
    WR: ToResult,
    W: FnMut(&mut Argument<'_, 'gs, 'sb, WB, GS, IT>) -> WR,
    F: FnOnce(FrozenBuffer<'sb, WB>) -> Result<U, FillBufferError>,

    requires
        growable_buffer.wf(),
        forall|argument: &mut Argument<'_, 'gs, 'sb, WB, GS, IT>|
            argument.wf() ==> #[trigger] call_requires(api_wrapper, (argument,)),
        forall|argument: &mut Argument<'_, 'gs, 'sb, WB, GS, IT>, outcome: WR| #[trigger]
            call_ensures(api_wrapper, (argument,), outcome) && argument.wf() ==> final(argument).wf()
                && *final(final(argument).parent) == *final(argument.parent),
        forall|frozen: FrozenBuffer<'sb, WB>| #[trigger] call_requires(finalize, (frozen,)),
    ensures
        exists|run: Seq<Attempt<'gs, 'sb, WB, GS, IT, WR>>|
            (forall|i: int|
                0 <= i < run.len() ==> (#[trigger] run[i].offered()) && exists|argument: &mut Argument<'_, 'gs, 'sb, WB, GS, IT>|
                    #[trigger] call_ensures(api_wrapper, (argument,), run[i].outcome) && run[i].made_with(
                        *argument.parent,
                        argument.size,
                        argument.tries,
                        *final(argument).parent,
                        final(argument).size,
                    )) && #[trigger] is_run(growable_buffer, run) && ended(run, finalize, result),
{
    let ghost mut run: Seq<Attempt<'gs, 'sb, WB, GS, IT, WR>> = Seq::empty();
    let mut negotiation = growable_buffer;
    let mut attempt = api_wrapper;
    let mut rounds: usize = 0;
    let mut over = false;
    proof {
        lemma_no_attempt_goes_on::<WB, GS, IT, WR>(growable_buffer);
    }
    while !over
        invariant
            attempt == api_wrapper,
            negotiation.wf(),
            run.len() <= usize::MAX,
            !over ==> rounds == run.len() && goes_on(growable_buffer, run),
            !over && run.len() == 0 ==> negotiation == growable_buffer,
            !over && run.len() > 0 ==> negotiation == run.last().settled,
            over ==> is_run(growable_buffer, run) && settles_in(run.last(), negotiation),
            forall|argument: &mut Argument<'_, 'gs, 'sb, WB, GS, IT>|
                argument.wf() ==> #[trigger] call_requires(api_wrapper, (argument,)),
            forall|argument: &mut Argument<'_, 'gs, 'sb, WB, GS, IT>, outcome: WR| #[trigger]
                call_ensures(api_wrapper, (argument,), outcome) && argument.wf() ==> final(argument).wf()
                    && *final(final(argument).parent) == *final(argument.parent),
            (forall|i: int|
                0 <= i < run.len() ==> (#[trigger] run[i].offered()) && exists|argument: &mut Argument<'_, 'gs, 'sb, WB, GS, IT>|
                    #[trigger] call_ensures(api_wrapper, (argument,), run[i].outcome) && run[i].made_with(
                        *argument.parent,
                        argument.size,
                        argument.tries,
                        *final(argument).parent,
                        final(argument).size,
                    )),
        decreases
            (if over {
                0
            } else {
                usize::MAX - rounds + 1
            }),
    {
        if rounds == usize::MAX {
            proof {
                lemma_run_is_used_up(growable_buffer, run);
                assert(ended(run, finalize, Err::<U, FillBufferError>(FillBufferError::Exhausted)));
            }
            return Err(FillBufferError::Exhausted);
        }
        rounds = rounds + 1;
        let mut argument = negotiation.argument();
        let ghost before = *argument.parent;
        let ghost size = argument.size;
        let ghost tries = argument.tries;
        let outcome = attempt(&mut argument);
        let ghost after = *argument.parent;
        let ghost size_after = argument.size;
        let settled = argument.settle(&outcome);
        let ghost earlier = run;
        let ghost made = Attempt {
            before,
            size,
            tries,
            outcome,
            after,
            size_after,
            settled: negotiation,
        };
        proof {
            run = earlier.push(made);
            assert(made.offered());
            assert(made.made_with(before, size, tries, after, size_after));
            assert(exists|handed: &mut Argument<'_, 'gs, 'sb, WB, GS, IT>| #[trigger]
                call_ensures(api_wrapper, (handed,), outcome) && made.made_with(
                    *handed.parent,
                    handed.size,
                    handed.tries,
                    *final(handed).parent,
                    final(handed).size,
                ));
        }
        assert forall|i: int| 0 <= i < run.len() implies (#[trigger] run[i].offered())
            && exists|argument: &mut Argument<'_, 'gs, 'sb, WB, GS, IT>| #[trigger]
            call_ensures(api_wrapper, (argument,), run[i].outcome) && run[i].made_with(
                *argument.parent,
                argument.size,
                argument.tries,
                *final(argument).parent,
                final(argument).size,
            ) by {
            if i < earlier.len() {
                assert(run[i] == earlier[i]);
                assert(earlier[i].offered());
                assert(exists|handed: &mut Argument<'_, 'gs, 'sb, WB, GS, IT>| #[trigger]
                    call_ensures(api_wrapper, (handed,), earlier[i].outcome)
                        && earlier[i].made_with(
                        *handed.parent,
                        handed.size,
                        handed.tries,
                        *final(handed).parent,
                        final(handed).size,
                    ));
            } else {
                assert(run[i] == made);
                assert(run[i].outcome == outcome);
                assert(exists|handed: &mut Argument<'_, 'gs, 'sb, WB, GS, IT>| #[trigger]
                    call_ensures(api_wrapper, (handed,), run[i].outcome) && run[i].made_with(
                        *handed.parent,
                        handed.size,
                        handed.tries,
                        *final(handed).parent,
                        final(handed).size,
                    ));
            }
        }
        match settled {
            Err(error) => {
                proof {
                    lemma_run_ends(growable_buffer, earlier, made);
                    assert(run.last() == made);
                    assert(ended(run, finalize, Err::<U, FillBufferError>(error)));
                }
                return Err(error);
            },
            Ok(done) => {
                if done {
                    proof {
                        lemma_run_ends(growable_buffer, earlier, made);
                        assert(run.last() == made);
                    }
                    over = true;
                } else {
                    proof {
                        lemma_run_goes_on(growable_buffer, earlier, made);
                    }
                }
            },
        }
    }
    let frozen = negotiation.freeze();
    let result = finalize(frozen);
    proof {
        assert(freezes_to(run, frozen));
        assert(ended(run, finalize, result));
    }
    result
}

/// Runs a negotiation for binary data, whose sizes are counted in bytes,
/// in the buffer `initial_buffer` and with `grow_strategy` to size its
/// successors.
pub fn winapi_binary<'gs, 'sb, WB, GS, W, WR, F, U>(
    initial_buffer: &'sb mut WB,
    grow_strategy: &'gs GS,
    api_wrapper: W,
    finalize: F,
) -> (result: Result<U, FillBufferError>) where
    WB: WriteBuffer,
    GS: GrowStrategy,
    WR: ToResult,
    W: FnMut(&mut Argument<'_, 'gs, 'sb, WB, GS, Bytes>) -> WR,
    F: FnOnce(FrozenBuffer<'sb, WB>) -> Result<U, FillBufferError>,

    requires
        old(initial_buffer).wf(),
        forall|argument: &mut Argument<'_, 'gs, 'sb, WB, GS, Bytes>|
            argument.wf() ==> #[trigger] call_requires(api_wrapper, (argument,)),
        forall|argument: &mut Argument<'_, 'gs, 'sb, WB, GS, Bytes>, outcome: WR| #[trigger]
            call_ensures(api_wrapper, (argument,), outcome) && argument.wf() ==> final(argument).wf()
                && *final(final(argument).parent) == *final(argument.parent),
        forall|frozen: FrozenBuffer<'sb, WB>| #[trigger] call_requires(finalize, (frozen,)),
    ensures
        exists|
            start: GrowableBuffer<'gs, 'sb, WB, GS, Bytes>,
            run: Seq<Attempt<'gs, 'sb, WB, GS, Bytes, WR>>,
        |
            #![trigger is_run(start, run)]
            start.starts_in(*old(initial_buffer), *grow_strategy) && (forall|i: int|
                0 <= i < run.len() ==> (#[trigger] run[i].offered()) && exists|argument: &mut Argument<'_, 'gs, 'sb, WB, GS, Bytes>|
                    #[trigger] call_ensures(api_wrapper, (argument,), run[i].outcome) && run[i].made_with(
                        *argument.parent,
                        argument.size,
                        argument.tries,
                        *final(argument).parent,
                        final(argument).size,
                    )) && is_run(start, run) && ended(run, finalize, result),
{
    let growable_buffer = GrowableBuffer::<WB, GS, Bytes>::new(initial_buffer, grow_strategy);
    winapi_generic(growable_buffer, api_wrapper, finalize)
}

/// Runs a negotiation for binary data that needs a small buffer: it starts
/// with 1024 bytes and grows to the next multiple of sixteen.
pub fn winapi_small_binary<W, WR, F, U>(api_wrapper: W, finalize: F) -> (result: Result<U, FillBufferError>) where
    WR: ToResult,
    W: FnMut(&mut Argument<'_, '_, '_, StackBuffer<1024>, GrowForSmallBinary, Bytes>) -> WR,
    F: FnOnce(FrozenBuffer<'_, StackBuffer<1024>>) -> Result<U, FillBufferError>,

    requires
        forall|argument: &mut Argument<'_, '_, '_, StackBuffer<1024>, GrowForSmallBinary, Bytes>|
            argument.wf() ==> #[trigger] call_requires(api_wrapper, (argument,)),
        forall|argument: &mut Argument<'_, '_, '_, StackBuffer<1024>, GrowForSmallBinary, Bytes>, outcome: WR| #[trigger]
            call_ensures(api_wrapper, (argument,), outcome) && argument.wf() ==> final(argument).wf()
                && *final(final(argument).parent) == *final(argument.parent),
        forall|frozen: FrozenBuffer<'_, StackBuffer<1024>>| #[trigger] call_requires(finalize, (frozen,)),
    ensures
        exists|start: GrowableBuffer<'_, '_, StackBuffer<1024>, GrowForSmallBinary, Bytes>, run: Seq<Attempt<'_, '_, StackBuffer<1024>, GrowForSmallBinary, Bytes, WR>>|
            #![trigger is_run(start, run)]
            starts_fresh(start) && (forall|i: int|
                0 <= i < run.len() ==> (#[trigger] run[i].offered()) && exists|argument: &mut Argument<'_, '_, '_, StackBuffer<1024>, GrowForSmallBinary, Bytes>|
                    #[trigger] call_ensures(api_wrapper, (argument,), run[i].outcome) && run[i].made_with(
                        *argument.parent,
                        argument.size,
                        argument.tries,
                        *final(argument).parent,
                        final(argument).size,
                    )) && is_run(start, run) && ended(run, finalize, result),
{
    let mut initial_buffer = StackBuffer::<1024>::new();
    let grow_strategy = GrowForSmallBinary::new();
    let ghost initial = initial_buffer;
    let result = winapi_binary(&mut initial_buffer, &grow_strategy, api_wrapper, finalize);
    proof {
        assert(initial.fresh());
    }
    result
}

/// Runs a negotiation for binary data that needs a large buffer: it starts
/// with 65536 bytes and grows to the next multiple of 256 that leaves room
/// for aligning the data.
pub fn winapi_large_binary<W, WR, F, U>(api_wrapper: W, finalize: F) -> (result: Result<U, FillBufferError>) where
    WR: ToResult,
    W: FnMut(&mut Argument<'_, '_, '_, StackBuffer<65536>, GrowToNearestQuarterKibi, Bytes>) -> WR,
    F: FnOnce(FrozenBuffer<'_, StackBuffer<65536>>) -> Result<U, FillBufferError>,

    requires
        forall|argument: &mut Argument<'_, '_, '_, StackBuffer<65536>, GrowToNearestQuarterKibi, Bytes>|
            argument.wf() ==> #[trigger] call_requires(api_wrapper, (argument,)),
        forall|argument: &mut Argument<'_, '_, '_, StackBuffer<65536>, GrowToNearestQuarterKibi, Bytes>, outcome: WR| #[trigger]
            call_ensures(api_wrapper, (argument,), outcome) && argument.wf() ==> final(argument).wf()
                && *final(final(argument).parent) == *final(argument.parent),
        forall|frozen: FrozenBuffer<'_, StackBuffer<65536>>| #[trigger] call_requires(finalize, (frozen,)),
    ensures
        exists|start: GrowableBuffer<'_, '_, StackBuffer<65536>, GrowToNearestQuarterKibi, Bytes>, run: Seq<Attempt<'_, '_, StackBuffer<65536>, GrowToNearestQuarterKibi, Bytes, WR>>|
            #![trigger is_run(start, run)]
            starts_fresh(start) && (forall|i: int|
                0 <= i < run.len() ==> (#[trigger] run[i].offered()) && exists|argument: &mut Argument<'_, '_, '_, StackBuffer<65536>, GrowToNearestQuarterKibi, Bytes>|
                    #[trigger] call_ensures(api_wrapper, (argument,), run[i].outcome) && run[i].made_with(
                        *argument.parent,
                        argument.size,
                        argument.tries,
                        *final(argument).parent,
                        final(argument).size,
                    )) && is_run(start, run) && ended(run, finalize, result),
{
    let mut initial_buffer = StackBuffer::<65536>::new();
    let grow_strategy = GrowToNearestQuarterKibi::new();
    let ghost initial = initial_buffer;
    let result = winapi_binary(&mut initial_buffer, &grow_strategy, api_wrapper, finalize);
    proof {
        assert(initial.fresh());
    }
    result
}

/// Runs a negotiation for a text such as the name of a user or of a
/// machine, whose sizes are counted in UTF-16 code units: it starts with
/// room for a name and grows to the next multiple of sixteen that leaves
/// room for a terminator.
///
/// Returns the text, by the rule of [`FrozenBuffer::to_string`].
pub fn winapi_string<W, WR>(lossy_ok: bool, api_wrapper: W) -> (result: Result<Result<String, Vec<u16>>, FillBufferError>) where
    WR: ToResult,
    W: FnMut(&mut Argument<'_, '_, '_, StackBuffer<CAPACITY_FOR_NAMES>, GrowForStaticText, windows::core::PWSTR>) -> WR,

    requires
        forall|argument: &mut Argument<'_, '_, '_, StackBuffer<CAPACITY_FOR_NAMES>, GrowForStaticText, windows::core::PWSTR>|
            argument.wf() ==> #[trigger] call_requires(api_wrapper, (argument,)),
        forall|argument: &mut Argument<'_, '_, '_, StackBuffer<CAPACITY_FOR_NAMES>, GrowForStaticText, windows::core::PWSTR>, outcome: WR| #[trigger]
            call_ensures(api_wrapper, (argument,), outcome) && argument.wf() ==> final(argument).wf()
                && *final(final(argument).parent) == *final(argument.parent),
    ensures
        exists|start: GrowableBuffer<'_, '_, StackBuffer<CAPACITY_FOR_NAMES>, GrowForStaticText, windows::core::PWSTR>, run: Seq<Attempt<'_, '_, StackBuffer<CAPACITY_FOR_NAMES>, GrowForStaticText, windows::core::PWSTR, WR>>|
            #![trigger is_run(start, run)]
            starts_fresh(start) && (forall|i: int|
                0 <= i < run.len() ==> (#[trigger] run[i].offered()) && exists|argument: &mut Argument<'_, '_, '_, StackBuffer<CAPACITY_FOR_NAMES>, GrowForStaticText, windows::core::PWSTR>|
                    #[trigger] call_ensures(api_wrapper, (argument,), run[i].outcome) && run[i].made_with(
                        *argument.parent,
                        argument.size,
                        argument.tries,
                        *final(argument).parent,
                        final(argument).size,
                    )) && is_run(start, run) && ended_in_text(run, lossy_ok, result),
{
    let mut initial_buffer = StackBuffer::<CAPACITY_FOR_NAMES>::new();
    let grow_strategy = GrowForStaticText::new();
    let ghost initial = initial_buffer;
    let growable_buffer = GrowableBuffer::<_, _, windows::core::PWSTR>::new(
        &mut initial_buffer,
        &grow_strategy,
    );
    let finalize = |frozen_buffer: FrozenBuffer<'_, StackBuffer<CAPACITY_FOR_NAMES>>| -> (text:
        Result<Result<String, Vec<u16>>, FillBufferError>)
        ensures
            text is Ok,
            text_view(text->Ok_0) == frozen_buffer.text(lossy_ok),
        { Ok(frozen_buffer.to_string(lossy_ok)) };
    winapi_generic(growable_buffer, api_wrapper, finalize)
}

/// Runs a negotiation for a file system path, whose sizes are counted in
/// UTF-16 code units and of which the call only reports how much it stored:
/// it starts with room for a path of the classic maximum length and doubles
/// from there.
///
/// Returns the code units of the path without their terminator; none where
/// there is no path.
pub fn winapi_wide<W, WR>(api_wrapper: W) -> (result: Result<Vec<u16>, FillBufferError>) where
    WR: ToResult,
    W: FnMut(&mut Argument<'_, '_, '_, StackBuffer<CAPACITY_FOR_PATHS>, GrowForStoredIsReturned<FLOOR_FOR_PATHS>, windows::core::PWSTR>) -> WR,

    requires
        forall|argument: &mut Argument<'_, '_, '_, StackBuffer<CAPACITY_FOR_PATHS>, GrowForStoredIsReturned<FLOOR_FOR_PATHS>, windows::core::PWSTR>|
            argument.wf() ==> #[trigger] call_requires(api_wrapper, (argument,)),
        forall|argument: &mut Argument<'_, '_, '_, StackBuffer<CAPACITY_FOR_PATHS>, GrowForStoredIsReturned<FLOOR_FOR_PATHS>, windows::core::PWSTR>, outcome: WR| #[trigger]
            call_ensures(api_wrapper, (argument,), outcome) && argument.wf() ==> final(argument).wf()
                && *final(final(argument).parent) == *final(argument.parent),
    ensures
        exists|start: GrowableBuffer<'_, '_, StackBuffer<CAPACITY_FOR_PATHS>, GrowForStoredIsReturned<FLOOR_FOR_PATHS>, windows::core::PWSTR>, run: Seq<Attempt<'_, '_, StackBuffer<CAPACITY_FOR_PATHS>, GrowForStoredIsReturned<FLOOR_FOR_PATHS>, windows::core::PWSTR, WR>>|
            #![trigger is_run(start, run)]
            starts_fresh(start) && (forall|i: int|
                0 <= i < run.len() ==> (#[trigger] run[i].offered()) && exists|argument: &mut Argument<'_, '_, '_, StackBuffer<CAPACITY_FOR_PATHS>, GrowForStoredIsReturned<FLOOR_FOR_PATHS>, windows::core::PWSTR>|
                    #[trigger] call_ensures(api_wrapper, (argument,), run[i].outcome) && run[i].made_with(
                        *argument.parent,
                        argument.size,
                        argument.tries,
                        *final(argument).parent,
                        final(argument).size,
                    )) && is_run(start, run) && ended_in_wide(run, result),
{
    let mut initial_buffer = StackBuffer::<CAPACITY_FOR_PATHS>::new();
    let grow_strategy = GrowForStoredIsReturned::<FLOOR_FOR_PATHS>::new();
    let ghost initial = initial_buffer;
    let growable_buffer = GrowableBuffer::<_, _, windows::core::PWSTR>::new(
        &mut initial_buffer,
        &grow_strategy,
    );
    let finalize = |frozen_buffer: FrozenBuffer<'_, StackBuffer<CAPACITY_FOR_PATHS>>| -> (units:
        Result<Vec<u16>, FillBufferError>)
        ensures
            units is Ok,
            units->Ok_0@ == match frozen_buffer.wide() {
                Some(path) => path,
                None => Seq::empty(),
            },
        {
            match frozen_buffer.to_wide() {
                Some(path) => Ok(path),
                None => Ok(Vec::new()),
            }
        };
    winapi_generic(growable_buffer, api_wrapper, finalize)
}

} // verus!
