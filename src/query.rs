use vstd::prelude::*;

use crate::status::{is_success, Error, ERROR_SIZE_INSUFFICIENT};

verus! {

/// What the capacity negotiation does after one answer of the runtime.
#[derive(Clone, Copy, Debug, PartialEq, Eq, Structural)]
pub enum Step {
    /// Call again with a buffer of exactly this many elements.
    Call { capacity: u32 },
    /// The buffer holds the result: keep its first `count` elements.
    Done { count: u32 },
    /// Stop and report this failure code.
    Fail { code: i32 },
}

/// The decision taken when a call made with `capacity` elements answered
/// `status` and reported `count` elements.
///
/// A count that fits ends the negotiation. A larger count, on success (the
/// probing call) or with `ERROR_SIZE_INSUFFICIENT`, asks for one more call with
/// a buffer of that size. A size-insufficient answer whose count does not grow
/// is fatal, so the negotiation can never loop on a runtime that oscillates.
pub open spec fn step_spec(capacity: u32, status: i32, count: u32) -> Step {
    if count <= capacity {
        if is_success(status) {
            Step::Done { count }
        } else {
            Step::Fail { code: status }
        }
    } else if is_success(status) || status == ERROR_SIZE_INSUFFICIENT {
        Step::Call { capacity: count }
    } else {
        Step::Fail { code: status }
    }
}

/// Decides the next move of the capacity negotiation.
pub fn next_step(capacity: u32, status: i32, count: u32) -> (r: Step)
    ensures
        r == step_spec(capacity, status, count),
{
    if count <= capacity {
        if status >= 0 {
            Step::Done { count }
        } else {
            Step::Fail { code: status }
        }
    } else if status >= 0 || status == ERROR_SIZE_INSUFFICIENT {
        Step::Call { capacity: count }
    } else {
        Step::Fail { code: status }
    }
}

/// A reported count larger than the buffer leads, on success or on
/// `ERROR_SIZE_INSUFFICIENT`, to a retry with a buffer of exactly that count;
/// every retry asks for strictly more room than the call before, so at most
/// `u32::MAX` retries can follow one another; and once the buffer holds the
/// count no retry is made.
pub proof fn law_retry_exact_and_bounded(capacity: u32, status: i32, count: u32)
    ensures
        count > capacity && (is_success(status) || status == ERROR_SIZE_INSUFFICIENT)
            ==> step_spec(capacity, status, count) == (Step::Call { capacity: count }),
        step_spec(capacity, status, count) is Call
            ==> step_spec(capacity, status, count)->capacity > capacity,
        count <= capacity ==> !(step_spec(capacity, status, count) is Call),
{
}

/// The capacities the negotiation calls with, first `capacity`, when the
/// runtime gives `answers` (status, reported count) in this order. The list
/// ends with the first call whose answer is not followed by a retry.
pub open spec fn capacities_of(capacity: u32, answers: Seq<(i32, u32)>) -> Seq<u32>
    decreases answers.len(),
{
    if answers.len() == 0 {
        seq![capacity]
    } else {
        match step_spec(capacity, answers[0].0, answers[0].1) {
            Step::Call { capacity: next } => seq![capacity] + capacities_of(
                next,
                answers.drop_first(),
            ),
            _ => seq![capacity],
        }
    }
}

/// Over any sequence of answers, every retry uses a buffer of exactly the
/// count reported by the answer before it, the capacities strictly grow, and
/// so a negotiation that starts from the probe makes at most `u32::MAX + 1`
/// calls.
pub proof fn law_negotiation_terminates(capacity: u32, answers: Seq<(i32, u32)>)
    ensures
        ({
            let caps = capacities_of(capacity, answers);
            &&& caps[0] == capacity
            &&& 1 <= caps.len() <= answers.len() + 1
            &&& forall|i: int|
                0 < i < caps.len() ==> #[trigger] caps[i] == answers[i - 1].1 && caps[i] > caps[i
                    - 1]
            &&& forall|i: int| 0 <= i < caps.len() ==> #[trigger] caps[i] >= capacity + i
            &&& caps.len() <= u32::MAX - capacity + 1
        }),
    decreases answers.len(),
{
    let caps = capacities_of(capacity, answers);
    if answers.len() > 0 {
        let s = step_spec(capacity, answers[0].0, answers[0].1);
        if let Step::Call { capacity: next } = s {
            let rest = answers.drop_first();
            law_negotiation_terminates(next, rest);
            let tail = capacities_of(next, rest);
            assert(caps == seq![capacity] + tail);
            assert forall|i: int| 0 < i < caps.len() implies #[trigger] caps[i] == answers[i
                - 1].1 && caps[i] > caps[i - 1] by {
                assert(caps[i] == tail[i - 1]);
                if i > 1 {
                    assert(rest[i - 2] == answers[i - 1]);
                }
            }
            assert forall|i: int| 0 <= i < caps.len() implies #[trigger] caps[i] >= capacity + i by {
                if i > 0 {
                    assert(caps[i] == tail[i - 1]);
                }
            }
            assert(caps[caps.len() - 1] >= capacity + caps.len() - 1);
        }
    }
}

proof fn lemma_capacities_extend(capacity: u32, answers: Seq<(i32, u32)>, answer: (i32, u32))
    requires
        capacities_of(capacity, answers).len() == answers.len() + 1,
    ensures
        ({
            let caps = capacities_of(capacity, answers);
            let s = step_spec(caps.last(), answer.0, answer.1);
            &&& s is Call ==> capacities_of(capacity, answers.push(answer)) == caps.push(
                s->capacity,
            )
            &&& !(s is Call) ==> capacities_of(capacity, answers.push(answer)) == caps
        }),
    decreases answers.len(),
{
    let longer = answers.push(answer);
    let caps = capacities_of(capacity, answers);
    if answers.len() == 0 {
        assert(caps =~= seq![capacity]);
        assert(longer[0] == answer);
        assert(longer.drop_first() =~= Seq::<(i32, u32)>::empty());
        let s = step_spec(capacity, answer.0, answer.1);
        if s is Call {
            assert(capacities_of(s->capacity, longer.drop_first()) =~= seq![s->capacity]);
            assert(capacities_of(capacity, longer) =~= caps.push(s->capacity));
        }
    } else {
        let next = step_spec(capacity, answers[0].0, answers[0].1)->capacity;
        let rest = answers.drop_first();
        let tail = capacities_of(next, rest);
        assert(caps == seq![capacity] + tail);
        assert(caps.last() == tail.last());
        assert(longer[0] == answers[0]);
        assert(longer.drop_first() =~= rest.push(answer));
        lemma_capacities_extend(next, rest, answer);
        let s = step_spec(caps.last(), answer.0, answer.1);
        if s is Call {
            assert(capacities_of(capacity, longer) =~= caps.push(s->capacity));
        } else {
            assert(capacities_of(capacity, longer) =~= caps);
        }
    }
}

/// A successful answer reporting zero elements ends the negotiation with an
/// empty result, whatever buffer was offered.
pub proof fn law_zero_count_is_empty(capacity: u32, status: i32)
    requires
        is_success(status),
    ensures
        step_spec(capacity, status, 0) == (Step::Done { count: 0 }),
{
}

/// One exchange with the runtime: the buffer handed over, the buffer as the
/// call left it, the status code and the count the runtime reported.
pub type Exchange<T> = (Seq<T>, Seq<T>, i32, u32);

/// One native call of the shape `f(capacity, &mut count, buffer) -> status`.
///
/// The capacity handed to the runtime is `buf.len()`; an empty buffer stands
/// for the null pointer of the probing call, so a null buffer never comes with
/// a nonzero capacity. The call returns the status code and the count the
/// runtime reported, and records the exchange.
pub trait CapacityCall<T> {
    /// Every exchange made so far, oldest first.
    spec fn exchanges(&self) -> Seq<Exchange<T>>;

    fn call(&mut self, buf: &mut Vec<T>) -> (r: (i32, u32))
        ensures
            final(self).exchanges() == old(self).exchanges().push(
                (old(buf)@, final(buf)@, r.0, r.1),
            ),
    ;
}

/// The (status, count) answers of a run of exchanges.
pub open spec fn answers_of<T>(ex: Seq<Exchange<T>>) -> Seq<(i32, u32)> {
    ex.map_values(|e: Exchange<T>| (e.2, e.3))
}

/// A result with its vector seen as a sequence.
pub open spec fn seq_outcome<T>(r: Result<Vec<T>, Error>) -> Result<Seq<T>, Error> {
    match r {
        Ok(v) => Ok(v@),
        Err(e) => Err(e),
    }
}

/// What a finished fill yields: the first `count` elements the runtime
/// wrote, or `InvalidCount` when the buffer no longer holds that many.
pub open spec fn fill_result<T>(written: Seq<T>, count: u32) -> Result<Seq<T>, Error> {
    if count as nat > written.len() {
        Err(Error::InvalidCount)
    } else {
        Ok(written.take(count as int))
    }
}

/// The calls of a negotiation were made as the protocol asks: at least one
/// call, every answer but the last asked for a retry, and call `k` was
/// handed `capacities_of(0, ..)[k]` copies of `init` (the first one none).
pub open spec fn query_calls<T>(init: T, ex: Seq<Exchange<T>>) -> bool {
    let caps = capacities_of(0, answers_of(ex).drop_last());
    &&& ex.len() >= 1
    &&& caps.len() == ex.len()
    &&& forall|k: int|
        0 <= k < ex.len() ==> (#[trigger] ex[k]).0 == Seq::new(caps[k] as nat, |i: int| init)
}

/// The step the last answer of a negotiation took.
pub open spec fn settling_step<T>(ex: Seq<Exchange<T>>) -> Step {
    let caps = capacities_of(0, answers_of(ex).drop_last());
    step_spec(caps.last(), ex.last().2, ex.last().3)
}

/// A negotiation made the exchanges `ex` and returned `r`: the calls were
/// made as the protocol asks, and `r` is the settling fill's elements, or the
/// runtime's failure code unchanged.
pub open spec fn query_outcome<T>(init: T, ex: Seq<Exchange<T>>, r: Result<Seq<T>, Error>) -> bool {
    &&& query_calls(init, ex)
    &&& match settling_step(ex) {
        Step::Done { count } => r == fill_result(ex.last().1, count),
        Step::Fail { code } => r == Err::<Seq<T>, Error>(Error::Runtime(code)),
        Step::Call { .. } => false,
    }
}

/// In any negotiation, the first call is the empty probe, and each later
/// call is handed exactly the count the call before it reported, which is
/// more than that call was handed.
pub proof fn law_query_retries_exact<T>(init: T, ex: Seq<Exchange<T>>, r: Result<Seq<T>, Error>)
    requires
        query_outcome(init, ex, r),
    ensures
        ex[0].0.len() == 0,
        forall|k: int|
            0 < k < ex.len() ==> (#[trigger] ex[k]).0.len() == ex[k - 1].3 && ex[k].0.len() > ex[k
                - 1].0.len(),
{
    let ans = answers_of(ex).drop_last();
    law_negotiation_terminates(0, ans);
    let caps = capacities_of(0, ans);
    assert forall|k: int| 0 < k < ex.len() implies (#[trigger] ex[k]).0.len() == ex[k - 1].3
        && ex[k].0.len() > ex[k - 1].0.len() by {
        assert(ex[k].0 == Seq::new(caps[k] as nat, |i: int| init));
        assert(ex[k - 1].0 == Seq::new(caps[k - 1] as nat, |i: int| init));
        assert(caps[k] == ans[k - 1].1);
    }
    assert(ex[0].0 == Seq::new(caps[0] as nat, |i: int| init));
}

/// When the probing call succeeds with a count of zero, the negotiation
/// ends there with an empty result, never an error.
pub proof fn law_zero_count_probe<T>(init: T, ex: Seq<Exchange<T>>, r: Result<Seq<T>, Error>)
    requires
        query_outcome(init, ex, r),
        is_success(ex[0].2),
        ex[0].3 == 0,
    ensures
        ex.len() == 1,
        r == Ok::<Seq<T>, Error>(Seq::empty()),
{
    let ans = answers_of(ex).drop_last();
    if ex.len() > 1 {
        assert(ans[0] == (ex[0].2, ex[0].3));
        assert(step_spec(0, ex[0].2, 0) == (Step::Done { count: 0 }));
        assert(capacities_of(0, ans).len() == 1);
    }
    assert(ans =~= Seq::<(i32, u32)>::empty());
    assert(ex.last().1.take(0) =~= Seq::<T>::empty());
}

/// Keeps the first `count` elements of a filled buffer, or reports
/// `InvalidCount` when the call left fewer than that.
pub fn finish_fill<T>(buf: Vec<T>, count: u32) -> (r: Result<Vec<T>, Error>)
    ensures
        seq_outcome(r) == fill_result(buf@, count),
{
    if count as usize > buf.len() {
        return Err(Error::InvalidCount);
    }
    let mut buf = buf;
    let ghost before = buf@;
    buf.truncate(count as usize);
    assert(buf@ =~= before.take(count as int));
    Ok(buf)
}

/// A buffer of `len` copies of `init`, the "typed, unset" shape each element
/// must have before the runtime fills it.
pub fn init_buffer<T: Copy>(init: T, len: u32) -> (r: Vec<T>)
    ensures
        r@ == Seq::new(len as nat, |i: int| init),
{
    let mut r: Vec<T> = Vec::new();
    let mut i: u32 = 0;
    while i < len
        invariant
            i <= len,
            r@ == Seq::new(i as nat, |j: int| init),
        decreases len - i,
    {
        r.push(init);
        i = i + 1;
    }
    r
}

proof fn lemma_query_step<T>(
    init: T,
    ex: Seq<Exchange<T>>,
    x: Exchange<T>,
    capacity: u32,
)
    requires
        capacities_of(0, answers_of(ex)).len() == ex.len() + 1,
        capacities_of(0, answers_of(ex)).last() == capacity,
        forall|k: int|
            0 <= k < ex.len() ==> (#[trigger] ex[k]).0 == Seq::new(
                capacities_of(0, answers_of(ex))[k] as nat,
                |i: int| init,
            ),
        x.0 == Seq::new(capacity as nat, |i: int| init),
    ensures
        answers_of(ex.push(x)).drop_last() == answers_of(ex),
        answers_of(ex.push(x)) == answers_of(ex).push((x.2, x.3)),
        forall|k: int|
            0 <= k < ex.len() + 1 ==> (#[trigger] ex.push(x)[k]).0 == Seq::new(
                capacities_of(0, answers_of(ex))[k] as nat,
                |i: int| init,
            ),
{
    assert(answers_of(ex.push(x)) =~= answers_of(ex).push((x.2, x.3)));
    assert(answers_of(ex.push(x)).drop_last() =~= answers_of(ex));
    assert forall|k: int| 0 <= k < ex.len() + 1 implies (#[trigger] ex.push(x)[k]).0 == Seq::new(
        capacities_of(0, answers_of(ex))[k] as nat,
        |i: int| init,
    ) by {
        if k < ex.len() {
            assert(ex.push(x)[k] == ex[k]);
        }
    }
}

/// Runs the two-call protocol: probe with an empty buffer, then fill a buffer
/// of exactly the reported size, growing it again for as long as the runtime
/// reports a larger count. Every element is set to `init` before each fill.
///
/// Whatever the runtime answers, this returns: each retry asks for strictly
/// more elements than the one before. The exchanges it makes follow the
/// protocol, and the result is what the settling answer calls for.
pub fn get_arr_init<T: Copy, C: CapacityCall<T>>(init: T, f: &mut C) -> (r: Result<Vec<T>, Error>)
    ensures
        final(f).exchanges().len() > old(f).exchanges().len(),
        final(f).exchanges().take(old(f).exchanges().len() as int) == old(f).exchanges(),
        query_outcome(init, final(f).exchanges().skip(old(f).exchanges().len() as int), seq_outcome(r)),
        r matches Ok(v) ==> v.len() <= u32::MAX,
{
    let ghost start = f.exchanges();
    let mut capacity: u32 = 0;
    let mut buf: Vec<T> = init_buffer(init, 0);
    loop
        invariant
            buf@ == Seq::new(capacity as nat, |i: int| init),
            start == old(f).exchanges(),
            f.exchanges().len() >= start.len(),
            f.exchanges().take(start.len() as int) == start,
            ({
                let ex = f.exchanges().skip(start.len() as int);
                let caps = capacities_of(0, answers_of(ex));
                &&& caps.len() == ex.len() + 1
                &&& caps.last() == capacity
                &&& forall|k: int|
                    0 <= k < ex.len() ==> (#[trigger] ex[k]).0 == Seq::new(caps[k] as nat, |i: int| init)
            }),
        decreases u32::MAX - capacity,
    {
        let ghost ex = f.exchanges().skip(start.len() as int);
        let ghost prev = f.exchanges();
        let ghost handed = buf@;
        let (status, count) = f.call(&mut buf);
        let ghost x = (handed, buf@, status, count);
        proof {
            assert(prev =~= start + ex);
            assert(f.exchanges() == prev.push(x));
            assert(f.exchanges().len() == prev.len() + 1);
            assert(f.exchanges().skip(start.len() as int) =~= ex.push(x));
            assert(f.exchanges().take(start.len() as int) =~= start);
            lemma_query_step(init, ex, x, capacity);
            lemma_capacities_extend(0, answers_of(ex), (status, count));
        }
        match next_step(capacity, status, count) {
            Step::Call { capacity: next } => {
                buf = init_buffer(init, next);
                capacity = next;
                proof {
                    let ex2 = ex.push(x);
                    let caps2 = capacities_of(0, answers_of(ex2));
                    assert(caps2 == capacities_of(0, answers_of(ex)).push(next));
                    assert forall|k: int| 0 <= k < ex2.len() implies (#[trigger] ex2[k]).0 == Seq::new(
                        caps2[k] as nat,
                        |i: int| init,
                    ) by {
                        assert(caps2[k] == capacities_of(0, answers_of(ex))[k]);
                    }
                }
            },
            Step::Done { count } => {
                return finish_fill(buf, count);
            },
            Step::Fail { code } => {
                return Err(Error::Runtime(code));
            },
        }
    }
}

/// `get_arr_init` for plain elements, each slot set to the type's default.
pub fn get_arr<T: Copy + Default, C: CapacityCall<T>>(f: &mut C) -> (r: Result<Vec<T>, Error>)
    ensures
        final(f).exchanges().len() > old(f).exchanges().len(),
        exists|init: T|
            query_outcome(init, final(f).exchanges().skip(old(f).exchanges().len() as int), seq_outcome(r)),
{
    get_arr_init(T::default(), f)
}

} // verus!
