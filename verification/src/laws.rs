//! What every conversation with the chip obeys, whatever its script.
use vstd::prelude::*;
use crate::error::{ErrorModel, TrustMDeviceError};
use crate::protocol::{
    read_key_script, OpModel, StepModel, KEY_LEN, KEY_OFFSET, KEY_RESPONSE_LEN, MAX_ATTEMPTS,
    RETRY_BACKOFF_MICROS,
};
use crate::session::{
    fault, fresh, issue, key_in_response, lemma_read_key_script_ends_with_key_read, model_wf, next,
    outcome, settle_delay, ActionModel, EventModel, Phase, SessionModel,
};

verus! {

/// The states and actions of a session fed a sequence of events, one by one.
pub open spec fn run(s: SessionModel, events: Seq<EventModel>) -> (SessionModel, Seq<ActionModel>)
    decreases events.len(),
{
    if events.len() == 0 {
        (s, Seq::empty())
    } else {
        let (s1, a) = next(s, events[0]);
        let (s2, rest) = run(s1, events.drop_first());
        (s2, seq![a] + rest)
    }
}

proof fn lemma_run_concat(s: SessionModel, e1: Seq<EventModel>, e2: Seq<EventModel>)
    ensures
        run(s, e1 + e2) == (
            run(run(s, e1).0, e2).0,
            run(s, e1).1 + run(run(s, e1).0, e2).1,
        ),
    decreases e1.len(),
{
    if e1.len() == 0 {
        assert(e1 + e2 =~= e2);
        assert(run(s, e1).1 + run(run(s, e1).0, e2).1 =~= run(s, e2).1);
    } else {
        let (s1, a) = next(s, e1[0]);
        assert((e1 + e2).drop_first() =~= e1.drop_first() + e2);
        assert((e1 + e2)[0] == e1[0]);
        lemma_run_concat(s1, e1.drop_first(), e2);
        let r1 = run(s1, e1.drop_first());
        assert(seq![a] + (r1.1 + run(r1.0, e2).1) =~= (seq![a] + r1.1) + run(r1.0, e2).1);
    }
}

proof fn lemma_run_one(s: SessionModel, e: EventModel)
    ensures
        run(s, seq![e]) == (next(s, e).0, seq![next(s, e).1]),
{
    let (s1, a) = next(s, e);
    assert(seq![e].drop_first() =~= Seq::<EventModel>::empty());
    assert(run(s1, Seq::<EventModel>::empty()) == (s1, Seq::<ActionModel>::empty()));
    assert(seq![a] + Seq::<ActionModel>::empty() =~= seq![a]);
}

proof fn lemma_run_two(s: SessionModel, e1: EventModel, e2: EventModel)
    ensures
        run(s, seq![e1, e2]) == (
            next(next(s, e1).0, e2).0,
            seq![next(s, e1).1, next(next(s, e1).0, e2).1],
        ),
{
    assert(seq![e1, e2] =~= seq![e1] + seq![e2]);
    lemma_run_concat(s, seq![e1], seq![e2]);
    lemma_run_one(s, e1);
    lemma_run_one(next(s, e1).0, e2);
    assert(seq![next(s, e1).1] + seq![next(next(s, e1).0, e2).1] =~= seq![
        next(s, e1).1,
        next(next(s, e1).0, e2).1,
    ]);
}

// ---------------------------------------------------------------------
// A finished conversation stays finished
// ---------------------------------------------------------------------

/// Once a conversation is over, every further event leaves it as it is and
/// is answered with the same result.
pub proof fn law_finished_is_final(s: SessionModel, e: EventModel)
    requires
        model_wf(s),
        s.phase == Phase::Finished,
    ensures
        next(s, e) == (s, ActionModel::Finish(outcome(s))),
{
}

// ---------------------------------------------------------------------
// Every move keeps to the script
// ---------------------------------------------------------------------

/// Whatever is reported, a session keeps its invariant and its script,
/// never goes back to an earlier step, and asks only for the i2c operation
/// of the step it is at.
pub proof fn law_moves_keep_to_the_script(s: SessionModel, e: EventModel)
    requires
        model_wf(s),
    ensures
        model_wf(next(s, e).0),
        next(s, e).0.script == s.script,
        next(s, e).0.yields_key == s.yields_key,
        next(s, e).0.pos >= s.pos,
        next(s, e).1 matches ActionModel::Transfer(op) ==> next(s, e).0.pos < s.script.len()
            && s.script[next(s, e).0.pos as int] == StepModel::Transfer(op),
{
}

/// Every i2c operation has its own budget of attempts: whenever the session
/// starts a step (its position moves on, or it leaves the start) and asks
/// for an i2c operation, no attempt of that operation has failed yet.
pub proof fn law_each_operation_starts_with_a_fresh_budget(s: SessionModel, e: EventModel)
    requires
        model_wf(s),
    ensures
        (next(s, e).1 is Transfer && (next(s, e).0.pos > s.pos || s.phase == Phase::Ready))
            ==> next(s, e).0.attempts == 0,
{
}

/// Whatever failures earlier steps had, once a step has succeeded and its
/// pause is over, the next i2c operation survives 199 failed attempts: the
/// session is still waiting on that operation and asks for it once more.
pub proof fn law_earlier_failures_do_not_shorten_later_retries(s: SessionModel, op: OpModel)
    requires
        model_wf(s),
        s.phase == Phase::Settling,
        s.pos + 1 < s.script.len(),
        s.script[s.pos + 1 as int] == StepModel::Transfer(op),
    ensures
        ({
            let r = run(s, seq![EventModel::Elapsed] + failed_attempts((MAX_ATTEMPTS - 1) as nat));
            &&& r.0.phase == Phase::Awaiting
            &&& r.0.pos == s.pos + 1
            &&& r.0.attempts == MAX_ATTEMPTS - 1
            &&& r.1.last() == ActionModel::Transfer(op)
        }),
{
    let k: nat = (MAX_ATTEMPTS - 1) as nat;
    let (s1, a1) = next(s, EventModel::Elapsed);
    assert(s1.attempts == 0 && s1.phase == Phase::Awaiting && s1.pos == s.pos + 1);
    lemma_run_concat(s, seq![EventModel::Elapsed], failed_attempts(k));
    lemma_run_one(s, EventModel::Elapsed);
    lemma_retries(s1, op, k);
    lemma_retry_actions_last(op, k);
}

proof fn lemma_retry_actions_last(op: OpModel, k: nat)
    requires
        k > 0,
    ensures
        retry_actions(op, k).len() == 2 * k,
        retry_actions(op, k).last() == ActionModel::Transfer(op),
    decreases k,
{
    if k > 1 {
        lemma_retry_actions_last(op, (k - 1) as nat);
    } else {
        assert(retry_actions(op, 0) =~= Seq::<ActionModel>::empty());
    }
}

/// How long the session waits: after a successful read 500 µs, after a
/// successful write 10 ms, and after any failed attempt 1 ms.
pub proof fn law_pauses_after_attempts(s: SessionModel, op: OpModel, data: Seq<u8>)
    requires
        model_wf(s),
        s.phase == Phase::Awaiting,
        s.script[s.pos as int] == StepModel::Transfer(op),
        op matches OpModel::ReadBytes(n) ==> data.len() == n,
    ensures
        next(s, EventModel::Success(data)).1 == ActionModel::Sleep(
            if op is ReadBytes {
                500
            } else {
                10_000
            },
        ),
        next(s, EventModel::Failure).1 == ActionModel::Sleep(1000),
        next(s, EventModel::Success(data)).0.attempts == s.attempts,
        next(s, EventModel::Failure).0.attempts == s.attempts + 1,
{
}

// ---------------------------------------------------------------------
// The device cannot be opened
// ---------------------------------------------------------------------

/// When the device cannot be opened, the conversation asks for no i2c
/// operation and ends with the initialisation error.
pub proof fn law_open_failure(script: Seq<StepModel>, yields_key: bool)
    requires
        model_wf(fresh(script, yields_key)),
        script.len() > 0,
        script[0] == StepModel::Open,
    ensures
        run(fresh(script, yields_key), seq![EventModel::Start, EventModel::Failure]).1 == seq![
            ActionModel::Open,
            ActionModel::Finish(Err(ErrorModel::Device(TrustMDeviceError::InitFailed))),
        ],
        run(fresh(script, yields_key), seq![EventModel::Start, EventModel::Failure]).0.phase
            == Phase::Finished,
{
    let s0 = fresh(script, yields_key);
    let ev = seq![EventModel::Start, EventModel::Failure];
    let (s1, a1) = next(s0, ev[0]);
    assert(ev.drop_first() =~= seq![EventModel::Failure]);
    let (s2, a2) = next(s1, EventModel::Failure);
    assert(seq![EventModel::Failure].drop_first() =~= Seq::<EventModel>::empty());
    lemma_run_two(s0, EventModel::Start, EventModel::Failure);
}

// ---------------------------------------------------------------------
// Retries are bounded
// ---------------------------------------------------------------------

/// `k` failed attempts, each followed by the pause after it.
pub open spec fn failed_attempts(k: nat) -> Seq<EventModel>
    decreases k,
{
    if k == 0 {
        Seq::empty()
    } else {
        seq![EventModel::Failure, EventModel::Elapsed] + failed_attempts((k - 1) as nat)
    }
}

/// What the session asks after `k` failed attempts of `op` that each lead to a retry.
pub open spec fn retry_actions(op: OpModel, k: nat) -> Seq<ActionModel>
    decreases k,
{
    if k == 0 {
        Seq::empty()
    } else {
        seq![ActionModel::Sleep(RETRY_BACKOFF_MICROS), ActionModel::Transfer(op)] + retry_actions(
            op,
            (k - 1) as nat,
        )
    }
}

proof fn lemma_retries(s: SessionModel, op: OpModel, k: nat)
    requires
        model_wf(s),
        s.phase == Phase::Awaiting,
        s.script[s.pos as int] == StepModel::Transfer(op),
        s.attempts + k < MAX_ATTEMPTS,
    ensures
        run(s, failed_attempts(k)) == (
            SessionModel { attempts: s.attempts + k, ..s },
            retry_actions(op, k),
        ),
    decreases k,
{
    if k == 0 {
        assert(SessionModel { attempts: s.attempts + k, ..s } == s);
    } else {
        let rest = failed_attempts((k - 1) as nat);
        let ev = failed_attempts(k);
        assert(ev =~= seq![EventModel::Failure, EventModel::Elapsed] + rest);
        lemma_run_concat(s, seq![EventModel::Failure, EventModel::Elapsed], rest);
        let (s1, a1) = next(s, EventModel::Failure);
        let (s2, a2) = next(s1, EventModel::Elapsed);
        assert(s2 == SessionModel { attempts: s.attempts + 1, ..s });
        let two = seq![EventModel::Failure, EventModel::Elapsed];
        assert(two.drop_first() =~= seq![EventModel::Elapsed]);
        assert(seq![EventModel::Elapsed].drop_first() =~= Seq::<EventModel>::empty());
        lemma_run_two(s, EventModel::Failure, EventModel::Elapsed);
        lemma_retries(s2, op, (k - 1) as nat);
        assert(run(s, ev).1 =~= retry_actions(op, k));
    }
}

/// An i2c operation that keeps failing is attempted exactly `MAX_ATTEMPTS`
/// times. After each failed attempt the session waits; after each of the
/// first `MAX_ATTEMPTS - 1` failures it asks for the same operation again,
/// and after the last one it ends the conversation with the error of that
/// operation (a failed write or a failed read).
pub proof fn law_retries_are_bounded(s: SessionModel, op: OpModel)
    requires
        model_wf(s),
        s.phase == Phase::Awaiting,
        s.script[s.pos as int] == StepModel::Transfer(op),
        s.attempts == 0,
    ensures
        run(s, failed_attempts(199)) == (
            SessionModel { attempts: 199, ..s },
            retry_actions(op, 199),
        ),
        run(s, failed_attempts(200)).0.phase == Phase::Finished,
        run(s, failed_attempts(200)).1 == retry_actions(op, 199) + seq![
            ActionModel::Sleep(1000),
            ActionModel::Finish(
                Err(
                    ErrorModel::Device(
                        if op is ReadBytes {
                            TrustMDeviceError::ReadFailed
                        } else {
                            TrustMDeviceError::WriteFailed
                        },
                    ),
                ),
            ),
        ],
{
    let k: nat = (MAX_ATTEMPTS - 1) as nat;
    lemma_retries(s, op, k);
    let s_k = SessionModel { attempts: k, ..s };
    let two = seq![EventModel::Failure, EventModel::Elapsed];
    let all = failed_attempts(MAX_ATTEMPTS as nat);
    assert(failed_attempts(1) =~= two + failed_attempts(0));
    lemma_failed_attempts_snoc(k);
    assert(all =~= failed_attempts(k) + two);
    lemma_run_concat(s, failed_attempts(k), two);
    let (s1, a1) = next(s_k, EventModel::Failure);
    let (s2, a2) = next(s1, EventModel::Elapsed);
    assert(two.drop_first() =~= seq![EventModel::Elapsed]);
    assert(seq![EventModel::Elapsed].drop_first() =~= Seq::<EventModel>::empty());
    lemma_run_two(s_k, EventModel::Failure, EventModel::Elapsed);
}

proof fn lemma_failed_attempts_snoc(k: nat)
    ensures
        failed_attempts(k + 1) == failed_attempts(k) + seq![EventModel::Failure, EventModel::Elapsed],
    decreases k,
{
    let two = seq![EventModel::Failure, EventModel::Elapsed];
    if k == 0 {
        assert(failed_attempts(1) =~= two + failed_attempts(0));
        assert(failed_attempts(0) + two =~= two);
    } else {
        lemma_failed_attempts_snoc((k - 1) as nat);
        assert(failed_attempts(k + 1) =~= two + failed_attempts(k));
        assert(failed_attempts(k) =~= two + failed_attempts((k - 1) as nat));
        assert(failed_attempts(k + 1) =~= failed_attempts(k) + two);
    }
}

// ---------------------------------------------------------------------
// A conversation in which every step succeeds
// ---------------------------------------------------------------------

/// The events that report the success of one step at its first attempt;
/// `response` is what a read step read.
pub open spec fn step_events(step: StepModel, response: Seq<u8>) -> Seq<EventModel> {
    match step {
        StepModel::Open => seq![EventModel::Success(Seq::empty())],
        StepModel::Transfer(_) => seq![EventModel::Success(response), EventModel::Elapsed],
        StepModel::Pause(_) => seq![EventModel::Elapsed],
    }
}

/// The actions asked for by one step that succeeds at its first attempt:
/// the step itself, and for an i2c operation the pause that follows it.
pub open spec fn step_actions(step: StepModel) -> Seq<ActionModel> {
    match step {
        StepModel::Open => seq![ActionModel::Open],
        StepModel::Transfer(op) => seq![
            ActionModel::Transfer(op),
            ActionModel::Sleep(settle_delay(op)),
        ],
        StepModel::Pause(us) => seq![ActionModel::Sleep(us)],
    }
}

/// The events of steps `i..` all succeeding.
pub open spec fn events_from(script: Seq<StepModel>, responses: Seq<Seq<u8>>, i: nat) -> Seq<
    EventModel,
>
    decreases script.len() - i,
{
    if i >= script.len() {
        Seq::empty()
    } else {
        step_events(script[i as int], responses[i as int]) + events_from(script, responses, i + 1)
    }
}

/// The actions of steps `i..` all succeeding.
pub open spec fn actions_from(script: Seq<StepModel>, i: nat) -> Seq<ActionModel>
    decreases script.len() - i,
{
    if i >= script.len() {
        Seq::empty()
    } else {
        step_actions(script[i as int]) + actions_from(script, i + 1)
    }
}

/// Every read step is answered with as many bytes as it asked for.
pub open spec fn responses_fit(script: Seq<StepModel>, responses: Seq<Seq<u8>>) -> bool {
    &&& responses.len() == script.len()
    &&& forall|i: int|
        0 <= i < script.len() ==> (#[trigger] script[i] matches StepModel::Transfer(
            OpModel::ReadBytes(n),
        ) ==> responses[i].len() == n)
}

/// The latest bytes read once steps `i..` have run, `lr` being the latest before.
pub open spec fn latest_read(script: Seq<StepModel>, responses: Seq<Seq<u8>>, i: nat, lr: Seq<u8>) -> Seq<u8>
    decreases script.len() - i,
{
    if i >= script.len() {
        lr
    } else {
        latest_read(
            script,
            responses,
            i + 1,
            if script[i as int] matches StepModel::Transfer(OpModel::ReadBytes(_)) {
                responses[i as int]
            } else {
                lr
            },
        )
    }
}

/// The state right after step `i` has been asked for.
pub open spec fn at_step(script: Seq<StepModel>, yields_key: bool, i: nat, lr: Seq<u8>) -> SessionModel {
    issue(
        SessionModel {
            script,
            yields_key,
            pos: 0,
            attempts: 0,
            phase: Phase::Ready,
            last_read: lr,
            failure: None,
        },
        i,
    ).0
}

proof fn lemma_one_step(
    script: Seq<StepModel>,
    yields_key: bool,
    responses: Seq<Seq<u8>>,
    i: nat,
    lr: Seq<u8>,
)
    requires
        i < script.len(),
        responses_fit(script, responses),
    ensures
        ({
            let lr2 = if script[i as int] matches StepModel::Transfer(OpModel::ReadBytes(_)) {
                responses[i as int]
            } else {
                lr
            };
            let base = SessionModel {
                script,
                yields_key,
                pos: 0,
                attempts: 0,
                phase: Phase::Ready,
                last_read: lr2,
                failure: None,
            };
            run(at_step(script, yields_key, i, lr), step_events(script[i as int], responses[i as int]))
                == (at_step(script, yields_key, i + 1, lr2), step_actions(
                script[i as int],
            ).drop_first() + seq![issue(base, i + 1).1])
        }),
{
    let s = at_step(script, yields_key, i, lr);
    let step = script[i as int];
    let r = responses[i as int];
    let ev = step_events(step, r);
    match step {
        StepModel::Open => {
            assert(ev =~= seq![EventModel::Success(Seq::empty())]);
            lemma_run_one(s, EventModel::Success(Seq::empty()));
            assert(step_actions(step).drop_first() =~= Seq::<ActionModel>::empty());
            assert(Seq::<ActionModel>::empty() + seq![next(s, EventModel::Success(Seq::empty())).1]
                =~= seq![next(s, EventModel::Success(Seq::empty())).1]);
        },
        StepModel::Transfer(op) => {
            assert(ev[0] == EventModel::Success(r));
            let (s1, a1) = next(s, ev[0]);
            assert(ev.drop_first() =~= seq![EventModel::Elapsed]);
            assert(seq![EventModel::Elapsed].drop_first() =~= Seq::<EventModel>::empty());
            let (s2, a2) = next(s1, EventModel::Elapsed);
            assert(step_actions(step).drop_first() =~= seq![ActionModel::Sleep(settle_delay(op))]);
            assert(seq![ActionModel::Sleep(settle_delay(op))] + seq![a2] =~= seq![a1, a2]);
            assert(ev =~= seq![EventModel::Success(r), EventModel::Elapsed]);
            lemma_run_two(s, EventModel::Success(r), EventModel::Elapsed);
        },
        StepModel::Pause(_) => {
            assert(ev =~= seq![EventModel::Elapsed]);
            lemma_run_one(s, EventModel::Elapsed);
            assert(step_actions(step).drop_first() =~= Seq::<ActionModel>::empty());
            assert(Seq::<ActionModel>::empty() + seq![next(s, EventModel::Elapsed).1] =~= seq![
                next(s, EventModel::Elapsed).1,
            ]);
        },
    }
}

proof fn lemma_steps_from(
    script: Seq<StepModel>,
    yields_key: bool,
    responses: Seq<Seq<u8>>,
    i: nat,
    lr: Seq<u8>,
)
    requires
        i < script.len(),
        responses_fit(script, responses),
    ensures
        ({
            let end = at_step(
                script,
                yields_key,
                script.len(),
                latest_read(script, responses, i, lr),
            );
            run(at_step(script, yields_key, i, lr), events_from(script, responses, i)) == (
                end,
                actions_from(script, i).drop_first() + seq![ActionModel::Finish(outcome(end))],
            )
        }),
    decreases script.len() - i,
{
    let lr2 = if script[i as int] matches StepModel::Transfer(OpModel::ReadBytes(_)) {
        responses[i as int]
    } else {
        lr
    };
    let base = SessionModel {
        script,
        yields_key,
        pos: 0,
        attempts: 0,
        phase: Phase::Ready,
        last_read: lr2,
        failure: None,
    };
    let s = at_step(script, yields_key, i, lr);
    let ev_i = step_events(script[i as int], responses[i as int]);
    let ev_rest = events_from(script, responses, i + 1);
    assert(events_from(script, responses, i) == ev_i + ev_rest);
    lemma_one_step(script, yields_key, responses, i, lr);
    lemma_run_concat(s, ev_i, ev_rest);
    let acts_i = step_actions(script[i as int]);
    assert(actions_from(script, i) == acts_i + actions_from(script, i + 1));
    assert(acts_i.len() > 0);
    assert((acts_i + actions_from(script, i + 1)).drop_first() =~= acts_i.drop_first()
        + actions_from(script, i + 1));
    if i + 1 == script.len() {
        assert(ev_rest =~= Seq::<EventModel>::empty());
        assert(actions_from(script, i + 1) =~= Seq::<ActionModel>::empty());
        assert(latest_read(script, responses, i + 1, lr2) == lr2);
        let s1 = at_step(script, yields_key, i + 1, lr2);
        assert(run(s1, ev_rest).1 =~= Seq::<ActionModel>::empty());
        assert(issue(base, i + 1).1 == ActionModel::Finish(outcome(s1)));
    } else {
        lemma_steps_from(script, yields_key, responses, i + 1, lr2);
        let acts_next = step_actions(script[(i + 1) as int]);
        assert(actions_from(script, i + 1) == acts_next + actions_from(script, i + 2));
        assert(issue(base, i + 1).1 == acts_next[0]);
        assert(acts_next.len() > 0);
        let end = at_step(script, yields_key, script.len(), latest_read(script, responses, i, lr));
        assert(actions_from(script, i + 1) =~= seq![acts_next[0]] + actions_from(
            script,
            i + 1,
        ).drop_first());
        assert(acts_i.drop_first() + seq![issue(base, i + 1).1] + (actions_from(
            script,
            i + 1,
        ).drop_first() + seq![ActionModel::Finish(outcome(end))]) =~= acts_i.drop_first()
            + actions_from(script, i + 1) + seq![ActionModel::Finish(outcome(end))]);
    }
}

proof fn lemma_latest_read_ends_with_last(
    script: Seq<StepModel>,
    responses: Seq<Seq<u8>>,
    i: nat,
    lr: Seq<u8>,
)
    requires
        i < script.len(),
        script[script.len() - 1] matches StepModel::Transfer(OpModel::ReadBytes(_)),
    ensures
        latest_read(script, responses, i, lr) == responses[script.len() - 1],
    decreases script.len() - i,
{
    if i + 1 < script.len() {
        let lr2 = if script[i as int] matches StepModel::Transfer(OpModel::ReadBytes(_)) {
            responses[i as int]
        } else {
            lr
        };
        lemma_latest_read_ends_with_last(script, responses, i + 1, lr2);
    } else {
        assert(latest_read(script, responses, i + 1, responses[i as int]) == responses[i as int]);
    }
}

/// When every step of a conversation succeeds at its first attempt, the
/// session asks for exactly the steps of its script, in order, each i2c
/// operation followed by its settling pause, and then ends without error.
/// A conversation that yields a key returns bytes 9 to 73 of the answer
/// to its last step, which reads the chip's answer to the read request.
pub proof fn law_successful_conversation(
    script: Seq<StepModel>,
    yields_key: bool,
    responses: Seq<Seq<u8>>,
)
    requires
        model_wf(fresh(script, yields_key)),
        responses_fit(script, responses),
    ensures
        run(
            fresh(script, yields_key),
            seq![EventModel::Start] + events_from(script, responses, 0),
        ).0.phase == Phase::Finished,
        run(fresh(script, yields_key), seq![EventModel::Start] + events_from(script, responses, 0)).1
            == actions_from(script, 0) + seq![
            ActionModel::Finish(
                Ok(
                    if yields_key {
                        key_in_response(responses[script.len() - 1])
                    } else {
                        Seq::empty()
                    },
                ),
            ),
        ],
{
    let s0 = fresh(script, yields_key);
    let evs = events_from(script, responses, 0);
    lemma_run_concat(s0, seq![EventModel::Start], evs);
    let (s1, a1) = next(s0, EventModel::Start);
    assert(seq![EventModel::Start].drop_first() =~= Seq::<EventModel>::empty());
    lemma_run_one(s0, EventModel::Start);
    assert(run(s0, seq![EventModel::Start]).1 =~= seq![a1]);
    let e: Seq<u8> = Seq::empty();
    if script.len() == 0 {
        assert(evs =~= Seq::<EventModel>::empty());
        assert(actions_from(script, 0) =~= Seq::<ActionModel>::empty());
        assert(run(s1, evs).1 =~= Seq::<ActionModel>::empty());
        assert(seq![a1] + Seq::<ActionModel>::empty() =~= seq![a1]);
    } else {
        assert(s1 == at_step(script, yields_key, 0, e));
        lemma_steps_from(script, yields_key, responses, 0, e);
        let acts0 = step_actions(script[0]);
        assert(actions_from(script, 0) == acts0 + actions_from(script, 1));
        assert(a1 == acts0[0]);
        let end = at_step(script, yields_key, script.len(), latest_read(script, responses, 0, e));
        assert(actions_from(script, 0) =~= seq![a1] + actions_from(script, 0).drop_first());
        assert(seq![a1] + (actions_from(script, 0).drop_first() + seq![
            ActionModel::Finish(outcome(end)),
        ]) =~= actions_from(script, 0) + seq![ActionModel::Finish(outcome(end))]);
        if yields_key {
            lemma_latest_read_ends_with_last(script, responses, 0, e);
        }
    }
}

/// A read-key conversation in which every step succeeds ends by returning
/// a 64-byte key: bytes 9 to 73 of the chip's 74-byte answer to the read
/// request of the slot.
pub proof fn law_read_key_returns_the_stored_key(slot: u16, responses: Seq<Seq<u8>>)
    requires
        responses_fit(read_key_script(slot), responses),
    ensures
        ({
            let script = read_key_script(slot);
            let answer = responses[script.len() - 1];
            let actions = run(
                fresh(script, true),
                seq![EventModel::Start] + events_from(script, responses, 0),
            ).1;
            &&& answer.len() == 74
            &&& actions.last() == ActionModel::Finish(Ok(answer.subrange(9, 73)))
            &&& answer.subrange(9, 73).len() == 64
        }),
{
    let script = read_key_script(slot);
    lemma_read_key_script_ends_with_key_read(slot);
    assert(model_wf(fresh(script, true)));
    law_successful_conversation(script, true, responses);
    assert(script[script.len() - 1] matches StepModel::Transfer(OpModel::ReadBytes(n)));
}

} // verus!
