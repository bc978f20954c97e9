//! A conversation with the chip as a state machine. The caller performs the
//! actions (open the device, one i2c attempt, a pause) and reports what
//! happened; the session decides what comes next: the next step of the
//! script, a retry after a failed attempt, or the end of the conversation.
use vstd::prelude::*;
use crate::error::{bytes_result_view, ErrorModel, TrustMDeviceError, TrustMLibError};
use crate::protocol::{
    build_lock_script, build_read_key_script, lock_script, poll, read_key_script, steps_view, Op, OpModel,
    Step, StepModel, KEY_LEN, KEY_OFFSET, KEY_RESPONSE_LEN, MAX_ATTEMPTS, REG_DATA, READ_SETTLE_MICROS,
    RETRY_BACKOFF_MICROS, WRITE_SETTLE_MICROS,
};

verus! {

/// Where a session stands.
#[derive(Clone, Copy, Debug, PartialEq, Eq, Structural)]
pub enum Phase {
    /// Nothing asked yet.
    Ready,
    /// Waiting for the outcome of opening the device or of an i2c attempt.
    Awaiting,
    /// Waiting for the pause that follows a successful i2c operation.
    Settling,
    /// Waiting for the pause that follows a failed attempt.
    BackingOff,
    /// Waiting for a pause of the script.
    Pausing,
    /// The conversation is over.
    Finished,
}

/// What the caller reports back.
#[derive(Debug)]
pub enum Event {
    /// Sent first, to start the conversation.
    Start,
    /// The device was opened, or the attempt succeeded; a read hands over the bytes read.
    Success(Vec<u8>),
    /// The device could not be opened, or the attempt failed.
    Failure,
    /// The pause is over.
    Elapsed,
}

pub enum EventModel {
    Start,
    Success(Seq<u8>),
    Failure,
    Elapsed,
}

impl View for Event {
    type V = EventModel;

    open spec fn view(&self) -> EventModel {
        match self {
            Event::Start => EventModel::Start,
            Event::Success(d) => EventModel::Success(d@),
            Event::Failure => EventModel::Failure,
            Event::Elapsed => EventModel::Elapsed,
        }
    }
}

/// What the session asks the caller to do.
#[derive(Debug)]
pub enum Action {
    /// Open the i2c device at the chip's address.
    Open,
    /// Make one attempt at this i2c operation.
    Transfer(Op),
    /// Wait this many microseconds.
    Sleep(u64),
    /// The conversation is over, with this result: the key for a read-key
    /// conversation, nothing for the others.
    Finish(Result<Vec<u8>, TrustMLibError>),
}

pub enum ActionModel {
    Open,
    Transfer(OpModel),
    Sleep(u64),
    Finish(Result<Seq<u8>, ErrorModel>),
}

impl View for Action {
    type V = ActionModel;

    open spec fn view(&self) -> ActionModel {
        match self {
            Action::Open => ActionModel::Open,
            Action::Transfer(op) => ActionModel::Transfer(op@),
            Action::Sleep(us) => ActionModel::Sleep(*us),
            Action::Finish(r) => ActionModel::Finish(bytes_result_view(*r)),
        }
    }
}

/// The state of a session.
pub struct SessionModel {
    pub script: Seq<StepModel>,
    /// Whether the conversation returns the key read by its last step.
    pub yields_key: bool,
    /// Index of the current step.
    pub pos: nat,
    /// Failed attempts of the current i2c operation.
    pub attempts: nat,
    pub phase: Phase,
    /// The bytes of the latest successful read.
    pub last_read: Seq<u8>,
    /// Why the conversation failed, once it has.
    pub failure: Option<TrustMDeviceError>,
}

/// A conversation with the chip.
pub struct Session {
    script: Vec<Step>,
    yields_key: bool,
    pos: usize,
    attempts: u32,
    phase: Phase,
    last_read: Vec<u8>,
    failure: Option<TrustMDeviceError>,
}

// ---------------------------------------------------------------------
// The machine
// ---------------------------------------------------------------------

/// Pause after a successful operation.
pub open spec fn settle_delay(op: OpModel) -> u64 {
    match op {
        OpModel::ReadBytes(_) => READ_SETTLE_MICROS,
        _ => WRITE_SETTLE_MICROS,
    }
}

/// The error of an operation whose attempts ran out.
pub open spec fn fault(op: OpModel) -> TrustMDeviceError {
    match op {
        OpModel::ReadBytes(_) => TrustMDeviceError::ReadFailed,
        _ => TrustMDeviceError::WriteFailed,
    }
}

/// The key inside the chip's answer to a read request.
pub open spec fn key_in_response(response: Seq<u8>) -> Seq<u8> {
    response.subrange(KEY_OFFSET as int, (KEY_OFFSET + KEY_LEN) as int)
}

/// The result a finished session reports.
pub open spec fn outcome(s: SessionModel) -> Result<Seq<u8>, ErrorModel> {
    match s.failure {
        Some(f) => Err(ErrorModel::Device(f)),
        None => Ok(
            if s.yields_key {
                key_in_response(s.last_read)
            } else {
                Seq::empty()
            },
        ),
    }
}

/// A session that has not started.
pub open spec fn fresh(script: Seq<StepModel>, yields_key: bool) -> SessionModel {
    SessionModel {
        script,
        yields_key,
        pos: 0,
        attempts: 0,
        phase: Phase::Ready,
        last_read: Seq::empty(),
        failure: None,
    }
}

/// Start step `pos`, or finish when the script is done.
pub open spec fn issue(s: SessionModel, pos: nat) -> (SessionModel, ActionModel) {
    if pos >= s.script.len() {
        let t = SessionModel { pos: s.script.len(), attempts: 0, phase: Phase::Finished, ..s };
        (t, ActionModel::Finish(outcome(t)))
    } else {
        match s.script[pos as int] {
            StepModel::Open => (
                SessionModel { pos, attempts: 0, phase: Phase::Awaiting, ..s },
                ActionModel::Open,
            ),
            StepModel::Transfer(op) => (
                SessionModel { pos, attempts: 0, phase: Phase::Awaiting, ..s },
                ActionModel::Transfer(op),
            ),
            StepModel::Pause(us) => (
                SessionModel { pos, attempts: 0, phase: Phase::Pausing, ..s },
                ActionModel::Sleep(us),
            ),
        }
    }
}

/// End the conversation with a device error.
pub open spec fn fail(s: SessionModel, f: TrustMDeviceError) -> (SessionModel, ActionModel) {
    let t = SessionModel { phase: Phase::Finished, failure: Some(f), ..s };
    (t, ActionModel::Finish(outcome(t)))
}

/// The action the session is waiting on.
pub open spec fn pending(s: SessionModel) -> ActionModel {
    match s.phase {
        Phase::Ready => issue(s, 0).1,
        Phase::Awaiting => match s.script[s.pos as int] {
            StepModel::Transfer(op) => ActionModel::Transfer(op),
            _ => ActionModel::Open,
        },
        Phase::Settling => match s.script[s.pos as int] {
            StepModel::Transfer(op) => ActionModel::Sleep(settle_delay(op)),
            _ => ActionModel::Sleep(0),
        },
        Phase::BackingOff => ActionModel::Sleep(RETRY_BACKOFF_MICROS),
        Phase::Pausing => match s.script[s.pos as int] {
            StepModel::Pause(us) => ActionModel::Sleep(us),
            _ => ActionModel::Sleep(0),
        },
        Phase::Finished => ActionModel::Finish(outcome(s)),
    }
}

/// Whether an event answers what the session is waiting on. A read must
/// hand over exactly the bytes it asked for.
pub open spec fn accepts(s: SessionModel, e: EventModel) -> bool {
    match s.phase {
        Phase::Ready => true,
        Phase::Awaiting => match e {
            EventModel::Success(d) => match s.script[s.pos as int] {
                StepModel::Transfer(OpModel::ReadBytes(n)) => d.len() == n,
                _ => true,
            },
            EventModel::Failure => true,
            _ => false,
        },
        Phase::Settling | Phase::BackingOff | Phase::Pausing => e is Elapsed,
        Phase::Finished => false,
    }
}

/// One move of the machine: the new state and the action asked for.
/// An event that does not answer what the session waits on changes nothing
/// and the pending action is asked for again.
pub open spec fn next(s: SessionModel, e: EventModel) -> (SessionModel, ActionModel) {
    if !accepts(s, e) {
        (s, pending(s))
    } else {
        match s.phase {
            Phase::Ready => issue(s, 0),
            Phase::Awaiting => match s.script[s.pos as int] {
                StepModel::Transfer(op) => match e {
                    EventModel::Success(d) => (
                        SessionModel {
                            phase: Phase::Settling,
                            last_read: if op is ReadBytes {
                                d
                            } else {
                                s.last_read
                            },
                            ..s
                        },
                        ActionModel::Sleep(settle_delay(op)),
                    ),
                    _ => (
                        SessionModel { phase: Phase::BackingOff, attempts: s.attempts + 1, ..s },
                        ActionModel::Sleep(RETRY_BACKOFF_MICROS),
                    ),
                },
                _ => match e {
                    EventModel::Success(_) => issue(s, s.pos + 1),
                    _ => fail(s, TrustMDeviceError::InitFailed),
                },
            },
            Phase::BackingOff => match s.script[s.pos as int] {
                StepModel::Transfer(op) => if s.attempts >= MAX_ATTEMPTS {
                    fail(s, fault(op))
                } else {
                    (SessionModel { phase: Phase::Awaiting, ..s }, ActionModel::Transfer(op))
                },
                _ => (s, pending(s)),
            },
            _ => issue(s, s.pos + 1),
        }
    }
}

/// The invariant of a session.
pub open spec fn model_wf(s: SessionModel) -> bool {
    let len: nat = s.script.len();
    &&& s.pos <= len
    &&& s.attempts <= MAX_ATTEMPTS
    &&& s.yields_key ==> len > 0 && s.script[len - 1] == StepModel::Transfer(
        OpModel::ReadBytes(KEY_RESPONSE_LEN as nat),
    )
    &&& s.failure is Some ==> s.phase == Phase::Finished
    &&& s.phase == Phase::Ready ==> s.pos == 0
    &&& s.phase == Phase::Awaiting ==> s.pos < len && !(s.script[s.pos as int] is Pause)
    &&& (s.phase == Phase::Settling || s.phase == Phase::BackingOff) ==> s.pos < len
        && s.script[s.pos as int] is Transfer
    &&& s.phase == Phase::BackingOff ==> s.attempts >= 1
    &&& s.phase == Phase::Awaiting ==> s.attempts < MAX_ATTEMPTS
    &&& s.phase == Phase::Pausing ==> s.pos < len && s.script[s.pos as int] is Pause
    &&& s.phase == Phase::Settling ==> (s.script[s.pos as int] matches StepModel::Transfer(
        OpModel::ReadBytes(n),
    ) ==> s.last_read.len() == n)
    &&& (s.phase == Phase::Finished && s.failure is None) ==> s.pos == len && (s.yields_key
        ==> s.last_read.len() == KEY_RESPONSE_LEN)
}

// ---------------------------------------------------------------------
// The executable session
// ---------------------------------------------------------------------

impl View for Session {
    type V = SessionModel;

    closed spec fn view(&self) -> SessionModel {
        SessionModel {
            script: steps_view(self.script@),
            yields_key: self.yields_key,
            pos: self.pos as nat,
            attempts: self.attempts as nat,
            phase: self.phase,
            last_read: self.last_read@,
            failure: self.failure,
        }
    }
}

impl Session {
    pub open spec fn wf(&self) -> bool {
        model_wf(self@)
    }

    /// A session that will run `script`. When `yields_key` holds, the script
    /// ends with the read of the chip's answer that holds the key.
    pub fn new(script: Vec<Step>, yields_key: bool) -> (s: Session)
        requires
            yields_key ==> script@.len() > 0 && script@[script@.len() - 1]@ == StepModel::Transfer(
                OpModel::ReadBytes(KEY_RESPONSE_LEN as nat),
            ),
        ensures
            s.wf(),
            s@ == fresh(steps_view(script@), yields_key),
    {
        let s = Session {
            script,
            yields_key,
            pos: 0,
            attempts: 0,
            phase: Phase::Ready,
            last_read: Vec::new(),
            failure: None,
        };
        assert(s@.last_read =~= Seq::<u8>::empty());
        if yields_key {
            assert(steps_view(s.script@)[s.script@.len() - 1] == s.script@[s.script@.len() - 1]@);
        }
        s
    }

    /// The phase the session is in.
    pub fn phase(&self) -> (p: Phase)
        ensures
            p == self@.phase,
    {
        self.phase
    }

    fn outcome_value(&self) -> (r: Result<Vec<u8>, TrustMLibError>)
        requires
            self.wf(),
            self@.phase == Phase::Finished,
        ensures
            bytes_result_view(r) == outcome(self@),
    {
        match self.failure {
            Some(f) => Err(TrustMLibError::DeviceError { source: f }),
            None => {
                if self.yields_key {
                    let key = vstd::slice::slice_subrange(
                        self.last_read.as_slice(),
                        KEY_OFFSET,
                        KEY_OFFSET + KEY_LEN,
                    );
                    Ok(vstd::slice::slice_to_vec(key))
                } else {
                    let r: Vec<u8> = Vec::new();
                    assert(r@ =~= Seq::<u8>::empty());
                    Ok(r)
                }
            },
        }
    }

    fn issue_step(&mut self, pos: usize) -> (a: Action)
        requires
            old(self).wf(),
            pos <= old(self)@.script.len(),
            old(self)@.failure is None,
            (pos == old(self)@.script.len() && old(self)@.yields_key) ==> old(self)@.last_read.len()
                == KEY_RESPONSE_LEN,
        ensures
            final(self).wf(),
            (final(self)@, a@) == issue(old(self)@, pos as nat),
    {
        if pos >= self.script.len() {
            self.pos = self.script.len();
            self.attempts = 0;
            self.phase = Phase::Finished;
            let r = self.outcome_value();
            Action::Finish(r)
        } else {
            match &self.script[pos] {
                Step::Open => {
                    self.pos = pos;
                    self.attempts = 0;
                    self.phase = Phase::Awaiting;
                    Action::Open
                },
                Step::Transfer(op) => {
                    let op = op.clone_op();
                    self.pos = pos;
                    self.attempts = 0;
                    self.phase = Phase::Awaiting;
                    Action::Transfer(op)
                },
                Step::Pause(us) => {
                    let us: u64 = *us;
                    self.pos = pos;
                    self.attempts = 0;
                    self.phase = Phase::Pausing;
                    Action::Sleep(us)
                },
            }
        }
    }

    fn pending_action(&self) -> (a: Action)
        requires
            self.wf(),
            self@.phase != Phase::Ready,
        ensures
            a@ == pending(self@),
    {
        match self.phase {
            Phase::Awaiting => match &self.script[self.pos] {
                Step::Transfer(op) => Action::Transfer(op.clone_op()),
                _ => Action::Open,
            },
            Phase::Settling => match &self.script[self.pos] {
                Step::Transfer(Op::ReadBytes(_)) => Action::Sleep(READ_SETTLE_MICROS),
                _ => Action::Sleep(WRITE_SETTLE_MICROS),
            },
            Phase::BackingOff => Action::Sleep(RETRY_BACKOFF_MICROS),
            Phase::Pausing => match &self.script[self.pos] {
                Step::Pause(us) => Action::Sleep(*us),
                _ => Action::Sleep(0),
            },
            _ => Action::Finish(self.outcome_value()),
        }
    }

    fn accepts_event(&self, e: &Event) -> (b: bool)
        requires
            self.wf(),
        ensures
            b == accepts(self@, e@),
    {
        match self.phase {
            Phase::Ready => true,
            Phase::Awaiting => match e {
                Event::Success(d) => match &self.script[self.pos] {
                    Step::Transfer(Op::ReadBytes(n)) => d.len() == *n,
                    _ => true,
                },
                Event::Failure => true,
                _ => false,
            },
            Phase::Settling | Phase::BackingOff | Phase::Pausing => match e {
                Event::Elapsed => true,
                _ => false,
            },
            Phase::Finished => false,
        }
    }

    /// Reports what happened to the last action and returns the next one.
    pub fn step(&mut self, event: Event) -> (action: Action)
        requires
            old(self).wf(),
        ensures
            final(self).wf(),
            (final(self)@, action@) == next(old(self)@, event@),
    {
        if !self.accepts_event(&event) {
            return self.pending_action();
        }
        let n: usize = self.script.len();
        assert(self@.script.len() == n);
        match self.phase {
            Phase::Ready => self.issue_step(0),
            Phase::Awaiting => {
                let is_transfer = match &self.script[self.pos] {
                    Step::Transfer(_) => true,
                    _ => false,
                };
                if is_transfer {
                    let (is_read, delay) = match &self.script[self.pos] {
                        Step::Transfer(Op::ReadBytes(_)) => (true, READ_SETTLE_MICROS),
                        _ => (false, WRITE_SETTLE_MICROS),
                    };
                    match event {
                        Event::Success(d) => {
                            if is_read {
                                self.last_read = d;
                            }
                            self.phase = Phase::Settling;
                            Action::Sleep(delay)
                        },
                        _ => {
                            self.attempts = self.attempts + 1;
                            self.phase = Phase::BackingOff;
                            Action::Sleep(RETRY_BACKOFF_MICROS)
                        },
                    }
                } else {
                    match event {
                        Event::Success(_) => self.issue_step(self.pos + 1),
                        _ => {
                            self.failure = Some(TrustMDeviceError::InitFailed);
                            self.phase = Phase::Finished;
                            Action::Finish(self.outcome_value())
                        },
                    }
                }
            },
            Phase::BackingOff => {
                let (op, f) = match &self.script[self.pos] {
                    Step::Transfer(op) => (
                        op.clone_op(),
                        match op {
                            Op::ReadBytes(_) => TrustMDeviceError::ReadFailed,
                            _ => TrustMDeviceError::WriteFailed,
                        },
                    ),
                    _ => (Op::ReadBytes(0), TrustMDeviceError::ReadFailed),
                };
                if self.attempts >= MAX_ATTEMPTS {
                    self.failure = Some(f);
                    self.phase = Phase::Finished;
                    Action::Finish(self.outcome_value())
                } else {
                    self.phase = Phase::Awaiting;
                    Action::Transfer(op)
                }
            },
            _ => self.issue_step(self.pos + 1),
        }
    }
}

pub(crate) proof fn lemma_read_key_script_ends_with_key_read(slot: u16)
    ensures
        read_key_script(slot).len() > 0,
        read_key_script(slot)[read_key_script(slot).len() - 1] == StepModel::Transfer(
            OpModel::ReadBytes(KEY_RESPONSE_LEN as nat),
        ),
{
    let s = read_key_script(slot);
    let last = poll(REG_DATA, KEY_RESPONSE_LEN as nat);
    let head = s.subrange(0, s.len() - 2);
    assert(s =~= head + last);
    assert(s[s.len() - 1] == last[1]);
}

/// Starts the conversation that reads the key stored in `slot`. When it
/// finishes without error, its result is the 64-byte key: bytes 9 to 73 of
/// the chip's last answer.
pub fn read_key(slot: u16) -> (session: Session)
    ensures
        session.wf(),
        session@ == fresh(read_key_script(slot), true),
{
    let script = build_read_key_script(slot);
    proof {
        lemma_read_key_script_ends_with_key_read(slot);
        assert(script@[script@.len() - 1]@ == steps_view(script@)[script@.len() - 1]);
    }
    Session::new(script, true)
}

/// Starts the conversation that write-protects `slot`. This can be done
/// only once per slot.
pub fn lock_keyslot(slot: u16) -> (session: Session)
    ensures
        session.wf(),
        session@ == fresh(lock_script(slot), false),
{
    Session::new(build_lock_script(slot), false)
}

} // verus!
