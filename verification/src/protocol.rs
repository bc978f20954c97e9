//! The Trust M i2c conversation: registers, frames and the scripts of the
//! three commands the tool knows (read a key, write a key, lock a slot).
use vstd::prelude::*;

verus! {

/// i2c address of the Trust M chip.
pub const TM_ADDR: u16 = 0x30;

/// First key slot the tool can use.
pub const TM_SLOT1: u16 = 0xe0e8;

/// Second key slot the tool can use.
pub const TM_SLOT2: u16 = 0xe0e9;

/// Register holding the data frames exchanged with the chip.
pub const REG_DATA: u8 = 0x80;

/// Register holding the length of the data register.
pub const REG_DATA_LEN: u8 = 0x81;

/// Register holding the chip's i2c state.
pub const REG_STATUS: u8 = 0x82;

/// Register holding the highest clock frequency the chip accepts.
pub const REG_MAX_SCL_FREQ: u8 = 0x84;

/// How many times one i2c operation is tried before the conversation gives up.
pub const MAX_ATTEMPTS: u32 = 200;

/// Pause after a successful write, in microseconds.
pub const WRITE_SETTLE_MICROS: u64 = 10_000;

/// Pause after a successful read, in microseconds.
pub const READ_SETTLE_MICROS: u64 = 500;

/// Pause after a failed attempt, before the next one, in microseconds.
pub const RETRY_BACKOFF_MICROS: u64 = 1_000;

/// Pause before and after the reset sent when the link is opened, in microseconds.
pub const INIT_PAUSE_MICROS: u64 = 100_000;

/// Offset of the key in the chip's answer to a read request.
pub const KEY_OFFSET: usize = 9;

/// Length of a key as the chip stores it (the two coordinates of a P-256 point).
pub const KEY_LEN: usize = 64;

/// Length of the chip's answer to a read request.
pub const KEY_RESPONSE_LEN: usize = 74;

/// Offset of the key inside the DER contents of a PEM key file.
pub const DER_KEY_OFFSET: usize = 27;

/// Shortest DER contents of a PEM key file that the tool accepts.
pub const MIN_DER_LEN: usize = 74;

/// One i2c operation.
#[derive(Debug)]
pub enum Op {
    /// Write one byte (an smbus byte write), which selects a register.
    WriteByte(u8),
    /// Write a sequence of bytes.
    WriteBytes(Vec<u8>),
    /// Read this many bytes.
    ReadBytes(usize),
}

/// An i2c operation with its bytes as a sequence.
pub enum OpModel {
    WriteByte(u8),
    WriteBytes(Seq<u8>),
    ReadBytes(nat),
}

impl View for Op {
    type V = OpModel;

    open spec fn view(&self) -> OpModel {
        match self {
            Op::WriteByte(b) => OpModel::WriteByte(*b),
            Op::WriteBytes(v) => OpModel::WriteBytes(v@),
            Op::ReadBytes(n) => OpModel::ReadBytes(*n as nat),
        }
    }
}

impl Op {
    pub fn clone_op(&self) -> (res: Op)
        ensures
            res@ == self@,
    {
        match self {
            Op::WriteByte(b) => Op::WriteByte(*b),
            Op::WriteBytes(v) => Op::WriteBytes(v.clone()),
            Op::ReadBytes(n) => Op::ReadBytes(*n),
        }
    }
}

/// One step of a command's script.
#[derive(Debug)]
pub enum Step {
    /// Open the i2c device at the chip's address.
    Open,
    /// Perform an i2c operation, retried until it succeeds or the attempts run out.
    Transfer(Op),
    /// Wait this many microseconds.
    Pause(u64),
}

/// A step with its operation seen through `OpModel`.
pub enum StepModel {
    Open,
    Transfer(OpModel),
    Pause(u64),
}

impl View for Step {
    type V = StepModel;

    open spec fn view(&self) -> StepModel {
        match self {
            Step::Open => StepModel::Open,
            Step::Transfer(op) => StepModel::Transfer(op@),
            Step::Pause(us) => StepModel::Pause(*us),
        }
    }
}

/// A script as a sequence of step models.
pub open spec fn steps_view(s: Seq<Step>) -> Seq<StepModel> {
    Seq::new(s.len(), |i: int| s[i]@)
}

// ---------------------------------------------------------------------
// Frames
// ---------------------------------------------------------------------

/// Resets the chip's i2c interface, sent when the link is opened.
pub open spec fn reset_frame() -> Seq<u8> {
    seq![0x88u8, 0xff, 0xff]
}

/// Soft reset sent before writing or locking a key.
pub open spec fn soft_reset_frame() -> Seq<u8> {
    seq![0x88u8, 0x00, 0x00]
}

/// Sets the length of the data register.
pub open spec fn data_len_frame() -> Seq<u8> {
    seq![0x81u8, 0x01, 0x15]
}

/// Opens the chip's authentication application.
pub open spec fn open_application_frame() -> Seq<u8> {
    seq![
        0x80u8, 0x03, 0x00, 0x16, 0x08, 0x20, 0xf0, 0x00, 0x00, 0x10, 0xd2, 0x76, 0x00, 0x00,
        0x04, 0x47, 0x65, 0x6e, 0x41, 0x75, 0x74, 0x68, 0x41, 0x70, 0x70, 0x6c, 0xbe, 0x40,
    ]
}

/// Acknowledges the chip's frame of sequence number 0.
pub open spec fn ack0_frame() -> Seq<u8> {
    seq![0x80u8, 0x80, 0x00, 0x00, 0x0c, 0xec]
}

/// Acknowledges the chip's frame of sequence number 1.
pub open spec fn ack1_frame() -> Seq<u8> {
    seq![0x80u8, 0x81, 0x00, 0x00, 0x56, 0x30]
}

/// Asks for the data object of a slot. A slot other than the two known
/// ones asks for object 0xffff.
pub open spec fn read_request_frame(slot: u16) -> Seq<u8> {
    if slot == TM_SLOT1 {
        seq![
            0x80u8, 0x04, 0x00, 0x0c, 0x08, 0x20, 0x81, 0x00, 0x00, 0x06, 0xe0, 0xe8, 0x00, 0x00,
            0x06, 0x11, 0x8b, 0x12,
        ]
    } else if slot == TM_SLOT2 {
        seq![
            0x80u8, 0x04, 0x00, 0x0c, 0x08, 0x20, 0x81, 0x00, 0x00, 0x06, 0xe0, 0xe9, 0x00, 0x00,
            0x06, 0x11, 0x80, 0x56,
        ]
    } else {
        seq![
            0x80u8, 0x04, 0x00, 0x0c, 0x08, 0x20, 0x81, 0x00, 0x00, 0x06, 0xff, 0xff, 0x00, 0x00,
            0x06, 0x11, 0x8b, 0x12,
        ]
    }
}

/// The bytes that precede the key in a write request.
pub open spec fn write_request_head(slot: u16) -> Seq<u8> {
    if slot == TM_SLOT1 {
        seq![0x80u8, 0x04, 0x00, 0x4a, 0x08, 0x20, 0x82, 0x00, 0x00, 0x44, 0xe0, 0xe8, 0x00, 0x00]
    } else if slot == TM_SLOT2 {
        seq![0x80u8, 0x04, 0x00, 0x4a, 0x08, 0x20, 0x82, 0x40, 0x00, 0x44, 0xe0, 0xe9, 0x00, 0x00]
    } else {
        seq![0x80u8, 0x04, 0x00, 0x4a, 0x08, 0x20, 0x82, 0x40, 0x00, 0x44, 0xff, 0xff, 0x00, 0x00]
    }
}

/// The bytes that follow the key in a write request.
pub open spec fn write_request_tail(slot: u16) -> Seq<u8> {
    if slot == TM_SLOT1 {
        seq![0x2fu8, 0x10]
    } else if slot == TM_SLOT2 {
        seq![0x5bu8, 0xb9]
    } else {
        seq![0x00u8, 0x00]
    }
}

/// Writes `key` into a slot.
pub open spec fn write_request_frame(slot: u16, key: Seq<u8>) -> Seq<u8> {
    write_request_head(slot) + key + write_request_tail(slot)
}

/// Write-protects a slot. A slot other than the two known ones locks the
/// second slot.
pub open spec fn lock_request_frame(slot: u16) -> Seq<u8> {
    if slot == TM_SLOT1 {
        seq![
            0x80u8, 0x04, 0x00, 0x0f, 0x08, 0x20, 0x82, 0x01, 0x00, 0x09, 0xe0, 0xe8, 0x00, 0x00,
            0x20, 0x03, 0xd0, 0x01, 0xff, 0xdc, 0x67,
        ]
    } else {
        seq![
            0x80u8, 0x04, 0x00, 0x0f, 0x08, 0x20, 0x82, 0x01, 0x00, 0x09, 0xe0, 0xe9, 0x00, 0x00,
            0x20, 0x03, 0xd0, 0x01, 0xff, 0x5d, 0xd8,
        ]
    }
}

// ---------------------------------------------------------------------
// Scripts
// ---------------------------------------------------------------------

/// Select a register, then read `n` bytes from it.
pub open spec fn poll(reg: u8, n: nat) -> Seq<StepModel> {
    seq![StepModel::Transfer(OpModel::WriteByte(reg)), StepModel::Transfer(OpModel::ReadBytes(n))]
}

/// Write one frame.
pub open spec fn send(frame: Seq<u8>) -> Seq<StepModel> {
    seq![StepModel::Transfer(OpModel::WriteBytes(frame))]
}

/// Read `n` bytes.
pub open spec fn fetch(n: nat) -> Seq<StepModel> {
    seq![StepModel::Transfer(OpModel::ReadBytes(n))]
}

/// Open the link: open the device, wait, reset the interface, wait.
pub open spec fn startup() -> Seq<StepModel> {
    seq![
        StepModel::Open,
        StepModel::Pause(INIT_PAUSE_MICROS),
        StepModel::Transfer(OpModel::WriteBytes(reset_frame())),
        StepModel::Pause(INIT_PAUSE_MICROS),
    ]
}

/// The conversation that reads the key stored in `slot`. The last step reads
/// the answer that holds the key.
pub open spec fn read_key_script(slot: u16) -> Seq<StepModel> {
    startup() + poll(REG_MAX_SCL_FREQ, 4) + send(data_len_frame()) + poll(REG_DATA_LEN, 2) + send(
        open_application_frame(),
    ) + poll(REG_STATUS, 4) + poll(REG_DATA, 5) + poll(REG_STATUS, 4) + poll(REG_STATUS, 4) + poll(
        REG_DATA,
        11,
    ) + send(ack0_frame()) + send(read_request_frame(slot)) + poll(REG_STATUS, 4) + poll(
        REG_DATA,
        5,
    ) + poll(REG_STATUS, 4) + poll(REG_STATUS, 4) + poll(REG_DATA, KEY_RESPONSE_LEN as nat)
}

/// The conversation that writes `key` into `slot`.
pub open spec fn write_key_script(slot: u16, key: Seq<u8>) -> Seq<StepModel> {
    startup() + fetch(4) + send(soft_reset_frame()) + poll(REG_MAX_SCL_FREQ, 4) + send(
        data_len_frame(),
    ) + poll(REG_DATA_LEN, 2) + send(open_application_frame()) + poll(REG_STATUS, 4) + poll(
        REG_DATA,
        5,
    ) + poll(REG_STATUS, 4) + poll(REG_DATA, 11) + send(ack0_frame()) + send(
        write_request_frame(slot, key),
    ) + poll(REG_STATUS, 4) + poll(REG_DATA, 5) + poll(REG_STATUS, 4) + poll(REG_STATUS, 4) + poll(
        REG_STATUS,
        4,
    ) + poll(REG_DATA, 11) + send(ack1_frame())
}

/// The conversation that write-protects `slot`.
pub open spec fn lock_script(slot: u16) -> Seq<StepModel> {
    startup() + poll(REG_STATUS, 4) + send(soft_reset_frame()) + poll(REG_MAX_SCL_FREQ, 4) + send(
        data_len_frame(),
    ) + poll(REG_DATA_LEN, 2) + send(open_application_frame()) + poll(REG_STATUS, 4) + fetch(5)
        + poll(REG_STATUS, 4) + poll(REG_DATA, 11) + send(ack0_frame()) + send(
        lock_request_frame(slot),
    ) + poll(REG_STATUS, 4) + poll(REG_DATA, 5) + poll(REG_STATUS, 4) + poll(REG_STATUS, 4) + poll(
        REG_STATUS,
        4,
    ) + poll(REG_STATUS, 4) + poll(REG_STATUS, 4) + poll(REG_DATA, 11) + send(ack1_frame())
}

// ---------------------------------------------------------------------
// Building frames and scripts
// ---------------------------------------------------------------------

pub fn build_read_request_frame(slot: u16) -> (frame: Vec<u8>)
    ensures
        frame@ == read_request_frame(slot),
{
    let mut data = vec![
        0x80u8, 0x04, 0x00, 0x0c, 0x08, 0x20, 0x81, 0x00, 0x00, 0x06, 0xff, 0xff, 0x00, 0x00,
        0x06, 0x11, 0x8b, 0x12,
    ];
    if slot == TM_SLOT1 {
        data.set(10, 0xe0);
        data.set(11, 0xe8);
        data.set(16, 0x8b);
        data.set(17, 0x12);
    } else if slot == TM_SLOT2 {
        data.set(10, 0xe0);
        data.set(11, 0xe9);
        data.set(16, 0x80);
        data.set(17, 0x56);
    }
    assert(data@ =~= read_request_frame(slot));
    data
}

pub fn build_write_request_frame(slot: u16, key: &[u8]) -> (frame: Vec<u8>)
    ensures
        frame@ == write_request_frame(slot, key@),
{
    let mut beg = vec![
        0x80u8, 0x04, 0x00, 0x4a, 0x08, 0x20, 0x82, 0x40, 0x00, 0x44, 0xff, 0xff, 0x00, 0x00,
    ];
    if slot == TM_SLOT1 {
        beg.set(7, 0x00);
        beg.set(10, 0xe0);
        beg.set(11, 0xe8);
    } else if slot == TM_SLOT2 {
        beg.set(7, 0x40);
        beg.set(10, 0xe0);
        beg.set(11, 0xe9);
    }
    let mut end = vec![0x00u8, 0x00];
    if slot == TM_SLOT1 {
        end = vec![0x2fu8, 0x10];
    } else if slot == TM_SLOT2 {
        end = vec![0x5bu8, 0xb9];
    }
    assert(beg@ =~= write_request_head(slot));
    assert(end@ =~= write_request_tail(slot));
    let mut data: Vec<u8> = Vec::new();
    data.extend_from_slice(beg.as_slice());
    data.extend_from_slice(key);
    data.extend_from_slice(end.as_slice());
    assert(data@ =~= write_request_frame(slot, key@));
    data
}

pub fn build_lock_request_frame(slot: u16) -> (frame: Vec<u8>)
    ensures
        frame@ == lock_request_frame(slot),
{
    let mut data = vec![
        0x80u8, 0x04, 0x00, 0x0f, 0x08, 0x20, 0x82, 0x01, 0x00, 0x09, 0xe0, 0xe9, 0x00, 0x00,
        0x20, 0x03, 0xd0, 0x01, 0xff, 0x5d, 0xd8,
    ];
    if slot == TM_SLOT1 {
        data.set(10, 0xe0);
        data.set(11, 0xe8);
        data.set(19, 0xdc);
        data.set(20, 0x67);
    } else if slot == TM_SLOT2 {
        data.set(10, 0xe0);
        data.set(11, 0xe9);
        data.set(19, 0x5d);
        data.set(20, 0xd8);
    }
    assert(data@ =~= lock_request_frame(slot));
    data
}

fn push_step(script: &mut Vec<Step>, step: Step)
    ensures
        steps_view(final(script)@) == steps_view(old(script)@).push(step@),
{
    let ghost s0 = script@;
    script.push(step);
    assert(steps_view(script@) =~= steps_view(s0).push(step@));
}

fn push_poll(script: &mut Vec<Step>, reg: u8, n: usize)
    ensures
        steps_view(final(script)@) == steps_view(old(script)@) + poll(reg, n as nat),
{
    let ghost s0 = steps_view(script@);
    push_step(script, Step::Transfer(Op::WriteByte(reg)));
    push_step(script, Step::Transfer(Op::ReadBytes(n)));
    assert(steps_view(script@) =~= s0 + poll(reg, n as nat));
}

fn push_send(script: &mut Vec<Step>, frame: Vec<u8>)
    ensures
        steps_view(final(script)@) == steps_view(old(script)@) + send(frame@),
{
    let ghost s0 = steps_view(script@);
    let ghost f = frame@;
    push_step(script, Step::Transfer(Op::WriteBytes(frame)));
    assert(steps_view(script@) =~= s0 + send(f));
}

fn push_fetch(script: &mut Vec<Step>, n: usize)
    ensures
        steps_view(final(script)@) == steps_view(old(script)@) + fetch(n as nat),
{
    let ghost s0 = steps_view(script@);
    push_step(script, Step::Transfer(Op::ReadBytes(n)));
    assert(steps_view(script@) =~= s0 + fetch(n as nat));
}

fn startup_steps() -> (script: Vec<Step>)
    ensures
        steps_view(script@) == startup(),
{
    let mut script: Vec<Step> = Vec::new();
    assert(steps_view(script@) =~= Seq::<StepModel>::empty());
    push_step(&mut script, Step::Open);
    push_step(&mut script, Step::Pause(INIT_PAUSE_MICROS));
    push_send(&mut script, vec![0x88u8, 0xff, 0xff]);
    push_step(&mut script, Step::Pause(INIT_PAUSE_MICROS));
    assert(steps_view(script@) =~= startup());
    script
}

/// The steps that open the authentication application, shared by the three
/// commands, from the write of the data register length on.
fn push_open_application(script: &mut Vec<Step>)
    ensures
        steps_view(final(script)@) == steps_view(old(script)@) + send(data_len_frame()) + poll(
            REG_DATA_LEN,
            2,
        ) + send(open_application_frame()) + poll(REG_STATUS, 4),
{
    let ghost s0 = steps_view(script@);
    push_send(script, vec![0x81u8, 0x01, 0x15]);
    push_poll(script, REG_DATA_LEN, 2);
    push_send(
        script,
        vec![
            0x80u8, 0x03, 0x00, 0x16, 0x08, 0x20, 0xf0, 0x00, 0x00, 0x10, 0xd2, 0x76, 0x00, 0x00,
            0x04, 0x47, 0x65, 0x6e, 0x41, 0x75, 0x74, 0x68, 0x41, 0x70, 0x70, 0x6c, 0xbe, 0x40,
        ],
    );
    push_poll(script, REG_STATUS, 4);
    assert(steps_view(script@) =~= s0 + send(data_len_frame()) + poll(REG_DATA_LEN, 2) + send(
        open_application_frame(),
    ) + poll(REG_STATUS, 4));
}

/// Builds the script of the read-key conversation.
pub fn build_read_key_script(slot: u16) -> (script: Vec<Step>)
    ensures
        steps_view(script@) == read_key_script(slot),
{
    let mut script = startup_steps();
    push_poll(&mut script, REG_MAX_SCL_FREQ, 4);
    push_open_application(&mut script);
    push_poll(&mut script, REG_DATA, 5);
    push_poll(&mut script, REG_STATUS, 4);
    push_poll(&mut script, REG_STATUS, 4);
    push_poll(&mut script, REG_DATA, 11);
    push_send(&mut script, vec![0x80u8, 0x80, 0x00, 0x00, 0x0c, 0xec]);
    push_send(&mut script, build_read_request_frame(slot));
    push_poll(&mut script, REG_STATUS, 4);
    push_poll(&mut script, REG_DATA, 5);
    push_poll(&mut script, REG_STATUS, 4);
    push_poll(&mut script, REG_STATUS, 4);
    push_poll(&mut script, REG_DATA, KEY_RESPONSE_LEN);
    assert(steps_view(script@) =~= read_key_script(slot));
    script
}

/// Builds the script of the write-key conversation.
pub fn build_write_key_script(slot: u16, key: &[u8]) -> (script: Vec<Step>)
    ensures
        steps_view(script@) == write_key_script(slot, key@),
{
    let mut script = startup_steps();
    push_fetch(&mut script, 4);
    push_send(&mut script, vec![0x88u8, 0x00, 0x00]);
    push_poll(&mut script, REG_MAX_SCL_FREQ, 4);
    push_open_application(&mut script);
    push_poll(&mut script, REG_DATA, 5);
    push_poll(&mut script, REG_STATUS, 4);
    push_poll(&mut script, REG_DATA, 11);
    push_send(&mut script, vec![0x80u8, 0x80, 0x00, 0x00, 0x0c, 0xec]);
    push_send(&mut script, build_write_request_frame(slot, key));
    push_poll(&mut script, REG_STATUS, 4);
    push_poll(&mut script, REG_DATA, 5);
    push_poll(&mut script, REG_STATUS, 4);
    push_poll(&mut script, REG_STATUS, 4);
    push_poll(&mut script, REG_STATUS, 4);
    push_poll(&mut script, REG_DATA, 11);
    push_send(&mut script, vec![0x80u8, 0x81, 0x00, 0x00, 0x56, 0x30]);
    assert(steps_view(script@) =~= write_key_script(slot, key@));
    script
}

/// Builds the script of the lock conversation.
pub fn build_lock_script(slot: u16) -> (script: Vec<Step>)
    ensures
        steps_view(script@) == lock_script(slot),
{
    let mut script = startup_steps();
    push_poll(&mut script, REG_STATUS, 4);
    push_send(&mut script, vec![0x88u8, 0x00, 0x00]);
    push_poll(&mut script, REG_MAX_SCL_FREQ, 4);
    push_open_application(&mut script);
    push_fetch(&mut script, 5);
    push_poll(&mut script, REG_STATUS, 4);
    push_poll(&mut script, REG_DATA, 11);
    push_send(&mut script, vec![0x80u8, 0x80, 0x00, 0x00, 0x0c, 0xec]);
    push_send(&mut script, build_lock_request_frame(slot));
    push_poll(&mut script, REG_STATUS, 4);
    push_poll(&mut script, REG_DATA, 5);
    push_poll(&mut script, REG_STATUS, 4);
    push_poll(&mut script, REG_STATUS, 4);
    push_poll(&mut script, REG_STATUS, 4);
    push_poll(&mut script, REG_STATUS, 4);
    push_poll(&mut script, REG_STATUS, 4);
    push_poll(&mut script, REG_DATA, 11);
    push_send(&mut script, vec![0x80u8, 0x81, 0x00, 0x00, 0x56, 0x30]);
    assert(steps_view(script@) =~= lock_script(slot));
    script
}

} // verus!
