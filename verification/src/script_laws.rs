//! What each conversation writes to the chip, and which slot it names.
use vstd::prelude::*;
use crate::protocol::{
    fetch, lock_request_frame, lock_script, poll, read_key_script, read_request_frame, send,
    startup, write_key_script, write_request_frame, OpModel, StepModel, TM_SLOT1, TM_SLOT2,
};

verus! {

/// The frames a step writes.
pub open spec fn step_frames(step: StepModel) -> Seq<Seq<u8>> {
    match step {
        StepModel::Transfer(OpModel::WriteBytes(frame)) => seq![frame],
        _ => Seq::empty(),
    }
}

/// The frames a script writes, in order.
pub open spec fn written_frames(script: Seq<StepModel>) -> Seq<Seq<u8>>
    decreases script.len(),
{
    if script.len() == 0 {
        Seq::empty()
    } else {
        written_frames(script.drop_last()) + step_frames(script.last())
    }
}

/// The slot a request frame names: its bytes 10 and 11, big-endian.
pub open spec fn named_slot(frame: Seq<u8>) -> int {
    frame[10] as int * 256 + frame[11] as int
}

pub broadcast proof fn lemma_written_frames_concat(a: Seq<StepModel>, b: Seq<StepModel>)
    ensures
        #[trigger] written_frames(a + b) == written_frames(a) + written_frames(b),
    decreases b.len(),
{
    if b.len() == 0 {
        assert(a + b =~= a);
        assert(written_frames(a) + written_frames(b) =~= written_frames(a));
    } else {
        lemma_written_frames_concat(a, b.drop_last());
        assert((a + b).drop_last() =~= a + b.drop_last());
        assert((a + b).last() == b.last());
        assert(written_frames(a) + written_frames(b.drop_last()) + step_frames(b.last())
            =~= written_frames(a) + (written_frames(b.drop_last()) + step_frames(b.last())));
    }
}

proof fn lemma_written_frames_one(x: StepModel)
    ensures
        written_frames(seq![x]) == step_frames(x),
{
    assert(seq![x].drop_last() =~= Seq::<StepModel>::empty());
    assert(written_frames(Seq::<StepModel>::empty()) == Seq::<Seq<u8>>::empty());
    assert(seq![x].last() == x);
    assert(Seq::<Seq<u8>>::empty() + step_frames(x) =~= step_frames(x));
}

pub broadcast proof fn lemma_written_frames_poll(reg: u8, n: nat)
    ensures
        #[trigger] written_frames(poll(reg, n)) == Seq::<Seq<u8>>::empty(),
{
    let p = poll(reg, n);
    assert(p =~= seq![p[0]] + seq![p[1]]);
    lemma_written_frames_concat(seq![p[0]], seq![p[1]]);
    lemma_written_frames_one(p[0]);
    lemma_written_frames_one(p[1]);
    assert(Seq::<Seq<u8>>::empty() + Seq::<Seq<u8>>::empty() =~= Seq::<Seq<u8>>::empty());
}

pub broadcast proof fn lemma_written_frames_send(frame: Seq<u8>)
    ensures
        #[trigger] written_frames(send(frame)) == seq![frame],
{
    lemma_written_frames_one(send(frame)[0]);
    assert(send(frame) =~= seq![send(frame)[0]]);
}

pub broadcast proof fn lemma_written_frames_fetch(n: nat)
    ensures
        #[trigger] written_frames(fetch(n)) == Seq::<Seq<u8>>::empty(),
{
    lemma_written_frames_one(fetch(n)[0]);
    assert(fetch(n) =~= seq![fetch(n)[0]]);
}

proof fn lemma_written_frames_startup()
    ensures
        written_frames(startup()) == seq![seq![0x88u8, 0xff, 0xff]],
{
    let s = startup();
    assert(s =~= seq![s[0]] + seq![s[1]] + seq![s[2]] + seq![s[3]]);
    lemma_written_frames_concat(seq![s[0]] + seq![s[1]] + seq![s[2]], seq![s[3]]);
    lemma_written_frames_concat(seq![s[0]] + seq![s[1]], seq![s[2]]);
    lemma_written_frames_concat(seq![s[0]], seq![s[1]]);
    lemma_written_frames_one(s[0]);
    lemma_written_frames_one(s[1]);
    lemma_written_frames_one(s[2]);
    lemma_written_frames_one(s[3]);
    assert(Seq::<Seq<u8>>::empty() + Seq::<Seq<u8>>::empty() + seq![seq![0x88u8, 0xff, 0xff]]
        + Seq::<Seq<u8>>::empty() =~= seq![seq![0x88u8, 0xff, 0xff]]);
}

pub broadcast group group_written_frames {
    lemma_written_frames_concat,
    lemma_written_frames_poll,
    lemma_written_frames_send,
    lemma_written_frames_fetch,
}

/// The byte counts a script reads, in order.
pub open spec fn read_counts(script: Seq<StepModel>) -> Seq<nat>
    decreases script.len(),
{
    if script.len() == 0 {
        Seq::empty()
    } else {
        read_counts(script.drop_last()) + match script.last() {
            StepModel::Transfer(OpModel::ReadBytes(n)) => seq![n],
            _ => Seq::empty(),
        }
    }
}

/// The registers a script selects (its single-byte writes), in order.
pub open spec fn selected_registers(script: Seq<StepModel>) -> Seq<u8>
    decreases script.len(),
{
    if script.len() == 0 {
        Seq::empty()
    } else {
        selected_registers(script.drop_last()) + match script.last() {
            StepModel::Transfer(OpModel::WriteByte(r)) => seq![r],
            _ => Seq::empty(),
        }
    }
}

pub broadcast proof fn lemma_read_counts_concat(a: Seq<StepModel>, b: Seq<StepModel>)
    ensures
        #[trigger] read_counts(a + b) == read_counts(a) + read_counts(b),
    decreases b.len(),
{
    if b.len() == 0 {
        assert(a + b =~= a);
        assert(read_counts(a) + read_counts(b) =~= read_counts(a));
    } else {
        lemma_read_counts_concat(a, b.drop_last());
        assert((a + b).drop_last() =~= a + b.drop_last());
        assert((a + b).last() == b.last());
        let t = match b.last() {
            StepModel::Transfer(OpModel::ReadBytes(n)) => seq![n],
            _ => Seq::<nat>::empty(),
        };
        assert(read_counts(a) + read_counts(b.drop_last()) + t =~= read_counts(a) + (read_counts(
            b.drop_last(),
        ) + t));
    }
}

pub broadcast proof fn lemma_selected_registers_concat(a: Seq<StepModel>, b: Seq<StepModel>)
    ensures
        #[trigger] selected_registers(a + b) == selected_registers(a) + selected_registers(b),
    decreases b.len(),
{
    if b.len() == 0 {
        assert(a + b =~= a);
        assert(selected_registers(a) + selected_registers(b) =~= selected_registers(a));
    } else {
        lemma_selected_registers_concat(a, b.drop_last());
        assert((a + b).drop_last() =~= a + b.drop_last());
        assert((a + b).last() == b.last());
        let t = match b.last() {
            StepModel::Transfer(OpModel::WriteByte(r)) => seq![r],
            _ => Seq::<u8>::empty(),
        };
        assert(selected_registers(a) + selected_registers(b.drop_last()) + t =~= selected_registers(
            a,
        ) + (selected_registers(b.drop_last()) + t));
    }
}

proof fn lemma_counts_one(x: StepModel)
    ensures
        read_counts(seq![x]) == match x {
            StepModel::Transfer(OpModel::ReadBytes(n)) => seq![n],
            _ => Seq::<nat>::empty(),
        },
        selected_registers(seq![x]) == match x {
            StepModel::Transfer(OpModel::WriteByte(r)) => seq![r],
            _ => Seq::<u8>::empty(),
        },
{
    assert(seq![x].drop_last() =~= Seq::<StepModel>::empty());
    assert(read_counts(Seq::<StepModel>::empty()) == Seq::<nat>::empty());
    assert(selected_registers(Seq::<StepModel>::empty()) == Seq::<u8>::empty());
    assert(seq![x].last() == x);
    assert(Seq::<nat>::empty() + seq![0nat] =~= seq![0nat]);
    match x {
        StepModel::Transfer(OpModel::ReadBytes(n)) => {
            assert(Seq::<nat>::empty() + seq![n] =~= seq![n]);
            assert(Seq::<u8>::empty() + Seq::<u8>::empty() =~= Seq::<u8>::empty());
        },
        StepModel::Transfer(OpModel::WriteByte(r)) => {
            assert(Seq::<u8>::empty() + seq![r] =~= seq![r]);
            assert(Seq::<nat>::empty() + Seq::<nat>::empty() =~= Seq::<nat>::empty());
        },
        _ => {
            assert(Seq::<u8>::empty() + Seq::<u8>::empty() =~= Seq::<u8>::empty());
            assert(Seq::<nat>::empty() + Seq::<nat>::empty() =~= Seq::<nat>::empty());
        },
    }
}

pub broadcast proof fn lemma_counts_poll(reg: u8, n: nat)
    ensures
        #[trigger] read_counts(poll(reg, n)) == seq![n],
{
    lemma_both_poll(reg, n);
}

pub broadcast proof fn lemma_registers_poll(reg: u8, n: nat)
    ensures
        #[trigger] selected_registers(poll(reg, n)) == seq![reg],
{
    lemma_both_poll(reg, n);
}

proof fn lemma_both_poll(reg: u8, n: nat)
    ensures
        read_counts(poll(reg, n)) == seq![n],
        selected_registers(poll(reg, n)) == seq![reg],
{
    let p = poll(reg, n);
    assert(p =~= seq![p[0]] + seq![p[1]]);
    lemma_read_counts_concat(seq![p[0]], seq![p[1]]);
    lemma_selected_registers_concat(seq![p[0]], seq![p[1]]);
    lemma_counts_one(p[0]);
    lemma_counts_one(p[1]);
    assert(Seq::<nat>::empty() + seq![n] =~= seq![n]);
    assert(seq![reg] + Seq::<u8>::empty() =~= seq![reg]);
}

pub broadcast proof fn lemma_counts_send(frame: Seq<u8>)
    ensures
        #[trigger] read_counts(send(frame)) == Seq::<nat>::empty(),
{
    lemma_both_send(frame);
}

pub broadcast proof fn lemma_registers_send(frame: Seq<u8>)
    ensures
        #[trigger] selected_registers(send(frame)) == Seq::<u8>::empty(),
{
    lemma_both_send(frame);
}

proof fn lemma_both_send(frame: Seq<u8>)
    ensures
        read_counts(send(frame)) == Seq::<nat>::empty(),
        selected_registers(send(frame)) == Seq::<u8>::empty(),
{
    lemma_counts_one(send(frame)[0]);
    assert(send(frame) =~= seq![send(frame)[0]]);
}

pub broadcast proof fn lemma_counts_fetch(n: nat)
    ensures
        #[trigger] read_counts(fetch(n)) == seq![n],
{
    lemma_both_fetch(n);
}

pub broadcast proof fn lemma_registers_fetch(n: nat)
    ensures
        #[trigger] selected_registers(fetch(n)) == Seq::<u8>::empty(),
{
    lemma_both_fetch(n);
}

proof fn lemma_both_fetch(n: nat)
    ensures
        read_counts(fetch(n)) == seq![n],
        selected_registers(fetch(n)) == Seq::<u8>::empty(),
{
    lemma_counts_one(fetch(n)[0]);
    assert(fetch(n) =~= seq![fetch(n)[0]]);
}

proof fn lemma_counts_startup()
    ensures
        read_counts(startup()) == Seq::<nat>::empty(),
        selected_registers(startup()) == Seq::<u8>::empty(),
{
    let s = startup();
    assert(s =~= seq![s[0]] + seq![s[1]] + seq![s[2]] + seq![s[3]]);
    lemma_read_counts_concat(seq![s[0]] + seq![s[1]] + seq![s[2]], seq![s[3]]);
    lemma_read_counts_concat(seq![s[0]] + seq![s[1]], seq![s[2]]);
    lemma_read_counts_concat(seq![s[0]], seq![s[1]]);
    lemma_selected_registers_concat(seq![s[0]] + seq![s[1]] + seq![s[2]], seq![s[3]]);
    lemma_selected_registers_concat(seq![s[0]] + seq![s[1]], seq![s[2]]);
    lemma_selected_registers_concat(seq![s[0]], seq![s[1]]);
    lemma_counts_one(s[0]);
    lemma_counts_one(s[1]);
    lemma_counts_one(s[2]);
    lemma_counts_one(s[3]);
    let e = Seq::<nat>::empty();
    assert(e + e + e + e =~= e);
    let f = Seq::<u8>::empty();
    assert(f + f + f + f =~= f);
}

pub broadcast group group_counts {
    lemma_read_counts_concat,
    lemma_counts_poll,
    lemma_counts_send,
    lemma_counts_fetch,
}

pub broadcast group group_registers {
    lemma_selected_registers_concat,
    lemma_registers_poll,
    lemma_registers_send,
    lemma_registers_fetch,
}

/// Every conversation starts the same way: open the device, wait 100 ms,
/// reset the chip's i2c interface, wait 100 ms.
pub open spec fn opens_the_link(script: Seq<StepModel>) -> bool {
    &&& script.len() >= 4
    &&& script.subrange(0, 4) == seq![
        StepModel::Open,
        StepModel::Pause(100_000),
        StepModel::Transfer(OpModel::WriteBytes(seq![0x88u8, 0xff, 0xff])),
        StepModel::Pause(100_000),
    ]
}

/// Every conversation starts by opening the link.
pub proof fn law_conversations_open_the_link(slot: u16, key: Seq<u8>)
    ensures
        opens_the_link(read_key_script(slot)),
        opens_the_link(write_key_script(slot, key)),
        opens_the_link(lock_script(slot)),
{
    assert(read_key_script(slot).subrange(0, 4) =~= startup());
    assert(write_key_script(slot, key).subrange(0, 4) =~= startup());
    assert(lock_script(slot).subrange(0, 4) =~= startup());
}

proof fn lemma_read_counts(slot: u16)
    ensures
        read_counts(read_key_script(slot)) == seq![4nat, 2, 4, 5, 4, 4, 11, 4, 5, 4, 4, 74],
{
    broadcast use group_counts;

    lemma_counts_startup();
    assert(read_counts(read_key_script(slot)) =~= seq![4nat, 2, 4, 5, 4, 4, 11, 4, 5, 4, 4, 74]);
}

proof fn lemma_read_registers(slot: u16)
    ensures
        selected_registers(read_key_script(slot)) == seq![0x84u8, 0x81, 0x82, 0x80, 0x82, 0x82, 0x80, 0x82, 0x80, 0x82, 0x82, 0x80],
{
    broadcast use group_registers;

    lemma_counts_startup();
    assert(selected_registers(read_key_script(slot)) =~= seq![0x84u8, 0x81, 0x82, 0x80, 0x82, 0x82, 0x80, 0x82, 0x80, 0x82, 0x82, 0x80]);
}
proof fn lemma_write_counts(slot: u16, key: Seq<u8>)
    ensures
        read_counts(write_key_script(slot, key)) == seq![4nat, 4, 2, 4, 5, 4, 11, 4, 5, 4, 4, 4, 11],
{
    broadcast use group_counts;

    lemma_counts_startup();
    assert(read_counts(write_key_script(slot, key)) =~= seq![4nat, 4, 2, 4, 5, 4, 11, 4, 5, 4, 4, 4, 11]);
}

proof fn lemma_write_registers(slot: u16, key: Seq<u8>)
    ensures
        selected_registers(write_key_script(slot, key)) == seq![0x84u8, 0x81, 0x82, 0x80, 0x82, 0x80, 0x82, 0x80, 0x82, 0x82, 0x82, 0x80],
{
    broadcast use group_registers;

    lemma_counts_startup();
    assert(selected_registers(write_key_script(slot, key)) =~= seq![0x84u8, 0x81, 0x82, 0x80, 0x82, 0x80, 0x82, 0x80, 0x82, 0x82, 0x82, 0x80]);
}
proof fn lemma_lock_counts(slot: u16)
    ensures
        read_counts(lock_script(slot)) == seq![4nat, 4, 2, 4, 5, 4, 11, 4, 5, 4, 4, 4, 4, 4, 11],
{
    broadcast use group_counts;

    lemma_counts_startup();
    assert(read_counts(lock_script(slot)) =~= seq![4nat, 4, 2, 4, 5, 4, 11, 4, 5, 4, 4, 4, 4, 4, 11]);
}

proof fn lemma_lock_registers(slot: u16)
    ensures
        selected_registers(lock_script(slot)) == seq![0x82u8, 0x84, 0x81, 0x82, 0x82, 0x80, 0x82, 0x80, 0x82, 0x82, 0x82, 0x82, 0x82, 0x80],
{
    broadcast use group_registers;

    lemma_counts_startup();
    assert(selected_registers(lock_script(slot)) =~= seq![0x82u8, 0x84, 0x81, 0x82, 0x82, 0x80, 0x82, 0x80, 0x82, 0x82, 0x82, 0x82, 0x82, 0x80]);
}
/// The registers the read conversation selects and the byte counts it
/// reads, in order; the last read is the 74-byte answer that holds the key.
pub proof fn law_read_conversation_polls(slot: u16)
    ensures
        selected_registers(read_key_script(slot)) == seq![0x84u8, 0x81, 0x82, 0x80, 0x82, 0x82, 0x80, 0x82, 0x80, 0x82, 0x82, 0x80],
        read_counts(read_key_script(slot)) == seq![4nat, 2, 4, 5, 4, 4, 11, 4, 5, 4, 4, 74],
{
    lemma_read_counts(slot);
    lemma_read_registers(slot);
}

/// The registers the write conversation selects and the byte counts it
/// reads, in order.
pub proof fn law_write_conversation_polls(slot: u16, key: Seq<u8>)
    ensures
        selected_registers(write_key_script(slot, key)) == seq![0x84u8, 0x81, 0x82, 0x80, 0x82, 0x80, 0x82, 0x80, 0x82, 0x82, 0x82, 0x80],
        read_counts(write_key_script(slot, key)) == seq![4nat, 4, 2, 4, 5, 4, 11, 4, 5, 4, 4, 4, 11],
{
    lemma_write_counts(slot, key);
    lemma_write_registers(slot, key);
}

/// The registers the lock conversation selects and the byte counts it
/// reads, in order.
pub proof fn law_lock_conversation_polls(slot: u16)
    ensures
        selected_registers(lock_script(slot)) == seq![0x82u8, 0x84, 0x81, 0x82, 0x82, 0x80, 0x82, 0x80, 0x82, 0x82, 0x82, 0x82, 0x82, 0x80],
        read_counts(lock_script(slot)) == seq![4nat, 4, 2, 4, 5, 4, 11, 4, 5, 4, 4, 4, 4, 4, 11],
{
    lemma_lock_counts(slot);
    lemma_lock_registers(slot);
}

/// The frame that opens the authentication application.
pub open spec fn open_application() -> Seq<u8> {
    seq![
        0x80u8, 0x03, 0x00, 0x16, 0x08, 0x20, 0xf0, 0x00, 0x00, 0x10, 0xd2, 0x76, 0x00, 0x00,
        0x04, 0x47, 0x65, 0x6e, 0x41, 0x75, 0x74, 0x68, 0x41, 0x70, 0x70, 0x6c, 0xbe, 0x40,
    ]
}

/// The read conversation writes the interface reset, the data-length
/// setting, the application opening, the acknowledgement of frame 0 and
/// then its read request, and nothing else. The read request of either
/// known slot names that slot; the two requests differ only in the slot's
/// low byte and their check bytes.
pub proof fn law_read_conversation_asks_for_its_slot(slot: u16)
    ensures
        written_frames(read_key_script(slot)) == seq![
            seq![0x88u8, 0xff, 0xff],
            seq![0x81u8, 0x01, 0x15],
            open_application(),
            seq![0x80u8, 0x80, 0x00, 0x00, 0x0c, 0xec],
            read_request_frame(slot),
        ],
        read_request_frame(slot).len() == 18,
        (slot == TM_SLOT1 || slot == TM_SLOT2) ==> named_slot(read_request_frame(slot)) == slot,
        !(slot == TM_SLOT1 || slot == TM_SLOT2) ==> named_slot(read_request_frame(slot)) == 0xffff,
        forall|i: int|
            0 <= i < 18 && i != 11 && i != 16 && i != 17 ==> #[trigger] read_request_frame(
                TM_SLOT1,
            )[i] == read_request_frame(TM_SLOT2)[i],
{
    broadcast use group_written_frames;

    lemma_written_frames_startup();
    assert(written_frames(read_key_script(slot)) =~= seq![
        seq![0x88u8, 0xff, 0xff],
        seq![0x81u8, 0x01, 0x15],
        open_application(),
        seq![0x80u8, 0x80, 0x00, 0x00, 0x0c, 0xec],
        read_request_frame(slot),
    ]);
}

/// The write conversation writes the interface reset, the soft reset, the
/// data-length setting, the application opening, the acknowledgement of
/// frame 0, exactly one write request, and the acknowledgement of frame 1.
/// The write request carries the key from its byte 14 on, has the write
/// request's header, and for either known slot names that slot.
pub proof fn law_write_conversation_writes_only_its_slot(slot: u16, key: Seq<u8>)
    ensures
        written_frames(write_key_script(slot, key)) == seq![
            seq![0x88u8, 0xff, 0xff],
            seq![0x88u8, 0x00, 0x00],
            seq![0x81u8, 0x01, 0x15],
            open_application(),
            seq![0x80u8, 0x80, 0x00, 0x00, 0x0c, 0xec],
            write_request_frame(slot, key),
            seq![0x80u8, 0x81, 0x00, 0x00, 0x56, 0x30],
        ],
        write_request_frame(slot, key).len() == key.len() + 16,
        write_request_frame(slot, key).subrange(0, 4) == seq![0x80u8, 0x04, 0x00, 0x4a],
        write_request_frame(slot, key).subrange(14, 14 + key.len() as int) == key,
        (slot == TM_SLOT1 || slot == TM_SLOT2) ==> named_slot(write_request_frame(slot, key))
            == slot,
        !(slot == TM_SLOT1 || slot == TM_SLOT2) ==> named_slot(write_request_frame(slot, key))
            == 0xffff,
        forall|i: int|
            0 <= i < 14 && i != 7 && i != 11 ==> #[trigger] write_request_frame(TM_SLOT1, key)[i]
                == write_request_frame(TM_SLOT2, key)[i],
{
    broadcast use group_written_frames;

    lemma_written_frames_startup();
    assert(written_frames(write_key_script(slot, key)) =~= seq![
        seq![0x88u8, 0xff, 0xff],
        seq![0x88u8, 0x00, 0x00],
        seq![0x81u8, 0x01, 0x15],
        open_application(),
        seq![0x80u8, 0x80, 0x00, 0x00, 0x0c, 0xec],
        write_request_frame(slot, key),
        seq![0x80u8, 0x81, 0x00, 0x00, 0x56, 0x30],
    ]);
    let f = write_request_frame(slot, key);
    assert(f.subrange(0, 4) =~= seq![0x80u8, 0x04, 0x00, 0x4a]);
    assert(f.subrange(14, 14 + key.len() as int) =~= key);
}

/// The lock conversation writes the interface reset, the soft reset, the
/// data-length setting, the application opening, the acknowledgement of
/// frame 0, its lock request and the acknowledgement of frame 1, and
/// nothing else. The lock request of either known slot names that slot;
/// the two requests differ only in the slot's low byte and their check bytes.
pub proof fn law_lock_conversation_locks_its_slot(slot: u16)
    ensures
        written_frames(lock_script(slot)) == seq![
            seq![0x88u8, 0xff, 0xff],
            seq![0x88u8, 0x00, 0x00],
            seq![0x81u8, 0x01, 0x15],
            open_application(),
            seq![0x80u8, 0x80, 0x00, 0x00, 0x0c, 0xec],
            lock_request_frame(slot),
            seq![0x80u8, 0x81, 0x00, 0x00, 0x56, 0x30],
        ],
        lock_request_frame(slot).len() == 21,
        (slot == TM_SLOT1 || slot == TM_SLOT2) ==> named_slot(lock_request_frame(slot)) == slot,
        !(slot == TM_SLOT1 || slot == TM_SLOT2) ==> lock_request_frame(slot) == lock_request_frame(
            TM_SLOT2,
        ),
        forall|i: int|
            0 <= i < 21 && i != 11 && i != 19 && i != 20 ==> #[trigger] lock_request_frame(
                TM_SLOT1,
            )[i] == lock_request_frame(TM_SLOT2)[i],
{
    broadcast use group_written_frames;

    lemma_written_frames_startup();
    assert(written_frames(lock_script(slot)) =~= seq![
        seq![0x88u8, 0xff, 0xff],
        seq![0x88u8, 0x00, 0x00],
        seq![0x81u8, 0x01, 0x15],
        open_application(),
        seq![0x80u8, 0x80, 0x00, 0x00, 0x0c, 0xec],
        lock_request_frame(slot),
        seq![0x80u8, 0x81, 0x00, 0x00, 0x56, 0x30],
    ]);
}

} // verus!
