//! Exclusive, multiplexer-aware access to one shared physical bus.
//!
//! Many logical devices sit behind a channel multiplexer on one bus. The
//! arbiter serializes their transactions: a transaction begins only while
//! no other is under way, issues a channel-select write only when the
//! cached channel differs from the device's, and completes with the
//! observed outcome. Either kind of failure invalidates the cache so the
//! next transaction re-selects rather than trust stale state. Every wire
//! transfer the arbiter issues is recorded, in order, in its wire log;
//! each transaction occupies one contiguous block of it.
//!
//! The caller's task performs the planned transfers on the hardware and
//! reports the outcome; the arbiter decides everything else.

use vstd::prelude::*;

use crate::registers::pca9544a::channel_bits;
use crate::registers::pca9544a::channel_control_byte;
use crate::registers::pca9544a::Channel;

verus! {

/// A bus failure: the multiplexer chip itself failed, or the target
/// device did. The two are distinguished so callers can tell cross-talk
/// hazards from a dead sensor.
#[derive(Debug, Copy, Clone, PartialEq, Eq, Structural)]
pub enum BusError {
    MultiplexerFault,
    DeviceFault,
}

/// What the multiplexer is known to route. After any failure the cache
/// is unknown, which forces the next transaction to select afresh.
#[derive(Debug, Copy, Clone, PartialEq, Eq, Structural)]
pub enum MuxCache {
    Unknown,
    Selected(Channel),
}

/// One logical device: the multiplexer channel it sits behind, or none
/// where it sits on the bare bus, plus its 7-bit target address.
/// Immutable after construction.
#[derive(Debug, Copy, Clone, PartialEq, Eq)]
pub struct DeviceHandle {
    pub channel: Option<Channel>,
    pub address: u8,
}

/// One transfer against a target device.
pub enum Operation {
    /// Read this many bytes.
    Read { len: usize },
    /// Write these bytes.
    Write { data: Vec<u8> },
    /// Write, then read back, in one transaction, so the channel cannot
    /// change mid-sequence.
    WriteRead { data: Vec<u8>, read_len: usize },
}

/// The mathematical value of an [`Operation`].
pub enum OperationModel {
    Read { len: usize },
    Write { data: Seq<u8> },
    WriteRead { data: Seq<u8>, read_len: usize },
}

impl View for Operation {
    type V = OperationModel;

    open spec fn view(&self) -> OperationModel {
        match self {
            Operation::Read { len } => OperationModel::Read { len: *len },
            Operation::Write { data } => OperationModel::Write { data: data@ },
            Operation::WriteRead { data, read_len } => OperationModel::WriteRead {
                data: data@,
                read_len: *read_len,
            },
        }
    }
}

/// How many bytes an operation reads back.
pub open spec fn read_len_of(op: OperationModel) -> usize {
    match op {
        OperationModel::Read { len } => len,
        OperationModel::Write { data } => 0,
        OperationModel::WriteRead { data, read_len } => read_len,
    }
}

/// What the hardware did with a transaction.
pub enum TransferOutcome {
    /// Every transfer succeeded; reads returned these bytes.
    Success { response: Vec<u8> },
    /// The channel-select write to the multiplexer failed.
    MultiplexerFault,
    /// The transfer to the target device failed.
    DeviceFault,
}

/// The mathematical value of a [`TransferOutcome`].
pub enum TransferOutcomeModel {
    Success { response: Seq<u8> },
    MultiplexerFault,
    DeviceFault,
}

impl View for TransferOutcome {
    type V = TransferOutcomeModel;

    open spec fn view(&self) -> TransferOutcomeModel {
        match self {
            TransferOutcome::Success { response } => TransferOutcomeModel::Success {
                response: response@,
            },
            TransferOutcome::MultiplexerFault => TransferOutcomeModel::MultiplexerFault,
            TransferOutcome::DeviceFault => TransferOutcomeModel::DeviceFault,
        }
    }
}

/// What kind of wire transfer a frame records.
#[derive(Debug, Copy, Clone, PartialEq, Eq, Structural)]
pub enum FrameKind {
    /// A channel-select write to the multiplexer.
    SelectWrite,
    /// A write to a target device.
    DataWrite,
    /// A read from a target device.
    DataRead,
    /// A write-then-read against a target device.
    DataWriteRead,
}

/// One wire transfer as the arbiter issued it.
pub struct BusFrame {
    pub address: u8,
    pub kind: FrameKind,
    pub data: Vec<u8>,
    pub read_len: usize,
}

/// The mathematical value of a [`BusFrame`].
pub struct BusFrameModel {
    pub address: u8,
    pub kind: FrameKind,
    pub data: Seq<u8>,
    pub read_len: usize,
}

impl View for BusFrame {
    type V = BusFrameModel;

    open spec fn view(&self) -> BusFrameModel {
        BusFrameModel { address: self.address, kind: self.kind, data: self.data@, read_len: self.read_len }
    }
}

/// Whether a frame is a channel-select write.
pub open spec fn is_select(frame: BusFrameModel) -> bool {
    frame.kind is SelectWrite
}

/// The select frame that routes a channel.
pub open spec fn select_frame(mux_address: u8, channel: Channel) -> BusFrameModel {
    BusFrameModel {
        address: mux_address,
        kind: FrameKind::SelectWrite,
        data: seq![channel_bits(channel)],
        read_len: 0,
    }
}

/// The frame of one transfer against a target device.
pub open spec fn transfer_frame(address: u8, op: OperationModel) -> BusFrameModel {
    match op {
        OperationModel::Read { len } => BusFrameModel {
            address,
            kind: FrameKind::DataRead,
            data: Seq::<u8>::empty(),
            read_len: len,
        },
        OperationModel::Write { data } => BusFrameModel {
            address,
            kind: FrameKind::DataWrite,
            data,
            read_len: 0,
        },
        OperationModel::WriteRead { data, read_len } => BusFrameModel {
            address,
            kind: FrameKind::DataWriteRead,
            data,
            read_len,
        },
    }
}

/// Whether a transaction for this device must select its channel first:
/// only when the device sits behind the multiplexer and the cache does
/// not already show its channel. Devices with no multiplexer bypass
/// channel-select entirely.
pub open spec fn needs_select(cache: MuxCache, device: DeviceHandle) -> bool {
    match device.channel {
        Option::None => false,
        Option::Some(c) => cache != MuxCache::Selected(c),
    }
}

/// The channel the multiplexer is known to route after a transaction: the
/// device's channel on success, unknown after either failure.
pub open spec fn cache_after(
    cache: MuxCache,
    device: DeviceHandle,
    outcome: TransferOutcomeModel,
) -> MuxCache {
    match outcome {
        TransferOutcomeModel::Success { response } => match device.channel {
            Option::Some(c) => MuxCache::Selected(c),
            Option::None => cache,
        },
        TransferOutcomeModel::MultiplexerFault => MuxCache::Unknown,
        TransferOutcomeModel::DeviceFault => MuxCache::Unknown,
    }
}

/// The wire frames one transaction issues: the select write where one is
/// needed, then the transfer — unless the select itself failed, in which
/// case the transfer never reaches the wire.
pub open spec fn txn_frames(
    mux_address: u8,
    device: DeviceHandle,
    op: OperationModel,
    select_needed: bool,
    outcome: TransferOutcomeModel,
) -> Seq<BusFrameModel> {
    let select = if select_needed {
        match device.channel {
            Option::Some(c) => seq![select_frame(mux_address, c)],
            Option::None => Seq::<BusFrameModel>::empty(),
        }
    } else {
        Seq::<BusFrameModel>::empty()
    };
    if outcome is MultiplexerFault {
        select
    } else {
        select + seq![transfer_frame(device.address, op)]
    }
}

/// One planned transaction, fixed when it begins: the device, the
/// operation, and whether a channel select is owed first.
pub struct Transaction {
    pub device: DeviceHandle,
    pub operation: Operation,
    pub select_needed: bool,
}

/// What a legal outcome report must satisfy: a multiplexer fault can only
/// come from a transaction that selected, and a success returns exactly
/// the bytes the operation reads.
pub open spec fn outcome_fits(
    outcome: TransferOutcomeModel,
    op: OperationModel,
    select_needed: bool,
) -> bool {
    &&& (outcome is MultiplexerFault ==> select_needed)
    &&& (outcome matches TransferOutcomeModel::Success { response } ==> response.len()
        == read_len_of(op))
}

/// The whole effect of one completed transaction on the arbiter and its
/// caller: the lock is free again, the wire log grew by exactly this
/// transaction's frames, the cache reflects the outcome, and the result
/// reports the response or the distinguished failure.
pub open spec fn perform_post(
    pre: BusArbiter,
    post: BusArbiter,
    device: DeviceHandle,
    op: OperationModel,
    select_needed: bool,
    outcome: TransferOutcomeModel,
    r: Result<Vec<u8>, BusError>,
) -> bool {
    &&& !post.busy
    &&& post.mux_address == pre.mux_address
    &&& post.wire_log() == pre.wire_log() + txn_frames(
        pre.mux_address,
        device,
        op,
        select_needed,
        outcome,
    )
    &&& post.cache == cache_after(pre.cache, device, outcome)
    &&& match outcome {
        TransferOutcomeModel::Success { response } => r matches Ok(data) && data@ == response,
        TransferOutcomeModel::MultiplexerFault => r == Err::<Vec<u8>, BusError>(
            BusError::MultiplexerFault,
        ),
        TransferOutcomeModel::DeviceFault => r == Err::<Vec<u8>, BusError>(BusError::DeviceFault),
    }
}

/// The bus arbiter: the one owner of the physical bus and of the
/// multiplexer cache; the two change together, only here.
pub struct BusArbiter {
    /// What the multiplexer is known to route.
    pub cache: MuxCache,
    /// Whether a transaction is under way; while it is, no other begins.
    pub busy: bool,
    /// The multiplexer chip's own 7-bit bus address.
    pub mux_address: u8,
    /// Every wire transfer issued so far, in order.
    pub log: Vec<BusFrame>,
}

impl BusArbiter {
    /// The wire transfers issued so far, oldest first.
    pub open spec fn wire_log(&self) -> Seq<BusFrameModel> {
        self.log@.map_values(|f: BusFrame| f@)
    }

    /// A fresh arbiter for the multiplexer at this address. At power-on
    /// the multiplexer routes no channel.
    pub fn new(mux_address: u8) -> (r: BusArbiter)
        requires
            mux_address < 128,
        ensures
            r.cache == MuxCache::Selected(Channel::Disabled),
            !r.busy,
            r.mux_address == mux_address,
            r.wire_log() == Seq::<BusFrameModel>::empty(),
    {
        let r = BusArbiter {
            cache: MuxCache::Selected(Channel::Disabled),
            busy: false,
            mux_address,
            log: Vec::new(),
        };
        proof {
            assert(r.wire_log() =~= Seq::<BusFrameModel>::empty());
        }
        r
    }

    /// Begins a transaction if none is under way, acquiring the exclusive
    /// lock and planning whether a channel select is owed; a busy bus
    /// turns the caller away to retry, which is its suspension.
    pub fn try_begin(&mut self, device: DeviceHandle, operation: Operation) -> (r: Option<
        Transaction,
    >)
        ensures
            final(self).cache == old(self).cache,
            final(self).mux_address == old(self).mux_address,
            final(self).wire_log() == old(self).wire_log(),
            old(self).busy ==> r is None && final(self).busy == old(self).busy,
            !old(self).busy ==> {
                &&& final(self).busy
                &&& (r matches Some(t) && t.device == device && t.operation@ == operation@
                    && t.select_needed == needs_select(old(self).cache, device))
            },
    {
        if self.busy {
            None
        } else {
            self.busy = true;
            let select_needed = match (self.cache, device.channel) {
                (_, None) => false,
                (MuxCache::Unknown, Some(_)) => true,
                (MuxCache::Selected(c0), Some(c)) => c0 != c,
            };
            Some(Transaction { device, operation, select_needed })
        }
    }

    /// Completes a transaction with the outcome the caller observed on
    /// the hardware: records the frames that reached the wire, updates
    /// the cache — invalidating it on either failure — and releases the
    /// lock.
    pub fn complete(&mut self, transaction: Transaction, outcome: TransferOutcome) -> (r: Result<
        Vec<u8>,
        BusError,
    >)
        requires
            old(self).busy,
            transaction.select_needed == needs_select(old(self).cache, transaction.device),
            outcome_fits(outcome@, transaction.operation@, transaction.select_needed),
        ensures
            perform_post(
                *old(self),
                *final(self),
                transaction.device,
                transaction.operation@,
                transaction.select_needed,
                outcome@,
                r,
            ),
    {
        let ghost pre = *self;
        if transaction.select_needed {
            let channel = match transaction.device.channel {
                Some(c) => c,
                None => Channel::Disabled,
            };
            let mut data: Vec<u8> = Vec::new();
            data.push(channel_control_byte(channel));
            self.log.push(
                BusFrame {
                    address: self.mux_address,
                    kind: FrameKind::SelectWrite,
                    data,
                    read_len: 0,
                },
            );
        }
        let issued_transfer = match &outcome {
            TransferOutcome::MultiplexerFault => false,
            _ => true,
        };
        if issued_transfer {
            let frame = match transaction.operation {
                Operation::Read { len } => BusFrame {
                    address: transaction.device.address,
                    kind: FrameKind::DataRead,
                    data: Vec::new(),
                    read_len: len,
                },
                Operation::Write { data } => BusFrame {
                    address: transaction.device.address,
                    kind: FrameKind::DataWrite,
                    data,
                    read_len: 0,
                },
                Operation::WriteRead { data, read_len } => BusFrame {
                    address: transaction.device.address,
                    kind: FrameKind::DataWriteRead,
                    data,
                    read_len,
                },
            };
            self.log.push(frame);
        }
        self.busy = false;
        proof {
            assert(self.wire_log() =~= pre.wire_log() + txn_frames(
                pre.mux_address,
                transaction.device,
                transaction.operation@,
                transaction.select_needed,
                outcome@,
            ));
        }
        match outcome {
            TransferOutcome::Success { response } => {
                self.cache = match transaction.device.channel {
                    Some(c) => MuxCache::Selected(c),
                    None => self.cache,
                };
                Ok(response)
            },
            TransferOutcome::MultiplexerFault => {
                self.cache = MuxCache::Unknown;
                Err(BusError::MultiplexerFault)
            },
            TransferOutcome::DeviceFault => {
                self.cache = MuxCache::Unknown;
                Err(BusError::DeviceFault)
            },
        }
    }

    /// One whole transaction: acquire the lock, select the channel where
    /// the cache does not already show it, run the operation against the
    /// device, release the lock. The caller reports what the hardware
    /// did.
    pub fn perform(
        &mut self,
        device: DeviceHandle,
        operation: Operation,
        outcome: TransferOutcome,
    ) -> (r: Result<Vec<u8>, BusError>)
        requires
            !old(self).busy,
            outcome_fits(outcome@, operation@, needs_select(old(self).cache, device)),
        ensures
            perform_post(
                *old(self),
                *final(self),
                device,
                operation@,
                needs_select(old(self).cache, device),
                outcome@,
                r,
            ),
    {
        let transaction = match self.try_begin(device, operation) {
            Some(t) => t,
            None => Transaction {
                device,
                operation: Operation::Read { len: 0 },
                select_needed: false,
            },
        };
        self.complete(transaction, outcome)
    }
}

impl DeviceHandle {
    /// A handle for the device behind this channel at this 7-bit address.
    pub fn new(channel: Option<Channel>, address: u8) -> (r: DeviceHandle)
        requires
            address < 128,
        ensures
            r.channel == channel,
            r.address == address,
    {
        DeviceHandle { channel, address }
    }

    /// Reads bytes from the device in one arbitrated transaction.
    pub fn read(&self, arbiter: &mut BusArbiter, len: usize, outcome: TransferOutcome) -> (r:
        Result<Vec<u8>, BusError>)
        requires
            !old(arbiter).busy,
            outcome_fits(
                outcome@,
                OperationModel::Read { len },
                needs_select(old(arbiter).cache, *self),
            ),
        ensures
            perform_post(
                *old(arbiter),
                *final(arbiter),
                *self,
                OperationModel::Read { len },
                needs_select(old(arbiter).cache, *self),
                outcome@,
                r,
            ),
    {
        arbiter.perform(*self, Operation::Read { len }, outcome)
    }

    /// Writes bytes to the device in one arbitrated transaction.
    pub fn write(&self, arbiter: &mut BusArbiter, data: Vec<u8>, outcome: TransferOutcome) -> (r:
        Result<Vec<u8>, BusError>)
        requires
            !old(arbiter).busy,
            outcome_fits(
                outcome@,
                OperationModel::Write { data: data@ },
                needs_select(old(arbiter).cache, *self),
            ),
        ensures
            perform_post(
                *old(arbiter),
                *final(arbiter),
                *self,
                OperationModel::Write { data: data@ },
                needs_select(old(arbiter).cache, *self),
                outcome@,
                r,
            ),
    {
        arbiter.perform(*self, Operation::Write { data }, outcome)
    }

    /// Writes, then reads back, in one arbitrated transaction, so a
    /// multi-step device protocol cannot lose its channel mid-sequence.
    pub fn write_read(
        &self,
        arbiter: &mut BusArbiter,
        data: Vec<u8>,
        read_len: usize,
        outcome: TransferOutcome,
    ) -> (r: Result<Vec<u8>, BusError>)
        requires
            !old(arbiter).busy,
            outcome_fits(
                outcome@,
                OperationModel::WriteRead { data: data@, read_len },
                needs_select(old(arbiter).cache, *self),
            ),
        ensures
            perform_post(
                *old(arbiter),
                *final(arbiter),
                *self,
                OperationModel::WriteRead { data: data@, read_len },
                needs_select(old(arbiter).cache, *self),
                outcome@,
                r,
            ),
    {
        arbiter.perform(*self, Operation::WriteRead { data, read_len }, outcome)
    }
}

/// Counts the channel-select writes in a run of frames.
pub open spec fn select_count(frames: Seq<BusFrameModel>) -> nat
    decreases frames.len(),
{
    if frames.len() == 0 {
        0
    } else {
        (if is_select(frames.first()) {
            1nat
        } else {
            0nat
        }) + select_count(frames.drop_first())
    }
}

/// Select writes count up over concatenation.
proof fn lemma_select_count_add(a: Seq<BusFrameModel>, b: Seq<BusFrameModel>)
    ensures
        select_count(a + b) == select_count(a) + select_count(b),
    decreases a.len(),
{
    if a.len() == 0 {
        assert(a + b =~= b);
    } else {
        assert((a + b).first() == a.first());
        assert((a + b).drop_first() =~= a.drop_first() + b);
        lemma_select_count_add(a.drop_first(), b);
    }
}

/// A one-frame run holds one select write or none.
proof fn lemma_select_count_single(frame: BusFrameModel)
    ensures
        select_count(seq![frame]) == if is_select(frame) {
            1nat
        } else {
            0nat
        },
{
    let s = seq![frame];
    assert(s.len() == 1 && s.first() == frame);
    assert(s.drop_first() =~= Seq::<BusFrameModel>::empty());
    assert(select_count(s.drop_first()) == 0);
}

/// Transaction coalescing: when two transactions on the same device
/// channel complete in a row, both successfully, the second adds no
/// channel-select write to the wire log, and the two together issue
/// exactly one — or none at all where the cache already showed the
/// channel when the first began — never two.
pub proof fn lemma_transaction_coalescing(
    pre: BusArbiter,
    mid: BusArbiter,
    post: BusArbiter,
    device: DeviceHandle,
    op1: OperationModel,
    op2: OperationModel,
    r1: Seq<u8>,
    r2: Seq<u8>,
    res1: Result<Vec<u8>, BusError>,
    res2: Result<Vec<u8>, BusError>,
)
    requires
        device.channel is Some,
        perform_post(
            pre,
            mid,
            device,
            op1,
            needs_select(pre.cache, device),
            (TransferOutcomeModel::Success { response: r1 }),
            res1,
        ),
        perform_post(
            mid,
            post,
            device,
            op2,
            needs_select(mid.cache, device),
            (TransferOutcomeModel::Success { response: r2 }),
            res2,
        ),
    ensures
        select_count(post.wire_log().skip(mid.wire_log().len() as int)) == 0,
        select_count(post.wire_log().skip(pre.wire_log().len() as int)) == if needs_select(
            pre.cache,
            device,
        ) {
            1nat
        } else {
            0nat
        },
{
    let outcome1 = TransferOutcomeModel::Success { response: r1 };
    let outcome2 = TransferOutcomeModel::Success { response: r2 };
    let first = txn_frames(pre.mux_address, device, op1, needs_select(pre.cache, device), outcome1);
    let second = txn_frames(pre.mux_address, device, op2, needs_select(mid.cache, device), outcome2);
    let channel = device.channel->Some_0;
    assert(mid.cache == MuxCache::Selected(channel));
    assert(!needs_select(mid.cache, device));
    assert(second =~= seq![transfer_frame(device.address, op2)]);
    assert(post.wire_log().skip(mid.wire_log().len() as int) =~= second);
    assert(post.wire_log().skip(pre.wire_log().len() as int) =~= first + second);
    lemma_select_count_single(transfer_frame(device.address, op2));
    lemma_select_count_single(transfer_frame(device.address, op1));
    if needs_select(pre.cache, device) {
        assert(first =~= seq![select_frame(pre.mux_address, channel)] + seq![
            transfer_frame(device.address, op1),
        ]);
        lemma_select_count_single(select_frame(pre.mux_address, channel));
        lemma_select_count_add(
            seq![select_frame(pre.mux_address, channel)],
            seq![transfer_frame(device.address, op1)],
        );
    } else {
        assert(first =~= seq![transfer_frame(device.address, op1)]);
    }
    lemma_select_count_add(first, second);
}

/// Serialized transactions never interleave on the wire: when one
/// transaction completes and then another does, the wire log is the
/// untouched prefix, then the first transaction's whole block, then the
/// second's — the second's select-and-transfer sequence starts only
/// after the first fully completes, whatever either outcome was.
pub proof fn lemma_transactions_not_interleaved(
    pre: BusArbiter,
    mid: BusArbiter,
    post: BusArbiter,
    device1: DeviceHandle,
    device2: DeviceHandle,
    op1: OperationModel,
    op2: OperationModel,
    outcome1: TransferOutcomeModel,
    outcome2: TransferOutcomeModel,
    res1: Result<Vec<u8>, BusError>,
    res2: Result<Vec<u8>, BusError>,
)
    requires
        perform_post(pre, mid, device1, op1, needs_select(pre.cache, device1), outcome1, res1),
        perform_post(mid, post, device2, op2, needs_select(mid.cache, device2), outcome2, res2),
    ensures
        ({
            let first = txn_frames(
                pre.mux_address,
                device1,
                op1,
                needs_select(pre.cache, device1),
                outcome1,
            );
            let second = txn_frames(
                pre.mux_address,
                device2,
                op2,
                needs_select(mid.cache, device2),
                outcome2,
            );
            &&& post.wire_log() == pre.wire_log() + first + second
            &&& post.wire_log().subrange(
                pre.wire_log().len() as int,
                (pre.wire_log().len() + first.len()) as int,
            ) == first
            &&& post.wire_log().subrange(
                (pre.wire_log().len() + first.len()) as int,
                post.wire_log().len() as int,
            ) == second
        }),
{
    let first = txn_frames(pre.mux_address, device1, op1, needs_select(pre.cache, device1), outcome1);
    let second = txn_frames(pre.mux_address, device2, op2, needs_select(mid.cache, device2), outcome2);
    assert(post.wire_log() =~= pre.wire_log() + first + second);
    assert(post.wire_log().subrange(
        pre.wire_log().len() as int,
        (pre.wire_log().len() + first.len()) as int,
    ) =~= first);
    assert(post.wire_log().subrange(
        (pre.wire_log().len() + first.len()) as int,
        post.wire_log().len() as int,
    ) =~= second);
}

} // verus!
