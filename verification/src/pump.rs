//! The pump: the decisions that move a byte stream through the raw coder.
//!
//! The coder works on two bounded buffers and may stop anywhere: it may
//! leave input unread and it may fill its output before it is done. The pump
//! keeps what was left unread in front of the next bytes from the source
//! (fill phase), and once the source is empty it lets the coder finish
//! (finish phase). It performs nothing itself: it asks for one action at a
//! time and is told how the action went.

use crate::buffer::SlideBuffer;
use vstd::prelude::*;

verus! {

/// Capacity of the input buffer and of the output buffer, in bytes.
pub const BUFFER_SIZE: usize = 65536;

/// The coder's preset that containers are written with; a decoder's options
/// start from it as well.
pub const PRESET_DEFAULT: u32 = 6;

/// The coder's status for "went well, not at the end".
pub const STATUS_OK: u32 = 0;

/// The coder's status for "the end of the stream is reached".
pub const STATUS_STREAM_END: u32 = 1;

/// The coder's status for "out of memory".
pub const STATUS_MEM_ERROR: u32 = 5;

/// How the coder is asked to work.
#[derive(Clone, Copy, Debug, PartialEq, Eq, Structural)]
pub enum Mode {
    /// More input may follow.
    Run,
    /// No more input follows.
    Finish,
}

/// Why a transfer was given up.
#[derive(Clone, Copy, Debug, PartialEq, Eq, Structural)]
pub enum Fault {
    /// The coder ran out of memory. Nothing can be recovered.
    OutOfMemory,
    /// The coder reported this status, which is neither success nor, in the
    /// finish phase, the end of the stream.
    Codec(u32),
}

/// What follows once the coder's output has been written.
#[derive(Clone, Copy, Debug, PartialEq, Eq, Structural)]
pub enum Next {
    /// Another read from the source.
    Fill,
    /// Another call of the coder in finish mode.
    Finish,
    /// Nothing: the stream is complete.
    Stop,
}

/// Where the pump stands.
#[derive(Clone, Copy, Debug, PartialEq, Eq, Structural)]
pub enum Phase {
    /// Not started.
    Idle,
    /// A read from the source was asked for.
    Filling,
    /// The coder was asked to work in this mode.
    Coding(Mode),
    /// A write of the coder's output was asked for.
    Flushing(Next),
    /// The coder reported the end of the stream and all output is written.
    Done,
    /// The transfer was given up.
    Failed,
}

/// What the pump asks its driver to do.
#[derive(Clone, Copy, Debug, PartialEq, Eq, Structural)]
pub enum PumpAction {
    /// Read once from the source, at most `max` bytes, and report the bytes
    /// read with [`PumpEvent::Filled`].
    Read { max: usize },
    /// Call the coder once in this mode. Its input is all of
    /// [`Pump::pending`], its output an empty buffer of [`BUFFER_SIZE`] bytes.
    /// Report with [`PumpEvent::Coded`].
    Code { mode: Mode },
    /// Write the first `len` bytes of the coder's output to the sink, all of
    /// them, and report with [`PumpEvent::Flushed`].
    Flush { len: usize },
    /// The transfer is complete.
    Done,
    /// The transfer is given up.
    Fail(Fault),
}

/// What the driver reports to the pump.
#[derive(Clone, Copy, Debug)]
pub enum PumpEvent<'a> {
    /// The transfer begins.
    Start,
    /// The source gave these bytes; none means that it is exhausted.
    Filled(&'a [u8]),
    /// The coder returned `status`, having read the first `consumed` bytes
    /// of its input and written `produced` bytes of output.
    Coded { status: u32, consumed: usize, produced: usize },
    /// The output was written.
    Flushed,
}

/// The pump as contracts see it.
pub struct PumpView {
    /// Where the pump stands.
    pub phase: Phase,
    /// The input that the coder gets at its next call: what earlier calls
    /// left unread, then what was read from the source since.
    pub pending: Seq<u8>,
    /// Every byte that the source has given, in order.
    pub source: Seq<u8>,
    /// How many bytes the coder has read in all.
    pub taken: nat,
    /// How many bytes of coder output were handed on to the sink in all.
    pub flushed: nat,
}

impl PumpView {
    /// Nothing is lost, repeated or reordered on the way in: the coder has
    /// read a prefix of what the source gave, and the input buffer holds
    /// exactly the rest.
    pub open spec fn consistent(self) -> bool {
        &&& self.taken <= self.source.len()
        &&& self.pending == self.source.skip(self.taken as int)
        &&& self.pending.len() <= BUFFER_SIZE
    }

    /// The state before anything has happened.
    pub open spec fn initial() -> PumpView {
        PumpView {
            phase: Phase::Idle,
            pending: Seq::empty(),
            source: Seq::empty(),
            taken: 0,
            flushed: 0,
        }
    }
}

/// The coder made progress that the pump accepts: plain success, or in the
/// finish phase the end of the stream.
pub open spec fn is_progress(mode: Mode, status: u32) -> bool {
    status == STATUS_OK || (mode == Mode::Finish && status == STATUS_STREAM_END)
}

/// What follows the write of the output of an accepted coder call.
pub open spec fn after_flush(mode: Mode, status: u32) -> Next {
    if status == STATUS_STREAM_END {
        Next::Stop
    } else if mode == Mode::Run {
        Next::Fill
    } else {
        Next::Finish
    }
}

/// The fault that a status which is no accepted progress stands for.
pub open spec fn fault_of(status: u32) -> Fault {
    if status == STATUS_MEM_ERROR {
        Fault::OutOfMemory
    } else {
        Fault::Codec(status)
    }
}

/// The event answers the action that the pump is waiting on, within the
/// bounds that the action set: a read gives no more than was asked for, and
/// a coder call that made progress read no more than its input and wrote no
/// more than its output buffer holds.
pub open spec fn pump_accepts(pump: PumpView, event: PumpEvent) -> bool {
    match (pump.phase, event) {
        (Phase::Idle, PumpEvent::Start) => true,
        (Phase::Filling, PumpEvent::Filled(data)) => data@.len() + pump.pending.len()
            <= BUFFER_SIZE,
        (Phase::Coding(mode), PumpEvent::Coded { status, consumed, produced }) => is_progress(
            mode,
            status,
        ) ==> consumed <= pump.pending.len() && produced <= BUFFER_SIZE,
        (Phase::Flushing(_), PumpEvent::Flushed) => true,
        _ => false,
    }
}

/// The state after an accepted event.
pub open spec fn pump_next(pump: PumpView, event: PumpEvent) -> PumpView {
    match (pump.phase, event) {
        (Phase::Idle, PumpEvent::Start) => PumpView { phase: Phase::Filling, ..pump },
        (Phase::Filling, PumpEvent::Filled(data)) => if data@.len() == 0 {
            PumpView { phase: Phase::Coding(Mode::Finish), ..pump }
        } else {
            PumpView {
                phase: Phase::Coding(Mode::Run),
                pending: pump.pending + data@,
                source: pump.source + data@,
                ..pump
            }
        },
        (Phase::Coding(mode), PumpEvent::Coded { status, consumed, produced }) => if is_progress(
            mode,
            status,
        ) {
            PumpView {
                phase: Phase::Flushing(after_flush(mode, status)),
                pending: pump.pending.skip(consumed as int),
                taken: pump.taken + consumed as nat,
                flushed: pump.flushed + produced as nat,
                ..pump
            }
        } else {
            PumpView { phase: Phase::Failed, ..pump }
        },
        (Phase::Flushing(Next::Fill), PumpEvent::Flushed) => PumpView {
            phase: Phase::Filling,
            ..pump
        },
        (Phase::Flushing(Next::Finish), PumpEvent::Flushed) => PumpView {
            phase: Phase::Coding(Mode::Finish),
            ..pump
        },
        (Phase::Flushing(Next::Stop), PumpEvent::Flushed) => PumpView {
            phase: Phase::Done,
            ..pump
        },
        _ => pump,
    }
}

/// The action that the pump asks for upon an accepted event.
pub open spec fn pump_action(pump: PumpView, event: PumpEvent) -> PumpAction {
    match (pump.phase, event) {
        (Phase::Idle, PumpEvent::Start) => PumpAction::Read {
            max: (BUFFER_SIZE - pump.pending.len()) as usize,
        },
        (Phase::Filling, PumpEvent::Filled(data)) => if data@.len() == 0 {
            PumpAction::Code { mode: Mode::Finish }
        } else {
            PumpAction::Code { mode: Mode::Run }
        },
        (Phase::Coding(mode), PumpEvent::Coded { status, consumed, produced }) => if is_progress(
            mode,
            status,
        ) {
            PumpAction::Flush { len: produced }
        } else {
            PumpAction::Fail(fault_of(status))
        },
        (Phase::Flushing(Next::Fill), PumpEvent::Flushed) => PumpAction::Read {
            max: (BUFFER_SIZE - pump.pending.len()) as usize,
        },
        (Phase::Flushing(Next::Finish), PumpEvent::Flushed) => PumpAction::Code {
            mode: Mode::Finish,
        },
        (Phase::Flushing(Next::Stop), PumpEvent::Flushed) => PumpAction::Done,
        _ => arbitrary(),
    }
}

/// No accepted event breaks the pump's bookkeeping: whatever the source
/// gave and the coder has not read is still in the input buffer, in order.
pub proof fn lemma_pump_keeps_consistent(pump: PumpView, event: PumpEvent)
    requires
        pump.consistent(),
        pump_accepts(pump, event),
    ensures
        pump_next(pump, event).consistent(),
{
    let next = pump_next(pump, event);
    match (pump.phase, event) {
        (Phase::Filling, PumpEvent::Filled(data)) => {
            assert(next.pending =~= next.source.skip(next.taken as int));
        },
        (Phase::Coding(mode), PumpEvent::Coded { status, consumed, produced }) => {
            assert(next.pending =~= next.source.skip(next.taken as int));
        },
        _ => {},
    }
}

/// The state of one transfer through the coder.
pub struct Pump {
    input: SlideBuffer,
    phase: Phase,
    source: Ghost<Seq<u8>>,
    taken: Ghost<nat>,
    flushed: Ghost<nat>,
}

impl View for Pump {
    type V = PumpView;

    closed spec fn view(&self) -> PumpView {
        PumpView {
            phase: self.phase,
            pending: self.input@,
            source: self.source@,
            taken: self.taken@,
            flushed: self.flushed@,
        }
    }
}

impl Pump {
    /// The pump is in a state that [`Pump::new`] and [`lzma_stream_raw`]
    /// can have left it in.
    pub closed spec fn wf(&self) -> bool {
        &&& self.input.capacity() == BUFFER_SIZE
        &&& self@.consistent()
    }

    /// A well-formed pump has lost no input.
    pub proof fn lemma_wf_consistent(&self)
        requires
            self.wf(),
        ensures
            self@.consistent(),
    {
    }

    /// A pump that has not started.
    pub fn new() -> (pump: Self)
        ensures
            pump.wf(),
            pump@ == PumpView::initial(),
    {
        let pump = Pump {
            input: SlideBuffer::new(BUFFER_SIZE),
            phase: Phase::Idle,
            source: Ghost(Seq::empty()),
            taken: Ghost(0),
            flushed: Ghost(0),
        };
        assert(pump.input@ =~= pump.source@.skip(0));
        pump
    }

    /// Where the pump stands.
    pub fn phase(&self) -> (phase: Phase)
        ensures
            phase == self@.phase,
    {
        self.phase
    }

    /// The coder's input for its next call.
    pub fn pending(&self) -> (input: &[u8])
        ensures
            input@ == self@.pending,
    {
        self.input.as_slice()
    }

    /// Tells whether `event` may be handed to [`lzma_stream_raw`].
    pub fn accepts(&self, event: &PumpEvent<'_>) -> (ok: bool)
        requires
            self.wf(),
        ensures
            ok == pump_accepts(self@, *event),
    {
        match (self.phase, *event) {
            (Phase::Idle, PumpEvent::Start) => true,
            (Phase::Filling, PumpEvent::Filled(data)) => data.len() <= self.input.room(),
            (Phase::Coding(mode), PumpEvent::Coded { status, consumed, produced }) => {
                let progress = status == STATUS_OK || (matches!(mode, Mode::Finish) && status
                    == STATUS_STREAM_END);
                !progress || (consumed <= self.input.len() && produced <= BUFFER_SIZE)
            },
            (Phase::Flushing(_), PumpEvent::Flushed) => true,
            _ => false,
        }
    }
}

/// Takes the report of the last action and decides the next one.
///
/// In the fill phase the pump asks for a read behind what the coder left
/// unread; an empty read ends the phase. Bytes that were read go to the
/// coder in run mode; on success its output is written and the input it
/// left unread moves to the front. In the finish phase the coder is called
/// in finish mode, its output written, until it reports the end of the
/// stream. Out of memory, and any status that is no progress, end the
/// transfer.
pub fn lzma_stream_raw(pump: &mut Pump, event: PumpEvent<'_>) -> (action: PumpAction)
    requires
        old(pump).wf(),
        pump_accepts(old(pump)@, event),
    ensures
        final(pump).wf(),
        final(pump)@ == pump_next(old(pump)@, event),
        action == pump_action(old(pump)@, event),
{
    proof {
        lemma_pump_keeps_consistent(pump@, event);
    }
    match (pump.phase, event) {
        (Phase::Idle, PumpEvent::Start) => {
            pump.phase = Phase::Filling;
            PumpAction::Read { max: pump.input.room() }
        },
        (Phase::Filling, PumpEvent::Filled(data)) => {
            if data.len() == 0 {
                pump.phase = Phase::Coding(Mode::Finish);
                PumpAction::Code { mode: Mode::Finish }
            } else {
                pump.input.append(data);
                pump.source = Ghost(pump.source@ + data@);
                pump.phase = Phase::Coding(Mode::Run);
                PumpAction::Code { mode: Mode::Run }
            }
        },
        (Phase::Coding(mode), PumpEvent::Coded { status, consumed, produced }) => {
            if status == STATUS_OK || (matches!(mode, Mode::Finish) && status
                == STATUS_STREAM_END) {
                pump.input.discard(consumed);
                pump.taken = Ghost(pump.taken@ + consumed as nat);
                pump.flushed = Ghost(pump.flushed@ + produced as nat);
                let next = if status == STATUS_STREAM_END {
                    Next::Stop
                } else if matches!(mode, Mode::Run) {
                    Next::Fill
                } else {
                    Next::Finish
                };
                pump.phase = Phase::Flushing(next);
                PumpAction::Flush { len: produced }
            } else if status == STATUS_MEM_ERROR {
                pump.phase = Phase::Failed;
                PumpAction::Fail(Fault::OutOfMemory)
            } else {
                pump.phase = Phase::Failed;
                PumpAction::Fail(Fault::Codec(status))
            }
        },
        (Phase::Flushing(Next::Fill), PumpEvent::Flushed) => {
            pump.phase = Phase::Filling;
            PumpAction::Read { max: pump.input.room() }
        },
        (Phase::Flushing(Next::Finish), PumpEvent::Flushed) => {
            pump.phase = Phase::Coding(Mode::Finish);
            PumpAction::Code { mode: Mode::Finish }
        },
        (Phase::Flushing(Next::Stop), PumpEvent::Flushed) => {
            pump.phase = Phase::Done;
            PumpAction::Done
        },
        _ => unreached(),
    }
}

} // verus!
