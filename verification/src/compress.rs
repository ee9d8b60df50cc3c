//! Writing a container: the header with a gap for the length of the coded
//! data, the coded data through the pump, and then the length into the gap.
//!
//! The length of the coded data stands in front of the data, so that a
//! reader can step over a container without decoding it, and is known only
//! when the data is written. Hence the sink must be able to seek.

use crate::endian::{le_bytes_u64, lemma_u64_value_of_bytes, u64_to_le};
use crate::header::{header_bytes, header_of, ContainerHeader, HEADER_LEN};
use crate::props::{lemma_params_round_trip, props_of, write_props, CodecParameters};
use crate::pump::{lemma_pump_keeps_consistent, lzma_stream_raw, pump_accepts, pump_action};
use crate::pump::{pump_next, Fault, Pump, PumpAction, PumpEvent, PumpView, PRESET_DEFAULT};
use vstd::prelude::*;
use vstd::slice::slice_to_vec;

verus! {

/// Where the writing of a container stands. Each stage but the first and
/// the last two waits for the report of one action.
#[derive(Clone, Copy, Debug, PartialEq, Eq, Structural)]
pub enum CompressStage {
    /// Not started.
    Idle,
    /// The coder's preset parameters were asked for.
    Preset,
    /// The parameter record is being written.
    Props,
    /// The source's position was asked for.
    SourceStart,
    /// The source's end was asked for.
    SourceEnd,
    /// The source is being put back where it stood.
    SourceRewind,
    /// The length of the plain data is being written.
    Length,
    /// The sink's position, where the gap will be, was asked for.
    Slot,
    /// The gap is being written.
    Placeholder,
    /// The sink's position behind the gap was asked for.
    BodyStart,
    /// The encoder was asked for.
    Opening,
    /// The pump is at work on the plain data.
    Pumping,
    /// The sink's position behind the coded data was asked for.
    BodyEnd,
    /// The sink is being moved to the gap.
    SeekSlot,
    /// The length of the coded data is being written into the gap.
    Patch,
    /// The sink is being moved back behind the coded data.
    Restore,
    /// The container is complete.
    Done,
    /// The writing was given up.
    Failed,
}

/// What the writer of a container asks its driver to do.
#[derive(Debug, PartialEq, Eq)]
pub enum CompressAction {
    /// Ask the coder for the parameters of preset `level` and report them
    /// with [`CompressEvent::Preset`].
    Preset { level: u32 },
    /// Write these bytes to the sink, all of them, and report with
    /// [`CompressEvent::Emitted`].
    Emit(Vec<u8>),
    /// Report the source's position with [`CompressEvent::Position`].
    SourcePosition,
    /// Move the source to its end and report that position with
    /// [`CompressEvent::Position`].
    SourceSeekEnd,
    /// Move the source to this position and report with
    /// [`CompressEvent::Sought`].
    SourceSeek(u64),
    /// Report the sink's position with [`CompressEvent::Position`].
    SinkPosition,
    /// Move the sink to this position and report with
    /// [`CompressEvent::Sought`].
    SinkSeek(u64),
    /// Set up a raw encoder with LZMA1 as its only filter, whose options are
    /// those of `preset` with these four parameters, and report with
    /// [`CompressEvent::Opened`]. The encoder is to be released when the
    /// writing ends, however it ends.
    OpenEncoder { preset: u32, params: CodecParameters },
    /// Do what the pump asks and report with [`CompressEvent::Pump`].
    Pump(PumpAction),
    /// The container is written and the sink stands behind it.
    Done,
    /// The writing is given up.
    Fail(Fault),
}

/// A request of the writer as contracts see it: the bytes of
/// [`CompressAction::Emit`] as a sequence.
pub enum CompressRequest {
    Preset { level: u32 },
    Emit(Seq<u8>),
    SourcePosition,
    SourceSeekEnd,
    SourceSeek(u64),
    SinkPosition,
    SinkSeek(u64),
    OpenEncoder { preset: u32, params: CodecParameters },
    Pump(PumpAction),
    Done,
    Fail(Fault),
}

impl View for CompressAction {
    type V = CompressRequest;

    open spec fn view(&self) -> CompressRequest {
        match *self {
            CompressAction::Preset { level } => CompressRequest::Preset { level },
            CompressAction::Emit(bytes) => CompressRequest::Emit(bytes@),
            CompressAction::SourcePosition => CompressRequest::SourcePosition,
            CompressAction::SourceSeekEnd => CompressRequest::SourceSeekEnd,
            CompressAction::SourceSeek(position) => CompressRequest::SourceSeek(position),
            CompressAction::SinkPosition => CompressRequest::SinkPosition,
            CompressAction::SinkSeek(position) => CompressRequest::SinkSeek(position),
            CompressAction::OpenEncoder { preset, params } => CompressRequest::OpenEncoder {
                preset,
                params,
            },
            CompressAction::Pump(action) => CompressRequest::Pump(action),
            CompressAction::Done => CompressRequest::Done,
            CompressAction::Fail(fault) => CompressRequest::Fail(fault),
        }
    }
}

/// What the driver reports to the writer of a container.
#[derive(Clone, Copy, Debug)]
pub enum CompressEvent<'a> {
    /// The writing begins; what the source holds from its position to its
    /// end is the plain data.
    Start,
    /// The parameters of the preset.
    Preset(CodecParameters),
    /// The bytes were written.
    Emitted,
    /// The position that was asked for, in bytes from the start.
    Position(u64),
    /// The source or the sink was moved.
    Sought,
    /// The encoder is set up, or could not be: then its first call will say.
    Opened,
    /// How the pump's action went.
    Pump(PumpEvent<'a>),
}

/// The writer of a container as contracts see it.
pub struct CompressorView {
    /// Where the writing stands.
    pub stage: CompressStage,
    /// The parameters that the data is coded with.
    pub params: CodecParameters,
    /// Where the source stood at the start.
    pub source_start: u64,
    /// The length of the plain data.
    pub uncompressed_length: u64,
    /// The sink's position of the gap.
    pub slot: u64,
    /// The sink's position of the first byte of coded data.
    pub body_start: u64,
    /// The sink's position behind the last byte of coded data.
    pub body_end: u64,
    /// The pump.
    pub pump: PumpView,
    /// The header as the sink holds it once the action asked for is done.
    pub image: Seq<u8>,
}

/// The gap that holds the place of the length of the coded data.
pub open spec fn placeholder() -> Seq<u8> {
    seq![0u8, 0u8, 0u8, 0u8, 0u8, 0u8, 0u8, 0u8]
}

impl CompressorView {
    /// The state before anything has happened.
    pub open spec fn initial() -> CompressorView {
        CompressorView {
            stage: CompressStage::Idle,
            params: CodecParameters { lc: 0, lp: 0, pb: 0, dict_size: 0 },
            source_start: 0,
            uncompressed_length: 0,
            slot: 0,
            body_start: 0,
            body_end: 0,
            pump: PumpView::initial(),
            image: Seq::empty(),
        }
    }

    /// The header that the finished container has.
    pub open spec fn header(self) -> ContainerHeader {
        ContainerHeader {
            params: self.params,
            uncompressed_length: self.uncompressed_length,
            compressed_length: (self.body_end - self.body_start) as u64,
        }
    }

    /// The bookkeeping agrees with what was written: the header grows field
    /// by field, and in the end the gap holds the distance between the two
    /// positions that enclose the coded data.
    pub open spec fn consistent(self) -> bool {
        &&& self.pump.consistent()
        &&& match self.stage {
            CompressStage::Idle | CompressStage::Preset => self.image.len() == 0,
            CompressStage::Props
            | CompressStage::SourceStart
            | CompressStage::SourceEnd
            | CompressStage::SourceRewind => {
                &&& self.params.encodable()
                &&& self.image == props_of(self.params)
            },
            CompressStage::Length | CompressStage::Slot => {
                &&& self.params.encodable()
                &&& self.image == props_of(self.params) + le_bytes_u64(self.uncompressed_length)
            },
            CompressStage::Patch | CompressStage::Restore | CompressStage::Done => {
                &&& self.params.encodable()
                &&& self.body_start <= self.body_end
                &&& self.image == header_bytes(self.header())
            },
            _ => {
                &&& self.params.encodable()
                &&& self.image == props_of(self.params) + le_bytes_u64(self.uncompressed_length)
                    + placeholder()
            },
        }
        &&& self.stage == CompressStage::SeekSlot ==> self.body_start <= self.body_end
        &&& stage_before_pump(self.stage) ==> self.pump == PumpView::initial()
    }
}

/// The pump has not started.
pub open spec fn stage_before_pump(stage: CompressStage) -> bool {
    match stage {
        CompressStage::Idle
        | CompressStage::Preset
        | CompressStage::Props
        | CompressStage::SourceStart
        | CompressStage::SourceEnd
        | CompressStage::SourceRewind
        | CompressStage::Length
        | CompressStage::Slot
        | CompressStage::Placeholder
        | CompressStage::BodyStart
        | CompressStage::Opening => true,
        _ => false,
    }
}

/// The pump's request as a request of the writer: when the pump is done the
/// writer wants to know where the coded data ends.
pub open spec fn relayed(action: PumpAction) -> CompressRequest {
    match action {
        PumpAction::Done => CompressRequest::SinkPosition,
        PumpAction::Fail(fault) => CompressRequest::Fail(fault),
        other => CompressRequest::Pump(other),
    }
}

/// The stage that the pump's request leaves the writer in.
pub open spec fn stage_after(action: PumpAction) -> CompressStage {
    match action {
        PumpAction::Done => CompressStage::BodyEnd,
        PumpAction::Fail(_) => CompressStage::Failed,
        _ => CompressStage::Pumping,
    }
}

/// The event answers the action that the writer is waiting on. The preset's
/// parameters must fit their record, the source's end cannot lie before its
/// position, and the coded data cannot end before it starts.
pub open spec fn compress_accepts(writer: CompressorView, event: CompressEvent) -> bool {
    match (writer.stage, event) {
        (CompressStage::Idle, CompressEvent::Start) => true,
        (CompressStage::Preset, CompressEvent::Preset(params)) => params.encodable(),
        (CompressStage::Props, CompressEvent::Emitted) => true,
        (CompressStage::SourceStart, CompressEvent::Position(position)) => true,
        (CompressStage::SourceEnd, CompressEvent::Position(position)) => writer.source_start
            <= position,
        (CompressStage::SourceRewind, CompressEvent::Sought) => true,
        (CompressStage::Length, CompressEvent::Emitted) => true,
        (CompressStage::Slot, CompressEvent::Position(position)) => true,
        (CompressStage::Placeholder, CompressEvent::Emitted) => true,
        (CompressStage::BodyStart, CompressEvent::Position(position)) => true,
        (CompressStage::Opening, CompressEvent::Opened) => true,
        (CompressStage::Pumping, CompressEvent::Pump(report)) => !(report is Start)
            && pump_accepts(writer.pump, report),
        (CompressStage::BodyEnd, CompressEvent::Position(position)) => writer.body_start
            <= position,
        (CompressStage::SeekSlot, CompressEvent::Sought) => true,
        (CompressStage::Patch, CompressEvent::Emitted) => true,
        (CompressStage::Restore, CompressEvent::Sought) => true,
        _ => false,
    }
}

/// The state after an accepted event.
pub open spec fn compress_next(writer: CompressorView, event: CompressEvent) -> CompressorView {
    match (writer.stage, event) {
        (CompressStage::Idle, CompressEvent::Start) => CompressorView {
            stage: CompressStage::Preset,
            ..writer
        },
        (CompressStage::Preset, CompressEvent::Preset(params)) => CompressorView {
            stage: CompressStage::Props,
            params,
            image: props_of(params),
            ..writer
        },
        (CompressStage::Props, CompressEvent::Emitted) => CompressorView {
            stage: CompressStage::SourceStart,
            ..writer
        },
        (CompressStage::SourceStart, CompressEvent::Position(position)) => CompressorView {
            stage: CompressStage::SourceEnd,
            source_start: position,
            ..writer
        },
        (CompressStage::SourceEnd, CompressEvent::Position(position)) => CompressorView {
            stage: CompressStage::SourceRewind,
            uncompressed_length: (position - writer.source_start) as u64,
            ..writer
        },
        (CompressStage::SourceRewind, CompressEvent::Sought) => CompressorView {
            stage: CompressStage::Length,
            image: writer.image + le_bytes_u64(writer.uncompressed_length),
            ..writer
        },
        (CompressStage::Length, CompressEvent::Emitted) => CompressorView {
            stage: CompressStage::Slot,
            ..writer
        },
        (CompressStage::Slot, CompressEvent::Position(position)) => CompressorView {
            stage: CompressStage::Placeholder,
            slot: position,
            image: writer.image + placeholder(),
            ..writer
        },
        (CompressStage::Placeholder, CompressEvent::Emitted) => CompressorView {
            stage: CompressStage::BodyStart,
            ..writer
        },
        (CompressStage::BodyStart, CompressEvent::Position(position)) => CompressorView {
            stage: CompressStage::Opening,
            body_start: position,
            ..writer
        },
        (CompressStage::Opening, CompressEvent::Opened) => CompressorView {
            stage: CompressStage::Pumping,
            pump: pump_next(writer.pump, PumpEvent::Start),
            ..writer
        },
        (CompressStage::Pumping, CompressEvent::Pump(report)) => CompressorView {
            stage: stage_after(pump_action(writer.pump, report)),
            pump: pump_next(writer.pump, report),
            ..writer
        },
        (CompressStage::BodyEnd, CompressEvent::Position(position)) => CompressorView {
            stage: CompressStage::SeekSlot,
            body_end: position,
            ..writer
        },
        (CompressStage::SeekSlot, CompressEvent::Sought) => CompressorView {
            stage: CompressStage::Patch,
            image: writer.image.subrange(0, 13) + le_bytes_u64(
                (writer.body_end - writer.body_start) as u64,
            ),
            ..writer
        },
        (CompressStage::Patch, CompressEvent::Emitted) => CompressorView {
            stage: CompressStage::Restore,
            ..writer
        },
        (CompressStage::Restore, CompressEvent::Sought) => CompressorView {
            stage: CompressStage::Done,
            ..writer
        },
        _ => writer,
    }
}

/// The action that the writer asks for upon an accepted event.
pub open spec fn compress_action(writer: CompressorView, event: CompressEvent) -> CompressRequest {
    match (writer.stage, event) {
        (CompressStage::Idle, CompressEvent::Start) => CompressRequest::Preset {
            level: PRESET_DEFAULT,
        },
        (CompressStage::Preset, CompressEvent::Preset(params)) => CompressRequest::Emit(
            props_of(params),
        ),
        (CompressStage::Props, CompressEvent::Emitted) => CompressRequest::SourcePosition,
        (CompressStage::SourceStart, CompressEvent::Position(position)) => {
            CompressRequest::SourceSeekEnd
        },
        (CompressStage::SourceEnd, CompressEvent::Position(position)) => {
            CompressRequest::SourceSeek(writer.source_start)
        },
        (CompressStage::SourceRewind, CompressEvent::Sought) => CompressRequest::Emit(
            le_bytes_u64(writer.uncompressed_length),
        ),
        (CompressStage::Length, CompressEvent::Emitted) => CompressRequest::SinkPosition,
        (CompressStage::Slot, CompressEvent::Position(position)) => CompressRequest::Emit(
            placeholder(),
        ),
        (CompressStage::Placeholder, CompressEvent::Emitted) => CompressRequest::SinkPosition,
        (CompressStage::BodyStart, CompressEvent::Position(position)) => {
            CompressRequest::OpenEncoder { preset: PRESET_DEFAULT, params: writer.params }
        },
        (CompressStage::Opening, CompressEvent::Opened) => relayed(
            pump_action(writer.pump, PumpEvent::Start),
        ),
        (CompressStage::Pumping, CompressEvent::Pump(report)) => relayed(
            pump_action(writer.pump, report),
        ),
        (CompressStage::BodyEnd, CompressEvent::Position(position)) => CompressRequest::SinkSeek(
            writer.slot,
        ),
        (CompressStage::SeekSlot, CompressEvent::Sought) => CompressRequest::Emit(
            le_bytes_u64((writer.body_end - writer.body_start) as u64),
        ),
        (CompressStage::Patch, CompressEvent::Emitted) => CompressRequest::SinkSeek(
            writer.body_end,
        ),
        (CompressStage::Restore, CompressEvent::Sought) => CompressRequest::Done,
        _ => arbitrary(),
    }
}

/// No accepted event breaks the writer's bookkeeping.
pub proof fn lemma_compress_keeps_consistent(writer: CompressorView, event: CompressEvent)
    requires
        writer.consistent(),
        compress_accepts(writer, event),
    ensures
        compress_next(writer, event).consistent(),
{
    let next = compress_next(writer, event);
    match (writer.stage, event) {
        (CompressStage::Opening, CompressEvent::Opened) => {
            lemma_pump_keeps_consistent(writer.pump, PumpEvent::Start);
        },
        (CompressStage::Pumping, CompressEvent::Pump(report)) => {
            lemma_pump_keeps_consistent(writer.pump, report);
        },
        (CompressStage::SeekSlot, CompressEvent::Sought) => {
            assert(writer.image.subrange(0, 13) =~= props_of(writer.params) + le_bytes_u64(
                writer.uncompressed_length,
            ));
        },
        _ => {},
    }
}

/// Between the two positions whose distance becomes the length field, the
/// writer lets nothing touch the sink but the pump: while the coded data is
/// written every request is the pump's own, the question where the sink
/// stands, or the end by a fault, and what the pump has had written grows
/// by the length of each flush and by nothing else.
pub proof fn lemma_only_the_pump_writes_the_body(writer: CompressorView, event: CompressEvent)
    requires
        writer.consistent(),
        compress_accepts(writer, event),
        writer.stage == CompressStage::Opening || writer.stage == CompressStage::Pumping,
    ensures
        match compress_action(writer, event) {
            CompressRequest::Pump(PumpAction::Flush { len }) => compress_next(
                writer,
                event,
            ).pump.flushed == writer.pump.flushed + len,
            CompressRequest::Pump(PumpAction::Read { .. })
            | CompressRequest::Pump(PumpAction::Code { .. })
            | CompressRequest::SinkPosition
            | CompressRequest::Fail(_) => compress_next(writer, event).pump.flushed
                == writer.pump.flushed,
            _ => false,
        },
{
}

/// The length in the header of a finished container is the distance
/// between the sink's positions before and behind the coded data, and the
/// other fields are what went in.
pub proof fn lemma_finished_header(writer: CompressorView)
    requires
        writer.consistent(),
        writer.stage == CompressStage::Done,
    ensures
        writer.image.len() == HEADER_LEN,
        header_of(writer.image).compressed_length == writer.body_end - writer.body_start,
        header_of(writer.image).uncompressed_length == writer.uncompressed_length,
        writer.params.lc < 9 && writer.params.lp < 5 ==> header_of(writer.image).params
            == writer.params,
{
    let header = writer.header();
    let image = writer.image;
    assert(image.subrange(0, 5) =~= props_of(header.params));
    assert(image.subrange(5, 13) =~= le_bytes_u64(header.uncompressed_length));
    assert(image.subrange(13, 21) =~= le_bytes_u64(header.compressed_length));
    lemma_u64_value_of_bytes(header.uncompressed_length);
    lemma_u64_value_of_bytes(header.compressed_length);
    if writer.params.lc < 9 && writer.params.lp < 5 {
        lemma_params_round_trip(writer.params);
    }
}

/// The state of the writing of one container.
pub struct Compressor {
    stage: CompressStage,
    params: CodecParameters,
    source_start: u64,
    uncompressed_length: u64,
    slot: u64,
    body_start: u64,
    body_end: u64,
    pump: Pump,
    image: Ghost<Seq<u8>>,
}

impl View for Compressor {
    type V = CompressorView;

    closed spec fn view(&self) -> CompressorView {
        CompressorView {
            stage: self.stage,
            params: self.params,
            source_start: self.source_start,
            uncompressed_length: self.uncompressed_length,
            slot: self.slot,
            body_start: self.body_start,
            body_end: self.body_end,
            pump: self.pump@,
            image: self.image@,
        }
    }
}

impl Compressor {
    /// The writer is in a state that [`Compressor::new`] and
    /// [`lzma_compress`] can have left it in.
    pub closed spec fn wf(&self) -> bool {
        &&& self.pump.wf()
        &&& self@.consistent()
    }

    /// The bookkeeping of a well-formed writer agrees with what it wrote.
    pub proof fn lemma_wf_consistent(&self)
        requires
            self.wf(),
        ensures
            self@.consistent(),
    {
    }

    /// A writer that has not started.
    pub fn new() -> (writer: Self)
        ensures
            writer.wf(),
            writer@ == CompressorView::initial(),
    {
        let pump = Pump::new();
        proof {
            pump.lemma_wf_consistent();
        }
        Compressor {
            stage: CompressStage::Idle,
            params: CodecParameters { lc: 0, lp: 0, pb: 0, dict_size: 0 },
            source_start: 0,
            uncompressed_length: 0,
            slot: 0,
            body_start: 0,
            body_end: 0,
            pump,
            image: Ghost(Seq::empty()),
        }
    }

    /// Where the writing stands.
    pub fn stage(&self) -> (stage: CompressStage)
        ensures
            stage == self@.stage,
    {
        self.stage
    }

    /// The encoder's input for its next call.
    pub fn pending(&self) -> (input: &[u8])
        ensures
            input@ == self@.pump.pending,
    {
        self.pump.pending()
    }

    /// Tells whether `event` may be handed to [`lzma_compress`].
    pub fn accepts(&self, event: &CompressEvent<'_>) -> (ok: bool)
        requires
            self.wf(),
        ensures
            ok == compress_accepts(self@, *event),
    {
        match (self.stage, *event) {
            (CompressStage::Idle, CompressEvent::Start) => true,
            (CompressStage::Preset, CompressEvent::Preset(params)) => params.is_encodable(),
            (CompressStage::Props, CompressEvent::Emitted) => true,
            (CompressStage::SourceStart, CompressEvent::Position(_)) => true,
            (CompressStage::SourceEnd, CompressEvent::Position(position)) => self.source_start
                <= position,
            (CompressStage::SourceRewind, CompressEvent::Sought) => true,
            (CompressStage::Length, CompressEvent::Emitted) => true,
            (CompressStage::Slot, CompressEvent::Position(_)) => true,
            (CompressStage::Placeholder, CompressEvent::Emitted) => true,
            (CompressStage::BodyStart, CompressEvent::Position(_)) => true,
            (CompressStage::Opening, CompressEvent::Opened) => true,
            (CompressStage::Pumping, CompressEvent::Pump(report)) => {
                match report {
                    PumpEvent::Start => false,
                    _ => self.pump.accepts(&report),
                }
            },
            (CompressStage::BodyEnd, CompressEvent::Position(position)) => self.body_start
                <= position,
            (CompressStage::SeekSlot, CompressEvent::Sought) => true,
            (CompressStage::Patch, CompressEvent::Emitted) => true,
            (CompressStage::Restore, CompressEvent::Sought) => true,
            _ => false,
        }
    }
}

/// The coding stage of [`lzma_compress`]: hands `event` to the pump and
/// turns the pump's request into the writer's. When the pump is done the
/// writer asks where the coded data ends; when the pump fails, so does the
/// writer.
fn lzma_compress_raw(writer: &mut Compressor, event: PumpEvent<'_>) -> (action: CompressAction)
    requires
        old(writer).pump.wf(),
        pump_accepts(old(writer)@.pump, event),
    ensures
        final(writer).pump.wf(),
        final(writer)@ == (CompressorView {
            stage: stage_after(pump_action(old(writer)@.pump, event)),
            pump: pump_next(old(writer)@.pump, event),
            ..old(writer)@
        }),
        action@ == relayed(pump_action(old(writer)@.pump, event)),
{
    match lzma_stream_raw(&mut writer.pump, event) {
        PumpAction::Done => {
            writer.stage = CompressStage::BodyEnd;
            CompressAction::SinkPosition
        },
        PumpAction::Fail(fault) => {
            writer.stage = CompressStage::Failed;
            CompressAction::Fail(fault)
        },
        other => {
            writer.stage = CompressStage::Pumping;
            CompressAction::Pump(other)
        },
    }
}

/// Takes the report of the last action and decides the next one.
///
/// The writer takes the parameters of the default preset and writes their
/// record. It measures the plain data by the source's position and end,
/// puts the source back, and writes that length. It notes where the sink
/// stands, writes eight zero bytes there, and notes where the coded data
/// starts. The pump then moves the plain data through a raw encoder. When
/// the pump is done the writer notes where the sink stands, goes back to the
/// gap, writes the distance between the two positions into it, and leaves
/// the sink behind the coded data.
pub fn lzma_compress(writer: &mut Compressor, event: CompressEvent<'_>) -> (action: CompressAction)
    requires
        old(writer).wf(),
        compress_accepts(old(writer)@, event),
    ensures
        final(writer).wf(),
        final(writer)@ == compress_next(old(writer)@, event),
        action@ == compress_action(old(writer)@, event),
{
    proof {
        lemma_compress_keeps_consistent(writer@, event);
    }
    match (writer.stage, event) {
        (CompressStage::Idle, CompressEvent::Start) => {
            writer.stage = CompressStage::Preset;
            CompressAction::Preset { level: PRESET_DEFAULT }
        },
        (CompressStage::Preset, CompressEvent::Preset(params)) => {
            let props = write_props(&params);
            writer.params = params;
            writer.image = Ghost(props@);
            writer.stage = CompressStage::Props;
            CompressAction::Emit(slice_to_vec(props.as_slice()))
        },
        (CompressStage::Props, CompressEvent::Emitted) => {
            writer.stage = CompressStage::SourceStart;
            CompressAction::SourcePosition
        },
        (CompressStage::SourceStart, CompressEvent::Position(position)) => {
            writer.source_start = position;
            writer.stage = CompressStage::SourceEnd;
            CompressAction::SourceSeekEnd
        },
        (CompressStage::SourceEnd, CompressEvent::Position(position)) => {
            writer.uncompressed_length = position - writer.source_start;
            writer.stage = CompressStage::SourceRewind;
            CompressAction::SourceSeek(writer.source_start)
        },
        (CompressStage::SourceRewind, CompressEvent::Sought) => {
            let length = u64_to_le(writer.uncompressed_length);
            writer.image = Ghost(writer.image@ + length@);
            writer.stage = CompressStage::Length;
            CompressAction::Emit(slice_to_vec(length.as_slice()))
        },
        (CompressStage::Length, CompressEvent::Emitted) => {
            writer.stage = CompressStage::Slot;
            CompressAction::SinkPosition
        },
        (CompressStage::Slot, CompressEvent::Position(position)) => {
            let zeros = [0u8, 0u8, 0u8, 0u8, 0u8, 0u8, 0u8, 0u8];
            assert(zeros@ =~= placeholder());
            writer.slot = position;
            writer.image = Ghost(writer.image@ + placeholder());
            writer.stage = CompressStage::Placeholder;
            CompressAction::Emit(slice_to_vec(zeros.as_slice()))
        },
        (CompressStage::Placeholder, CompressEvent::Emitted) => {
            writer.stage = CompressStage::BodyStart;
            CompressAction::SinkPosition
        },
        (CompressStage::BodyStart, CompressEvent::Position(position)) => {
            writer.body_start = position;
            writer.stage = CompressStage::Opening;
            CompressAction::OpenEncoder { preset: PRESET_DEFAULT, params: writer.params }
        },
        (CompressStage::Opening, CompressEvent::Opened) => lzma_compress_raw(writer, PumpEvent::Start),
        (CompressStage::Pumping, CompressEvent::Pump(report)) => lzma_compress_raw(writer, report),
        (CompressStage::BodyEnd, CompressEvent::Position(position)) => {
            writer.body_end = position;
            writer.stage = CompressStage::SeekSlot;
            CompressAction::SinkSeek(writer.slot)
        },
        (CompressStage::SeekSlot, CompressEvent::Sought) => {
            let length = u64_to_le(writer.body_end - writer.body_start);
            writer.image = Ghost(writer.image@.subrange(0, 13) + length@);
            writer.stage = CompressStage::Patch;
            CompressAction::Emit(slice_to_vec(length.as_slice()))
        },
        (CompressStage::Patch, CompressEvent::Emitted) => {
            writer.stage = CompressStage::Restore;
            CompressAction::SinkSeek(writer.body_end)
        },
        (CompressStage::Restore, CompressEvent::Sought) => {
            writer.stage = CompressStage::Done;
            CompressAction::Done
        },
        _ => unreached(),
    }
}

} // verus!
