//! Reading a container: the header, then the coded data through the pump,
//! and not a byte beyond it.

use crate::compress::{CompressStage, CompressorView};
use crate::endian::{le_value_u64, lemma_u64_bytes_of_value, u64_from_le};
use crate::header::{body_of, header_of, lemma_container_split};
use crate::header::{ContainerHeader, HEADER_LEN, LENGTH_LEN};
use crate::limit::LimitReader;
use crate::props::{params_of, read_props, CodecParameters, PROPS_LEN};
use crate::pump::{lemma_pump_keeps_consistent, lzma_stream_raw, pump_accepts, pump_action};
use crate::pump::{pump_next, Fault, Pump, PumpAction, PumpEvent, PumpView, PRESET_DEFAULT};
use vstd::prelude::*;

verus! {

/// Where the reading of a container stands.
#[derive(Clone, Copy, Debug, PartialEq, Eq, Structural)]
pub enum DecompressStage {
    /// Not started.
    Idle,
    /// The parameter record was asked for.
    Props,
    /// The length of the plain data was asked for.
    UncompressedLength,
    /// The length of the coded data was asked for.
    CompressedLength,
    /// The decoder was asked for.
    Opening,
    /// The pump is at work on the coded data.
    Pumping,
    /// The coded data is decoded and written.
    Done,
    /// The reading was given up.
    Failed,
}

/// What the reader of a container asks its driver to do.
#[derive(Clone, Copy, Debug, PartialEq, Eq, Structural)]
pub enum DecompressAction {
    /// Read exactly `len` bytes from the source and report them with
    /// [`DecompressEvent::Fetched`].
    Fetch { len: usize },
    /// Set up a raw decoder with LZMA1 as its only filter, whose options are
    /// those of `preset` with these four parameters in place of the
    /// preset's, and report with [`DecompressEvent::Opened`]. The decoder is
    /// to be released when the reading ends, however it ends.
    OpenDecoder { preset: u32, params: CodecParameters },
    /// Do what the pump asks and report with [`DecompressEvent::Pump`].
    Pump(PumpAction),
    /// The container is read.
    Done,
    /// The reading is given up.
    Fail(Fault),
}

/// What the driver reports to the reader of a container.
#[derive(Clone, Copy, Debug)]
pub enum DecompressEvent<'a> {
    /// The reading begins; the source stands at the container's first byte.
    Start,
    /// The bytes that were asked for.
    Fetched(&'a [u8]),
    /// The decoder is set up, or could not be: then its first call will say.
    Opened,
    /// How the pump's action went.
    Pump(PumpEvent<'a>),
}

/// The reader of a container as contracts see it.
pub struct DecompressorView {
    /// Where the reading stands.
    pub stage: DecompressStage,
    /// The header, as far as it has been read.
    pub header: ContainerHeader,
    /// How many bytes of coded data may still be taken from the source.
    pub remaining: nat,
    /// The pump.
    pub pump: PumpView,
    /// Every byte taken from the source so far, in order.
    pub taken: Seq<u8>,
}

/// The header has been read in full.
pub open spec fn header_known(stage: DecompressStage) -> bool {
    stage == DecompressStage::Opening || stage == DecompressStage::Pumping || stage
        == DecompressStage::Done || stage == DecompressStage::Failed
}

impl DecompressorView {
    /// The state before anything has happened.
    pub open spec fn initial() -> DecompressorView {
        DecompressorView {
            stage: DecompressStage::Idle,
            header: ContainerHeader {
                params: CodecParameters { lc: 0, lp: 0, pb: 0, dict_size: 0 },
                uncompressed_length: 0,
                compressed_length: 0,
            },
            remaining: 0,
            pump: PumpView::initial(),
            taken: Seq::empty(),
        }
    }

    /// The bookkeeping agrees with what was taken from the source: the
    /// header is what the first 21 bytes say, everything after them went to
    /// the pump, and the coded data that may still be taken is what the
    /// header's length leaves of it.
    pub open spec fn consistent(self) -> bool {
        &&& self.pump.consistent()
        &&& match self.stage {
            DecompressStage::Idle | DecompressStage::Props => self.taken.len() == 0,
            DecompressStage::UncompressedLength => {
                &&& self.taken.len() == 5
                &&& self.header.params == params_of(self.taken.subrange(0, 5))
            },
            DecompressStage::CompressedLength => {
                &&& self.taken.len() == 13
                &&& self.header.params == header_of(self.taken).params
                &&& self.header.uncompressed_length == header_of(self.taken).uncompressed_length
            },
            _ => {
                &&& self.taken.len() == HEADER_LEN + self.pump.source.len()
                &&& self.header == header_of(self.taken)
                &&& self.pump.source == self.taken.skip(HEADER_LEN as int)
                &&& self.remaining + self.pump.source.len() == self.header.compressed_length
            },
        }
        &&& !header_known(self.stage) || self.stage == DecompressStage::Opening ==> self.pump
            == PumpView::initial()
    }
}

/// The pump's request with a read cut down to what may still be taken.
pub open spec fn bounded(action: PumpAction, remaining: nat) -> PumpAction {
    match action {
        PumpAction::Read { max } => PumpAction::Read {
            max: if max <= remaining {
                max
            } else {
                remaining as usize
            },
        },
        other => other,
    }
}

/// The pump's request as a request of the reader: the pump's end is the
/// reader's end.
pub open spec fn lifted(action: PumpAction) -> DecompressAction {
    match action {
        PumpAction::Done => DecompressAction::Done,
        PumpAction::Fail(fault) => DecompressAction::Fail(fault),
        other => DecompressAction::Pump(other),
    }
}

/// The stage that the pump's request leaves the reader in.
pub open spec fn stage_after(action: PumpAction) -> DecompressStage {
    match action {
        PumpAction::Done => DecompressStage::Done,
        PumpAction::Fail(_) => DecompressStage::Failed,
        _ => DecompressStage::Pumping,
    }
}

/// The bytes that an event brings from the source.
pub open spec fn pump_bytes(event: PumpEvent) -> Seq<u8> {
    match event {
        PumpEvent::Filled(data) => data@,
        _ => Seq::empty(),
    }
}

/// The event answers the action that the reader is waiting on: the bytes of
/// a header field are as many as were asked for, and a read of coded data
/// gave no more than may still be taken.
pub open spec fn decompress_accepts(reader: DecompressorView, event: DecompressEvent) -> bool {
    match (reader.stage, event) {
        (DecompressStage::Idle, DecompressEvent::Start) => true,
        (DecompressStage::Props, DecompressEvent::Fetched(bytes)) => bytes@.len() == PROPS_LEN,
        (DecompressStage::UncompressedLength, DecompressEvent::Fetched(bytes)) => bytes@.len()
            == LENGTH_LEN,
        (DecompressStage::CompressedLength, DecompressEvent::Fetched(bytes)) => bytes@.len()
            == LENGTH_LEN,
        (DecompressStage::Opening, DecompressEvent::Opened) => true,
        (DecompressStage::Pumping, DecompressEvent::Pump(report)) => {
            &&& !(report is Start)
            &&& pump_accepts(reader.pump, report)
            &&& pump_bytes(report).len() <= reader.remaining
        },
        _ => false,
    }
}

/// The state after an accepted event.
pub open spec fn decompress_next(
    reader: DecompressorView,
    event: DecompressEvent,
) -> DecompressorView {
    match (reader.stage, event) {
        (DecompressStage::Idle, DecompressEvent::Start) => DecompressorView {
            stage: DecompressStage::Props,
            ..reader
        },
        (DecompressStage::Props, DecompressEvent::Fetched(bytes)) => DecompressorView {
            stage: DecompressStage::UncompressedLength,
            header: ContainerHeader { params: params_of(bytes@), ..reader.header },
            taken: reader.taken + bytes@,
            ..reader
        },
        (DecompressStage::UncompressedLength, DecompressEvent::Fetched(bytes)) => DecompressorView {
            stage: DecompressStage::CompressedLength,
            header: ContainerHeader {
                uncompressed_length: le_value_u64(bytes@) as u64,
                ..reader.header
            },
            taken: reader.taken + bytes@,
            ..reader
        },
        (DecompressStage::CompressedLength, DecompressEvent::Fetched(bytes)) => DecompressorView {
            stage: DecompressStage::Opening,
            header: ContainerHeader {
                compressed_length: le_value_u64(bytes@) as u64,
                ..reader.header
            },
            remaining: le_value_u64(bytes@) as nat,
            taken: reader.taken + bytes@,
            ..reader
        },
        (DecompressStage::Opening, DecompressEvent::Opened) => DecompressorView {
            stage: DecompressStage::Pumping,
            pump: pump_next(reader.pump, PumpEvent::Start),
            ..reader
        },
        (DecompressStage::Pumping, DecompressEvent::Pump(report)) => DecompressorView {
            stage: stage_after(pump_action(reader.pump, report)),
            remaining: (reader.remaining - pump_bytes(report).len()) as nat,
            pump: pump_next(reader.pump, report),
            taken: reader.taken + pump_bytes(report),
            ..reader
        },
        _ => reader,
    }
}

/// The action that the reader asks for upon an accepted event.
pub open spec fn decompress_action(
    reader: DecompressorView,
    event: DecompressEvent,
) -> DecompressAction {
    match (reader.stage, event) {
        (DecompressStage::Idle, DecompressEvent::Start) => DecompressAction::Fetch {
            len: PROPS_LEN,
        },
        (DecompressStage::Props, DecompressEvent::Fetched(bytes)) => DecompressAction::Fetch {
            len: LENGTH_LEN,
        },
        (DecompressStage::UncompressedLength, DecompressEvent::Fetched(bytes)) => {
            DecompressAction::Fetch { len: LENGTH_LEN }
        },
        (DecompressStage::CompressedLength, DecompressEvent::Fetched(bytes)) => {
            DecompressAction::OpenDecoder { preset: PRESET_DEFAULT, params: reader.header.params }
        },
        (DecompressStage::Opening, DecompressEvent::Opened) => lifted(
            bounded(pump_action(reader.pump, PumpEvent::Start), reader.remaining),
        ),
        (DecompressStage::Pumping, DecompressEvent::Pump(report)) => lifted(
            bounded(
                pump_action(reader.pump, report),
                (reader.remaining - pump_bytes(report).len()) as nat,
            ),
        ),
        _ => arbitrary(),
    }
}

/// No accepted event breaks the reader's bookkeeping.
pub proof fn lemma_decompress_keeps_consistent(reader: DecompressorView, event: DecompressEvent)
    requires
        reader.consistent(),
        decompress_accepts(reader, event),
    ensures
        decompress_next(reader, event).consistent(),
{
    let next = decompress_next(reader, event);
    match (reader.stage, event) {
        (DecompressStage::Props, DecompressEvent::Fetched(bytes)) => {
            assert(next.taken.subrange(0, 5) =~= bytes@);
        },
        (DecompressStage::UncompressedLength, DecompressEvent::Fetched(bytes)) => {
            assert(next.taken.subrange(0, 5) =~= reader.taken.subrange(0, 5));
            assert(next.taken.subrange(5, 13) =~= bytes@);
        },
        (DecompressStage::CompressedLength, DecompressEvent::Fetched(bytes)) => {
            assert(next.taken.subrange(0, 5) =~= reader.taken.subrange(0, 5));
            assert(next.taken.subrange(5, 13) =~= reader.taken.subrange(5, 13));
            assert(next.taken.subrange(13, 21) =~= bytes@);
            assert(next.pump.source =~= next.taken.skip(HEADER_LEN as int));
            lemma_u64_bytes_of_value(bytes@);
        },
        (DecompressStage::Opening, DecompressEvent::Opened) => {
            lemma_pump_keeps_consistent(reader.pump, PumpEvent::Start);
        },
        (DecompressStage::Pumping, DecompressEvent::Pump(report)) => {
            lemma_pump_keeps_consistent(reader.pump, report);
            assert(next.taken.subrange(0, 5) =~= reader.taken.subrange(0, 5));
            assert(next.taken.subrange(5, 13) =~= reader.taken.subrange(5, 13));
            assert(next.taken.subrange(13, 21) =~= reader.taken.subrange(13, 21));
            assert(next.pump.source =~= next.taken.skip(HEADER_LEN as int));
        },
        _ => {},
    }
}

/// Reading stops where the container stops. Whatever stream the bytes were
/// taken from, once the header is read the pump has been given a prefix of
/// the container's coded data and nothing else: no byte behind the
/// container is ever taken. When nothing remains to be taken, the pump has
/// been given all of it.
pub proof fn lemma_reads_stay_in_container(reader: DecompressorView, stream: Seq<u8>)
    requires
        reader.consistent(),
        header_known(reader.stage),
        reader.taken.is_prefix_of(stream),
        stream.len() >= HEADER_LEN + header_of(stream).compressed_length,
    ensures
        reader.header == header_of(stream),
        reader.taken.len() <= HEADER_LEN + reader.header.compressed_length,
        reader.pump.source.is_prefix_of(body_of(stream)),
        reader.remaining == 0 ==> reader.pump.source == body_of(stream),
{
    let taken = reader.taken;
    assert(taken.subrange(0, 5) =~= stream.subrange(0, 5));
    assert(taken.subrange(5, 13) =~= stream.subrange(5, 13));
    assert(taken.subrange(13, 21) =~= stream.subrange(13, 21));
    assert(reader.pump.source =~= body_of(stream).subrange(0, reader.pump.source.len() as int));
    if reader.remaining == 0 {
        assert(reader.pump.source =~= body_of(stream));
    }
}

/// The decoder is given what the encoder wrote. Let a writer have finished
/// a container whose `lc` and `lp` are digits of their radix, and let the
/// sink hold the writer's header, behind it the coded data, as long as the
/// distance between the two positions that the writer was told, and behind
/// that anything. Then whoever reads that stream from its start has the
/// writer's parameters and lengths once the header is read, gives its pump
/// a prefix of the coded data and nothing else, and has given it all of the
/// coded data when nothing remains to be taken.
pub proof fn lemma_decoder_gets_what_encoder_wrote(
    writer: CompressorView,
    coded: Seq<u8>,
    rest: Seq<u8>,
    reader: DecompressorView,
)
    requires
        writer.consistent(),
        writer.stage == CompressStage::Done,
        writer.params.lc < 9,
        writer.params.lp < 5,
        coded.len() == writer.body_end - writer.body_start,
        reader.consistent(),
        header_known(reader.stage),
        reader.taken.is_prefix_of(writer.image + coded + rest),
    ensures
        reader.header == writer.header(),
        reader.pump.source.is_prefix_of(coded),
        reader.remaining == 0 ==> reader.pump.source == coded,
{
    let stream = writer.image + coded + rest;
    lemma_container_split(writer.header(), coded, rest);
    lemma_reads_stay_in_container(reader, stream);
}

/// The state of the reading of one container.
pub struct Decompressor {
    stage: DecompressStage,
    header: ContainerHeader,
    limit: LimitReader,
    pump: Pump,
    taken: Ghost<Seq<u8>>,
}

impl View for Decompressor {
    type V = DecompressorView;

    closed spec fn view(&self) -> DecompressorView {
        DecompressorView {
            stage: self.stage,
            header: self.header,
            remaining: self.limit@,
            pump: self.pump@,
            taken: self.taken@,
        }
    }
}

impl Decompressor {
    /// The reader is in a state that [`Decompressor::new`] and
    /// [`lzma_decompress`] can have left it in.
    pub closed spec fn wf(&self) -> bool {
        &&& self.pump.wf()
        &&& self@.consistent()
    }

    /// The bookkeeping of a well-formed reader agrees with what it took.
    pub proof fn lemma_wf_consistent(&self)
        requires
            self.wf(),
        ensures
            self@.consistent(),
    {
    }

    /// A reader that has not started.
    pub fn new() -> (reader: Self)
        ensures
            reader.wf(),
            reader@ == DecompressorView::initial(),
    {
        let pump = Pump::new();
        proof {
            pump.lemma_wf_consistent();
        }
        Decompressor {
            stage: DecompressStage::Idle,
            header: ContainerHeader {
                params: CodecParameters { lc: 0, lp: 0, pb: 0, dict_size: 0 },
                uncompressed_length: 0,
                compressed_length: 0,
            },
            limit: LimitReader::new(0),
            pump,
            taken: Ghost(Seq::empty()),
        }
    }

    /// Where the reading stands.
    pub fn stage(&self) -> (stage: DecompressStage)
        ensures
            stage == self@.stage,
    {
        self.stage
    }

    /// The header, once it has been read in full. The length of the plain
    /// data decides nothing here; it is there for the caller, who may want
    /// to make room for it.
    pub fn header(&self) -> (header: Option<ContainerHeader>)
        ensures
            header == if header_known(self@.stage) {
                Some(self@.header)
            } else {
                None
            },
    {
        match self.stage {
            DecompressStage::Opening
            | DecompressStage::Pumping
            | DecompressStage::Done
            | DecompressStage::Failed => Some(self.header),
            _ => None,
        }
    }

    /// The decoder's input for its next call.
    pub fn pending(&self) -> (input: &[u8])
        ensures
            input@ == self@.pump.pending,
    {
        self.pump.pending()
    }

    /// Tells whether `event` may be handed to [`lzma_decompress`].
    pub fn accepts(&self, event: &DecompressEvent<'_>) -> (ok: bool)
        requires
            self.wf(),
        ensures
            ok == decompress_accepts(self@, *event),
    {
        match (self.stage, *event) {
            (DecompressStage::Idle, DecompressEvent::Start) => true,
            (DecompressStage::Props, DecompressEvent::Fetched(bytes)) => bytes.len() == PROPS_LEN,
            (DecompressStage::UncompressedLength, DecompressEvent::Fetched(bytes)) => bytes.len()
                == LENGTH_LEN,
            (DecompressStage::CompressedLength, DecompressEvent::Fetched(bytes)) => bytes.len()
                == LENGTH_LEN,
            (DecompressStage::Opening, DecompressEvent::Opened) => true,
            (DecompressStage::Pumping, DecompressEvent::Pump(report)) => {
                match report {
                    PumpEvent::Start => false,
                    PumpEvent::Filled(data) => self.pump.accepts(&report) && data.len() as u64
                        <= self.limit.left(),
                    _ => self.pump.accepts(&report),
                }
            },
            _ => false,
        }
    }
}

/// The decoding stage of [`lzma_decompress`]: hands `event` to the pump and
/// turns the pump's request into the reader's. What a read gave is taken
/// off the budget, and the next read is cut down to what the budget leaves.
fn lzma_decompress_raw(reader: &mut Decompressor, event: PumpEvent<'_>) -> (action:
    DecompressAction)
    requires
        old(reader).pump.wf(),
        pump_accepts(old(reader)@.pump, event),
        pump_bytes(event).len() <= old(reader)@.remaining,
    ensures
        final(reader).pump.wf(),
        final(reader)@ == (DecompressorView {
            stage: stage_after(pump_action(old(reader)@.pump, event)),
            remaining: (old(reader)@.remaining - pump_bytes(event).len()) as nat,
            pump: pump_next(old(reader)@.pump, event),
            taken: old(reader)@.taken + pump_bytes(event),
            ..old(reader)@
        }),
        action == lifted(
            bounded(
                pump_action(old(reader)@.pump, event),
                (old(reader)@.remaining - pump_bytes(event).len()) as nat,
            ),
        ),
{
    if let PumpEvent::Filled(data) = event {
        reader.limit.consume(data.len());
    }
    reader.taken = Ghost(reader.taken@ + pump_bytes(event));
    match lzma_stream_raw(&mut reader.pump, event) {
        PumpAction::Read { max } => {
            reader.stage = DecompressStage::Pumping;
            DecompressAction::Pump(PumpAction::Read { max: reader.limit.grant(max) })
        },
        PumpAction::Done => {
            reader.stage = DecompressStage::Done;
            DecompressAction::Done
        },
        PumpAction::Fail(fault) => {
            reader.stage = DecompressStage::Failed;
            DecompressAction::Fail(fault)
        },
        other => {
            reader.stage = DecompressStage::Pumping;
            DecompressAction::Pump(other)
        },
    }
}

/// Takes the report of the last action and decides the next one.
///
/// The reader asks for the parameter record and the two lengths, then for a
/// raw decoder with the parameters it read, and then lets the pump move the
/// coded data through the decoder. Of the source it lets the pump take the
/// coded data's length and no more: when that is used up every read is of
/// zero bytes, which the pump takes for the end of the source.
pub fn lzma_decompress(reader: &mut Decompressor, event: DecompressEvent<'_>) -> (action:
    DecompressAction)
    requires
        old(reader).wf(),
        decompress_accepts(old(reader)@, event),
    ensures
        final(reader).wf(),
        final(reader)@ == decompress_next(old(reader)@, event),
        action == decompress_action(old(reader)@, event),
{
    proof {
        lemma_decompress_keeps_consistent(reader@, event);
    }
    match (reader.stage, event) {
        (DecompressStage::Idle, DecompressEvent::Start) => {
            reader.stage = DecompressStage::Props;
            DecompressAction::Fetch { len: PROPS_LEN }
        },
        (DecompressStage::Props, DecompressEvent::Fetched(bytes)) => {
            let props = [bytes[0], bytes[1], bytes[2], bytes[3], bytes[4]];
            assert(props@ =~= bytes@);
            reader.header.params = read_props(&props);
            reader.taken = Ghost(reader.taken@ + bytes@);
            reader.stage = DecompressStage::UncompressedLength;
            DecompressAction::Fetch { len: LENGTH_LEN }
        },
        (DecompressStage::UncompressedLength, DecompressEvent::Fetched(bytes)) => {
            reader.header.uncompressed_length = read_length(bytes);
            reader.taken = Ghost(reader.taken@ + bytes@);
            reader.stage = DecompressStage::CompressedLength;
            DecompressAction::Fetch { len: LENGTH_LEN }
        },
        (DecompressStage::CompressedLength, DecompressEvent::Fetched(bytes)) => {
            let length = read_length(bytes);
            reader.header.compressed_length = length;
            reader.limit = LimitReader::new(length);
            reader.taken = Ghost(reader.taken@ + bytes@);
            reader.stage = DecompressStage::Opening;
            DecompressAction::OpenDecoder { preset: PRESET_DEFAULT, params: reader.header.params }
        },
        (DecompressStage::Opening, DecompressEvent::Opened) => {
            let action = lzma_decompress_raw(reader, PumpEvent::Start);
            assert(reader.taken@ =~= old(reader).taken@);
            action
        },
        (DecompressStage::Pumping, DecompressEvent::Pump(report)) => lzma_decompress_raw(reader, report),
        _ => unreached(),
    }
}

/// Reads a length field.
fn read_length(bytes: &[u8]) -> (length: u64)
    requires
        bytes@.len() == LENGTH_LEN,
    ensures
        length == le_value_u64(bytes@),
{
    let field = [
        bytes[0],
        bytes[1],
        bytes[2],
        bytes[3],
        bytes[4],
        bytes[5],
        bytes[6],
        bytes[7],
    ];
    assert(field@ =~= bytes@);
    u64_from_le(&field)
}

} // verus!
