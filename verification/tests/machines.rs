use lzma_container::{
    lzma_stream_raw, Fault, LimitReader, Mode, Phase, Pump, PumpAction, PumpEvent, SlideBuffer,
    BUFFER_SIZE, STATUS_MEM_ERROR, STATUS_OK, STATUS_STREAM_END,
};

fn step(pump: &mut Pump, event: PumpEvent<'_>) -> PumpAction {
    assert!(pump.accepts(&event), "not accepted: {event:?}");
    lzma_stream_raw(pump, event)
}

/// A pump that has read `data` and waits for the coder in run mode.
fn pump_with(data: &[u8]) -> Pump {
    let mut pump = Pump::new();
    assert_eq!(step(&mut pump, PumpEvent::Start), PumpAction::Read { max: BUFFER_SIZE });
    assert_eq!(step(&mut pump, PumpEvent::Filled(data)), PumpAction::Code { mode: Mode::Run });
    pump
}

#[test]
fn slide_buffer_appends_and_slides() {
    let mut buffer = SlideBuffer::new(8);
    assert_eq!((buffer.len(), buffer.room()), (0, 8));
    buffer.append(&[1, 2, 3, 4, 5]);
    assert_eq!(buffer.as_slice(), &[1, 2, 3, 4, 5]);
    assert_eq!((buffer.len(), buffer.room()), (5, 3));
    buffer.discard(2);
    assert_eq!(buffer.as_slice(), &[3, 4, 5]);
    buffer.append(&[6, 7, 8, 9, 10]);
    assert_eq!(buffer.as_slice(), &[3, 4, 5, 6, 7, 8, 9, 10]);
    assert_eq!(buffer.room(), 0);
    buffer.discard(0);
    assert_eq!(buffer.as_slice(), &[3, 4, 5, 6, 7, 8, 9, 10]);
    buffer.discard(7);
    assert_eq!(buffer.as_slice(), &[10]);
    buffer.discard(1);
    assert_eq!(buffer.as_slice(), &[] as &[u8]);
    buffer.append(&[]);
    assert_eq!(buffer.room(), 8);
}

#[test]
fn slide_buffer_slides_over_itself() {
    // What stays is longer than what leaves, so the move overlaps.
    let mut buffer = SlideBuffer::new(100);
    let data: Vec<u8> = (0..100).collect();
    buffer.append(&data);
    buffer.discard(3);
    assert_eq!(buffer.as_slice(), &data[3..]);
    buffer.discard(60);
    assert_eq!(buffer.as_slice(), &data[63..]);
}

#[test]
fn slide_buffer_of_no_capacity() {
    let mut buffer = SlideBuffer::new(0);
    assert_eq!(buffer.room(), 0);
    buffer.append(&[]);
    buffer.discard(0);
    assert_eq!(buffer.len(), 0);
}

#[test]
fn limit_reader_grants_what_is_left_and_no_more() {
    let mut limit = LimitReader::new(10);
    assert_eq!(limit.left(), 10);
    assert_eq!(limit.grant(4), 4);
    limit.consume(3);
    assert_eq!(limit.left(), 7);
    assert_eq!(limit.grant(7), 7);
    assert_eq!(limit.grant(8), 7);
    assert_eq!(limit.grant(usize::MAX), 7);
    assert_eq!(limit.grant(0), 0);
    limit.consume(7);
    assert_eq!(limit.left(), 0);
    assert_eq!(limit.grant(1), 0);
    assert_eq!(limit.grant(65536), 0);
    limit.consume(0);
    assert_eq!(limit.left(), 0);
}

#[test]
fn limit_reader_of_nothing_and_of_everything() {
    assert_eq!(LimitReader::new(0).grant(100), 0);
    let limit = LimitReader::new(u64::MAX);
    assert_eq!(limit.grant(65536), 65536);
    assert_eq!(limit.grant(0), 0);
}

#[test]
fn pump_starts_by_reading_a_full_buffer() {
    let mut pump = Pump::new();
    assert_eq!(pump.phase(), Phase::Idle);
    assert_eq!(BUFFER_SIZE, 65536);
    assert_eq!(step(&mut pump, PumpEvent::Start), PumpAction::Read { max: 65536 });
    assert_eq!(pump.phase(), Phase::Filling);
    assert_eq!(pump.pending(), &[] as &[u8]);
}

#[test]
fn pump_keeps_what_the_coder_left_in_front_of_the_next_read() {
    let mut pump = pump_with(&[1, 2, 3, 4, 5]);
    assert_eq!(pump.pending(), &[1, 2, 3, 4, 5]);
    let coded = PumpEvent::Coded { status: STATUS_OK, consumed: 2, produced: 7 };
    assert_eq!(step(&mut pump, coded), PumpAction::Flush { len: 7 });
    assert_eq!(pump.pending(), &[3, 4, 5]);
    assert_eq!(step(&mut pump, PumpEvent::Flushed), PumpAction::Read { max: 65536 - 3 });
    assert_eq!(step(&mut pump, PumpEvent::Filled(&[6, 7])), PumpAction::Code { mode: Mode::Run });
    assert_eq!(pump.pending(), &[3, 4, 5, 6, 7]);
    let coded = PumpEvent::Coded { status: STATUS_OK, consumed: 0, produced: 0 };
    assert_eq!(step(&mut pump, coded), PumpAction::Flush { len: 0 });
    assert_eq!(pump.pending(), &[3, 4, 5, 6, 7]);
    assert_eq!(step(&mut pump, PumpEvent::Flushed), PumpAction::Read { max: 65536 - 5 });
}

#[test]
fn pump_finishes_after_an_empty_read() {
    let mut pump = pump_with(&[1, 2, 3]);
    let coded = PumpEvent::Coded { status: STATUS_OK, consumed: 1, produced: 0 };
    assert_eq!(step(&mut pump, coded), PumpAction::Flush { len: 0 });
    assert_eq!(step(&mut pump, PumpEvent::Flushed), PumpAction::Read { max: 65534 });
    assert_eq!(step(&mut pump, PumpEvent::Filled(&[])), PumpAction::Code { mode: Mode::Finish });
    assert_eq!(pump.phase(), Phase::Coding(Mode::Finish));
    assert_eq!(pump.pending(), &[2, 3]);
    // The coder is not done yet: it is called again, on what it left.
    let coded = PumpEvent::Coded { status: STATUS_OK, consumed: 1, produced: 65536 };
    assert_eq!(step(&mut pump, coded), PumpAction::Flush { len: 65536 });
    assert_eq!(step(&mut pump, PumpEvent::Flushed), PumpAction::Code { mode: Mode::Finish });
    assert_eq!(pump.pending(), &[3]);
    let coded = PumpEvent::Coded { status: STATUS_STREAM_END, consumed: 1, produced: 4 };
    assert_eq!(step(&mut pump, coded), PumpAction::Flush { len: 4 });
    assert_eq!(step(&mut pump, PumpEvent::Flushed), PumpAction::Done);
    assert_eq!(pump.phase(), Phase::Done);
    assert_eq!(pump.pending(), &[] as &[u8]);
}

#[test]
fn pump_of_an_empty_source_goes_straight_to_finish() {
    let mut pump = Pump::new();
    step(&mut pump, PumpEvent::Start);
    assert_eq!(step(&mut pump, PumpEvent::Filled(&[])), PumpAction::Code { mode: Mode::Finish });
    let coded = PumpEvent::Coded { status: STATUS_STREAM_END, consumed: 0, produced: 5 };
    assert_eq!(step(&mut pump, coded), PumpAction::Flush { len: 5 });
    assert_eq!(step(&mut pump, PumpEvent::Flushed), PumpAction::Done);
}

#[test]
fn pump_with_a_full_buffer_reads_nothing_and_finishes() {
    let data = vec![7u8; BUFFER_SIZE];
    let mut pump = pump_with(&data);
    let coded = PumpEvent::Coded { status: STATUS_OK, consumed: 0, produced: 65536 };
    assert_eq!(step(&mut pump, coded), PumpAction::Flush { len: 65536 });
    assert_eq!(step(&mut pump, PumpEvent::Flushed), PumpAction::Read { max: 0 });
    assert_eq!(step(&mut pump, PumpEvent::Filled(&[])), PumpAction::Code { mode: Mode::Finish });
    assert_eq!(pump.pending().len(), BUFFER_SIZE);
}

#[test]
fn out_of_memory_is_a_fault_of_its_own() {
    let mut pump = pump_with(&[1]);
    let coded = PumpEvent::Coded { status: STATUS_MEM_ERROR, consumed: 0, produced: 0 };
    assert_eq!(step(&mut pump, coded), PumpAction::Fail(Fault::OutOfMemory));
    assert_eq!(pump.phase(), Phase::Failed);

    let mut pump = Pump::new();
    step(&mut pump, PumpEvent::Start);
    step(&mut pump, PumpEvent::Filled(&[]));
    let coded = PumpEvent::Coded { status: 5, consumed: 0, produced: 0 };
    assert_eq!(step(&mut pump, coded), PumpAction::Fail(Fault::OutOfMemory));
}

#[test]
fn any_other_status_is_a_codec_fault_with_its_code() {
    for status in [2, 3, 4, 6, 7, 8, 9, 10, 11, 12, 1000, u32::MAX] {
        let mut pump = pump_with(&[1, 2]);
        // On a fault the coder's counts are not looked at.
        let coded = PumpEvent::Coded { status, consumed: 99, produced: usize::MAX };
        assert_eq!(step(&mut pump, coded), PumpAction::Fail(Fault::Codec(status)));
        assert_eq!(pump.phase(), Phase::Failed);

        let mut pump = Pump::new();
        step(&mut pump, PumpEvent::Start);
        step(&mut pump, PumpEvent::Filled(&[]));
        let coded = PumpEvent::Coded { status, consumed: 0, produced: 0 };
        assert_eq!(step(&mut pump, coded), PumpAction::Fail(Fault::Codec(status)));
    }
}

#[test]
fn end_of_stream_while_filling_is_a_codec_fault() {
    let mut pump = pump_with(&[1, 2, 3]);
    let coded = PumpEvent::Coded { status: STATUS_STREAM_END, consumed: 3, produced: 10 };
    assert_eq!(step(&mut pump, coded), PumpAction::Fail(Fault::Codec(1)));
}

#[test]
fn pump_accepts_only_the_answer_to_its_question() {
    let coded = PumpEvent::Coded { status: STATUS_OK, consumed: 0, produced: 0 };
    let mut pump = Pump::new();
    assert!(pump.accepts(&PumpEvent::Start));
    assert!(!pump.accepts(&PumpEvent::Filled(&[1])));
    assert!(!pump.accepts(&coded));
    assert!(!pump.accepts(&PumpEvent::Flushed));

    step(&mut pump, PumpEvent::Start);
    assert!(!pump.accepts(&PumpEvent::Start));
    assert!(pump.accepts(&PumpEvent::Filled(&[])));
    assert!(pump.accepts(&PumpEvent::Filled(&vec![0; BUFFER_SIZE])));
    assert!(!pump.accepts(&PumpEvent::Filled(&vec![0; BUFFER_SIZE + 1])));
    assert!(!pump.accepts(&coded));

    step(&mut pump, PumpEvent::Filled(&[1, 2, 3]));
    assert!(!pump.accepts(&PumpEvent::Filled(&[])));
    assert!(!pump.accepts(&PumpEvent::Flushed));
    assert!(pump.accepts(&PumpEvent::Coded { status: 0, consumed: 3, produced: 65536 }));
    assert!(!pump.accepts(&PumpEvent::Coded { status: 0, consumed: 4, produced: 0 }));
    assert!(!pump.accepts(&PumpEvent::Coded { status: 0, consumed: 0, produced: 65537 }));
    assert!(pump.accepts(&PumpEvent::Coded { status: 1, consumed: 4, produced: 65537 }));
    assert!(pump.accepts(&PumpEvent::Coded { status: 9, consumed: 4, produced: 65537 }));

    step(&mut pump, PumpEvent::Coded { status: 0, consumed: 1, produced: 1 });
    assert!(pump.accepts(&PumpEvent::Flushed));
    assert!(!pump.accepts(&coded));
    step(&mut pump, PumpEvent::Flushed);
    assert!(pump.accepts(&PumpEvent::Filled(&vec![0; BUFFER_SIZE - 2])));
    assert!(!pump.accepts(&PumpEvent::Filled(&vec![0; BUFFER_SIZE - 1])));

    step(&mut pump, PumpEvent::Filled(&[]));
    assert!(!pump.accepts(&PumpEvent::Coded { status: 1, consumed: 3, produced: 0 }));
    assert!(pump.accepts(&PumpEvent::Coded { status: 1, consumed: 2, produced: 0 }));
    step(&mut pump, PumpEvent::Coded { status: 1, consumed: 2, produced: 0 });
    step(&mut pump, PumpEvent::Flushed);
    assert_eq!(pump.phase(), Phase::Done);
    assert!(!pump.accepts(&PumpEvent::Start));
    assert!(!pump.accepts(&PumpEvent::Flushed));
    assert!(!pump.accepts(&PumpEvent::Filled(&[])));
    assert!(!pump.accepts(&coded));
}
