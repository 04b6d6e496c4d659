use pastebin::copy::{copy, BoundedCopy, CopyError, CopyEvent, CopyStep, SourceEvent, CHUNK_SIZE};

fn chunks(total: usize, chunk: usize) -> Vec<SourceEvent> {
    let bytes: Vec<u8> = (0..total).map(|i| (i % 251) as u8).collect();
    bytes.chunks(chunk).map(|c| SourceEvent::Data(c.to_vec())).collect()
}

fn bytes(total: usize) -> Vec<u8> {
    (0..total).map(|i| (i % 251) as u8).collect()
}

#[test]
fn source_of_exactly_the_limit_succeeds() {
    let mut sink = Vec::new();
    let r = copy(&chunks(100, 7), &mut sink, 100);
    assert_eq!(r, Ok(100));
    assert_eq!(sink, bytes(100));
}

#[test]
fn source_one_byte_over_the_limit_fails_after_writing_it_all() {
    let mut sink = Vec::new();
    let r = copy(&chunks(101, 7), &mut sink, 100);
    assert_eq!(r, Err(CopyError::TooLarge));
    assert_eq!(sink, bytes(101));
}

#[test]
fn copy_stops_at_the_chunk_that_crosses_the_limit() {
    let mut sink = Vec::new();
    let r = copy(&chunks(1000, 30), &mut sink, 100);
    assert_eq!(r, Err(CopyError::TooLarge));
    assert_eq!(sink, bytes(120));
}

#[test]
fn empty_source_copies_nothing() {
    let mut sink = vec![9u8];
    let r = copy(&Vec::new(), &mut sink, 0);
    assert_eq!(r, Ok(0));
    assert_eq!(sink, vec![9u8]);
}

#[test]
fn limit_of_zero_refuses_one_byte() {
    let mut sink = Vec::new();
    let r = copy(&vec![SourceEvent::Data(vec![1])], &mut sink, 0);
    assert_eq!(r, Err(CopyError::TooLarge));
    assert_eq!(sink, vec![1u8]);
}

#[test]
fn copy_appends_to_what_the_sink_holds() {
    let mut sink = vec![1u8, 2];
    let r = copy(&vec![SourceEvent::Data(vec![3, 4]), SourceEvent::Data(vec![5])], &mut sink, 10);
    assert_eq!(r, Ok(3));
    assert_eq!(sink, vec![1u8, 2, 3, 4, 5]);
}

#[test]
fn interrupted_reads_are_retried() {
    let source = vec![
        SourceEvent::Interrupted,
        SourceEvent::Data(vec![1, 2]),
        SourceEvent::Interrupted,
        SourceEvent::Interrupted,
        SourceEvent::Data(vec![3]),
    ];
    let mut sink = Vec::new();
    assert_eq!(copy(&source, &mut sink, 3), Ok(3));
    assert_eq!(sink, vec![1u8, 2, 3]);
}

#[test]
fn failed_read_aborts_and_keeps_what_was_written() {
    let source = vec![
        SourceEvent::Data(vec![1, 2]),
        SourceEvent::Failed,
        SourceEvent::Data(vec![3]),
    ];
    let mut sink = Vec::new();
    assert_eq!(copy(&source, &mut sink, 10), Err(CopyError::Read));
    assert_eq!(sink, vec![1u8, 2]);
}

#[test]
fn empty_read_ends_the_copy() {
    let source = vec![
        SourceEvent::Data(vec![1, 2]),
        SourceEvent::Data(Vec::new()),
        SourceEvent::Data(vec![3]),
    ];
    let mut sink = Vec::new();
    assert_eq!(copy(&source, &mut sink, 10), Ok(2));
    assert_eq!(sink, vec![1u8, 2]);
}

#[test]
fn large_source_in_buffer_sized_chunks() {
    let total = 3 * CHUNK_SIZE + 17;
    let mut sink = Vec::new();
    assert_eq!(copy(&chunks(total, CHUNK_SIZE), &mut sink, total as u64), Ok(total as u64));
    assert_eq!(sink.len(), total);
    let mut sink = Vec::new();
    assert_eq!(
        copy(&chunks(total, CHUNK_SIZE), &mut sink, (total - 1) as u64),
        Err(CopyError::TooLarge)
    );
    assert_eq!(sink.len(), total);
}

#[test]
fn buffer_is_eight_kibibytes() {
    assert_eq!(CHUNK_SIZE, 8192);
}

#[test]
fn steps_follow_the_events() {
    let mut state = BoundedCopy::new(10);
    assert_eq!(state.written, 0);
    assert_eq!(state.max_size, 10);
    assert_eq!(state.advance(CopyEvent::ReadInterrupted), CopyStep::ReadAgain);
    assert_eq!(state.advance(CopyEvent::Read(4)), CopyStep::Write(4));
    assert_eq!(state.written, 0);
    assert_eq!(state.advance(CopyEvent::Wrote(4)), CopyStep::ReadAgain);
    assert_eq!(state.written, 4);
    assert_eq!(state.advance(CopyEvent::Read(6)), CopyStep::Write(6));
    assert_eq!(state.advance(CopyEvent::Wrote(6)), CopyStep::ReadAgain);
    assert_eq!(state.written, 10);
    assert_eq!(state.advance(CopyEvent::Read(0)), CopyStep::Finished(10));
}

#[test]
fn step_past_the_limit_fails() {
    let mut state = BoundedCopy::new(10);
    assert_eq!(state.advance(CopyEvent::Wrote(10)), CopyStep::ReadAgain);
    assert_eq!(state.advance(CopyEvent::Read(1)), CopyStep::Write(1));
    assert_eq!(state.advance(CopyEvent::Wrote(1)), CopyStep::Failed(CopyError::TooLarge));
    assert_eq!(state.written, 10);
}

#[test]
fn step_on_failures() {
    let mut state = BoundedCopy::new(10);
    assert_eq!(state.advance(CopyEvent::ReadFailed), CopyStep::Failed(CopyError::Read));
    assert_eq!(state.advance(CopyEvent::WriteFailed), CopyStep::Failed(CopyError::Write));
    assert_eq!(state.written, 0);
}

#[test]
fn step_does_not_overflow_near_the_top() {
    let mut state = BoundedCopy { written: u64::MAX - 1, max_size: u64::MAX };
    assert_eq!(state.advance(CopyEvent::Wrote(1)), CopyStep::ReadAgain);
    assert_eq!(state.written, u64::MAX);
    assert_eq!(state.advance(CopyEvent::Wrote(1)), CopyStep::Failed(CopyError::TooLarge));
    assert_eq!(state.advance(CopyEvent::Wrote(usize::MAX)), CopyStep::Failed(CopyError::TooLarge));
    assert_eq!(state.written, u64::MAX);
}
