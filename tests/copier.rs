use rv::{copy_buffer, next_chunk, ByteCounter, CopyPhase, CopyStep, Copier, BUF_CAP};

fn pattern(len: usize) -> Vec<u8> {
    (0..len).map(|i| (i * 31 % 251) as u8).collect()
}

#[test]
fn empty_input_completes_at_once() {
    let input: Vec<u8> = Vec::new();
    let mut sink = Vec::new();
    let mut counter = ByteCounter::new();
    let report = copy_buffer(&input, BUF_CAP, &mut sink, &mut counter);
    assert!(sink.is_empty());
    assert_eq!(report.chunks, 0);
    assert_eq!(report.completions, 1);
    assert_eq!(report.bytes, 0);
    assert_eq!(counter.drain(), 0);
}

#[test]
fn exact_multiple_of_chunk_size() {
    let input = pattern(BUF_CAP * 4);
    let mut sink = Vec::new();
    let mut counter = ByteCounter::new();
    let report = copy_buffer(&input, BUF_CAP, &mut sink, &mut counter);
    assert_eq!(sink, input);
    assert_eq!(report.chunks, 4);
    assert_eq!(report.completions, 1);
    assert_eq!(counter.current(), (BUF_CAP * 4) as u64);
}

#[test]
fn uneven_length_keeps_every_byte() {
    let input = pattern(BUF_CAP * 2 + 17);
    let mut sink = vec![9u8, 9u8];
    let mut counter = ByteCounter::new();
    counter.add(5);
    let report = copy_buffer(&input, BUF_CAP, &mut sink, &mut counter);
    assert_eq!(&sink[..2], &[9u8, 9u8]);
    assert_eq!(&sink[2..], &input[..]);
    assert_eq!(report.chunks, 3);
    assert_eq!(counter.current(), 5 + input.len() as u64);
}

#[test]
fn ten_megabytes_terminate() {
    let input = pattern(10_000_000);
    let mut sink = Vec::new();
    let mut counter = ByteCounter::new();
    let report = copy_buffer(&input, BUF_CAP, &mut sink, &mut counter);
    assert!(sink == input);
    assert_eq!(report.chunks, (10_000_000 + BUF_CAP - 1) / BUF_CAP);
    assert_eq!(report.completions, 1);
    assert_eq!(report.bytes, 10_000_000);
}

#[test]
fn one_byte_reads_terminate() {
    let input = pattern(200_000);
    let mut sink = Vec::new();
    let mut counter = ByteCounter::new();
    let report = copy_buffer(&input, 1, &mut sink, &mut counter);
    assert!(sink == input);
    assert_eq!(report.chunks, 200_000);
    assert_eq!(report.completions, 1);
    assert_eq!(counter.drain(), 200_000);
}

#[test]
fn next_chunk_is_bounded() {
    let data = pattern(10);
    assert_eq!(next_chunk(&data, 0, 4), data[0..4].to_vec());
    assert_eq!(next_chunk(&data, 8, 4), data[8..10].to_vec());
    assert!(next_chunk(&data, 10, 4).is_empty());
}

#[test]
fn copier_writes_what_it_reads() {
    let mut c = Copier::new();
    assert_eq!(c.phase(), CopyPhase::Reading);
    match c.on_read(vec![1, 2, 3]) {
        CopyStep::Write(b) => assert_eq!(b, vec![1, 2, 3]),
        _ => panic!("expected a write"),
    }
    assert_eq!(c.phase(), CopyPhase::Writing(3));
    assert_eq!(c.on_written(), 3);
    assert_eq!(c.moved(), 3);
    assert!(matches!(c.on_read(Vec::new()), CopyStep::Complete));
    assert_eq!(c.phase(), CopyPhase::Done);
    assert_eq!(c.moved(), 3);
}

#[test]
fn read_error_keeps_written_prefix() {
    let mut c = Copier::new();
    let mut sink: Vec<u8> = Vec::new();
    for chunk in [vec![4u8; 100], vec![5u8; 50]] {
        match c.on_read(chunk) {
            CopyStep::Write(b) => sink.extend_from_slice(&b),
            _ => panic!("expected a write"),
        }
        c.on_written();
    }
    assert!(matches!(c.on_error(), CopyStep::Fail));
    assert_eq!(c.phase(), CopyPhase::Failed);
    assert_eq!(c.moved(), 150);
    assert_eq!(sink.len(), 150);
}

#[test]
fn write_error_fails_mid_chunk() {
    let mut c = Copier::new();
    assert!(matches!(c.on_read(vec![1u8; 10]), CopyStep::Write(_)));
    assert!(matches!(c.on_error(), CopyStep::Fail));
    assert_eq!(c.phase(), CopyPhase::Failed);
    assert_eq!(c.moved(), 0);
}
