use gems::driver::{
    decode_chunk, drive, drive_interleaved, ChunkRead, ChunkedStreamDriver, StreamOutcome,
};
use gems::emitter::SinkEvent;
use gems::error::GemsError;

fn chunk(text: &str) -> ChunkRead {
    ChunkRead::Data(text.as_bytes().to_vec())
}

fn typed(text: &str, delay: u64) -> Vec<SinkEvent> {
    let mut steps = Vec::new();
    for c in text.chars() {
        steps.push(SinkEvent::Write(c));
        steps.push(SinkEvent::Pause(delay));
    }
    steps
}

#[test]
fn fragments_accumulate_in_arrival_order() {
    let reads = vec![
        chunk("[{\"candidates\": [{\"content\": {\"parts\": [{\"text\": \"Hello\"}]}}]}"),
        chunk(",\r\n{\"candidates\": [{\"content\": {\"parts\": [{\"text\": \" world\"}]}}]}]"),
    ];
    let mut sink = Vec::new();
    assert_eq!(drive(&reads, true, &mut sink), Ok("Hello world".to_string()));
    assert!(sink.is_empty());
}

#[test]
fn shown_stream_types_each_line_with_the_default_delay() {
    let reads = vec![chunk("{\"text\": \"Hi\\n\\nyou\"}")];
    let mut sink = vec![SinkEvent::LineBreak];
    assert_eq!(drive(&reads, false, &mut sink), Ok("Hiyou".to_string()));
    let mut expected = vec![SinkEvent::LineBreak];
    expected.extend(typed("Hi", 5));
    expected.push(SinkEvent::LineBreak);
    expected.extend(typed("you", 5));
    assert_eq!(sink, expected);
}

#[test]
fn pacing_does_not_change_the_message() {
    let reads = vec![
        chunk("{\"text\": \"Once\\nupon\"}"),
        chunk("no text here"),
        chunk("{\"text\": \" a time\"}"),
    ];
    let mut shown = Vec::new();
    let mut hidden = Vec::new();
    let with_pacing = drive(&reads, false, &mut shown);
    let without = drive(&reads, true, &mut hidden);
    assert_eq!(with_pacing, Ok("Onceupon a time".to_string()));
    assert_eq!(with_pacing, without);
    assert!(hidden.is_empty());
    assert!(!shown.is_empty());
}

#[test]
fn empty_stream_gives_an_empty_message() {
    let mut sink = Vec::new();
    assert_eq!(drive(&vec![], false, &mut sink), Ok(String::new()));
    assert!(sink.is_empty());
}

#[test]
fn chunk_that_is_not_utf8_is_skipped_with_a_warning() {
    let reads = vec![
        chunk("{\"text\": \"a\"}"),
        ChunkRead::Data(vec![b'{', 0xff, 0xfe, b'}']),
        chunk("{\"text\": \"b\"}"),
    ];
    let mut sink = Vec::new();
    assert_eq!(drive(&reads, true, &mut sink), Ok("ab".to_string()));
    assert_eq!(sink, vec![SinkEvent::MalformedChunk(1)]);
}

#[test]
fn chunk_that_cuts_a_character_in_half_is_skipped() {
    let whole = "{\"text\": \"é\"}".as_bytes().to_vec();
    let cut = whole.iter().position(|byte| *byte == 0xc3).unwrap() + 1;
    let reads = vec![
        ChunkRead::Data(whole[..cut].to_vec()),
        ChunkRead::Data(whole[cut..].to_vec()),
    ];
    let mut sink = Vec::new();
    assert_eq!(drive(&reads, true, &mut sink), Ok(String::new()));
    assert_eq!(
        sink,
        vec![SinkEvent::MalformedChunk(0), SinkEvent::MalformedChunk(1)]
    );
}

#[test]
fn marker_split_across_chunks_loses_the_fragment() {
    let reads = vec![
        chunk("{\"text\": \"kept\"}, {\"te"),
        chunk("xt\": \"hi\"}"),
    ];
    let mut sink = Vec::new();
    assert_eq!(drive(&reads, true, &mut sink), Ok("kept".to_string()));
}

#[test]
fn value_split_across_chunks_loses_the_fragment() {
    let reads = vec![chunk("{\"text\": \"Hel"), chunk("lo\"}")];
    let mut sink = Vec::new();
    assert_eq!(drive(&reads, true, &mut sink), Ok(String::new()));
}

#[test]
fn failed_read_ends_the_call_with_a_network_error() {
    let reads = vec![
        chunk("{\"text\": \"ab\"}"),
        ChunkRead::Failed("connection reset".to_string()),
        chunk("{\"text\": \"never seen\"}"),
        ChunkRead::Failed("second failure".to_string()),
    ];
    let mut sink = Vec::new();
    assert_eq!(
        drive(&reads, false, &mut sink),
        Err(GemsError::Network("connection reset".to_string()))
    );
    assert_eq!(sink, typed("ab", 5));
}

#[test]
fn cancelled_read_ends_the_call_with_a_cancellation() {
    let reads = vec![
        chunk("{\"text\": \"ab\"}"),
        ChunkRead::Cancelled,
        ChunkRead::Failed("never reached".to_string()),
    ];
    let mut sink = Vec::new();
    assert_eq!(drive(&reads, true, &mut sink), Err(GemsError::Cancelled));
    assert!(sink.is_empty());
}

#[test]
fn driver_can_be_fed_chunk_by_chunk() {
    let mut driver = ChunkedStreamDriver::new(2, false);
    assert_eq!(driver.feed(b"{\"text\": \"ab\"}"), typed("ab", 2));
    assert_eq!(driver.message(), "ab");
    assert_eq!(
        driver.feed(&[0xff]),
        vec![SinkEvent::MalformedChunk(1)]
    );
    assert_eq!(driver.message(), "ab");
    assert_eq!(driver.feed(b"nothing"), vec![]);
    assert_eq!(driver.feed(b"{\"text\": \"\"}"), vec![SinkEvent::LineBreak]);
    assert_eq!(driver.feed(b"{\"text\": \"c\"}"), typed("c", 2));
    assert_eq!(driver.finish(), "abc");
}

#[test]
fn drivers_that_run_side_by_side_do_not_mix_their_messages() {
    let first = ["{\"text\": \"one \"}", "{\"text\": \"two \"}", "{\"text\": \"three\"}"];
    let second = ["{\"text\": \"uno \"}", "{\"text\": \"dos \"}", "{\"text\": \"tres\"}"];
    let mut a = ChunkedStreamDriver::new(5, true);
    let mut b = ChunkedStreamDriver::new(5, true);
    for i in 0..3 {
        a.feed(first[i].as_bytes());
        b.feed(second[i].as_bytes());
    }
    let alone: Vec<ChunkRead> = first.iter().map(|text| chunk(text)).collect();
    let mut sink = Vec::new();
    assert_eq!(drive(&alone, true, &mut sink), Ok(a.message().clone()));
    assert_eq!(a.finish(), "one two three");
    assert_eq!(b.finish(), "uno dos tres");
}

#[test]
fn decoding_accepts_utf8_only() {
    assert_eq!(decode_chunk("héllo".as_bytes()), Ok("héllo"));
    assert_eq!(decode_chunk(b""), Ok(""));
    assert_eq!(decode_chunk(&[0xc3]), Err(GemsError::MalformedChunk));
    assert_eq!(decode_chunk(&[0xed, 0xa0, 0x80]), Err(GemsError::MalformedChunk));
    assert_eq!(decode_chunk(&[0xc0, 0x80]), Err(GemsError::MalformedChunk));
}

fn alone(stream: &[Vec<u8>], suppress: bool) -> StreamOutcome {
    let reads: Vec<ChunkRead> = stream
        .iter()
        .map(|bytes| ChunkRead::Data(bytes.clone()))
        .collect();
    let mut events = Vec::new();
    let message = drive(&reads, suppress, &mut events).unwrap();
    StreamOutcome { message, events }
}

fn three_streams() -> Vec<Vec<Vec<u8>>> {
    let bytes = |text: &str| text.as_bytes().to_vec();
    vec![
        vec![
            bytes("{\"text\": \"one \"}"),
            bytes("{\"text\": \"two\\nthree\"}"),
            vec![0xff, 0xfe],
            bytes("{\"text\": \" four\"}"),
        ],
        vec![],
        vec![
            bytes("{\"text\": \"uno\"}"),
            bytes("nothing here"),
            bytes("{\"text\": \" dos\"}"),
        ],
    ]
}

#[test]
fn calls_side_by_side_give_what_each_gives_alone_whatever_the_turns() {
    let streams = three_streams();
    let schedules: Vec<Vec<usize>> = vec![
        vec![],
        vec![0, 0, 0, 0, 2, 2, 2],
        vec![2, 2, 2, 0, 0, 0, 0],
        vec![0, 2, 0, 2, 0, 2, 0],
        vec![2, 0, 1, 7, 2, 2, 2, 2, 0],
        vec![1, 1, 1, usize::MAX],
        vec![0, 2],
    ];
    for suppress in [true, false] {
        let expected: Vec<StreamOutcome> = streams
            .iter()
            .map(|stream| alone(stream, suppress))
            .collect();
        for turns in schedules.iter() {
            assert_eq!(drive_interleaved(&streams, turns, suppress), expected);
        }
    }
}

#[test]
fn calls_side_by_side_keep_their_messages_apart() {
    let outcomes = drive_interleaved(&three_streams(), &vec![2, 0, 2, 0, 2, 0, 0], true);
    assert_eq!(outcomes.len(), 3);
    assert_eq!(outcomes[0].message, "one twothree four");
    assert_eq!(outcomes[0].events, vec![SinkEvent::MalformedChunk(2)]);
    assert_eq!(outcomes[1].message, "");
    assert!(outcomes[1].events.is_empty());
    assert_eq!(outcomes[2].message, "uno dos");
    assert!(outcomes[2].events.is_empty());
}

#[test]
fn no_calls_side_by_side_give_no_outcome() {
    assert!(drive_interleaved(&vec![], &vec![0, 1, 2], false).is_empty());
}
