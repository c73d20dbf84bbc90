//! The chunked stream driver: feeds the raw chunks of one streaming call, in
//! arrival order, through the extractor, the assembler and the emitter.

use crate::assembler::{
    fragment_lines, fragment_text, is_clean, lemma_clean_fragment_is_one_line, line_texts,
    EmitLine, StreamTextAssembler,
};
use crate::emitter::{
    lemma_shown_lines_write_their_text, lemma_written_concat, lemma_written_push, line_steps,
    lines_steps, written,
    PacedEmitter, SinkEvent, DEFAULT_DELAY_MS,
};
use crate::error::{GemsError, GemsErrorView};
use crate::text::contains;
use crate::utils::{
    extract_text_from_partial_json, extracted_text, lemma_no_marker_no_text, text_marker,
};
use vstd::prelude::*;
use vstd::string::StringSliceAdditionalSpecFns;
use vstd::utf8::{decode_utf8, encode_utf8_decode_utf8, valid_utf8};

verus! {

/// The error of `core::str::from_utf8`. It is carried, never read.
#[verifier::external_type_specification]
#[verifier::external_body]
pub struct ExUtf8Error(core::str::Utf8Error);

/// `core::str::from_utf8` accepts exactly the byte sequences that are valid
/// UTF-8, and the string it returns has those bytes as its encoding.
pub assume_specification[ core::str::from_utf8 ](v: &[u8]) -> (res: Result<
    &str,
    core::str::Utf8Error,
>)
    ensures
        res is Ok <==> valid_utf8(v@),
        res matches Ok(s) ==> s.spec_bytes() == v@,
;

/// The fragment that one chunk holds: the text value of its characters,
/// where the chunk is UTF-8 and holds one.
pub open spec fn chunk_fragment(chunk: Seq<u8>) -> Option<Seq<char>> {
    if valid_utf8(chunk) {
        extracted_text(decode_utf8(chunk))
    } else {
        None
    }
}

/// What one chunk adds to the accumulated message.
pub open spec fn chunk_text(chunk: Seq<u8>) -> Seq<char> {
    fragment_text(chunk_fragment(chunk))
}

/// What one chunk, the `index`-th of its stream, sends to the sink: a
/// warning where it is not UTF-8, else the steps of its lines.
pub open spec fn chunk_events(chunk: Seq<u8>, index: usize, delay: u64, suppress: bool) -> Seq<
    SinkEvent,
> {
    if valid_utf8(chunk) {
        lines_steps(fragment_lines(chunk_fragment(chunk)), delay, suppress)
    } else {
        seq![SinkEvent::MalformedChunk(index)]
    }
}

/// The characters of a chunk, where it is UTF-8.
pub fn decode_chunk(chunk: &[u8]) -> (decoded: Result<&str, GemsError>)
    ensures
        match decoded {
            Ok(text) => valid_utf8(chunk@) && text@ == decode_utf8(chunk@),
            Err(error) => !valid_utf8(chunk@) && error@ == GemsErrorView::MalformedChunk,
        },
{
    match core::str::from_utf8(chunk) {
        Ok(text) => {
            proof {
                encode_utf8_decode_utf8(text@);
            }
            Ok(text)
        },
        Err(_) => Err(GemsError::MalformedChunk),
    }
}

/// The text that a stream of chunks accumulates: what each chunk adds, in
/// arrival order.
pub open spec fn stream_text(chunks: Seq<Seq<u8>>) -> Seq<char>
    decreases chunks.len(),
{
    if chunks.len() == 0 {
        Seq::empty()
    } else {
        stream_text(chunks.drop_last()) + chunk_text(chunks.last())
    }
}

/// What a stream of chunks sends to the sink, in arrival order.
pub open spec fn stream_events(chunks: Seq<Seq<u8>>, delay: u64, suppress: bool) -> Seq<
    SinkEvent,
>
    decreases chunks.len(),
{
    if chunks.len() == 0 {
        Seq::empty()
    } else {
        stream_events(chunks.drop_last(), delay, suppress) + chunk_events(
            chunks.last(),
            (chunks.len() - 1) as usize,
            delay,
            suppress,
        )
    }
}

/// The steps that show `lines`, in order; each line goes to the transcript of
/// `emitter`.
fn emit_lines(emitter: &mut PacedEmitter, lines: &Vec<EmitLine>, delay_ms: u64, suppress: bool) -> (events:
    Vec<SinkEvent>)
    ensures
        events@ == lines_steps(line_texts(lines@), delay_ms, suppress),
        final(emitter)@ == old(emitter)@ + line_texts(lines@).flatten(),
{
    let ghost steps = |line: Seq<char>| line_steps(line, delay_ms, suppress);
    let mut events: Vec<SinkEvent> = Vec::new();
    let mut i: usize = 0;
    assert(events@ =~= line_texts(lines@).take(0).flat_map(steps));
    assert(emitter@ =~= emitter@ + line_texts(lines@).take(0).flatten());
    while i < lines.len()
        invariant
            i <= lines.len(),
            steps == |line: Seq<char>| line_steps(line, delay_ms, suppress),
            events@ == line_texts(lines@).take(i as int).flat_map(steps),
            emitter@ == old(emitter)@ + line_texts(lines@).take(i as int).flatten(),
        decreases lines.len() - i,
    {
        let mut shown = emitter.emit(&lines[i], delay_ms, suppress);
        proof {
            let texts = line_texts(lines@);
            texts.lemma_flat_map_take_append(steps, i as int);
            texts.take(i as int).lemma_flatten_push(texts[i as int]);
            assert(texts.take(i + 1) =~= texts.take(i as int).push(texts[i as int]));
        }
        events.append(&mut shown);
        i += 1;
    }
    assert(line_texts(lines@).take(lines.len() as int) =~= line_texts(lines@));
    events
}

/// The mathematical value of a driver.
pub struct DriverView {
    /// The accumulated message.
    pub message: Seq<char>,
    /// The transcript of the emitter: the text of every line it was given,
    /// shown or not.
    pub transcript: Seq<char>,
    /// How many chunks were fed, as far as a `usize` counts.
    pub fed: usize,
    /// The pause after each character shown, in milliseconds.
    pub delay: u64,
    /// Whether lines are kept from the sink.
    pub suppress: bool,
}

/// A driver that has seen no chunk.
pub open spec fn started(delay: u64, suppress: bool) -> DriverView {
    DriverView { message: Seq::empty(), transcript: Seq::empty(), fed: 0, delay, suppress }
}

/// A driver after it took `chunk`: message and transcript have grown by what
/// the chunk adds, the count by one as far as a `usize` counts, and nothing
/// else has changed.
pub open spec fn fed(driver: DriverView, chunk: Seq<u8>) -> DriverView {
    DriverView {
        message: driver.message + chunk_text(chunk),
        transcript: driver.transcript + chunk_text(chunk),
        fed: if driver.fed < usize::MAX {
            (driver.fed + 1) as usize
        } else {
            driver.fed
        },
        ..driver
    }
}

/// The driver of one streaming call.
pub struct ChunkedStreamDriver {
    assembler: StreamTextAssembler,
    emitter: PacedEmitter,
    delay_ms: u64,
    suppress: bool,
    fed: usize,
}

impl View for ChunkedStreamDriver {
    type V = DriverView;

    closed spec fn view(&self) -> DriverView {
        DriverView {
            message: self.assembler@,
            transcript: self.emitter@,
            fed: self.fed,
            delay: self.delay_ms,
            suppress: self.suppress,
        }
    }
}

impl ChunkedStreamDriver {
    /// A driver that has seen no chunk.
    pub fn new(delay_ms: u64, suppress: bool) -> (driver: Self)
        ensures
            driver@ == started(delay_ms, suppress),
    {
        ChunkedStreamDriver {
            assembler: StreamTextAssembler::new(),
            emitter: PacedEmitter::new(),
            delay_ms,
            suppress,
            fed: 0,
        }
    }

    /// Takes the next chunk of the stream and returns what goes to the sink
    /// for it. A chunk that is not UTF-8 changes nothing but the count, and
    /// gives a warning; any other adds the cleaned text of its fragment, if
    /// it holds one, to the message.
    pub fn feed(&mut self, chunk: &[u8]) -> (events: Vec<SinkEvent>)
        ensures
            final(self)@ == fed(old(self)@, chunk@),
            final(self)@.message == old(self)@.message + chunk_text(chunk@),
            events@ == chunk_events(chunk@, old(self)@.fed, old(self)@.delay, old(self)@.suppress),
    {
        let index = self.fed;
        if self.fed < usize::MAX {
            self.fed = self.fed + 1;
        }
        match decode_chunk(chunk) {
            Err(_) => {
                assert(self.assembler@ + Seq::<char>::empty() =~= self.assembler@);
                assert(self.emitter@ + Seq::<char>::empty() =~= self.emitter@);
                vec![SinkEvent::MalformedChunk(index)]
            },
            Ok(text) => {
                let fragment = extract_text_from_partial_json(text);
                let lines = self.assembler.push_fragment(fragment);
                emit_lines(&mut self.emitter, &lines, self.delay_ms, self.suppress)
            },
        }
    }

    /// The message accumulated so far. It is there in full however slowly
    /// the sink is written.
    pub fn message(&self) -> (message: &String)
        ensures
            message@ == self@.message,
    {
        self.assembler.message()
    }

    /// Ends the call when the stream has ended: the finished message.
    pub fn finish(self) -> (message: String)
        ensures
            message@ == self@.message,
    {
        self.assembler.finish()
    }
}

/// What reading the next chunk of a response body gave: its bytes, the
/// failure of the transport, or nothing because the caller called the
/// stream off before the read.
#[derive(Debug, Clone, PartialEq, Eq)]
pub enum ChunkRead {
    Data(Vec<u8>),
    Failed(String),
    Cancelled,
}

impl ChunkRead {
    /// The bytes that were read; none where nothing was.
    pub open spec fn bytes(self) -> Seq<u8> {
        match self {
            ChunkRead::Data(bytes) => bytes@,
            _ => Seq::empty(),
        }
    }

    /// The error that the read ends the call with, where it gave no bytes:
    /// a network error with the account of the transport, or the
    /// cancellation.
    pub open spec fn error(self) -> Option<GemsErrorView> {
        match self {
            ChunkRead::Data(_) => None,
            ChunkRead::Failed(why) => Some(GemsErrorView::Network(why@)),
            ChunkRead::Cancelled => Some(GemsErrorView::Cancelled),
        }
    }
}

/// The chunks of a sequence of reads.
pub open spec fn chunks_of(reads: Seq<ChunkRead>) -> Seq<Seq<u8>> {
    reads.map_values(|read: ChunkRead| read.bytes())
}

/// The index of the first read at or after `from` that gave no bytes.
pub open spec fn first_stop(reads: Seq<ChunkRead>, from: int) -> Option<int>
    decreases reads.len() - from,
{
    if from < 0 || from >= reads.len() {
        None
    } else if !(reads[from] is Data) {
        Some(from)
    } else {
        first_stop(reads, from + 1)
    }
}

/// Drives one streaming call over the reads of its response body, in arrival
/// order, and returns the accumulated message once the body has ended.
///
/// What is to be shown goes to `sink`, typed out with the default delay, or
/// not at all where `suppress` is set. A chunk that is not UTF-8 is skipped
/// with a warning. The first read that gave no bytes ends the call, with a
/// network error where the transport failed and with the cancellation where
/// the caller called the stream off; the sink then holds what the chunks
/// before it gave.
pub fn drive(reads: &Vec<ChunkRead>, suppress: bool, sink: &mut Vec<SinkEvent>) -> (res: Result<
    String,
    GemsError,
>)
    ensures
        match first_stop(reads@, 0) {
            None => {
                &&& res matches Ok(message) && message@ == stream_text(chunks_of(reads@))
                &&& final(sink)@ == old(sink)@ + stream_events(
                    chunks_of(reads@),
                    DEFAULT_DELAY_MS,
                    suppress,
                )
            },
            Some(at) => {
                &&& res matches Err(error) && reads@[at].error() == Some(error@)
                &&& final(sink)@ == old(sink)@ + stream_events(
                    chunks_of(reads@.take(at)),
                    DEFAULT_DELAY_MS,
                    suppress,
                )
            },
        },
{
    let mut driver = ChunkedStreamDriver::new(DEFAULT_DELAY_MS, suppress);
    let mut i: usize = 0;
    assert(sink@ =~= old(sink)@ + stream_events(
        chunks_of(reads@.take(0)),
        DEFAULT_DELAY_MS,
        suppress,
    ));
    while i < reads.len()
        invariant
            i <= reads.len(),
            first_stop(reads@, 0) == first_stop(reads@, i as int),
            driver@.message == stream_text(chunks_of(reads@.take(i as int))),
            driver@.fed == i,
            driver@.delay == DEFAULT_DELAY_MS,
            driver@.suppress == suppress,
            sink@ == old(sink)@ + stream_events(
                chunks_of(reads@.take(i as int)),
                DEFAULT_DELAY_MS,
                suppress,
            ),
        decreases reads.len() - i,
    {
        match &reads[i] {
            ChunkRead::Failed(why) => {
                return Err(GemsError::Network(why.clone()));
            },
            ChunkRead::Cancelled => {
                return Err(GemsError::Cancelled);
            },
            ChunkRead::Data(bytes) => {
                let mut events = driver.feed(bytes.as_slice());
                proof {
                    let chunks = chunks_of(reads@.take(i + 1));
                    assert(chunks.drop_last() =~= chunks_of(reads@.take(i as int)));
                    assert(chunks.last() == bytes@);
                }
                sink.append(&mut events);
            },
        }
        i += 1;
    }
    assert(reads@.take(reads.len() as int) =~= reads@);
    Ok(driver.finish())
}

/// The text of a stream is that of its chunks in arrival order: a stream in
/// two parts accumulates the text of the first part and then that of the
/// second.
pub proof fn lemma_stream_text_concat(first: Seq<Seq<u8>>, second: Seq<Seq<u8>>)
    ensures
        stream_text(first + second) == stream_text(first) + stream_text(second),
    decreases second.len(),
{
    if second.len() == 0 {
        assert(first + second =~= first);
        assert(stream_text(first) + Seq::<char>::empty() =~= stream_text(first));
    } else {
        lemma_stream_text_concat(first, second.drop_last());
        assert((first + second).drop_last() =~= first + second.drop_last());
        assert(stream_text(first + second) =~= stream_text(first) + stream_text(second));
    }
}

/// The text of a stream of one chunk is what that chunk adds to the message.
pub proof fn lemma_stream_text_of_one(chunk: Seq<u8>)
    ensures
        stream_text(seq![chunk]) == chunk_text(chunk),
{
    let one = seq![chunk];
    assert(one.drop_last() =~= Seq::<Seq<u8>>::empty());
    assert(one.last() == chunk);
    assert(stream_text(one.drop_last()) == Seq::<char>::empty());
    assert(stream_text(one) == stream_text(one.drop_last()) + chunk_text(one.last()));
    assert(Seq::<char>::empty() + chunk_text(chunk) =~= chunk_text(chunk));
}

/// A chunk whose characters hold no whole marker adds nothing to the
/// message, and neither does a chunk that is not UTF-8.
pub proof fn lemma_chunk_without_marker_adds_nothing(chunk: Seq<u8>)
    requires
        valid_utf8(chunk) ==> !contains(decode_utf8(chunk), text_marker()),
    ensures
        chunk_fragment(chunk) is None,
        chunk_text(chunk) == Seq::<char>::empty(),
{
    if valid_utf8(chunk) {
        lemma_no_marker_no_text(decode_utf8(chunk));
    }
}

/// Text whose marker is cut by the boundary between chunks is lost: where no
/// chunk of a stream holds a whole marker, the message stays empty, whatever
/// the chunks would hold if they were read as one.
pub proof fn lemma_split_marker_is_lost(chunks: Seq<Seq<u8>>)
    requires
        forall|i: int|
            0 <= i < chunks.len() && valid_utf8(#[trigger] chunks[i]) ==> !contains(
                decode_utf8(chunks[i]),
                text_marker(),
            ),
    ensures
        stream_text(chunks) == Seq::<char>::empty(),
    decreases chunks.len(),
{
    if chunks.len() > 0 {
        lemma_split_marker_is_lost(chunks.drop_last());
        lemma_chunk_without_marker_adds_nothing(chunks.last());
        assert(stream_text(chunks) =~= Seq::<char>::empty());
    }
}

/// A chunk whose fragment is clean, with no backslash and no newline, adds
/// that fragment to the message as it is.
pub proof fn lemma_clean_chunk_adds_its_fragment(chunk: Seq<u8>)
    requires
        valid_utf8(chunk),
        extracted_text(decode_utf8(chunk)) matches Some(fragment) && is_clean(fragment),
    ensures
        chunk_text(chunk) == extracted_text(decode_utf8(chunk))->0,
{
    lemma_clean_fragment_is_one_line(extracted_text(decode_utf8(chunk))->0);
}

/// Nothing of a suppressed line reaches the sink.
pub proof fn lemma_suppressed_lines_are_silent(lines: Seq<Seq<char>>, delay: u64)
    ensures
        lines_steps(lines, delay, true) == Seq::<SinkEvent>::empty(),
    decreases lines.len(),
{
    let steps = |line: Seq<char>| line_steps(line, delay, true);
    if lines.len() == 0 {
        assert(lines.flat_map(steps) =~= Seq::<SinkEvent>::empty());
    } else {
        lemma_suppressed_lines_are_silent(lines.drop_last(), delay);
        lines.drop_last().lemma_flat_map_push(steps, lines.last());
        assert(lines.drop_last().push(lines.last()) =~= lines);
        assert(lines.flat_map(steps) =~= Seq::<SinkEvent>::empty());
    }
}

/// A suppressed stream whose chunks are all UTF-8 sends nothing to the
/// sink, while its message is accumulated all the same.
pub proof fn lemma_suppressed_stream_is_silent(chunks: Seq<Seq<u8>>, delay: u64)
    requires
        forall|i: int| 0 <= i < chunks.len() ==> valid_utf8(#[trigger] chunks[i]),
    ensures
        stream_events(chunks, delay, true) == Seq::<SinkEvent>::empty(),
    decreases chunks.len(),
{
    if chunks.len() > 0 {
        lemma_suppressed_stream_is_silent(chunks.drop_last(), delay);
        lemma_suppressed_lines_are_silent(fragment_lines(chunk_fragment(chunks.last())), delay);
        assert(stream_events(chunks, delay, true) =~= Seq::<SinkEvent>::empty());
    }
}

/// What a chunk of a stream that is shown writes is what it adds to the
/// message.
pub proof fn lemma_shown_chunk_writes_its_text(chunk: Seq<u8>, index: usize, delay: u64)
    ensures
        written(chunk_events(chunk, index, delay, false)) == chunk_text(chunk),
{
    if valid_utf8(chunk) {
        lemma_shown_lines_write_their_text(fragment_lines(chunk_fragment(chunk)), delay);
        if chunk_fragment(chunk) is None {
            assert(Seq::<Seq<char>>::empty().flatten() =~= Seq::<char>::empty());
        }
    } else {
        lemma_written_push(Seq::empty(), SinkEvent::MalformedChunk(index));
        assert(seq![SinkEvent::MalformedChunk(index)] =~= Seq::<SinkEvent>::empty().push(
            SinkEvent::MalformedChunk(index),
        ));
    }
}

/// A stream that is shown writes its message: the characters that reach the
/// sink, in order, are those of the accumulated message, whatever the
/// delay.
pub proof fn lemma_shown_stream_writes_its_message(chunks: Seq<Seq<u8>>, delay: u64)
    ensures
        written(stream_events(chunks, delay, false)) == stream_text(chunks),
    decreases chunks.len(),
{
    if chunks.len() > 0 {
        let index = (chunks.len() - 1) as usize;
        lemma_shown_stream_writes_its_message(chunks.drop_last(), delay);
        lemma_shown_chunk_writes_its_text(chunks.last(), index, delay);
        lemma_written_concat(
            stream_events(chunks.drop_last(), delay, false),
            chunk_events(chunks.last(), index, delay, false),
        );
    }
}

/// `first_stop` finds a read that gave no bytes, skips none, and finds
/// none only where every read gave its bytes.
pub proof fn lemma_first_stop(reads: Seq<ChunkRead>, from: int)
    requires
        0 <= from,
    ensures
        match first_stop(reads, from) {
            Some(at) => {
                &&& from <= at < reads.len()
                &&& !(reads[at] is Data)
                &&& forall|j: int| from <= j < at ==> reads[j] is Data
            },
            None => forall|j: int| from <= j < reads.len() ==> reads[j] is Data,
        },
    decreases reads.len() - from,
{
    if from < reads.len() && reads[from] is Data {
        lemma_first_stop(reads, from + 1);
    }
}

/// The chunks of a stream.
pub open spec fn chunk_views(chunks: Seq<Vec<u8>>) -> Seq<Seq<u8>> {
    chunks.map_values(|chunk: Vec<u8>| chunk@)
}

/// One more chunk adds its text and its events behind those of the chunks
/// before it.
pub proof fn lemma_stream_takes_one_more(chunks: Seq<Seq<u8>>, taken: int, delay: u64, suppress: bool)
    requires
        0 <= taken < chunks.len(),
    ensures
        stream_text(chunks.take(taken + 1)) == stream_text(chunks.take(taken)) + chunk_text(
            chunks[taken],
        ),
        stream_events(chunks.take(taken + 1), delay, suppress) == stream_events(
            chunks.take(taken),
            delay,
            suppress,
        ) + chunk_events(chunks[taken], taken as usize, delay, suppress),
{
    assert(chunks.take(taken + 1).drop_last() =~= chunks.take(taken));
}

/// Several streaming calls that run side by side: the driver of each, and
/// how many of its chunks each has taken.
pub struct Calls {
    pub drivers: Seq<DriverView>,
    pub taken: Seq<int>,
}

/// Where the calls of `streams` stand after `turns`. Each turn names the call
/// whose next chunk arrives, and that call alone takes it; a turn that names
/// no call, or a call whose stream has ended, changes nothing.
pub open spec fn interleaved(
    streams: Seq<Seq<Seq<u8>>>,
    delay: u64,
    suppress: bool,
    turns: Seq<int>,
) -> Calls
    decreases turns.len(),
{
    if turns.len() == 0 {
        Calls {
            drivers: Seq::new(streams.len(), |i: int| started(delay, suppress)),
            taken: Seq::new(streams.len(), |i: int| 0int),
        }
    } else {
        let before = interleaved(streams, delay, suppress, turns.drop_last());
        let call = turns.last();
        if 0 <= call < streams.len() && 0 <= before.taken[call] < streams[call].len() {
            Calls {
                drivers: before.drivers.update(
                    call,
                    fed(before.drivers[call], streams[call][before.taken[call]]),
                ),
                taken: before.taken.update(call, before.taken[call] + 1),
            }
        } else {
            before
        }
    }
}

/// Calls that run side by side do not touch each other: whatever the order
/// in which their chunks arrive, the message of each call is the one that it
/// would have alone after the chunks it has taken of its own stream, in
/// their order, and once it has taken them all it is the message of its
/// whole stream. Nothing of another stream is in it and nothing of its own is
/// missing.
pub proof fn lemma_interleaved_calls_are_independent(
    streams: Seq<Seq<Seq<u8>>>,
    delay: u64,
    suppress: bool,
    turns: Seq<int>,
    call: int,
)
    requires
        0 <= call < streams.len(),
    ensures
        ({
            let calls = interleaved(streams, delay, suppress, turns);
            &&& calls.drivers.len() == streams.len()
            &&& calls.taken.len() == streams.len()
            &&& 0 <= calls.taken[call] <= streams[call].len()
            &&& calls.drivers[call].message == stream_text(streams[call].take(calls.taken[call]))
            &&& calls.drivers[call].delay == delay
            &&& calls.drivers[call].suppress == suppress
            &&& calls.taken[call] == streams[call].len() ==> calls.drivers[call].message
                == stream_text(streams[call])
        }),
    decreases turns.len(),
{
    let calls = interleaved(streams, delay, suppress, turns);
    if turns.len() == 0 {
        assert(streams[call].take(0) =~= Seq::<Seq<u8>>::empty());
    } else {
        let earlier = turns.drop_last();
        let before = interleaved(streams, delay, suppress, earlier);
        let turn = turns.last();
        lemma_interleaved_calls_are_independent(streams, delay, suppress, earlier, call);
        if 0 <= turn < streams.len() {
            lemma_interleaved_calls_are_independent(streams, delay, suppress, earlier, turn);
            if turn == call && 0 <= before.taken[call] < streams[call].len() {
                lemma_stream_takes_one_more(streams[call], before.taken[call], delay, suppress);
            }
        }
    }
    if calls.taken[call] == streams[call].len() {
        assert(streams[call].take(calls.taken[call]) =~= streams[call]);
    }
}

/// What one streaming call gave: its message, and what it sent to its sink.
#[derive(Debug, Clone, PartialEq, Eq)]
pub struct StreamOutcome {
    pub message: String,
    pub events: Vec<SinkEvent>,
}

struct RunningCall {
    driver: ChunkedStreamDriver,
    sink: Vec<SinkEvent>,
    taken: usize,
}

impl RunningCall {
    /// The call stands where it would stand alone after the chunks it has
    /// taken.
    spec fn stands_alone(self, chunks: Seq<Seq<u8>>, delay: u64, suppress: bool) -> bool {
        &&& self.taken <= chunks.len()
        &&& self.driver@.message == stream_text(chunks.take(self.taken as int))
        &&& self.driver@.fed == self.taken
        &&& self.driver@.delay == delay
        &&& self.driver@.suppress == suppress
        &&& self.sink@ == stream_events(chunks.take(self.taken as int), delay, suppress)
    }
}

spec fn all_stand_alone(
    calls: Seq<RunningCall>,
    streams: Seq<Vec<Vec<u8>>>,
    delay: u64,
    suppress: bool,
) -> bool {
    &&& calls.len() == streams.len()
    &&& forall|i: int|
        0 <= i < calls.len() ==> (#[trigger] calls[i]).stands_alone(
            chunk_views(streams[i]@),
            delay,
            suppress,
        )
}

/// Hands the call `turn` the next chunk of its stream.
fn take_turn(calls: &mut Vec<RunningCall>, streams: &Vec<Vec<Vec<u8>>>, turn: usize, suppress: bool)
    requires
        all_stand_alone(old(calls)@, streams@, DEFAULT_DELAY_MS, suppress),
        turn < streams.len(),
        old(calls)[turn as int].taken < streams[turn as int].len(),
    ensures
        all_stand_alone(final(calls)@, streams@, DEFAULT_DELAY_MS, suppress),
        final(calls)[turn as int].taken == old(calls)[turn as int].taken + 1,
        forall|i: int|
            0 <= i < streams.len() && i != turn ==> final(calls)[i] == old(calls)[i],
{
    let ghost before = calls@;
    let ghost chunks = chunk_views(streams[turn as int]@);
    let mut call = calls.remove(turn);
    assert(call == before[turn as int]);
    assert(call.stands_alone(chunks, DEFAULT_DELAY_MS, suppress));
    let chunk = &streams[turn][call.taken];
    assert(chunks[call.taken as int] == chunk@);
    proof {
        lemma_stream_takes_one_more(chunks, call.taken as int, DEFAULT_DELAY_MS, suppress);
    }
    let mut events = call.driver.feed(chunk.as_slice());
    call.sink.append(&mut events);
    call.taken = call.taken + 1;
    assert(call.stands_alone(chunks, DEFAULT_DELAY_MS, suppress));
    calls.insert(turn, call);
    assert(calls@ =~= before.update(turn as int, call));
}

/// Drives several streaming calls side by side on one task. Each turn names
/// the call whose next chunk arrives; when the turns are over, each call
/// takes what is left of its stream. Every call is shown or suppressed
/// alike, with the default delay.
///
/// Whatever the turns, each call gives exactly what it would give alone:
/// the message of its own stream and the events of its own stream.
pub fn drive_interleaved(streams: &Vec<Vec<Vec<u8>>>, turns: &Vec<usize>, suppress: bool) -> (outcomes:
    Vec<StreamOutcome>)
    ensures
        outcomes.len() == streams.len(),
        forall|i: int|
            0 <= i < streams.len() ==> {
                &&& (#[trigger] outcomes[i]).message@ == stream_text(chunk_views(streams[i]@))
                &&& outcomes[i].events@ == stream_events(
                    chunk_views(streams[i]@),
                    DEFAULT_DELAY_MS,
                    suppress,
                )
            },
{
    let mut calls: Vec<RunningCall> = Vec::new();
    let mut i: usize = 0;
    while i < streams.len()
        invariant
            i <= streams.len(),
            calls.len() == i,
            forall|j: int|
                0 <= j < i ==> (#[trigger] calls[j]).stands_alone(
                    chunk_views(streams[j]@),
                    DEFAULT_DELAY_MS,
                    suppress,
                ),
        decreases streams.len() - i,
    {
        let call = RunningCall {
            driver: ChunkedStreamDriver::new(DEFAULT_DELAY_MS, suppress),
            sink: Vec::new(),
            taken: 0,
        };
        assert(chunk_views(streams[i as int]@).take(0) =~= Seq::<Seq<u8>>::empty());
        assert(call.sink@ =~= Seq::<SinkEvent>::empty());
        calls.push(call);
        i += 1;
    }
    let mut t: usize = 0;
    while t < turns.len()
        invariant
            t <= turns.len(),
            all_stand_alone(calls@, streams@, DEFAULT_DELAY_MS, suppress),
        decreases turns.len() - t,
    {
        let turn = turns[t];
        if turn < streams.len() && calls[turn].taken < streams[turn].len() {
            take_turn(&mut calls, streams, turn, suppress);
        }
        t += 1;
    }
    let mut k: usize = 0;
    while k < streams.len()
        invariant
            k <= streams.len(),
            all_stand_alone(calls@, streams@, DEFAULT_DELAY_MS, suppress),
            forall|j: int| 0 <= j < k ==> (#[trigger] calls[j]).taken == streams[j].len(),
        decreases streams.len() - k,
    {
        while calls[k].taken < streams[k].len()
            invariant
                k < streams.len(),
                all_stand_alone(calls@, streams@, DEFAULT_DELAY_MS, suppress),
                forall|j: int| 0 <= j < k ==> (#[trigger] calls[j]).taken == streams[j].len(),
            decreases streams[k as int].len() - calls[k as int].taken,
        {
            take_turn(&mut calls, streams, k, suppress);
        }
        k += 1;
    }
    let mut outcomes: Vec<StreamOutcome> = Vec::new();
    let ghost all = calls@;
    for call in it: calls
        invariant
            all == it.seq(),
            all.len() == streams.len(),
            all_stand_alone(all, streams@, DEFAULT_DELAY_MS, suppress),
            forall|j: int| 0 <= j < all.len() ==> (#[trigger] all[j]).taken == streams[j].len(),
            outcomes.len() == it.index(),
            forall|j: int|
                0 <= j < outcomes.len() ==> {
                    &&& (#[trigger] outcomes[j]).message@ == stream_text(
                        chunk_views(streams[j]@),
                    )
                    &&& outcomes[j].events@ == stream_events(
                        chunk_views(streams[j]@),
                        DEFAULT_DELAY_MS,
                        suppress,
                    )
                },
    {
        let ghost at = it.index() as int;
        assert(call == all[at]);
        assert(all[at].stands_alone(chunk_views(streams[at]@), DEFAULT_DELAY_MS, suppress));
        assert(chunk_views(streams[at]@).take(call.taken as int) =~= chunk_views(streams[at]@));
        outcomes.push(StreamOutcome { message: call.driver.finish(), events: call.sink });
    }
    outcomes
}

} // verus!
