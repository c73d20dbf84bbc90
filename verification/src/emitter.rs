//! The paced emitter: decides what is written to the output sink for each
//! line, and when to pause, while it keeps a transcript of all it was given.
//! It performs no output itself: its steps are for the caller to carry out.

use crate::assembler::EmitLine;
use crate::utils::type_with_cursor_effect;
use vstd::prelude::*;
use vstd::string::StringExecFns;

verus! {

/// The pause after each character, in milliseconds, where the caller names
/// none.
pub const DEFAULT_DELAY_MS: u64 = 5;

/// One thing for the holder of the output sink to do.
#[derive(Debug, Clone, Copy, PartialEq, Eq, Structural)]
pub enum SinkEvent {
    /// Write this character and flush.
    Write(char),
    /// Wait this many milliseconds.
    Pause(u64),
    /// Print a line break.
    LineBreak,
    /// Warn that the chunk with this index was not UTF-8 and was skipped.
    MalformedChunk(usize),
}

/// The event that writes `c`.
pub open spec fn write_of(c: char) -> SinkEvent {
    SinkEvent::Write(c)
}

/// The steps that type `text` out: each character, and a pause after each.
pub open spec fn typing_steps(text: Seq<char>, delay: u64) -> Seq<SinkEvent>
    decreases text.len(),
{
    if text.len() == 0 {
        Seq::empty()
    } else {
        typing_steps(text.drop_last(), delay).push(write_of(text.last())).push(
            SinkEvent::Pause(delay),
        )
    }
}

/// The steps for one line. A suppressed line is not shown at all; a blank
/// line is a line break; any other line is typed out.
pub open spec fn line_steps(line: Seq<char>, delay: u64, suppress: bool) -> Seq<SinkEvent> {
    if suppress {
        Seq::empty()
    } else if line.len() == 0 {
        seq![SinkEvent::LineBreak]
    } else {
        typing_steps(line, delay)
    }
}

/// The steps for a sequence of lines, in order.
pub open spec fn lines_steps(lines: Seq<Seq<char>>, delay: u64, suppress: bool) -> Seq<SinkEvent> {
    lines.flat_map(|line: Seq<char>| line_steps(line, delay, suppress))
}

/// The emitter of one streaming call.
pub struct PacedEmitter {
    transcript: String,
}

impl View for PacedEmitter {
    type V = Seq<char>;

    /// The transcript: the text of every line emitted so far.
    closed spec fn view(&self) -> Seq<char> {
        self.transcript@
    }
}

impl PacedEmitter {
    /// An emitter with an empty transcript.
    pub fn new() -> (emitter: Self)
        ensures
            emitter@ == Seq::<char>::empty(),
    {
        PacedEmitter { transcript: String::new() }
    }

    /// Emits one line: appends it to the transcript, whether shown or not,
    /// and returns the steps that show it.
    pub fn emit(&mut self, line: &EmitLine, delay_ms: u64, suppress: bool) -> (steps: Vec<
        SinkEvent,
    >)
        ensures
            steps@ == line_steps(line@, delay_ms, suppress),
            final(self)@ == old(self)@ + line@,
    {
        match line {
            EmitLine::Text(text) => {
                self.transcript.append(text.as_str());
                if suppress {
                    Vec::new()
                } else if text.as_str().is_empty() {
                    vec![SinkEvent::LineBreak]
                } else {
                    type_with_cursor_effect(text.as_str(), delay_ms)
                }
            },
            EmitLine::Blank => {
                assert(self@ + line@ =~= self@);
                if suppress {
                    Vec::new()
                } else {
                    vec![SinkEvent::LineBreak]
                }
            },
        }
    }

    /// The transcript so far.
    pub fn transcript(&self) -> (transcript: &String)
        ensures
            transcript@ == self@,
    {
        &self.transcript
    }
}

/// The characters that a sequence of events writes, in order.
pub open spec fn written(events: Seq<SinkEvent>) -> Seq<char>
    decreases events.len(),
{
    if events.len() == 0 {
        Seq::empty()
    } else {
        match events.last() {
            SinkEvent::Write(c) => written(events.drop_last()).push(c),
            _ => written(events.drop_last()),
        }
    }
}

/// One more event writes its character, where it is a write, and else
/// nothing.
pub proof fn lemma_written_push(events: Seq<SinkEvent>, event: SinkEvent)
    ensures
        written(events.push(event)) == match event {
            SinkEvent::Write(c) => written(events).push(c),
            _ => written(events),
        },
{
    assert(events.push(event).drop_last() =~= events);
}

/// What two sequences of events write one after the other is what they
/// write as one.
pub proof fn lemma_written_concat(first: Seq<SinkEvent>, second: Seq<SinkEvent>)
    ensures
        written(first + second) == written(first) + written(second),
    decreases second.len(),
{
    if second.len() == 0 {
        assert(first + second =~= first);
        assert(written(first) + Seq::<char>::empty() =~= written(first));
    } else {
        lemma_written_concat(first, second.drop_last());
        assert((first + second).drop_last() =~= first + second.drop_last());
        assert(written(first + second) =~= written(first) + written(second));
    }
}

/// Typing a text out writes that text, whatever the delay.
pub proof fn lemma_typing_writes_the_text(text: Seq<char>, delay: u64)
    ensures
        written(typing_steps(text, delay)) == text,
    decreases text.len(),
{
    if text.len() == 0 {
        assert(text =~= Seq::<char>::empty());
    } else {
        lemma_typing_writes_the_text(text.drop_last(), delay);
        let before = typing_steps(text.drop_last(), delay);
        let typed = write_of(text.last());
        lemma_written_push(before, typed);
        lemma_written_push(before.push(typed), SinkEvent::Pause(delay));
        assert(text.drop_last().push(text.last()) =~= text);
    }
}

/// The lines of a stream that is shown are written in full and in order:
/// what reaches the sink is the text of the lines, one after the other.
pub proof fn lemma_shown_lines_write_their_text(lines: Seq<Seq<char>>, delay: u64)
    ensures
        written(lines_steps(lines, delay, false)) == lines.flatten(),
    decreases lines.len(),
{
    let steps = |line: Seq<char>| line_steps(line, delay, false);
    if lines.len() == 0 {
        assert(lines.flat_map(steps) =~= Seq::<SinkEvent>::empty());
        assert(lines.flatten() =~= Seq::<char>::empty());
    } else {
        let earlier = lines.drop_last();
        let line = lines.last();
        lemma_shown_lines_write_their_text(earlier, delay);
        assert(earlier.push(line) =~= lines);
        earlier.lemma_flat_map_push(steps, line);
        earlier.lemma_flatten_push(line);
        lemma_written_concat(earlier.flat_map(steps), steps(line));
        if line.len() == 0 {
            lemma_written_push(Seq::empty(), SinkEvent::LineBreak);
            assert(seq![SinkEvent::LineBreak] =~= Seq::<SinkEvent>::empty().push(
                SinkEvent::LineBreak,
            ));
            assert(line =~= Seq::<char>::empty());
        } else {
            lemma_typing_writes_the_text(line, delay);
        }
    }
}

} // verus!
