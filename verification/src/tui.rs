//! The decisions of the terminal interface: what a key does to the state of
//! the application, and how the lines of an answer join the chat history.
//! Nothing here draws or reads the terminal.

use crate::assembler::{fragment_lines, line_texts, EmitLine, StreamTextAssembler};
use crate::cli::{is_user_text, user_message};
use crate::client::{selected_model, Client, ClientView, GEMINI_BASE_URL};
use crate::driver::{chunk_fragment, chunk_text, decode_chunk};
use crate::error::GemsError;
use crate::models::Model;
use crate::stream::Stream;
use crate::text::{chars_of, matches_at, occurs_at};
use crate::traits::CTrait;
use crate::utils::extract_text_from_partial_json;
use vstd::prelude::*;
use vstd::string::StringExecFns;
use vstd::utf8::valid_utf8;

verus! {

/// The input that takes what is typed.
#[derive(Debug, Clone, Copy, PartialEq, Eq, Structural)]
pub enum CurrentInput {
    ApiKey,
    SelectedModel,
    ChatInput,
}

/// The tabs of the interface, in the order in which they are shown.
#[derive(Debug, Clone, Copy, PartialEq, Eq, Structural)]
pub enum Tab {
    Settings,
    Chat,
    History,
    System,
}

impl Tab {
    /// The place of the tab among the tabs, from zero.
    pub open spec fn position(self) -> int {
        match self {
            Tab::Settings => 0,
            Tab::Chat => 1,
            Tab::History => 2,
            Tab::System => 3,
        }
    }

    /// The tab to the right, and the first tab after the last.
    pub open spec fn following(self) -> Tab {
        match self {
            Tab::Settings => Tab::Chat,
            Tab::Chat => Tab::History,
            Tab::History => Tab::System,
            Tab::System => Tab::Settings,
        }
    }

    /// The tab to the left, and the last tab before the first.
    pub open spec fn preceding(self) -> Tab {
        match self {
            Tab::Settings => Tab::System,
            Tab::Chat => Tab::Settings,
            Tab::History => Tab::Chat,
            Tab::System => Tab::History,
        }
    }

    /// The tab to the right, and the first tab after the last.
    pub fn next(self) -> (tab: Self)
        ensures
            tab == self.following(),
            tab.position() == (self.position() + 1) % 4,
    {
        match self {
            Tab::Settings => Tab::Chat,
            Tab::Chat => Tab::History,
            Tab::History => Tab::System,
            Tab::System => Tab::Settings,
        }
    }

    /// The tab to the left, and the last tab before the first.
    pub fn previous(self) -> (tab: Self)
        ensures
            tab == self.preceding(),
            tab.position() == (self.position() + 3) % 4,
    {
        match self {
            Tab::Settings => Tab::System,
            Tab::Chat => Tab::Settings,
            Tab::History => Tab::Chat,
            Tab::System => Tab::History,
        }
    }

    /// The place of the tab among the tabs, from zero.
    pub fn index(self) -> (index: usize)
        ensures
            index == self.position(),
    {
        match self {
            Tab::Settings => 0,
            Tab::Chat => 1,
            Tab::History => 2,
            Tab::System => 3,
        }
    }

    /// The title of the tab.
    pub fn title(self) -> (title: &'static str)
        ensures
            title@ == match self {
                Tab::Settings => "🔐 Settings"@,
                Tab::Chat => "💬 Chat"@,
                Tab::History => "📜 History"@,
                Tab::System => "⚙️ System"@,
            },
    {
        match self {
            Tab::Settings => "🔐 Settings",
            Tab::Chat => "💬 Chat",
            Tab::History => "📜 History",
            Tab::System => "⚙️ System",
        }
    }
}

/// Going right and then left, or left and then right, comes back to the
/// same tab, and four steps either way go once around.
pub proof fn lemma_tabs_cycle(tab: Tab)
    ensures
        tab.following().preceding() == tab,
        tab.preceding().following() == tab,
        tab.following().following().following().following() == tab,
        tab.preceding().preceding().preceding().preceding() == tab,
{
}

/// Whether keys are commands or text.
#[derive(Debug, Clone, Copy, PartialEq, Eq, Structural)]
pub enum InputMode {
    Normal,
    Editing,
}

/// A key, as far as the interface tells keys apart.
#[derive(Debug, Clone, Copy, PartialEq, Eq, Structural)]
pub enum Key {
    Char(char),
    Left,
    Right,
    Up,
    Down,
    PageUp,
    PageDown,
    Esc,
    Enter,
    Tab,
    Other,
}

/// What the holder of the terminal is to do after a key.
#[derive(Debug, Clone, Copy, PartialEq, Eq, Structural)]
pub enum TuiAction {
    /// Nothing but to draw again.
    Redraw,
    /// Leave the interface.
    Quit,
    /// Send what the chat input holds, then empty it.
    SendChat,
    /// Make a client from the API key and the model that were typed.
    SaveSettings,
    /// Hand the key to this input.
    Edit(CurrentInput),
}

/// The state of the interface that keys act on.
#[derive(Debug, Clone, Copy, PartialEq, Eq, Structural)]
pub struct Controls {
    pub input_mode: InputMode,
    pub selected_tab: Tab,
    pub current_input: Option<CurrentInput>,
    pub scroll_chat: u16,
}

/// `offset` moved down by `lines`, as far as a `u16` goes.
pub open spec fn scrolled_down(offset: u16, lines: u16) -> u16 {
    if offset + lines <= u16::MAX {
        (offset + lines) as u16
    } else {
        u16::MAX
    }
}

/// `offset` moved up by `lines`, as far as the top.
pub open spec fn scrolled_up(offset: u16, lines: u16) -> u16 {
    if offset >= lines {
        (offset - lines) as u16
    } else {
        0
    }
}

/// The input that editing begins with on a tab.
pub open spec fn first_input(tab: Tab) -> Option<CurrentInput> {
    match tab {
        Tab::Settings => Some(CurrentInput::ApiKey),
        Tab::Chat => Some(CurrentInput::ChatInput),
        _ => None,
    }
}

/// The state after a key that is a command.
pub open spec fn after_command(controls: Controls, key: Key) -> (Controls, TuiAction) {
    match key {
        Key::Char('q') => (controls, TuiAction::Quit),
        Key::Char('e') => (
            Controls {
                input_mode: InputMode::Editing,
                current_input: first_input(controls.selected_tab),
                ..controls
            },
            TuiAction::Redraw,
        ),
        Key::Right | Key::Char('d') => (
            Controls { selected_tab: controls.selected_tab.following(), ..controls },
            TuiAction::Redraw,
        ),
        Key::Left | Key::Char('a') => (
            Controls { selected_tab: controls.selected_tab.preceding(), ..controls },
            TuiAction::Redraw,
        ),
        Key::Up => (
            Controls { scroll_chat: scrolled_up(controls.scroll_chat, 1), ..controls },
            TuiAction::Redraw,
        ),
        Key::Down => (
            Controls { scroll_chat: scrolled_down(controls.scroll_chat, 1), ..controls },
            TuiAction::Redraw,
        ),
        Key::PageUp => (
            Controls { scroll_chat: scrolled_up(controls.scroll_chat, 5), ..controls },
            TuiAction::Redraw,
        ),
        Key::PageDown => (
            Controls { scroll_chat: scrolled_down(controls.scroll_chat, 5), ..controls },
            TuiAction::Redraw,
        ),
        _ => (controls, TuiAction::Redraw),
    }
}

/// The state after a key while text is edited.
pub open spec fn after_edit(controls: Controls, key: Key) -> (Controls, TuiAction) {
    match key {
        Key::Esc => (Controls { input_mode: InputMode::Normal, ..controls }, TuiAction::Redraw),
        Key::Enter => match controls.selected_tab {
            Tab::Chat => (Controls { scroll_chat: 0, ..controls }, TuiAction::SendChat),
            Tab::Settings => (controls, TuiAction::SaveSettings),
            _ => (controls, TuiAction::Redraw),
        },
        Key::Tab => match controls.current_input {
            Some(CurrentInput::ApiKey) => (
                Controls { current_input: Some(CurrentInput::SelectedModel), ..controls },
                TuiAction::Redraw,
            ),
            Some(CurrentInput::SelectedModel) => (
                Controls { current_input: Some(CurrentInput::ApiKey), ..controls },
                TuiAction::Redraw,
            ),
            _ => (controls, TuiAction::Redraw),
        },
        _ => match controls.selected_tab {
            Tab::Settings => match controls.current_input {
                Some(CurrentInput::ApiKey) => (controls, TuiAction::Edit(CurrentInput::ApiKey)),
                Some(CurrentInput::SelectedModel) => (
                    controls,
                    TuiAction::Edit(CurrentInput::SelectedModel),
                ),
                _ => (controls, TuiAction::Redraw),
            },
            Tab::Chat => (controls, TuiAction::Edit(CurrentInput::ChatInput)),
            _ => (controls, TuiAction::Redraw),
        },
    }
}

/// The state after a key, and what is to be done for it.
pub open spec fn after_key(controls: Controls, key: Key) -> (Controls, TuiAction) {
    match controls.input_mode {
        InputMode::Normal => after_command(controls, key),
        InputMode::Editing => after_edit(controls, key),
    }
}

impl Controls {
    /// The state in which the interface starts: commands, on the settings
    /// tab, at the top of the chat.
    pub fn new() -> (controls: Self)
        ensures
            controls == (Controls {
                input_mode: InputMode::Normal,
                selected_tab: Tab::Settings,
                current_input: None,
                scroll_chat: 0,
            }),
    {
        Controls {
            input_mode: InputMode::Normal,
            selected_tab: Tab::Settings,
            current_input: None,
            scroll_chat: 0,
        }
    }

    /// Whether `input` is the one being edited, and so is to be shown as
    /// active.
    pub fn is_active(&self, input: CurrentInput) -> (active: bool)
        ensures
            active == (self.input_mode == InputMode::Editing && self.current_input == Some(
                input,
            )),
    {
        match self.input_mode {
            InputMode::Normal => false,
            InputMode::Editing => match self.current_input {
                Some(current) => current == input,
                None => false,
            },
        }
    }
}

fn scroll_down(offset: u16, lines: u16) -> (moved: u16)
    ensures
        moved == scrolled_down(offset, lines),
{
    if offset <= u16::MAX - lines {
        offset + lines
    } else {
        u16::MAX
    }
}

fn scroll_up(offset: u16, lines: u16) -> (moved: u16)
    ensures
        moved == scrolled_up(offset, lines),
{
    if offset >= lines {
        offset - lines
    } else {
        0
    }
}

fn handle_command(controls: Controls, key: Key) -> (out: (Controls, TuiAction))
    ensures
        out == after_command(controls, key),
{
    let mut next = controls;
    match key {
        Key::Char(c) => {
            if c == 'q' {
                return (controls, TuiAction::Quit);
            } else if c == 'e' {
                next.input_mode = InputMode::Editing;
                next.current_input = match controls.selected_tab {
                    Tab::Settings => Some(CurrentInput::ApiKey),
                    Tab::Chat => Some(CurrentInput::ChatInput),
                    _ => None,
                };
            } else if c == 'd' {
                next.selected_tab = controls.selected_tab.next();
            } else if c == 'a' {
                next.selected_tab = controls.selected_tab.previous();
            }
        },
        Key::Right => {
            next.selected_tab = controls.selected_tab.next();
        },
        Key::Left => {
            next.selected_tab = controls.selected_tab.previous();
        },
        Key::Up => {
            next.scroll_chat = scroll_up(controls.scroll_chat, 1);
        },
        Key::Down => {
            next.scroll_chat = scroll_down(controls.scroll_chat, 1);
        },
        Key::PageUp => {
            next.scroll_chat = scroll_up(controls.scroll_chat, 5);
        },
        Key::PageDown => {
            next.scroll_chat = scroll_down(controls.scroll_chat, 5);
        },
        _ => {},
    }
    (next, TuiAction::Redraw)
}

fn handle_edit(controls: Controls, key: Key) -> (out: (Controls, TuiAction))
    ensures
        out == after_edit(controls, key),
{
    let mut next = controls;
    match key {
        Key::Esc => {
            next.input_mode = InputMode::Normal;
            (next, TuiAction::Redraw)
        },
        Key::Enter => match controls.selected_tab {
            Tab::Chat => {
                next.scroll_chat = 0;
                (next, TuiAction::SendChat)
            },
            Tab::Settings => (next, TuiAction::SaveSettings),
            _ => (next, TuiAction::Redraw),
        },
        Key::Tab => {
            match controls.current_input {
                Some(CurrentInput::ApiKey) => {
                    next.current_input = Some(CurrentInput::SelectedModel);
                },
                Some(CurrentInput::SelectedModel) => {
                    next.current_input = Some(CurrentInput::ApiKey);
                },
                _ => {},
            }
            (next, TuiAction::Redraw)
        },
        _ => match controls.selected_tab {
            Tab::Settings => match controls.current_input {
                Some(CurrentInput::ApiKey) => (next, TuiAction::Edit(CurrentInput::ApiKey)),
                Some(CurrentInput::SelectedModel) => (
                    next,
                    TuiAction::Edit(CurrentInput::SelectedModel),
                ),
                _ => (next, TuiAction::Redraw),
            },
            Tab::Chat => (next, TuiAction::Edit(CurrentInput::ChatInput)),
            _ => (next, TuiAction::Redraw),
        },
    }
}

/// Takes a key: the state after it, and what is to be done for it.
pub fn handle_key(controls: Controls, key: Key) -> (out: (Controls, TuiAction))
    ensures
        out == after_key(controls, key),
{
    match controls.input_mode {
        InputMode::Normal => handle_command(controls, key),
        InputMode::Editing => handle_edit(controls, key),
    }
}

/// The column of the cursor in an input that starts at column `origin` and
/// is scrolled by `scroll` characters: one past the border, then as far in
/// as the cursor is beyond the scroll. It stops at the last column that a
/// `u16` can name.
pub open spec fn cursor_at(origin: u16, cursor: usize, scroll: usize) -> u16 {
    let inside = if cursor > scroll {
        cursor - scroll
    } else {
        0
    };
    if origin + inside + 1 <= u16::MAX {
        (origin + inside + 1) as u16
    } else {
        u16::MAX
    }
}

/// The column of the cursor in an input.
pub fn cursor_column(origin: u16, cursor: usize, scroll: usize) -> (column: u16)
    ensures
        column == cursor_at(origin, cursor, scroll),
{
    let inside: usize = if cursor > scroll {
        cursor - scroll
    } else {
        0
    };
    let room: u16 = u16::MAX - origin;
    if room == 0 || inside > (room - 1) as usize {
        u16::MAX
    } else {
        origin + (inside as u16) + 1
    }
}

/// The side of the chat on which a line stands.
#[derive(Debug, Clone, Copy, PartialEq, Eq, Structural)]
pub enum Alignment {
    Left,
    Right,
}

/// One line of the chat history: its spans of text, and its side.
#[derive(Debug, Clone, PartialEq, Eq)]
pub struct HistoryLine {
    pub spans: Vec<String>,
    pub alignment: Alignment,
}

/// The mathematical value of a `HistoryLine`.
pub struct HistoryLineView {
    pub spans: Seq<Seq<char>>,
    pub alignment: Alignment,
}

impl View for HistoryLine {
    type V = HistoryLineView;

    open spec fn view(&self) -> HistoryLineView {
        HistoryLineView {
            spans: self.spans@.map_values(|span: String| span@),
            alignment: self.alignment,
        }
    }
}

/// The views of the lines of a history.
pub open spec fn history_views(history: Seq<HistoryLine>) -> Seq<HistoryLineView> {
    history.map_values(|line: HistoryLine| line@)
}

/// What the first span of a line of the model begins with.
pub open spec fn reply_mark() -> Seq<char> {
    "🤖 Gemini:"@
}

/// The first span of a line of the model.
pub open spec fn reply_label() -> Seq<char> {
    "🤖 Gemini: "@
}

/// What follows the message of the user on its line.
pub open spec fn user_label() -> Seq<char> {
    " :You 🧑"@
}

/// Whether a line reads as one of the model: its first span begins with the
/// mark of the model.
pub open spec fn is_reply(line: HistoryLineView) -> bool {
    line.spans.len() > 0 && occurs_at(line.spans[0], reply_mark(), 0)
}

/// The history after one more line of an answer. It joins the last line
/// behind a space where that line reads as one of the model, and else opens
/// a line of the model on the left.
pub open spec fn with_reply(history: Seq<HistoryLineView>, text: Seq<char>) -> Seq<
    HistoryLineView,
> {
    if history.len() > 0 && is_reply(history.last()) {
        history.drop_last().push(
            HistoryLineView { spans: history.last().spans.push(" "@ + text), ..history.last() },
        )
    } else {
        history.push(
            HistoryLineView { spans: seq![reply_label(), text], alignment: Alignment::Left },
        )
    }
}

/// A line of an answer changes nothing above the last line of the history:
/// it joins that line or stands below it.
pub proof fn lemma_reply_keeps_earlier_lines(history: Seq<HistoryLineView>, text: Seq<char>)
    ensures
        with_reply(history, text).len() >= history.len(),
        with_reply(history, text).len() >= 1,
        forall|i: int|
            0 <= i < history.len() - 1 ==> with_reply(history, text)[i] == #[trigger] history[i],
        is_reply(with_reply(history, text).last()),
{
    reveal_strlit("🤖 Gemini:");
    reveal_strlit("🤖 Gemini: ");
    if history.len() > 0 && is_reply(history.last()) {
        let joined = with_reply(history, text).last();
        assert(joined.spans[0] == history.last().spans[0]);
    }
}

/// Whether a line reads as one of the model.
pub fn reads_as_reply(line: &HistoryLine) -> (reply: bool)
    ensures
        reply == is_reply(line@),
{
    if line.spans.len() == 0 {
        return false;
    }
    let first = chars_of(line.spans[0].as_str());
    let mark = chars_of("🤖 Gemini:");
    matches_at(&first, &mark, 0)
}

/// The line of a message of the user: the message and the label of the
/// user, on the right.
pub fn user_line(message: &str) -> (line: HistoryLine)
    ensures
        line@ == (HistoryLineView {
            spans: seq![message@ + user_label()],
            alignment: Alignment::Right,
        }),
{
    let line = HistoryLine {
        spans: vec![message.to_owned().concat(" :You 🧑")],
        alignment: Alignment::Right,
    };
    assert(line@.spans =~= seq![message@ + user_label()]);
    line
}

/// A line that holds `text` as it is, on the left.
pub fn notice_line(text: String) -> (line: HistoryLine)
    ensures
        line@ == (HistoryLineView { spans: seq![text@], alignment: Alignment::Left }),
{
    let line = HistoryLine { spans: vec![text], alignment: Alignment::Left };
    assert(line@.spans =~= seq![text@]);
    line
}

/// Adds one more line of an answer to the history.
pub fn push_reply(history: &mut Vec<HistoryLine>, text: &str)
    ensures
        history_views(final(history)@) == with_reply(history_views(old(history)@), text@),
{
    let ghost before = history_views(history@);
    let joins = history.len() > 0 && reads_as_reply(&history[history.len() - 1]);
    if joins {
        let mut last = match history.pop() {
            Some(line) => line,
            None => HistoryLine { spans: Vec::new(), alignment: Alignment::Left },
        };
        let ghost spans = last@.spans;
        assert(history_views(history@) =~= before.drop_last());
        last.spans.push(" ".to_owned().concat(text));
        assert(last@.spans =~= spans.push(" "@ + text@));
        let ghost joined = last@;
        history.push(last);
        assert(history_views(history@) =~= before.drop_last().push(joined));
    } else {
        let line = HistoryLine {
            spans: vec!["🤖 Gemini: ".to_owned(), text.to_owned()],
            alignment: Alignment::Left,
        };
        assert(line@.spans =~= seq![reply_label(), text@]);
        let ghost opened = line@;
        history.push(line);
        assert(history_views(history@) =~= before.push(opened));
    }
}

/// The history after the lines of an answer, each added in turn.
pub open spec fn with_replies(history: Seq<HistoryLineView>, lines: Seq<Seq<char>>) -> Seq<
    HistoryLineView,
>
    decreases lines.len(),
{
    if lines.len() == 0 {
        history
    } else {
        with_reply(with_replies(history, lines.drop_last()), lines.last())
    }
}

/// How long the interface pauses after each line of an answer, in
/// milliseconds.
pub const REPLY_PAUSE_MS: u64 = 50;

/// The pauses after `lines` lines of an answer: one after each, all of the
/// same length.
pub open spec fn reply_pauses(lines: nat) -> Seq<u64> {
    Seq::new(lines, |i: int| REPLY_PAUSE_MS)
}

/// Takes the next chunk of the stream that answers a chat. The lines of its
/// fragment, blank ones too, join the history in order, and their text is
/// added to the message of `assembler`; the result is the pauses to make,
/// one after each line. A chunk that is not UTF-8 changes nothing, and the
/// result is nothing.
pub fn take_chunk(
    history: &mut Vec<HistoryLine>,
    assembler: &mut StreamTextAssembler,
    chunk: &[u8],
) -> (taken: Option<Vec<u64>>)
    ensures
        final(assembler)@ == old(assembler)@ + chunk_text(chunk@),
        match taken {
            Some(pauses) => {
                &&& valid_utf8(chunk@)
                &&& pauses@ == reply_pauses(fragment_lines(chunk_fragment(chunk@)).len())
                &&& history_views(final(history)@) == with_replies(
                    history_views(old(history)@),
                    fragment_lines(chunk_fragment(chunk@)),
                )
            },
            None => !valid_utf8(chunk@) && final(history)@ == old(history)@,
        },
{
    let text = match decode_chunk(chunk) {
        Ok(text) => text,
        Err(_) => {
            assert(assembler@ + Seq::<char>::empty() =~= assembler@);
            return None;
        },
    };
    let lines = assembler.push_fragment(extract_text_from_partial_json(text));
    let ghost texts = line_texts(lines@);
    let mut pauses: Vec<u64> = Vec::new();
    let mut i: usize = 0;
    assert(pauses@ =~= reply_pauses(0));
    while i < lines.len()
        invariant
            i <= lines.len(),
            texts == line_texts(lines@),
            pauses@ == reply_pauses(i as nat),
            history_views(history@) == with_replies(
                history_views(old(history)@),
                texts.take(i as int),
            ),
        decreases lines.len() - i,
    {
        assert(texts.take(i + 1).drop_last() =~= texts.take(i as int));
        pauses.push(REPLY_PAUSE_MS);
        assert(pauses@ =~= reply_pauses((i + 1) as nat));
        match &lines[i] {
            EmitLine::Text(text) => push_reply(history, text.as_str()),
            EmitLine::Blank => {
                proof {
                    reveal_strlit("");
                    assert(""@ =~= Seq::<char>::empty());
                }
                push_reply(history, "")
            },
        }
        i += 1;
    }
    assert(texts.take(lines.len() as int) =~= texts);
    Some(pauses)
}

/// The parameters of the stream that answers `message`: the fast model, and
/// the message as one of the user.
pub fn chat_stream(message: String) -> (params: Stream)
    ensures
        params.model == Model::Flash20,
        is_user_text(params.input, message@),
        params.system is None,
{
    Stream { model: Model::Flash20, input: user_message(message), system: None }
}

/// The client that the settings describe: for the model that `model` names,
/// or the default model where it names none, with `api_key` as its key.
pub fn client_from_settings(api_key: String, model: &str) -> (client: Result<Client, GemsError>)
    ensures
        client matches Ok(made) && made@ == (ClientView {
            api_key: Some(api_key@),
            model: selected_model(model@),
            base_url: GEMINI_BASE_URL@,
        }),
{
    match Client::builder().model(model).build() {
        Ok(mut made) => {
            made.set_api_key(api_key);
            Ok(made)
        },
        Err(error) => Err(error),
    }
}

} // verus!
