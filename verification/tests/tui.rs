use gems::client::Method;
use gems::messages::{Content, Message};
use gems::models::Model;
use gems::traits::CTrait;
use gems::assembler::StreamTextAssembler;
use gems::tui::{
    chat_stream, client_from_settings, cursor_column, handle_key, notice_line, push_reply,
    reads_as_reply, take_chunk, user_line, Alignment, Controls, CurrentInput, HistoryLine,
    InputMode, Key, Tab, TuiAction, REPLY_PAUSE_MS,
};

const TABS: [Tab; 4] = [Tab::Settings, Tab::Chat, Tab::History, Tab::System];

#[test]
fn tabs_go_round_to_the_right() {
    assert_eq!(Tab::Settings.next(), Tab::Chat);
    assert_eq!(Tab::Chat.next(), Tab::History);
    assert_eq!(Tab::History.next(), Tab::System);
    assert_eq!(Tab::System.next(), Tab::Settings);
}

#[test]
fn tabs_go_round_to_the_left() {
    assert_eq!(Tab::Settings.previous(), Tab::System);
    assert_eq!(Tab::Chat.previous(), Tab::Settings);
    assert_eq!(Tab::History.previous(), Tab::Chat);
    assert_eq!(Tab::System.previous(), Tab::History);
}

#[test]
fn next_and_previous_undo_each_other() {
    for tab in TABS {
        assert_eq!(tab.next().previous(), tab);
        assert_eq!(tab.previous().next(), tab);
        assert_eq!(tab.next().next().next().next(), tab);
    }
}

#[test]
fn tabs_are_numbered_and_titled_in_order() {
    assert_eq!(
        TABS.map(|tab| tab.index()),
        [0, 1, 2, 3]
    );
    assert_eq!(
        TABS.map(|tab| tab.title()),
        ["🔐 Settings", "💬 Chat", "📜 History", "⚙️ System"]
    );
}

fn on(tab: Tab, mode: InputMode, input: Option<CurrentInput>) -> Controls {
    Controls {
        input_mode: mode,
        selected_tab: tab,
        current_input: input,
        scroll_chat: 10,
    }
}

#[test]
fn interface_starts_with_commands_on_the_settings_tab() {
    assert_eq!(
        Controls::new(),
        Controls {
            input_mode: InputMode::Normal,
            selected_tab: Tab::Settings,
            current_input: None,
            scroll_chat: 0,
        }
    );
}

#[test]
fn q_quits_and_changes_nothing() {
    let controls = on(Tab::Chat, InputMode::Normal, None);
    assert_eq!(
        handle_key(controls, Key::Char('q')),
        (controls, TuiAction::Quit)
    );
}

#[test]
fn e_begins_editing_the_first_input_of_the_tab() {
    let expect = |tab: Tab, input: Option<CurrentInput>| {
        assert_eq!(
            handle_key(on(tab, InputMode::Normal, None), Key::Char('e')),
            (on(tab, InputMode::Editing, input), TuiAction::Redraw)
        );
    };
    expect(Tab::Settings, Some(CurrentInput::ApiKey));
    expect(Tab::Chat, Some(CurrentInput::ChatInput));
    expect(Tab::History, None);
    expect(Tab::System, None);
}

#[test]
fn arrows_and_letters_switch_tabs() {
    let at = |tab: Tab| on(tab, InputMode::Normal, None);
    for key in [Key::Right, Key::Char('d')] {
        assert_eq!(
            handle_key(at(Tab::System), key),
            (at(Tab::Settings), TuiAction::Redraw)
        );
    }
    for key in [Key::Left, Key::Char('a')] {
        assert_eq!(
            handle_key(at(Tab::Settings), key),
            (at(Tab::System), TuiAction::Redraw)
        );
    }
}

fn scrolled(from: u16, key: Key) -> u16 {
    let mut controls = on(Tab::Chat, InputMode::Normal, None);
    controls.scroll_chat = from;
    let (next, action) = handle_key(controls, key);
    assert_eq!(action, TuiAction::Redraw);
    controls.scroll_chat = next.scroll_chat;
    assert_eq!(next, controls);
    next.scroll_chat
}

#[test]
fn scrolling_stops_at_the_top_and_at_the_largest_offset() {
    assert_eq!(scrolled(10, Key::Up), 9);
    assert_eq!(scrolled(0, Key::Up), 0);
    assert_eq!(scrolled(10, Key::Down), 11);
    assert_eq!(scrolled(u16::MAX, Key::Down), u16::MAX);
    assert_eq!(scrolled(10, Key::PageUp), 5);
    assert_eq!(scrolled(3, Key::PageUp), 0);
    assert_eq!(scrolled(10, Key::PageDown), 15);
    assert_eq!(scrolled(u16::MAX - 2, Key::PageDown), u16::MAX);
    assert_eq!(scrolled(u16::MAX - 5, Key::PageDown), u16::MAX);
}

#[test]
fn other_keys_are_no_commands() {
    let controls = on(Tab::Chat, InputMode::Normal, None);
    for key in [Key::Char('x'), Key::Esc, Key::Enter, Key::Tab, Key::Other] {
        assert_eq!(handle_key(controls, key), (controls, TuiAction::Redraw));
    }
}

#[test]
fn escape_ends_editing() {
    assert_eq!(
        handle_key(
            on(Tab::Chat, InputMode::Editing, Some(CurrentInput::ChatInput)),
            Key::Esc
        ),
        (
            on(Tab::Chat, InputMode::Normal, Some(CurrentInput::ChatInput)),
            TuiAction::Redraw
        )
    );
}

#[test]
fn enter_sends_the_chat_and_scrolls_to_the_top() {
    let controls = on(Tab::Chat, InputMode::Editing, Some(CurrentInput::ChatInput));
    let mut expected = controls;
    expected.scroll_chat = 0;
    assert_eq!(
        handle_key(controls, Key::Enter),
        (expected, TuiAction::SendChat)
    );
}

#[test]
fn enter_saves_the_settings() {
    let controls = on(
        Tab::Settings,
        InputMode::Editing,
        Some(CurrentInput::SelectedModel),
    );
    assert_eq!(
        handle_key(controls, Key::Enter),
        (controls, TuiAction::SaveSettings)
    );
    let elsewhere = on(Tab::History, InputMode::Editing, None);
    assert_eq!(
        handle_key(elsewhere, Key::Enter),
        (elsewhere, TuiAction::Redraw)
    );
}

#[test]
fn tab_key_switches_between_key_and_model() {
    let editing = |input: Option<CurrentInput>| on(Tab::Settings, InputMode::Editing, input);
    assert_eq!(
        handle_key(editing(Some(CurrentInput::ApiKey)), Key::Tab),
        (editing(Some(CurrentInput::SelectedModel)), TuiAction::Redraw)
    );
    assert_eq!(
        handle_key(editing(Some(CurrentInput::SelectedModel)), Key::Tab),
        (editing(Some(CurrentInput::ApiKey)), TuiAction::Redraw)
    );
    assert_eq!(
        handle_key(editing(Some(CurrentInput::ChatInput)), Key::Tab),
        (editing(Some(CurrentInput::ChatInput)), TuiAction::Redraw)
    );
    assert_eq!(
        handle_key(editing(None), Key::Tab),
        (editing(None), TuiAction::Redraw)
    );
}

#[test]
fn typed_keys_go_to_the_input_being_edited() {
    let settings = |input: Option<CurrentInput>| on(Tab::Settings, InputMode::Editing, input);
    for key in [Key::Char('q'), Key::Char('e'), Key::Left, Key::Up, Key::Other] {
        assert_eq!(
            handle_key(settings(Some(CurrentInput::ApiKey)), key),
            (
                settings(Some(CurrentInput::ApiKey)),
                TuiAction::Edit(CurrentInput::ApiKey)
            )
        );
        assert_eq!(
            handle_key(settings(Some(CurrentInput::SelectedModel)), key),
            (
                settings(Some(CurrentInput::SelectedModel)),
                TuiAction::Edit(CurrentInput::SelectedModel)
            )
        );
        assert_eq!(
            handle_key(settings(None), key),
            (settings(None), TuiAction::Redraw)
        );
        let chat = on(Tab::Chat, InputMode::Editing, None);
        assert_eq!(
            handle_key(chat, key),
            (chat, TuiAction::Edit(CurrentInput::ChatInput))
        );
        let history = on(Tab::History, InputMode::Editing, Some(CurrentInput::ApiKey));
        assert_eq!(handle_key(history, key), (history, TuiAction::Redraw));
    }
}

#[test]
fn input_is_active_only_while_it_is_edited() {
    let editing = on(Tab::Settings, InputMode::Editing, Some(CurrentInput::ApiKey));
    assert!(editing.is_active(CurrentInput::ApiKey));
    assert!(!editing.is_active(CurrentInput::SelectedModel));
    let normal = on(Tab::Settings, InputMode::Normal, Some(CurrentInput::ApiKey));
    assert!(!normal.is_active(CurrentInput::ApiKey));
}

#[test]
fn cursor_stands_one_past_the_border_and_follows_the_text() {
    assert_eq!(cursor_column(1, 0, 0), 2);
    assert_eq!(cursor_column(1, 5, 0), 7);
    assert_eq!(cursor_column(1, 30, 20), 12);
    assert_eq!(cursor_column(1, 5, 20), 2);
    assert_eq!(cursor_column(u16::MAX, 0, 0), u16::MAX);
    assert_eq!(cursor_column(u16::MAX - 1, 0, 0), u16::MAX);
    assert_eq!(cursor_column(u16::MAX - 2, 0, 0), u16::MAX - 1);
    assert_eq!(cursor_column(0, usize::MAX, 0), u16::MAX);
    assert_eq!(cursor_column(0, 65534, 0), u16::MAX);
    assert_eq!(cursor_column(0, 65533, 0), 65534);
}

fn line(spans: &[&str], alignment: Alignment) -> HistoryLine {
    HistoryLine {
        spans: spans.iter().map(|span| span.to_string()).collect(),
        alignment,
    }
}

#[test]
fn message_of_the_user_stands_on_the_right_with_its_label() {
    assert_eq!(
        user_line("Hello"),
        line(&["Hello :You 🧑"], Alignment::Right)
    );
}

#[test]
fn notice_stands_on_the_left_as_it_is() {
    assert_eq!(
        notice_line("Failed to parse chunk: [255]".to_string()),
        line(&["Failed to parse chunk: [255]"], Alignment::Left)
    );
}

#[test]
fn first_line_of_an_answer_opens_a_line_of_the_model() {
    let mut history = vec![user_line("Hello")];
    push_reply(&mut history, "Hi");
    assert_eq!(
        history,
        vec![
            line(&["Hello :You 🧑"], Alignment::Right),
            line(&["🤖 Gemini: ", "Hi"], Alignment::Left),
        ]
    );
}

#[test]
fn later_lines_of_an_answer_join_the_line_of_the_model() {
    let mut history = Vec::new();
    push_reply(&mut history, "Hi");
    push_reply(&mut history, "");
    push_reply(&mut history, "there");
    assert_eq!(
        history,
        vec![line(&["🤖 Gemini: ", "Hi", " ", " there"], Alignment::Left)]
    );
}

#[test]
fn line_reads_as_one_of_the_model_by_its_first_span() {
    assert!(reads_as_reply(&line(&["🤖 Gemini: ", "x"], Alignment::Left)));
    assert!(reads_as_reply(&line(&["🤖 Gemini:"], Alignment::Right)));
    assert!(!reads_as_reply(&line(&["🤖 Gemini"], Alignment::Left)));
    assert!(!reads_as_reply(&line(&[" 🤖 Gemini: "], Alignment::Left)));
    assert!(!reads_as_reply(&line(&["x", "🤖 Gemini: "], Alignment::Left)));
    assert!(!reads_as_reply(&line(&[], Alignment::Left)));
}

#[test]
fn answer_joins_a_message_of_the_user_that_reads_as_one_of_the_model() {
    let mut history = vec![user_line("🤖 Gemini: pretend")];
    push_reply(&mut history, "Hi");
    assert_eq!(
        history,
        vec![line(
            &["🤖 Gemini: pretend :You 🧑", " Hi"],
            Alignment::Right
        )]
    );
}

#[test]
fn chunk_of_an_answer_joins_the_history_line_by_line() {
    let mut history = vec![user_line("Hello")];
    let mut assembler = StreamTextAssembler::new();
    assert_eq!(
        take_chunk(
            &mut history,
            &mut assembler,
            b"{\"text\": \"Hi\\n\\nthere\"}"
        ),
        Some(vec![50, 50, 50])
    );
    assert_eq!(
        take_chunk(&mut history, &mut assembler, b"{\"text\": \"!\"}"),
        Some(vec![REPLY_PAUSE_MS])
    );
    assert_eq!(REPLY_PAUSE_MS, 50);
    assert_eq!(
        take_chunk(&mut history, &mut assembler, b"no text"),
        Some(vec![])
    );
    assert_eq!(
        history,
        vec![
            line(&["Hello :You 🧑"], Alignment::Right),
            line(
                &["🤖 Gemini: ", "Hi", " ", " there", " !"],
                Alignment::Left
            ),
        ]
    );
    assert_eq!(assembler.message(), "Hithere!");
}

#[test]
fn chunk_that_is_not_utf8_leaves_the_history_alone() {
    let mut history = vec![user_line("Hello")];
    let mut assembler = StreamTextAssembler::new();
    assert_eq!(take_chunk(&mut history, &mut assembler, &[0xff, 0xfe]), None);
    assert_eq!(history, vec![user_line("Hello")]);
    assert_eq!(assembler.message(), "");
}

#[test]
fn chat_is_streamed_from_the_fast_model() {
    let stream = chat_stream("Hello".to_string());
    assert_eq!(stream.model, Model::Flash20);
    assert_eq!(
        stream.input,
        Message::User {
            content: Content::Text("Hello".to_string()),
            name: None
        }
    );
    assert!(stream.system.is_none());
}

#[test]
fn settings_make_a_client_with_key_and_model() {
    let client = client_from_settings("k3y".to_string(), "gemini-1.5-pro").unwrap();
    assert_eq!(client.get_api_key(), Some("k3y".to_string()));
    assert_eq!(client.get_model(), Model::Pro15);
    let other = client_from_settings(String::new(), "gpt").unwrap();
    assert_eq!(other.get_api_key(), Some(String::new()));
    assert_eq!(other.get_model(), Model::Flash20);
    assert!(other.request(Method::Get, "models").is_ok());
}
