use onvif_console::confirm_exit::ConfirmExitScreen;
use onvif_console::device_docs::DeviceDoc;
use onvif_console::keys::{KeyCode, KeyEvent};
use onvif_console::prompt::{BarStatus, CommandSignal, PromptBox};
use onvif_console::renderable_screen::RenderableScreen;
use onvif_console::renderable_widget::RenderableWidget;

fn submit(prompt: &mut PromptBox, line: &str) {
    for c in line.chars() {
        prompt.handle_input(KeyEvent::press(KeyCode::Char(c)));
    }
    prompt.handle_input(KeyEvent::press(KeyCode::Enter));
}

#[test]
fn valid_addresses_parse() {
    for good in [
        "0.0.0.0",
        "1.2.3.4",
        "10.0.0.5",
        "192.168.1.1",
        "255.255.255.255",
        "017.0.0.1",
        "199.099.009.000",
    ] {
        let doc = DeviceDoc::from_str(good).expect(good);
        assert_eq!(doc.ip().as_str(), good);
    }
}

#[test]
fn invalid_addresses_are_rejected() {
    for bad in [
        "",
        "1.2.3",
        "1.2.3.4.5",
        "256.1.1.1",
        "1.2.3.299",
        "300.1.1.1",
        "a.b.c.d",
        "1.2.3.4 ",
        " 1.2.3.4",
        "1..2.3",
        "1.2.3.",
        "not-an-ip",
        "1234.1.1.1",
    ] {
        assert!(DeviceDoc::from_str(bad).is_err(), "{bad:?}");
    }
}

#[test]
fn add_without_argument_is_an_error() {
    let mut prompt = PromptBox::new();
    submit(&mut prompt, "add");
    assert!(prompt.command.is_none());
    assert!(matches!(&prompt.status, Some(BarStatus::Error(m)) if m.as_str() == "Can't add nothing"));
}

#[test]
fn add_with_valid_argument_emits_command() {
    let mut prompt = PromptBox::new();
    submit(&mut prompt, "  add   10.0.0.5  ");
    assert!(prompt.status.is_none());
    match prompt.command.take() {
        Some(CommandSignal::AddItem(text)) => assert_eq!(text, "10.0.0.5"),
        other => panic!("unexpected: {other:?}"),
    }
    assert!(prompt.buffer.is_empty());
    assert_eq!(prompt.cursor, 0);
}

#[test]
fn delete_index_must_be_numeric() {
    let mut prompt = PromptBox::new();
    submit(&mut prompt, "del abc");
    assert!(prompt.command.is_none());
    assert!(matches!(&prompt.status, Some(BarStatus::Error(m)) if m.as_str() == "Cannot parse index abc"));
}

#[test]
fn delete_accepts_plus_prefixed_index() {
    let mut prompt = PromptBox::new();
    submit(&mut prompt, "rm +1");
    assert!(matches!(
        prompt.command.take(),
        Some(CommandSignal::DelItem(Some(1)))
    ));
}

#[test]
fn delete_rejects_huge_index() {
    let mut prompt = PromptBox::new();
    submit(&mut prompt, "del 99999999999999999999999999");
    assert!(prompt.command.is_none());
    assert!(matches!(&prompt.status, Some(BarStatus::Error(_))));
}

#[test]
fn delete_without_argument_targets_selection() {
    let mut prompt = PromptBox::new();
    submit(&mut prompt, "del");
    assert!(matches!(
        prompt.command.take(),
        Some(CommandSignal::DelItem(None))
    ));
}

#[test]
fn help_and_exit_synonyms_emit_commands() {
    for line in ["?", "help"] {
        let mut prompt = PromptBox::new();
        submit(&mut prompt, line);
        assert!(matches!(prompt.command.take(), Some(CommandSignal::Help)));
    }
    for line in ["exit", "quit", "close"] {
        let mut prompt = PromptBox::new();
        submit(&mut prompt, line);
        assert!(matches!(prompt.command.take(), Some(CommandSignal::Exit)));
    }
}

#[test]
fn unknown_command_warns_with_its_name() {
    let mut prompt = PromptBox::new();
    submit(&mut prompt, "frobnicate now");
    assert!(prompt.command.is_none());
    assert!(
        matches!(&prompt.status, Some(BarStatus::Warning(m)) if m.as_str() == "Unknown command frobnicate")
    );
}

#[test]
fn commands_are_case_sensitive() {
    let mut prompt = PromptBox::new();
    submit(&mut prompt, "ADD 10.0.0.5");
    assert!(prompt.command.is_none());
    assert!(matches!(&prompt.status, Some(BarStatus::Warning(m)) if m.as_str() == "Unknown command ADD"));
}

#[test]
fn empty_line_changes_nothing() {
    let mut prompt = PromptBox::new();
    submit(&mut prompt, "   ");
    assert!(prompt.command.is_none());
    assert!(prompt.status.is_none());
    assert!(prompt.buffer.is_empty());
}

#[test]
fn line_editing_follows_the_cursor() {
    let mut prompt = PromptBox::new();
    for c in "ad".chars() {
        prompt.handle_input(KeyEvent::press(KeyCode::Char(c)));
    }
    prompt.handle_input(KeyEvent::press(KeyCode::Left));
    prompt.handle_input(KeyEvent::press(KeyCode::Char('d')));
    assert_eq!(prompt.buffer, vec!['a', 'd', 'd']);
    assert_eq!(prompt.cursor, 2);
    prompt.handle_input(KeyEvent::press(KeyCode::End));
    assert_eq!(prompt.cursor, 3);
    prompt.handle_input(KeyEvent::press(KeyCode::Backspace));
    assert_eq!(prompt.buffer, vec!['a', 'd']);
    prompt.handle_input(KeyEvent::press(KeyCode::Home));
    prompt.handle_input(KeyEvent::press(KeyCode::Delete));
    assert_eq!(prompt.buffer, vec!['d']);
    assert_eq!(prompt.text(), "d");
}

#[test]
fn confirm_exit_resolves_on_any_key() {
    let mut popup = ConfirmExitScreen::new();
    assert!(popup.should_exit.is_none());
    popup.handle_input(KeyEvent::press(KeyCode::Esc));
    assert_eq!(popup.should_exit, Some(true));
    let mut popup = ConfirmExitScreen::default();
    popup.handle_input(KeyEvent::press(KeyCode::Char('q')));
    assert_eq!(popup.should_exit, Some(false));
    assert!(!popup.warning_text().is_empty());
}
