use onvif_console::keys::{KeyCode, KeyEvent, KeyEventKind};
use onvif_console::main_screen::MainScreen;
use onvif_console::prompt::BarStatus;
use onvif_console::renderable_screen::RenderableScreen;
use onvif_console::{help_text, App, ScreenState};

fn press(screen: &mut MainScreen, code: KeyCode) {
    screen.handle_input(KeyEvent::press(code));
}

fn type_line(screen: &mut MainScreen, line: &str) {
    for c in line.chars() {
        press(screen, KeyCode::Char(c));
    }
    press(screen, KeyCode::Enter);
}

fn ips(screen: &MainScreen) -> Vec<String> {
    screen.iplist.ips.iter().map(|d| d.ip().clone()).collect()
}

fn status_message(screen: &MainScreen) -> Option<(&'static str, String)> {
    match &screen.inputbox.status {
        Some(BarStatus::Complete(m)) => Some(("complete", m.clone())),
        Some(BarStatus::Warning(m)) => Some(("warning", m.clone())),
        Some(BarStatus::Error(m)) => Some(("error", m.clone())),
        None => None,
    }
}

#[test]
fn add_two_then_delete_first() {
    let mut screen = MainScreen::new();
    assert!(ips(&screen).is_empty());

    type_line(&mut screen, "add 10.0.0.5");
    assert_eq!(ips(&screen), vec!["10.0.0.5".to_string()]);
    assert_eq!(screen.iplist.selected, 0);
    assert_eq!(
        status_message(&screen),
        Some(("complete", "Added 10.0.0.5".to_string()))
    );

    type_line(&mut screen, "add 10.0.0.6");
    assert_eq!(
        ips(&screen),
        vec!["10.0.0.5".to_string(), "10.0.0.6".to_string()]
    );
    assert_eq!(screen.iplist.selected, 0);

    type_line(&mut screen, "del 0");
    assert_eq!(ips(&screen), vec!["10.0.0.6".to_string()]);
    assert_eq!(screen.iplist.selected, 0);
    assert_eq!(
        status_message(&screen),
        Some(("complete", "Removed 10.0.0.5".to_string()))
    );
}

#[test]
fn malformed_address_is_rejected() {
    let mut screen = MainScreen::new();
    type_line(&mut screen, "add not-an-ip");
    assert!(ips(&screen).is_empty());
    let (kind, msg) = status_message(&screen).unwrap();
    assert_eq!(kind, "warning");
    assert!(msg.contains("not-an-ip"));
    assert_eq!(msg, "not-an-ip is not a valid ipv4");
}

#[test]
fn add_then_delete_round_trip() {
    let mut screen = MainScreen::new();
    type_line(&mut screen, "add 192.168.1.1");
    assert_eq!(ips(&screen).len(), 1);
    type_line(&mut screen, "del 0");
    assert!(ips(&screen).is_empty());
    assert_eq!(screen.iplist.selected, 0);
}

#[test]
fn typed_exit_only_warns() {
    let mut screen = MainScreen::new();
    type_line(&mut screen, "exit");
    assert!(!screen.exit);
    assert!(!screen.try_exit);
    assert_eq!(
        status_message(&screen),
        Some(("warning", "press Esc to confirm exit".to_string()))
    );
}

#[test]
fn esc_twice_requests_exit() {
    let mut screen = MainScreen::new();
    press(&mut screen, KeyCode::Esc);
    assert!(screen.try_exit);
    assert!(!screen.exit);
    press(&mut screen, KeyCode::Esc);
    assert!(screen.exit);
}

#[test]
fn esc_then_other_key_cancels() {
    let mut screen = MainScreen::new();
    type_line(&mut screen, "add 10.0.0.5");
    let before_ips = ips(&screen);
    let before_buffer = screen.inputbox.buffer.clone();
    let before_status = status_message(&screen);
    press(&mut screen, KeyCode::Esc);
    press(&mut screen, KeyCode::Char('x'));
    assert!(!screen.try_exit);
    assert!(!screen.exit);
    assert_eq!(ips(&screen), before_ips);
    assert_eq!(screen.inputbox.buffer, before_buffer);
    assert_eq!(status_message(&screen), before_status);
}

#[test]
fn tokens_past_the_argument_are_ignored() {
    let mut screen = MainScreen::new();
    type_line(&mut screen, "add 10.0.0.7 junk trailing words");
    assert_eq!(ips(&screen), vec!["10.0.0.7".to_string()]);
    assert_eq!(
        status_message(&screen),
        Some(("complete", "Added 10.0.0.7".to_string()))
    );
}

#[test]
fn delete_with_nothing_to_remove_warns() {
    let mut screen = MainScreen::new();
    type_line(&mut screen, "del");
    assert!(ips(&screen).is_empty());
    assert_eq!(
        status_message(&screen),
        Some(("warning", "no items to remove".to_string()))
    );
}

#[test]
fn delete_out_of_range_names_max_index() {
    let mut screen = MainScreen::new();
    type_line(&mut screen, "add 10.0.0.1");
    type_line(&mut screen, "add 10.0.0.2");
    type_line(&mut screen, "del 5");
    assert_eq!(ips(&screen).len(), 2);
    assert_eq!(
        status_message(&screen),
        Some(("warning", "index too high, max is 1".to_string()))
    );
}

#[test]
fn delete_out_of_range_two_digit_max_index() {
    let mut screen = MainScreen::new();
    for i in 0..12 {
        type_line(&mut screen, &format!("add 10.0.0.{}", i));
    }
    assert_eq!(ips(&screen).len(), 12);
    type_line(&mut screen, "del 99");
    assert_eq!(ips(&screen).len(), 12);
    assert_eq!(
        status_message(&screen),
        Some(("warning", "index too high, max is 11".to_string()))
    );
}

#[test]
fn delete_without_index_removes_selection() {
    let mut screen = MainScreen::new();
    type_line(&mut screen, "add 10.0.0.1");
    type_line(&mut screen, "add 10.0.0.2");
    type_line(&mut screen, "add 10.0.0.3");
    press(&mut screen, KeyCode::Down);
    assert_eq!(screen.iplist.selected, 1);
    type_line(&mut screen, "del");
    assert_eq!(
        ips(&screen),
        vec!["10.0.0.1".to_string(), "10.0.0.3".to_string()]
    );
    assert_eq!(screen.iplist.selected, 1);
    assert_eq!(
        status_message(&screen),
        Some(("complete", "Removed 10.0.0.2".to_string()))
    );
}

#[test]
fn selection_shifts_down_when_removing_before_it() {
    let mut screen = MainScreen::new();
    type_line(&mut screen, "add 10.0.0.1");
    type_line(&mut screen, "add 10.0.0.2");
    type_line(&mut screen, "add 10.0.0.3");
    press(&mut screen, KeyCode::Down);
    press(&mut screen, KeyCode::Down);
    assert_eq!(screen.iplist.selected, 2);
    type_line(&mut screen, "del 0");
    assert_eq!(screen.iplist.selected, 1);
    assert_eq!(
        ips(&screen),
        vec!["10.0.0.2".to_string(), "10.0.0.3".to_string()]
    );
}

#[test]
fn selection_backs_up_when_last_item_removed() {
    let mut screen = MainScreen::new();
    type_line(&mut screen, "add 10.0.0.1");
    type_line(&mut screen, "add 10.0.0.2");
    press(&mut screen, KeyCode::Down);
    assert_eq!(screen.iplist.selected, 1);
    type_line(&mut screen, "del 1");
    assert_eq!(screen.iplist.selected, 0);
    assert_eq!(ips(&screen), vec!["10.0.0.1".to_string()]);
}

#[test]
fn navigation_clamps_at_both_ends() {
    let mut screen = MainScreen::new();
    type_line(&mut screen, "add 10.0.0.1");
    type_line(&mut screen, "add 10.0.0.2");
    press(&mut screen, KeyCode::Up);
    assert_eq!(screen.iplist.selected, 0);
    press(&mut screen, KeyCode::Down);
    press(&mut screen, KeyCode::Down);
    press(&mut screen, KeyCode::Down);
    assert_eq!(screen.iplist.selected, 1);
}

#[test]
fn release_events_are_ignored() {
    let mut screen = MainScreen::new();
    screen.handle_input(KeyEvent {
        code: KeyCode::Esc,
        kind: KeyEventKind::Release,
    });
    assert!(!screen.try_exit);
    screen.handle_input(KeyEvent {
        code: KeyCode::Char('a'),
        kind: KeyEventKind::Repeat,
    });
    assert!(screen.inputbox.buffer.is_empty());
}

#[test]
fn help_command_raises_overlay_and_any_key_dismisses() {
    let mut app = App::new();
    assert!(app.wf_check());
    for c in "?".chars() {
        app.step(KeyEvent::press(KeyCode::Char(c)));
    }
    app.step(KeyEvent::press(KeyCode::Enter));
    assert_eq!(app.screen, ScreenState::HelpScreen);
    assert!(!app.main.help_requested);
    app.step(KeyEvent::press(KeyCode::Char('z')));
    assert_eq!(app.screen, ScreenState::MainScreen);
    assert!(!help_text().is_empty());
}

#[test]
fn app_reports_exit_after_confirmation() {
    let mut app = App::new();
    assert!(!app.should_exit());
    app.step(KeyEvent::press(KeyCode::Esc));
    app.step(KeyEvent::press(KeyCode::Esc));
    assert!(app.should_exit());
}
