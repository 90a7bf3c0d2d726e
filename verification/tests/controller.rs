use applet_memory::app::{App, Command, Message, PanelView, State, Subscription};
use applet_memory::config::Config;
use applet_memory::memory::MemorySnapshot;
use applet_memory::popup::{PopupRequest, PopupState, WindowHandle};

fn snapshot(total: u64, used: u64) -> MemorySnapshot {
    MemorySnapshot { total, used }
}

fn started() -> App {
    App::new(snapshot(8_000_000_000, 4_000_000_000), Config::default())
}

fn opened_handle(command: Command) -> WindowHandle {
    match command {
        Command::OpenPopup(request) => request.id,
        other => panic!("expected a request to open a popup, got {:?}", other),
    }
}

#[test]
fn default_config_refreshes_every_three_seconds() {
    assert_eq!(Config::default(), Config { refresh_time: 3 });
    let app = App::new(snapshot(10, 5), Config::default());
    assert_eq!(
        app.subscription(),
        Subscription { every_seconds: 3, message: Message::UpdateMemory }
    );
}

#[test]
fn configured_refresh_time_is_the_timer_period() {
    let app = App::new(snapshot(10, 5), Config { refresh_time: 10 });
    assert_eq!(app.subscription().every_seconds, 10);
    assert_eq!(app.subscription().message, Message::UpdateMemory);
    let unguarded = App::new(snapshot(10, 5), Config { refresh_time: 0 });
    assert_eq!(unguarded.subscription().every_seconds, 0);
}

#[test]
fn timer_period_stays_as_configured_at_start() {
    let mut app = App::new(snapshot(10, 5), Config { refresh_time: 10 });
    app.update(Message::TogglePopup);
    app.apply(Message::UpdateMemory, Some(snapshot(10, 6)));
    app.update(Message::TogglePopup);
    assert_eq!(app.state().config, Config { refresh_time: 10 });
    assert_eq!(app.subscription().every_seconds, 10);
}

#[test]
fn new_controller_holds_what_it_was_given_and_no_popup() {
    let app = App::new(snapshot(16, 4), Config { refresh_time: 7 });
    assert_eq!(
        app.state(),
        State {
            popup: PopupState::Closed,
            memory: snapshot(16, 4),
            config: Config { refresh_time: 7 },
            issued: 0,
        }
    );
}

#[test]
fn controller_from_a_reading_takes_the_snapshot_or_the_empty_one() {
    let read = App::from_reading(Some(snapshot(16, 4)), Config::default());
    assert_eq!(read.state(), App::new(snapshot(16, 4), Config::default()).state());
    let unread = App::from_reading(None, Config::default());
    assert_eq!(unread.state().memory, MemorySnapshot::empty());
    assert_eq!(unread.state().popup, PopupState::Closed);
    assert_eq!(unread.view().text, "0%");
}

#[test]
fn view_shows_the_percentage_and_a_button_that_toggles() {
    let app = started();
    assert_eq!(
        app.view(),
        PanelView { text: String::from("50%"), on_press: Message::TogglePopup }
    );
    let nearly_full = App::new(snapshot(8_000_000_000, 7_999_999_999), Config::default());
    assert_eq!(nearly_full.view().text, "99%");
}

#[test]
fn toggle_when_closed_asks_for_one_popup_under_a_fresh_handle() {
    let mut app = started();
    let first = app.update(Message::TogglePopup);
    assert_eq!(first, Command::OpenPopup(PopupRequest::anchored(WindowHandle(1))));
    assert_eq!(app.state().popup, PopupState::Open(WindowHandle(1)));
    assert_eq!(app.update(Message::TogglePopup), Command::ClosePopup(WindowHandle(1)));
    assert_eq!(app.state().popup, PopupState::Closed);

    let mut destroyed = vec![WindowHandle(1)];
    for _ in 0..20 {
        let handle = opened_handle(app.update(Message::TogglePopup));
        assert!(!destroyed.contains(&handle));
        assert_ne!(handle, WindowHandle::main());
        assert_eq!(app.state().popup, PopupState::Open(handle));
        assert_eq!(app.update(Message::TogglePopup), Command::ClosePopup(handle));
        destroyed.push(handle);
    }
}

#[test]
fn popup_request_is_anchored_to_the_panel_with_nothing_overridden() {
    let mut app = started();
    let request = match app.update(Message::TogglePopup) {
        Command::OpenPopup(request) => request,
        other => panic!("expected a request to open a popup, got {:?}", other),
    };
    assert_eq!(
        request,
        PopupRequest {
            parent: WindowHandle(0),
            id: WindowHandle(1),
            size: None,
            width_padding: None,
            height_padding: None,
        }
    );
    assert_eq!(request.parent, WindowHandle::main());
}

#[test]
fn toggle_twice_opens_then_closes() {
    let mut app = started();
    let before = app.state();
    let handle = opened_handle(app.update(Message::TogglePopup));
    assert_eq!(app.state().popup, PopupState::Open(handle));
    assert_eq!(app.update(Message::TogglePopup), Command::ClosePopup(handle));
    assert_eq!(app.state().popup, PopupState::Closed);
    assert_eq!(app.state().memory, before.memory);
    assert_eq!(app.state().config, before.config);
}

#[test]
fn close_report_for_the_tracked_handle_closes_the_popup() {
    let mut app = started();
    let handle = opened_handle(app.update(Message::TogglePopup));
    assert_eq!(app.update(Message::PopupClosed(handle)), Command::Nothing);
    assert_eq!(app.state().popup, PopupState::Closed);
    let next = opened_handle(app.update(Message::TogglePopup));
    assert_ne!(next, handle);
}

#[test]
fn close_report_for_another_handle_changes_nothing() {
    let mut app = started();
    let handle = opened_handle(app.update(Message::TogglePopup));
    let before = app.state();
    for other in [WindowHandle(0), WindowHandle(handle.0 + 1), WindowHandle(u64::MAX)] {
        assert_eq!(app.update(Message::PopupClosed(other)), Command::Nothing);
        assert_eq!(app.state(), before);
    }
}

#[test]
fn close_report_while_no_popup_is_open_changes_nothing() {
    let mut app = started();
    let before = app.state();
    assert_eq!(app.update(Message::PopupClosed(WindowHandle(1))), Command::Nothing);
    assert_eq!(app.state(), before);

    let handle = opened_handle(app.update(Message::TogglePopup));
    app.update(Message::TogglePopup);
    let closed = app.state();
    assert_eq!(app.update(Message::PopupClosed(handle)), Command::Nothing);
    assert_eq!(app.state(), closed);
}

#[test]
fn refresh_replaces_the_snapshot_and_nothing_else() {
    let mut app = started();
    let handle = opened_handle(app.update(Message::TogglePopup));
    let command = app.apply(Message::UpdateMemory, Some(snapshot(8_000_000_000, 6_000_000_000)));
    assert_eq!(command, Command::Nothing);
    assert_eq!(app.state().memory, snapshot(8_000_000_000, 6_000_000_000));
    assert_eq!(app.state().popup, PopupState::Open(handle));
    assert_eq!(app.state().config, Config::default());
    assert_eq!(app.view().text, "75%");
}

#[test]
fn refresh_with_an_unchanged_reading_leaves_the_view_unchanged() {
    let mut app = started();
    let before = app.state();
    let text = app.view().text;
    app.apply(Message::UpdateMemory, Some(before.memory));
    assert_eq!(app.state(), before);
    assert_eq!(app.view().text, text);

    app.apply(Message::UpdateMemory, Some(snapshot(200, 50)));
    let once = app.state();
    app.apply(Message::UpdateMemory, Some(snapshot(200, 50)));
    assert_eq!(app.state(), once);
    assert_eq!(app.view().text, "25%");
}

#[test]
fn refresh_without_a_reading_keeps_the_snapshot() {
    let mut app = started();
    let before = app.state();
    assert_eq!(app.apply(Message::UpdateMemory, None), Command::Nothing);
    assert_eq!(app.state(), before);
    assert_eq!(app.view().text, "50%");
}

#[test]
fn apply_ignores_the_reading_for_other_messages() {
    let mut app = started();
    let command = app.apply(Message::TogglePopup, Some(snapshot(1, 1)));
    assert_eq!(command, Command::OpenPopup(PopupRequest::anchored(WindowHandle(1))));
    assert_eq!(app.state().memory, snapshot(8_000_000_000, 4_000_000_000));
    app.apply(Message::PopupClosed(WindowHandle(1)), Some(snapshot(1, 1)));
    assert_eq!(app.state().memory, snapshot(8_000_000_000, 4_000_000_000));
    assert_eq!(app.state().popup, PopupState::Closed);
}

#[test]
fn close_request_becomes_a_popup_closed_message() {
    let app = started();
    assert_eq!(
        app.on_close_requested(WindowHandle(5)),
        Some(Message::PopupClosed(WindowHandle(5)))
    );
    assert_eq!(
        app.on_close_requested(WindowHandle::main()),
        Some(Message::PopupClosed(WindowHandle(0)))
    );
}

#[test]
fn applet_registers_under_its_fixed_identifier() {
    assert_eq!(applet_memory::app::APP_ID, "another.lusitano.AppletMemory");
}
