use screencast::controller::app_controller::AppController;
use screencast::controller::receiver_controller::ReceiverController;
use screencast::gui::app::{App, Controller, Effect, Message, Modality, Page};
use screencast::gui::component::annotation::{canvas_update, CanvasInput, CanvasRequest, EventStatus, PendingKind, ShapeKind, Status};
use screencast::gui::component::caster_settings::Window;
use screencast::gui::component::home::Role;
use screencast::gui::component::receiver_ip;
use screencast::gui::component::shortcut::{Shortcut, ShortcutKind, ShortcutMessage, Shortcuts};
use screencast::gui::resource::get;
use screencast::gui::theme::button::{CircleButton, CircleFill, MyButton, RectangleButton, Style};
use screencast::gui::theme::icon::Icon;
use screencast::gui::theme::{PaletteColor, Theme};
use screencast::model::shortcut::{
    from_key_to_string, from_str_to_key, shortcuts_from_json, shortcuts_json, NamedKey, ShortcutController, ShortcutKey,
};

fn new_app() -> App {
    App::new(ShortcutController::from_saved_entries(Some("p"), Some("b"), Some("escape")), (1920, 1080))
}

fn caster_app() -> App {
    let mut app = new_app();
    app.update(Message::RoleChosen(Role::Caster));
    app
}

fn caster(app: &App) -> &AppController {
    match &app.controller {
        Controller::CasterController(c) => c,
        _ => panic!("no caster"),
    }
}

#[test]
fn keys_are_read_in_any_case() {
    assert!(matches!(from_str_to_key("a"), Ok(ShortcutKey::Character(s)) if s == "A"));
    assert!(matches!(from_str_to_key("7"), Ok(ShortcutKey::Character(s)) if s == "7"));
    assert!(matches!(from_str_to_key("escape"), Ok(ShortcutKey::Named(NamedKey::Escape))));
    assert!(matches!(from_str_to_key("up"), Ok(ShortcutKey::Named(NamedKey::ArrowUp))));
    assert!(matches!(from_str_to_key("ArrowUp"), Ok(ShortcutKey::Named(NamedKey::ArrowUp))));
    assert!(matches!(from_str_to_key("f12"), Ok(ShortcutKey::Named(NamedKey::F12))));
}

#[test]
fn unknown_key_is_an_error() {
    assert!(matches!(from_str_to_key("esc"), Err(m) if m == "Invalid Key: esc"));
    assert!(matches!(from_str_to_key(""), Err(m) if m == "Invalid Key: "));
    assert!(matches!(from_str_to_key("ab"), Err(m) if m == "Invalid Key: ab"));
}

#[test]
fn key_texts() {
    assert_eq!(from_key_to_string(ShortcutKey::Named(NamedKey::PageDown)), "PageDown");
    assert_eq!(from_key_to_string(ShortcutKey::Character("q".to_string())), "Q");
    assert_eq!(from_key_to_string(ShortcutKey::Unidentified), "Unknown");
    assert_eq!(from_key_to_string(ShortcutKey::Named(NamedKey::Other)), "Unknown");
}

#[test]
fn saved_shortcuts_reload() {
    let c = ShortcutController::from_saved_entries(Some("x"), Some("space"), Some("F5"));
    let entries = c.saved_entries();
    assert_eq!(entries[0], ("manage_trasmition".to_string(), "X".to_string()));
    assert_eq!(entries[1], ("blanking_screen".to_string(), "Space".to_string()));
    assert_eq!(entries[2], ("terminate_session".to_string(), "F5".to_string()));
    let again = ShortcutController::from_saved_entries(Some(entries[0].1.as_str()), Some(entries[1].1.as_str()), Some(entries[2].1.as_str()));
    assert_eq!(again.saved_entries(), entries);
}

#[test]
fn missing_or_bad_entries_default_to_f1() {
    let c = ShortcutController::from_saved_entries(None, Some("nonsense"), Some("z"));
    assert!(matches!(c.get_manage_trasmition_shortcut(), ShortcutKey::Named(NamedKey::F1)));
    assert!(matches!(c.get_blanking_screen_shortcut(), ShortcutKey::Named(NamedKey::F1)));
    assert!(matches!(c.get_terminate_session_shortcut(), ShortcutKey::Character(s) if s == "Z"));
}

#[test]
fn setting_shortcuts_replaces_one_key() {
    let mut c = ShortcutController::from_saved_entries(Some("a"), Some("b"), Some("c"));
    c.set_terminate_session("enter");
    assert!(matches!(c.get_terminate_session_shortcut(), ShortcutKey::Named(NamedKey::Enter)));
    assert!(matches!(c.get_blanking_screen_shortcut(), ShortcutKey::Character(s) if s == "B"));
    c.set_manage_trasmition("9");
    assert!(matches!(c.get_manage_trasmition_shortcut(), ShortcutKey::Character(s) if s == "9"));
    c.set_blanking_screen("left");
    assert!(matches!(c.get_blanking_screen_shortcut(), ShortcutKey::Named(NamedKey::ArrowLeft)));
    assert!(matches!(c.get_terminate_session_shortcut(), ShortcutKey::Named(NamedKey::Enter)));
}

#[test]
fn app_starts_home_with_shortcut_texts() {
    let app = new_app();
    assert_eq!(app.current_page, Page::Home);
    assert!(matches!(app.controller, Controller::NotDefined));
    assert_eq!(app.shortcut_screen.manage_transmission, "P");
    assert_eq!(app.shortcut_screen.blancking_screen, "B");
    assert_eq!(app.shortcut_screen.terminate_session, "Escape");
}

#[test]
fn choosing_caster_creates_controller() {
    let app = caster_app();
    assert_eq!(app.current_page, Page::CasterSettings);
    let c = caster(&app);
    assert_eq!(c.get_measures(), (1920, 1080));
    assert!(!c.is_stopped());
    assert!(!c.is_blanking());
}

#[test]
fn choosing_receiver_goes_to_address_page() {
    let mut app = new_app();
    assert!(matches!(app.update(Message::RoleChosen(Role::Receiver)), Effect::Nothing));
    assert_eq!(app.current_page, Page::ReceiverIp);
}

#[test]
fn blanking_shortcut_toggles_blanking() {
    let mut app = caster_app();
    assert!(matches!(app.update(Message::DoKeyShortcut(ShortcutKey::Character("b".to_string()))), Effect::Nothing));
    assert!(caster(&app).is_blanking());
    app.update(Message::DoKeyShortcut(ShortcutKey::Character("b".to_string())));
    assert!(!caster(&app).is_blanking());
}

#[test]
fn pause_then_resume() {
    let mut app = caster_app();
    app.update(Message::SetCasterSocket(Page::CasterStreaming, Modality::Full));
    assert!(matches!(app.update(Message::DoKeyShortcut(ShortcutKey::Character("P".to_string()))), Effect::Nothing));
    assert!(caster(&app).is_stopped());
    assert!(caster(&app).is_just_stopped());
    assert!(matches!(app.update(Message::StopStreaming), Effect::StartSharing(Modality::Full)));
    assert!(!caster(&app).is_stopped());
    assert!(!caster(&app).is_just_stopped());
}

#[test]
fn terminate_shortcut_closes_stream() {
    let mut app = caster_app();
    app.update(Message::SetCasterSocket(Page::CasterStreaming, Modality::Partial));
    assert!(matches!(app.update(Message::DoKeyShortcut(ShortcutKey::Named(NamedKey::Escape))), Effect::CloseCaster(true)));
    assert_eq!(app.current_page, Page::Home);
    assert!(caster(&app).is_stopped());
    // A second press finds the stream already stopped.
    assert!(matches!(app.update(Message::DoKeyShortcut(ShortcutKey::Named(NamedKey::Escape))), Effect::CloseCaster(false)));
}

#[test]
fn other_keys_do_nothing() {
    let mut app = caster_app();
    assert!(matches!(app.update(Message::DoKeyShortcut(ShortcutKey::Character("q".to_string()))), Effect::Nothing));
    assert!(!caster(&app).is_blanking());
    assert!(!caster(&app).is_stopped());
}

#[test]
fn key_press_without_caster_would_fail() {
    let app = new_app();
    assert!(app.update_would_fail(&Message::DoKeyShortcut(ShortcutKey::Character("b".to_string()))));
    assert!(app.update_would_fail(&Message::CloseRequested));
    assert!(!app.update_would_fail(&Message::TogglerChanged));
    assert!(app.update_would_fail(&Message::ChosenShortcuts(Shortcuts::BlanckingScreen("zz".to_string()))));
    assert!(!app.update_would_fail(&Message::ChosenShortcuts(Shortcuts::BlanckingScreen("k".to_string()))));
}

#[test]
fn socket_starts_sharing_with_viewers_watch() {
    let mut app = caster_app();
    assert!(matches!(app.update(Message::StartSharing), Effect::CreateCasterSocket(Modality::Full)));
    assert!(matches!(
        app.update(Message::SetCasterSocket(Page::CasterStreaming, Modality::Full)),
        Effect::StartSharingWithViewers(Modality::Full)
    ));
    assert_eq!(app.current_page, Page::CasterStreaming);
}

#[test]
fn close_caster_and_receiver() {
    let mut app = caster_app();
    assert!(matches!(app.update(Message::Close), Effect::CloseCaster(false)));
    assert!(matches!(app.controller, Controller::NotDefined));
    let mut app = new_app();
    app.update(Message::ReceiverControllerCreated(Page::ReceiverIp));
    assert!(matches!(app.update(Message::Close), Effect::CloseReceiver(true)));
    assert!(matches!(app.update(Message::Close), Effect::Nothing));
}

#[test]
fn receiver_registration_flow() {
    let mut app = new_app();
    assert!(matches!(app.update(Message::ReceiverSharing("10.0.0.1".to_string())), Effect::CreateReceiverSocket(a) if a == "10.0.0.1"));
    assert!(matches!(app.update(Message::ReceiverControllerCreated(Page::ReceiverIp)), Effect::Register));
    assert!(matches!(app.update(Message::RegistrationResult(Ok("ok".to_string()))), Effect::StartReceiving));
    assert_eq!(app.current_page, Page::ReceiverStreaming);
}

#[test]
fn failed_registration_shows_message() {
    let mut app = new_app();
    app.update(Message::ReceiverControllerCreated(Page::ReceiverIp));
    assert!(matches!(app.update(Message::RegistrationResult(Err("bad".to_string()))), Effect::Nothing));
    assert_eq!(app.receiver_ip.message, "bad");
    assert!(matches!(app.controller, Controller::NotDefined));
    assert!(matches!(app.update(Message::Back(Page::ReceiverIp)), Effect::Nothing));
    assert_eq!(app.receiver_ip.message, "");
    assert_eq!(app.current_page, Page::Home);
}

#[test]
fn back_buttons() {
    let mut app = new_app();
    app.update(Message::Back(Page::Connection));
    assert_eq!(app.current_page, Page::CasterSettings);
    app.update(Message::Back(Page::CasterStreaming));
    assert_eq!(app.current_page, Page::Home);
}

#[test]
fn area_selection_needs_caster() {
    let mut app = new_app();
    assert!(matches!(app.update(Message::SetSettingsCaster(Window::Area)), Effect::Nothing));
    assert_eq!(app.current_page, Page::Home);
    let mut app = caster_app();
    assert!(matches!(app.update(Message::SetSettingsCaster(Window::Area)), Effect::TakeAreaScreenshot));
    assert_eq!(app.current_page, Page::WindowPartScreen);
    assert!(matches!(app.update(Message::SetSettingsCaster(Window::FullScreen)), Effect::Nothing));
    assert_eq!(app.current_page, Page::Connection);
}

#[test]
fn chosen_shortcut_is_saved() {
    let mut app = new_app();
    assert!(matches!(app.update(Message::ChosenShortcuts(Shortcuts::TerminateSession("q".to_string()))), Effect::SaveShortcuts));
    assert_eq!(app.shortcut_screen.terminate_session, "q");
    assert!(matches!(app.shortcut_controller.get_terminate_session_shortcut(), ShortcutKey::Character(s) if s == "Q"));
}

#[test]
fn annotation_window_and_text_tool() {
    let mut app = new_app();
    assert!(matches!(app.update(Message::ViewTools), Effect::OpenToolsWindow));
    assert!(app.second_window_open);
    assert!(app.update_would_fail(&Message::TogglerChanged));
    assert!(matches!(app.update(Message::CloseRequested), Effect::CloseSecondWindow));
    app.update(Message::ResetWindow);
    assert!(!app.second_window_open);
    assert!(matches!(app.update(Message::TextPressed(true)), Effect::Nothing));
    assert_eq!(app.text_status, Status::TextPressed);
    assert!(matches!(app.update(Message::SaveTextPosition), Effect::StoreTextPosition));
    assert_eq!(app.text_status, Status::TextPositioned);
    assert!(matches!(app.update(Message::TextPressed(false)), Effect::StoreText));
    assert_eq!(app.text_status, Status::TextAdded);
    app.update(Message::SelectShape(ShapeKind::Arrow));
    assert_eq!(app.selected_shape, Some(ShapeKind::Arrow));
    assert!(app.set_selected_annotation);
    assert!(matches!(app.update(Message::SubmitColor), Effect::StoreColor));
    assert!(!app.show_color_picker);
}

#[test]
fn listening_depends_on_page() {
    let mut app = new_app();
    let l = app.listening();
    assert!(!l.area_selection && !l.streaming_controls);
    app.update(Message::Route(Page::CasterStreaming));
    assert!(app.listening().streaming_controls);
    app.update(Message::Route(Page::WindowPartScreen));
    assert!(app.listening().area_selection);
}

#[test]
fn update_screen_depends_on_role() {
    let mut app = new_app();
    assert!(matches!(app.update(Message::UpdateScreen), Effect::Nothing));
    let mut app = caster_app();
    assert!(matches!(app.update(Message::UpdateScreen), Effect::FetchCasterFrame));
    app.update(Message::SelectDisplay(800, 600));
    assert_eq!(caster(&app).get_measures(), (800, 600));
}

#[test]
fn typing_an_address_clears_the_error() {
    let mut app = new_app();
    app.receiver_ip.message = "old error".to_string();
    app.update(Message::ReceiverInputIp(receiver_ip::Message::ChangeInput("10.0".to_string())));
    assert_eq!(app.receiver_ip.indirizzo_ip, "10.0");
    assert_eq!(app.receiver_ip.message, "");
}

#[test]
fn two_clicks_draw_the_chosen_shape() {
    let first = canvas_update(PendingKind::Idle, Status::Inactive, Some(ShapeKind::Line), true, CanvasInput::LeftPress);
    assert_eq!(first, (PendingKind::One, EventStatus::Captured, CanvasRequest::Nothing));
    let second = canvas_update(first.0, Status::Inactive, Some(ShapeKind::Line), true, CanvasInput::LeftPress);
    assert_eq!(second, (PendingKind::Idle, EventStatus::Captured, CanvasRequest::AddShape(ShapeKind::Line)));
    let default = canvas_update(PendingKind::One, Status::Inactive, None, true, CanvasInput::LeftPress);
    assert_eq!(default.2, CanvasRequest::AddShape(ShapeKind::Circle));
}

#[test]
fn click_places_pending_text() {
    let r = canvas_update(PendingKind::Idle, Status::TextPressed, None, true, CanvasInput::LeftPress);
    assert_eq!(r, (PendingKind::Idle, EventStatus::Captured, CanvasRequest::SaveTextPosition));
}

#[test]
fn events_outside_canvas_are_ignored() {
    let r = canvas_update(PendingKind::One, Status::Inactive, None, false, CanvasInput::LeftPress);
    assert_eq!(r, (PendingKind::One, EventStatus::Ignored, CanvasRequest::Nothing));
    let m = canvas_update(PendingKind::One, Status::Inactive, None, true, CanvasInput::OtherMouse);
    assert_eq!(m, (PendingKind::One, EventStatus::Captured, CanvasRequest::Nothing));
    let k = canvas_update(PendingKind::Idle, Status::Inactive, None, true, CanvasInput::Other);
    assert_eq!(k, (PendingKind::Idle, EventStatus::Ignored, CanvasRequest::Nothing));
}

#[test]
fn pick_lists_hide_taken_keys() {
    let mut s = Shortcut {
        manage_transmission: "A".to_string(),
        blancking_screen: "B".to_string(),
        terminate_session: "C".to_string(),
        err_key_set: false,
    };
    let all: Vec<String> = ["A", "B", "C", "D"].iter().map(|x| x.to_string()).collect();
    assert_eq!(s.selectable_keys(&all, ShortcutKind::ManageTransmission), vec!["A".to_string(), "D".to_string()]);
    assert_eq!(s.selectable_keys(&all, ShortcutKind::TerminateSession), vec!["C".to_string(), "D".to_string()]);
    s.update(ShortcutMessage::BlanckingScreen("D".to_string()));
    assert_eq!(s.blancking_screen, "D");
    assert_eq!(s.selectable_keys(&all, ShortcutKind::ManageTransmission), vec!["A".to_string(), "B".to_string()]);
}

#[test]
fn controllers_close_once() {
    let mut r = ReceiverController::new();
    assert!(!r.is_stopped());
    assert!(r.close_streaming());
    assert!(!r.close_streaming());
    r.start_receiving();
    assert!(!r.is_stopped());
    let mut c = AppController::new(10, 20, false);
    assert!(!c.close_streaming());
    c.set_socket();
    c.start_sharing();
    assert!(c.close_streaming());
    assert!(c.is_stopped());
    c.blanking_streaming();
    c.blanking_streaming();
    assert!(!c.is_blanking());
}

#[test]
fn resource_paths() {
    assert_eq!(get("home-icon.ttf".to_string()), "resources/home-icon.ttf");
    assert_eq!(get(String::new()), "resources/");
}

#[test]
fn palette_roles() {
    assert_eq!(PaletteColor::Primary.on(), PaletteColor::OnPrimary);
    assert_eq!(PaletteColor::SurfaceDim.on(), PaletteColor::OnSurface);
    assert_eq!(PaletteColor::Outline.on(), PaletteColor::OutlineVariant);
    assert_eq!(PaletteColor::Scrim.on(), PaletteColor::OnBackground);
    assert_eq!(PaletteColor::OnPrimary.on(), PaletteColor::OnSurfaceVariant);
    assert_eq!(Theme::default(), Theme::Light);
}

#[test]
fn button_colors_follow_style() {
    assert_eq!(Style::Danger.colors(), (PaletteColor::Error, PaletteColor::OnError));
    assert_eq!(Style::default().colors(), (PaletteColor::Surface, PaletteColor::OnSurface));
    for s in [Style::Default, Style::Primary, Style::Secondary, Style::Danger, Style::Success] {
        let (bg, fg) = s.colors();
        assert_eq!(bg.on(), fg);
    }
}

#[test]
fn buttons_are_built_step_by_step() {
    let b = MyButton::new("CONNECT").style(Style::Primary).icon(Icon::Play);
    assert_eq!(b.text(), "CONNECT");
    assert_eq!(b.chosen_style(), Style::Primary);
    assert_eq!(b.chosen_icon(), Some(Icon::Play));
    let c = CircleButton::new("").style(Style::Danger).icon(Icon::BackLeft);
    assert_eq!(c.fill(), CircleFill::Danger);
    assert_eq!(c.chosen_icon(), Some(Icon::BackLeft));
    assert_eq!(CircleButton::new("x").style(Style::Success).fill(), CircleFill::Default);
    let r = RectangleButton::new("Caster");
    assert_eq!(r.chosen_style(), Style::Default);
    assert_eq!(r.chosen_icon(), None);
    assert_eq!(r.text(), "Caster");
}

#[test]
fn icon_glyphs() {
    assert_eq!(Icon::CasterHome.to_char(), '\u{F108}');
    assert_eq!(Icon::Pause.to_char(), '\u{E807}');
    assert_eq!(Icon::Viewers.to_string(), "\u{F064}");
    assert_eq!(Icon::Text.to_string().chars().count(), 1);
}

#[test]
fn every_icon_has_its_own_glyph() {
    let all = [
        Icon::StartRecord, Icon::StopRecord, Icon::Cancel, Icon::CasterHome, Icon::BackUndo, Icon::BackLeft,
        Icon::BackOpen, Icon::ReceiverHome, Icon::Play, Icon::Pause, Icon::Pencil, Icon::Rubber, Icon::Triangle,
        Icon::Square, Icon::Arrow, Icon::Tools, Icon::Blanking, Icon::Phone, Icon::Text, Icon::Viewers,
    ];
    for (i, a) in all.iter().enumerate() {
        for b in all.iter().skip(i + 1) {
            assert_ne!(a.to_char(), b.to_char());
        }
    }
}

#[test]
fn area_sharing_opens_a_socket_and_resumes_the_area() {
    let mut app = caster_app();
    assert!(matches!(app.update(Message::StartPartialSharing), Effect::CreateCasterSocket(Modality::Partial)));
    assert!(matches!(
        app.update(Message::SetCasterSocket(Page::CasterStreaming, Modality::Partial)),
        Effect::StartSharingWithViewers(Modality::Partial)
    ));
    assert_eq!(app.modality, Modality::Partial);
    assert!(matches!(app.update(Message::StopStreaming), Effect::Nothing));
    assert!(matches!(app.update(Message::StopStreaming), Effect::StartSharing(Modality::Partial)));
}

#[test]
fn area_sharing_without_caster_does_nothing() {
    let mut app = new_app();
    assert!(matches!(app.update(Message::StartPartialSharing), Effect::Nothing));
    assert!(app.viewers_watched);
}

#[test]
fn receiver_toggles_recording() {
    let mut app = new_app();
    assert!(matches!(app.update(Message::ToggleRecording), Effect::Nothing));
    assert!(!app.recording);
    app.update(Message::ReceiverControllerCreated(Page::ReceiverStreaming));
    assert!(matches!(app.update(Message::ToggleRecording), Effect::StartRecording));
    assert!(app.recording);
    assert!(matches!(app.update(Message::ToggleRecording), Effect::StopRecording));
    assert!(!app.recording);
}

#[test]
fn shortcuts_read_from_json() {
    let text = br#"{"manage_trasmition": "x", "blanking_screen": "space", "terminate_session": "nope"}"#;
    let c = shortcuts_from_json(text);
    assert!(matches!(c.get_manage_trasmition_shortcut(), ShortcutKey::Character(s) if s == "X"));
    assert!(matches!(c.get_blanking_screen_shortcut(), ShortcutKey::Named(NamedKey::Space)));
    assert!(matches!(c.get_terminate_session_shortcut(), ShortcutKey::Named(NamedKey::F1)));
}

#[test]
fn unreadable_shortcuts_file_gives_defaults() {
    for text in [&b""[..], &b"not json"[..], &br#"{"manage_trasmition": 3}"#[..]] {
        let c = shortcuts_from_json(text);
        assert!(matches!(c.get_manage_trasmition_shortcut(), ShortcutKey::Named(NamedKey::F1)));
        assert!(matches!(c.get_blanking_screen_shortcut(), ShortcutKey::Named(NamedKey::F1)));
        assert!(matches!(c.get_terminate_session_shortcut(), ShortcutKey::Named(NamedKey::F1)));
    }
}

#[test]
fn shortcuts_written_as_json_read_back() {
    let c = ShortcutController::from_saved_entries(Some("q"), Some("left"), Some("F9"));
    let bytes = shortcuts_json(&c);
    let map: std::collections::HashMap<String, String> = serde_json::from_slice(&bytes).unwrap();
    assert_eq!(map.len(), 3);
    assert_eq!(map["manage_trasmition"], "Q");
    assert_eq!(map["blanking_screen"], "ArrowLeft");
    assert_eq!(map["terminate_session"], "F9");
    let again = shortcuts_from_json(&bytes);
    assert_eq!(again.saved_entries(), c.saved_entries());
}

#[test]
fn shown_text_matches_the_typed_name() {
    for (typed, shown) in [("up", "ARROWUP"), ("pageup", "PAGEUP"), ("x", "X"), ("F10", "F10"), ("esc", "")] {
        match from_str_to_key(typed) {
            Ok(k) => assert_eq!(from_key_to_string(k).to_uppercase(), shown),
            Err(_) => assert_eq!(shown, ""),
        }
    }
}
