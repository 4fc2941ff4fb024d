//! The application's decisions: for each message from the user interface
//! or from a finished background task, how the state changes and what work
//! the application must start (opening sockets, starting or stopping the
//! streaming tasks, opening windows, saving shortcuts).

use vstd::prelude::*;
use vstd::string::*;
use crate::controller::app_controller::{AppController, CasterState};
use crate::controller::receiver_controller::ReceiverController;
use crate::gui::component::annotation::{ShapeKind, Status};
use crate::gui::component::caster_settings::Window;
use crate::gui::component::connection::Connection;
use crate::gui::component::home::Role;
use crate::gui::component::receiver_ip;
use crate::gui::component::receiver_ip::ReceiverIp;
use crate::gui::component::shortcut::{Shortcut, ShortcutMessage, Shortcuts};
use crate::model::shortcut::{from_key_to_string, key_of_text, key_text, shortcuts_choosable, KeyModel, ShortcutController, ShortcutKey};

verus! {

#[derive(Clone, Copy, Debug, PartialEq, Eq, Structural)]
pub enum Page {
    Home,
    Connection,
    ReceiverIp,
    CasterSettings,
    ReceiverStreaming,
    CasterStreaming,
    WindowPartScreen,
    Shortcut,
}

/// Whether the caster shares its whole screen or an area of it.
#[derive(Clone, Copy, Debug, PartialEq, Eq, Structural)]
pub enum Modality {
    Partial,
    Full,
}

/// The role this instance has taken, with its streaming state.
pub enum Controller {
    ReceiverController(ReceiverController),
    CasterController(AppController),
    NotDefined,
}

/// Messages that change the application's state or start work.
pub enum Message {
    CloseRequested,
    ResetWindow,
    SetColor,
    ChooseColor,
    SubmitColor,
    CancelColor,
    RoleChosen(Role),
    Route(Page),
    StartSharing,
    ReceiverSharing(String),
    RegistrationResult(Result<String, String>),
    ReceiverControllerCreated(Page),
    Back(Page),
    ReceiverInputIp(receiver_ip::Message),
    SetSettingsCaster(Window),
    TogglerChanged,
    ViewTools,
    /// A key was pressed while streaming.
    DoKeyShortcut(ShortcutKey),
    Blanking,
    SelectDisplay(u32, u32),
    Close,
    UpdateScreen,
    /// Share the area chosen on the screenshot.
    StartPartialSharing,
    StopStreaming,
    SetCasterSocket(Page, Modality),
    ChosenShortcuts(Shortcuts),
    SelectShape(ShapeKind),
    ClearShape,
    TextPressed(bool),
    TextCanvasChanged(String),
    SaveTextPosition,
    /// The receiver's record button: start recording, or stop it.
    ToggleRecording,
    NoOp,
}

/// Work that the application must start after a message.
#[derive(Debug)]
pub enum Effect {
    Nothing,
    /// Close the annotation window.
    CloseSecondWindow,
    /// Open a caster socket, then answer with
    /// `SetCasterSocket(CasterStreaming, modality)`: share the whole screen
    /// or the chosen area.
    CreateCasterSocket(Modality),
    /// Open a receiver socket towards the caster at this address, then
    /// answer with `ReceiverControllerCreated`.
    CreateReceiverSocket(String),
    /// Ask the caster to register this receiver, then answer with
    /// `RegistrationResult`.
    Register,
    /// Start the task that receives frames.
    StartReceiving,
    /// Take a screenshot of the shared monitor for area selection.
    TakeAreaScreenshot,
    /// Open the annotation window.
    OpenToolsWindow,
    /// Stop the caster's streaming task and destroy its socket if asked.
    CloseCaster(bool),
    /// Start the caster's streaming task again.
    StartSharing(Modality),
    /// Start the caster's streaming task and watch the number of viewers.
    StartSharingWithViewers(Modality),
    /// Tell the caster this receiver leaves, and stop receiving.
    CloseReceiver(bool),
    /// Show the next received frame.
    FetchReceiverFrame,
    /// Show the next captured frame.
    FetchCasterFrame,
    /// Save the shortcuts.
    SaveShortcuts,
    /// Keep the text being placed on the canvas.
    StoreText,
    /// Remove every shape and text from the canvas.
    ClearCanvas,
    /// Remember the chosen color.
    StoreColor,
    /// Place the pending text at the last click.
    StoreTextPosition,
    /// Start recording what the receiver shows.
    StartRecording,
    /// Stop the recording.
    StopRecording,
}

/// The event sources that the application listens to besides the clock
/// that refreshes the screen.
pub struct Listening {
    /// Mouse moves, to select an area of the screen.
    pub area_selection: bool,
    /// Key presses and annotation events, while the caster streams.
    pub streaming_controls: bool,
}

/// The application's state.
pub struct App {
    pub current_page: Page,
    pub controller: Controller,
    pub receiver_ip: ReceiverIp,
    pub connection: Connection,
    pub shortcut_screen: Shortcut,
    pub shortcut_controller: ShortcutController,
    pub second_window_open: bool,
    pub show_color_picker: bool,
    pub set_selected_annotation: bool,
    pub text_status: Status,
    pub selected_shape: Option<ShapeKind>,
    pub text_selected: String,
    pub viewers_watched: bool,
    /// Size of the monitor that a new caster shares first.
    pub default_monitor: (u32, u32),
    /// What the caster shares: the whole screen or the chosen area.
    pub modality: Modality,
    /// Whether the receiver is recording.
    pub recording: bool,
}

/// Mathematical form of the role this instance has taken.
pub enum ControllerModel {
    /// A receiver, and whether its stream is stopped.
    Receiver { stopped: bool },
    Caster(CasterState),
    NotDefined,
}

pub open spec fn controller_model(c: Controller) -> ControllerModel {
    match c {
        Controller::ReceiverController(r) => ControllerModel::Receiver { stopped: r.is_stopped_spec() },
        Controller::CasterController(a) => ControllerModel::Caster(a@),
        Controller::NotDefined => ControllerModel::NotDefined,
    }
}

/// Mathematical form of the application's state.
#[verifier::ext_equal]
pub struct AppModel {
    pub current_page: Page,
    pub controller: ControllerModel,
    /// The caster address typed by a receiver.
    pub indirizzo_ip: Seq<char>,
    /// The registration error shown under it.
    pub receiver_message: Seq<char>,
    /// The caster's own address, shown before sharing.
    pub connection_ip: Seq<char>,
    /// The texts shown by the three shortcut pick lists.
    pub manage_transmission: Seq<char>,
    pub blancking_screen: Seq<char>,
    pub terminate_session: Seq<char>,
    pub err_key_set: bool,
    /// The three shortcut keys.
    pub shortcuts: (KeyModel, KeyModel, KeyModel),
    pub second_window_open: bool,
    pub show_color_picker: bool,
    pub set_selected_annotation: bool,
    pub text_status: Status,
    pub selected_shape: Option<ShapeKind>,
    pub text_selected: Seq<char>,
    pub viewers_watched: bool,
    pub default_monitor: (u32, u32),
    /// What the caster shares, and shares again after a pause.
    pub modality: Modality,
    /// Whether the receiver is recording.
    pub recording: bool,
}

impl View for App {
    type V = AppModel;

    open spec fn view(&self) -> AppModel {
        AppModel {
            current_page: self.current_page,
            controller: controller_model(self.controller),
            indirizzo_ip: self.receiver_ip.indirizzo_ip@,
            receiver_message: self.receiver_ip.message@,
            connection_ip: self.connection.ip_address@,
            manage_transmission: self.shortcut_screen.manage_transmission@,
            blancking_screen: self.shortcut_screen.blancking_screen@,
            terminate_session: self.shortcut_screen.terminate_session@,
            err_key_set: self.shortcut_screen.err_key_set,
            shortcuts: self.shortcut_controller@,
            second_window_open: self.second_window_open,
            show_color_picker: self.show_color_picker,
            set_selected_annotation: self.set_selected_annotation,
            text_status: self.text_status,
            selected_shape: self.selected_shape,
            text_selected: self.text_selected@,
            viewers_watched: self.viewers_watched,
            default_monitor: self.default_monitor,
            modality: self.modality,
            recording: self.recording,
        }
    }
}

/// The caster's state after the key `k` (by its text) is pressed: the
/// blanking key toggles blanking, the end-of-session key stops the stream,
/// the pause/resume key toggles the transmission, others change nothing.
pub open spec fn after_key(m: AppModel, c: CasterState, k: Seq<char>) -> CasterState {
    if k == m.blancking_screen {
        CasterState { blanking: !c.blanking, ..c }
    } else if k == m.terminate_session {
        CasterState { stopped: true, ..c }
    } else if k == m.manage_transmission {
        toggled_transmission(c)
    } else {
        c
    }
}

/// What the application must start after the key `k` is pressed.
pub open spec fn key_effect(m: AppModel, c: CasterState, k: Seq<char>) -> Effect {
    if k == m.blancking_screen {
        Effect::Nothing
    } else if k == m.terminate_session {
        Effect::CloseCaster(!c.stopped && c.has_socket)
    } else if k == m.manage_transmission && c.is_just_stopped {
        Effect::StartSharing(m.modality)
    } else {
        Effect::Nothing
    }
}

/// The state after `message`, and the work it starts.
pub open spec fn step(m: AppModel, message: Message) -> (AppModel, Effect) {
    match message {
        Message::CloseRequested => (m, Effect::CloseSecondWindow),
        Message::ResetWindow => (AppModel { second_window_open: false, ..m }, Effect::Nothing),
        Message::SetColor => (AppModel { show_color_picker: true, ..m }, Effect::Nothing),
        Message::ChooseColor => (AppModel { show_color_picker: true, ..m }, Effect::Nothing),
        Message::SubmitColor => (AppModel { show_color_picker: false, ..m }, Effect::StoreColor),
        Message::CancelColor => (AppModel { show_color_picker: false, ..m }, Effect::Nothing),
        Message::RoleChosen(Role::Caster) => (
            AppModel {
                current_page: Page::CasterSettings,
                controller: ControllerModel::Caster(CasterState {
                    stopped: false,
                    blanking: false,
                    is_just_stopped: false,
                    has_socket: false,
                    measures: m.default_monitor,
                }),
                ..m
            },
            Effect::Nothing,
        ),
        Message::RoleChosen(Role::Receiver) => (AppModel { current_page: Page::ReceiverIp, ..m }, Effect::Nothing),
        Message::Route(p) => (AppModel { current_page: p, ..m }, Effect::Nothing),
        Message::StartSharing => (AppModel { viewers_watched: true, ..m }, Effect::CreateCasterSocket(Modality::Full)),
        Message::ReceiverSharing(ip) => (m, match m.controller {
            ControllerModel::NotDefined => Effect::CreateReceiverSocket(ip),
            ControllerModel::Receiver { .. } => Effect::Register,
            ControllerModel::Caster(_) => Effect::Nothing,
        }),
        Message::RegistrationResult(r) => match m.controller {
            ControllerModel::Receiver { .. } => match r {
                Ok(_) => (
                    AppModel { current_page: Page::ReceiverStreaming, controller: ControllerModel::Receiver { stopped: false }, ..m },
                    Effect::StartReceiving,
                ),
                Err(text) => (
                    AppModel { receiver_message: text@, controller: ControllerModel::NotDefined, ..m },
                    Effect::Nothing,
                ),
            },
            _ => (m, Effect::Nothing),
        },
        Message::ReceiverControllerCreated(p) => (
            AppModel { current_page: p, controller: ControllerModel::Receiver { stopped: false }, ..m },
            Effect::Register,
        ),
        Message::Back(p) => (
            if p == Page::ReceiverIp {
                AppModel { current_page: back_target(p), receiver_message: Seq::empty(), ..m }
            } else {
                AppModel { current_page: back_target(p), ..m }
            },
            Effect::Nothing,
        ),
        Message::ReceiverInputIp(receiver_ip::Message::ChangeInput(v)) => (
            AppModel { indirizzo_ip: v@, receiver_message: Seq::empty(), ..m },
            Effect::Nothing,
        ),
        Message::ReceiverInputIp(receiver_ip::Message::Pressed(_)) => (m, Effect::Nothing),
        Message::SetSettingsCaster(Window::FullScreen) => (AppModel { current_page: Page::Connection, ..m }, Effect::Nothing),
        Message::SetSettingsCaster(Window::Area) => if m.controller is Caster {
            (AppModel { current_page: Page::WindowPartScreen, ..m }, Effect::TakeAreaScreenshot)
        } else {
            (m, Effect::Nothing)
        },
        Message::TogglerChanged => (m, Effect::Nothing),
        Message::ViewTools => (AppModel { second_window_open: true, ..m }, Effect::OpenToolsWindow),
        Message::DoKeyShortcut(key) => match m.controller {
            ControllerModel::Caster(c) => {
                let k = key_text(key@);
                (
                    AppModel {
                        current_page: if k != m.blancking_screen && k == m.terminate_session { Page::Home } else { m.current_page },
                        controller: ControllerModel::Caster(after_key(m, c, k)),
                        ..m
                    },
                    key_effect(m, c, k),
                )
            },
            _ => (m, Effect::Nothing),
        },
        Message::Blanking => match m.controller {
            ControllerModel::Caster(c) => (
                AppModel { controller: ControllerModel::Caster(CasterState { blanking: !c.blanking, ..c }), ..m },
                Effect::Nothing,
            ),
            _ => (m, Effect::Nothing),
        },
        Message::SelectDisplay(w, h) => match m.controller {
            ControllerModel::Caster(c) => (
                AppModel { controller: ControllerModel::Caster(CasterState { measures: (w, h), ..c }), ..m },
                Effect::Nothing,
            ),
            _ => (m, Effect::Nothing),
        },
        Message::Close => (
            AppModel { current_page: Page::Home, controller: ControllerModel::NotDefined, ..m },
            match m.controller {
                ControllerModel::Caster(c) => Effect::CloseCaster(!c.stopped && c.has_socket),
                ControllerModel::Receiver { stopped } => Effect::CloseReceiver(!stopped),
                ControllerModel::NotDefined => Effect::Nothing,
            },
        ),
        Message::UpdateScreen => (m, match m.controller {
            ControllerModel::Receiver { .. } => Effect::FetchReceiverFrame,
            ControllerModel::Caster(_) => Effect::FetchCasterFrame,
            ControllerModel::NotDefined => Effect::Nothing,
        }),
        Message::StartPartialSharing => (
            AppModel { viewers_watched: true, ..m },
            if m.controller is Caster { Effect::CreateCasterSocket(Modality::Partial) } else { Effect::Nothing },
        ),
        Message::StopStreaming => match m.controller {
            ControllerModel::Caster(c) => (
                AppModel { controller: ControllerModel::Caster(toggled_transmission(c)), ..m },
                if c.is_just_stopped { Effect::StartSharing(m.modality) } else { Effect::Nothing },
            ),
            _ => (m, Effect::Nothing),
        },
        Message::SetCasterSocket(p, modality) => match m.controller {
            ControllerModel::Caster(c) => (
                AppModel {
                    current_page: p,
                    controller: ControllerModel::Caster(CasterState { has_socket: true, stopped: false, ..c }),
                    modality,
                    ..m
                },
                if m.viewers_watched { Effect::StartSharingWithViewers(modality) } else { Effect::StartSharing(modality) },
            ),
            _ => (m, Effect::Nothing),
        },
        Message::ChosenShortcuts(Shortcuts::ManageTransmission(k)) => (
            AppModel { manage_transmission: k@, shortcuts: (key_of_text(k@)->0, m.shortcuts.1, m.shortcuts.2), ..m },
            Effect::SaveShortcuts,
        ),
        Message::ChosenShortcuts(Shortcuts::BlanckingScreen(k)) => (
            AppModel { blancking_screen: k@, shortcuts: (m.shortcuts.0, key_of_text(k@)->0, m.shortcuts.2), ..m },
            Effect::SaveShortcuts,
        ),
        Message::ChosenShortcuts(Shortcuts::TerminateSession(k)) => (
            AppModel { terminate_session: k@, shortcuts: (m.shortcuts.0, m.shortcuts.1, key_of_text(k@)->0), ..m },
            Effect::SaveShortcuts,
        ),
        Message::SelectShape(k) => (
            AppModel { set_selected_annotation: !m.set_selected_annotation, selected_shape: Some(k), ..m },
            Effect::Nothing,
        ),
        Message::ClearShape => (m, Effect::ClearCanvas),
        Message::TextPressed(c) => if c {
            (AppModel { text_status: Status::TextPressed, ..m }, Effect::Nothing)
        } else {
            (AppModel { text_status: Status::TextAdded, ..m }, Effect::StoreText)
        },
        Message::TextCanvasChanged(t) => (AppModel { text_selected: t@, ..m }, Effect::Nothing),
        Message::SaveTextPosition => (AppModel { text_status: Status::TextPositioned, ..m }, Effect::StoreTextPosition),
        Message::ToggleRecording => match m.controller {
            ControllerModel::Receiver { .. } => (
                AppModel { recording: !m.recording, ..m },
                if m.recording { Effect::StopRecording } else { Effect::StartRecording },
            ),
            _ => (m, Effect::Nothing),
        },
        Message::NoOp => (m, Effect::Nothing),
    }
}

/// Where the back button of `page` leads.
pub open spec fn back_target(page: Page) -> Page {
    match page {
        Page::Connection => Page::CasterSettings,
        _ => Page::Home,
    }
}

/// The messages on which the application stops with a panic: closing an
/// annotation window that is not open, opening it twice, a key press
/// without a caster, and a shortcut choice that names no key.
pub open spec fn update_fails(app: &App, message: &Message) -> bool {
    match message {
        Message::CloseRequested => !app.second_window_open,
        Message::TogglerChanged => app.second_window_open,
        Message::DoKeyShortcut(_) => !(app.controller is CasterController),
        Message::ChosenShortcuts(s) => match s {
            Shortcuts::ManageTransmission(k) => key_of_text(k@) is None,
            Shortcuts::BlanckingScreen(k) => key_of_text(k@) is None,
            Shortcuts::TerminateSession(k) => key_of_text(k@) is None,
        },
        _ => false,
    }
}

/// The caster's state after the pause/resume shortcut or button.
pub open spec fn toggled_transmission(s: CasterState) -> CasterState {
    if s.is_just_stopped {
        CasterState { stopped: false, is_just_stopped: false, ..s }
    } else {
        CasterState { stopped: true, is_just_stopped: true, ..s }
    }
}

/// Which part of `update` handles a message: the windows, colors,
/// annotations, shortcuts and recording (0), navigation between pages (1),
/// the caster's stream (2), or a receiver's session (3).
pub open spec fn message_group(message: &Message) -> u8 {
    match message {
        Message::RoleChosen(_)
        | Message::Route(_)
        | Message::Back(_)
        | Message::ReceiverInputIp(_)
        | Message::SetSettingsCaster(_)
        | Message::TogglerChanged
        | Message::ViewTools => 1,
        Message::StartSharing
        | Message::StartPartialSharing
        | Message::DoKeyShortcut(_)
        | Message::Blanking
        | Message::SelectDisplay(_, _)
        | Message::StopStreaming
        | Message::SetCasterSocket(_, _) => 2,
        Message::ReceiverSharing(_)
        | Message::RegistrationResult(_)
        | Message::ReceiverControllerCreated(_)
        | Message::Close
        | Message::UpdateScreen => 3,
        _ => 0,
    }
}

fn group_of(message: &Message) -> (g: u8)
    ensures
        g == message_group(message),
{
    match message {
        Message::RoleChosen(_)
        | Message::Route(_)
        | Message::Back(_)
        | Message::ReceiverInputIp(_)
        | Message::SetSettingsCaster(_)
        | Message::TogglerChanged
        | Message::ViewTools => 1,
        Message::StartSharing
        | Message::StartPartialSharing
        | Message::DoKeyShortcut(_)
        | Message::Blanking
        | Message::SelectDisplay(_, _)
        | Message::StopStreaming
        | Message::SetCasterSocket(_, _) => 2,
        Message::ReceiverSharing(_)
        | Message::RegistrationResult(_)
        | Message::ReceiverControllerCreated(_)
        | Message::Close
        | Message::UpdateScreen => 3,
        _ => 0,
    }
}

impl App {
    /// The state at start: the home page, no role yet, nothing typed, and
    /// the shortcut pick lists showing the keys of `shortcut_controller`.
    pub fn new(shortcut_controller: ShortcutController, default_monitor: (u32, u32)) -> (app: Self)
        ensures
            app@ == (AppModel {
                current_page: Page::Home,
                controller: ControllerModel::NotDefined,
                indirizzo_ip: Seq::empty(),
                receiver_message: Seq::empty(),
                connection_ip: Seq::empty(),
                manage_transmission: key_text(shortcut_controller@.0),
                blancking_screen: key_text(shortcut_controller@.1),
                terminate_session: key_text(shortcut_controller@.2),
                err_key_set: false,
                shortcuts: shortcut_controller@,
                second_window_open: false,
                show_color_picker: false,
                set_selected_annotation: false,
                text_status: Status::Inactive,
                selected_shape: None,
                text_selected: Seq::empty(),
                viewers_watched: false,
                default_monitor,
                modality: Modality::Full,
                recording: false,
            }),
    {
        let shortcut_screen = Shortcut {
            manage_transmission: from_key_to_string(shortcut_controller.get_manage_trasmition_shortcut()),
            blancking_screen: from_key_to_string(shortcut_controller.get_blanking_screen_shortcut()),
            terminate_session: from_key_to_string(shortcut_controller.get_terminate_session_shortcut()),
            err_key_set: false,
        };
        App {
            current_page: Page::Home,
            controller: Controller::NotDefined,
            receiver_ip: ReceiverIp { indirizzo_ip: String::new(), message: String::new() },
            connection: Connection { ip_address: String::new() },
            shortcut_screen,
            shortcut_controller,
            second_window_open: false,
            show_color_picker: false,
            set_selected_annotation: false,
            text_status: Status::Inactive,
            selected_shape: None,
            text_selected: String::new(),
            viewers_watched: false,
            default_monitor,
            modality: Modality::Full,
            recording: false,
        }
    }

    /// What the application listens to on its current page.
    pub fn listening(&self) -> (l: Listening)
        ensures
            l.area_selection == (self.current_page == Page::WindowPartScreen),
            l.streaming_controls == (self.current_page == Page::CasterStreaming),
    {
        Listening {
            area_selection: self.current_page == Page::WindowPartScreen,
            streaming_controls: self.current_page == Page::CasterStreaming,
        }
    }

    /// Whether `message` would stop the application.
    pub fn update_would_fail(&self, message: &Message) -> (fails: bool)
        ensures
            fails == update_fails(self, message),
    {
        match message {
            Message::CloseRequested => !self.second_window_open,
            Message::TogglerChanged => self.second_window_open,
            Message::DoKeyShortcut(_) => match self.controller {
                Controller::CasterController(_) => false,
                _ => true,
            },
            Message::ChosenShortcuts(s) => {
                let k = match s {
                    Shortcuts::ManageTransmission(k) => k,
                    Shortcuts::BlanckingScreen(k) => k,
                    Shortcuts::TerminateSession(k) => k,
                };
                crate::model::shortcut::from_str_to_key(k.as_str()).is_err()
            },
            _ => false,
        }
    }

    /// Pauses the caster's stream when it flows and resumes it, sharing
    /// what it shared (`modality`), when the user paused it.
    fn toggle_transmission(caster: &mut AppController, modality: Modality) -> (e: Effect)
        ensures
            final(caster)@ == toggled_transmission(old(caster)@),
            old(caster)@.is_just_stopped ==> e == Effect::StartSharing(modality),
            !old(caster)@.is_just_stopped ==> e is Nothing,
    {
        if caster.is_just_stopped() {
            caster.start_sharing();
            caster.set_is_just_stopped(false);
            Effect::StartSharing(modality)
        } else {
            caster.stop_streaming();
            caster.set_is_just_stopped(true);
            Effect::Nothing
        }
    }

    /// Reacts to `message`.
    pub fn update(&mut self, message: Message) -> (effect: Effect)
        requires
            !update_fails(old(self), &message),
        ensures
            final(self)@ == step(old(self)@, message).0,
            effect == step(old(self)@, message).1,
            shortcuts_choosable(old(self).shortcut_controller@) ==> shortcuts_choosable(final(self).shortcut_controller@),
    {
        match group_of(&message) {
            1 => self.update_navigation(message),
            2 => self.update_caster(message),
            3 => self.update_session(message),
            _ => self.update_ui(message),
        }
    }

    /// Reacts to a message about the windows, colors, annotations,
    /// shortcuts or recording.
    #[verifier::spinoff_prover]
    fn update_ui(&mut self, message: Message) -> (effect: Effect)
        requires
            message_group(&message) == 0,
            !update_fails(old(self), &message),
        ensures
            final(self)@ == step(old(self)@, message).0,
            effect == step(old(self)@, message).1,
            shortcuts_choosable(old(self).shortcut_controller@) ==> shortcuts_choosable(final(self).shortcut_controller@),
    {
        match message {
            Message::CloseRequested => Effect::CloseSecondWindow,
            Message::ResetWindow => {
                self.second_window_open = false;
                Effect::Nothing
            },
            Message::SetColor => {
                self.show_color_picker = true;
                Effect::Nothing
            },
            Message::ChooseColor => {
                self.show_color_picker = true;
                Effect::Nothing
            },
            Message::SubmitColor => {
                self.show_color_picker = false;
                Effect::StoreColor
            },
            Message::CancelColor => {
                self.show_color_picker = false;
                Effect::Nothing
            },
            Message::ChosenShortcuts(shortcuts) => {
                match shortcuts {
                    Shortcuts::ManageTransmission(key) => {
                        self.shortcut_controller.set_manage_trasmition(key.as_str());
                        self.shortcut_screen.update(ShortcutMessage::ManageTransmission(key));
                    },
                    Shortcuts::BlanckingScreen(key) => {
                        self.shortcut_controller.set_blanking_screen(key.as_str());
                        self.shortcut_screen.update(ShortcutMessage::BlanckingScreen(key));
                    },
                    Shortcuts::TerminateSession(key) => {
                        self.shortcut_controller.set_terminate_session(key.as_str());
                        self.shortcut_screen.update(ShortcutMessage::TerminateSession(key));
                    },
                }
                Effect::SaveShortcuts
            },
            Message::SelectShape(shape) => {
                self.set_selected_annotation = !self.set_selected_annotation;
                self.selected_shape = Some(shape);
                Effect::Nothing
            },
            Message::ClearShape => Effect::ClearCanvas,
            Message::TextPressed(condition) => {
                if !condition {
                    self.text_status = Status::TextAdded;
                    Effect::StoreText
                } else {
                    self.text_status = Status::TextPressed;
                    Effect::Nothing
                }
            },
            Message::TextCanvasChanged(text) => {
                self.text_selected = text;
                Effect::Nothing
            },
            Message::SaveTextPosition => {
                self.text_status = Status::TextPositioned;
                Effect::StoreTextPosition
            },
            Message::ToggleRecording => match self.controller {
                Controller::ReceiverController(_) => {
                    let was = self.recording;
                    self.recording = !was;
                    if was { Effect::StopRecording } else { Effect::StartRecording }
                },
                _ => Effect::Nothing,
            },
            Message::NoOp => Effect::Nothing,
            _ => Effect::Nothing,
        }
    }

    /// Reacts to a message that moves between pages.
    #[verifier::spinoff_prover]
    fn update_navigation(&mut self, message: Message) -> (effect: Effect)
        requires
            message_group(&message) == 1,
            !update_fails(old(self), &message),
        ensures
            final(self)@ == step(old(self)@, message).0,
            effect == step(old(self)@, message).1,
            shortcuts_choosable(old(self).shortcut_controller@) ==> shortcuts_choosable(final(self).shortcut_controller@),
    {
        match message {
            Message::RoleChosen(role) => match role {
                Role::Caster => {
                    self.controller = Controller::CasterController(AppController::new(self.default_monitor.0, self.default_monitor.1, false));
                    self.current_page = Page::CasterSettings;
                    Effect::Nothing
                },
                Role::Receiver => {
                    self.current_page = Page::ReceiverIp;
                    Effect::Nothing
                },
            },
            Message::Route(page) => {
                self.current_page = page;
                Effect::Nothing
            },
            Message::Back(page) => {
                self.current_page = match page {
                    Page::Home => Page::Home,
                    Page::Connection => Page::CasterSettings,
                    Page::ReceiverIp => {
                        self.receiver_ip.message = String::new();
                        Page::Home
                    },
                    Page::ReceiverStreaming => Page::Home,
                    Page::CasterSettings => Page::Home,
                    Page::CasterStreaming => Page::Home,
                    Page::WindowPartScreen => Page::Home,
                    Page::Shortcut => Page::Home,
                };
                Effect::Nothing
            },
            Message::ReceiverInputIp(m) => {
                self.receiver_ip.update(m);
                Effect::Nothing
            },
            Message::SetSettingsCaster(window) => match window {
                Window::FullScreen => {
                    self.current_page = Page::Connection;
                    Effect::Nothing
                },
                Window::Area => {
                    if let Controller::CasterController(_) = &self.controller {
                        self.current_page = Page::WindowPartScreen;
                        Effect::TakeAreaScreenshot
                    } else {
                        Effect::Nothing
                    }
                },
            },
            Message::TogglerChanged => Effect::Nothing,
            Message::ViewTools => {
                self.second_window_open = true;
                Effect::OpenToolsWindow
            },
            _ => Effect::Nothing,
        }
    }

    /// Reacts to a message about the caster's stream.
    #[verifier::spinoff_prover]
    #[verifier::rlimit(30)]
    fn update_caster(&mut self, message: Message) -> (effect: Effect)
        requires
            message_group(&message) == 2,
            !update_fails(old(self), &message),
        ensures
            final(self)@ == step(old(self)@, message).0,
            effect == step(old(self)@, message).1,
            shortcuts_choosable(old(self).shortcut_controller@) ==> shortcuts_choosable(final(self).shortcut_controller@),
    {
        match message {
            Message::StartSharing => {
                self.viewers_watched = true;
                Effect::CreateCasterSocket(Modality::Full)
            },
            Message::DoKeyShortcut(key) => {
                let key_code = from_key_to_string(key);
                let blanking = key_code == self.shortcut_screen.blancking_screen;
                let terminate = key_code == self.shortcut_screen.terminate_session;
                let manage = key_code == self.shortcut_screen.manage_transmission;
                if let Controller::CasterController(caster) = &mut self.controller {
                    if blanking {
                        caster.blanking_streaming();
                        Effect::Nothing
                    } else if terminate {
                        self.current_page = Page::Home;
                        let destroy = caster.close_streaming();
                        Effect::CloseCaster(destroy)
                    } else if manage {
                        Self::toggle_transmission(caster, self.modality)
                    } else {
                        Effect::Nothing
                    }
                } else {
                    Effect::Nothing
                }
            },
            Message::Blanking => {
                if let Controller::CasterController(caster) = &mut self.controller {
                    caster.blanking_streaming();
                }
                Effect::Nothing
            },
            Message::SelectDisplay(width, height) => {
                if let Controller::CasterController(caster) = &mut self.controller {
                    caster.set_display(width, height);
                }
                Effect::Nothing
            },
            Message::StartPartialSharing => {
                self.viewers_watched = true;
                match self.controller {
                    Controller::CasterController(_) => Effect::CreateCasterSocket(Modality::Partial),
                    _ => Effect::Nothing,
                }
            },
            Message::StopStreaming => {
                if let Controller::CasterController(caster) = &mut self.controller {
                    Self::toggle_transmission(caster, self.modality)
                } else {
                    Effect::Nothing
                }
            },
            Message::SetCasterSocket(page, modality) => {
                if let Controller::CasterController(caster) = &mut self.controller {
                    caster.set_socket();
                    caster.start_sharing();
                    self.current_page = page;
                    self.modality = modality;
                    if self.viewers_watched {
                        Effect::StartSharingWithViewers(modality)
                    } else {
                        Effect::StartSharing(modality)
                    }
                } else {
                    Effect::Nothing
                }
            },
            _ => Effect::Nothing,
        }
    }

    /// Reacts to a message about a receiver's session, or one that ends
    /// a session.
    #[verifier::spinoff_prover]
    fn update_session(&mut self, message: Message) -> (effect: Effect)
        requires
            message_group(&message) == 3,
            !update_fails(old(self), &message),
        ensures
            final(self)@ == step(old(self)@, message).0,
            effect == step(old(self)@, message).1,
            shortcuts_choosable(old(self).shortcut_controller@) ==> shortcuts_choosable(final(self).shortcut_controller@),
    {
        match message {
            Message::ReceiverSharing(ip_caster) => match self.controller {
                Controller::NotDefined => Effect::CreateReceiverSocket(ip_caster),
                Controller::ReceiverController(_) => Effect::Register,
                Controller::CasterController(_) => Effect::Nothing,
            },
            Message::RegistrationResult(result) => {
                if let Controller::ReceiverController(receiver) = &mut self.controller {
                    match result {
                        Ok(_) => {
                            self.current_page = Page::ReceiverStreaming;
                            receiver.start_receiving();
                            Effect::StartReceiving
                        },
                        Err(message) => {
                            self.receiver_ip.message = message;
                            self.controller = Controller::NotDefined;
                            Effect::Nothing
                        },
                    }
                } else {
                    Effect::Nothing
                }
            },
            Message::ReceiverControllerCreated(page) => {
                self.controller = Controller::ReceiverController(ReceiverController::new());
                self.current_page = page;
                Effect::Register
            },
            Message::Close => {
                self.current_page = Page::Home;
                let effect = match &mut self.controller {
                    Controller::CasterController(caster) => Effect::CloseCaster(caster.close_streaming()),
                    Controller::ReceiverController(receiver) => Effect::CloseReceiver(receiver.close_streaming()),
                    Controller::NotDefined => Effect::Nothing,
                };
                self.controller = Controller::NotDefined;
                effect
            },
            Message::UpdateScreen => match self.controller {
                Controller::ReceiverController(_) => Effect::FetchReceiverFrame,
                Controller::CasterController(_) => Effect::FetchCasterFrame,
                Controller::NotDefined => Effect::Nothing,
            },
            _ => Effect::Nothing,
        }
    }
}

/// The back button never leads to a streaming page: it leads home, or
/// from the connection page back to the caster's settings.
pub proof fn lemma_back_is_safe(page: Page)
    ensures
        back_target(page) == Page::Home || back_target(page) == Page::CasterSettings,
        back_target(page) == Page::CasterSettings <==> page == Page::Connection,
{
}

/// Pausing and then resuming (or resuming and then pausing) gives back the
/// caster's state, when whether frames flow matches whether the user paused.
pub proof fn lemma_pause_resume(s: CasterState)
    requires
        s.stopped == s.is_just_stopped,
    ensures
        toggled_transmission(toggled_transmission(s)) == s,
        toggled_transmission(s).stopped == toggled_transmission(s).is_just_stopped,
        toggled_transmission(s).stopped != s.stopped,
{
}


/// Pressing the pause/resume button twice while casting gives back the
/// state, when whether frames flow matches whether the user paused; the
/// second press asks to start sharing again exactly when the first paused.
pub proof fn lemma_stop_streaming_twice(m: AppModel, c: CasterState)
    requires
        m.controller == ControllerModel::Caster(c),
        c.stopped == c.is_just_stopped,
    ensures
        step(step(m, Message::StopStreaming).0, Message::StopStreaming).0 == m,
        !c.is_just_stopped ==> step(step(m, Message::StopStreaming).0, Message::StopStreaming).1
            == Effect::StartSharing(m.modality),
{
    lemma_pause_resume(c);
    let once = step(m, Message::StopStreaming).0;
    assert(once.controller == ControllerModel::Caster(toggled_transmission(c)));
    assert(step(once, Message::StopStreaming).0 =~= m);
}

/// Pressing the blanking button twice while casting gives back the state.
pub proof fn lemma_blanking_twice_app(m: AppModel, c: CasterState)
    requires
        m.controller == ControllerModel::Caster(c),
    ensures
        step(step(m, Message::Blanking).0, Message::Blanking).0 == m,
{
    let once = step(m, Message::Blanking).0;
    assert(step(once, Message::Blanking).0 =~= m);
}


/// The blanking button flips whether receivers get a black screen, and
/// changes nothing else of the caster, the page, or the work to start.
pub proof fn lemma_blanking_button_flips(m: AppModel, c: CasterState)
    requires
        m.controller == ControllerModel::Caster(c),
    ensures
        ({
            let (n, e) = step(m, Message::Blanking);
            &&& n.controller matches ControllerModel::Caster(d) && d.blanking == !c.blanking
                && d.stopped == c.stopped && d.is_just_stopped == c.is_just_stopped
                && d.has_socket == c.has_socket && d.measures == c.measures
            &&& n.current_page == m.current_page
            &&& e == Effect::Nothing
        }),
{
}

/// Closing a stream, whatever the role, leads to the home page with no
/// role left; a caster that still streams through a socket destroys it,
/// and a receiver that still receives leaves.
pub proof fn lemma_close_goes_home(m: AppModel)
    ensures
        step(m, Message::Close).0.current_page == Page::Home,
        step(m, Message::Close).0.controller == ControllerModel::NotDefined,
        m.controller matches ControllerModel::Caster(c) ==> step(m, Message::Close).1
            == Effect::CloseCaster(!c.stopped && c.has_socket),
        m.controller matches ControllerModel::Receiver { stopped } ==> step(m, Message::Close).1
            == Effect::CloseReceiver(!stopped),
        m.controller is NotDefined ==> step(m, Message::Close).1 == Effect::Nothing,
{
}

/// The pause/resume key (when it is not also the blanking or the
/// end-of-session key) pauses a flowing stream and resumes a stream the
/// user paused: afterwards frames flow exactly when the user had paused,
/// and sharing what was shared starts again exactly then; blanking, the
/// socket, the monitor and the page stay as they were.
pub proof fn lemma_pause_resume_key(m: AppModel, c: CasterState, key: ShortcutKey)
    requires
        m.controller == ControllerModel::Caster(c),
        key_text(key@) == m.manage_transmission,
        key_text(key@) != m.blancking_screen,
        key_text(key@) != m.terminate_session,
    ensures
        ({
            let (n, e) = step(m, Message::DoKeyShortcut(key));
            &&& n.controller matches ControllerModel::Caster(d) && d.stopped == !c.is_just_stopped
                && d.is_just_stopped == !c.is_just_stopped && d.blanking == c.blanking
                && d.has_socket == c.has_socket && d.measures == c.measures
            &&& n.current_page == m.current_page
            &&& c.is_just_stopped ==> e == Effect::StartSharing(m.modality)
            &&& !c.is_just_stopped ==> e == Effect::Nothing
        }),
{
}

/// Pressing the pause/resume key twice gives back the state, when whether
/// frames flow matches whether the user paused; the second press of a pair
/// that starts on a flowing stream starts sharing again.
pub proof fn lemma_pause_resume_key_twice(m: AppModel, c: CasterState, key: ShortcutKey)
    requires
        m.controller == ControllerModel::Caster(c),
        c.stopped == c.is_just_stopped,
        key_text(key@) == m.manage_transmission,
        key_text(key@) != m.blancking_screen,
        key_text(key@) != m.terminate_session,
    ensures
        step(step(m, Message::DoKeyShortcut(key)).0, Message::DoKeyShortcut(key)).0 == m,
        !c.is_just_stopped ==> step(step(m, Message::DoKeyShortcut(key)).0, Message::DoKeyShortcut(key)).1
            == Effect::StartSharing(m.modality),
{
    let once = step(m, Message::DoKeyShortcut(key)).0;
    lemma_pause_resume_key(m, c, key);
    lemma_pause_resume(c);
    assert(once.controller == ControllerModel::Caster(toggled_transmission(c)));
    lemma_pause_resume_key(once, toggled_transmission(c), key);
    assert(step(once, Message::DoKeyShortcut(key)).0 =~= m);
}


/// The pause/resume button pauses a flowing stream and resumes a stream the
/// user paused, like the pause/resume key.
pub proof fn lemma_pause_resume_button(m: AppModel, c: CasterState)
    requires
        m.controller == ControllerModel::Caster(c),
    ensures
        ({
            let (n, e) = step(m, Message::StopStreaming);
            &&& n.controller matches ControllerModel::Caster(d) && d.stopped == !c.is_just_stopped
                && d.is_just_stopped == !c.is_just_stopped && d.blanking == c.blanking
                && d.has_socket == c.has_socket && d.measures == c.measures
            &&& n.current_page == m.current_page
            &&& c.is_just_stopped ==> e == Effect::StartSharing(m.modality)
            &&& !c.is_just_stopped ==> e == Effect::Nothing
        }),
{
}

/// The blanking key flips whether receivers get a black screen, and
/// changes nothing else.
pub proof fn lemma_blanking_key(m: AppModel, c: CasterState, key: ShortcutKey)
    requires
        m.controller == ControllerModel::Caster(c),
        key_text(key@) == m.blancking_screen,
    ensures
        ({
            let (n, e) = step(m, Message::DoKeyShortcut(key));
            &&& n.controller matches ControllerModel::Caster(d) && d.blanking == !c.blanking
                && d.stopped == c.stopped && d.is_just_stopped == c.is_just_stopped
                && d.has_socket == c.has_socket && d.measures == c.measures
            &&& n.current_page == m.current_page
            &&& e == Effect::Nothing
        }),
{
}

/// The end-of-session key (when it is not the blanking key) stops the
/// stream and leads home; the socket is destroyed when frames were still
/// flowing through one.
pub proof fn lemma_terminate_key(m: AppModel, c: CasterState, key: ShortcutKey)
    requires
        m.controller == ControllerModel::Caster(c),
        key_text(key@) == m.terminate_session,
        key_text(key@) != m.blancking_screen,
    ensures
        ({
            let (n, e) = step(m, Message::DoKeyShortcut(key));
            &&& n.controller matches ControllerModel::Caster(d) && d.stopped
                && d.blanking == c.blanking && d.is_just_stopped == c.is_just_stopped
                && d.has_socket == c.has_socket && d.measures == c.measures
            &&& n.current_page == Page::Home
            &&& e == Effect::CloseCaster(!c.stopped && c.has_socket)
        }),
{
}

/// A key that is none of the three shortcuts changes nothing.
pub proof fn lemma_other_key(m: AppModel, c: CasterState, key: ShortcutKey)
    requires
        m.controller == ControllerModel::Caster(c),
        key_text(key@) != m.manage_transmission,
        key_text(key@) != m.blancking_screen,
        key_text(key@) != m.terminate_session,
    ensures
        step(m, Message::DoKeyShortcut(key)).0 == m,
        step(m, Message::DoKeyShortcut(key)).1 == Effect::Nothing,
{
    assert(step(m, Message::DoKeyShortcut(key)).0 =~= m);
}

/// Once the caster's socket is open, frames flow through it: the caster
/// has a socket, is not stopped, shares the given modality, shows page `p`,
/// and starts sharing (watching the viewers when asked to).
pub proof fn lemma_socket_starts_sharing(m: AppModel, c: CasterState, p: Page, modality: Modality)
    requires
        m.controller == ControllerModel::Caster(c),
    ensures
        ({
            let (n, e) = step(m, Message::SetCasterSocket(p, modality));
            &&& n.controller matches ControllerModel::Caster(d) && d.has_socket && !d.stopped
                && d.blanking == c.blanking && d.is_just_stopped == c.is_just_stopped && d.measures == c.measures
            &&& n.current_page == p
            &&& n.modality == modality
            &&& m.viewers_watched ==> e == Effect::StartSharingWithViewers(modality)
            &&& !m.viewers_watched ==> e == Effect::StartSharing(modality)
        }),
{
}

/// Choosing a monitor gives the caster its size and changes nothing else.
pub proof fn lemma_select_display(m: AppModel, c: CasterState, w: u32, h: u32)
    requires
        m.controller == ControllerModel::Caster(c),
    ensures
        ({
            let (n, e) = step(m, Message::SelectDisplay(w, h));
            &&& n.controller matches ControllerModel::Caster(d) && d.measures == (w, h)
                && d.stopped == c.stopped && d.blanking == c.blanking
                && d.is_just_stopped == c.is_just_stopped && d.has_socket == c.has_socket
            &&& n.current_page == m.current_page
            &&& e == Effect::Nothing
        }),
{
}

/// A receiver's registration, once answered: on success it shows the
/// stream and starts receiving; on failure it shows the reason, drops the
/// receiver and stays on its page.
pub proof fn lemma_registration_answer(m: AppModel, stopped: bool, r: Result<String, String>)
    requires
        m.controller == (ControllerModel::Receiver { stopped }),
    ensures
        ({
            let (n, e) = step(m, Message::RegistrationResult(r));
            &&& r is Ok ==> n.current_page == Page::ReceiverStreaming && n.controller == (ControllerModel::Receiver { stopped: false })
                && e == Effect::StartReceiving
            &&& r matches Err(t) ==> n.receiver_message == t@ && n.controller is NotDefined
                && n.current_page == m.current_page && e == Effect::Nothing
        }),
{
}

/// Choosing to cast makes a caster that shares the default monitor, with
/// no socket yet, frames not stopped and the screen not blanked.
pub proof fn lemma_become_caster(m: AppModel)
    ensures
        ({
            let (n, e) = step(m, Message::RoleChosen(Role::Caster));
            &&& n.controller matches ControllerModel::Caster(d) && !d.stopped && !d.blanking
                && !d.is_just_stopped && !d.has_socket && d.measures == m.default_monitor
            &&& n.current_page == Page::CasterSettings
            &&& e == Effect::Nothing
        }),
{
}

} // verus!
