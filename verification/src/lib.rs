//! Operator console core for a working list of IPv4 device addresses.
//!
//! The crate holds the verified heart of a small terminal application:
//! the command-line grammar that turns a submitted line into a structured
//! action, the address list with its selection-index bookkeeping, the
//! exit-confirmation state machine, and the screen composition that ties
//! them together.  Drawing and terminal input live outside the library;
//! the library exposes plain state that a renderer reads.

pub mod confirm_exit;
pub mod device_docs;
pub mod ip_list;
pub mod keys;
pub mod main_screen;
pub mod observer;
pub mod prompt;
pub mod renderable_screen;
pub mod renderable_widget;
pub mod subject;
pub mod text;

use vstd::prelude::*;

use crate::keys::{KeyEvent, KeyEventKind};
use crate::main_screen::{main_step_spec, MainModel, MainScreen};
use crate::renderable_screen::RenderableScreen;

verus! {

/// Which screen owns the frame: the main console, or the help overlay
/// it opens.  Help is only ever entered from the main screen, so
/// dismissing it always returns there.
#[derive(Debug, Clone, Copy, PartialEq, Eq, Structural)]
pub enum ScreenState {
    /// The main console screen.
    MainScreen,
    /// The static help overlay.
    HelpScreen,
}

/// The application state at the specification level.
#[verifier::ext_equal]
pub struct AppModel {
    /// Which screen owns the frame.
    pub screen: ScreenState,
    /// The main screen's state.
    pub main: MainModel,
}

/// How one input event moves the application: the help overlay eats the
/// next key press and returns to the main screen; otherwise the main
/// screen processes the event, and a help request it raised switches the
/// frame to the help overlay.
pub open spec fn app_step_spec(a: AppModel, key: KeyEvent) -> AppModel {
    match a.screen {
        ScreenState::HelpScreen => {
            if key.kind == KeyEventKind::Press {
                AppModel { screen: ScreenState::MainScreen, ..a }
            } else {
                a
            }
        },
        ScreenState::MainScreen => {
            let m = main_step_spec(a.main, key);
            if m.help_requested {
                AppModel {
                    screen: ScreenState::HelpScreen,
                    main: MainModel { help_requested: false, ..m },
                }
            } else {
                AppModel { screen: ScreenState::MainScreen, main: m }
            }
        },
    }
}

/// The whole application: the active-screen tag and the main screen.
/// The surrounding event loop polls input, hands each event to
/// [`App::step`], and reads [`App::should_exit`] afterwards.
#[derive(Debug)]
pub struct App {
    /// Which screen owns the frame.
    pub screen: ScreenState,
    /// The main screen and everything it owns.
    pub main: MainScreen,
}

impl View for App {
    type V = AppModel;

    open spec fn view(&self) -> AppModel {
        AppModel { screen: self.screen, main: self.main@ }
    }
}

impl App {
    /// The main screen is well-formed between any two events.
    pub open spec fn wf(&self) -> bool {
        self.main.wf()
    }

    /// A fresh application, on the main screen.
    pub fn new() -> (r: App)
        ensures
            r.wf(),
            r@ == (AppModel {
                screen: ScreenState::MainScreen,
                main: MainScreen::new_model(),
            }),
    {
        let r = App { screen: ScreenState::MainScreen, main: MainScreen::new() };
        proof {
            assert(r@ =~~= (AppModel {
                screen: ScreenState::MainScreen,
                main: MainScreen::new_model(),
            }));
        }
        r
    }

    /// Processes one input event to completion, as [`app_step_spec`]
    /// says.
    pub fn step(&mut self, key: KeyEvent)
        requires
            old(self).wf(),
        ensures
            final(self).wf(),
            final(self)@ == app_step_spec(old(self)@, key),
    {
        match self.screen {
            ScreenState::HelpScreen => {
                if key.kind == KeyEventKind::Press {
                    self.screen = ScreenState::MainScreen;
                }
                proof {
                    assert(self@ =~~= app_step_spec(old(self)@, key));
                }
            },
            ScreenState::MainScreen => {
                self.main.handle_input(key);
                if self.main.help_requested {
                    self.main.help_requested = false;
                    self.screen = ScreenState::HelpScreen;
                }
                proof {
                    assert(self@ =~~= app_step_spec(old(self)@, key));
                }
            },
        }
    }

    /// Whether the application should stop, read by the event loop after
    /// each input event.
    pub fn should_exit(&self) -> (r: bool)
        ensures
            r == self@.main.exit,
    {
        self.main.exit
    }

    /// Checks well-formedness at run time, for callers outside the
    /// library that cannot carry the proof.
    pub fn wf_check(&self) -> (r: bool)
        ensures
            r == self.wf(),
    {
        let prompt_ok = self.main.inputbox.cursor <= self.main.inputbox.buffer.len()
            && self.main.inputbox.command.is_none();
        let len = self.main.iplist.ips.len();
        let list_ok = if len == 0 {
            self.main.iplist.selected == 0
        } else {
            self.main.iplist.selected < len
        };
        prompt_ok && list_ok
    }
}

impl Default for App {
    /// Same as [`App::new`].
    fn default() -> (r: App)
        ensures
            r.wf(),
            r@ == (AppModel {
                screen: ScreenState::MainScreen,
                main: MainScreen::new_model(),
            }),
    {
        App::new()
    }
}

/// The static text of the help overlay.
pub fn help_text() -> (r: String)
    ensures
        r@ == "add <ipv4> appends; del/rm <n> removes by index; del/rm removes the selection; ?/help shows this; exit/quit/close warn; Esc confirms exit. Any key returns."@,
{
    "add <ipv4> appends; del/rm <n> removes by index; del/rm removes the selection; ?/help shows this; exit/quit/close warn; Esc confirms exit. Any key returns.".to_owned()
}

} // verus!
