//! The main screen: the address list, the command prompt, and the
//! exit-confirmation overlay, with the top-level interaction state
//! machine that ties them together.
//!
//! One key press is processed to completion: it is dispatched to the
//! overlay, the list, or the prompt, and a command the prompt emitted is
//! consumed at once — the pending slot is always drained before the next
//! key arrives.

use vstd::prelude::*;

use crate::confirm_exit::ConfirmExitScreen;
use crate::device_docs::{valid_ipv4, DeviceDoc};
use crate::ip_list::{nav_step_spec, selected_after_remove, IpList, ListModel};
use crate::keys::{KeyCode, KeyEvent, KeyEventKind};
use crate::prompt::{
    prompt_step_spec, BarStatus, BarStatusSpec, CommandSignal, CommandSpec, PromptBox, PromptModel,
};
use crate::renderable_screen::RenderableScreen;
use crate::renderable_widget::RenderableWidget;
use crate::text::{dec_digits_of, usize_to_string};

verus! {

/// The main-screen state at the specification level.
#[verifier::ext_equal]
pub struct MainModel {
    /// The prompt: line buffer, pending command, status banner.
    pub prompt: PromptModel,
    /// The address list and its selection.
    pub list: ListModel,
    /// The overlay's resolution, when the overlay is up and resolved.
    pub popup: Option<bool>,
    /// Whether the exit-confirmation overlay is up.
    pub confirming: bool,
    /// The cue for the application loop to stop.
    pub exit: bool,
    /// The cue for the application to show the help overlay.
    pub help_requested: bool,
}

/// Removal of index `i` with its completion message, for a non-empty
/// list and `i` in range.
pub open spec fn del_at_spec(m: MainModel, i: int) -> MainModel {
    MainModel {
        list: ListModel {
            ips: m.list.ips.remove(i),
            selected: selected_after_remove(m.list.selected, m.list.ips.len() as int, i),
        },
        prompt: PromptModel {
            status: Some(BarStatusSpec::Complete("Removed "@ + m.list.ips[i])),
            ..m.prompt
        },
        ..m
    }
}

/// How one consumed command changes the screen.
///
/// `AddItem` is validated again defensively — the prompt only emits
/// validated text, but the validator stays the sole source of truth —
/// and appends the record.  `DelItem` out of range or on an empty list
/// warns and never mutates the list.  `Exit` only warns: a typed command
/// never confirms the exit by itself.
pub open spec fn apply_command_spec(m: MainModel, c: CommandSpec) -> MainModel {
    match c {
        CommandSpec::AddItem(text) => {
            if valid_ipv4(text) {
                MainModel {
                    list: ListModel { ips: m.list.ips.push(text), ..m.list },
                    prompt: PromptModel {
                        status: Some(BarStatusSpec::Complete("Added "@ + text)),
                        ..m.prompt
                    },
                    ..m
                }
            } else {
                MainModel {
                    prompt: PromptModel {
                        status: Some(BarStatusSpec::Error(text + " is not a valid ipv4"@)),
                        ..m.prompt
                    },
                    ..m
                }
            }
        },
        CommandSpec::DelItem(which) => {
            let len = m.list.ips.len() as int;
            match which {
                Some(n) => {
                    if len == 0 {
                        MainModel {
                            prompt: PromptModel {
                                status: Some(BarStatusSpec::Warning("no items to remove"@)),
                                ..m.prompt
                            },
                            ..m
                        }
                    } else if n >= len {
                        MainModel {
                            prompt: PromptModel {
                                status: Some(
                                    BarStatusSpec::Warning(
                                        "index too high, max is "@ + dec_digits_of(
                                            (len - 1) as nat,
                                        ),
                                    ),
                                ),
                                ..m.prompt
                            },
                            ..m
                        }
                    } else {
                        del_at_spec(m, n as int)
                    }
                },
                None => {
                    if len == 0 {
                        MainModel {
                            prompt: PromptModel {
                                status: Some(BarStatusSpec::Warning("no items to remove"@)),
                                ..m.prompt
                            },
                            ..m
                        }
                    } else {
                        del_at_spec(m, m.list.selected)
                    }
                },
            }
        },
        CommandSpec::Help => (MainModel { help_requested: true, ..m }),
        CommandSpec::Exit => (MainModel {
            prompt: PromptModel {
                status: Some(BarStatusSpec::Warning("press Esc to confirm exit"@)),
                ..m.prompt
            },
            ..m
        }),
    }
}

/// The top-level state machine, one key press at a time.
///
/// Non-press events are ignored.  While the overlay is up, the next
/// press resolves it: `Esc` sets the exit cue, anything else returns to
/// normal with everything but the overlay untouched.  Otherwise `Esc`
/// raises the overlay, `Up`/`Down` move the list selection, and every
/// other key goes to the prompt, whose emitted command (if any) is
/// consumed at once.
pub open spec fn main_step_spec(m: MainModel, key: KeyEvent) -> MainModel {
    if key.kind != KeyEventKind::Press {
        m
    } else if m.confirming {
        if key.code == KeyCode::Esc {
            MainModel { exit: true, popup: None, ..m }
        } else {
            MainModel { exit: false, confirming: false, popup: None, ..m }
        }
    } else {
        match key.code {
            KeyCode::Esc => (MainModel { confirming: true, popup: None, ..m }),
            KeyCode::Up => (MainModel { list: nav_step_spec(m.list, key.code), ..m }),
            KeyCode::Down => (MainModel { list: nav_step_spec(m.list, key.code), ..m }),
            _ => {
                let p = prompt_step_spec(m.prompt, key);
                match p.command {
                    Some(c) => apply_command_spec(
                        MainModel { prompt: PromptModel { command: None, ..p }, ..m },
                        c,
                    ),
                    None => (MainModel { prompt: p, ..m }),
                }
            },
        }
    }
}

/// The main screen and everything it owns.
#[derive(Debug)]
pub struct MainScreen {
    /// The command prompt.
    pub inputbox: PromptBox,
    /// The address list.
    pub iplist: IpList,
    /// The exit-confirmation overlay.
    pub exit_popup: ConfirmExitScreen,
    /// Whether the overlay is up.
    pub try_exit: bool,
    /// The cue for the application loop to stop.
    pub exit: bool,
    /// The cue for the application to show the help overlay.
    pub help_requested: bool,
}

impl View for MainScreen {
    type V = MainModel;

    open spec fn view(&self) -> MainModel {
        MainModel {
            prompt: self.inputbox@,
            list: self.iplist@,
            popup: self.exit_popup.should_exit,
            confirming: self.try_exit,
            exit: self.exit,
            help_requested: self.help_requested,
        }
    }
}

impl MainScreen {
    /// The components are well-formed and the pending command slot is
    /// drained, as it is between any two input events.
    pub open spec fn wf(&self) -> bool {
        &&& self.inputbox.wf()
        &&& self.iplist.wf()
        &&& self.inputbox@.command is None
    }

    /// A fresh screen: empty list, empty prompt, no overlay, no cues.
    pub fn new() -> (r: MainScreen)
        ensures
            r.wf(),
            r@ == MainScreen::new_model(),
    {
        let r = MainScreen {
            inputbox: PromptBox::new(),
            iplist: IpList::new(),
            exit_popup: ConfirmExitScreen::new(),
            try_exit: false,
            exit: false,
            help_requested: false,
        };
        proof {
            assert(r@ =~~= MainScreen::new_model());
        }
        r
    }

    /// Consumes one command, as [`apply_command_spec`] says.
    fn apply_command(&mut self, c: CommandSignal)
        requires
            old(self).inputbox.wf(),
            old(self).iplist.wf(),
        ensures
            final(self).inputbox.wf(),
            final(self).iplist.wf(),
            final(self).inputbox@.command == old(self).inputbox@.command,
            final(self)@ == apply_command_spec(old(self)@, c@),
    {
        match c {
            CommandSignal::AddItem(text) => {
                match DeviceDoc::from_str(text.as_str()) {
                    Ok(doc) => {
                        self.iplist.add(doc);
                        let msg = "Added ".to_owned().concat(text.as_str());
                        self.inputbox.set_status(BarStatus::Complete(msg));
                    },
                    Err(_) => {
                        let msg = text.concat(" is not a valid ipv4");
                        self.inputbox.set_status(BarStatus::Error(msg));
                    },
                }
                proof {
                    assert(self@ =~~= apply_command_spec(old(self)@, c@));
                }
            },
            CommandSignal::DelItem(which) => {
                let len = self.iplist.ips.len();
                match which {
                    Some(n) => {
                        if len == 0 {
                            self.inputbox.set_status(
                                BarStatus::Warning("no items to remove".to_owned()),
                            );
                        } else if n >= len {
                            let msg = "index too high, max is ".to_owned().concat(
                                usize_to_string(len - 1).as_str(),
                            );
                            self.inputbox.set_status(BarStatus::Warning(msg));
                        } else {
                            let doc = self.iplist.remove_at(n);
                            let msg = "Removed ".to_owned().concat(doc.ip().as_str());
                            self.inputbox.set_status(BarStatus::Complete(msg));
                        }
                    },
                    None => {
                        if len == 0 {
                            self.inputbox.set_status(
                                BarStatus::Warning("no items to remove".to_owned()),
                            );
                        } else {
                            let sel = self.iplist.selected;
                            let doc = self.iplist.remove_at(sel);
                            let msg = "Removed ".to_owned().concat(doc.ip().as_str());
                            self.inputbox.set_status(BarStatus::Complete(msg));
                        }
                    },
                }
                proof {
                    assert(self@ =~~= apply_command_spec(old(self)@, c@));
                }
            },
            CommandSignal::Help => {
                self.help_requested = true;
                proof {
                    assert(self@ =~~= apply_command_spec(old(self)@, c@));
                }
            },
            CommandSignal::Exit => {
                self.inputbox.set_status(
                    BarStatus::Warning("press Esc to confirm exit".to_owned()),
                );
                proof {
                    assert(self@ =~~= apply_command_spec(old(self)@, c@));
                }
            },
        }
    }
}

impl RenderableScreen for MainScreen {
    open spec fn inv(&self) -> bool {
        self.wf()
    }

    open spec fn ready(&self) -> bool {
        true
    }

    /// Processes one input event to completion, as [`main_step_spec`]
    /// says.
    fn handle_input(&mut self, key: KeyEvent)
        ensures
            final(self)@ == main_step_spec(old(self)@, key),
    {
        if key.kind != KeyEventKind::Press {
            return ;
        }
        if self.try_exit {
            self.exit_popup.handle_input(key);
            match self.exit_popup.should_exit {
                Some(se) => {
                    self.exit = se;
                    self.exit_popup.should_exit = None;
                    if !se {
                        self.try_exit = false;
                    }
                },
                None => {},
            }
            proof {
                assert(self@ =~~= main_step_spec(old(self)@, key));
            }
            return ;
        }
        match key.code {
            KeyCode::Esc => {
                self.try_exit = true;
                self.exit_popup.should_exit = None;
                proof {
                    assert(self@ =~~= main_step_spec(old(self)@, key));
                }
            },
            KeyCode::Up => {
                self.iplist.handle_input(key);
                proof {
                    assert(self@ =~~= main_step_spec(old(self)@, key));
                }
            },
            KeyCode::Down => {
                self.iplist.handle_input(key);
                proof {
                    assert(self@ =~~= main_step_spec(old(self)@, key));
                }
            },
            _ => {
                self.inputbox.handle_input(key);
                match self.inputbox.take_command() {
                    Some(c) => {
                        self.apply_command(c);
                    },
                    None => {},
                }
                proof {
                    assert(self@ =~~= main_step_spec(old(self)@, key));
                }
            },
        }
    }
}

impl Default for MainScreen {
    /// Same as [`MainScreen::new`].
    fn default() -> (r: MainScreen)
        ensures
            r.wf(),
            r@ == MainScreen::new_model(),
    {
        MainScreen::new()
    }
}

impl MainScreen {
    /// The state a fresh screen starts in.
    pub open spec fn new_model() -> MainModel {
        MainModel {
            prompt: PromptModel { buffer: Seq::empty(), cursor: 0, command: None, status: None },
            list: ListModel { ips: Seq::empty(), selected: 0 },
            popup: None,
            confirming: false,
            exit: false,
            help_requested: false,
        }
    }
}

/// Consuming an `AddItem` with validated text appends exactly that text
/// at the end of the list — one new entry per success, in call order —
/// and never moves the selection.
pub proof fn lemma_add_appends(m: MainModel, text: Seq<char>)
    requires
        valid_ipv4(text),
    ensures
        apply_command_spec(m, CommandSpec::AddItem(text)).list.ips == m.list.ips.push(text),
        apply_command_spec(m, CommandSpec::AddItem(text)).list.ips.len() == m.list.ips.len() + 1,
        apply_command_spec(m, CommandSpec::AddItem(text)).list.ips.last() == text,
        apply_command_spec(m, CommandSpec::AddItem(text)).list.selected == m.list.selected,
{
}

/// Consuming a `DelItem` while the list is empty never mutates the list
/// and always leaves a warning in the status banner.
pub proof fn lemma_del_empty_warns(m: MainModel, which: Option<usize>)
    requires
        m.list.ips.len() == 0,
    ensures
        apply_command_spec(m, CommandSpec::DelItem(which)).list == m.list,
        apply_command_spec(m, CommandSpec::DelItem(which)).prompt.status == Some(
            BarStatusSpec::Warning("no items to remove"@),
        ),
{
}

/// Consuming a `DelItem` whose index is at or past the end never
/// mutates the list, and the warning names the highest valid index.
pub proof fn lemma_del_out_of_range_warns(m: MainModel, n: usize)
    requires
        m.list.ips.len() > 0,
        n >= m.list.ips.len(),
    ensures
        apply_command_spec(m, CommandSpec::DelItem(Some(n))).list == m.list,
        apply_command_spec(m, CommandSpec::DelItem(Some(n))).prompt.status == Some(
            BarStatusSpec::Warning(
                "index too high, max is "@ + dec_digits_of((m.list.ips.len() - 1) as nat),
            ),
        ),
{
}

/// A typed `exit` command only warns: it sets the banner and leaves the
/// application-exit cue and the overlay exactly as they were.
pub proof fn lemma_typed_exit_warns(m: MainModel)
    ensures
        apply_command_spec(m, CommandSpec::Exit).exit == m.exit,
        apply_command_spec(m, CommandSpec::Exit).confirming == m.confirming,
        apply_command_spec(m, CommandSpec::Exit).list == m.list,
        apply_command_spec(m, CommandSpec::Exit).prompt.status == Some(
            BarStatusSpec::Warning("press Esc to confirm exit"@),
        ),
{
}

/// Pressing `Esc` twice from the normal state sets the application-exit
/// cue.
pub proof fn lemma_esc_esc_exits(m: MainModel, k1: KeyEvent, k2: KeyEvent)
    requires
        !m.confirming,
        k1 == (KeyEvent { code: KeyCode::Esc, kind: KeyEventKind::Press }),
        k2 == (KeyEvent { code: KeyCode::Esc, kind: KeyEventKind::Press }),
    ensures
        main_step_spec(main_step_spec(m, k1), k2).exit,
{
}

/// Pressing `Esc` and then any other key returns to the normal state
/// with the list and the prompt untouched and the exit cue off.
pub proof fn lemma_esc_cancel(m: MainModel, k1: KeyEvent, k2: KeyEvent)
    requires
        !m.confirming,
        k1 == (KeyEvent { code: KeyCode::Esc, kind: KeyEventKind::Press }),
        k2.kind == KeyEventKind::Press,
        k2.code != KeyCode::Esc,
    ensures
        main_step_spec(main_step_spec(m, k1), k2).list == m.list,
        main_step_spec(main_step_spec(m, k1), k2).prompt == m.prompt,
        !main_step_spec(main_step_spec(m, k1), k2).confirming,
        !main_step_spec(main_step_spec(m, k1), k2).exit,
{
}

/// Adding one address to an empty list and then deleting index zero
/// returns the list to empty, with the selection back at zero.
pub proof fn lemma_add_del_round_trip(m: MainModel, text: Seq<char>)
    requires
        m.list.ips.len() == 0,
        m.list.selected == 0,
        valid_ipv4(text),
    ensures
        apply_command_spec(
            apply_command_spec(m, CommandSpec::AddItem(text)),
            CommandSpec::DelItem(Some(0)),
        ).list.ips.len() == 0,
        apply_command_spec(
            apply_command_spec(m, CommandSpec::AddItem(text)),
            CommandSpec::DelItem(Some(0)),
        ).list.selected == 0,
{
    let m1 = apply_command_spec(m, CommandSpec::AddItem(text));
    assert(m1.list.ips.len() == 1);
    assert(apply_command_spec(m1, CommandSpec::DelItem(Some(0))).list.ips =~= Seq::empty());
}

} // verus!
