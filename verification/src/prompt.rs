//! The command prompt: a line-oriented text buffer, the command grammar,
//! and the status banner.
//!
//! A submitted line is split on whitespace into tokens; the first token
//! names the command, the second is its argument.  The grammar either
//! emits one structured [`CommandSignal`] for the owner to consume, or
//! reports a rejection in the status banner, or does nothing at all for
//! an empty line.

use vstd::prelude::*;

use crate::device_docs::{regex_is_ipv4, valid_ipv4};
use crate::keys::{KeyCode, KeyEvent};
use crate::renderable_widget::RenderableWidget;
use crate::text::{chars_eq_str, chars_to_string, parse_usize, parse_usize_spec};

verus! {

/// The whitespace the tokenizer splits on.
pub open spec fn is_space(c: char) -> bool {
    c == ' ' || c == '\t' || c == '\n' || c == '\r'
}

/// The first position at or after `i` that does not hold whitespace, or
/// the end of the line.
pub open spec fn skip_spaces_from(s: Seq<char>, i: int) -> int
    decreases s.len() - i when 0 <= i <= s.len()
{
    if i >= s.len() {
        i
    } else if is_space(s[i]) {
        skip_spaces_from(s, i + 1)
    } else {
        i
    }
}

/// The first position at or after `i` that holds whitespace, or the end
/// of the line: the end of the token starting at `i`.
pub open spec fn run_end_from(s: Seq<char>, i: int) -> int
    decreases s.len() - i when 0 <= i <= s.len()
{
    if i >= s.len() {
        i
    } else if is_space(s[i]) {
        i
    } else {
        run_end_from(s, i + 1)
    }
}

/// Where the command token starts.
pub open spec fn cmd_start(s: Seq<char>) -> int {
    skip_spaces_from(s, 0)
}

/// Where the command token ends.
pub open spec fn cmd_end(s: Seq<char>) -> int {
    run_end_from(s, cmd_start(s))
}

/// The line holds at least one token.
pub open spec fn has_cmd(s: Seq<char>) -> bool {
    cmd_start(s) < s.len()
}

/// The command token: the first whitespace-delimited token of the line.
pub open spec fn cmd_tok(s: Seq<char>) -> Seq<char> {
    s.subrange(cmd_start(s), cmd_end(s))
}

/// Where the argument token starts.
pub open spec fn arg_start(s: Seq<char>) -> int {
    skip_spaces_from(s, cmd_end(s))
}

/// Where the argument token ends.
pub open spec fn arg_end(s: Seq<char>) -> int {
    run_end_from(s, arg_start(s))
}

/// The line holds a second token.
pub open spec fn has_arg(s: Seq<char>) -> bool {
    arg_start(s) < s.len()
}

/// The argument token: the second whitespace-delimited token.  Tokens
/// beyond the second are ignored, as the grammar takes no more than one
/// argument.
pub open spec fn arg_tok(s: Seq<char>) -> Seq<char> {
    s.subrange(arg_start(s), arg_end(s))
}

/// A structured action the grammar emitted, at the specification level.
/// The argument of `AddItem` is the validated address text; the argument
/// of `DelItem` is the index to delete, or `None` for the selected item.
pub enum CommandSpec {
    /// Append the validated address.
    AddItem(Seq<char>),
    /// Delete by index, or the selected item when `None`.
    DelItem(Option<usize>),
    /// Show the help overlay.
    Help,
    /// Ask for exit confirmation.
    Exit,
}

/// The status banner at the specification level.
pub enum BarStatusSpec {
    /// The last command succeeded.
    Complete(Seq<char>),
    /// The last input was ignored, with the reason.
    Warning(Seq<char>),
    /// The last input was malformed, with the reason.
    Error(Seq<char>),
}

/// What one submitted line amounts to: a command, a status report, or
/// nothing at all.
pub enum PromptOutcome {
    /// A structured command for the owner to consume.
    Emit(CommandSpec),
    /// A grammar-level rejection for the status banner.
    Report(BarStatusSpec),
    /// An empty line: no command and no status change.
    Pass,
}

/// The grammar of one submitted line.
pub open spec fn interpret_spec(s: Seq<char>) -> PromptOutcome {
    if !has_cmd(s) {
        PromptOutcome::Pass
    } else {
        let cmd = cmd_tok(s);
        let arg = arg_tok(s);
        if cmd == "add"@ {
            if !has_arg(s) {
                PromptOutcome::Report(BarStatusSpec::Error("Can't add nothing"@))
            } else if valid_ipv4(arg) {
                PromptOutcome::Emit(CommandSpec::AddItem(arg))
            } else {
                PromptOutcome::Report(BarStatusSpec::Warning(arg + " is not a valid ipv4"@))
            }
        } else if cmd == "del"@ || cmd == "rm"@ {
            if !has_arg(s) {
                PromptOutcome::Emit(CommandSpec::DelItem(None))
            } else {
                match parse_usize_spec(arg) {
                    Some(n) => PromptOutcome::Emit(CommandSpec::DelItem(Some(n))),
                    None => PromptOutcome::Report(
                        BarStatusSpec::Error("Cannot parse index "@ + arg),
                    ),
                }
            }
        } else if cmd == "?"@ || cmd == "help"@ {
            PromptOutcome::Emit(CommandSpec::Help)
        } else if cmd == "exit"@ || cmd == "quit"@ || cmd == "close"@ {
            PromptOutcome::Emit(CommandSpec::Exit)
        } else {
            PromptOutcome::Report(BarStatusSpec::Warning("Unknown command "@ + cmd))
        }
    }
}

/// Whether `c` is whitespace, for the tokenizer.
fn space_check(c: char) -> (r: bool)
    ensures
        r == is_space(c),
{
    c == ' ' || c == '\t' || c == '\n' || c == '\r'
}

/// Finds the first non-whitespace position at or after `i`.
fn skip_spaces(v: &[char], i: usize) -> (r: usize)
    requires
        i <= v@.len(),
    ensures
        r == skip_spaces_from(v@, i as int),
        i <= r <= v@.len(),
{
    let mut j: usize = i;
    while j < v.len() && space_check(v[j])
        invariant
            i <= j <= v@.len(),
            skip_spaces_from(v@, i as int) == skip_spaces_from(v@, j as int),
        decreases v@.len() - j,
    {
        j = j + 1;
    }
    j
}

/// Finds the end of the token starting at `i`.
fn run_end(v: &[char], i: usize) -> (r: usize)
    requires
        i <= v@.len(),
    ensures
        r == run_end_from(v@, i as int),
        i <= r <= v@.len(),
{
    let mut j: usize = i;
    while j < v.len() && !space_check(v[j])
        invariant
            i <= j <= v@.len(),
            run_end_from(v@, i as int) == run_end_from(v@, j as int),
        decreases v@.len() - j,
    {
        j = j + 1;
    }
    j
}

/// Copies the characters of `v` between `a` and `b` into a fresh vector.
fn copy_range(v: &[char], a: usize, b: usize) -> (r: Vec<char>)
    requires
        a <= b <= v@.len(),
    ensures
        r@ == v@.subrange(a as int, b as int),
{
    let mut out: Vec<char> = Vec::new();
    let mut i: usize = a;
    while i < b
        invariant
            a <= i <= b <= v@.len(),
            out@ == v@.subrange(a as int, i as int),
        decreases b - i,
    {
        out.push(v[i]);
        i = i + 1;
        proof {
            assert(out@ =~= v@.subrange(a as int, i as int));
        }
    }
    out
}

/// A structured action derived from one submitted prompt line, produced
/// transiently by the grammar and consumed exactly once by the owner.
#[derive(Debug)]
pub enum CommandSignal {
    /// Append the validated address text.
    AddItem(String),
    /// Delete by index, or the selected item when `None`.
    DelItem(Option<usize>),
    /// Show the help overlay.
    Help,
    /// Ask for exit confirmation.
    Exit,
}

impl View for CommandSignal {
    type V = CommandSpec;

    open spec fn view(&self) -> CommandSpec {
        match self {
            CommandSignal::AddItem(text) => CommandSpec::AddItem(text@),
            CommandSignal::DelItem(idx) => CommandSpec::DelItem(*idx),
            CommandSignal::Help => CommandSpec::Help,
            CommandSignal::Exit => CommandSpec::Exit,
        }
    }
}

/// The status banner under the prompt: the outcome of the last submitted
/// line or consumed command, with its message.
#[derive(Debug)]
pub enum BarStatus {
    /// The last command succeeded.
    Complete(String),
    /// The last input was ignored, with the reason.
    Warning(String),
    /// The last input was malformed, with the reason.
    Error(String),
}

impl View for BarStatus {
    type V = BarStatusSpec;

    open spec fn view(&self) -> BarStatusSpec {
        match self {
            BarStatus::Complete(msg) => BarStatusSpec::Complete(msg@),
            BarStatus::Warning(msg) => BarStatusSpec::Warning(msg@),
            BarStatus::Error(msg) => BarStatusSpec::Error(msg@),
        }
    }
}

/// What running the grammar on one line produced.
enum Interpreted {
    Emit(CommandSignal),
    Report(BarStatus),
    Pass,
}

/// Runs the grammar on one submitted line.
fn interpret(line: &[char]) -> (r: Interpreted)
    ensures
        match r {
            Interpreted::Emit(c) => interpret_spec(line@) == PromptOutcome::Emit(c@),
            Interpreted::Report(st) => interpret_spec(line@) == PromptOutcome::Report(st@),
            Interpreted::Pass => interpret_spec(line@) == PromptOutcome::Pass,
        },
{
    let cs = skip_spaces(line, 0);
    if cs == line.len() {
        return Interpreted::Pass;
    }
    let ce = run_end(line, cs);
    let cmd = copy_range(line, cs, ce);
    let ast = skip_spaces(line, ce);
    let ae = run_end(line, ast);
    let present = ast < line.len();
    if chars_eq_str(cmd.as_slice(), "add") {
        if !present {
            Interpreted::Report(BarStatus::Error("Can't add nothing".to_owned()))
        } else {
            let arg = chars_to_string(copy_range(line, ast, ae).as_slice());
            if regex_is_ipv4(arg.as_str()) {
                Interpreted::Emit(CommandSignal::AddItem(arg))
            } else {
                Interpreted::Report(BarStatus::Warning(arg.concat(" is not a valid ipv4")))
            }
        }
    } else if chars_eq_str(cmd.as_slice(), "del") || chars_eq_str(cmd.as_slice(), "rm") {
        if !present {
            Interpreted::Emit(CommandSignal::DelItem(None))
        } else {
            let arg = copy_range(line, ast, ae);
            match parse_usize(arg.as_slice()) {
                Some(n) => Interpreted::Emit(CommandSignal::DelItem(Some(n))),
                None => {
                    let msg = "Cannot parse index ".to_owned().concat(
                        chars_to_string(arg.as_slice()).as_str(),
                    );
                    Interpreted::Report(BarStatus::Error(msg))
                },
            }
        }
    } else if chars_eq_str(cmd.as_slice(), "?") || chars_eq_str(cmd.as_slice(), "help") {
        Interpreted::Emit(CommandSignal::Help)
    } else if chars_eq_str(cmd.as_slice(), "exit") || chars_eq_str(cmd.as_slice(), "quit")
        || chars_eq_str(cmd.as_slice(), "close") {
        Interpreted::Emit(CommandSignal::Exit)
    } else {
        let msg = "Unknown command ".to_owned().concat(chars_to_string(cmd.as_slice()).as_str());
        Interpreted::Report(BarStatus::Warning(msg))
    }
}

/// The prompt state at the specification level.
#[verifier::ext_equal]
pub struct PromptModel {
    /// The characters of the line being edited.
    pub buffer: Seq<char>,
    /// The editing position, between zero and the buffer length.
    pub cursor: int,
    /// The emitted command the owner has not yet consumed, if any.
    pub command: Option<CommandSpec>,
    /// The status banner, if one was ever set.
    pub status: Option<BarStatusSpec>,
}

/// How one key changes the prompt.  `Enter` submits the line: the buffer
/// is cleared, and the grammar either leaves a command pending, sets the
/// status banner, or (for an empty line) changes nothing else.  Editing
/// keys move the cursor and edit around it; every other key is ignored.
pub open spec fn prompt_step_spec(m: PromptModel, key: KeyEvent) -> PromptModel {
    match key.code {
        KeyCode::Enter => {
            let out = interpret_spec(m.buffer);
            PromptModel {
                buffer: Seq::empty(),
                cursor: 0,
                command: match out {
                    PromptOutcome::Emit(c) => Some(c),
                    _ => None,
                },
                status: match out {
                    PromptOutcome::Report(st) => Some(st),
                    _ => m.status,
                },
            }
        },
        KeyCode::Char(c) => (PromptModel {
            buffer: m.buffer.insert(m.cursor, c),
            cursor: m.cursor + 1,
            ..m
        }),
        KeyCode::Backspace => {
            if m.cursor > 0 {
                PromptModel { buffer: m.buffer.remove(m.cursor - 1), cursor: m.cursor - 1, ..m }
            } else {
                m
            }
        },
        KeyCode::Delete => {
            if m.cursor < m.buffer.len() {
                PromptModel { buffer: m.buffer.remove(m.cursor), ..m }
            } else {
                m
            }
        },
        KeyCode::Left => {
            if m.cursor > 0 {
                PromptModel { cursor: m.cursor - 1, ..m }
            } else {
                m
            }
        },
        KeyCode::Right => {
            if m.cursor < m.buffer.len() {
                PromptModel { cursor: m.cursor + 1, ..m }
            } else {
                m
            }
        },
        KeyCode::Home => (PromptModel { cursor: 0, ..m }),
        KeyCode::End => (PromptModel { cursor: m.buffer.len() as int, ..m }),
        _ => m,
    }
}

/// The command prompt widget: an editable line, at most one pending
/// command, and the status banner.
#[derive(Debug)]
pub struct PromptBox {
    /// The characters of the line being edited.
    pub buffer: Vec<char>,
    /// The editing position within the buffer.
    pub cursor: usize,
    /// The emitted command the owner has not yet consumed, if any.
    pub command: Option<CommandSignal>,
    /// The status banner, if one was ever set.
    pub status: Option<BarStatus>,
}

impl View for PromptBox {
    type V = PromptModel;

    open spec fn view(&self) -> PromptModel {
        PromptModel {
            buffer: self.buffer@,
            cursor: self.cursor as int,
            command: match self.command {
                Some(ref c) => Some(c@),
                None => None,
            },
            status: match self.status {
                Some(ref st) => Some(st@),
                None => None,
            },
        }
    }
}

impl PromptBox {
    /// The cursor never leaves the line.
    pub open spec fn wf(&self) -> bool {
        self.cursor <= self.buffer@.len()
    }

    /// An empty prompt: no text, no pending command, no status.
    pub fn new() -> (r: PromptBox)
        ensures
            r.wf(),
            r@ == (PromptModel {
                buffer: Seq::empty(),
                cursor: 0,
                command: None,
                status: None,
            }),
    {
        PromptBox { buffer: Vec::new(), cursor: 0, command: None, status: None }
    }

    /// Hands the pending command to the owner and clears the slot.
    pub fn take_command(&mut self) -> (r: Option<CommandSignal>)
        ensures
            final(self).wf() == old(self).wf(),
            final(self)@ == (PromptModel { command: None, ..old(self)@ }),
            match r {
                Some(c) => old(self)@.command == Some(c@),
                None => old(self)@.command is None,
            },
    {
        let r = self.command.take();
        proof {
            assert(self@ =~= (PromptModel { command: None, ..old(self)@ }));
        }
        r
    }

    /// Sets the status banner, as the owner does after consuming a
    /// command, or the grammar does when it rejects a line.
    pub fn set_status(&mut self, status: BarStatus)
        ensures
            final(self).wf() == old(self).wf(),
            final(self)@ == (PromptModel { status: Some(status@), ..old(self)@ }),
    {
        self.status = Some(status);
        proof {
            assert(self@ =~= (PromptModel { status: self@.status, ..old(self)@ }));
        }
    }

    /// The text of the line being edited, for a renderer to draw.
    pub fn text(&self) -> (r: String)
        ensures
            r@ == self@.buffer,
    {
        chars_to_string(self.buffer.as_slice())
    }
}

impl RenderableWidget for PromptBox {
    open spec fn inv(&self) -> bool {
        self.wf()
    }

    /// A new command may only be produced once the previous one was
    /// consumed, so the owner must drain the pending slot before the
    /// next key arrives.
    open spec fn ready(&self) -> bool {
        self@.command is None
    }

    /// Reacts to one key, as [`prompt_step_spec`] says: `Enter` submits
    /// the line, editing keys edit around the cursor, everything else is
    /// ignored.
    fn handle_input(&mut self, key: KeyEvent)
        ensures
            final(self)@ == prompt_step_spec(old(self)@, key),
    {
        match key.code {
            KeyCode::Enter => {
                let outcome = interpret(self.buffer.as_slice());
                self.buffer = Vec::new();
                self.cursor = 0;
                match outcome {
                    Interpreted::Emit(c) => { self.command = Some(c); },
                    Interpreted::Report(st) => { self.status = Some(st); },
                    Interpreted::Pass => {},
                }
                proof {
                    assert(self@ =~= prompt_step_spec(old(self)@, key));
                }
            },
            KeyCode::Char(c) => {
                self.buffer.insert(self.cursor, c);
                let n = self.buffer.len();
                proof {
                    assert(self.cursor < n);
                }
                self.cursor = self.cursor + 1;
                proof {
                    assert(self@ =~= prompt_step_spec(old(self)@, key));
                }
            },
            KeyCode::Backspace => {
                if self.cursor > 0 {
                    self.buffer.remove(self.cursor - 1);
                    self.cursor = self.cursor - 1;
                }
                proof {
                    assert(self@ =~= prompt_step_spec(old(self)@, key));
                }
            },
            KeyCode::Delete => {
                if self.cursor < self.buffer.len() {
                    self.buffer.remove(self.cursor);
                }
                proof {
                    assert(self@ =~= prompt_step_spec(old(self)@, key));
                }
            },
            KeyCode::Left => {
                if self.cursor > 0 {
                    self.cursor = self.cursor - 1;
                }
            },
            KeyCode::Right => {
                if self.cursor < self.buffer.len() {
                    self.cursor = self.cursor + 1;
                }
            },
            KeyCode::Home => {
                self.cursor = 0;
            },
            KeyCode::End => {
                self.cursor = self.buffer.len();
            },
            _ => {},
        }
    }
}

impl Default for PromptBox {
    /// Same as [`PromptBox::new`].
    fn default() -> (r: PromptBox)
        ensures
            r.wf(),
            r@ == (PromptModel {
                buffer: Seq::empty(),
                cursor: 0,
                command: None,
                status: None,
            }),
    {
        PromptBox::new()
    }
}

} // verus!
