//! The application state machine: mode, command list, filter, selection,
//! output buffer and spinner, and the transitions that keyboard events and
//! drained output lines drive.

use crate::filter::filter_indices;
use crate::filter::is_filter_index;
use crate::filter::lemma_increasing_position_unique;
use crate::filter::spec_filter_indices;
use crate::filter::strictly_increasing;
use crate::invocation::build_invocation;
use crate::invocation::spec_args;
use crate::invocation::spec_program;
use crate::invocation::Invocation;
use vstd::prelude::*;

verus! {

/// The mutually exclusive interaction modes.
#[derive(Clone, Copy, Debug, PartialEq, Eq, Structural)]
pub enum AppMode {
    Normal,
    Searching,
    Running,
}

/// A keyboard press, already classified by the caller.
#[derive(Clone, Copy, Debug, PartialEq, Eq)]
pub enum KeyInput {
    CharKey(char),
    EscKey,
    EnterKey,
    BackspaceKey,
    UpKey,
    DownKey,
    OtherKey,
}

/// What the caller must do after a key was handled.
#[derive(Clone, Copy, Debug, PartialEq, Eq, Structural)]
pub enum Action {
    /// Nothing: keep polling.
    Continue,
    /// Leave the application.
    Exit,
    /// Spawn the selected command; on success, call `begin_run`.
    RunSelected,
    /// Drop the receiving end of the output queue.
    DetachOutput,
}

/// How many milliseconds must pass between two spinner advances.
pub const SPINNER_INTERVAL_MS: u64 = 100;

/// The application state.
#[derive(Debug)]
pub struct App {
    pub mode: AppMode,
    pub commands: Vec<String>,
    pub selected_index: Option<usize>,
    pub filtered_commands: Vec<usize>,
    pub search_input: Vec<char>,
    pub command_output: String,
    pub spinner_state: usize,
    pub is_windows: bool,
    pub output_attached: bool,
}

/// The fixed command list, chosen by the host platform.
pub open spec fn default_commands(is_windows: bool) -> Seq<Seq<char>> {
    if is_windows {
        seq!["dir"@, "echo \"testing\""@, "ipconfig"@, "systeminfo"@, "whoami"@, "tasklist"@]
    } else {
        seq!["ls"@, "echo \"testing\""@, "ifconfig"@, "uname -a"@, "whoami"@, "ps aux"@]
    }
}

impl App {
    /// Coherence of the visible list and the selection: the visible indices
    /// point into the command list in strictly increasing order, and the
    /// selection is none exactly when nothing is visible, otherwise a member
    /// of the visible list.
    pub open spec fn nav_wf(self) -> bool {
        &&& strictly_increasing(self.filtered_commands@)
        &&& forall|k: int|
            0 <= k < self.filtered_commands@.len() ==> (#[trigger] self.filtered_commands@[k])
                < self.commands@.len()
        &&& (self.selected_index is None <==> self.filtered_commands@.len() == 0)
        &&& (self.selected_index matches Some(s) ==> self.filtered_commands@.contains(s))
    }

    /// Well-formedness: navigation coherence, and the spinner inside its
    /// period.
    pub open spec fn wf(self) -> bool {
        &&& self.nav_wf()
        &&& self.spinner_state < 4
    }
}

/// The selection policy after the visible list was recomputed: keep the old
/// selection if it is still visible, else take the first visible entry, else
/// none.
pub open spec fn spec_selection_after(filtered: Seq<usize>, old_sel: Option<usize>) -> Option<
    usize,
> {
    if filtered.len() == 0 {
        None
    } else {
        match old_sel {
            Some(s) => if filtered.contains(s) {
                Some(s)
            } else {
                Some(filtered[0])
            },
            None => Some(filtered[0]),
        }
    }
}

/// Where the selection moves on an upward step: one entry back in the visible
/// list, clamped at the top; nowhere when nothing is selected.
pub open spec fn prev_selection(filtered: Seq<usize>, sel: Option<usize>) -> Option<usize> {
    match sel {
        None => None,
        Some(cur) => if filtered.len() > 0 && filtered.contains(cur) {
            if filtered.index_of(cur) > 0 {
                Some(filtered[filtered.index_of(cur) - 1])
            } else {
                Some(cur)
            }
        } else {
            Some(cur)
        },
    }
}

/// Where the selection moves on a downward step: one entry forward in the
/// visible list, clamped at the bottom; nowhere when nothing is selected.
pub open spec fn next_selection(filtered: Seq<usize>, sel: Option<usize>) -> Option<usize> {
    match sel {
        None => None,
        Some(cur) => if filtered.len() > 0 && filtered.contains(cur) {
            if filtered.index_of(cur) < filtered.len() - 1 {
                Some(filtered[filtered.index_of(cur) + 1])
            } else {
                Some(cur)
            }
        } else {
            Some(cur)
        },
    }
}

/// Everything but the selection is the same in `s1` as in `s0`.
pub open spec fn only_selection_changed(s0: App, s1: App) -> bool {
    &&& s1.mode == s0.mode
    &&& s1.commands == s0.commands
    &&& s1.filtered_commands == s0.filtered_commands
    &&& s1.search_input == s0.search_input
    &&& s1.command_output == s0.command_output
    &&& s1.spinner_state == s0.spinner_state
    &&& s1.is_windows == s0.is_windows
    &&& s1.output_attached == s0.output_attached
}

/// The filter text, the visible list and the selection of `s1` are as after a
/// recomputation of `s0` with filter text `filt`; everything else is the same.
pub open spec fn refiltered(s0: App, s1: App, filt: Seq<char>) -> bool {
    &&& s1.search_input@ == filt
    &&& s1.filtered_commands@ == spec_filter_indices(s0.commands@, filt, s0.commands@.len() as int)
    &&& s1.selected_index == spec_selection_after(s1.filtered_commands@, s0.selected_index)
    &&& s1.commands == s0.commands
    &&& s1.command_output == s0.command_output
    &&& s1.spinner_state == s0.spinner_state
    &&& s1.is_windows == s0.is_windows
    &&& s1.output_attached == s0.output_attached
}

/// The keys that ask to quit or to clear the filter in normal mode.
pub open spec fn is_quit_key(key: KeyInput) -> bool {
    key == KeyInput::CharKey('q') || key == KeyInput::EscKey
}

/// The keys that move the selection down in normal mode.
pub open spec fn is_down_key(key: KeyInput) -> bool {
    key == KeyInput::CharKey('j') || key == KeyInput::DownKey
}

/// The keys that move the selection up in normal mode.
pub open spec fn is_up_key(key: KeyInput) -> bool {
    key == KeyInput::CharKey('k') || key == KeyInput::UpKey
}

/// What the caller is told to do for a key, given the state it was handled in.
pub open spec fn spec_action(s: App, key: KeyInput) -> Action {
    if s.mode == AppMode::Normal {
        if is_quit_key(key) && s.search_input@.len() == 0 {
            Action::Exit
        } else if key == KeyInput::EnterKey && s.selected_index is Some {
            Action::RunSelected
        } else {
            Action::Continue
        }
    } else if s.mode == AppMode::Running {
        if key == KeyInput::EscKey {
            Action::DetachOutput
        } else {
            Action::Continue
        }
    } else {
        Action::Continue
    }
}

/// The normal-mode transitions: quit keys clear a non-empty filter and
/// otherwise leave the state for the caller to exit on, navigation keys move
/// the selection, `/` enters search mode, and every other key (the confirm
/// key included) changes nothing.
pub open spec fn normal_post(s0: App, s1: App, key: KeyInput) -> bool {
    if is_quit_key(key) {
        if s0.search_input@.len() == 0 {
            s1 == s0
        } else {
            s1.mode == s0.mode && refiltered(s0, s1, Seq::<char>::empty())
        }
    } else if is_down_key(key) {
        s1.selected_index == next_selection(s0.filtered_commands@, s0.selected_index)
            && only_selection_changed(s0, s1)
    } else if is_up_key(key) {
        s1.selected_index == prev_selection(s0.filtered_commands@, s0.selected_index)
            && only_selection_changed(s0, s1)
    } else if key == KeyInput::CharKey('/') {
        s1 == App { mode: AppMode::Searching, ..s0 }
    } else {
        s1 == s0
    }
}

/// The search-mode transitions: cancel clears the filter and returns to
/// normal mode, confirm keeps filter and selection and returns to normal
/// mode, a printable character extends the filter, the erase key shortens it,
/// and each of the last two recomputes visibility.
pub open spec fn searching_post(s0: App, s1: App, key: KeyInput) -> bool {
    match key {
        KeyInput::EscKey => s1.mode == AppMode::Normal && refiltered(
            s0,
            s1,
            Seq::<char>::empty(),
        ),
        KeyInput::EnterKey => s1 == App { mode: AppMode::Normal, ..s0 },
        KeyInput::CharKey(c) => s1.mode == s0.mode && refiltered(
            s0,
            s1,
            s0.search_input@.push(c),
        ),
        KeyInput::BackspaceKey => s1.mode == s0.mode && refiltered(
            s0,
            s1,
            if s0.search_input@.len() == 0 {
                s0.search_input@
            } else {
                s0.search_input@.drop_last()
            },
        ),
        _ => s1 == s0,
    }
}

/// The running-mode transitions: cancel detaches from the output stream and
/// returns to normal mode (the child process is not killed); every other key
/// changes nothing.
pub open spec fn running_post(s0: App, s1: App, key: KeyInput) -> bool {
    if key == KeyInput::EscKey {
        s1 == App { mode: AppMode::Normal, output_attached: false, ..s0 }
    } else {
        s1 == s0
    }
}

/// The spinner glyph for each state of the period-4 counter.
pub open spec fn spec_spinner_char(state: int) -> Seq<char> {
    if state == 1 {
        "⠙"@
    } else if state == 2 {
        "⠹"@
    } else if state == 3 {
        "⠸"@
    } else {
        "⠋"@
    }
}

/// The display label of a command: the command text, annotated with the
/// spinner glyph and a running marker when it is the selected, running entry.
pub open spec fn spec_label(cmd: Seq<char>, running_selected: bool, spinner: int) -> Seq<char> {
    if running_selected {
        cmd + " "@ + spec_spinner_char(spinner) + " (running...)"@
    } else {
        cmd
    }
}

/// Output lines joined into one text, each line followed by a line break.
pub open spec fn joined_lines(lines: Seq<Seq<char>>) -> Seq<char>
    decreases lines.len(),
{
    if lines.len() == 0 {
        Seq::empty()
    } else {
        joined_lines(lines.drop_last()) + lines.last() + seq!['\n']
    }
}

fn vec_contains(v: &Vec<usize>, x: usize) -> (r: bool)
    ensures
        r == v@.contains(x),
{
    let mut i: usize = 0;
    while i < v.len()
        invariant
            i <= v@.len(),
            forall|k: int| 0 <= k < i ==> v@[k] != x,
        decreases v@.len() - i,
    {
        if v[i] == x {
            return true;
        }
        i += 1;
    }
    false
}

fn position_of(v: &Vec<usize>, x: usize) -> (p: usize)
    requires
        v@.contains(x),
    ensures
        p < v@.len(),
        v@[p as int] == x,
{
    let mut i: usize = 0;
    while i < v.len()
        invariant
            i <= v@.len(),
            forall|k: int| 0 <= k < i ==> v@[k] != x,
        decreases v@.len() - i,
    {
        if v[i] == x {
            return i;
        }
        i += 1;
    }
    proof {
        let j = choose|j: int| 0 <= j < v@.len() && v@[j] == x;
        assert(false);
    }
    unreached()
}

impl App {
    /// The initial state: the platform's six commands, all visible, the first
    /// selected, normal mode, empty filter and output.
    pub fn new(is_windows: bool) -> (app: App)
        ensures
            app.wf(),
            app.mode == AppMode::Normal,
            app.commands@.len() == 6,
            forall|i: int|
                0 <= i < 6 ==> (#[trigger] app.commands@[i])@ == default_commands(app.is_windows)[i],
            app.filtered_commands@ == Seq::new(6, |i: int| i as usize),
            app.selected_index == Some(0usize),
            app.search_input@ == Seq::<char>::empty(),
            app.command_output@ == Seq::<char>::empty(),
            app.spinner_state == 0,
            app.is_windows == is_windows,
            !app.output_attached,
    {
        let mut commands: Vec<String> = Vec::new();
        if is_windows {
            commands.push("dir".to_owned());
            commands.push("echo \"testing\"".to_owned());
            commands.push("ipconfig".to_owned());
            commands.push("systeminfo".to_owned());
            commands.push("whoami".to_owned());
            commands.push("tasklist".to_owned());
        } else {
            commands.push("ls".to_owned());
            commands.push("echo \"testing\"".to_owned());
            commands.push("ifconfig".to_owned());
            commands.push("uname -a".to_owned());
            commands.push("whoami".to_owned());
            commands.push("ps aux".to_owned());
        }
        let mut filtered: Vec<usize> = Vec::new();
        filtered.push(0);
        filtered.push(1);
        filtered.push(2);
        filtered.push(3);
        filtered.push(4);
        filtered.push(5);
        let app = App {
            mode: AppMode::Normal,
            commands,
            selected_index: Some(0),
            filtered_commands: filtered,
            search_input: Vec::new(),
            command_output: String::new(),
            spinner_state: 0,
            is_windows,
            output_attached: false,
        };
        proof {
            assert(app.filtered_commands@ =~= Seq::new(6, |i: int| i as usize));
            assert(app.filtered_commands@.contains(0usize)) by {
                assert(app.filtered_commands@[0] == 0usize);
            }
        }
        app
    }

    /// Whether the filter text is being edited.
    pub fn is_searching(&self) -> (r: bool)
        ensures
            r == (self.mode == AppMode::Searching),
    {
        self.mode == AppMode::Searching
    }

    /// Recompute the visible list for the current filter text and re-anchor
    /// the selection: keep it if still visible, else the first visible entry,
    /// else none.
    pub fn update_filter(&mut self)
        ensures
            final(self).filtered_commands@ == spec_filter_indices(
                old(self).commands@,
                old(self).search_input@,
                old(self).commands@.len() as int,
            ),
            is_filter_index(
                final(self).filtered_commands@,
                old(self).commands@,
                old(self).search_input@,
            ),
            final(self).selected_index == spec_selection_after(
                final(self).filtered_commands@,
                old(self).selected_index,
            ),
            final(self).nav_wf(),
            final(self).mode == old(self).mode,
            final(self).commands == old(self).commands,
            final(self).search_input == old(self).search_input,
            final(self).command_output == old(self).command_output,
            final(self).spinner_state == old(self).spinner_state,
            final(self).is_windows == old(self).is_windows,
            final(self).output_attached == old(self).output_attached,
    {
        let f = filter_indices(&self.commands, &self.search_input);
        let new_sel: Option<usize> = if f.len() == 0 {
            None
        } else {
            match self.selected_index {
                Some(s) => if vec_contains(&f, s) {
                    Some(s)
                } else {
                    proof {
                        assert(f@.contains(f@[0])) by {
                            assert(f@[0] == f@[0]);
                        }
                    }
                    Some(f[0])
                },
                None => {
                    proof {
                        assert(f@.contains(f@[0])) by {
                            assert(f@[0] == f@[0]);
                        }
                    }
                    Some(f[0])
                },
            }
        };
        self.filtered_commands = f;
        self.selected_index = new_sel;
    }

    /// Move the selection one visible entry up; a no-op at the top, with an
    /// empty visible list, or with no selection.
    pub fn previous(&mut self)
        requires
            old(self).wf(),
        ensures
            final(self).wf(),
            final(self).selected_index == prev_selection(
                old(self).filtered_commands@,
                old(self).selected_index,
            ),
            only_selection_changed(*old(self), *final(self)),
    {
        match self.selected_index {
            Some(current) => {
                if self.filtered_commands.len() > 0 {
                    let p = position_of(&self.filtered_commands, current);
                    proof {
                        let s = self.filtered_commands@;
                        let q = s.index_of(current);
                        assert(0 <= q < s.len() && s[q] == current);
                        lemma_increasing_position_unique(s, p as int, q);
                    }
                    if p > 0 {
                        let new_sel = self.filtered_commands[p - 1];
                        proof {
                            assert(self.filtered_commands@.contains(new_sel)) by {
                                assert(self.filtered_commands@[p - 1] == new_sel);
                            }
                        }
                        self.selected_index = Some(new_sel);
                    }
                }
            },
            None => {},
        }
    }

    /// Move the selection one visible entry down; a no-op at the bottom, with
    /// an empty visible list, or with no selection.
    pub fn next(&mut self)
        requires
            old(self).wf(),
        ensures
            final(self).wf(),
            final(self).selected_index == next_selection(
                old(self).filtered_commands@,
                old(self).selected_index,
            ),
            only_selection_changed(*old(self), *final(self)),
    {
        match self.selected_index {
            Some(current) => {
                if self.filtered_commands.len() > 0 {
                    let p = position_of(&self.filtered_commands, current);
                    proof {
                        let s = self.filtered_commands@;
                        let q = s.index_of(current);
                        assert(0 <= q < s.len() && s[q] == current);
                        lemma_increasing_position_unique(s, p as int, q);
                    }
                    if p < self.filtered_commands.len() - 1 {
                        let new_sel = self.filtered_commands[p + 1];
                        proof {
                            assert(self.filtered_commands@.contains(new_sel)) by {
                                assert(self.filtered_commands@[p + 1] == new_sel);
                            }
                        }
                        self.selected_index = Some(new_sel);
                    }
                }
            },
            None => {},
        }
    }

    /// Handle one key press in the current mode, following the transition
    /// table; the returned action tells the caller what only it can do
    /// (exit, spawn the selected command, drop the output receiver).
    pub fn handle_key(&mut self, key: KeyInput) -> (act: Action)
        requires
            old(self).wf(),
        ensures
            final(self).wf(),
            act == spec_action(*old(self), key),
            old(self).mode == AppMode::Normal ==> normal_post(*old(self), *final(self), key),
            old(self).mode == AppMode::Searching ==> searching_post(*old(self), *final(self), key),
            old(self).mode == AppMode::Running ==> running_post(*old(self), *final(self), key),
    {
        match self.mode {
            AppMode::Normal => {
                match key {
                    KeyInput::CharKey(c) => {
                        if c == 'q' {
                            self.quit_or_clear()
                        } else if c == 'j' {
                            self.next();
                            Action::Continue
                        } else if c == 'k' {
                            self.previous();
                            Action::Continue
                        } else if c == '/' {
                            self.mode = AppMode::Searching;
                            Action::Continue
                        } else {
                            Action::Continue
                        }
                    },
                    KeyInput::EscKey => self.quit_or_clear(),
                    KeyInput::DownKey => {
                        self.next();
                        Action::Continue
                    },
                    KeyInput::UpKey => {
                        self.previous();
                        Action::Continue
                    },
                    KeyInput::EnterKey => {
                        match self.selected_index {
                            Some(_) => Action::RunSelected,
                            None => Action::Continue,
                        }
                    },
                    _ => Action::Continue,
                }
            },
            AppMode::Searching => {
                match key {
                    KeyInput::EscKey => {
                        self.mode = AppMode::Normal;
                        self.search_input.clear();
                        self.update_filter();
                        if self.selected_index.is_none() && self.filtered_commands.len() > 0 {
                            let first = self.filtered_commands[0];
                            proof {
                                assert(self.filtered_commands@.contains(first)) by {
                                    assert(self.filtered_commands@[0] == first);
                                }
                            }
                            self.selected_index = Some(first);
                        }
                        Action::Continue
                    },
                    KeyInput::EnterKey => {
                        self.mode = AppMode::Normal;
                        Action::Continue
                    },
                    KeyInput::CharKey(c) => {
                        self.search_input.push(c);
                        self.update_filter();
                        Action::Continue
                    },
                    KeyInput::BackspaceKey => {
                        self.search_input.pop();
                        self.update_filter();
                        Action::Continue
                    },
                    _ => Action::Continue,
                }
            },
            AppMode::Running => {
                match key {
                    KeyInput::EscKey => {
                        self.mode = AppMode::Normal;
                        self.output_attached = false;
                        Action::DetachOutput
                    },
                    _ => Action::Continue,
                }
            },
        }
    }

    fn quit_or_clear(&mut self) -> (act: Action)
        requires
            old(self).wf(),
            old(self).mode == AppMode::Normal,
        ensures
            final(self).wf(),
            act == spec_action(*old(self), KeyInput::EscKey),
            normal_post(*old(self), *final(self), KeyInput::EscKey),
    {
        if self.search_input.len() > 0 {
            self.search_input.clear();
            self.update_filter();
            Action::Continue
        } else {
            Action::Exit
        }
    }

    /// Enter running mode for a freshly spawned command: the output buffer is
    /// cleared and the output stream attached. The caller invokes this only
    /// after the spawn succeeded.
    pub fn begin_run(&mut self)
        requires
            old(self).wf(),
            old(self).selected_index is Some,
        ensures
            final(self).wf(),
            final(self).mode == AppMode::Running,
            final(self).command_output@ == Seq::<char>::empty(),
            final(self).output_attached,
            final(self).commands == old(self).commands,
            final(self).selected_index == old(self).selected_index,
            final(self).filtered_commands == old(self).filtered_commands,
            final(self).search_input == old(self).search_input,
            final(self).spinner_state == old(self).spinner_state,
            final(self).is_windows == old(self).is_windows,
    {
        self.mode = AppMode::Running;
        self.command_output = String::new();
        self.output_attached = true;
    }

    /// The program and arguments of the selected command, or none when
    /// nothing is selected (then nothing is run).
    pub fn selected_invocation(&self) -> (r: Option<Invocation>)
        requires
            self.wf(),
        ensures
            r is Some <==> self.selected_index is Some,
            self.selected_index matches Some(s) ==> {
                let cmd = self.commands@[s as int]@;
                &&& self.is_windows ==> (r->0).program@ == "cmd"@ && (r->0).args.deep_view()
                    == seq!["/C"@, cmd]
                &&& !self.is_windows ==> (r->0).program@ == spec_program(cmd)
                    && (r->0).args.deep_view() == spec_args(cmd)
            },
    {
        match self.selected_index {
            Some(idx) => {
                proof {
                    let s = self.filtered_commands@;
                    let j = choose|j: int| 0 <= j < s.len() && s[j] == idx;
                    assert(s[j] < self.commands@.len());
                }
                Some(build_invocation(&self.commands[idx], self.is_windows))
            },
            None => None,
        }
    }

    /// Append drained output lines to the output buffer, each followed by a
    /// line break; with no pending lines the buffer stays as it is.
    pub fn append_output(&mut self, lines: &Vec<String>)
        requires
            old(self).wf(),
        ensures
            final(self).wf(),
            final(self).command_output@ == old(self).command_output@ + joined_lines(
                lines.deep_view(),
            ),
            lines@.len() == 0 ==> final(self).command_output == old(self).command_output,
            final(self).mode == old(self).mode,
            final(self).commands == old(self).commands,
            final(self).selected_index == old(self).selected_index,
            final(self).filtered_commands == old(self).filtered_commands,
            final(self).search_input == old(self).search_input,
            final(self).spinner_state == old(self).spinner_state,
            final(self).is_windows == old(self).is_windows,
            final(self).output_attached == old(self).output_attached,
    {
        if lines.len() == 0 {
            proof {
                assert(lines.deep_view() =~~= Seq::<Seq<char>>::empty());
                assert(old(self).command_output@ + joined_lines(lines.deep_view())
                    =~= old(self).command_output@);
            }
            return ;
        }
        let mut acc = String::new();
        let mut i: usize = 0;
        while i < lines.len()
            invariant
                i <= lines@.len(),
                acc@ == joined_lines(lines.deep_view().take(i as int)),
            decreases lines@.len() - i,
        {
            let ghost pre = lines.deep_view().take(i as int);
            acc.append(lines[i].as_str());
            acc.append("\n");
            proof {
                reveal_strlit("\n");
                assert("\n"@ =~= seq!['\n']);
                let cur = lines.deep_view().take(i + 1);
                assert(cur.drop_last() =~= pre);
                assert(cur.last() == lines.deep_view()[i as int]);
            }
            i += 1;
        }
        proof {
            assert(lines.deep_view().take(lines@.len() as int) =~~= lines.deep_view());
        }
        self.command_output.append(acc.as_str());
    }

    /// Advance the spinner by exactly one step (modulo its period) when at
    /// least the spinner interval has elapsed since the last advance,
    /// whatever longer time has passed; otherwise change nothing.
    pub fn update_spinner(&mut self, elapsed_ms: u64) -> (advanced: bool)
        requires
            old(self).wf(),
        ensures
            final(self).wf(),
            advanced == (elapsed_ms >= SPINNER_INTERVAL_MS),
            advanced ==> final(self).spinner_state == (old(self).spinner_state + 1) % 4,
            !advanced ==> *final(self) == *old(self),
            final(self).mode == old(self).mode,
            final(self).commands == old(self).commands,
            final(self).selected_index == old(self).selected_index,
            final(self).filtered_commands == old(self).filtered_commands,
            final(self).search_input == old(self).search_input,
            final(self).command_output == old(self).command_output,
            final(self).is_windows == old(self).is_windows,
            final(self).output_attached == old(self).output_attached,
    {
        if elapsed_ms >= SPINNER_INTERVAL_MS {
            self.spinner_state = (self.spinner_state + 1) % 4;
            true
        } else {
            false
        }
    }

    /// The spinner glyph for the current spinner state.
    pub fn get_spinner_char(&self) -> (r: &'static str)
        ensures
            r@ == spec_spinner_char(self.spinner_state as int),
    {
        match self.spinner_state {
            1 => "⠙",
            2 => "⠹",
            3 => "⠸",
            _ => "⠋",
        }
    }

    /// The display label of the visible command at `index` into the command
    /// list: annotated with the spinner while it is the selected entry of a
    /// running command.
    pub fn display_label(&self, index: usize) -> (r: String)
        requires
            self.wf(),
            index < self.commands@.len(),
        ensures
            r@ == spec_label(
                self.commands@[index as int]@,
                self.mode == AppMode::Running && self.selected_index == Some(index),
                self.spinner_state as int,
            ),
    {
        let selected_here = match self.selected_index {
            Some(s) => s == index,
            None => false,
        };
        let mut label = self.commands[index].clone();
        if self.mode == AppMode::Running && selected_here {
            label.append(" ");
            label.append(self.get_spinner_char());
            label.append(" (running...)");
        }
        label
    }

    /// The position of the selection inside the visible list, or none when
    /// nothing is selected; what a list widget highlights.
    pub fn selected_position(&self) -> (r: Option<usize>)
        requires
            self.wf(),
        ensures
            match self.selected_index {
                None => r is None,
                Some(s) => r matches Some(p) && p < self.filtered_commands@.len()
                    && self.filtered_commands@[p as int] == s,
            },
    {
        match self.selected_index {
            Some(s) => Some(position_of(&self.filtered_commands, s)),
            None => None,
        }
    }
}

} // verus!
