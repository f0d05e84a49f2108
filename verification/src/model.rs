//! The model: the whole state of the viewer, the text-editing operations on
//! the search query, and the update dispatcher that maps one command to the
//! next state.
//!
//! Every transition is specified twice: once as a spec function over the
//! mathematical view `ModelV`, and once as executable code proved to match
//! it.  The laws about command sequences are stated over the spec functions.

use vstd::prelude::*;

use crate::messages::Message;
use crate::Config;

verus! {

/// The scroll offset that the completed two-key jump writes: an effectively
/// infinite distance from the newest line, clamped to the true start of the
/// sequence by viewport windowing.
pub const JUMP_TOP_OFFSET: usize = 0xffff;

/// Log-severity filter selected by the user.  `SELECT` means the filter
/// picker is open; for display it behaves exactly like `NONE`.
#[derive(Clone, Copy, Debug, PartialEq, Eq, Structural)]
pub enum Filter {
    INFO,
    WARNING,
    ERROR,
    CRITICAL,
    DEBUG,
    SELECT,
    NONE,
}

/// Whether the event loop keeps running.  `Quit` is the only command that
/// reaches `Done`, and no command leaves it.
#[derive(Clone, Copy, Debug, PartialEq, Eq, Structural)]
pub enum RunningState {
    Running,
    Done,
}

/// Whether keystrokes feed the query buffer (`Search`) or the navigation
/// commands (`Inactive`).
#[derive(Clone, Copy, Debug, PartialEq, Eq, Structural)]
pub enum SearchMode {
    Search,
    Inactive,
}

/// Mathematical view of a [`Model`]: the same fields over `Seq` and `nat`.
#[verifier::ext_equal]
pub ghost struct ModelV {
    pub view_offset: nat,
    pub view_height: nat,
    pub g_modifier: bool,
    pub search_mode: SearchMode,
    pub search_input: Seq<char>,
    pub cursor_pos: nat,
    pub log_path: Seq<char>,
    pub log_filter: Filter,
    pub running: RunningState,
    pub logs: Seq<Seq<char>>,
}

impl ModelV {
    /// Well-formedness: the query cursor is a character index into the query.
    pub open spec fn wf(self) -> bool {
        self.cursor_pos <= self.search_input.len()
    }
}

/// The whole state of the viewer.  It is created once at startup, owned by a
/// single event loop, and mutated only through [`update`], [`refresh_logs`]
/// and [`set_view_height`](Model::set_view_height).
pub struct Model {
    /// Scroll distance, in lines, from the newest line; `0` is pinned to the
    /// newest line.
    pub view_offset: usize,
    /// Terminal rows available for log lines.
    pub view_height: usize,
    /// A two-key jump prefix was just pressed and the next key completes it.
    pub g_modifier: bool,
    pub search_mode: SearchMode,
    /// The search query as characters; editing works on character positions,
    /// never on bytes.
    pub search_input: Vec<char>,
    /// Cursor position in the query, as a character index in `0..=len`.
    pub cursor_pos: usize,
    pub log_path: String,
    pub log_filter: Filter,
    pub running: RunningState,
    /// The most recently loaded lines, in file order.
    pub logs: Vec<String>,
}

impl View for Model {
    type V = ModelV;

    open spec fn view(&self) -> ModelV {
        ModelV {
            view_offset: self.view_offset as nat,
            view_height: self.view_height as nat,
            g_modifier: self.g_modifier,
            search_mode: self.search_mode,
            search_input: self.search_input@,
            cursor_pos: self.cursor_pos as nat,
            log_path: self.log_path@,
            log_filter: self.log_filter,
            running: self.running,
            logs: self.logs@.map_values(|l: String| l@),
        }
    }
}

/// The state the viewer starts in: no lines yet, pinned to the newest line,
/// no filter, search inactive.
pub open spec fn init_model(path: Seq<char>) -> ModelV {
    ModelV {
        view_offset: 0,
        view_height: 0,
        g_modifier: false,
        search_mode: SearchMode::Inactive,
        search_input: Seq::empty(),
        cursor_pos: 0,
        log_path: path,
        log_filter: Filter::NONE,
        running: RunningState::Running,
        logs: Seq::empty(),
    }
}

/// Addition saturating at the largest machine integer, as the executable
/// scroll arithmetic does.
pub open spec fn sat_add(a: nat, b: nat) -> nat {
    if a + b <= usize::MAX {
        (a + b) as nat
    } else {
        usize::MAX as nat
    }
}

/// Number of bytes of the UTF-8 encoding of one character.
pub open spec fn char_utf8_len(c: char) -> nat {
    if (c as u32) < 0x80 {
        1
    } else if (c as u32) < 0x800 {
        2
    } else if (c as u32) < 0x10000 {
        3
    } else {
        4
    }
}

/// Number of bytes that the first `k` characters of `s` occupy in the UTF-8
/// encoding of `s`.
pub open spec fn prefix_byte_len(s: Seq<char>, k: int) -> int
    decreases k,
{
    if k <= 0 {
        0
    } else {
        prefix_byte_len(s, k - 1) + char_utf8_len(s[k - 1])
    }
}

impl Model {
    /// A fresh model for the given configuration.  The caller loads the
    /// first lines with [`refresh_logs`](Model::refresh_logs).
    pub fn new(config: Config) -> (m: Model)
        ensures
            m@ == init_model(config.file_path@),
            m@.wf(),
    {
        let m = Model {
            view_offset: 0,
            view_height: 0,
            g_modifier: false,
            search_mode: SearchMode::Inactive,
            search_input: Vec::new(),
            cursor_pos: 0,
            log_path: config.file_path,
            log_filter: Filter::NONE,
            running: RunningState::Running,
            logs: Vec::new(),
        };
        proof {
            assert(m@ =~= init_model(m.log_path@));
        }
        m
    }

    /// Records how many terminal rows are available for log lines.
    pub fn set_view_height(&mut self, height: usize)
        ensures
            final(self)@ == (ModelV { view_height: height as nat, ..old(self)@ }),
    {
        self.view_height = height;
        proof {
            assert(self@ =~= (ModelV { view_height: height as nat, ..old(self)@ }));
        }
    }

    /// Returns the byte index of the cursor in the UTF-8 encoding of the
    /// query: the position a byte-addressed text buffer would mutate at.
    ///
    /// Since a character can occupy several bytes, the byte index is the sum
    /// of the encoded lengths of the characters before the cursor.  The sum
    /// saturates at the largest machine integer.
    pub fn byte_index(&self) -> (r: usize)
        requires
            self@.wf(),
        ensures
            r == if prefix_byte_len(self@.search_input, self@.cursor_pos as int) <= usize::MAX {
                prefix_byte_len(self@.search_input, self@.cursor_pos as int)
            } else {
                usize::MAX as int
            },
    {
        let mut acc: usize = 0;
        let mut i: usize = 0;
        while i < self.cursor_pos
            invariant
                self@.wf(),
                i <= self.cursor_pos,
                acc == if prefix_byte_len(self@.search_input, i as int) <= usize::MAX {
                    prefix_byte_len(self@.search_input, i as int)
                } else {
                    usize::MAX as int
                },
            decreases self.cursor_pos - i,
        {
            let c = self.search_input[i];
            let u = c as u32;
            let step: usize = if u < 0x80 {
                1
            } else if u < 0x800 {
                2
            } else if u < 0x10000 {
                3
            } else {
                4
            };
            assert(step == char_utf8_len(self@.search_input[i as int]));
            acc = acc.saturating_add(step);
            i = i + 1;
        }
        acc
    }

    /// Clamps a candidate cursor position into `0..=len` in characters.
    pub fn clamp_cursor(&self, new_cursor_pos: usize) -> (r: usize)
        ensures
            r == vstd::math::min(new_cursor_pos as int, self@.search_input.len() as int),
    {
        let n = self.search_input.len();
        if new_cursor_pos > n {
            n
        } else {
            new_cursor_pos
        }
    }

    /// Puts the query cursor back at the start.
    pub fn reset_cursor(&mut self)
        ensures
            final(self)@ == (ModelV { cursor_pos: 0, ..old(self)@ }),
            final(self)@.wf(),
    {
        self.cursor_pos = 0;
        proof {
            assert(self@ =~= (ModelV { cursor_pos: 0, ..old(self)@ }));
        }
    }

    /// Replaces the stored lines with a freshly read snapshot of the file.
    ///
    /// When lines were appended and the user has scrolled away from the
    /// newest line, the offset grows by the number of appended lines, so the
    /// window of historical lines stays visually stable; an offset of zero
    /// stays zero so new lines become visible immediately.
    pub fn refresh_logs(&mut self, logs: Vec<String>)
        ensures
            final(self)@ == refresh_spec(old(self)@, logs@.map_values(|l: String| l@)),
            old(self)@.wf() ==> final(self)@.wf(),
    {
        if logs.len() > self.logs.len() && self.view_offset != 0 {
            self.view_offset = self.view_offset.saturating_add(logs.len() - self.logs.len());
        }
        self.logs = logs;
        proof {
            assert(self@ =~= refresh_spec(old(self)@, self.logs@.map_values(|l: String| l@)));
        }
    }
}

/// What [`Model::refresh_logs`] does to the state: the new snapshot replaces
/// the lines, and a nonzero offset is compensated by the growth.
pub open spec fn refresh_spec(m: ModelV, new_logs: Seq<Seq<char>>) -> ModelV {
    let grown = new_logs.len() > m.logs.len() && m.view_offset != 0;
    ModelV {
        logs: new_logs,
        view_offset: if grown {
            sat_add(m.view_offset, (new_logs.len() - m.logs.len()) as nat)
        } else {
            m.view_offset
        },
        ..m
    }
}

/// What [`move_cursor_left`] does: one character left, clamped into the query.
pub open spec fn move_left_spec(m: ModelV) -> ModelV {
    let moved: nat = if m.cursor_pos > 0 {
        (m.cursor_pos - 1) as nat
    } else {
        0
    };
    ModelV {
        cursor_pos: if moved <= m.search_input.len() {
            moved
        } else {
            m.search_input.len()
        },
        ..m
    }
}

/// What [`move_cursor_right`] does: one character right, clamped into the query.
pub open spec fn move_right_spec(m: ModelV) -> ModelV {
    let moved: nat = sat_add(m.cursor_pos, 1);
    ModelV {
        cursor_pos: if moved <= m.search_input.len() {
            moved
        } else {
            m.search_input.len()
        },
        ..m
    }
}

/// What [`enter_char`] does: the character goes in at the cursor, counted in
/// characters, and the cursor moves right past it.
pub open spec fn enter_char_spec(m: ModelV, c: char) -> ModelV {
    move_right_spec(
        ModelV { search_input: m.search_input.insert(m.cursor_pos as int, c), ..m },
    )
}

/// What [`delete_char`] does: the character before the cursor goes away and
/// the cursor moves left onto its place; at the left edge nothing happens.
pub open spec fn delete_char_spec(m: ModelV) -> ModelV {
    if m.cursor_pos != 0 {
        move_left_spec(
            ModelV { search_input: m.search_input.remove(m.cursor_pos - 1), ..m },
        )
    } else {
        m
    }
}

/// What [`reset_search`] does: query empty, cursor at zero, search inactive.
pub open spec fn reset_search_spec(m: ModelV) -> ModelV {
    ModelV {
        search_input: Seq::empty(),
        cursor_pos: 0,
        search_mode: SearchMode::Inactive,
        ..m
    }
}

/// Inserts one character into the search query at the cursor.
pub fn enter_char(model: &mut Model, new_char: char)
    requires
        old(model)@.wf(),
    ensures
        final(model)@ == enter_char_spec(old(model)@, new_char),
        final(model)@.wf(),
{
    model.search_input.insert(model.cursor_pos, new_char);
    move_cursor_right(model);
    proof {
        assert(model@ =~= enter_char_spec(old(model)@, new_char));
    }
}

/// Moves the query cursor one character to the left, clamped into the query.
pub fn move_cursor_left(model: &mut Model)
    ensures
        final(model)@ == move_left_spec(old(model)@),
        final(model)@.wf(),
{
    let cursor_moved_left = model.cursor_pos.saturating_sub(1);
    model.cursor_pos = model.clamp_cursor(cursor_moved_left);
    proof {
        assert(model@ =~= move_left_spec(old(model)@));
    }
}

/// Moves the query cursor one character to the right, clamped into the query.
pub fn move_cursor_right(model: &mut Model)
    ensures
        final(model)@ == move_right_spec(old(model)@),
        final(model)@.wf(),
{
    let cursor_moved_right = model.cursor_pos.saturating_add(1);
    model.cursor_pos = model.clamp_cursor(cursor_moved_right);
    proof {
        assert(model@ =~= move_right_spec(old(model)@));
    }
}

/// Deletes the character before the cursor, if there is one.
pub fn delete_char(model: &mut Model)
    requires
        old(model)@.wf(),
    ensures
        final(model)@ == delete_char_spec(old(model)@),
        final(model)@.wf(),
{
    let is_not_cursor_leftmost = model.cursor_pos != 0;
    if is_not_cursor_leftmost {
        model.search_input.remove(model.cursor_pos - 1);
        move_cursor_left(model);
    }
    proof {
        assert(model@ =~= delete_char_spec(old(model)@));
    }
}

/// Clears the query, puts the cursor back to the start and leaves search mode.
pub fn reset_search(model: &mut Model)
    ensures
        final(model)@ == reset_search_spec(old(model)@),
        final(model)@.wf(),
{
    model.search_input.clear();
    model.reset_cursor();
    model.search_mode = SearchMode::Inactive;
    proof {
        assert(model@ =~= reset_search_spec(old(model)@));
    }
}

/// One transition of the dispatcher when no two-key prefix is pending.
pub open spec fn step_normal(m: ModelV, msg: Message) -> ModelV {
    match msg {
        Message::MoveUp => ModelV { view_offset: sat_add(m.view_offset, 1), ..m },
        Message::MoveDown => ModelV {
            view_offset: if m.view_offset > 0 {
                (m.view_offset - 1) as nat
            } else {
                0
            },
            ..m
        },
        Message::MoveUpPage => ModelV { view_offset: sat_add(m.view_offset, m.view_height), ..m },
        Message::MoveDownPage => ModelV {
            view_offset: if m.view_offset >= m.view_height {
                (m.view_offset - m.view_height) as nat
            } else {
                0
            },
            ..m
        },
        Message::ApplyFilter(f) => ModelV { log_filter: f, view_offset: 0, ..m },
        Message::Quit => ModelV { running: RunningState::Done, ..m },
        Message::ToggleSearch => match m.search_mode {
            SearchMode::Search => reset_search_spec(m),
            SearchMode::Inactive => ModelV { search_mode: SearchMode::Search, ..m },
        },
        Message::AddChar(c) => enter_char_spec(m, c),
        Message::Delete => delete_char_spec(m),
        Message::MoveCursorLeft => move_left_spec(m),
        Message::MoveCursorRight => move_right_spec(m),
        Message::MoveTop => ModelV { g_modifier: true, ..m },
        Message::MoveBottom => ModelV { view_offset: 0, ..m },
    }
}

/// One transition of the dispatcher.  A pending two-key prefix is completed
/// by the jump key and reset by any other key, which is then processed
/// normally, not swallowed.
pub open spec fn step(m: ModelV, msg: Message) -> ModelV {
    if m.g_modifier {
        if msg is MoveTop {
            ModelV { view_offset: JUMP_TOP_OFFSET as nat, g_modifier: false, ..m }
        } else {
            step_normal(ModelV { g_modifier: false, ..m }, msg)
        }
    } else {
        step_normal(m, msg)
    }
}

/// The update dispatcher: applies one command to the model.  It never
/// produces a follow-up command; the event loop simply applies what it
/// returns until none remains.
pub fn update(model: &mut Model, msg: Message) -> (follow_up: Option<Message>)
    requires
        old(model)@.wf(),
    ensures
        final(model)@ == step(old(model)@, msg),
        final(model)@.wf(),
        follow_up is None,
{
    if model.g_modifier {
        match msg {
            Message::MoveTop => {
                model.view_offset = JUMP_TOP_OFFSET;
                model.g_modifier = false;
                proof {
                    assert(model@ =~= step(old(model)@, msg));
                }
                return None;
            },
            _ => {
                model.g_modifier = false;
            },
        }
    }
    let ghost pre: ModelV = model@;
    proof {
        assert(step(old(model)@, msg) == step_normal(pre, msg));
    }
    match msg {
        Message::MoveUp => {
            model.view_offset = model.view_offset.saturating_add(1);
        },
        Message::MoveDown => {
            if model.view_offset > 0 {
                model.view_offset = model.view_offset - 1;
            }
        },
        Message::MoveUpPage => {
            model.view_offset = model.view_offset.saturating_add(model.view_height);
        },
        Message::MoveDownPage => {
            model.view_offset = model.view_offset.saturating_sub(model.view_height);
        },
        Message::ApplyFilter(f) => {
            model.log_filter = f;
            model.view_offset = 0;
        },
        Message::Quit => {
            model.running = RunningState::Done;
        },
        Message::ToggleSearch => {
            match model.search_mode {
                SearchMode::Search => {
                    reset_search(model);
                },
                SearchMode::Inactive => {
                    model.search_mode = SearchMode::Search;
                },
            }
        },
        Message::AddChar(c) => enter_char(model, c),
        Message::Delete => delete_char(model),
        Message::MoveCursorLeft => move_cursor_left(model),
        Message::MoveCursorRight => move_cursor_right(model),
        Message::MoveTop => {
            model.g_modifier = true;
        },
        Message::MoveBottom => {
            model.view_offset = 0;
        },
    }
    proof {
        assert(model@ =~= step_normal(pre, msg));
    }
    None
}

/// The model after typing a run of characters into the query, first to last.
pub open spec fn type_chars(m: ModelV, cs: Seq<char>) -> ModelV
    decreases cs.len(),
{
    if cs.len() == 0 {
        m
    } else {
        type_chars(step(m, Message::AddChar(cs[0])), cs.drop_first())
    }
}

/// Typing preserves search mode: a run of character insertions leaves the
/// mode, and everything outside the query, untouched.
pub proof fn lemma_typing_keeps_mode(m: ModelV, cs: Seq<char>)
    ensures
        ({
            let m2 = type_chars(m, cs);
            &&& m2.search_mode == m.search_mode
            &&& m2.running == m.running
            &&& m2.log_filter == m.log_filter
            &&& m2.logs == m.logs
        }),
    decreases cs.len(),
{
    if cs.len() > 0 {
        let m1 = step(m, Message::AddChar(cs[0]));
        assert(m1.search_mode == m.search_mode);
        lemma_typing_keeps_mode(m1, cs.drop_first());
    }
}

/// Round trip of the search mode: entering search, typing any characters and
/// toggling search again leaves the query empty, the cursor at zero and the
/// mode inactive.
pub proof fn lemma_search_round_trip(m: ModelV, cs: Seq<char>)
    requires
        m.search_mode is Inactive,
    ensures
        ({
            let m1 = step(m, Message::ToggleSearch);
            let m2 = type_chars(m1, cs);
            let m3 = step(m2, Message::ToggleSearch);
            &&& m3.search_input == Seq::<char>::empty()
            &&& m3.cursor_pos == 0
            &&& m3.search_mode is Inactive
        }),
{
    let m1 = step(m, Message::ToggleSearch);
    assert(m1.search_mode is Search);
    lemma_typing_keeps_mode(m1, cs);
}

/// The two-key jump: the prefix key followed by the completing key moves the
/// view to the effectively infinite offset, which windowing clamps to the
/// oldest lines, and the pending flag is reset.
pub proof fn lemma_two_key_jump(m: ModelV)
    requires
        !m.g_modifier,
    ensures
        step(step(m, Message::MoveTop), Message::MoveTop) == (ModelV {
            view_offset: JUMP_TOP_OFFSET as nat,
            g_modifier: false,
            ..m
        }),
{
    assert(step(step(m, Message::MoveTop), Message::MoveTop) =~= (ModelV {
        view_offset: JUMP_TOP_OFFSET as nat,
        g_modifier: false,
        ..m
    }));
}

/// The two-key prefix followed by any other key: the other key's normal
/// action happens, exactly as without the prefix, and no jump.
pub proof fn lemma_two_key_other(m: ModelV, msg: Message)
    requires
        !m.g_modifier,
        !(msg is MoveTop),
    ensures
        step(step(m, Message::MoveTop), msg) == step(m, msg),
{
    let m1 = step(m, Message::MoveTop);
    assert(m1 =~= (ModelV { g_modifier: true, ..m }));
    assert((ModelV { g_modifier: false, ..m1 }) =~= m);
}

/// A pending two-key prefix is reset by the next command, whether or not it
/// completed the sequence.
pub proof fn lemma_pending_modifier_always_resets(m: ModelV, msg: Message)
    requires
        m.g_modifier,
    ensures
        !step(m, msg).g_modifier,
{
}

/// Quit is the only terminal transition: it alone moves the running flag to
/// `Done`, every other command leaves the flag as it was, and no command
/// leaves `Done`.
pub proof fn lemma_quit_is_the_only_terminal_transition(m: ModelV, msg: Message)
    ensures
        step(m, msg).running == if msg is Quit {
            RunningState::Done
        } else {
            m.running
        },
{
}

} // verus!

