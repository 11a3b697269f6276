use vstd::prelude::*;
use vstd::string::*;
use crate::checklist::{counter_text, fresh_id, Todo, TodoList};
use crate::draw::{
    bold, bordered, bordered_text, clear_after, clear_after_seq, clear_all, clear_before,
    clear_before_seq, clear_screen_seq, danger, goto_seq, hide_cursor, hide_seq, input,
    input_box, next_cell, position, position_text, reset_seq, show_cursor, show_seq, styled,
    success, bold_seq, green_seq, yellow_seq,
};
use crate::laws::lemma_swap_same_entries;
use crate::settings::Settings;
use crate::text::push_char;

verus! {

/// The edits that wait for text or a confirmation from the user.
#[derive(PartialEq, Eq, Structural, Clone, Copy, Debug)]
pub enum Operation {
    Create,
    Update,
    Delete,
}

/// The two regions of the screen: the list above, the status line below.
#[derive(PartialEq, Eq, Structural, Clone, Copy, Debug)]
pub enum UiSection {
    Status,
    Content,
}

/// A key as read from the terminal.
#[derive(PartialEq, Eq, Structural, Clone, Copy, Debug)]
pub enum Key {
    Backspace,
    Left,
    Right,
    Up,
    Down,
    Home,
    End,
    PageUp,
    PageDown,
    BackTab,
    Delete,
    Insert,
    F(u8),
    Char(char),
    Alt(char),
    Ctrl(char),
    Null,
    Esc,
}

/// What the panel reacts to.
#[derive(PartialEq, Eq, Debug)]
pub enum Event {
    Redraw,
    Clear(Option<UiSection>),
    Quit,
    MoveUp,
    MoveDown,
    HighlightUp,
    HighlightDown,
    Toggle,
    Save,
    Input(Operation),
    Commit(Operation, String),
    KeyPressed(Key),
    IoError(String),
    /// The status-line timer started with this number has run out.
    FlashExpired(u64),
}

/// Where the panel stands between two events.
#[derive(PartialEq, Eq, Structural, Clone, Copy, Debug)]
pub enum Mode {
    Idle,
    AwaitingInput(Operation),
    Terminated,
}

/// What the panel asks of the terminal and of the rest of the program, in order.
#[derive(PartialEq, Eq, Debug)]
pub enum Effect {
    /// Write this text to the terminal and flush it.
    Write(String),
    /// Signal the pending status-line timer that it must not fire.
    CancelFlash,
    /// Start a timer that sends `Event::FlashExpired` with this number after a second.
    ScheduleFlashClear(u64),
    /// Leave raw mode so that a line of text can be read.
    SuspendRawMode,
    /// Go back to raw mode.
    ActivateRawMode,
    /// Store the list; report the outcome through `Panel::saved`.
    Persist,
    /// Stop the event loop.
    Terminate,
}

/// The meaning of an `Effect`, with text as a sequence of characters.
pub enum EffectView {
    Write(Seq<char>),
    CancelFlash,
    ScheduleFlashClear(u64),
    SuspendRawMode,
    ActivateRawMode,
    Persist,
    Terminate,
}

impl View for Effect {
    type V = EffectView;

    open spec fn view(&self) -> EffectView {
        match self {
            Effect::Write(s) => EffectView::Write(s@),
            Effect::CancelFlash => EffectView::CancelFlash,
            Effect::ScheduleFlashClear(g) => EffectView::ScheduleFlashClear(*g),
            Effect::SuspendRawMode => EffectView::SuspendRawMode,
            Effect::ActivateRawMode => EffectView::ActivateRawMode,
            Effect::Persist => EffectView::Persist,
            Effect::Terminate => EffectView::Terminate,
        }
    }
}

pub open spec fn views(v: Seq<Effect>) -> Seq<EffectView> {
    v.map_values(|e: Effect| e@)
}

fn emit(out: &mut Vec<Effect>, e: Effect)
    ensures
        views(final(out)@) == views(old(out)@).push(e@),
{
    let ghost e_view = e@;
    out.push(e);
    assert(views(final(out)@) =~= views(old(out)@).push(e_view));
}

/// The list being edited and the state of the screen around it.
pub struct Panel {
    pub list: TodoList,
    pub highlighted: usize,
    pub settings: Settings,
    pub mode: Mode,
    /// A timer that will clear the status line is running.
    pub flash_pending: bool,
    /// The number of the latest status-line timer; an expiry carrying another
    /// number comes from a timer that was superseded.
    pub flash_gen: u64,
}

/// The number of the timer started after the one numbered `g`.
pub open spec fn next_gen(g: u64) -> u64 {
    if g < 0xffff_ffff_ffff_ffff {
        (g + 1) as u64
    } else {
        0
    }
}

/// The row above which the list is drawn.
pub open spec fn content_row(h: nat) -> nat {
    if h >= 5 {
        (h - 5) as nat
    } else {
        0
    }
}

/// The row of the text entry box.
pub open spec fn entry_row(h: nat) -> nat {
    if h >= 2 {
        (h - 2) as nat
    } else {
        0
    }
}

pub open spec fn checkbox(s: Settings, done: bool) -> Seq<char> {
    if done {
        s.checked_symbol@
    } else {
        s.unchecked_symbol@
    }
}

/// One entry as a line of the list, in bold when highlighted.
pub open spec fn todo_line(s: Settings, t: Todo, highlight: bool) -> Seq<char> {
    let line = checkbox(s, t.done) + seq![' '] + t.item@ + seq!['\n'];
    if highlight {
        styled(bold_seq(), line)
    } else {
        line
    }
}

/// The lines of `todos`, the one at index `h` highlighted.
pub open spec fn todo_lines(s: Settings, todos: Seq<Todo>, h: int) -> Seq<char>
    decreases todos.len(),
{
    if todos.len() == 0 {
        Seq::<char>::empty()
    } else {
        todo_lines(s, todos.drop_last(), h) + todo_line(s, todos.last(), todos.len() - 1 == h)
    }
}

/// The framed list, `width` columns wide.
pub open spec fn list_view(p: Panel, width: nat) -> Seq<char> {
    let todos = p.list.todos@;
    let body = if todos.len() == 0 {
        "Nothing to display..."@
    } else {
        todo_lines(p.settings, todos, p.highlighted as int)
    };
    bordered_text(body, p.list.name@, counter_text(todos), width)
}

/// Clears the list region and draws the list again.
pub open spec fn redraw_text(p: Panel, w: nat, h: nat) -> Seq<char> {
    goto_seq(w, content_row(h)) + clear_before_seq() + hide_seq() + list_view(p, w)
}

pub open spec fn clear_all_text() -> Seq<char> {
    reset_seq() + clear_screen_seq() + show_seq() + goto_seq(1, 1)
}

/// Clears a region (the whole screen for `None`) and hides the cursor.
pub open spec fn section_text(section: Option<UiSection>, w: nat, h: nat) -> Seq<char> {
    match section {
        None => clear_all_text() + hide_seq(),
        Some(UiSection::Content) => goto_seq(w, content_row(h)) + clear_before_seq() + hide_seq(),
        Some(UiSection::Status) => goto_seq(w, content_row(h)) + clear_after_seq() + hide_seq(),
    }
}

/// A text entry box named `name` above the status line.
pub open spec fn entry_text(name: Seq<char>, h: nat) -> Seq<char> {
    position_text(show_seq() + input_box(name), 1, entry_row(h)) + goto_seq(
        next_cell(1),
        next_cell(entry_row(h)),
    )
}

pub open spec fn confirm_text(h: nat) -> Seq<char> {
    position_text(styled(yellow_seq(), "Are you sure? (y/n)"@), 1, h)
}

/// The cancel signal owed to a running status-line timer, if any.
pub open spec fn cancel_steps(p: Panel) -> Seq<EffectView> {
    if p.flash_pending {
        seq![EffectView::CancelFlash]
    } else {
        Seq::<EffectView>::empty()
    }
}

/// `text` shown on the status line (row `h`) until a fresh timer clears it; a
/// timer still running for an earlier message is cancelled first.
pub open spec fn flashed(p: Panel, q: Panel, text: Seq<char>, out: Seq<EffectView>, h: nat) -> bool {
    &&& q == Panel { flash_pending: true, flash_gen: next_gen(p.flash_gen), ..p }
    &&& out == cancel_steps(p) + seq![
        EffectView::Write(position_text(text, 1, h)),
        EffectView::ScheduleFlashClear(next_gen(p.flash_gen)),
    ]
}

/// The panel is waiting for a line of text.
pub open spec fn awaiting_text(m: Mode) -> bool {
    m == Mode::AwaitingInput(Operation::Create) || m == Mode::AwaitingInput(Operation::Update)
}

/// `q` holds the entries `todos` with `h` highlighted, and otherwise equals `p`.
pub open spec fn rearranged(p: Panel, q: Panel, todos: Seq<Todo>, h: int) -> bool {
    &&& q.list.name == p.list.name
    &&& q.list.todos@ == todos
    &&& q.highlighted == h
    &&& q.settings == p.settings
    &&& q.mode == p.mode
    &&& q.flash_pending == p.flash_pending
    &&& q.flash_gen == p.flash_gen
}

/// `s` with the entries at `i` and `j` exchanged.
pub open spec fn swapped(s: Seq<Todo>, i: int, j: int) -> Seq<Todo> {
    s.update(i, s[j]).update(j, s[i])
}

/// The highlighted index after the entry at `h` left a list that now holds `len`.
pub open spec fn clamped_after_delete(h: int, len: int) -> int {
    if len == 0 {
        0
    } else if h == len {
        h - 1
    } else {
        h
    }
}

/// A new entry holding `text`: fresh identifier, priority 0, no tags, not done.
pub open spec fn created_todo(t: Todo, text: String, todos: Seq<Todo>) -> bool {
    &&& t.id == fresh_id(todos)
    &&& t.item == text
    &&& t.priority == 0
    &&& t.tags@.len() == 0
    &&& !t.done
}

/// The list of `q` is that of `p` after the edit `op` with `text`.
pub open spec fn committed(p: Panel, op: Operation, text: String, q: Panel) -> bool {
    let todos = p.list.todos@;
    let h = p.highlighted as int;
    &&& q.list.name == p.list.name
    &&& q.settings == p.settings
    &&& q.flash_pending == p.flash_pending
    &&& q.flash_gen == p.flash_gen
    &&& q.mode == Mode::Idle
    &&& match op {
        Operation::Create => {
            &&& q.list.todos@.len() == todos.len() + 1
            &&& q.list.todos@.drop_last() == todos
            &&& created_todo(q.list.todos@.last(), text, todos)
            &&& q.highlighted == p.highlighted
        },
        Operation::Update => {
            &&& q.list.todos@ == if todos.len() == 0 {
                todos
            } else {
                todos.update(h, Todo { item: text, ..todos[h] })
            }
            &&& q.highlighted == p.highlighted
        },
        Operation::Delete => if todos.len() == 0 {
            q.list.todos@ == todos && q.highlighted == p.highlighted
        } else {
            &&& q.list.todos@ == todos.remove(h)
            &&& q.highlighted == clamped_after_delete(h, todos.len() - 1)
        },
    }
}

/// The mode after clearing `section`: clearing the status line answers a
/// pending delete question with no; nothing else changes the mode.
pub open spec fn cleared_mode(m: Mode, section: Option<UiSection>) -> Mode {
    if section == Some(UiSection::Status) && m == Mode::AwaitingInput(Operation::Delete) {
        Mode::Idle
    } else {
        m
    }
}

/// What handling `e` in a terminal `w` columns wide and `h` rows high does:
/// `p` is the panel before, `q` after, `out` what is asked of the terminal.
pub open spec fn transition(p: Panel, e: Event, q: Panel, out: Seq<EffectView>, w: nat, h: nat) -> bool {
    let todos = p.list.todos@;
    let len = todos.len();
    let hl = p.highlighted as int;
    let unchanged = q == p && out.len() == 0;
    match e {
        Event::Redraw => q == p && out == seq![EffectView::Write(redraw_text(p, w, h))],
        Event::Quit => {
            &&& q == Panel { mode: Mode::Terminated, ..p }
            &&& out == seq![
                EffectView::Write(clear_all_text() + show_seq()),
                EffectView::Terminate,
            ]
        },
        Event::HighlightUp => if hl > 0 {
            q == Panel { highlighted: (hl - 1) as usize, ..p } && out == seq![
                EffectView::Write(redraw_text(q, w, h)),
            ]
        } else {
            unchanged
        },
        Event::HighlightDown => if hl + 1 < len {
            q == Panel { highlighted: (hl + 1) as usize, ..p } && out == seq![
                EffectView::Write(redraw_text(q, w, h)),
            ]
        } else {
            unchanged
        },
        Event::MoveUp => if len >= 2 && hl > 0 {
            rearranged(p, q, swapped(todos, hl - 1, hl), hl - 1) && out == seq![
                EffectView::Write(redraw_text(q, w, h)),
            ]
        } else {
            unchanged
        },
        Event::MoveDown => if len >= 2 && hl + 1 < len {
            rearranged(p, q, swapped(todos, hl, hl + 1), hl + 1) && out == seq![
                EffectView::Write(redraw_text(q, w, h)),
            ]
        } else {
            unchanged
        },
        Event::Toggle => if len > 0 {
            rearranged(p, q, todos.update(hl, Todo { done: !todos[hl].done, ..todos[hl] }), hl)
                && out == seq![EffectView::Write(redraw_text(q, w, h))]
        } else {
            unchanged
        },
        Event::Save => q == p && out == seq![EffectView::Persist],
        Event::Input(op) => if op != Operation::Create && len == 0 {
            unchanged
        } else {
            &&& q == Panel { mode: Mode::AwaitingInput(op), flash_pending: false, ..p }
            &&& out == cancel_steps(p) + match op {
                Operation::Create => seq![
                    EffectView::SuspendRawMode,
                    EffectView::Write(entry_text("Todo"@, h)),
                ],
                Operation::Update => seq![
                    EffectView::SuspendRawMode,
                    EffectView::Write(entry_text(todos[hl].item@, h)),
                ],
                Operation::Delete => seq![EffectView::Write(confirm_text(h))],
            }
        },
        Event::Commit(op, text) => {
            &&& committed(p, op, text, q)
            &&& out == seq![
                EffectView::ActivateRawMode,
                EffectView::Write(clear_all_text() + hide_seq() + redraw_text(q, w, h)),
            ]
        },
        Event::Clear(section) => {
            &&& q == Panel { mode: cleared_mode(p.mode, section), ..p }
            &&& out == seq![EffectView::Write(section_text(section, w, h))]
        },
        Event::KeyPressed(_) => unchanged,
        Event::IoError(msg) => {
            let text = styled(yellow_seq(), "Unexpected i/o error: "@ + msg@);
            if awaiting_text(p.mode) {
                let idle = Panel { mode: Mode::Idle, ..p };
                &&& out.len() >= 2
                &&& out.take(2) == seq![
                    EffectView::ActivateRawMode,
                    EffectView::Write(clear_all_text() + hide_seq() + redraw_text(idle, w, h)),
                ]
                &&& flashed(idle, q, text, out.skip(2), h)
            } else {
                flashed(p, q, text, out, h)
            }
        },
        Event::FlashExpired(g) => if p.flash_pending && g == p.flash_gen {
            &&& q == Panel { flash_pending: false, ..p }
            &&& out == seq![EffectView::Write(section_text(Some(UiSection::Status), w, h))]
        } else {
            unchanged
        },
    }
}

impl Panel {
    /// The highlighted index points at an entry, or is 0 for an empty list.
    pub open spec fn wf(&self) -> bool {
        if self.list.todos@.len() == 0 {
            self.highlighted == 0
        } else {
            self.highlighted < self.list.todos@.len()
        }
    }

    /// A panel on `list`, its first entry highlighted, nothing pending.
    pub fn new(list: TodoList, settings: Settings) -> (r: Panel)
        ensures
            r.wf(),
            r.list == list,
            r.settings == settings,
            r.highlighted == 0,
            r.mode == Mode::Idle,
            !r.flash_pending,
            r.flash_gen == 0,
    {
        Panel { list, highlighted: 0, settings, mode: Mode::Idle, flash_pending: false, flash_gen: 0 }
    }

    fn draw_todo(&self, todo: &Todo, highlight: bool) -> (r: String)
        ensures
            r@ == todo_line(self.settings, *todo, highlight),
    {
        let mut out = String::new();
        if todo.done {
            out.append(self.settings.checked_symbol.as_str());
        } else {
            out.append(self.settings.unchecked_symbol.as_str());
        }
        push_char(&mut out, ' ');
        out.append(todo.item.as_str());
        push_char(&mut out, '\n');
        if highlight {
            bold(out)
        } else {
            out
        }
    }

    fn draw_todos(&self) -> (r: String)
        ensures
            r@ == todo_lines(self.settings, self.list.todos@, self.highlighted as int),
    {
        let mut out = String::new();
        let mut i: usize = 0;
        assert(self.list.todos@.take(0) =~= Seq::<Todo>::empty());
        while i < self.list.todos.len()
            invariant
                i <= self.list.todos@.len(),
                out@ == todo_lines(
                    self.settings,
                    self.list.todos@.take(i as int),
                    self.highlighted as int,
                ),
            decreases self.list.todos@.len() - i,
        {
            proof {
                assert(self.list.todos@.take(i + 1).drop_last() =~= self.list.todos@.take(
                    i as int,
                ));
            }
            let line = self.draw_todo(&self.list.todos[i], i == self.highlighted);
            out.append(line.as_str());
            i = i + 1;
        }
        assert(self.list.todos@.take(i as int) =~= self.list.todos@);
        out
    }

    fn draw(&self, width: u16) -> (r: String)
        ensures
            r@ == list_view(*self, width as nat),
    {
        let body = if self.list.todos.len() == 0 {
            String::from_str("Nothing to display...")
        } else {
            self.draw_todos()
        };
        bordered(body, self.list.name.clone(), self.list.counter(), width)
    }

    fn redraw_string(&self, width: u16, height: u16) -> (r: String)
        ensures
            r@ == redraw_text(*self, width as nat, height as nat),
    {
        let row: u16 = if height >= 5 {
            height - 5
        } else {
            0
        };
        let mut out = clear_before(width, row);
        out.append(hide_cursor().as_str());
        out.append(self.draw(width).as_str());
        out
    }

    fn cancel_flash(&mut self, out: &mut Vec<Effect>)
        ensures
            *final(self) == (Panel { flash_pending: false, ..*old(self) }),
            views(final(out)@) == views(old(out)@) + cancel_steps(*old(self)),
    {
        if self.flash_pending {
            emit(out, Effect::CancelFlash);
            self.flash_pending = false;
        }
        assert(views(final(out)@) =~= views(old(out)@) + cancel_steps(*old(self)));
    }

    fn flash(&mut self, text: String, height: u16, out: &mut Vec<Effect>)
        ensures
            *final(self) == (Panel {
                flash_pending: true,
                flash_gen: next_gen(old(self).flash_gen),
                ..*old(self)
            }),
            views(final(out)@) == views(old(out)@) + cancel_steps(*old(self)) + seq![
                EffectView::Write(position_text(text@, 1, height as nat)),
                EffectView::ScheduleFlashClear(next_gen(old(self).flash_gen)),
            ],
    {
        self.cancel_flash(out);
        self.flash_pending = true;
        self.flash_gen = if self.flash_gen < 0xffff_ffff_ffff_ffff {
            self.flash_gen + 1
        } else {
            0
        };
        emit(out, Effect::Write(position(text, 1, height)));
        emit(out, Effect::ScheduleFlashClear(self.flash_gen));
        assert(views(final(out)@) =~= views(old(out)@) + cancel_steps(*old(self)) + seq![
            EffectView::Write(position_text(text@, 1, height as nat)),
            EffectView::ScheduleFlashClear(next_gen(old(self).flash_gen)),
        ]);
    }

    /// Clears the screen and draws the list: what the panel shows first.
    pub fn start(&self, width: u16, height: u16) -> (r: Vec<Effect>)
        ensures
            views(r@) == seq![
                EffectView::Write(
                    clear_all_text() + hide_seq() + redraw_text(*self, width as nat, height as nat),
                ),
            ],
    {
        let mut text = clear_all();
        text.append(hide_cursor().as_str());
        text.append(self.redraw_string(width, height).as_str());
        let mut out = Vec::new();
        emit(&mut out, Effect::Write(text));
        assert(views(out@) =~= seq![
            EffectView::Write(
                clear_all_text() + hide_seq() + redraw_text(*self, width as nat, height as nat),
            ),
        ]);
        out
    }

    /// Gives the terminal back in its ordinary state and ends the session.
    pub fn quit(&mut self) -> (r: Vec<Effect>)
        ensures
            *final(self) == (Panel { mode: Mode::Terminated, ..*old(self) }),
            views(r@) == seq![
                EffectView::Write(clear_all_text() + show_seq()),
                EffectView::Terminate,
            ],
    {
        let mut text = clear_all();
        text.append(show_cursor().as_str());
        self.mode = Mode::Terminated;
        let mut out = Vec::new();
        emit(&mut out, Effect::Write(text));
        emit(&mut out, Effect::Terminate);
        assert(views(out@) =~= seq![
            EffectView::Write(clear_all_text() + show_seq()),
            EffectView::Terminate,
        ]);
        out
    }

    fn redraw(&self, width: u16, height: u16) -> (r: Vec<Effect>)
        ensures
            views(r@) == seq![EffectView::Write(redraw_text(*self, width as nat, height as nat))],
    {
        let mut out = Vec::new();
        emit(&mut out, Effect::Write(self.redraw_string(width, height)));
        assert(views(out@) =~= seq![
            EffectView::Write(redraw_text(*self, width as nat, height as nat)),
        ]);
        out
    }

    fn move_up(&mut self)
        requires
            old(self).wf(),
            old(self).list.todos@.len() >= 2,
            old(self).highlighted > 0,
        ensures
            final(self).wf(),
            rearranged(
                *old(self),
                *final(self),
                swapped(old(self).list.todos@, old(self).highlighted - 1, old(self).highlighted as int),
                old(self).highlighted - 1,
            ),
            final(self).list.todos@.to_multiset() == old(self).list.todos@.to_multiset(),
            final(self).list.todos@[final(self).highlighted as int] == old(self).list.todos@[old(
                self,
            ).highlighted as int],
    {
        proof {
            lemma_swap_same_entries(
                old(self).list.todos@,
                old(self).highlighted - 1,
                old(self).highlighted as int,
            );
        }
        let h = self.highlighted;
        let t = self.list.todos.remove(h);
        self.list.todos.insert(h - 1, t);
        self.highlighted = h - 1;
        assert(self.list.todos@ =~= swapped(old(self).list.todos@, h - 1, h as int));
    }

    fn move_down(&mut self)
        requires
            old(self).wf(),
            old(self).highlighted + 1 < old(self).list.todos@.len(),
        ensures
            final(self).wf(),
            rearranged(
                *old(self),
                *final(self),
                swapped(old(self).list.todos@, old(self).highlighted as int, old(self).highlighted + 1),
                old(self).highlighted + 1,
            ),
            final(self).list.todos@.to_multiset() == old(self).list.todos@.to_multiset(),
            final(self).list.todos@[final(self).highlighted as int] == old(self).list.todos@[old(
                self,
            ).highlighted as int],
    {
        proof {
            lemma_swap_same_entries(
                old(self).list.todos@,
                old(self).highlighted as int,
                old(self).highlighted + 1,
            );
        }
        let h = self.highlighted;
        let n = self.list.todos.len();
        assert(h + 1 < n);
        let t = self.list.todos.remove(h);
        self.list.todos.insert(h + 1, t);
        self.highlighted = h + 1;
        assert(self.list.todos@ =~= swapped(old(self).list.todos@, h as int, h + 1));
    }

    fn delete_highlighted(&mut self)
        requires
            old(self).wf(),
            old(self).list.todos@.len() > 0,
        ensures
            final(self).wf(),
            final(self).list.todos@.len() == old(self).list.todos@.len() - 1,
            final(self).list.todos@ == old(self).list.todos@.remove(old(self).highlighted as int),
            final(self).highlighted == clamped_after_delete(
                old(self).highlighted as int,
                final(self).list.todos@.len() as int,
            ),
            final(self).list.name == old(self).list.name,
            final(self).settings == old(self).settings,
            final(self).mode == old(self).mode,
            final(self).flash_pending == old(self).flash_pending,
            final(self).flash_gen == old(self).flash_gen,
    {
        let h = self.highlighted;
        self.list.todos.remove(h);
        if self.list.todos.len() == 0 {
            self.highlighted = 0;
        } else if h == self.list.todos.len() {
            self.highlighted = h - 1;
        }
    }

    fn toggle_highlighted(&mut self)
        requires
            old(self).wf(),
            old(self).list.todos@.len() > 0,
        ensures
            final(self).wf(),
            rearranged(
                *old(self),
                *final(self),
                old(self).list.todos@.update(
                    old(self).highlighted as int,
                    Todo {
                        done: !old(self).list.todos@[old(self).highlighted as int].done,
                        ..old(self).list.todos@[old(self).highlighted as int]
                    },
                ),
                old(self).highlighted as int,
            ),
    {
        let h = self.highlighted;
        let mut t = self.list.todos.remove(h);
        t.toggle();
        self.list.todos.insert(h, t);
        assert(self.list.todos@ =~= old(self).list.todos@.update(
            h as int,
            Todo { done: !old(self).list.todos@[h as int].done, ..old(self).list.todos@[h as int] },
        ));
    }

    fn begin_input(&mut self, op: Operation, height: u16) -> (r: Vec<Effect>)
        requires
            old(self).wf(),
            op == Operation::Create || old(self).list.todos@.len() > 0,
        ensures
            *final(self) == (Panel {
                mode: Mode::AwaitingInput(op),
                flash_pending: false,
                ..*old(self)
            }),
            views(r@) == cancel_steps(*old(self)) + match op {
                Operation::Create => seq![
                    EffectView::SuspendRawMode,
                    EffectView::Write(entry_text("Todo"@, height as nat)),
                ],
                Operation::Update => seq![
                    EffectView::SuspendRawMode,
                    EffectView::Write(
                        entry_text(
                            old(self).list.todos@[old(self).highlighted as int].item@,
                            height as nat,
                        ),
                    ),
                ],
                Operation::Delete => seq![EffectView::Write(confirm_text(height as nat))],
            },
    {
        let mut out = Vec::new();
        self.cancel_flash(&mut out);
        self.mode = Mode::AwaitingInput(op);
        let row: u16 = if height >= 2 {
            height - 2
        } else {
            0
        };
        let ghost start = views(out@);
        match op {
            Operation::Create => {
                emit(&mut out, Effect::SuspendRawMode);
                emit(&mut out, Effect::Write(input("Todo", 1, row)));
                assert(views(out@) =~= start + seq![
                    EffectView::SuspendRawMode,
                    EffectView::Write(entry_text("Todo"@, height as nat)),
                ]);
            },
            Operation::Update => {
                let name = self.list.todos[self.highlighted].item.clone();
                emit(&mut out, Effect::SuspendRawMode);
                emit(&mut out, Effect::Write(input(name.as_str(), 1, row)));
                assert(views(out@) =~= start + seq![
                    EffectView::SuspendRawMode,
                    EffectView::Write(entry_text(name@, height as nat)),
                ]);
            },
            Operation::Delete => {
                let prompt = danger(String::from_str("Are you sure? (y/n)"));
                emit(&mut out, Effect::Write(position(prompt, 1, height)));
                assert(views(out@) =~= start + seq![EffectView::Write(confirm_text(height as nat))]);
            },
        }
        assert(start =~= views(Seq::<Effect>::empty()) + cancel_steps(*old(self)));
        assert(start =~= cancel_steps(*old(self)));
        out
    }

    fn commit(&mut self, op: Operation, text: String, width: u16, height: u16) -> (r: Vec<Effect>)
        requires
            old(self).wf(),
        ensures
            final(self).wf(),
            committed(*old(self), op, text, *final(self)),
            views(r@) == seq![
                EffectView::ActivateRawMode,
                EffectView::Write(
                    clear_all_text() + hide_seq() + redraw_text(*final(self), width as nat, height as nat),
                ),
            ],
    {
        let ghost text_in = text;
        let len = self.list.todos.len();
        let h = self.highlighted;
        match op {
            Operation::Create => {
                let id = self.list.next_id();
                self.list.todos.push(Todo { id, item: text, priority: 0, tags: Vec::new(), done: false });
                assert(self.list.todos@.drop_last() =~= old(self).list.todos@);
            },
            Operation::Update => {
                if len > 0 {
                    let mut t = self.list.todos.remove(h);
                    t.item = text;
                    self.list.todos.insert(h, t);
                    assert(self.list.todos@ =~= old(self).list.todos@.update(
                        h as int,
                        Todo { item: text_in, ..old(self).list.todos@[h as int] },
                    ));
                }
            },
            Operation::Delete => {
                if len > 0 {
                    self.delete_highlighted();
                }
            },
        }
        self.mode = Mode::Idle;
        let mut screen = clear_all();
        screen.append(hide_cursor().as_str());
        screen.append(self.redraw_string(width, height).as_str());
        let mut out = Vec::new();
        emit(&mut out, Effect::ActivateRawMode);
        emit(&mut out, Effect::Write(screen));
        assert(views(out@) =~= seq![
            EffectView::ActivateRawMode,
            EffectView::Write(
                clear_all_text() + hide_seq() + redraw_text(*self, width as nat, height as nat),
            ),
        ]);
        out
    }

    fn clear(&mut self, section: Option<UiSection>, width: u16, height: u16) -> (r: Vec<Effect>)
        ensures
            *final(self) == (Panel { mode: cleared_mode(old(self).mode, section), ..*old(self) }),
            views(r@) == seq![EffectView::Write(section_text(section, width as nat, height as nat))],
    {
        let row: u16 = if height >= 5 {
            height - 5
        } else {
            0
        };
        let mut screen = match section {
            None => clear_all(),
            Some(UiSection::Content) => clear_before(width, row),
            Some(UiSection::Status) => {
                if self.mode == Mode::AwaitingInput(Operation::Delete) {
                    self.mode = Mode::Idle;
                }
                clear_after(width, row)
            },
        };
        screen.append(hide_cursor().as_str());
        let mut out = Vec::new();
        emit(&mut out, Effect::Write(screen));
        assert(views(out@) =~= seq![
            EffectView::Write(section_text(section, width as nat, height as nat)),
        ]);
        out
    }

    /// Shows an input error on the status line. A text entry still open is
    /// given up first: raw mode comes back and the list is drawn again.
    fn report_io_error(&mut self, msg: String, width: u16, height: u16) -> (r: Vec<Effect>)
        requires
            old(self).wf(),
            old(self).mode != Mode::Terminated,
        ensures
            final(self).wf(),
            transition(
                *old(self),
                Event::IoError(msg),
                *final(self),
                views(r@),
                width as nat,
                height as nat,
            ),
    {
        let mut out: Vec<Effect> = Vec::new();
        let ghost start = *self;
        if self.mode == Mode::AwaitingInput(Operation::Create) || self.mode == Mode::AwaitingInput(
            Operation::Update,
        ) {
            self.mode = Mode::Idle;
            let mut screen = clear_all();
            screen.append(hide_cursor().as_str());
            screen.append(self.redraw_string(width, height).as_str());
            emit(&mut out, Effect::ActivateRawMode);
            emit(&mut out, Effect::Write(screen));
            assert(views(out@) =~= seq![
                EffectView::ActivateRawMode,
                EffectView::Write(
                    clear_all_text() + hide_seq() + redraw_text(*self, width as nat, height as nat),
                ),
            ]);
        }
        let ghost before_flash = views(out@);
        let ghost idle = *self;
        let mut text = String::from_str("Unexpected i/o error: ");
        text.append(msg.as_str());
        self.flash(danger(text), height, &mut out);
        proof {
            let rest = cancel_steps(idle) + seq![
                EffectView::Write(
                    position_text(
                        styled(yellow_seq(), "Unexpected i/o error: "@ + msg@),
                        1,
                        height as nat,
                    ),
                ),
                EffectView::ScheduleFlashClear(next_gen(idle.flash_gen)),
            ];
            assert(views(out@) == before_flash + rest);
            if awaiting_text(start.mode) {
                assert(views(out@).take(2) =~= before_flash);
                assert(views(out@).skip(2) =~= rest);
            } else {
                assert(before_flash =~= Seq::<EffectView>::empty());
                assert(views(out@) =~= rest);
            }
        }
        out
    }

    /// Applies one event to the panel and says what the terminal and the rest
    /// of the program must do about it. A terminated panel ignores everything.
    pub fn handle_event(&mut self, event: Event, width: u16, height: u16) -> (r: Vec<Effect>)
        requires
            old(self).wf(),
        ensures
            final(self).wf(),
            old(self).mode == Mode::Terminated ==> *final(self) == *old(self) && r@.len() == 0,
            old(self).mode != Mode::Terminated ==> transition(
                *old(self),
                event,
                *final(self),
                views(r@),
                width as nat,
                height as nat,
            ),
    {
        let mut out: Vec<Effect> = Vec::new();
        assert(views(out@) =~= Seq::<EffectView>::empty());
        if self.mode == Mode::Terminated {
            return out;
        }
        let len = self.list.todos.len();
        let h = self.highlighted;
        match event {
            Event::Redraw => self.redraw(width, height),
            Event::Quit => self.quit(),
            Event::HighlightUp => {
                if h > 0 {
                    self.highlighted = h - 1;
                    self.redraw(width, height)
                } else {
                    out
                }
            },
            Event::HighlightDown => {
                if h + 1 < len {
                    self.highlighted = h + 1;
                    self.redraw(width, height)
                } else {
                    out
                }
            },
            Event::MoveUp => {
                if len >= 2 && h > 0 {
                    self.move_up();
                    self.redraw(width, height)
                } else {
                    out
                }
            },
            Event::MoveDown => {
                if len >= 2 && h + 1 < len {
                    self.move_down();
                    self.redraw(width, height)
                } else {
                    out
                }
            },
            Event::Toggle => {
                if len > 0 {
                    self.toggle_highlighted();
                    self.redraw(width, height)
                } else {
                    out
                }
            },
            Event::Save => {
                emit(&mut out, Effect::Persist);
                assert(views(out@) =~= seq![EffectView::Persist]);
                out
            },
            Event::Input(op) => {
                if op != Operation::Create && len == 0 {
                    out
                } else {
                    self.begin_input(op, height)
                }
            },
            Event::Commit(op, text) => self.commit(op, text, width, height),
            Event::Clear(section) => self.clear(section, width, height),
            Event::KeyPressed(_) => out,
            Event::IoError(msg) => self.report_io_error(msg, width, height),
            Event::FlashExpired(g) => {
                if self.flash_pending && g == self.flash_gen {
                    let row: u16 = if height >= 5 {
                        height - 5
                    } else {
                        0
                    };
                    let mut screen = clear_after(width, row);
                    screen.append(hide_cursor().as_str());
                    self.flash_pending = false;
                    emit(&mut out, Effect::Write(screen));
                    assert(views(out@) =~= seq![
                        EffectView::Write(
                            section_text(Some(UiSection::Status), width as nat, height as nat),
                        ),
                    ]);
                    out
                } else {
                    out
                }
            },
        }
    }

    /// Reports how storing the list went, on the status line.
    pub fn saved(&mut self, result: Result<(), String>, height: u16) -> (r: Vec<Effect>)
        requires
            old(self).wf(),
        ensures
            final(self).wf(),
            old(self).mode == Mode::Terminated ==> *final(self) == *old(self) && r@.len() == 0,
            old(self).mode != Mode::Terminated ==> match result {
                Ok(_) => flashed(
                    *old(self),
                    *final(self),
                    styled(green_seq(), "Successfully saved list"@),
                    views(r@),
                    height as nat,
                ),
                Err(e) => flashed(
                    *old(self),
                    *final(self),
                    styled(yellow_seq(), "Unable to save list: "@ + e@),
                    views(r@),
                    height as nat,
                ),
            },
    {
        let mut out = Vec::new();
        if self.mode == Mode::Terminated {
            return out;
        }
        let text = match result {
            Ok(_) => success(String::from_str("Successfully saved list")),
            Err(e) => {
                let mut t = String::from_str("Unable to save list: ");
                t.append(e.as_str());
                danger(t)
            },
        };
        self.flash(text, height, &mut out);
        out
    }
}

} // verus!
