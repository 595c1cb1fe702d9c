use crate::list::{ListView, StatefulList};
use crate::ticket::{Ticket, TicketView};
use vstd::prelude::*;

verus! {

/// Relies on `String::push` from std: appends the given character to the end
/// of the string.
pub assume_specification[ String::push ](s: &mut String, ch: char)
    ensures
        final(s)@ == old(s)@.push(ch),
;

/// Relies on `String::pop` from std: removes the last character from the
/// string and returns it, or returns `None` when the string is empty.
pub assume_specification[ String::pop ](s: &mut String) -> (r: Option<char>)
    ensures
        old(s)@.len() == 0 ==> r is None && final(s)@ == old(s)@,
        old(s)@.len() > 0 ==> r == Some(old(s)@.last()) && final(s)@ == old(s)@.drop_last(),
;

/// How the controller interprets incoming keys.
#[derive(Clone, Copy, Debug, PartialEq, Eq, Structural)]
pub enum InputMode {
    Normal,
    Editing,
    Navigating,
}

/// A key event, as the terminal layer hands it to the controller: a printable
/// character, one of the named control keys, or anything else as `Other`.
#[derive(Clone, Copy, Debug)]
pub enum Key {
    Char(char),
    Backspace,
    Enter,
    Esc,
    Up,
    Down,
    Left,
    Right,
    Other,
}

/// What the host loop should do after a key has been handled.
#[derive(Clone, Copy, Debug, PartialEq, Eq, Structural)]
pub enum ControlSignal {
    Continue,
    Quit,
}

/// The number of pipeline columns: todo, in-progress, done.
pub const BOARD_COUNT: usize = 3;

/// The ticket a commit creates from the draft title: an empty body and zero
/// points.
pub open spec fn draft_ticket(draft: Seq<char>) -> TicketView {
    TicketView { title: draft, body: Seq::<char>::empty(), points: 0 }
}

/// The abstract state of the whole application: the input mode, the draft
/// title being composed, the three boards and the current-board cursor.
#[verifier::ext_equal]
pub ghost struct AppView {
    pub mode: InputMode,
    pub draft_title: Seq<char>,
    pub boards: Seq<ListView<TicketView>>,
    pub current_board: int,
}

impl AppView {
    /// There are exactly three boards, the cursor points at one of them, and
    /// each board's selection is in range.
    pub open spec fn wf(self) -> bool {
        &&& self.boards.len() == BOARD_COUNT
        &&& 0 <= self.current_board < BOARD_COUNT
        &&& forall|i: int| 0 <= i < self.boards.len() ==> self.boards[i].wf()
    }

    /// The same state in another input mode.
    pub open spec fn with_mode(self, mode: InputMode) -> AppView {
        AppView { mode, ..self }
    }

    /// The same state with one board replaced.
    pub open spec fn with_board(self, i: int, board: ListView<TicketView>) -> AppView {
        AppView { boards: self.boards.update(i, board), ..self }
    }

    /// Committing a ticket: a ticket made from the draft title is appended to
    /// the current board, index 0 of that board is selected, and the draft is
    /// cleared.
    pub open spec fn commit_ticket(self) -> AppView {
        AppView {
            draft_title: Seq::<char>::empty(),
            boards: self.boards.update(
                self.current_board,
                self.boards[self.current_board].push(
                    draft_ticket(self.draft_title),
                ).select_first_if_present(),
            ),
            ..self
        }
    }

    /// Moving to the next board: the outgoing board loses its selection, the
    /// cursor advances cyclically, and the incoming board gets index 0
    /// selected when it has items.
    pub open spec fn advance_board(self) -> AppView {
        let cleared = self.boards.update(
            self.current_board,
            self.boards[self.current_board].unselect(),
        );
        let next = (self.current_board + 1) % (BOARD_COUNT as int);
        AppView {
            boards: cleared.update(next, cleared[next].select_first_if_present()),
            current_board: next,
            ..self
        }
    }
}

/// The transition table of the controller: what one key event does to the
/// state, and whether the host loop should keep running.
///
/// In `Normal` mode, `i` and `m` switch modes, `q` asks to quit, and
/// everything else is ignored. In `Editing` mode, characters extend the
/// draft, `Backspace` shortens it, `Enter` commits a ticket, `Esc` returns to
/// `Normal`, and any other key asks to quit. In `Navigating` mode, `Up` and
/// `Down` move the selection on the current board, `Right` advances to the
/// next board, `Esc` returns to `Normal`, and everything else (including
/// `Left`) is ignored.
pub open spec fn step(pre: AppView, key: Key) -> (AppView, ControlSignal) {
    match pre.mode {
        InputMode::Normal => match key {
            Key::Char(c) => if c == 'i' {
                (pre.with_mode(InputMode::Editing), ControlSignal::Continue)
            } else if c == 'm' {
                (pre.with_mode(InputMode::Navigating), ControlSignal::Continue)
            } else if c == 'q' {
                (pre, ControlSignal::Quit)
            } else {
                (pre, ControlSignal::Continue)
            },
            _ => (pre, ControlSignal::Continue),
        },
        InputMode::Editing => match key {
            Key::Enter => (pre.commit_ticket(), ControlSignal::Continue),
            Key::Char(c) => (
                AppView { draft_title: pre.draft_title.push(c), ..pre },
                ControlSignal::Continue,
            ),
            Key::Backspace => (
                AppView {
                    draft_title: if pre.draft_title.len() == 0 {
                        pre.draft_title
                    } else {
                        pre.draft_title.drop_last()
                    },
                    ..pre
                },
                ControlSignal::Continue,
            ),
            Key::Esc => (pre.with_mode(InputMode::Normal), ControlSignal::Continue),
            _ => (pre, ControlSignal::Quit),
        },
        InputMode::Navigating => match key {
            Key::Esc => (pre.with_mode(InputMode::Normal), ControlSignal::Continue),
            Key::Down => (
                pre.with_board(pre.current_board, pre.boards[pre.current_board].next()),
                ControlSignal::Continue,
            ),
            Key::Up => (
                pre.with_board(pre.current_board, pre.boards[pre.current_board].previous()),
                ControlSignal::Continue,
            ),
            Key::Right => (pre.advance_board(), ControlSignal::Continue),
            _ => (pre, ControlSignal::Continue),
        },
    }
}

/// One board as the renderer sees it: the ticket titles in order and the
/// optional highlighted index.
pub struct BoardSnapshot {
    pub titles: Vec<String>,
    pub selected: Option<usize>,
}

/// Everything the renderer needs for one frame: the mode (which help text to
/// show), the draft text (whose length is the cursor offset in `Editing`
/// mode), and each board's titles and selection.
pub struct RenderSnapshot {
    pub mode: InputMode,
    pub draft_title: String,
    pub boards: Vec<BoardSnapshot>,
}

/// A board snapshot is faithful to a board: the same titles in the same
/// order, and the same selection.
pub open spec fn snapshot_matches_board(snap: BoardSnapshot, board: ListView<TicketView>) -> bool {
    &&& snap.titles@.len() == board.items.len()
    &&& forall|j: int| 0 <= j < board.items.len() ==> snap.titles@[j]@ == board.items[j].title
    &&& match snap.selected {
        Some(k) => board.selected == Some(k as int),
        None => board.selected is None,
    }
}

/// The application controller: three boards of tickets, the input mode, the
/// draft title and the current-board cursor.
pub struct App {
    draft_title: String,
    mode: InputMode,
    boards: Vec<StatefulList<Ticket>>,
    current_board: u8,
}

impl View for App {
    type V = AppView;

    closed spec fn view(&self) -> AppView {
        AppView {
            mode: self.mode,
            draft_title: self.draft_title@,
            boards: self.boards@.map_values(|b: StatefulList<Ticket>| b@),
            current_board: self.current_board as int,
        }
    }
}

impl App {
    /// Creates the controller in `Normal` mode, with an empty draft, three
    /// empty boards and the cursor on board 0.
    pub fn new() -> (app: App)
        ensures
            app@.wf(),
            app@.mode == InputMode::Normal,
            app@.draft_title == Seq::<char>::empty(),
            app@.current_board == 0,
            forall|i: int|
                0 <= i < app@.boards.len() ==> app@.boards[i].items.len() == 0
                    && app@.boards[i].selected is None,
    {
        let mut boards: Vec<StatefulList<Ticket>> = Vec::new();
        boards.push(StatefulList::new());
        boards.push(StatefulList::new());
        boards.push(StatefulList::new());
        let app = App {
            draft_title: String::new(),
            mode: InputMode::Normal,
            boards,
            current_board: 0,
        };
        proof {
            assert forall|i: int| 0 <= i < app@.boards.len() implies app@.boards[i].items.len()
                == 0 && app@.boards[i].selected is None by {
                assert(app@.boards[i] == app.boards@[i]@);
            }
        }
        app
    }

    /// The current input mode.
    pub fn mode(&self) -> (mode: InputMode)
        ensures
            mode == self@.mode,
    {
        self.mode
    }

    /// The draft title being composed; its length is the cursor offset the
    /// renderer uses in `Editing` mode.
    pub fn draft_title(&self) -> (draft: &String)
        ensures
            draft@ == self@.draft_title,
    {
        &self.draft_title
    }

    /// The index of the board that keys currently address.
    pub fn current_board(&self) -> (i: u8)
        ensures
            i as int == self@.current_board,
    {
        self.current_board
    }

    /// A read-only view of one board.
    pub fn board(&self, i: usize) -> (board: &StatefulList<Ticket>)
        requires
            self@.wf(),
            i < BOARD_COUNT,
        ensures
            board@ == self@.boards[i as int],
    {
        &self.boards[i]
    }

    /// A read-only structure for the renderer: the mode, the draft text, and
    /// each board's titles with its selection.
    pub fn render_snapshot(&self) -> (snap: RenderSnapshot)
        requires
            self@.wf(),
        ensures
            snap.mode == self@.mode,
            snap.draft_title@ == self@.draft_title,
            snap.boards@.len() == self@.boards.len(),
            forall|i: int|
                0 <= i < self@.boards.len() ==> snapshot_matches_board(
                    snap.boards@[i],
                    self@.boards[i],
                ),
    {
        let mut boards: Vec<BoardSnapshot> = Vec::new();
        let mut i: usize = 0;
        while i < BOARD_COUNT
            invariant
                self@.wf(),
                i <= BOARD_COUNT,
                boards@.len() == i,
                forall|k: int|
                    0 <= k < i ==> snapshot_matches_board(boards@[k], self@.boards[k]),
            decreases BOARD_COUNT - i,
        {
            let board = self.board(i);
            let count = board.len();
            let mut titles: Vec<String> = Vec::new();
            let mut j: usize = 0;
            while j < count
                invariant
                    count == board@.items.len(),
                    j <= count,
                    titles@.len() == j,
                    forall|k: int| 0 <= k < j ==> titles@[k]@ == board@.items[k].title,
                decreases count - j,
            {
                titles.push(board.get(j).title.clone());
                j += 1;
            }
            boards.push(BoardSnapshot { titles, selected: board.selected() });
            i += 1;
        }
        RenderSnapshot { mode: self.mode(), draft_title: self.draft_title.clone(), boards }
    }

    /// Handles one key event: applies the transition table to the state and
    /// reports whether the host loop should keep running.
    pub fn handle_key(&mut self, key: Key) -> (sig: ControlSignal)
        requires
            old(self)@.wf(),
        ensures
            final(self)@ == step(old(self)@, key).0,
            sig == step(old(self)@, key).1,
            final(self)@.wf(),
    {
        match self.mode {
            InputMode::Normal => {
                let sig = match key {
                    Key::Char(c) => {
                        if c == 'i' {
                            self.mode = InputMode::Editing;
                            ControlSignal::Continue
                        } else if c == 'm' {
                            self.mode = InputMode::Navigating;
                            ControlSignal::Continue
                        } else if c == 'q' {
                            ControlSignal::Quit
                        } else {
                            ControlSignal::Continue
                        }
                    },
                    _ => ControlSignal::Continue,
                };
                proof {
                    assert(self@ =~= step(old(self)@, key).0);
                }
                sig
            },
            InputMode::Editing => {
                match key {
                    Key::Enter => {
                        self.commit_ticket();
                        ControlSignal::Continue
                    },
                    Key::Char(c) => {
                        self.draft_title.push(c);
                        proof {
                            assert(self@ =~= step(old(self)@, key).0);
                        }
                        ControlSignal::Continue
                    },
                    Key::Backspace => {
                        self.draft_title.pop();
                        proof {
                            assert(self@ =~= step(old(self)@, key).0);
                        }
                        ControlSignal::Continue
                    },
                    Key::Esc => {
                        self.mode = InputMode::Normal;
                        proof {
                            assert(self@ =~= step(old(self)@, key).0);
                        }
                        ControlSignal::Continue
                    },
                    _ => ControlSignal::Quit,
                }
            },
            InputMode::Navigating => {
                match key {
                    Key::Esc => {
                        self.mode = InputMode::Normal;
                        proof {
                            assert(self@ =~= step(old(self)@, key).0);
                        }
                        ControlSignal::Continue
                    },
                    Key::Down => {
                        let idx = self.current_board as usize;
                        let board = &mut self.boards[idx];
                        board.next();
                        proof {
                            assert(self@.boards =~= old(self)@.boards.update(
                                idx as int,
                                old(self)@.boards[idx as int].next(),
                            ));
                            assert(self@ =~= step(old(self)@, key).0);
                        }
                        ControlSignal::Continue
                    },
                    Key::Up => {
                        let idx = self.current_board as usize;
                        let board = &mut self.boards[idx];
                        board.previous();
                        proof {
                            assert(self@.boards =~= old(self)@.boards.update(
                                idx as int,
                                old(self)@.boards[idx as int].previous(),
                            ));
                            assert(self@ =~= step(old(self)@, key).0);
                        }
                        ControlSignal::Continue
                    },
                    Key::Right => {
                        let idx = self.current_board as usize;
                        let board = &mut self.boards[idx];
                        board.unselect();
                        let next = if self.current_board >= 2 {
                            0
                        } else {
                            self.current_board + 1
                        };
                        self.current_board = next;
                        let next_idx = next as usize;
                        let incoming = &mut self.boards[next_idx];
                        incoming.select_first_if_present();
                        proof {
                            let cleared = old(self)@.boards.update(
                                idx as int,
                                old(self)@.boards[idx as int].unselect(),
                            );
                            assert(next as int == (old(self)@.current_board + 1) % (
                            BOARD_COUNT as int));
                            assert(self@.boards =~= cleared.update(
                                next_idx as int,
                                cleared[next_idx as int].select_first_if_present(),
                            ));
                            assert(self@ =~= step(old(self)@, key).0);
                        }
                        ControlSignal::Continue
                    },
                    _ => ControlSignal::Continue,
                }
            },
        }
    }

    /// Commits the draft as a new ticket on the current board: the ticket is
    /// appended, index 0 of that board is selected, and the draft is cleared.
    fn commit_ticket(&mut self)
        requires
            old(self)@.wf(),
        ensures
            final(self)@ == old(self)@.commit_ticket(),
    {
        let title = self.draft_title.clone();
        let idx = self.current_board as usize;
        let board = &mut self.boards[idx];
        let ticket = Ticket::new(title);
        proof {
            assert(ticket@ =~= draft_ticket(old(self)@.draft_title));
        }
        board.push(ticket);
        board.select_first_if_present();
        self.draft_title = String::new();
        proof {
            assert(self@.boards =~= old(self)@.boards.update(
                idx as int,
                old(self)@.boards[idx as int].push(
                    draft_ticket(old(self)@.draft_title),
                ).select_first_if_present(),
            ));
            assert(self@ =~= old(self)@.commit_ticket());
        }
    }
}

/// After a commit the draft title is always empty, whatever it held before:
/// pressing `Enter` in `Editing` mode clears the draft.
pub proof fn lemma_commit_clears_draft(pre: AppView)
    requires
        pre.wf(),
        pre.mode == InputMode::Editing,
    ensures
        step(pre, Key::Enter).0.draft_title == Seq::<char>::empty(),
{
}

/// Every key event preserves well-formedness: the board count, the cursor
/// range and each board's selection invariant survive any transition.
pub proof fn lemma_step_preserves_wf(pre: AppView, key: Key)
    requires
        pre.wf(),
    ensures
        step(pre, key).0.wf(),
{
}

} // verus!
