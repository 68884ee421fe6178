//! The session state machine: one bundle holding the edit buffer, the recall
//! history, the completion menu and the displayed directory segment, with one
//! transition per key. The surrounding loop renders, reads one key, routes it
//! here, and performs whatever directive a confirmed line yields.

use crate::buffer::EditState;
use crate::completion;
use crate::completion::{Candidate, CompletionState, Scope};
use crate::dispatch;
use crate::dispatch::Directive;
use crate::history::HistoryCache;
use crate::text;
use vstd::prelude::*;

verus! {

/// Everything the session owns between two keystrokes.
pub struct Shell {
    pub edit: EditState,
    pub history: HistoryCache,
    pub completion: CompletionState,
    /// The last path segment of the working directory, as the prompt shows it.
    pub display_dir: Vec<char>,
}

impl Shell {
    /// Every component invariant at once.
    pub open spec fn wf(self) -> bool {
        self.edit.wf() && self.history.wf() && self.completion.wf()
    }

    /// A fresh session: empty line, empty history, no menu.
    pub fn new(display_dir: Vec<char>) -> (r: Shell)
        ensures
            r.wf(),
            r.edit.buffer@.len() == 0,
            r.edit.cursor == 0,
            r.edit.suggestion@.len() == 0,
            r.history.entries@.len() == 0,
            r.history.browse_index == 0,
            !r.completion.menu_visible,
            !r.completion.highlighting,
            r.completion.highlighted_index == 0,
            r.display_dir@ == display_dir@,
    {
        Shell {
            edit: EditState::new(),
            history: HistoryCache::new(),
            completion: CompletionState::new(),
            display_dir,
        }
    }

    /// A printable key: the character enters the buffer at the cursor, and —
    /// being a structural edit — any visible menu closes with its highlight
    /// reset.
    pub fn on_char(&mut self, c: char)
        requires
            old(self).wf(),
        ensures
            final(self).wf(),
            final(self).edit.buffer@ == old(self).edit.buffer@.insert(old(self).edit.cursor as int, c),
            final(self).edit.cursor == old(self).edit.cursor + 1,
            final(self).edit.suggestion@ == old(self).edit.suggestion@,
            !final(self).completion.menu_visible,
            !final(self).completion.highlighting,
            final(self).completion.highlighted_index == 0,
            final(self).history == old(self).history,
            final(self).display_dir == old(self).display_dir,
    {
        self.edit.insert(c);
        self.completion.close();
    }

    /// The erase key: the character before the cursor goes, a cursor at the
    /// start of the line erases nothing, and — being a structural edit — any
    /// visible menu closes with its highlight reset.
    pub fn on_backspace(&mut self)
        requires
            old(self).wf(),
        ensures
            final(self).wf(),
            old(self).edit.cursor == 0 ==> final(self).edit == old(self).edit,
            old(self).edit.cursor > 0 ==> final(self).edit.buffer@ == old(self).edit.buffer@.remove(old(self).edit.cursor - 1),
            old(self).edit.cursor > 0 ==> final(self).edit.cursor == old(self).edit.cursor - 1,
            final(self).edit.suggestion@ == old(self).edit.suggestion@,
            !final(self).completion.menu_visible,
            !final(self).completion.highlighting,
            final(self).completion.highlighted_index == 0,
            final(self).history == old(self).history,
            final(self).display_dir == old(self).display_dir,
    {
        self.edit.delete_before_cursor();
        self.completion.close();
    }

    /// The left arrow: the cursor steps back, clamped at the line's start.
    pub fn on_left(&mut self)
        requires
            old(self).wf(),
        ensures
            final(self).wf(),
            final(self).edit.buffer@ == old(self).edit.buffer@,
            final(self).edit.suggestion@ == old(self).edit.suggestion@,
            final(self).edit.cursor == if old(self).edit.cursor > 0 {
                (old(self).edit.cursor - 1) as usize
            } else {
                0usize
            },
            final(self).completion == old(self).completion,
            final(self).history == old(self).history,
            final(self).display_dir == old(self).display_dir,
    {
        self.edit.move_left();
    }

    /// The right arrow: inside the line the cursor advances; at its end the
    /// key accepts the pending suggestion into the buffer instead.
    pub fn on_right(&mut self)
        requires
            old(self).wf(),
        ensures
            final(self).wf(),
            old(self).edit.cursor < old(self).edit.buffer@.len() ==> final(self).edit.buffer@ == old(self).edit.buffer@ && final(self).edit.cursor == old(self).edit.cursor + 1 && final(self).edit.suggestion@ == old(self).edit.suggestion@,
            old(self).edit.cursor == old(self).edit.buffer@.len() ==> final(self).edit.buffer@ == old(self).edit.buffer@ + old(self).edit.suggestion@ && final(self).edit.cursor == final(self).edit.buffer@.len() && final(self).edit.suggestion@.len() == 0,
            final(self).completion == old(self).completion,
            final(self).history == old(self).history,
            final(self).display_dir == old(self).display_dir,
    {
        self.edit.move_right();
    }

    /// The up arrow: recalls the next older history entry into the buffer
    /// with the cursor at its end, or does nothing at the oldest entry.
    pub fn on_up(&mut self)
        requires
            old(self).wf(),
        ensures
            final(self).wf(),
            final(self).history.entries@ == old(self).history.entries@,
            old(self).history.browse_index < old(self).history.entries@.len() ==> final(self).history.browse_index == old(self).history.browse_index + 1 && final(self).edit.buffer@ == old(self).history.entries@[old(self).history.browse_index as int]@ && final(self).edit.cursor == final(self).edit.buffer@.len() && final(self).edit.suggestion@.len() == 0,
            old(self).history.browse_index >= old(self).history.entries@.len() ==> final(self).history.browse_index == old(self).history.browse_index && final(self).edit == old(self).edit,
            final(self).completion == old(self).completion,
            final(self).display_dir == old(self).display_dir,
    {
        match self.history.move_up() {
            Some(t) => self.edit.replace(t),
            None => (),
        }
    }

    /// The down arrow: steps back toward the present — from the most recent
    /// entry it clears the line and leaves browsing, while not browsing it
    /// does nothing.
    pub fn on_down(&mut self)
        requires
            old(self).wf(),
        ensures
            final(self).wf(),
            final(self).history.entries@ == old(self).history.entries@,
            old(self).history.browse_index == 0 ==> final(self).history.browse_index == 0 && final(self).edit == old(self).edit,
            old(self).history.browse_index == 1 ==> final(self).history.browse_index == 0 && final(self).edit.buffer@.len() == 0 && final(self).edit.cursor == 0 && final(self).edit.suggestion@.len() == 0,
            old(self).history.browse_index > 1 ==> final(self).history.browse_index == old(self).history.browse_index - 1 && final(self).edit.buffer@ == old(self).history.entries@[old(self).history.browse_index - 2]@ && final(self).edit.cursor == final(self).edit.buffer@.len() && final(self).edit.suggestion@.len() == 0,
            final(self).completion == old(self).completion,
            final(self).display_dir == old(self).display_dir,
    {
        match self.history.move_down() {
            Some(t) => self.edit.replace(t),
            None => (),
        }
    }

    /// The completion key: closes an empty menu, opens a closed one, then
    /// begins and advances the highlight cyclically (see
    /// `CompletionState::cycle`).
    pub fn on_tab(&mut self, candidate_count: usize)
        requires
            old(self).wf(),
        ensures
            final(self).wf(),
            final(self).edit == old(self).edit,
            final(self).history == old(self).history,
            final(self).display_dir == old(self).display_dir,
            candidate_count == 0 ==> !final(self).completion.menu_visible && !final(self).completion.highlighting && final(self).completion.highlighted_index == 0,
            candidate_count > 0 && !old(self).completion.menu_visible ==> final(self).completion.menu_visible && !final(self).completion.highlighting && final(self).completion.highlighted_index == 0,
            candidate_count > 0 && old(self).completion.menu_visible && !old(self).completion.highlighting ==> final(self).completion.menu_visible && final(self).completion.highlighting && final(self).completion.highlighted_index == old(self).completion.highlighted_index,
            candidate_count > 0 && old(self).completion.menu_visible && old(self).completion.highlighting ==> final(self).completion.menu_visible && final(self).completion.highlighting && final(self).completion.highlighted_index == if old(self).completion.highlighted_index + 1 >= candidate_count {
                0usize
            } else {
                (old(self).completion.highlighted_index + 1) as usize
            },
    {
        self.completion.cycle(candidate_count);
    }

    /// Reconciles the menu with the candidates recomputed on this tick,
    /// before they are drawn: an empty list closes the menu, a highlight
    /// past the count wraps to the first entry.
    pub fn begin_tick(&mut self, candidate_count: usize)
        requires
            old(self).wf(),
        ensures
            final(self).wf(),
            final(self).edit == old(self).edit,
            final(self).history == old(self).history,
            final(self).display_dir == old(self).display_dir,
            old(self).completion.menu_visible && candidate_count == 0 ==> !final(self).completion.menu_visible && !final(self).completion.highlighting && final(self).completion.highlighted_index == 0,
            old(self).completion.menu_visible && candidate_count > 0 ==> final(self).completion.menu_visible && final(self).completion.highlighting == old(self).completion.highlighting && final(self).completion.highlighted_index == if old(self).completion.highlighted_index >= candidate_count {
                0usize
            } else {
                old(self).completion.highlighted_index
            },
            !old(self).completion.menu_visible ==> final(self).completion == old(self).completion,
    {
        self.completion.sync_with(candidate_count);
    }

    /// Whether an inline suggestion is due at all: only a line holding some
    /// non-whitespace character, with the cursor at its end, gets one — a
    /// blank line has no token to complete.
    pub fn wants_suggestion(&self) -> (r: bool)
        ensures
            r == (self.edit.buffer@.len() > 0 && self.edit.cursor == self.edit.buffer@.len()
                && text::has_content(self.edit.buffer@)),
    {
        self.edit.buffer.len() > 0 && self.edit.cursor == self.edit.buffer.len()
            && text::contains_content(&self.edit.buffer)
    }

    /// Where the listing for the inline suggestion comes from: the search
    /// path in command position, otherwise the trailing token's directory.
    pub fn suggestion_scope(&self) -> (r: Scope)
        ensures
            completion::command_position(self.edit.buffer@) ==> r is SearchPath,
            !completion::command_position(self.edit.buffer@) ==> (r matches Scope::Directory(d)
                && d@ == completion::scope_dir(self.edit.buffer@)),
    {
        completion::compute_scope(&self.edit.buffer)
    }

    /// The directory the candidate menu lists: always the trailing token's
    /// directory — the menu never consults the search path.
    pub fn menu_dir(&self) -> (r: Vec<char>)
        ensures
            r@ == completion::scope_dir(self.edit.buffer@),
    {
        completion::scope_dir_of(&self.edit.buffer)
    }

    /// The typed prefix that menu candidates are matched against and that
    /// the renderer splits their names at.
    pub fn menu_prefix(&self) -> (r: Vec<char>)
        ensures
            r@ == completion::typed_prefix(self.edit.buffer@),
    {
        completion::typed_prefix_of(&self.edit.buffer)
    }

    /// Whether the state is one an inline suggestion is shown in: the cursor
    /// at the end of a line holding some non-whitespace character.
    pub open spec fn suggestion_due(self) -> bool {
        self.edit.cursor == self.edit.buffer@.len() && text::has_content(self.edit.buffer@)
    }

    /// Stores the inline suggestion computed from `entries`: what remains of
    /// the lexicographically smallest matching name past the typed prefix,
    /// with a separator appended for a directory; nothing matching, nothing
    /// shown. On a line where no suggestion is due — blank, or with the
    /// cursor away from the end — the suggestion is cleared whatever
    /// `entries` hold.
    pub fn set_suggestion(&mut self, entries: &Vec<Candidate>)
        requires
            old(self).wf(),
        ensures
            final(self).wf(),
            final(self).edit.buffer@ == old(self).edit.buffer@,
            final(self).edit.cursor == old(self).edit.cursor,
            final(self).completion == old(self).completion,
            final(self).history == old(self).history,
            final(self).display_dir == old(self).display_dir,
            !old(self).suggestion_due() ==> final(self).edit.suggestion@.len() == 0,
            old(self).suggestion_due() && (forall|i: int|
                !completion::matches_at(
                    entries@,
                    completion::typed_prefix(old(self).edit.buffer@),
                    i,
                )) ==> final(self).edit.suggestion@.len() == 0,
            old(self).suggestion_due() && (exists|i: int|
                completion::matches_at(
                    entries@,
                    completion::typed_prefix(old(self).edit.buffer@),
                    i,
                )) ==> exists|j: int|
                completion::is_best_at(
                    entries@,
                    completion::typed_prefix(old(self).edit.buffer@),
                    j,
                ),
            old(self).suggestion_due() ==> forall|j: int|
                completion::is_best_at(
                    entries@,
                    completion::typed_prefix(old(self).edit.buffer@),
                    j,
                ) ==> final(self).edit.suggestion@ == completion::remainder_at(
                    entries@,
                    completion::typed_prefix(old(self).edit.buffer@),
                    j,
                ),
    {
        if self.edit.cursor == self.edit.buffer.len() && text::contains_content(&self.edit.buffer)
        {
            let prefix = completion::typed_prefix_of(&self.edit.buffer);
            let s = completion::suggestion_for(&prefix, entries);
            self.edit.suggestion = s;
        } else {
            self.edit.suggestion = Vec::new();
        }
    }

    /// Drops the inline suggestion: the state while the cursor is away from
    /// the end of the line or the line is empty.
    pub fn clear_suggestion(&mut self)
        requires
            old(self).wf(),
        ensures
            final(self).wf(),
            final(self).edit.buffer@ == old(self).edit.buffer@,
            final(self).edit.cursor == old(self).edit.cursor,
            final(self).edit.suggestion@.len() == 0,
            final(self).completion == old(self).completion,
            final(self).history == old(self).history,
            final(self).display_dir == old(self).display_dir,
    {
        self.edit.suggestion = Vec::new();
    }

    /// The confirm key. While the menu is open it accepts the highlighted
    /// candidate — the typed prefix is replaced by the candidate's name, the
    /// cursor lands at the end, menu and suggestion go away — and yields no
    /// directive; a highlight out of the list's bounds falls back to its
    /// first entry, and an empty list only closes the menu. With the menu
    /// closed the line is confirmed: it is recorded in the history, read as
    /// a directive, and the line, suggestion, menu and browsing all reset.
    pub fn on_enter(&mut self, candidates: &Vec<Vec<char>>) -> (d: Option<Directive>)
        requires
            old(self).wf(),
        ensures
            final(self).wf(),
            final(self).display_dir == old(self).display_dir,
            !final(self).completion.menu_visible,
            !final(self).completion.highlighting,
            final(self).completion.highlighted_index == 0,
            old(self).completion.menu_visible ==> d is None && final(self).history == old(self).history,
            old(self).completion.menu_visible && candidates@.len() == 0 ==> final(self).edit == old(self).edit,
            old(self).completion.menu_visible && candidates@.len() > 0 ==> final(self).edit.buffer@ == old(self).edit.buffer@.subrange(0, completion::seg_start(old(self).edit.buffer@)) + candidates@[if old(self).completion.highlighted_index < candidates@.len() {
                old(self).completion.highlighted_index as int
            } else {
                0int
            }]@ && final(self).edit.cursor == final(self).edit.buffer@.len() && final(self).edit.suggestion@.len() == 0,
            !old(self).completion.menu_visible ==> final(self).edit.buffer@.len() == 0 && final(self).edit.cursor == 0 && final(self).edit.suggestion@.len() == 0 && final(self).history.browse_index == 0,
            !old(self).completion.menu_visible ==> (old(self).edit.buffer@.len() > 0 || old(self).history.entries@.len() == 0 ==> final(self).history.entries@.len() == old(self).history.entries@.len() + 1 && final(self).history.entries@[0]@ == old(self).edit.buffer@ && final(self).history.entries@.skip(1) == old(self).history.entries@),
            !old(self).completion.menu_visible ==> (!(old(self).edit.buffer@.len() > 0 || old(self).history.entries@.len() == 0) ==> final(self).history.entries@ == old(self).history.entries@),
            !old(self).completion.menu_visible ==> (d matches Some(dir) && (tokens(*old(self)).len() == 0 <==> dir is Empty) && (tokens(*old(self)).len() > 0 && tokens(*old(self))[0] == dispatch::exit_word() ==> dir is Exit) && (dir is Exit ==> tokens(*old(self)).len() > 0 && tokens(*old(self))[0] == dispatch::exit_word()) && (tokens(*old(self)).len() > 0 && tokens(*old(self))[0] == dispatch::cd_word() ==> (dir matches Directive::ChangeDir(p) && p@ == if tokens(*old(self)).len() > 1 {
                tokens(*old(self))[1]
            } else {
                dispatch::root_word()
            })) && (tokens(*old(self)).len() > 0 && tokens(*old(self))[0] != dispatch::exit_word() && tokens(*old(self))[0] != dispatch::cd_word() ==> (dir matches Directive::Spawn { program, args } && program@ == tokens(*old(self))[0] && args@.len() == tokens(*old(self)).len() - 1 && forall|k: int| 0 <= k < args@.len() ==> args@[k]@ == #[trigger] tokens(*old(self))[k + 1]))),
    {
        if self.completion.menu_visible {
            if candidates.len() > 0 {
                let chosen: usize = if self.completion.highlighted_index < candidates.len() {
                    self.completion.highlighted_index
                } else {
                    0
                };
                let line = completion::accept_line(&self.edit.buffer, &candidates[chosen]);
                self.edit.replace(line);
            }
            self.completion.close();
            None
        } else {
            let line = text::copy_chars(&self.edit.buffer);
            let d = dispatch::parse_line(&self.edit.buffer);
            self.history.record(line);
            self.edit = EditState::new();
            self.completion.close();
            Some(d)
        }
    }

    /// The working-directory segment shown in the prompt, refreshed after a
    /// change of directory. A failed change hands in nothing and the whole
    /// state — the displayed segment included — stays as it was; a
    /// successful one hands in the new working directory's path, whose last
    /// `/`-separated segment the prompt takes over.
    pub fn after_cd(&mut self, new_cwd: Option<Vec<char>>)
        requires
            old(self).wf(),
        ensures
            final(self).wf(),
            new_cwd is None ==> *final(self) == *old(self),
            final(self).edit == old(self).edit,
            final(self).history == old(self).history,
            final(self).completion == old(self).completion,
            new_cwd matches Some(p) ==> final(self).display_dir@ == p@.skip(
                text::cut_start(p@, false, true),
            ),
    {
        match new_cwd {
            None => (),
            Some(p) => {
                let cut = text::find_cut_start(&p, false, true);
                self.display_dir = text::tail_from(&p, cut);
            },
        }
    }
}

/// One keystroke, as the terminal adapter reports it.
pub enum KeyEvent {
    Char(char),
    Tab,
    Backspace,
    Enter,
    ArrowUp,
    ArrowDown,
    ArrowLeft,
    ArrowRight,
    /// Any key the session does not react to.
    Other,
}

impl Shell {
    /// Routes one keystroke: inserts a character, erases, moves the cursor,
    /// browses the history, cycles the menu, or confirms. `candidates` are
    /// this tick's menu names, as they were drawn; only a confirm with the
    /// menu closed yields a directive. Each arm keeps exactly the contract
    /// of the matching single-key operation.
    pub fn on_key(&mut self, key: KeyEvent, candidates: &Vec<Vec<char>>) -> (d: Option<Directive>)
        requires
            old(self).wf(),
        ensures
            final(self).wf(),
            final(self).display_dir == old(self).display_dir,
            !(key is Enter) ==> d is None,
            key is Char || key is Backspace || key is Tab || key is ArrowLeft || key is ArrowRight ==> final(self).history == old(self).history,
            key matches KeyEvent::Char(c) ==> final(self).edit.buffer@ == old(self).edit.buffer@.insert(old(self).edit.cursor as int, c) && final(self).edit.cursor == old(self).edit.cursor + 1 && final(self).edit.suggestion@ == old(self).edit.suggestion@ && !final(self).completion.menu_visible && !final(self).completion.highlighting && final(self).completion.highlighted_index == 0,
            key is Backspace ==> (old(self).edit.cursor == 0 ==> final(self).edit == old(self).edit) && (old(self).edit.cursor > 0 ==> final(self).edit.buffer@ == old(self).edit.buffer@.remove(old(self).edit.cursor - 1) && final(self).edit.cursor == old(self).edit.cursor - 1) && final(self).edit.suggestion@ == old(self).edit.suggestion@ && !final(self).completion.menu_visible && !final(self).completion.highlighting && final(self).completion.highlighted_index == 0,
            key is ArrowLeft ==> final(self).edit.buffer@ == old(self).edit.buffer@ && final(self).edit.suggestion@ == old(self).edit.suggestion@ && final(self).edit.cursor == if old(self).edit.cursor > 0 {
                (old(self).edit.cursor - 1) as usize
            } else {
                0usize
            } && final(self).completion == old(self).completion,
            key is ArrowRight && old(self).edit.cursor < old(self).edit.buffer@.len() ==> final(self).edit.buffer@ == old(self).edit.buffer@ && final(self).edit.cursor == old(self).edit.cursor + 1 && final(self).edit.suggestion@ == old(self).edit.suggestion@ && final(self).completion == old(self).completion,
            key is ArrowRight && old(self).edit.cursor == old(self).edit.buffer@.len() ==> final(self).edit.buffer@ == old(self).edit.buffer@ + old(self).edit.suggestion@ && final(self).edit.cursor == final(self).edit.buffer@.len() && final(self).edit.suggestion@.len() == 0 && final(self).completion == old(self).completion,
            key is ArrowUp ==> final(self).history.entries@ == old(self).history.entries@ && final(self).completion == old(self).completion && (old(self).history.browse_index < old(self).history.entries@.len() ==> final(self).history.browse_index == old(self).history.browse_index + 1 && final(self).edit.buffer@ == old(self).history.entries@[old(self).history.browse_index as int]@ && final(self).edit.cursor == final(self).edit.buffer@.len()) && (old(self).history.browse_index >= old(self).history.entries@.len() ==> final(self).history.browse_index == old(self).history.browse_index && final(self).edit == old(self).edit),
            key is ArrowDown ==> final(self).history.entries@ == old(self).history.entries@ && final(self).completion == old(self).completion && (old(self).history.browse_index == 0 ==> final(self).history.browse_index == 0 && final(self).edit == old(self).edit) && (old(self).history.browse_index == 1 ==> final(self).history.browse_index == 0 && final(self).edit.buffer@.len() == 0 && final(self).edit.cursor == 0) && (old(self).history.browse_index > 1 ==> final(self).history.browse_index == old(self).history.browse_index - 1 && final(self).edit.buffer@ == old(self).history.entries@[old(self).history.browse_index - 2]@ && final(self).edit.cursor == final(self).edit.buffer@.len()),
            key is Tab ==> final(self).edit == old(self).edit && (candidates@.len() == 0 ==> !final(self).completion.menu_visible && !final(self).completion.highlighting && final(self).completion.highlighted_index == 0) && (candidates@.len() > 0 && !old(self).completion.menu_visible ==> final(self).completion.menu_visible && !final(self).completion.highlighting && final(self).completion.highlighted_index == 0) && (candidates@.len() > 0 && old(self).completion.menu_visible && !old(self).completion.highlighting ==> final(self).completion.menu_visible && final(self).completion.highlighting && final(self).completion.highlighted_index == old(self).completion.highlighted_index) && (candidates@.len() > 0 && old(self).completion.menu_visible && old(self).completion.highlighting ==> final(self).completion.menu_visible && final(self).completion.highlighting && final(self).completion.highlighted_index == if old(self).completion.highlighted_index + 1 >= candidates@.len() {
                0usize
            } else {
                (old(self).completion.highlighted_index + 1) as usize
            }),
            key is Enter ==> !final(self).completion.menu_visible && !final(self).completion.highlighting && final(self).completion.highlighted_index == 0,
            key is Enter && old(self).completion.menu_visible ==> d is None && final(self).history == old(self).history,
            key is Enter && old(self).completion.menu_visible && candidates@.len() == 0 ==> final(self).edit == old(self).edit,
            key is Enter && old(self).completion.menu_visible && candidates@.len() > 0 ==> final(self).edit.buffer@ == old(self).edit.buffer@.subrange(0, completion::seg_start(old(self).edit.buffer@)) + candidates@[if old(self).completion.highlighted_index < candidates@.len() {
                old(self).completion.highlighted_index as int
            } else {
                0int
            }]@ && final(self).edit.cursor == final(self).edit.buffer@.len() && final(self).edit.suggestion@.len() == 0,
            key is Enter && !old(self).completion.menu_visible ==> final(self).edit.buffer@.len() == 0 && final(self).edit.cursor == 0 && final(self).edit.suggestion@.len() == 0 && final(self).history.browse_index == 0,
            key is Enter && !old(self).completion.menu_visible ==> (old(self).edit.buffer@.len() > 0 || old(self).history.entries@.len() == 0 ==> final(self).history.entries@.len() == old(self).history.entries@.len() + 1 && final(self).history.entries@[0]@ == old(self).edit.buffer@ && final(self).history.entries@.skip(1) == old(self).history.entries@),
            key is Enter && !old(self).completion.menu_visible ==> (!(old(self).edit.buffer@.len() > 0 || old(self).history.entries@.len() == 0) ==> final(self).history.entries@ == old(self).history.entries@),
            key is Enter && !old(self).completion.menu_visible ==> (d matches Some(dir) && (tokens(*old(self)).len() == 0 <==> dir is Empty) && (tokens(*old(self)).len() > 0 && tokens(*old(self))[0] == dispatch::exit_word() ==> dir is Exit) && (dir is Exit ==> tokens(*old(self)).len() > 0 && tokens(*old(self))[0] == dispatch::exit_word()) && (tokens(*old(self)).len() > 0 && tokens(*old(self))[0] == dispatch::cd_word() ==> (dir matches Directive::ChangeDir(p) && p@ == if tokens(*old(self)).len() > 1 {
                tokens(*old(self))[1]
            } else {
                dispatch::root_word()
            })) && (tokens(*old(self)).len() > 0 && tokens(*old(self))[0] != dispatch::exit_word() && tokens(*old(self))[0] != dispatch::cd_word() ==> (dir matches Directive::Spawn { program, args } && program@ == tokens(*old(self))[0] && args@.len() == tokens(*old(self)).len() - 1 && forall|k: int| 0 <= k < args@.len() ==> args@[k]@ == #[trigger] tokens(*old(self))[k + 1]))),
            key is Other ==> *final(self) == *old(self) && d is None,
    {
        match key {
            KeyEvent::Char(c) => {
                self.on_char(c);
                None
            },
            KeyEvent::Tab => {
                self.on_tab(candidates.len());
                None
            },
            KeyEvent::Backspace => {
                self.on_backspace();
                None
            },
            KeyEvent::Enter => self.on_enter(candidates),
            KeyEvent::ArrowUp => {
                self.on_up();
                None
            },
            KeyEvent::ArrowDown => {
                self.on_down();
                None
            },
            KeyEvent::ArrowLeft => {
                self.on_left();
                None
            },
            KeyEvent::ArrowRight => {
                self.on_right();
                None
            },
            KeyEvent::Other => None,
        }
    }
}

/// The tokens of the line held by a shell state: shorthand for the
/// dispatcher's reading of its buffer.
pub open spec fn tokens(s: Shell) -> Seq<Seq<char>> {
    dispatch::tokens_of(s.edit.buffer@)
}

} // verus!
