//! The speculative session controller.
//!
//! It owns the one committed evaluator and an in-progress line (a buffer of
//! characters with a cursor).  Every preview runs the whole current line
//! against a throwaway copy of the committed evaluator; only a commit
//! promotes such a copy to be the new committed evaluator.

use vstd::prelude::*;

use crate::eval::{res_matches, run_res, run_stack, ErrV};
use crate::interpreter::{display_of, Interpreter};
use crate::tokens::tokenize;

verus! {

/// One logical key event of the editing session.
#[derive(Clone, Copy, PartialEq, Eq, Structural, Debug)]
pub enum Key {
    /// Insert a character at the cursor.
    Char(char),
    /// Remove the character left of the cursor.
    Backspace,
    /// Move the cursor one place left.
    Left,
    /// Move the cursor one place right.
    Right,
    /// Move the cursor to the start of the line.
    Home,
    /// Move the cursor past the end of the line.
    End,
    /// Remove everything left of the cursor.
    KillToStart,
    /// Remove everything at and right of the cursor.
    KillToEnd,
    /// Run the line against the committed evaluator and keep the outcome.
    Commit,
    /// End the session.
    Interrupt,
}

/// The mathematical state of a session: the committed stack, the edit
/// buffer, and the cursor offset into it.
pub struct SessionModel {
    pub committed: Seq<i32>,
    pub buffer: Seq<char>,
    pub cursor: int,
}

/// The cursor stays within the buffer.
pub open spec fn session_wf(m: SessionModel) -> bool {
    0 <= m.cursor <= m.buffer.len()
}

/// What one key event does to a session.  Only `Commit` ever changes the
/// committed stack; every other key edits the buffer or moves the cursor.
pub open spec fn step_session(m: SessionModel, k: Key) -> SessionModel {
    match k {
        Key::Char(c) => SessionModel {
            committed: m.committed,
            buffer: m.buffer.insert(m.cursor, c),
            cursor: m.cursor + 1,
        },
        Key::Backspace => if m.cursor > 0 {
            SessionModel {
                committed: m.committed,
                buffer: m.buffer.remove(m.cursor - 1),
                cursor: m.cursor - 1,
            }
        } else {
            m
        },
        Key::Left => SessionModel {
            committed: m.committed,
            buffer: m.buffer,
            cursor: if m.cursor > 0 {
                m.cursor - 1
            } else {
                0
            },
        },
        Key::Right => SessionModel {
            committed: m.committed,
            buffer: m.buffer,
            cursor: if m.cursor < m.buffer.len() {
                m.cursor + 1
            } else {
                m.buffer.len() as int
            },
        },
        Key::Home => SessionModel { committed: m.committed, buffer: m.buffer, cursor: 0 },
        Key::End => SessionModel {
            committed: m.committed,
            buffer: m.buffer,
            cursor: m.buffer.len() as int,
        },
        Key::KillToStart => SessionModel {
            committed: m.committed,
            buffer: m.buffer.skip(m.cursor),
            cursor: 0,
        },
        Key::KillToEnd => SessionModel {
            committed: m.committed,
            buffer: m.buffer.take(m.cursor),
            cursor: m.cursor,
        },
        Key::Commit => SessionModel {
            committed: run_stack(m.committed, tokenize(m.buffer)),
            buffer: Seq::empty(),
            cursor: 0,
        },
        Key::Interrupt => m,
    }
}

/// The session after a whole sequence of key events.
pub open spec fn apply_keys(m: SessionModel, ks: Seq<Key>) -> SessionModel
    decreases ks.len(),
{
    if ks.len() == 0 {
        m
    } else {
        apply_keys(step_session(m, ks[0]), ks.drop_first())
    }
}

/// What a preview of a session shows: the stack display and the line result
/// that running the buffer against a copy of the committed stack would give.
pub open spec fn preview_of(m: SessionModel) -> (Seq<char>, Result<Seq<char>, ErrV>) {
    (
        display_of(run_stack(m.committed, tokenize(m.buffer))),
        run_res(m.committed, tokenize(m.buffer)),
    )
}

/// No single key event other than a commit changes the committed stack.
pub proof fn lemma_step_preserves_committed(m: SessionModel, k: Key)
    requires
        !(k is Commit),
    ensures
        step_session(m, k).committed == m.committed,
{
}

/// Previewing never mutates committed state: over any sequence of key
/// events without a commit, the committed stack is unchanged.
pub proof fn lemma_no_commit_preserves_committed(m: SessionModel, ks: Seq<Key>)
    requires
        forall|i: int| 0 <= i < ks.len() ==> !(#[trigger] ks[i] is Commit),
    ensures
        apply_keys(m, ks).committed == m.committed,
    decreases ks.len(),
{
    if ks.len() > 0 {
        lemma_step_preserves_committed(m, ks[0]);
        assert(forall|i: int|
            0 <= i < ks.drop_first().len() ==> !(#[trigger] ks.drop_first()[i] is Commit));
        lemma_no_commit_preserves_committed(step_session(m, ks[0]), ks.drop_first());
    }
}

/// A preview depends on the current buffer and the committed stack alone:
/// two commit-free key sequences from the same session that leave the same
/// buffer text give the very same preview, whatever their order or length.
pub proof fn lemma_preview_depends_on_buffer_alone(
    m: SessionModel,
    ks1: Seq<Key>,
    ks2: Seq<Key>,
)
    requires
        forall|i: int| 0 <= i < ks1.len() ==> !(#[trigger] ks1[i] is Commit),
        forall|i: int| 0 <= i < ks2.len() ==> !(#[trigger] ks2[i] is Commit),
        apply_keys(m, ks1).buffer == apply_keys(m, ks2).buffer,
    ensures
        preview_of(apply_keys(m, ks1)) == preview_of(apply_keys(m, ks2)),
{
    lemma_no_commit_preserves_committed(m, ks1);
    lemma_no_commit_preserves_committed(m, ks2);
}

/// What `handle_key` reports back.
pub enum Step {
    /// The buffer changed; the preview is stale.
    Edited,
    /// Only the cursor moved.
    Moved,
    /// The line was run against a copy of the committed evaluator and that
    /// copy was promoted; `output` is the line's result.
    Committed { output: Result<String, String> },
    /// The session is over.
    Terminated,
}

/// Relies on `String`'s `FromIterator<char>` impl: collecting characters
/// yields the string of exactly those characters, in order.
#[verifier::external_body]
fn chars_to_string(cs: &Vec<char>) -> (r: String)
    ensures
        r@ == cs@,
{
    cs.iter().collect()
}

/// The session state: the committed evaluator, the in-progress line, and
/// the cursor offset into it.
pub struct Session {
    committed: Interpreter,
    buffer: Vec<char>,
    cursor: usize,
}

impl View for Session {
    type V = SessionModel;

    closed spec fn view(&self) -> SessionModel {
        SessionModel { committed: self.committed@, buffer: self.buffer@, cursor: self.cursor as int }
    }
}

impl Session {
    /// A fresh session: empty committed stack, empty buffer, cursor at 0.
    pub fn new() -> (r: Session)
        ensures
            r@ == (SessionModel {
                committed: Seq::<i32>::empty(),
                buffer: Seq::<char>::empty(),
                cursor: 0,
            }),
            session_wf(r@),
    {
        Session { committed: Interpreter::new(), buffer: Vec::new(), cursor: 0 }
    }

    /// Handles one key event, per `step_session`: edit keys change the
    /// buffer or cursor only; a commit runs the buffer against a copy of
    /// the committed evaluator, promotes the copy, and resets the buffer.
    pub fn handle_key(&mut self, key: Key) -> (r: Step)
        requires
            session_wf(old(self)@),
        ensures
            session_wf(final(self)@),
            final(self)@ == step_session(old(self)@, key),
            match key {
                Key::Char(_) => r is Edited,
                Key::Backspace => if old(self)@.cursor > 0 {
                    r is Edited
                } else {
                    r is Moved
                },
                Key::Left | Key::Right | Key::Home | Key::End => r is Moved,
                Key::KillToStart => if old(self)@.cursor > 0 {
                    r is Edited
                } else {
                    r is Moved
                },
                Key::KillToEnd => if old(self)@.cursor < old(self)@.buffer.len() {
                    r is Edited
                } else {
                    r is Moved
                },
                Key::Commit => r matches Step::Committed { output } && res_matches(
                    output,
                    run_res(old(self)@.committed, tokenize(old(self)@.buffer)),
                ),
                Key::Interrupt => r is Terminated,
            },
    {
        match key {
            Key::Char(c) => {
                self.buffer.insert(self.cursor, c);
                let grown = self.buffer.len();
                proof {
                    assert(self.cursor < grown);
                }
                self.cursor += 1;
                Step::Edited
            },
            Key::Backspace => {
                if self.cursor > 0 {
                    self.cursor -= 1;
                    self.buffer.remove(self.cursor);
                    Step::Edited
                } else {
                    Step::Moved
                }
            },
            Key::Left => {
                if self.cursor > 0 {
                    self.cursor -= 1;
                }
                Step::Moved
            },
            Key::Right => {
                if self.cursor < self.buffer.len() {
                    self.cursor += 1;
                }
                Step::Moved
            },
            Key::Home => {
                self.cursor = 0;
                Step::Moved
            },
            Key::End => {
                self.cursor = self.buffer.len();
                Step::Moved
            },
            Key::KillToStart => {
                if self.cursor > 0 {
                    let tail = self.buffer.split_off(self.cursor);
                    self.buffer = tail;
                    self.cursor = 0;
                    proof {
                        assert(self.buffer@ =~= old(self)@.buffer.skip(old(self)@.cursor));
                    }
                    Step::Edited
                } else {
                    proof {
                        assert(self.buffer@ =~= self.buffer@.skip(0));
                    }
                    Step::Moved
                }
            },
            Key::KillToEnd => {
                if self.cursor < self.buffer.len() {
                    self.buffer.truncate(self.cursor);
                    proof {
                        assert(self.buffer@ =~= old(self)@.buffer.take(old(self)@.cursor));
                    }
                    Step::Edited
                } else {
                    proof {
                        assert(self.buffer@ =~= self.buffer@.take(self.buffer@.len() as int));
                    }
                    Step::Moved
                }
            },
            Key::Commit => {
                let mut speculative = self.committed.duplicate();
                let line = chars_to_string(&self.buffer);
                let output = speculative.execute_line(line.as_str());
                self.committed = speculative;
                self.buffer = Vec::new();
                self.cursor = 0;
                Step::Committed { output }
            },
            Key::Interrupt => Step::Terminated,
        }
    }

    /// What running the current buffer right now would show: the stack
    /// display and the line result of a throwaway copy of the committed
    /// evaluator.  Takes `&self`: previewing cannot mutate the session.
    pub fn preview(&self) -> (r: (String, Result<String, String>))
        ensures
            r.0@ == preview_of(self@).0,
            res_matches(r.1, preview_of(self@).1),
    {
        let mut speculative = self.committed.duplicate();
        let line = chars_to_string(&self.buffer);
        let output = speculative.execute_line(line.as_str());
        let stack_text = speculative.stack_display();
        (stack_text, output)
    }

    /// The current buffer, as text.
    pub fn buffer_text(&self) -> (r: String)
        ensures
            r@ == self@.buffer,
    {
        chars_to_string(&self.buffer)
    }

    /// The cursor offset into the buffer.
    pub fn cursor(&self) -> (r: usize)
        ensures
            r as int == self@.cursor,
    {
        self.cursor
    }
}

} // verus!
