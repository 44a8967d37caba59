use crate::action::Handler;
use crate::cursor::Dir;
use crate::state::{after_delete, after_edit, after_move, selection, State};
use vstd::prelude::*;

verus! {

/// A key as the picker reads it.
#[derive(Clone, Copy, Debug, PartialEq, Eq)]
pub enum Key {
    Char(char),
    Up,
    Down,
    Backspace,
    Enter,
    Esc,
    Other,
}

/// One keyboard event: the key, whether Control was held, and whether the key
/// went down (a release or a repeat has `pressed == false`).
#[derive(Clone, Copy, Debug, PartialEq, Eq)]
pub struct KeyPress {
    pub key: Key,
    pub ctrl: bool,
    pub pressed: bool,
}

/// What a key asks of the picker.
#[derive(Clone, Copy, Debug, PartialEq, Eq)]
pub enum Op {
    Insert(char),
    Delete,
    Move(Dir),
    Confirm,
    Cancel,
    Ignore,
}

/// What the session does after a key.
#[derive(Clone, Debug)]
pub enum Outcome {
    /// Keep reading keys.
    Continue,
    /// The session ends with this action picked.
    Chosen(Handler),
    /// The session ends with nothing picked.
    Cancelled,
}

/// The keymap: Control-j and Down move down, Control-k and Up move up, other
/// characters edit the query, Backspace deletes, Enter confirms and Escape
/// cancels; releases and other keys do nothing.
pub open spec fn op_of(k: KeyPress) -> Op {
    if !k.pressed {
        Op::Ignore
    } else {
        match k.key {
            Key::Char(c) => if k.ctrl && c == 'j' {
                Op::Move(Dir::Down)
            } else if k.ctrl && c == 'k' {
                Op::Move(Dir::Up)
            } else {
                Op::Insert(c)
            },
            Key::Down => Op::Move(Dir::Down),
            Key::Up => Op::Move(Dir::Up),
            Key::Backspace => Op::Delete,
            Key::Enter => Op::Confirm,
            Key::Esc => Op::Cancel,
            Key::Other => Op::Ignore,
        }
    }
}

/// Computes `op_of`.
pub fn key_op(k: KeyPress) -> (r: Op)
    ensures
        r == op_of(k),
{
    if !k.pressed {
        return Op::Ignore;
    }
    match k.key {
        Key::Char(c) => if k.ctrl && c == 'j' {
            Op::Move(Dir::Down)
        } else if k.ctrl && c == 'k' {
            Op::Move(Dir::Up)
        } else {
            Op::Insert(c)
        },
        Key::Down => Op::Move(Dir::Down),
        Key::Up => Op::Move(Dir::Up),
        Key::Backspace => Op::Delete,
        Key::Enter => Op::Confirm,
        Key::Esc => Op::Cancel,
        Key::Other => Op::Ignore,
    }
}

impl State {
    /// Applies one key to the picker and says whether the session goes on.
    /// Enter on an empty list picks nothing and the session goes on.
    pub fn handle_key(&mut self, k: KeyPress) -> (r: Outcome)
        requires
            old(self).wf(),
        ensures
            final(self).wf(),
            match op_of(k) {
                Op::Insert(c) => final(self)@ == after_edit(old(self)@, old(self)@.query.push(c))
                    && r is Continue,
                Op::Delete => final(self)@ == after_delete(old(self)@) && r is Continue,
                Op::Move(d) => final(self)@ == after_move(old(self)@, d) && r is Continue,
                Op::Confirm => final(self)@ == old(self)@ && match r {
                    Outcome::Chosen(h) => selection(old(self)@) == Some(h@),
                    Outcome::Continue => selection(old(self)@) is None,
                    Outcome::Cancelled => false,
                },
                Op::Cancel => final(self)@ == old(self)@ && r is Cancelled,
                Op::Ignore => final(self)@ == old(self)@ && r is Continue,
            },
    {
        match key_op(k) {
            Op::Insert(c) => {
                self.enter_char(c);
                Outcome::Continue
            },
            Op::Delete => {
                self.delete_char();
                Outcome::Continue
            },
            Op::Move(d) => {
                self.move_index(d);
                Outcome::Continue
            },
            Op::Confirm => match self.confirm() {
                Some(h) => Outcome::Chosen(h),
                None => Outcome::Continue,
            },
            Op::Cancel => Outcome::Cancelled,
            Op::Ignore => Outcome::Continue,
        }
    }
}

} // verus!
