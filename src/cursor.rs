use vstd::prelude::*;

verus! {

/// Where the selection moves: one entry up, one down, or nowhere (only
/// brought back into bounds).
#[derive(Clone, Copy, Debug, PartialEq, Eq)]
pub enum Dir {
    Up,
    Down,
    Same,
}

/// A cursor position fits a list of `len` entries: it addresses an entry of a
/// non-empty list, and is `0` or unset on an empty one.
pub open spec fn cursor_ok(len: nat, cursor: Option<nat>) -> bool {
    match cursor {
        Some(i) => if len == 0 {
            i == 0
        } else {
            i < len
        },
        None => len == 0,
    }
}

/// `i` brought into `[0, len - 1]` (for `len > 0`).
pub open spec fn clamp_index(i: nat, len: nat) -> nat {
    if i < len {
        i
    } else {
        (len - 1) as nat
    }
}

/// The cursor after a move in direction `dir` over a list of `len` entries:
/// `0` on an empty list or from an unset cursor; otherwise the clamped cursor,
/// stepped with wrap-around for `Up` and `Down`.
pub open spec fn next_cursor(cursor: Option<nat>, len: nat, dir: Dir) -> nat {
    if len == 0 {
        0
    } else {
        match cursor {
            None => 0,
            Some(i) => {
                let c = clamp_index(i, len);
                match dir {
                    Dir::Down => ((c + 1) as int % (len as int)) as nat,
                    Dir::Up => ((c + len - 1) as int % (len as int)) as nat,
                    Dir::Same => c,
                }
            },
        }
    }
}

/// The cursor of the contracts, from the stored one.
pub open spec fn cursor_view(cursor: Option<usize>) -> Option<nat> {
    match cursor {
        Some(i) => Some(i as nat),
        None => None,
    }
}

/// Every move leaves the cursor in bounds: `0` on an empty list, an entry's
/// index otherwise.
pub proof fn lemma_next_cursor_in_bounds(cursor: Option<nat>, len: nat, dir: Dir)
    ensures
        cursor_ok(len, Some(next_cursor(cursor, len, dir))),
{
}

/// Moving down from the last entry wraps to the first; moving up from the
/// first wraps to the last.
pub proof fn lemma_wrap_around(len: nat)
    requires
        len > 0,
    ensures
        next_cursor(Some((len - 1) as nat), len, Dir::Down) == 0,
        next_cursor(Some(0), len, Dir::Up) == len - 1,
{
    vstd::arithmetic::div_mod::lemma_mod_self_0(len as int);
    vstd::arithmetic::div_mod::lemma_small_mod((len - 1) as nat, len);
}

/// Computes `next_cursor` for a list of `len` entries.
pub fn step_cursor(cursor: Option<usize>, len: usize, dir: Dir) -> (r: usize)
    ensures
        r == next_cursor(cursor_view(cursor), len as nat, dir),
{
    if len == 0 {
        return 0;
    }
    match cursor {
        None => 0,
        Some(i) => {
            let c = if i < len {
                i
            } else {
                len - 1
            };
            match dir {
                Dir::Down => if c == len - 1 {
                    proof {
                        vstd::arithmetic::div_mod::lemma_mod_self_0(len as int);
                    }
                    0
                } else {
                    proof {
                        vstd::arithmetic::div_mod::lemma_small_mod((c + 1) as nat, len as nat);
                    }
                    c + 1
                },
                Dir::Up => if c == 0 {
                    proof {
                        vstd::arithmetic::div_mod::lemma_small_mod((len - 1) as nat, len as nat);
                    }
                    len - 1
                } else {
                    proof {
                        vstd::arithmetic::div_mod::lemma_small_mod((c - 1) as nat, len as nat);
                        vstd::arithmetic::div_mod::lemma_mod_add_multiples_vanish(c - 1, len as int);
                    }
                    c - 1
                },
                Dir::Same => c,
            }
        },
    }
}

} // verus!
