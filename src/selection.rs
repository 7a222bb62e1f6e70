use vstd::prelude::*;

verus! {

/// A cursor is valid over `len` items when it is absent or indexes one of them.
pub open spec fn valid_selection(sel: Option<usize>, len: nat) -> bool {
    match sel {
        Some(i) => i < len,
        None => true,
    }
}

/// The cursor after moving one item forward: an absent cursor starts at the
/// first item (if any), and the last item is never passed.
pub open spec fn next_selection(sel: Option<usize>, len: nat) -> Option<usize> {
    match sel {
        None => if len > 0 { Some(0usize) } else { None },
        Some(i) => if i + 1 < len { Some((i + 1) as usize) } else { Some(i) },
    }
}

/// The cursor after moving one item back: an absent cursor starts at the
/// first item (if any), and the first item is never passed.
pub open spec fn prev_selection(sel: Option<usize>, len: nat) -> Option<usize> {
    match sel {
        None => if len > 0 { Some(0usize) } else { None },
        Some(i) => if i > 0 { Some((i - 1) as usize) } else { Some(0usize) },
    }
}

/// The cursor on the last item, or none when there are no items.
pub open spec fn last_selection(len: nat) -> Option<usize> {
    if len > 0 { Some((len - 1) as usize) } else { None }
}

/// The cursor after a sequence of moves, `true` for forward and `false` for back.
pub open spec fn apply_moves(sel: Option<usize>, len: nat, moves: Seq<bool>) -> Option<usize>
    decreases moves.len(),
{
    if moves.len() == 0 {
        sel
    } else {
        let first = if moves[0] { next_selection(sel, len) } else { prev_selection(sel, len) };
        apply_moves(first, len, moves.drop_first())
    }
}

/// Exec form of `next_selection`.
pub fn step_next(sel: Option<usize>, len: usize) -> (r: Option<usize>)
    ensures
        r == next_selection(sel, len as nat),
{
    match sel {
        None => if len > 0 { Some(0) } else { None },
        Some(i) => if i < len && len - i > 1 { Some(i + 1) } else { Some(i) },
    }
}

/// Exec form of `prev_selection`.
pub fn step_prev(sel: Option<usize>, len: usize) -> (r: Option<usize>)
    ensures
        r == prev_selection(sel, len as nat),
{
    match sel {
        None => if len > 0 { Some(0) } else { None },
        Some(i) => if i > 0 { Some(i - 1) } else { Some(0) },
    }
}

/// Moving a valid cursor, over any number of steps in either direction, keeps
/// it valid; after at least one step it is absent exactly when there are no
/// items.
pub proof fn lemma_moves_stay_in_bounds(sel: Option<usize>, len: nat, moves: Seq<bool>)
    requires
        valid_selection(sel, len),
    ensures
        valid_selection(apply_moves(sel, len, moves), len),
        moves.len() > 0 ==> (apply_moves(sel, len, moves).is_none() <==> len == 0),
    decreases moves.len(),
{
    if moves.len() > 0 {
        let first = if moves[0] { next_selection(sel, len) } else { prev_selection(sel, len) };
        lemma_moves_stay_in_bounds(first, len, moves.drop_first());
        if moves.len() > 1 {
            assert(first.is_none() <==> len == 0);
        }
    }
}

} // verus!
