use vstd::prelude::*;
use vstd::std_specs::iter::IteratorSpec;

verus! {

/// The two sides of the board.
#[derive(Clone, Copy, Debug, PartialEq, Eq, Structural)]
pub enum Side {
    White,
    Black,
}

/// The position every game starts from: the standard chess setup, white to move.
pub const STARTING_POSITION: &'static str = "rnbqkbnr/pppppppp/8/8/8/8/PPPPPPPP/RNBQKBNR w KQkq - 0 1";

/// Index of the first space of `s`, or `s.len()` where `s` has none.
pub open spec fn first_space(s: Seq<char>) -> int
    decreases s.len(),
{
    if s.len() == 0 || s[0] == ' ' {
        0
    } else {
        1 + first_space(s.skip(1))
    }
}

/// The second of the fields that single spaces part `position` into: the text
/// after the first space, up to the next space or the end. `None` where
/// `position` holds no space at all.
pub open spec fn second_field(position: Seq<char>) -> Option<Seq<char>> {
    let start = first_space(position) + 1;
    if start > position.len() {
        None
    } else {
        let rest = position.skip(start);
        Some(rest.take(first_space(rest)))
    }
}

/// The side to move that `position` names: white where its second field is
/// exactly `w`, black where it is exactly `b`, and none for any other text.
pub open spec fn side_to_move(position: Seq<char>) -> Option<Side> {
    match second_field(position) {
        Some(field) => if field.len() == 1 && field[0] == 'w' {
            Some(Side::White)
        } else if field.len() == 1 && field[0] == 'b' {
            Some(Side::Black)
        } else {
            None
        },
        None => None,
    }
}

/// The first space lies within `s` or at its end.
pub proof fn lemma_first_space_bounds(s: Seq<char>)
    ensures
        0 <= first_space(s) <= s.len(),
    decreases s.len(),
{
    if s.len() > 0 && s[0] != ' ' {
        lemma_first_space_bounds(s.skip(1));
    }
}

/// A space at `i` with none before it is the first space.
pub proof fn lemma_first_space_is(s: Seq<char>, i: int)
    requires
        0 <= i <= s.len(),
        forall|j: int| 0 <= j < i ==> s[j] != ' ',
        i < s.len() ==> s[i] == ' ',
    ensures
        first_space(s) == i,
    decreases i,
{
    if i > 0 {
        let tail = s.skip(1);
        assert forall|j: int| 0 <= j < i - 1 implies tail[j] != ' ' by {
            assert(tail[j] == s[j + 1]);
        }
        lemma_first_space_is(tail, i - 1);
    }
}

/// Reads the side to move out of a position: one pass over its characters,
/// up to the one after the second field's first.
pub fn parse_side_to_move(position: &str) -> (side: Option<Side>)
    ensures
        side == side_to_move(position@),
{
    let mut chars = position.chars();
    let ghost mut seen: int = 0;
    let mut in_first_field = true;
    while in_first_field
        invariant
            0 <= seen <= position@.len(),
            chars.remaining() == position@.skip(seen),
            in_first_field ==> forall|j: int| 0 <= j < seen ==> position@[j] != ' ',
            !in_first_field ==> seen >= 1 && first_space(position@) == seen - 1,
        decreases position@.len() - seen + if in_first_field { 1int } else { 0int },
    {
        match chars.next() {
            None => {
                proof {
                    lemma_first_space_is(position@, position@.len() as int);
                }
                return None;
            },
            Some(c) => {
                proof {
                    seen = seen + 1;
                    if c == ' ' {
                        lemma_first_space_is(position@, seen - 1);
                    }
                }
                in_first_field = c != ' ';
            },
        }
    }
    let ghost rest = position@.skip(seen);
    let first = chars.next();
    let second = chars.next();
    match first {
        None => {
            proof {
                assert(rest.take(first_space(rest)).len() == 0);
            }
            None
        },
        Some(c) => {
            let ends = match second {
                None => true,
                Some(d) => d == ' ',
            };
            proof {
                if c == ' ' {
                    lemma_first_space_is(rest, 0);
                } else if ends {
                    lemma_first_space_is(rest, 1);
                } else {
                    let tail = rest.skip(1);
                    assert(rest[0] == c);
                    assert(tail.len() > 0 && tail[0] != ' ');
                    lemma_first_space_bounds(tail.skip(1));
                    assert(first_space(tail) == 1 + first_space(tail.skip(1)));
                    assert(first_space(rest) == 1 + first_space(tail));
                    assert(rest.take(first_space(rest)).len() >= 2);
                }
            }
            if ends && c == 'w' {
                Some(Side::White)
            } else if ends && c == 'b' {
                Some(Side::Black)
            } else {
                None
            }
        },
    }
}

} // verus!
