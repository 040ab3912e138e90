//! The record of a counter's last moves that its clients show: up to ten
//! signed amounts, the oldest first, and their total.
use vstd::prelude::*;
use crate::template_shared::START_VALUE;
use crate::template_shared::event::TemplateEvent;

verus! {

/// The most moves a record keeps.
pub const RECORD_LENGTH: usize = 10;

/// The record once `event` is played: an addition or a removal goes last,
/// and the oldest move goes where there are more than ten.
pub open spec fn recorded(moves: Seq<(char, usize)>, event: TemplateEvent) -> Seq<(char, usize)> {
    let longer = match event {
        TemplateEvent::Added(n) => moves.push(('+', n)),
        TemplateEvent::Removed(n) => moves.push(('-', n)),
        _ => moves,
    };
    if longer.len() > 10 {
        longer.drop_first()
    } else {
        longer
    }
}

/// The signed amount of a move: negative for `'-'`, positive otherwise,
/// the amount taken as an `isize`.
pub open spec fn signed_amount(m: (char, usize)) -> int {
    if m.0 == '-' {
        -((m.1 as isize) as int)
    } else {
        (m.1 as isize) as int
    }
}

/// The total of the moves.
pub open spec fn signed_sum(moves: Seq<(char, usize)>) -> int
    decreases moves.len(),
{
    if moves.len() == 0 {
        0
    } else {
        signed_sum(moves.drop_last()) + signed_amount(moves.last())
    }
}

/// Every running total, from the first move on, fits in an `isize`.
pub open spec fn sums_fit(moves: Seq<(char, usize)>) -> bool {
    forall|i: int| 0 <= i <= moves.len() ==> isize::MIN <= #[trigger] signed_sum(moves.take(i)) <= isize::MAX
}

/// The record of a new counter: its start value, added.
pub fn start_record() -> (r: Vec<(char, usize)>)
    ensures
        r@ == seq![('+', START_VALUE)],
{
    let r = vec![('+', START_VALUE)];
    proof {
        assert(r@ =~= seq![('+', START_VALUE)]);
    }
    r
}

/// Plays `event` on the record.
pub fn record_event(moves: &mut Vec<(char, usize)>, event: &TemplateEvent)
    ensures
        final(moves)@ == recorded(old(moves)@, *event),
{
    match event {
        TemplateEvent::Added(n) => moves.push(('+', *n)),
        TemplateEvent::Removed(n) => moves.push(('-', *n)),
        TemplateEvent::Delayed(_) => {},
        TemplateEvent::DelayDone(_) => {},
    }
    if moves.len() > RECORD_LENGTH {
        moves.remove(0);
        proof {
            assert(final(moves)@ =~= recorded(old(moves)@, *event));
        }
    }
}

/// The total of the moves, or `None` where a running total leaves the
/// `isize` range.
pub fn signed_total(moves: &Vec<(char, usize)>) -> (r: Option<isize>)
    ensures
        match r {
            Some(t) => sums_fit(moves@) && t == signed_sum(moves@),
            None => !sums_fit(moves@),
        },
{
    let mut sum: isize = 0;
    let mut i: usize = 0;
    proof {
        assert(moves@.take(0) =~= Seq::<(char, usize)>::empty());
    }
    while i < moves.len()
        invariant
            0 <= i <= moves.len(),
            sum == signed_sum(moves@.take(i as int)),
            forall|j: int| 0 <= j <= i ==> isize::MIN <= #[trigger] signed_sum(moves@.take(j)) <= isize::MAX,
        decreases moves.len() - i,
    {
        let (c, n) = moves[i];
        proof {
            assert(moves@.take(i + 1).drop_last() =~= moves@.take(i as int));
            assert(moves@.take(i + 1).last() == moves@[i as int]);
        }
        let next = if c == '-' {
            sum.checked_sub(n as isize)
        } else {
            sum.checked_add(n as isize)
        };
        match next {
            Some(s) => {
                sum = s;
            },
            None => {
                proof {
                    assert(!(isize::MIN <= signed_sum(moves@.take(i + 1)) <= isize::MAX));
                }
                return None;
            },
        }
        i = i + 1;
    }
    proof {
        assert(moves@.take(moves.len() as int) =~= moves@);
    }
    Some(sum)
}

} // verus!

verus! {

/// The record holds at most ten moves: an addition or a removal goes last,
/// and where the record was full its oldest move goes; a delay or a
/// finished delay leaves the record as it is.
pub proof fn law_record(moves: Seq<(char, usize)>, event: TemplateEvent)
    requires
        moves.len() <= RECORD_LENGTH,
    ensures
        recorded(moves, event).len() <= RECORD_LENGTH,
        recorded(moves, event) == match event {
            TemplateEvent::Added(n) => if moves.len() == RECORD_LENGTH {
                moves.drop_first().push(('+', n))
            } else {
                moves.push(('+', n))
            },
            TemplateEvent::Removed(n) => if moves.len() == RECORD_LENGTH {
                moves.drop_first().push(('-', n))
            } else {
                moves.push(('-', n))
            },
            _ => moves,
        },
        event matches TemplateEvent::Added(n) ==> recorded(moves, event).last() == ('+', n),
        event matches TemplateEvent::Removed(n) ==> recorded(moves, event).last() == ('-', n),
{
    match event {
        TemplateEvent::Added(n) => {
            if moves.len() == RECORD_LENGTH {
                assert(moves.push(('+', n)).drop_first() =~= moves.drop_first().push(('+', n)));
            }
        },
        TemplateEvent::Removed(n) => {
            if moves.len() == RECORD_LENGTH {
                assert(moves.push(('-', n)).drop_first() =~= moves.drop_first().push(('-', n)));
            }
        },
        _ => {},
    }
}

} // verus!
