//! The counter's state as the server holds it: its value, the last id of a
//! delayed addition and the additions still pending; the commands it
//! decides on and the events it replays.
use vstd::prelude::*;
use crate::outcome::result_seq;
use crate::time::now_epoch_secs;
use crate::template_shared::START_VALUE;
use crate::template_shared::command::{Delay, TemplateCommand};
use crate::template_shared::error::TemplateError;
use crate::template_shared::event::{Delayed, TemplateEvent};

verus! {

/// The most a counter may reach by an addition.
pub const MAX_VALUE: usize = 3000;

/// `pending` without the entries whose id is `id`, the others in order.
pub open spec fn without_delay(pending: Seq<Delayed>, id: usize) -> Seq<Delayed>
    decreases pending.len(),
{
    if pending.len() == 0 {
        Seq::empty()
    } else {
        let rest = without_delay(pending.drop_last(), id);
        if pending.last().id == id {
            rest
        } else {
            rest.push(pending.last())
        }
    }
}

/// The first pending entry with id `id` that is due at `epoch` (Unix
/// seconds), if any.
pub open spec fn first_due(pending: Seq<Delayed>, id: usize, epoch: u64) -> Option<int> {
    if exists|i: int| 0 <= i < pending.len() && pending[i].id == id && epoch >= pending[i].timestamp {
        Some(choose|i: int| 0 <= i < pending.len() && pending[i].id == id && epoch >= pending[i].timestamp
            && forall|j: int| 0 <= j < i ==> !(pending[j].id == id && epoch >= pending[j].timestamp))
    } else {
        None
    }
}

/// The counter's state.
#[derive(Clone, Debug, PartialEq, Eq)]
pub struct MonoState {
    value: usize,
    last_id: usize,
    delayed: Vec<Delayed>,
}

/// The content of a counter's state.
pub struct MonoView {
    pub value: usize,
    pub last_id: usize,
    pub delayed: Seq<Delayed>,
}

impl View for MonoState {
    type V = MonoView;

    closed spec fn view(&self) -> MonoView {
        MonoView { value: self.value, last_id: self.last_id, delayed: self.delayed@ }
    }
}

impl MonoView {
    /// `event` can be played: an addition stays within `usize`, a removal
    /// takes at most the value.
    pub open spec fn can_play(self, event: TemplateEvent) -> bool {
        match event {
            TemplateEvent::Added(i) => self.value + i <= usize::MAX,
            TemplateEvent::Removed(i) => i <= self.value,
            _ => true,
        }
    }

    /// The counter once `event` is played: additions and removals change
    /// the value, a delay is recorded last under its id, a finished delay's
    /// entries go.
    pub open spec fn played(self, event: TemplateEvent) -> MonoView {
        match event {
            TemplateEvent::Added(i) => MonoView { value: (self.value + i) as usize, ..self },
            TemplateEvent::Removed(i) => MonoView { value: (self.value - i) as usize, ..self },
            TemplateEvent::Delayed(d) => MonoView { last_id: d.id, delayed: self.delayed.push(d), ..self },
            TemplateEvent::DelayDone(id) => MonoView { delayed: without_delay(self.delayed, id), ..self },
        }
    }

    /// Every event of `events` can be played in turn.
    pub open spec fn can_replay(self, events: Seq<TemplateEvent>) -> bool
        decreases events.len(),
    {
        events.len() == 0 || (self.can_play(events[0]) && self.played(events[0]).can_replay(events.drop_first()))
    }

    /// The counter once `events` are played in order.
    pub open spec fn replayed(self, events: Seq<TemplateEvent>) -> MonoView
        decreases events.len(),
    {
        if events.len() == 0 {
            self
        } else {
            self.played(events[0]).replayed(events.drop_first())
        }
    }

    /// `command` can be decided: an addition's test stays within `usize`,
    /// and a new delay's id too.
    pub open spec fn can_decide(self, command: TemplateCommand) -> bool {
        match command {
            TemplateCommand::Add(i) => self.value + i <= usize::MAX,
            TemplateCommand::Delayed(_) => self.last_id < usize::MAX,
            _ => true,
        }
    }

    /// What the counter answers to `command`, the clock reading `clock`
    /// (Unix seconds, after the command's delay for a delayed addition;
    /// `None` where the clock is before the epoch): an addition up to
    /// 3000 is accepted; a reset empties a counter that is not empty; a
    /// delay of 1 to 10 seconds is recorded under the next id; a pending
    /// addition that is due is added.
    pub open spec fn decision(self, command: TemplateCommand, clock: Option<u64>) -> Result<
        Seq<TemplateEvent>,
        TemplateError,
    > {
        match command {
            TemplateCommand::Add(i) => if self.value + i > MAX_VALUE {
                Err(TemplateError::CannotAdd(i))
            } else {
                Ok(seq![TemplateEvent::Added(i)])
            },
            TemplateCommand::Reset => if self.value == 0 {
                Err(TemplateError::AlreadyEmpty)
            } else {
                Ok(seq![TemplateEvent::Removed(self.value)])
            },
            TemplateCommand::Delayed(d) => if d.delay < 1 || d.delay > 10 {
                Err(TemplateError::DelayOutOfBound(d.delay))
            } else {
                match clock {
                    None => Err(TemplateError::CannotCalculateTime),
                    Some(end) => Ok(
                        seq![
                            TemplateEvent::Delayed(
                                Delayed {
                                    id: (self.last_id + 1) as usize,
                                    timestamp: end,
                                    to_add: d.to_add,
                                },
                            ),
                        ],
                    ),
                }
            },
            TemplateCommand::Finalize(id) => match clock {
                None => Err(TemplateError::CannotCalculateTime),
                Some(epoch) => match first_due(self.delayed, id, epoch) {
                    None => Err(TemplateError::DelayNotFound),
                    Some(i) => Ok(
                        seq![
                            TemplateEvent::DelayDone(id),
                            TemplateEvent::Added(self.delayed[i].to_add),
                        ],
                    ),
                },
            },
        }
    }

}

/// The instant a command is decided at, for the clock reading `now` (Unix
/// seconds; `None` where the clock is before the epoch): a delayed
/// addition is decided at the reading plus its delay (`None` where that
/// leaves `u64`), any other command at the reading.
pub open spec fn clock_of(command: TemplateCommand, now: Option<u64>) -> Option<u64> {
    match command {
        TemplateCommand::Delayed(d) => match now {
            Some(n) => if n + d.delay <= u64::MAX {
                Some((n + d.delay) as u64)
            } else {
                None
            },
            None => None,
        },
        _ => now,
    }
}

impl MonoState {
    /// A new counter: the start value, no pending addition.
    pub fn new() -> (r: MonoState)
        ensures
            r@ == (MonoView { value: START_VALUE, last_id: 0, delayed: Seq::<Delayed>::empty() }),
    {
        MonoState { value: START_VALUE, last_id: 0, delayed: Vec::new() }
    }

    /// The counter's value.
    pub fn get_value(&self) -> (r: usize)
        ensures
            r == self@.value,
    {
        self.value
    }

    /// The pending additions.
    pub fn delayed(&self) -> (r: &Vec<Delayed>)
        ensures
            r@ == self@.delayed,
    {
        &self.delayed
    }

    /// Moves every pending addition `nb` seconds earlier.
    pub fn time_pass(&mut self, nb: u64)
        requires
            forall|i: int| 0 <= i < old(self)@.delayed.len() ==> old(self)@.delayed[i].timestamp >= nb,
        ensures
            final(self)@.value == old(self)@.value,
            final(self)@.last_id == old(self)@.last_id,
            final(self)@.delayed.len() == old(self)@.delayed.len(),
            forall|i: int| 0 <= i < final(self)@.delayed.len() ==> #[trigger] final(self)@.delayed[i] == (Delayed {
                timestamp: (old(self)@.delayed[i].timestamp - nb) as u64,
                ..old(self)@.delayed[i]
            }),
    {
        let mut i: usize = 0;
        while i < self.delayed.len()
            invariant
                0 <= i <= self.delayed.len(),
                self.value == old(self)@.value,
                self.last_id == old(self)@.last_id,
                self.delayed@.len() == old(self)@.delayed.len(),
                forall|j: int| 0 <= j < old(self)@.delayed.len() ==> old(self)@.delayed[j].timestamp >= nb,
                forall|j: int| 0 <= j < i ==> #[trigger] self.delayed@[j] == (Delayed {
                    timestamp: (old(self)@.delayed[j].timestamp - nb) as u64,
                    ..old(self)@.delayed[j]
                }),
                forall|j: int| i <= j < self.delayed@.len() ==> #[trigger] self.delayed@[j] == old(self)@.delayed[j],
            decreases self.delayed.len() - i,
        {
            let d = self.delayed[i];
            self.delayed.set(i, Delayed { timestamp: d.timestamp - nb, ..d });
            i = i + 1;
        }
    }

    /// The id of the pending addition at `nb`.
    pub fn get_id(&self, nb: usize) -> (r: usize)
        requires
            nb < self@.delayed.len(),
        ensures
            r == self@.delayed[nb as int].id,
    {
        self.delayed[nb].id
    }

    /// Plays `event` on the counter.
    pub fn play_event(&mut self, event: &TemplateEvent)
        requires
            old(self)@.can_play(*event),
        ensures
            final(self)@ == old(self)@.played(*event),
    {
        match event {
            TemplateEvent::Added(i) => {
                self.value = self.value + *i;
            },
            TemplateEvent::Removed(i) => {
                self.value = self.value - *i;
            },
            TemplateEvent::Delayed(d) => {
                self.last_id = d.id;
                self.delayed.push(*d);
            },
            TemplateEvent::DelayDone(id) => {
                self.delayed = other_delays(&self.delayed, *id);
            },
        }
    }

    /// What the counter answers to `command`, the clock reading `clock`.
    pub fn decide(&self, command: TemplateCommand, clock: Option<u64>) -> (r: Result<Vec<TemplateEvent>, TemplateError>)
        requires
            self@.can_decide(command),
        ensures
            result_seq(r) == self@.decision(command, clock),
    {
        let ev = match command {
            TemplateCommand::Add(i) => {
                if self.value + i > MAX_VALUE {
                    return Err(TemplateError::CannotAdd(i));
                }
                TemplateEvent::Added(i)
            },
            TemplateCommand::Reset => {
                if self.value == 0 {
                    return Err(TemplateError::AlreadyEmpty);
                }
                TemplateEvent::Removed(self.value)
            },
            TemplateCommand::Delayed(d) => {
                if d.delay < 1 || d.delay > 10 {
                    return Err(TemplateError::DelayOutOfBound(d.delay));
                }
                let end = match clock {
                    Some(end) => end,
                    None => return Err(TemplateError::CannotCalculateTime),
                };
                TemplateEvent::Delayed(Delayed { id: self.last_id + 1, timestamp: end, to_add: d.to_add })
            },
            TemplateCommand::Finalize(id) => {
                let epoch = match clock {
                    Some(e) => e,
                    None => return Err(TemplateError::CannotCalculateTime),
                };
                let mut i: usize = 0;
                while i < self.delayed.len()
                    invariant
                        0 <= i <= self.delayed.len(),
                        command == TemplateCommand::Finalize(id),
                        clock == Some(epoch),
                        forall|j: int| 0 <= j < i ==> !(self.delayed@[j].id == id && epoch >= self.delayed@[j].timestamp),
                    decreases self.delayed.len() - i,
                {
                    if self.delayed[i].id == id && epoch >= self.delayed[i].timestamp {
                        let done = TemplateEvent::DelayDone(id);
                        let added = TemplateEvent::Added(self.delayed[i].to_add);
                        let r = vec![done, added];
                        proof {
                            let w = first_due(self@.delayed, id, epoch);
                            assert(0 <= i < self.delayed@.len() && self.delayed@[i as int].id == id
                                && epoch >= self.delayed@[i as int].timestamp);
                            let k = choose|k: int| 0 <= k < self.delayed@.len() && self.delayed@[k].id == id && epoch >= self.delayed@[k].timestamp
                                && forall|j: int| 0 <= j < k ==> !(self.delayed@[j].id == id && epoch >= self.delayed@[j].timestamp);
                            assert(k == i as int) by {
                                if k < i as int {
                                } else if k > i as int {
                                }
                            }
                            assert(w == Some(i as int));
                            assert(r@ =~= seq![done, added]);
                            assert(self@.delayed[i as int].to_add == self.delayed@[i as int].to_add);
                            assert(self@.decision(command, clock) == Ok::<Seq<TemplateEvent>, TemplateError>(seq![done, added]));
                        }
                        return Ok(r);
                    }
                    i = i + 1;
                }
                return Err(TemplateError::DelayNotFound);
            },
        };
        let r = vec![ev];
        proof {
            assert(r@ =~= seq![ev]);
        }
        Ok(r)
    }

    /// What the counter answers to `command`: the clock is read (Unix
    /// seconds) for a delayed addition of 1 to 10 seconds, which is stamped
    /// with the reading plus the delay, and for a finalization, which
    /// compares the pending additions with the reading; the answer is
    /// `decide`'s at that instant.
    pub fn try_command(&self, command: TemplateCommand) -> (r: Result<Vec<TemplateEvent>, TemplateError>)
        requires
            self@.can_decide(command),
        ensures
            exists|now: Option<u64>| result_seq(r) == #[trigger] self@.decision(command, clock_of(command, now)),
    {
        let now = match command {
            TemplateCommand::Delayed(d) => if 1 <= d.delay && d.delay <= 10 {
                now_epoch_secs()
            } else {
                None
            },
            TemplateCommand::Finalize(_) => now_epoch_secs(),
            _ => None,
        };
        let clock = match command {
            TemplateCommand::Delayed(d) => match now {
                Some(n) => n.checked_add(d.delay as u64),
                None => None,
            },
            _ => now,
        };
        assert(clock == clock_of(command, now));
        self.decide(command, clock)
    }
}

impl Default for MonoState {
    /// A new counter.
    fn default() -> (r: MonoState)
        ensures
            r@ == (MonoView { value: START_VALUE, last_id: 0, delayed: Seq::<Delayed>::empty() }),
    {
        MonoState::new()
    }
}

/// The pending additions whose id is not `id`, in order.
fn other_delays(pending: &Vec<Delayed>, id: usize) -> (r: Vec<Delayed>)
    ensures
        r@ == without_delay(pending@, id),
{
    let mut r: Vec<Delayed> = Vec::new();
    let mut i: usize = 0;
    proof {
        assert(pending@.take(0) =~= Seq::<Delayed>::empty());
    }
    while i < pending.len()
        invariant
            0 <= i <= pending.len(),
            r@ == without_delay(pending@.take(i as int), id),
        decreases pending.len() - i,
    {
        let d = pending[i];
        proof {
            assert(pending@.take(i + 1).drop_last() =~= pending@.take(i as int));
            assert(pending@.take(i + 1).last() == pending@[i as int]);
        }
        if d.id != id {
            r.push(d);
        }
        i = i + 1;
    }
    proof {
        assert(pending@.take(pending.len() as int) =~= pending@);
    }
    r
}

} // verus!

verus! {

/// Pending ids are distinct and none is above the last id given.
pub open spec fn ids_ok(v: MonoView) -> bool {
    &&& forall|i: int| 0 <= i < v.delayed.len() ==> #[trigger] v.delayed[i].id <= v.last_id
    &&& forall|i: int, j: int| 0 <= i < j < v.delayed.len() ==> #[trigger] v.delayed[i].id != #[trigger] v.delayed[j].id
}

/// What remains once the entries of `id` go: entries of `pending`, none of
/// them with id `id`, distinct ids where `pending`'s were.
proof fn lemma_without_delay(pending: Seq<Delayed>, id: usize)
    ensures
        forall|k: int| 0 <= k < without_delay(pending, id).len() ==> (#[trigger] without_delay(pending, id)[k]).id != id,
        forall|k: int| 0 <= k < without_delay(pending, id).len() ==> pending.contains(#[trigger] without_delay(pending, id)[k]),
        (forall|i: int, j: int| 0 <= i < j < pending.len() ==> #[trigger] pending[i].id != #[trigger] pending[j].id)
            ==> (forall|i: int, j: int| 0 <= i < j < without_delay(pending, id).len()
                ==> #[trigger] without_delay(pending, id)[i].id != #[trigger] without_delay(pending, id)[j].id),
    decreases pending.len(),
{
    if pending.len() > 0 {
        let p = pending.drop_last();
        lemma_without_delay(p, id);
        let rest = without_delay(p, id);
        assert forall|k: int| 0 <= k < rest.len() implies pending.contains(#[trigger] rest[k]) by {
            let j = choose|j: int| 0 <= j < p.len() && p[j] == rest[k];
            assert(pending[j] == rest[k]);
        }
        if (forall|i: int, j: int| 0 <= i < j < pending.len() ==> #[trigger] pending[i].id != #[trigger] pending[j].id) {
            assert forall|i: int, j: int| 0 <= i < j < p.len() implies #[trigger] p[i].id != #[trigger] p[j].id by {
                assert(p[i] == pending[i] && p[j] == pending[j]);
            }
            assert forall|k: int| 0 <= k < rest.len() implies (#[trigger] rest[k]).id != pending.last().id by {
                let j = choose|j: int| 0 <= j < p.len() && p[j] == rest[k];
                assert(pending[j] == rest[k]);
                assert(pending[j].id != pending[pending.len() - 1].id);
            }
        }
    }
}

/// Pending delays: every accepted answer, once replayed, keeps the pending
/// ids distinct and none above the last id given.
pub proof fn law_pending_ids(v: MonoView, command: TemplateCommand, clock: Option<u64>, evs: Seq<TemplateEvent>)
    requires
        ids_ok(v),
        v.can_decide(command),
        v.decision(command, clock) == Ok::<Seq<TemplateEvent>, TemplateError>(evs),
    ensures
        ids_ok(v.replayed(evs)),
{
    reveal_with_fuel(MonoView::replayed, 3);
    match command {
        TemplateCommand::Add(i) => {
            assert(evs.drop_first().len() == 0);
        },
        TemplateCommand::Reset => {
            assert(evs.drop_first().len() == 0);
        },
        TemplateCommand::Delayed(d) => {
            assert(evs.drop_first().len() == 0);
            let w = v.played(evs[0]);
            assert(w.delayed == v.delayed.push(w.delayed.last()));
            assert forall|i: int, j: int| 0 <= i < j < w.delayed.len() implies #[trigger] w.delayed[i].id != #[trigger] w.delayed[j].id by {
                if j == w.delayed.len() - 1 {
                    assert(w.delayed[i] == v.delayed[i]);
                } else {
                    assert(w.delayed[i] == v.delayed[i] && w.delayed[j] == v.delayed[j]);
                }
            }
            assert forall|i: int| 0 <= i < w.delayed.len() implies #[trigger] w.delayed[i].id <= w.last_id by {
                if i < w.delayed.len() - 1 {
                    assert(w.delayed[i] == v.delayed[i]);
                }
            }
        },
        TemplateCommand::Finalize(id) => {
            assert(evs.drop_first().drop_first().len() == 0);
            lemma_without_delay(v.delayed, id);
            let w = v.played(evs[0]);
            assert forall|i: int| 0 <= i < w.delayed.len() implies #[trigger] w.delayed[i].id <= w.last_id by {
                let j = choose|j: int| 0 <= j < v.delayed.len() && v.delayed[j] == w.delayed[i];
                assert(v.delayed[j].id <= v.last_id);
            }
        },
    }
}

/// Adding: an accepted addition brings the value to the sum, which is at
/// most 3000, and leaves the pending additions.
pub proof fn law_add_bounded(v: MonoView, n: usize, clock: Option<u64>, evs: Seq<TemplateEvent>)
    requires
        v.decision(TemplateCommand::Add(n), clock) == Ok::<Seq<TemplateEvent>, TemplateError>(evs),
    ensures
        v.can_replay(evs),
        v.replayed(evs).value == v.value + n,
        v.replayed(evs).value <= MAX_VALUE,
        v.replayed(evs).delayed == v.delayed,
{
    reveal_with_fuel(MonoView::replayed, 2);
    reveal_with_fuel(MonoView::can_replay, 2);
    assert(evs.drop_first().len() == 0);
}

/// Resetting: an accepted reset brings the value to 0 and leaves the
/// pending additions.
pub proof fn law_reset_empties(v: MonoView, clock: Option<u64>, evs: Seq<TemplateEvent>)
    requires
        v.decision(TemplateCommand::Reset, clock) == Ok::<Seq<TemplateEvent>, TemplateError>(evs),
    ensures
        v.can_replay(evs),
        v.replayed(evs).value == 0,
        v.replayed(evs).delayed == v.delayed,
{
    reveal_with_fuel(MonoView::replayed, 2);
    reveal_with_fuel(MonoView::can_replay, 2);
    assert(evs.drop_first().len() == 0);
}

/// Finalizing: an accepted finalization adds the amount of the first due
/// entry of that id, and no entry of that id stays pending.
pub proof fn law_finalize(v: MonoView, id: usize, clock: Option<u64>, evs: Seq<TemplateEvent>)
    requires
        v.decision(TemplateCommand::Finalize(id), clock) == Ok::<Seq<TemplateEvent>, TemplateError>(evs),
        v.value + v.delayed[first_due(v.delayed, id, clock->0)->0].to_add <= usize::MAX,
    ensures
        v.can_replay(evs),
        v.replayed(evs).value == v.value + v.delayed[first_due(v.delayed, id, clock->0)->0].to_add,
        forall|k: int| 0 <= k < v.replayed(evs).delayed.len() ==> (#[trigger] v.replayed(evs).delayed[k]).id != id,
        (forall|i: int, j: int| 0 <= i < j < v.delayed.len() ==> #[trigger] v.delayed[i].id != #[trigger] v.delayed[j].id)
            ==> v.replayed(evs).delayed.len() == v.delayed.len() - 1,
{
    reveal_with_fuel(MonoView::replayed, 3);
    reveal_with_fuel(MonoView::can_replay, 3);
    assert(evs.drop_first().drop_first().len() == 0);
    lemma_without_delay(v.delayed, id);
    if forall|i: int, j: int| 0 <= i < j < v.delayed.len() ==> #[trigger] v.delayed[i].id != #[trigger] v.delayed[j].id {
        let k = choose|i: int| 0 <= i < v.delayed.len() && v.delayed[i].id == id && clock->0 >= v.delayed[i].timestamp;
        lemma_without_delay_len(v.delayed, id, k);
    }
}

/// Without any entry of `id`, removing the entries of `id` leaves the
/// pending additions as they are.
proof fn lemma_without_delay_none(pending: Seq<Delayed>, id: usize)
    requires
        forall|i: int| 0 <= i < pending.len() ==> (#[trigger] pending[i]).id != id,
    ensures
        without_delay(pending, id) == pending,
    decreases pending.len(),
{
    if pending.len() > 0 {
        let p = pending.drop_last();
        assert forall|i: int| 0 <= i < p.len() implies (#[trigger] p[i]).id != id by {
            assert(p[i] == pending[i]);
        }
        lemma_without_delay_none(p, id);
        assert(pending.last().id != id);
        assert(p.push(pending.last()) =~= pending);
    }
}

/// With distinct ids, and the entry `k` of id `id`, removing the entries of
/// `id` removes exactly one.
proof fn lemma_without_delay_len(pending: Seq<Delayed>, id: usize, k: int)
    requires
        forall|i: int, j: int| 0 <= i < j < pending.len() ==> #[trigger] pending[i].id != #[trigger] pending[j].id,
        0 <= k < pending.len(),
        pending[k].id == id,
    ensures
        without_delay(pending, id).len() == pending.len() - 1,
    decreases pending.len(),
{
    let p = pending.drop_last();
    let n = pending.len() - 1;
    if k == n {
        assert forall|i: int| 0 <= i < p.len() implies (#[trigger] p[i]).id != id by {
            assert(p[i] == pending[i]);
            assert(pending[i].id != pending[n].id);
        }
        lemma_without_delay_none(p, id);
    } else {
        assert forall|i: int, j: int| 0 <= i < j < p.len() implies #[trigger] p[i].id != #[trigger] p[j].id by {
            assert(p[i] == pending[i] && p[j] == pending[j]);
        }
        assert(p[k] == pending[k]);
        lemma_without_delay_len(p, id, k);
        assert(pending[k].id != pending[n].id);
    }
}

/// A delayed addition, once due, is finalized and added: an accepted delay
/// decided at the instant `due` (the clock plus the delay) records under the
/// next id an entry due then; once replayed, finalizing that id at any
/// instant from `due` on is accepted and adds the delayed amount, and
/// replaying that finalization leaves the pending additions as they were
/// before the delay.
pub proof fn law_delay_then_finalize(
    v: MonoView,
    d: Delay,
    due: Option<u64>,
    evs: Seq<TemplateEvent>,
    epoch: u64,
)
    requires
        ids_ok(v),
        v.can_decide(TemplateCommand::Delayed(d)),
        v.decision(TemplateCommand::Delayed(d), due) == Ok::<Seq<TemplateEvent>, TemplateError>(evs),
    ensures
        ({
            let w = v.replayed(evs);
            let id = (v.last_id + 1) as usize;
            let fin = seq![TemplateEvent::DelayDone(id), TemplateEvent::Added(d.to_add)];
            &&& 1 <= d.delay <= 10
            &&& due is Some
            &&& w.last_id == id
            &&& w.delayed == v.delayed.push(Delayed { id, timestamp: due->0, to_add: d.to_add })
            &&& epoch >= due->0 ==> w.decision(TemplateCommand::Finalize(id), Some(epoch))
                == Ok::<Seq<TemplateEvent>, TemplateError>(fin)
            &&& epoch >= due->0 && v.value + d.to_add <= usize::MAX ==> {
                &&& w.can_replay(fin)
                &&& w.replayed(fin).value == v.value + d.to_add
                &&& w.replayed(fin).delayed == v.delayed
            }
        }),
{
    reveal_with_fuel(MonoView::replayed, 3);
    reveal_with_fuel(MonoView::can_replay, 3);
    assert(evs.drop_first().len() == 0);
    let w = v.replayed(evs);
    let id = (v.last_id + 1) as usize;
    let entry = Delayed { id, timestamp: due->0, to_add: d.to_add };
    assert(w.delayed == v.delayed.push(entry));
    assert forall|i: int| 0 <= i < v.delayed.len() implies (#[trigger] v.delayed[i]).id != id by {
        assert(v.delayed[i].id <= v.last_id);
    }
    lemma_without_delay_none(v.delayed, id);
    assert(w.delayed.drop_last() =~= v.delayed);
    assert(without_delay(w.delayed, id) == v.delayed);
    if epoch >= due->0 {
        let k = v.delayed.len() as int;
        assert(w.delayed[k] == entry);
        assert forall|j: int| 0 <= j < k implies !(w.delayed[j].id == id && epoch >= w.delayed[j].timestamp) by {
            assert(w.delayed[j] == v.delayed[j]);
        }
        assert(0 <= k < w.delayed.len() && w.delayed[k].id == id && epoch >= w.delayed[k].timestamp
            && forall|j: int| 0 <= j < k ==> !(w.delayed[j].id == id && epoch >= w.delayed[j].timestamp));
        let i = first_due(w.delayed, id, epoch)->0;
        assert(0 <= i < w.delayed.len() && w.delayed[i].id == id);
        if i < k {
            assert(w.delayed[i] == v.delayed[i]);
        }
        assert(i == k);
        let fin = seq![TemplateEvent::DelayDone(id), TemplateEvent::Added(d.to_add)];
        assert(fin.drop_first().drop_first().len() == 0);
    }
}


/// Delays of 1 to 10 seconds: with an id left to give and a clock, a
/// delayed addition is accepted exactly when its delay is from 1 to 10
/// seconds, and is then recorded under the next id, due at the clock's
/// instant, for its amount; any other delay is refused as out of bound.
pub proof fn law_delay_bounds(v: MonoView, d: Delay, t: u64)
    requires
        v.last_id < usize::MAX,
    ensures
        v.decision(TemplateCommand::Delayed(d), Some(t)) is Ok <==> 1 <= d.delay <= 10,
        1 <= d.delay <= 10 ==> v.decision(TemplateCommand::Delayed(d), Some(t))
            == Ok::<Seq<TemplateEvent>, TemplateError>(
            seq![TemplateEvent::Delayed(Delayed { id: (v.last_id + 1) as usize, timestamp: t, to_add: d.to_add })],
        ),
        !(1 <= d.delay <= 10) ==> v.decision(TemplateCommand::Delayed(d), Some(t))
            == Err::<Seq<TemplateEvent>, TemplateError>(TemplateError::DelayOutOfBound(d.delay)),
{
}


/// When a counter command is accepted: an addition exactly when the sum is
/// at most 3000 (else `CannotAdd` with the amount); a reset exactly when the
/// value is not 0, removing the whole value (else `AlreadyEmpty`); a
/// finalization, with a clock, exactly when a pending entry of that id is
/// due, and never without a clock.
pub proof fn law_acceptance(v: MonoView, n: usize, id: usize, clock: Option<u64>)
    ensures
        v.decision(TemplateCommand::Add(n), clock) is Ok <==> v.value + n <= MAX_VALUE,
        v.value + n <= MAX_VALUE ==> v.decision(TemplateCommand::Add(n), clock)
            == Ok::<Seq<TemplateEvent>, TemplateError>(seq![TemplateEvent::Added(n)]),
        v.value + n > MAX_VALUE ==> v.decision(TemplateCommand::Add(n), clock)
            == Err::<Seq<TemplateEvent>, TemplateError>(TemplateError::CannotAdd(n)),
        v.decision(TemplateCommand::Reset, clock) is Ok <==> v.value != 0,
        v.value != 0 ==> v.decision(TemplateCommand::Reset, clock)
            == Ok::<Seq<TemplateEvent>, TemplateError>(seq![TemplateEvent::Removed(v.value)]),
        v.value == 0 ==> v.decision(TemplateCommand::Reset, clock)
            == Err::<Seq<TemplateEvent>, TemplateError>(TemplateError::AlreadyEmpty),
        clock is None ==> v.decision(TemplateCommand::Finalize(id), clock)
            == Err::<Seq<TemplateEvent>, TemplateError>(TemplateError::CannotCalculateTime),
        clock matches Some(e) ==> (v.decision(TemplateCommand::Finalize(id), clock) is Ok <==> exists|i: int|
            0 <= i < v.delayed.len() && #[trigger] v.delayed[i].id == id && e >= v.delayed[i].timestamp),
{
    if clock is Some {
        let e = clock->0;
        if exists|i: int| 0 <= i < v.delayed.len() && #[trigger] v.delayed[i].id == id && e >= v.delayed[i].timestamp {
            assert(first_due(v.delayed, id, e) is Some);
        }
    }
}

} // verus!
