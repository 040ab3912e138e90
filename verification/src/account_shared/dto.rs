//! An account as its player sees it.
use vstd::prelude::*;
use crate::account_shared::Nation;
use crate::account_shared::event::{AccountEvent, PrvAccountEvent};
use crate::public::Component;

verus! {

/// `worlds` without the worlds whose id is `id`, the others in order.
pub open spec fn without_world(worlds: Seq<Component>, id: Seq<char>) -> Seq<Component>
    decreases worlds.len(),
{
    if worlds.len() == 0 {
        Seq::empty()
    } else {
        let rest = without_world(worlds.drop_last(), id);
        if worlds.last().id@ == id {
            rest
        } else {
            rest.push(worlds.last())
        }
    }
}

/// An account as its player sees it: the nation, and the worlds it plays in.
#[derive(Clone, Debug, PartialEq, Eq)]
pub struct AccountDto {
    nation: Option<Nation>,
    worlds: Vec<Component>,
}

impl AccountDto {
    /// The account's nation, once set.
    pub closed spec fn spec_nation(self) -> Option<Nation> {
        self.nation
    }

    /// The account's worlds, in the order they were added.
    pub closed spec fn spec_worlds(self) -> Seq<Component> {
        self.worlds@
    }

    /// The account once `event` is played: a new nation replaces the old
    /// one, an added world goes last, a removed id takes all its worlds
    /// away; public events change nothing.
    pub open spec fn played(self, event: AccountEvent) -> (Option<Nation>, Seq<Component>) {
        match event {
            AccountEvent::Private(PrvAccountEvent::NationUpdated(n)) => (Some(n), self.spec_worlds()),
            AccountEvent::Private(PrvAccountEvent::WorldAdded(w)) => (
                self.spec_nation(),
                self.spec_worlds().push(w),
            ),
            AccountEvent::Private(PrvAccountEvent::WorldRemoved(id)) => (
                self.spec_nation(),
                without_world(self.spec_worlds(), id@),
            ),
            AccountEvent::Public(_) => (self.spec_nation(), self.spec_worlds()),
        }
    }

    /// An account with no nation and no world.
    pub fn new() -> (r: AccountDto)
        ensures
            r.spec_nation() is None,
            r.spec_worlds() == Seq::<Component>::empty(),
    {
        AccountDto { nation: None, worlds: Vec::new() }
    }

    /// Plays `event` on the account.
    pub fn play_event(&mut self, event: &AccountEvent)
        ensures
            (final(self).spec_nation(), final(self).spec_worlds()) == old(self).played(*event),
    {
        match event {
            AccountEvent::Private(PrvAccountEvent::NationUpdated(nation)) => {
                self.nation = Some(nation.duplicate());
            },
            AccountEvent::Private(PrvAccountEvent::WorldAdded(world)) => {
                self.worlds.push(world.duplicate());
            },
            AccountEvent::Private(PrvAccountEvent::WorldRemoved(id)) => {
                self.worlds = retain_other_worlds(&self.worlds, id);
            },
            AccountEvent::Public(_) => {},
        }
    }

    /// The account's nation, once set.
    pub fn nation(&self) -> (r: &Option<Nation>)
        ensures
            *r == self.spec_nation(),
    {
        &self.nation
    }

    /// The account's worlds.
    pub fn worlds(&self) -> (r: &Vec<Component>)
        ensures
            r@ == self.spec_worlds(),
    {
        &self.worlds
    }
}

impl Default for AccountDto {
    /// An account with no nation and no world.
    fn default() -> (r: AccountDto)
        ensures
            r.spec_nation() is None,
            r.spec_worlds() == Seq::<Component>::empty(),
    {
        AccountDto::new()
    }
}

/// The worlds whose id is not `id`, in order.
fn retain_other_worlds(worlds: &Vec<Component>, id: &String) -> (r: Vec<Component>)
    ensures
        r@ == without_world(worlds@, id@),
{
    let mut r: Vec<Component> = Vec::new();
    let mut i: usize = 0;
    proof {
        assert(worlds@.take(0) =~= Seq::<Component>::empty());
    }
    while i < worlds.len()
        invariant
            0 <= i <= worlds.len(),
            r@ == without_world(worlds@.take(i as int), id@),
        decreases worlds.len() - i,
    {
        let w = &worlds[i];
        proof {
            assert(worlds@.take(i + 1).drop_last() =~= worlds@.take(i as int));
            assert(worlds@.take(i + 1).last() == worlds@[i as int]);
        }
        if !w.id.eq(id) {
            r.push(w.duplicate());
        }
        i = i + 1;
    }
    proof {
        assert(worlds@.take(worlds.len() as int) =~= worlds@);
    }
    r
}

} // verus!

verus! {

/// Removing worlds: no world with the id stays, and a world added then
/// removed by its id leaves the worlds as a removal alone would.
pub proof fn law_world_removal(worlds: Seq<Component>, w: Component, id: Seq<char>)
    ensures
        forall|k: int| 0 <= k < without_world(worlds, id).len() ==> (#[trigger] without_world(worlds, id)[k]).id@ != id,
        without_world(worlds.push(w), w.id@) == without_world(worlds, w.id@),
    decreases worlds.len(),
{
    assert(worlds.push(w).drop_last() =~= worlds);
    if worlds.len() > 0 {
        law_world_removal(worlds.drop_last(), w, id);
        let rest = without_world(worlds.drop_last(), id);
        if worlds.last().id@ != id {
            assert forall|k: int| 0 <= k < rest.push(worlds.last()).len() implies (#[trigger] rest.push(worlds.last())[k]).id@ != id by {
                if k < rest.len() {
                    assert(rest.push(worlds.last())[k] == rest[k]);
                }
            }
        }
    }
}

} // verus!
