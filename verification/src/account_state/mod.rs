//! An account as the server holds it: its private name, its owner, its
//! nation and the ids of its worlds; the commands it decides on and the
//! events it replays.
use vstd::prelude::*;
use crate::account_shared::Nation;
use crate::public::Component;
use crate::account_shared::command::AccountCommand;
use crate::account_shared::error::AccountError;
use crate::account_shared::event::{AccountEvent, PrvAccountEvent, PubAccountEvent};
use crate::model_key::{
    default_model_key, default_model_key_text, model_key_or_default, model_key_or_default_of,
    model_key_text, parse_model_key,
};
use crate::outcome::result_seq;

verus! {

/// The state of an account; the owner's key is held as its text.
#[derive(Clone, Debug, PartialEq, Eq)]
pub struct AccountState {
    private_name: String,
    owner: String,
    nation: Option<Nation>,
    worlds: Vec<String>,
}

/// The events that answer `command` on an account whose private name is
/// `private_name`: creation needs an owner that is a key, an account not
/// created yet and a name; a nation needs a name; worlds are added and
/// removed as asked.
pub open spec fn account_decision(private_name: Seq<char>, command: AccountCommand) -> Result<
    Seq<AccountEvent>,
    AccountError,
> {
    match command {
        AccountCommand::Create { name, owner } => if model_key_text(owner@) is None {
            Err(AccountError::InvalidOwner)
        } else if private_name.len() != 0 {
            Err(AccountError::AlreadyCreated)
        } else if name@.len() == 0 {
            Err(AccountError::AccountNameCannotBeEmpty)
        } else {
            Ok(seq![AccountEvent::Public(PubAccountEvent::Created { name, owner })])
        },
        AccountCommand::UpdateNation(nation) => if nation.name@.len() == 0 {
            Err(AccountError::NationNameCannotBeEmpty)
        } else {
            Ok(seq![AccountEvent::Private(PrvAccountEvent::NationUpdated(nation))])
        },
        AccountCommand::AddWorld(world) => Ok(
            seq![AccountEvent::Private(PrvAccountEvent::WorldAdded(world))],
        ),
        AccountCommand::RemoveWorld(id) => Ok(
            seq![AccountEvent::Private(PrvAccountEvent::WorldRemoved(id))],
        ),
    }
}

impl AccountState {
    /// The account's private name; empty until the account is created.
    pub closed spec fn spec_private_name(self) -> Seq<char> {
        self.private_name@
    }

    /// The owner's key, as text.
    pub closed spec fn spec_owner(self) -> Seq<char> {
        self.owner@
    }

    /// The account's nation, once set.
    pub closed spec fn spec_nation(self) -> Option<Nation> {
        self.nation
    }

    /// The ids of the account's worlds, in the order they were added.
    pub closed spec fn spec_worlds(self) -> Seq<String> {
        self.worlds@
    }

    /// The account once `event` is played (a removal is never played: see
    /// `play_event`).
    pub open spec fn played(self, event: AccountEvent) -> (Seq<char>, Seq<char>, Option<Nation>, Seq<String>) {
        match event {
            AccountEvent::Private(PrvAccountEvent::NationUpdated(n)) => (
                self.spec_private_name(),
                self.spec_owner(),
                Some(n),
                self.spec_worlds(),
            ),
            AccountEvent::Private(PrvAccountEvent::WorldAdded(w)) => (
                self.spec_private_name(),
                self.spec_owner(),
                self.spec_nation(),
                self.spec_worlds().push(w.id),
            ),
            AccountEvent::Private(PrvAccountEvent::WorldRemoved(_)) => (
                self.spec_private_name(),
                self.spec_owner(),
                self.spec_nation(),
                self.spec_worlds(),
            ),
            AccountEvent::Public(PubAccountEvent::Created { name, owner }) => (
                name@,
                model_key_or_default(owner@),
                self.spec_nation(),
                self.spec_worlds(),
            ),
        }
    }

    /// The content of the state.
    pub open spec fn content(self) -> (Seq<char>, Seq<char>, Option<Nation>, Seq<String>) {
        (self.spec_private_name(), self.spec_owner(), self.spec_nation(), self.spec_worlds())
    }

    /// An account not created yet: no name, the default key as owner, no
    /// nation, no world.
    pub fn new() -> (r: AccountState)
        ensures
            r.spec_private_name() == Seq::<char>::empty(),
            r.spec_owner() == default_model_key_text(),
            r.spec_nation() is None,
            r.spec_worlds() == Seq::<String>::empty(),
    {
        AccountState {
            private_name: String::new(),
            owner: default_model_key(),
            nation: None,
            worlds: Vec::new(),
        }
    }

    /// The account's private name.
    pub fn private_name(&self) -> (r: &str)
        ensures
            r@ == self.spec_private_name(),
    {
        self.private_name.as_str()
    }

    /// The owner's key, as text.
    pub fn owner(&self) -> (r: &String)
        ensures
            r@ == self.spec_owner(),
    {
        &self.owner
    }

    /// The account's nation, once set.
    pub fn nation(&self) -> (r: &Option<Nation>)
        ensures
            *r == self.spec_nation(),
    {
        &self.nation
    }

    /// The ids of the account's worlds.
    pub fn worlds(&self) -> (r: &Vec<String>)
        ensures
            r@ == self.spec_worlds(),
    {
        &self.worlds
    }

    /// Plays `event` on the account. Removing a world is not supported by
    /// the account's state, so such an event is not accepted.
    pub fn play_event(&mut self, event: &AccountEvent)
        requires
            !(*event matches AccountEvent::Private(PrvAccountEvent::WorldRemoved(_))),
        ensures
            final(self).content() == old(self).played(*event),
    {
        match event {
            AccountEvent::Private(PrvAccountEvent::NationUpdated(nation)) => {
                self.nation = Some(nation.duplicate());
            },
            AccountEvent::Private(PrvAccountEvent::WorldAdded(world)) => {
                self.worlds.push(world.id.clone());
            },
            AccountEvent::Private(PrvAccountEvent::WorldRemoved(_)) => {},
            AccountEvent::Public(PubAccountEvent::Created { name, owner }) => {
                self.private_name = name.clone();
                self.owner = model_key_or_default_of(owner.as_str());
            },
        }
    }

    /// The events that answer `command`, or why it is refused.
    pub fn try_command(&self, command: AccountCommand) -> (r: Result<Vec<AccountEvent>, AccountError>)
        ensures
            result_seq(r) == account_decision(self.spec_private_name(), command),
    {
        let ghost c = command;
        let ev = match command {
            AccountCommand::Create { name, owner } => {
                if parse_model_key(owner.as_str()).is_none() {
                    return Err(AccountError::InvalidOwner);
                }
                if !self.private_name.as_str().is_empty() {
                    return Err(AccountError::AlreadyCreated);
                }
                if name.as_str().is_empty() {
                    return Err(AccountError::AccountNameCannotBeEmpty);
                }
                AccountEvent::Public(PubAccountEvent::Created { name, owner })
            },
            AccountCommand::UpdateNation(nation) => {
                if nation.name.as_str().is_empty() {
                    return Err(AccountError::NationNameCannotBeEmpty);
                }
                AccountEvent::Private(PrvAccountEvent::NationUpdated(nation))
            },
            AccountCommand::AddWorld(world) => AccountEvent::Private(PrvAccountEvent::WorldAdded(world)),
            AccountCommand::RemoveWorld(id) => AccountEvent::Private(PrvAccountEvent::WorldRemoved(id)),
        };
        let r = vec![ev];
        proof {
            assert(r@ =~= seq![ev]);
        }
        Ok(r)
    }
}

impl Default for AccountState {
    /// An account not created yet.
    fn default() -> (r: AccountState)
        ensures
            r.spec_private_name() == Seq::<char>::empty(),
            r.spec_owner() == default_model_key_text(),
            r.spec_nation() is None,
            r.spec_worlds() == Seq::<String>::empty(),
    {
        AccountState::new()
    }
}

} // verus!

verus! {

/// Creating once: an accepted creation, once played, gives the account the
/// (non-empty) name of the command and the owner it names, and any later
/// creation with a valid owner is refused as already created.
pub proof fn law_created_once(
    s: AccountState,
    name: String,
    owner: String,
    evs: Seq<AccountEvent>,
    name2: String,
    owner2: String,
)
    requires
        account_decision(s.spec_private_name(), AccountCommand::Create { name, owner }) == Ok::<
            Seq<AccountEvent>,
            AccountError,
        >(evs),
        model_key_text(owner2@) is Some,
    ensures
        evs.len() == 1,
        s.played(evs[0]).0 == name@,
        s.played(evs[0]).1 == model_key_text(owner@)->0,
        account_decision(s.played(evs[0]).0, AccountCommand::Create { name: name2, owner: owner2 })
            == Err::<Seq<AccountEvent>, AccountError>(AccountError::AlreadyCreated),
{
}

/// Naming the nation: an accepted nation, once played, is the account's.
pub proof fn law_nation_update(s: AccountState, nation: Nation, evs: Seq<AccountEvent>)
    requires
        account_decision(s.spec_private_name(), AccountCommand::UpdateNation(nation)) == Ok::<
            Seq<AccountEvent>,
            AccountError,
        >(evs),
    ensures
        evs.len() == 1,
        s.played(evs[0]).2 == Some(nation),
        nation.name@.len() > 0,
{
}


/// Naming the nation: a nation update is refused exactly when the nation's
/// name is empty, whatever its description and whatever the account; when
/// accepted it records that very nation.
pub proof fn law_nation_refused_only_unnamed(private_name: Seq<char>, nation: Nation)
    ensures
        account_decision(private_name, AccountCommand::UpdateNation(nation)) is Ok <==> nation.name@.len() > 0,
        nation.name@.len() > 0 ==> account_decision(private_name, AccountCommand::UpdateNation(nation))
            == Ok::<Seq<AccountEvent>, AccountError>(
            seq![AccountEvent::Private(PrvAccountEvent::NationUpdated(nation))],
        ),
        nation.name@.len() == 0 ==> account_decision(private_name, AccountCommand::UpdateNation(nation))
            == Err::<Seq<AccountEvent>, AccountError>(AccountError::NationNameCannotBeEmpty),
{
}


/// When an account command is accepted: a creation exactly when the owner
/// is a key, the account is not created yet and the name is not empty,
/// announcing that name and owner; adding or removing a world always.
pub proof fn law_account_acceptance(private_name: Seq<char>, name: String, owner: String, world: Component, id: String)
    ensures
        account_decision(private_name, AccountCommand::Create { name, owner }) is Ok <==> (
            model_key_text(owner@) is Some && private_name.len() == 0 && name@.len() > 0),
        account_decision(private_name, AccountCommand::Create { name, owner }) is Ok ==> account_decision(
            private_name,
            AccountCommand::Create { name, owner },
        ) == Ok::<Seq<AccountEvent>, AccountError>(
            seq![AccountEvent::Public(PubAccountEvent::Created { name, owner })],
        ),
        account_decision(private_name, AccountCommand::AddWorld(world)) == Ok::<Seq<AccountEvent>, AccountError>(
            seq![AccountEvent::Private(PrvAccountEvent::WorldAdded(world))],
        ),
        account_decision(private_name, AccountCommand::RemoveWorld(id)) == Ok::<Seq<AccountEvent>, AccountError>(
            seq![AccountEvent::Private(PrvAccountEvent::WorldRemoved(id))],
        ),
{
}

} // verus!
