//! Why an account refuses a command.
use vstd::prelude::*;
use crate::text::{owned, push_str};

verus! {

/// Why an account command was refused.
#[derive(Clone, Debug, PartialEq, Eq)]
pub enum AccountError {
    AlreadyCreated,
    AccountNameCannotBeEmpty,
    NationNameCannotBeEmpty,
    InvalidOwner,
    WorldAlreadyAdded(String),
    WorldNotFound(String),
}

impl AccountError {
    /// The error's message.
    pub open spec fn spec_message(self) -> Seq<char> {
        match self {
            AccountError::AlreadyCreated => "account already created"@,
            AccountError::AccountNameCannotBeEmpty => "account name cannot be empty"@,
            AccountError::NationNameCannotBeEmpty => "nation name cannot be empty"@,
            AccountError::InvalidOwner => "owner id is not a ModelKey"@,
            AccountError::WorldAlreadyAdded(id) => "cannot add again world "@ + id@,
            AccountError::WorldNotFound(id) => "cannot remove not found world "@ + id@,
        }
    }

    /// The error's message, as `Display` writes it.
    pub fn message(&self) -> (r: String)
        ensures
            r@ == self.spec_message(),
    {
        match self {
            AccountError::AlreadyCreated => owned("account already created"),
            AccountError::AccountNameCannotBeEmpty => owned("account name cannot be empty"),
            AccountError::NationNameCannotBeEmpty => owned("nation name cannot be empty"),
            AccountError::InvalidOwner => owned("owner id is not a ModelKey"),
            AccountError::WorldAlreadyAdded(id) => {
                let mut s = owned("cannot add again world ");
                push_str(&mut s, id.as_str());
                s
            },
            AccountError::WorldNotFound(id) => {
                let mut s = owned("cannot remove not found world ");
                push_str(&mut s, id.as_str());
                s
            },
        }
    }
}

} // verus!
