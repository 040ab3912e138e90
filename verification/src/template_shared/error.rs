//! Why a counter refuses a command.
use vstd::prelude::*;
use crate::text::{decimal, owned, push_str, spec_decimal};

verus! {

/// Why a counter command was refused.
#[derive(Clone, Copy, Debug, PartialEq, Eq, Structural)]
pub enum TemplateError {
    AlreadyEmpty,
    CannotAdd(usize),
    DelayOutOfBound(usize),
    CannotCalculateTime,
    DelayNotFound,
}

impl TemplateError {
    /// The error's message.
    pub open spec fn spec_message(self) -> Seq<char> {
        match self {
            TemplateError::AlreadyEmpty => "cannot empty an empty state"@,
            TemplateError::CannotAdd(n) => "cannot add "@ + spec_decimal(n as nat),
            TemplateError::DelayOutOfBound(d) => "cannot wait "@ + spec_decimal(d as nat) + " seconds"@,
            TemplateError::CannotCalculateTime => "error calculating time"@,
            TemplateError::DelayNotFound => "delay not found"@,
        }
    }

    /// The error's message, as `Display` writes it.
    pub fn message(&self) -> (r: String)
        ensures
            r@ == self.spec_message(),
    {
        match self {
            TemplateError::AlreadyEmpty => owned("cannot empty an empty state"),
            TemplateError::CannotAdd(n) => {
                let mut s = owned("cannot add ");
                let d = decimal(*n);
                push_str(&mut s, d.as_str());
                s
            },
            TemplateError::DelayOutOfBound(delay) => {
                let mut s = owned("cannot wait ");
                let d = decimal(*delay);
                push_str(&mut s, d.as_str());
                push_str(&mut s, " seconds");
                s
            },
            TemplateError::CannotCalculateTime => owned("error calculating time"),
            TemplateError::DelayNotFound => owned("delay not found"),
        }
    }
}

} // verus!
