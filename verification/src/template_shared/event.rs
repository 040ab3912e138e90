//! The events of a counter.
use vstd::prelude::*;
use crate::text::{decimal, owned, push_str, spec_decimal};

verus! {

/// A pending addition: `to_add` may be added from `timestamp` (Unix
/// seconds) on.
#[derive(Clone, Copy, Debug, PartialEq, Eq, Structural)]
pub struct Delayed {
    pub id: usize,
    pub timestamp: u64,
    pub to_add: usize,
}

/// An event of a counter.
#[derive(Clone, Copy, Debug, PartialEq, Eq, Structural)]
pub enum TemplateEvent {
    Added(usize),
    Removed(usize),
    Delayed(Delayed),
    DelayDone(usize),
}

impl TemplateEvent {
    /// How the event is shown.
    pub open spec fn spec_text(self) -> Seq<char> {
        match self {
            TemplateEvent::Added(n) => "+"@ + spec_decimal(n as nat),
            TemplateEvent::Removed(n) => "-"@ + spec_decimal(n as nat),
            TemplateEvent::Delayed(_) => "~~~"@,
            TemplateEvent::DelayDone(_) => "~!~"@,
        }
    }

    /// How the event is shown, as `Display` writes it.
    pub fn text(&self) -> (r: String)
        ensures
            r@ == self.spec_text(),
    {
        match self {
            TemplateEvent::Added(n) => {
                let mut s = owned("+");
                let d = decimal(*n);
                push_str(&mut s, d.as_str());
                s
            },
            TemplateEvent::Removed(n) => {
                let mut s = owned("-");
                let d = decimal(*n);
                push_str(&mut s, d.as_str());
                s
            },
            TemplateEvent::Delayed(_) => owned("~~~"),
            TemplateEvent::DelayDone(_) => owned("~!~"),
        }
    }
}

} // verus!
