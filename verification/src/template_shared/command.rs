//! The commands on a counter.
use vstd::prelude::*;

verus! {

/// A delayed addition: `to_add` is to be added after `delay` seconds.
#[derive(Clone, Copy, Debug, PartialEq, Eq, Structural)]
pub struct Delay {
    pub delay: usize,
    pub to_add: usize,
}

/// A command on a counter.
#[derive(Clone, Copy, Debug, PartialEq, Eq, Structural)]
pub enum TemplateCommand {
    Delayed(Delay),
    Finalize(usize),
    Add(usize),
    Reset,
}

} // verus!
