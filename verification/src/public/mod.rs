//! What the services publish to each other.
use vstd::prelude::*;

pub mod planet;
pub mod civilization;
pub mod civilisation;

verus! {

/// A web component of a world: the tag that shows it and the id of what it
/// shows.
#[derive(Clone, Debug, PartialEq, Eq)]
pub struct Component {
    pub balise: String,
    pub id: String,
}

impl Component {
    /// A copy of the component.
    pub fn duplicate(&self) -> (r: Component)
        ensures
            r == *self,
    {
        Component { balise: self.balise.clone(), id: self.id.clone() }
    }
}

} // verus!
