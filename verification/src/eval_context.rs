//! The interface through which logic expressions query game state.

use vstd::prelude::*;

verus! {

/// Game state queries used when evaluating randomizer logic expressions.
pub trait EvalContext {
    /// Whether the player has at least `count` of the item named `item`.
    spec fn spec_has_item(&self, item: Seq<char>, count: nat) -> bool;

    /// Whether the player has at least `count` of the item named `item`.
    fn has_item(&self, item: &str, count: u32) -> (r: bool)
        ensures
            r == self.spec_has_item(item@, count as nat),
    ;

    /// Whether the event named `name` has occurred.
    fn event(&self, name: &str) -> bool;

    /// The value of the randomizer setting `name`, if known.
    fn setting(&self, name: &str) -> Option<bool>;

    /// Whether the trick `name` is enabled.
    fn trick(&self, name: &str) -> bool;

    /// Whether Link is currently an adult.
    fn is_adult(&self) -> bool;

    /// Whether Link is currently a child.
    fn is_child(&self) -> bool;

    /// The current Majora's Mask time.
    fn mm_time(&self) -> u32;
}

} // verus!
