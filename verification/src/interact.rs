use vstd::prelude::*;

verus! {

/// What the proximity collaborator reports: the identifier of the
/// conversation source the player is in range of, if any.
pub struct Interaction {
    pub current_interaction: Option<u64>,
}

impl Default for Interaction {
    /// Before any proximity report arrives, nothing is in range.
    fn default() -> (r: Interaction)
        ensures
            r.current_interaction is None,
    {
        Interaction { current_interaction: None }
    }
}

/// Whether a conversation session starts this pass: an edge-triggered
/// interact input arrived while the player is in range of a conversation
/// source.
pub fn start_interaction(interact: bool, interaction: &Interaction) -> (r: bool)
    ensures
        r == (interact && interaction.current_interaction is Some),
{
    interact && interaction.current_interaction.is_some()
}

} // verus!
