use vstd::prelude::*;

use crate::content::{load_result, ContentParseError};
use crate::interact::{start_interaction, Interaction};
use crate::session::{DialogueSession, InvariantViolation};
use crate::stages::DialogueStage;
use crate::sync::{DelayQueue, PostDialogueFlushEvent, ResponseButtonClicked, UiSurface};

verus! {

/// What the outside collaborators hand the engine for one update pass: the
/// time step, the edge-triggered interact and exit inputs, the proximity
/// report, and at most one click produced by the rendered elements.
pub struct PassInputs {
    pub delta: u64,
    pub interact: bool,
    pub exit_dialogue: bool,
    pub proximity: Interaction,
    pub click: Option<ResponseButtonClicked>,
}

/// What one pass reports back for logging: a content load failure (the
/// session then did not start), or a boundary defect in a delivered click.
pub struct PassOutcome {
    pub load_error: Option<ContentParseError>,
    pub violation: Option<InvariantViolation>,
}

/// The whole dialogue engine wired together: the stage controller, the
/// traversal state machine, the rendering-surface model, and the two
/// one-pass-delayed event queues that carry clicks into the machine and
/// post-flush signals into the populate phase.
pub struct DialogueRuntime {
    pub stage: DialogueStage,
    pub session: DialogueSession,
    pub ui: UiSurface,
    pub post_flush: DelayQueue<PostDialogueFlushEvent>,
    pub clicks: DelayQueue<ResponseButtonClicked>,
}

impl DialogueRuntime {
    /// The engine's invariant: the machine is well formed and each queue
    /// carries at most one event per side, since at most one is produced
    /// per pass.
    pub open spec fn wf(&self) -> bool {
        &&& self.session.wf()
        &&& self.post_flush.arriving@.len() <= 1
        &&& self.post_flush.readable@.len() <= 1
        &&& self.clicks.arriving@.len() <= 1
        &&& self.clicks.readable@.len() <= 1
    }

    /// A fresh engine: exploration mode, a built surface with no rendered
    /// choices, and empty queues.
    pub fn new() -> (r: DialogueRuntime)
        ensures
            r.wf(),
            r.session.state is Game,
            r.ui.buttons@.len() == 0,
            r.stage.elapsed == 0,
    {
        DialogueRuntime {
            stage: DialogueStage::new(),
            session: DialogueSession::new(),
            ui: UiSurface::setup_dialogue_ui(),
            post_flush: DelayQueue::new(),
            clicks: DelayQueue::new(),
        }
    }

    /// One update pass, in the scheduled order: the pass boundary makes last
    /// pass's events observable; the stage controller advances while the
    /// player explores; the exit signal cancels any session immediately;
    /// one delivered click drives the traversal machine; an interact input
    /// within proximity starts a session for the stage's current key; the
    /// populate phase drains last pass's post-flush signal, as a no-op if
    /// the session it belonged to is gone; and the flush phase consumes the
    /// snapshot owed this pass, destroying every rendered choice and
    /// parking the post-flush signal for the next pass.
    pub fn pass(&mut self, inputs: PassInputs, source: &str) -> (out: PassOutcome)
        requires
            old(self).wf(),
        ensures
            final(self).wf(),
            // The stage controller runs exactly while no conversation is underway.
            old(self).session.state is Game ==> final(self).stage.elapsed == old(self).stage.elapsed.saturating_add(inputs.delta),
            old(self).session.state is Dialogue ==> final(self).stage == old(self).stage,
            // The exit signal wins the pass: with no interact input, the
            // engine is back in exploration whatever else was pending.
            inputs.exit_dialogue && !inputs.interact ==> final(self).session.state is Game,
            // The click parked last pass drives the machine: descending into
            // the selected response's node, ending the session on a terminal
            // response, or reporting a stale index and standing still.
            old(self).session.state is Dialogue && !inputs.exit_dialogue
                && old(self).clicks.arriving@.len() > 0 && old(self).clicks.arriving@[0].0 < old(self).session.tree.unwrap().root.responses@.len() && old(self).session.tree.unwrap().root.responses@[old(self).clicks.arriving@[0].0 as int].dialogue_node is Some ==> {
                &&& final(self).session.state is Dialogue
                &&& final(self).session.tree matches Some(t) && t.root == old(self).session.tree.unwrap().root.responses@[old(self).clicks.arriving@[0].0 as int].dialogue_node.unwrap()
            },
            old(self).session.state is Dialogue && !inputs.exit_dialogue && !inputs.interact
                && old(self).clicks.arriving@.len() > 0 && old(self).clicks.arriving@[0].0 < old(self).session.tree.unwrap().root.responses@.len() && old(self).session.tree.unwrap().root.responses@[old(self).clicks.arriving@[0].0 as int].dialogue_node is None ==> final(self).session.state is Game && final(self).session.tree is None,
            old(self).session.state is Dialogue && !inputs.exit_dialogue
                && old(self).clicks.arriving@.len() > 0 && old(self).clicks.arriving@[0].0 >= old(self).session.tree.unwrap().root.responses@.len() ==> out.violation == Some(
                InvariantViolation::OutOfRangeIndex,
            ) && final(self).session.tree == old(self).session.tree,
            // An interact input within proximity opens a session when the
            // stage's content loads; exploration continues otherwise.
            old(self).session.state is Game && inputs.interact
                && inputs.proximity.current_interaction is Some && load_result(
                source@,
                final(self).stage.stage@,
            ) is Ok ==> final(self).session.state is Dialogue,
            // A load failure is reported and the session does not start.
            old(self).session.state is Game && inputs.interact
                && inputs.proximity.current_interaction is Some && load_result(
                source@,
                final(self).stage.stage@,
            ) is Err ==> out.load_error == Some(
                load_result(source@, final(self).stage.stage@)->Err_0,
            ) && final(self).session.state is Game,
            old(self).session.state is Game && !inputs.interact
                ==> final(self).session.state is Game,
            // The exit signal leaves any pending post-flush signal to die as
            // a no-op: the pass renders nothing new for the dead session.
            inputs.exit_dialogue && !inputs.interact ==> final(self).ui.buttons@ == old(self).ui.buttons@ && final(self).ui.dialogue_text == old(self).ui.dialogue_text,
            // The generation barrier: a pass that parked a post-flush signal
            // flushed first, so it ends with zero rendered choice elements;
            // the signal becomes observable only next pass.
            final(self).post_flush.arriving@.len() > 0 ==> final(self).ui.buttons@.len() == 0,
            // The snapshot owed for any root replacement is consumed within
            // the pass that owed it: none is ever left pending.
            final(self).session.changed == false,
            final(self).ui.container_exists == old(self).ui.container_exists,
    {
        // Pass boundary: events raised last pass become observable.
        self.post_flush.advance_pass();
        self.clicks.advance_pass();
        if let Some(c) = inputs.click {
            self.clicks.send(c);
        }
        // The world grows impatient only while the player explores.
        if !self.session.is_active() {
            crate::stages::progress_stages(&mut self.stage, inputs.delta);
        }
        // Cancellation takes effect within the pass it arrives.
        if inputs.exit_dialogue && self.session.is_active() {
            self.session.exit_dialogue();
        }
        // The one click observable this pass drives the machine; a stale
        // click, or a stale index, is reported and ignored.
        let mut violation: Option<InvariantViolation> = None;
        if let Some(click) = self.clicks.drain_one() {
            if self.session.is_active() {
                match self.session.on_response_chosen(click) {
                    Ok(()) => {},
                    Err(v) => {
                        violation = Some(v);
                    },
                }
            } else {
                violation = Some(InvariantViolation::StaleSignal);
            }
        }
        // An interact input within proximity opens a session for the
        // stage's current key; on a load failure none starts.
        let mut load_error: Option<ContentParseError> = None;
        if start_interaction(inputs.interact, &inputs.proximity) && !self.session.is_active() {
            match self.session.setup_dialogue(&self.stage, source) {
                Ok(()) => {},
                Err(e) => {
                    load_error = Some(e);
                },
            }
        }
        // Populate phase first: it may only ever see the post-flush signal
        // of an earlier pass, and checks the session is still the one the
        // signal belonged to.
        let pending = self.post_flush.drain_one();
        let active = self.session.is_active();
        self.ui.refresh_dialogue_response_ui(active, pending.as_ref());
        self.ui.refresh_dialogue_text_ui(active, pending.as_ref());
        // Flush phase: the snapshot owed for this pass's root replacement
        // destroys every rendered choice now and parks the post-flush
        // signal for the next pass.
        let snapshot = self.session.update_dialogue();
        if let Some(pf) = self.ui.flush_dialogue_ui(snapshot) {
            self.post_flush.send(pf);
        }
        PassOutcome { load_error, violation }
    }
}

} // verus!
