use vstd::prelude::*;

use crate::content::{generate_dialogue_from_yaml, load_result, ContentParseError};
use crate::stages::DialogueStage;
use crate::sync::{ResponseButtonClicked, ResponseButtonElementData, UpdateDialogueUIEvent};
use crate::tree::{lemma_child_node_smaller, node_size, DialogueNode, DialogueTree};

verus! {

/// The two modes of the program: exploration, and an active conversation.
#[derive(Clone, Copy, Debug, PartialEq, Eq, Structural, Hash)]
pub enum AppState {
    Game,
    Dialogue,
}

/// A defect at the boundary between the UI layer and the core: a selection
/// index that no current response carries, or a selection delivered while no
/// session is active. The machine never changes state on such input.
#[derive(Clone, Copy, Debug, PartialEq, Eq, Structural)]
pub enum InvariantViolation {
    OutOfRangeIndex,
    StaleSignal,
}

/// What an update snapshot must carry for a root node: its display text and
/// one descriptor per response, tagged with the response's stable index,
/// none skipped.
pub open spec fn snapshot_of(root: DialogueNode, ev: UpdateDialogueUIEvent) -> bool {
    &&& ev.dialogue_text@ == root.text@
    &&& ev.response_buttons@.len() == root.responses@.len()
    &&& forall|i: int|
        0 <= i < root.responses@.len() ==> {
            &&& (#[trigger] ev.response_buttons@[i]).text@ == root.responses@[i].text@
            &&& ev.response_buttons@[i].id == i
            &&& ev.response_buttons@[i].skip == false
        }
}

/// The choice elements rendered for a snapshot of a root are exactly one
/// per response of that root, in order, tagged with the response's stable
/// index: what the populate phase shows is precisely what the machine will
/// accept back.
pub proof fn lemma_snapshot_renders_every_response(root: DialogueNode, ev: UpdateDialogueUIEvent)
    requires
        snapshot_of(root, ev),
    ensures
        crate::sync::visible_buttons(ev.response_buttons@).len() == root.responses@.len(),
        forall|i: int|
            0 <= i < root.responses@.len() ==> (#[trigger] crate::sync::visible_buttons(
                ev.response_buttons@,
            )[i]).response_index == i,
{
    crate::sync::lemma_visible_buttons_all(ev.response_buttons@);
}

/// The traversal state machine. In `Game` no tree exists; in `Dialogue` the
/// machine owns the conversation's tree. `changed` records that the root
/// was replaced in this pass and an update snapshot is owed.
pub struct DialogueSession {
    pub state: AppState,
    pub tree: Option<DialogueTree>,
    pub changed: bool,
}

impl DialogueSession {
    /// The machine's invariant: a tree exists exactly while a conversation
    /// is underway, and a snapshot is only ever owed for a live tree.
    pub open spec fn wf(&self) -> bool {
        &&& self.state is Dialogue <==> self.tree is Some
        &&& self.changed ==> self.state is Dialogue
    }

    /// Sessions start in exploration mode, owning nothing.
    pub fn new() -> (s: DialogueSession)
        ensures
            s.wf(),
            s.state is Game,
            s.tree is None,
            !s.changed,
    {
        DialogueSession { state: AppState::Game, tree: None, changed: false }
    }

    /// Whether a conversation is underway.
    pub fn is_active(&self) -> (r: bool)
        ensures
            r == (self.state is Dialogue),
    {
        matches!(self.state, AppState::Dialogue)
    }

    /// Enters a conversation: builds a fresh tree for the stage's current
    /// key from the content text, and owes a snapshot for the new root. On a
    /// load failure the session does not start and the machine is unchanged,
    /// so control stays in exploration rather than in a half-built
    /// conversation.
    pub fn setup_dialogue(&mut self, stage: &DialogueStage, source: &str) -> (r: Result<
        (),
        ContentParseError,
    >)
        requires
            old(self).wf(),
            old(self).state is Game,
        ensures
            final(self).wf(),
            match load_result(source@, stage.stage@) {
                Ok(v) => r is Ok && final(self).state is Dialogue && final(self).changed && (final(self).tree matches Some(t) && t.root@ == v),
                Err(e) => r == Err::<(), ContentParseError>(e) && *final(self) == *old(self),
            },
    {
        match generate_dialogue_from_yaml(&stage.stage, source) {
            Ok(root) => {
                self.tree = Some(DialogueTree::new(root));
                self.state = AppState::Dialogue;
                self.changed = true;
                Ok(())
            },
            Err(e) => Err(e),
        }
    }

    /// Applies one selection, tagged exactly as the most recent snapshot
    /// tagged it. A response with a nested node replaces the root with that
    /// node — the selected response and its siblings are gone for good, and
    /// a new snapshot is owed. A terminal response ends the session with
    /// nothing further owed. An out-of-range index, or a click without a
    /// session, is reported as the boundary defect it is, and the machine is
    /// left unchanged.
    pub fn on_response_chosen(&mut self, ev: ResponseButtonClicked) -> (r: Result<
        (),
        InvariantViolation,
    >)
        requires
            old(self).wf(),
        ensures
            final(self).wf(),
            old(self).state is Game ==> *final(self) == *old(self) && r == Err::<
                (),
                InvariantViolation,
            >(InvariantViolation::StaleSignal),
            old(self).state is Dialogue && ev.0 >= old(self).tree.unwrap().root.responses@.len()
                ==> *final(self) == *old(self) && r == Err::<(), InvariantViolation>(
                InvariantViolation::OutOfRangeIndex,
            ),
            old(self).state is Dialogue && ev.0 < old(self).tree.unwrap().root.responses@.len()
                && old(self).tree.unwrap().root.responses@[ev.0 as int].dialogue_node is Some ==> {
                &&& r is Ok
                &&& final(self).state is Dialogue
                &&& final(self).changed
                &&& final(self).tree matches Some(t) && t.root == old(self).tree.unwrap().root.responses@[ev.0 as int].dialogue_node.unwrap() && node_size(
                    t.root,
                ) < node_size(old(self).tree.unwrap().root)
            },
            old(self).state is Dialogue && ev.0 < old(self).tree.unwrap().root.responses@.len()
                && old(self).tree.unwrap().root.responses@[ev.0 as int].dialogue_node is None ==> {
                &&& r is Ok
                &&& final(self).state is Game
                &&& final(self).tree is None
                &&& !final(self).changed
            },
    {
        let mut tree = match self.tree.take() {
            Some(t) => t,
            None => {
                return Err(InvariantViolation::StaleSignal);
            },
        };
        if ev.0 >= tree.root.responses.len() {
            self.tree = Some(tree);
            return Err(InvariantViolation::OutOfRangeIndex);
        }
        let chosen = tree.root.responses.swap_remove(ev.0);
        match chosen.dialogue_node {
            Some(node) => {
                proof {
                    lemma_child_node_smaller(old(self).tree.unwrap().root, ev.0 as int);
                }
                tree.root = node;
                self.tree = Some(tree);
                self.changed = true;
                Ok(())
            },
            None => {
                self.state = AppState::Game;
                self.changed = false;
                Ok(())
            },
        }
    }

    /// Emits the update snapshot owed after a root replacement, and owes
    /// nothing afterwards; with no replacement pending, nothing is emitted
    /// and nothing changes.
    pub fn update_dialogue(&mut self) -> (r: Option<UpdateDialogueUIEvent>)
        requires
            old(self).wf(),
        ensures
            final(self).wf(),
            old(self).changed ==> (r matches Some(ev) && snapshot_of(
                old(self).tree.unwrap().root,
                ev,
            ) && !final(self).changed && final(self).state == old(self).state && final(self).tree
                == old(self).tree),
            !old(self).changed ==> r is None && *final(self) == *old(self),
    {
        if !self.changed {
            return None;
        }
        let tree = match &self.tree {
            Some(t) => t,
            None => {
                return None;
            },
        };
        let mut buttons: Vec<ResponseButtonElementData> = Vec::new();
        let mut i: usize = 0;
        while i < tree.root.responses.len()
            invariant
                i <= tree.root.responses@.len(),
                buttons@.len() == i as int,
                forall|k: int|
                    0 <= k < i as int ==> {
                        &&& (#[trigger] buttons@[k]).text@ == tree.root.responses@[k].text@
                        &&& buttons@[k].id == k
                        &&& buttons@[k].skip == false
                    },
            decreases tree.root.responses@.len() - i,
        {
            buttons.push(
                ResponseButtonElementData {
                    text: tree.root.responses[i].text.clone(),
                    id: i,
                    skip: false,
                },
            );
            i += 1;
        }
        let ev = UpdateDialogueUIEvent {
            dialogue_text: tree.root.text.clone(),
            response_buttons: buttons,
        };
        self.changed = false;
        Some(ev)
    }

    /// The exit signal: ends any session immediately, discarding the tree
    /// and any owed snapshot, and returns control to exploration. Snapshots
    /// already in flight for the abandoned session are the sync protocol's
    /// to consume as no-ops.
    pub fn exit_dialogue(&mut self)
        ensures
            final(self).wf(),
            final(self).state is Game,
            final(self).tree is None,
            !final(self).changed,
    {
        self.state = AppState::Game;
        self.tree = None;
        self.changed = false;
    }
}

} // verus!
