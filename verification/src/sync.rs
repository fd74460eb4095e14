use vstd::prelude::*;

verus! {

/// One choice descriptor inside an update snapshot: the label, the stable
/// index into the current root's response list, and whether the populate
/// pass should skip rendering it.
#[derive(Clone, Debug, PartialEq)]
pub struct ResponseButtonElementData {
    pub text: String,
    pub id: usize,
    pub skip: bool,
}

/// An update snapshot: the display text and choice descriptors of the
/// current root, emitted on every root replacement and consumed by the sync
/// protocol across two passes.
#[derive(Debug, PartialEq)]
pub struct UpdateDialogueUIEvent {
    pub dialogue_text: String,
    pub response_buttons: Vec<ResponseButtonElementData>,
}

/// The post-flush signal: the snapshot re-emitted by the flush pass, drained
/// one pass later by the populate pass.
#[derive(Debug, PartialEq)]
pub struct PostDialogueFlushEvent(pub UpdateDialogueUIEvent);

/// A click on a rendered choice element, carrying the index the element was
/// tagged with.
#[derive(Clone, Copy, Debug, PartialEq, Eq, Structural)]
pub struct ResponseButtonClicked(pub usize);

/// One rendered interactive choice element, tagged with the stable index of
/// the response it stands for.
#[derive(Clone, Copy, Debug, PartialEq, Eq, Structural)]
pub struct UIResponseButton {
    pub response_index: usize,
}

/// The activation state of a rendered element, as the pointer collaborator
/// reports it.
#[derive(Clone, Copy, Debug, PartialEq, Eq, Structural)]
pub enum ButtonInteraction {
    Clicked,
    Hovered,
    Idle,
}

/// The elements the populate pass owes for a descriptor list: one per
/// descriptor whose skip flag is false, tagged with its index, in order.
pub open spec fn visible_buttons(s: Seq<ResponseButtonElementData>) -> Seq<UIResponseButton>
    decreases s,
{
    if s.len() == 0 {
        Seq::empty()
    } else {
        let rest = visible_buttons(s.drop_first());
        if !s[0].skip {
            seq![UIResponseButton { response_index: s[0].id }] + rest
        } else {
            rest
        }
    }
}

/// Appending one descriptor appends its element exactly when its skip flag
/// is false.
pub proof fn lemma_visible_buttons_push(s: Seq<ResponseButtonElementData>, x: ResponseButtonElementData)
    ensures
        !x.skip ==> visible_buttons(s.push(x)) =~= visible_buttons(s).push(
            (UIResponseButton { response_index: x.id }),
        ),
        x.skip ==> visible_buttons(s.push(x)) =~= visible_buttons(s),
    decreases s.len(),
{
    let b = UIResponseButton { response_index: x.id };
    if s.len() == 0 {
        assert(s.push(x)[0] == x);
        assert(s.push(x).drop_first() =~= Seq::<ResponseButtonElementData>::empty());
        if !x.skip {
            assert(visible_buttons(s.push(x)) =~= seq![b] + visible_buttons(
                Seq::<ResponseButtonElementData>::empty(),
            ));
        } else {
            assert(visible_buttons(s.push(x)) =~= visible_buttons(
                Seq::<ResponseButtonElementData>::empty(),
            ));
            assert(visible_buttons(s) =~= Seq::<UIResponseButton>::empty());
        }
    } else {
        lemma_visible_buttons_push(s.drop_first(), x);
        assert(s.push(x)[0] == s[0]);
        assert(s.push(x).drop_first() =~= s.drop_first().push(x));
        let h = UIResponseButton { response_index: s[0].id };
        if !s[0].skip && !x.skip {
            assert(seq![h] + visible_buttons(s.drop_first()).push(b) =~= (seq![h]
                + visible_buttons(s.drop_first())).push(b));
        }
    }
}

/// A descriptor list with nothing skipped renders one element per
/// descriptor, in order, each tagged with its descriptor's index.
pub proof fn lemma_visible_buttons_all(s: Seq<ResponseButtonElementData>)
    requires
        forall|i: int| 0 <= i < s.len() ==> !(#[trigger] s[i]).skip,
    ensures
        visible_buttons(s).len() == s.len(),
        forall|i: int|
            0 <= i < s.len() ==> (#[trigger] visible_buttons(s)[i]).response_index == s[i].id,
    decreases s.len(),
{
    if s.len() > 0 {
        lemma_visible_buttons_all(s.drop_first());
    }
}

/// A one-pass-delayed event queue: the explicit scheduling barrier of the
/// sync protocol. Events sent during a pass park on the arriving side and
/// become drainable only after `advance_pass` runs at the pass boundary, so
/// an event raised in one pass is observable in the next pass and never
/// earlier. Events left undrained expire at the following boundary.
pub struct DelayQueue<T> {
    pub arriving: Vec<T>,
    pub readable: Vec<T>,
}

impl<T> DelayQueue<T> {
    /// An empty queue: nothing parked, nothing readable.
    pub fn new() -> (q: DelayQueue<T>)
        ensures
            q.arriving@ =~= Seq::<T>::empty(),
            q.readable@ =~= Seq::<T>::empty(),
    {
        DelayQueue { arriving: Vec::new(), readable: Vec::new() }
    }

    /// Parks an event for the next pass; nothing becomes readable within
    /// the current pass.
    pub fn send(&mut self, ev: T)
        ensures
            final(self).arriving@ == old(self).arriving@.push(ev),
            final(self).readable@ == old(self).readable@,
    {
        self.arriving.push(ev);
    }

    /// The pass boundary: everything parked becomes readable, replacing
    /// whatever the previous pass left undrained, and the parking side
    /// empties.
    pub fn advance_pass(&mut self)
        ensures
            final(self).readable@ == old(self).arriving@,
            final(self).arriving@ =~= Seq::<T>::empty(),
    {
        let mut moved: Vec<T> = Vec::new();
        core::mem::swap(&mut moved, &mut self.arriving);
        self.readable = moved;
    }

    /// Takes the one event readable in this pass, if any; the protocol
    /// sends at most one event per pass per queue.
    pub fn drain_one(&mut self) -> (r: Option<T>)
        ensures
            final(self).arriving@ == old(self).arriving@,
            final(self).readable@ =~= Seq::<T>::empty(),
            old(self).readable@.len() > 0 ==> (r matches Some(ev) && ev == old(self).readable@[0]),
            old(self).readable@.len() == 0 ==> r is None,
    {
        if self.readable.len() == 0 {
            return None;
        }
        let mut moved: Vec<T> = Vec::new();
        core::mem::swap(&mut moved, &mut self.readable);
        let first = moved.remove(0);
        Some(first)
    }
}

/// The model of the rendering surface: whether the response container
/// exists yet, the displayed node text, and the interactive choice elements
/// currently rendered. The presentation layer mirrors exactly this state;
/// the protocol's generation barrier is stated over it.
pub struct UiSurface {
    pub container_exists: bool,
    pub dialogue_text: String,
    pub buttons: Vec<UIResponseButton>,
}

impl UiSurface {
    /// Builds the dialogue surface: the container exists, shows placeholder
    /// text and no choice elements.
    pub fn setup_dialogue_ui() -> (s: UiSurface)
        ensures
            s.container_exists,
            s.buttons@ == Seq::<UIResponseButton>::empty(),
            s.dialogue_text@ == "..."@,
    {
        UiSurface { container_exists: true, dialogue_text: "...".to_owned(), buttons: Vec::new() }
    }

    /// Phase one of the sync protocol. On a new update snapshot, destroys
    /// every rendered choice element and re-emits the snapshot as the
    /// post-flush signal, so that after this pass and before the populate
    /// pass runs, zero choice elements exist. Without a rendering surface,
    /// or without a snapshot, nothing changes and no signal is emitted.
    pub fn flush_dialogue_ui(&mut self, ev: Option<UpdateDialogueUIEvent>) -> (r: Option<
        PostDialogueFlushEvent,
    >)
        ensures
            old(self).container_exists && ev is Some ==> {
                &&& final(self).buttons@ == Seq::<UIResponseButton>::empty()
                &&& r matches Some(p) && p.0 == ev.unwrap()
            },
            !(old(self).container_exists && ev is Some) ==> {
                &&& *final(self) == *old(self)
                &&& r is None
            },
            final(self).container_exists == old(self).container_exists,
            final(self).dialogue_text == old(self).dialogue_text,
    {
        if !self.container_exists {
            return None;
        }
        match ev {
            Some(e) => {
                self.buttons = Vec::new();
                Some(PostDialogueFlushEvent(e))
            },
            None => None,
        }
    }

    /// Phase two of the sync protocol, for the choice elements. On the
    /// post-flush signal, renders exactly one element per descriptor whose
    /// skip flag is false, tagged with its index, in order. A signal that
    /// arrives while no session is active is consumed as a no-op: the
    /// conversation it belonged to has ended, and no elements are created.
    pub fn refresh_dialogue_response_ui(&mut self, session_active: bool, ev: Option<
        &PostDialogueFlushEvent,
    >)
        ensures
            old(self).container_exists && session_active && ev is Some ==> final(self).buttons@
                =~= visible_buttons(ev.unwrap().0.response_buttons@),
            !(old(self).container_exists && session_active && ev is Some)
                ==> *final(self) == *old(self),
            final(self).container_exists == old(self).container_exists,
            final(self).dialogue_text == old(self).dialogue_text,
    {
        if !self.container_exists || !session_active {
            return ;
        }
        let e = match ev {
            Some(e) => e,
            None => {
                return ;
            },
        };
        let ds = &e.0.response_buttons;
        let mut fresh: Vec<UIResponseButton> = Vec::new();
        let mut i: usize = 0;
        while i < ds.len()
            invariant
                i <= ds@.len(),
                fresh@ =~= visible_buttons(ds@.take(i as int)),
            decreases ds@.len() - i,
        {
            proof {
                lemma_visible_buttons_push(ds@.take(i as int), ds@[i as int]);
                assert(ds@.take(i as int).push(ds@[i as int]) =~= ds@.take(i as int + 1));
            }
            if !ds[i].skip {
                fresh.push(UIResponseButton { response_index: ds[i].id });
            }
            i += 1;
        }
        proof {
            assert(ds@.take(ds@.len() as int) =~= ds@);
        }
        self.buttons = fresh;
    }

    /// Phase two of the sync protocol, for the node text. On the post-flush
    /// signal, shows the snapshot's display text; a signal against an ended
    /// session, or without a surface, is consumed as a no-op.
    pub fn refresh_dialogue_text_ui(&mut self, session_active: bool, ev: Option<
        &PostDialogueFlushEvent,
    >)
        ensures
            old(self).container_exists && session_active && ev is Some
                ==> final(self).dialogue_text@ == ev.unwrap().0.dialogue_text@,
            !(old(self).container_exists && session_active && ev is Some)
                ==> *final(self) == *old(self),
            final(self).container_exists == old(self).container_exists,
            final(self).buttons == old(self).buttons,
    {
        if !self.container_exists || !session_active {
            return ;
        }
        match ev {
            Some(e) => {
                self.dialogue_text = e.0.dialogue_text.clone();
            },
            None => {},
        }
    }

    /// Selection feedback. A discrete activation of the rendered element in
    /// slot `slot` emits exactly one click event carrying the element's
    /// tagged index; an activation still held from the previous pass is
    /// edge-filtered away, and hover or rest states emit nothing (hover
    /// styling is cosmetic and lives with the presentation layer).
    pub fn response_button_interactions(
        &self,
        slot: usize,
        state: ButtonInteraction,
        was: ButtonInteraction,
    ) -> (r: Option<ResponseButtonClicked>)
        requires
            slot < self.buttons@.len(),
        ensures
            r matches Some(c) ==> c.0 == self.buttons@[slot as int].response_index,
            r is Some <==> state is Clicked && !(was is Clicked),
    {
        if matches!(state, ButtonInteraction::Clicked) && !matches!(was, ButtonInteraction::Clicked) {
            Some(ResponseButtonClicked(self.buttons[slot].response_index))
        } else {
            None
        }
    }
}

} // verus!
