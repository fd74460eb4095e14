use dialogue::interact::Interaction;
use dialogue::runtime::{DialogueRuntime, PassInputs};
use dialogue::session::AppState;
use dialogue::sync::{
    ButtonInteraction, DelayQueue, PostDialogueFlushEvent, ResponseButtonClicked,
    ResponseButtonElementData, UiSurface, UpdateDialogueUIEvent,
};

const TEST_DIALOGUE_YAML: &str = "\
default:
  dialogue:
    text: \"Hi\"
    responses:
      - text: \"Hello\"
        dialogue:
          text: \"I can't talk now.\"
          responses:
            - text: \"Oh..\"
      - text: \"Goodbye\"
";

fn snapshot(text: &str, labels: &[(&str, usize, bool)]) -> UpdateDialogueUIEvent {
    UpdateDialogueUIEvent {
        dialogue_text: text.to_string(),
        response_buttons: labels
            .iter()
            .map(|(t, id, skip)| ResponseButtonElementData {
                text: t.to_string(),
                id: *id,
                skip: *skip,
            })
            .collect(),
    }
}

fn idle_inputs() -> PassInputs {
    PassInputs {
        delta: 0,
        interact: false,
        exit_dialogue: false,
        proximity: Interaction { current_interaction: None },
        click: None,
    }
}

#[test]
fn flush_destroys_every_element_before_populate_runs() {
    let mut ui = UiSurface::setup_dialogue_ui();
    let first = snapshot("Hi", &[("Hello", 0, false), ("Goodbye", 1, false)]);
    let post = ui.flush_dialogue_ui(Some(first)).unwrap();
    assert_eq!(ui.buttons.len(), 0);
    ui.refresh_dialogue_response_ui(true, Some(&post));
    assert_eq!(ui.buttons.len(), 2);
    let second = snapshot("I can't talk now.", &[("Oh..", 0, false)]);
    ui.flush_dialogue_ui(Some(second)).unwrap();
    assert_eq!(ui.buttons.len(), 0);
}

#[test]
fn populate_tags_each_element_with_its_index_and_honours_skip() {
    let mut ui = UiSurface::setup_dialogue_ui();
    let ev = snapshot("Hi", &[("Hello", 0, false), ("quiet", 1, true), ("Goodbye", 2, false)]);
    let post = ui.flush_dialogue_ui(Some(ev)).unwrap();
    ui.refresh_dialogue_response_ui(true, Some(&post));
    assert_eq!(ui.buttons.len(), 2);
    assert_eq!(ui.buttons[0].response_index, 0);
    assert_eq!(ui.buttons[1].response_index, 2);
    ui.refresh_dialogue_text_ui(true, Some(&post));
    assert_eq!(ui.dialogue_text, "Hi");
}

#[test]
fn populate_against_an_ended_session_creates_nothing() {
    let mut ui = UiSurface::setup_dialogue_ui();
    let ev = snapshot("Hi", &[("Hello", 0, false)]);
    let post = ui.flush_dialogue_ui(Some(ev)).unwrap();
    ui.refresh_dialogue_response_ui(false, Some(&post));
    assert_eq!(ui.buttons.len(), 0);
    ui.refresh_dialogue_text_ui(false, Some(&post));
    assert_eq!(ui.dialogue_text, "...");
}

#[test]
fn without_a_surface_nothing_is_flushed_or_emitted() {
    let mut ui = UiSurface::setup_dialogue_ui();
    ui.container_exists = false;
    let ev = snapshot("Hi", &[("Hello", 0, false)]);
    assert!(ui.flush_dialogue_ui(Some(ev)).is_none());
}

#[test]
fn a_sent_event_is_observable_only_after_the_pass_boundary() {
    let mut q: DelayQueue<ResponseButtonClicked> = DelayQueue::new();
    q.send(ResponseButtonClicked(1));
    assert_eq!(q.drain_one(), None);
    q.advance_pass();
    assert_eq!(q.drain_one(), Some(ResponseButtonClicked(1)));
    q.advance_pass();
    assert_eq!(q.drain_one(), None);
}

#[test]
fn an_undrained_event_expires_at_the_following_boundary() {
    let mut q: DelayQueue<u32> = DelayQueue::new();
    q.send(7);
    q.advance_pass();
    q.advance_pass();
    assert_eq!(q.drain_one(), None);
}

#[test]
fn activation_is_edge_triggered() {
    let mut ui = UiSurface::setup_dialogue_ui();
    let ev = snapshot("Hi", &[("Hello", 0, false), ("Goodbye", 1, false)]);
    let post = ui.flush_dialogue_ui(Some(ev)).unwrap();
    ui.refresh_dialogue_response_ui(true, Some(&post));
    let click = ui.response_button_interactions(1, ButtonInteraction::Clicked, ButtonInteraction::Idle);
    assert_eq!(click, Some(ResponseButtonClicked(1)));
    let held = ui.response_button_interactions(1, ButtonInteraction::Clicked, ButtonInteraction::Clicked);
    assert_eq!(held, None);
    let hover = ui.response_button_interactions(0, ButtonInteraction::Hovered, ButtonInteraction::Idle);
    assert_eq!(hover, None);
}

#[test]
fn a_full_conversation_through_the_runtime() {
    let mut rt = DialogueRuntime::new();
    let mut enter = idle_inputs();
    enter.interact = true;
    enter.proximity = Interaction { current_interaction: Some(4) };
    // Entering flushes the entry snapshot; the post-flush signal is parked.
    rt.pass(enter, TEST_DIALOGUE_YAML);
    assert_eq!(rt.session.state, AppState::Dialogue);
    assert_eq!(rt.ui.buttons.len(), 0);
    // Next pass populates the parked signal.
    rt.pass(idle_inputs(), TEST_DIALOGUE_YAML);
    assert_eq!(rt.ui.dialogue_text, "Hi");
    assert_eq!(rt.ui.buttons.len(), 2);
    assert_eq!(rt.ui.buttons[0].response_index, 0);
    // A click is observable one pass later; choosing the nested response
    // replaces the root and flushes the stale elements.
    let mut click = idle_inputs();
    click.click = Some(ResponseButtonClicked(0));
    rt.pass(click, TEST_DIALOGUE_YAML);
    rt.pass(idle_inputs(), TEST_DIALOGUE_YAML);
    assert_eq!(rt.ui.buttons.len(), 0);
    rt.pass(idle_inputs(), TEST_DIALOGUE_YAML);
    assert_eq!(rt.ui.dialogue_text, "I can't talk now.");
    assert_eq!(rt.ui.buttons.len(), 1);
    assert_eq!(rt.ui.buttons[0].response_index, 0);
    // Choosing the terminal response ends the conversation.
    let mut last = idle_inputs();
    last.click = Some(ResponseButtonClicked(0));
    rt.pass(last, TEST_DIALOGUE_YAML);
    rt.pass(idle_inputs(), TEST_DIALOGUE_YAML);
    assert_eq!(rt.session.state, AppState::Game);
}

#[test]
fn exit_mid_session_makes_the_pending_post_flush_a_no_op() {
    let mut rt = DialogueRuntime::new();
    let mut enter = idle_inputs();
    enter.interact = true;
    enter.proximity = Interaction { current_interaction: Some(4) };
    // The entry pass parks a post-flush signal for the new session.
    rt.pass(enter, TEST_DIALOGUE_YAML);
    assert_eq!(rt.session.state, AppState::Dialogue);
    // The exit arrives while that signal is still pending: the session
    // ends, and the signal must die without rendering anything.
    let mut exit = idle_inputs();
    exit.exit_dialogue = true;
    rt.pass(exit, TEST_DIALOGUE_YAML);
    assert_eq!(rt.session.state, AppState::Game);
    assert_eq!(rt.ui.buttons.len(), 0);
    rt.pass(idle_inputs(), TEST_DIALOGUE_YAML);
    assert_eq!(rt.ui.buttons.len(), 0);
    assert_eq!(rt.ui.dialogue_text, "...");
}
