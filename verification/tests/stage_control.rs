use dialogue::content::generate_dialogue_from_yaml;
use dialogue::math::clamp;
use dialogue::stages::{progress_stages, DialogueStage};

#[test]
fn the_key_flips_exactly_once_just_past_the_threshold() {
    let mut stage = DialogueStage::new();
    assert_eq!(stage.stage, "default");
    assert_eq!(stage.threshold, 30);
    progress_stages(&mut stage, 30);
    assert_eq!(stage.stage, "default");
    progress_stages(&mut stage, 1);
    assert_eq!(stage.stage, "stage_too_long");
    progress_stages(&mut stage, 100);
    assert_eq!(stage.stage, "stage_too_long");
    assert_eq!(stage.elapsed, 131);
}

#[test]
fn one_large_tick_can_cross_the_threshold() {
    let mut stage = DialogueStage::new();
    progress_stages(&mut stage, 1000);
    assert_eq!(stage.stage, "stage_too_long");
}

#[test]
fn elapsed_time_saturates_instead_of_wrapping() {
    let mut stage = DialogueStage::new();
    progress_stages(&mut stage, u64::MAX);
    progress_stages(&mut stage, u64::MAX);
    assert_eq!(stage.elapsed, u64::MAX);
    assert_eq!(stage.stage, "stage_too_long");
}

#[test]
fn the_escalated_key_selects_the_fallback_content() {
    let source = "\
default:
  dialogue:
    text: \"Hi\"
    responses: []
stage_too_long:
  dialogue:
    text: \"You took too long.\"
    responses: []
";
    let mut stage = DialogueStage::new();
    progress_stages(&mut stage, 31);
    let node = generate_dialogue_from_yaml(&stage.stage, source).unwrap();
    assert_eq!(node.text, "You took too long.");
}

#[test]
fn clamp_bounds_integers() {
    assert_eq!(clamp(5i32, 0, 10), 5);
    assert_eq!(clamp(-3i32, 0, 10), 0);
    assert_eq!(clamp(42i32, 0, 10), 10);
    assert_eq!(clamp(0i32, 0, 10), 0);
    assert_eq!(clamp(10i32, 0, 10), 10);
}

#[test]
fn clamp_bounds_floats() {
    assert_eq!(clamp(0.5f32, 0.0, 1.0), 0.5);
    assert_eq!(clamp(-0.5f32, 0.0, 1.0), 0.0);
    assert_eq!(clamp(2.5f32, 0.0, 1.0), 1.0);
}
