use vstd::prelude::*;

verus! {

/// Which content variant is active: the stage key, the time spent in
/// exploration since tracking began, and the dwell threshold past which the
/// key escalates, once, to the fallback_key key.
pub struct DialogueStage {
    pub stage: String,
    pub elapsed: u64,
    pub threshold: u64,
    pub fallback_key: String,
}

impl DialogueStage {
    /// Whether escalation has fired: the accumulated time went past the
    /// threshold. The key flips on the tick with which this first becomes
    /// true, and elapsed time only grows, so it can flip at most once.
    pub open spec fn escalated(&self) -> bool {
        self.elapsed > self.threshold
    }

    /// Stage tracking starts at the default key with a dwell threshold of 30
    /// time units and the fallback_key key `stage_too_long`.
    pub fn new() -> (s: DialogueStage)
        ensures
            s.stage@ == "default"@,
            s.elapsed == 0,
            s.threshold == 30,
            s.fallback_key@ == "stage_too_long"@,
    {
        DialogueStage {
            stage: "default".to_owned(),
            elapsed: 0,
            threshold: 30,
            fallback_key: "stage_too_long".to_owned(),
        }
    }
}

/// Accumulates elapsed time (saturating at the largest representable value)
/// and flips the stage key to the fallback_key key exactly once: on the tick
/// with which the elapsed time first goes past the threshold. Any tick
/// before or after that leaves the key unchanged.
pub fn progress_stages(stage: &mut DialogueStage, delta: u64)
    ensures
        final(stage).elapsed == old(stage).elapsed.saturating_add(delta),
        final(stage).threshold == old(stage).threshold,
        final(stage).fallback_key == old(stage).fallback_key,
        final(stage).stage == if !old(stage).escalated() && final(stage).escalated() {
            old(stage).fallback_key
        } else {
            old(stage).stage
        },
{
    let already = stage.elapsed > stage.threshold;
    stage.elapsed = stage.elapsed.saturating_add(delta);
    if !already && stage.elapsed > stage.threshold {
        stage.stage = stage.fallback_key.clone();
    }
}

} // verus!
