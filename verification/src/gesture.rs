use vstd::prelude::*;
use crate::engine::{
    compute_scroll_instruction, instruction_obeys, resolved_top, ScrollInstruction,
    ScrollTelemetry, WidgetConfig,
};

verus! {

/// One side effect of a click gesture, in the order the host must carry
/// them out. The engine decides the order; the host owns the real
/// callbacks and the real viewport.
pub enum Effect {
    /// Invoke the user's begin callback.
    NotifyBegin,
    /// Carry out the viewport move.
    Perform(ScrollInstruction),
    /// Invoke the user's end callback.
    NotifyEnd,
}

/// When a click's scroll work runs: after a one-shot timer of the
/// configured delay, or at once when no delay is configured.
pub open spec fn schedule_spec(c: WidgetConfig) -> Option<u32> {
    if c.delay_ms > 0 {
        Some(c.delay_ms)
    } else {
        None
    }
}

/// What a correct gesture looks like: exactly the begin notification, then
/// one viewport move correct for the telemetry read at execution time, then
/// the end notification.
pub open spec fn gesture_effects_spec(
    c: WidgetConfig,
    t: ScrollTelemetry,
    effects: Seq<Effect>,
) -> bool {
    &&& effects.len() == 3
    &&& effects[0] is NotifyBegin
    &&& effects[1] is Perform
    &&& instruction_obeys(c, t, effects[1]->0)
    &&& effects[2] is NotifyEnd
}

/// Decides whether a click's gesture runs now or later: `Some(d)` tells the
/// host to start a one-shot timer of `d` milliseconds and run the gesture
/// when it fires; `None` tells it to run the gesture at once. The engine
/// never cancels the timer; the host owns its handle.
pub fn click_schedule(c: &WidgetConfig) -> (delay: Option<u32>)
    ensures
        delay == schedule_spec(*c),
{
    if c.delay_ms > 0 {
        Some(c.delay_ms)
    } else {
        None
    }
}

/// Produces the gesture's effects in execution order, from the telemetry
/// snapshot the host read when the gesture actually runs — after the delay,
/// if one was scheduled, since target elements may have moved meanwhile.
pub fn click_effects(c: &WidgetConfig, t: &ScrollTelemetry) -> (effects: Vec<Effect>)
    requires
        i64::MIN <= resolved_top(*c, *t) <= i64::MAX,
    ensures
        gesture_effects_spec(*c, *t, effects@),
{
    let instruction = compute_scroll_instruction(c, t);
    let mut effects: Vec<Effect> = Vec::new();
    effects.push(Effect::NotifyBegin);
    effects.push(Effect::Perform(instruction));
    effects.push(Effect::NotifyEnd);
    effects
}

/// A click with no configured delay is not deferred, and its gesture is
/// exactly the begin notification, the computed viewport move, and the end
/// notification, in that order and once each.
pub proof fn lemma_immediate_click(c: WidgetConfig, t: ScrollTelemetry, effects: Seq<Effect>)
    requires
        c.delay_ms == 0,
        gesture_effects_spec(c, t, effects),
    ensures
        schedule_spec(c) is None,
        effects =~= seq![
            Effect::NotifyBegin,
            Effect::Perform(effects[1]->0),
            Effect::NotifyEnd,
        ],
        instruction_obeys(c, t, effects[1]->0),
{
}

/// A click with a positive configured delay defers its whole gesture: the
/// engine asks the host for a one-shot timer of exactly the configured
/// delay, and the same ordered three effects make up the gesture that runs
/// when the timer fires.
pub proof fn lemma_deferred_click(c: WidgetConfig, t: ScrollTelemetry, effects: Seq<Effect>)
    requires
        c.delay_ms > 0,
        gesture_effects_spec(c, t, effects),
    ensures
        schedule_spec(c) == Some(c.delay_ms),
        effects =~= seq![
            Effect::NotifyBegin,
            Effect::Perform(effects[1]->0),
            Effect::NotifyEnd,
        ],
        instruction_obeys(c, t, effects[1]->0),
{
}

} // verus!
