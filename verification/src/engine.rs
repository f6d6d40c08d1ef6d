use vstd::prelude::*;
use crate::common::Behavior;

verus! {

/// Static configuration of one widget instance, fixed for the instance's
/// lifetime. Pixel coordinates are whole numbers of pixels.
///
/// `watch_id` names an element whose position, instead of `threshold`, gates
/// the button's visibility; `scroll_target_id` names an element the click
/// scrolls into alignment with the viewport top, instead of the absolute
/// `target_top` / `target_left` destination.
#[derive(Clone, Debug)]
pub struct WidgetConfig {
    /// How the viewport moves.
    pub behavior: Behavior,
    /// Absolute vertical scroll destination, in pixels.
    pub target_top: i64,
    /// Absolute horizontal scroll destination, in pixels.
    pub target_left: i64,
    /// Additive adjustment to the vertical destination, in pixels.
    pub offset: i64,
    /// Delay before a click's scroll work runs, in milliseconds.
    pub delay_ms: u32,
    /// Whether visibility reacts to the scroll position at all.
    pub auto_hide: bool,
    /// Pixels of vertical scroll before the button becomes visible, used
    /// when no watched element gates visibility.
    pub threshold: i64,
    /// Whether the host should push the scroll target's id as the URL
    /// fragment after scrolling.
    pub update_url_hash: bool,
    /// Id of the element whose position gates visibility, if any.
    pub watch_id: Option<String>,
    /// Id of the element to scroll to, if any.
    pub scroll_target_id: Option<String>,
}

impl Default for WidgetConfig {
    /// The stock configuration: smooth scrolling to the absolute page top,
    /// no delay, visibility gated by a 20 px threshold, hash updates on,
    /// and no watched or targeted element.
    fn default() -> (c: WidgetConfig)
        ensures
            c.behavior == Behavior::Smooth,
            c.target_top == 0,
            c.target_left == 0,
            c.offset == 0,
            c.delay_ms == 0,
            c.auto_hide,
            c.threshold == 20,
            c.update_url_hash,
            c.watch_id is None,
            c.scroll_target_id is None,
    {
        WidgetConfig {
            behavior: Behavior::Smooth,
            target_top: 0,
            target_left: 0,
            offset: 0,
            delay_ms: 0,
            auto_hide: true,
            threshold: 20,
            update_url_hash: true,
            watch_id: None,
            scroll_target_id: None,
        }
    }
}

/// What the host read from the page for one evaluation: the current vertical
/// scroll offset, and the top coordinates of the watched element and of the
/// scroll target element where those are configured and found. A `None`
/// means the element was not configured or did not resolve, and the engine
/// silently falls back to the threshold or absolute-target branch.
#[derive(Clone, Copy, Debug)]
pub struct ScrollTelemetry {
    /// Current vertical scroll offset, in pixels.
    pub scroll_y: i64,
    /// Top coordinate of the watched element, if configured and found.
    pub watch_element_top: Option<i64>,
    /// Top coordinate of the scroll target element, if configured and found.
    pub scroll_target_element_top: Option<i64>,
}

/// One viewport move for the host to carry out: scroll to `(top, left)` with
/// `behavior`, and, if `hash_to_push` is present, push it as the URL
/// fragment without triggering navigation.
#[derive(Clone, Debug)]
pub struct ScrollInstruction {
    /// Vertical destination, in pixels.
    pub top: i64,
    /// Horizontal destination, in pixels.
    pub left: i64,
    /// How the viewport moves.
    pub behavior: Behavior,
    /// Fragment to push after scrolling, if hash updates are on.
    pub hash_to_push: Option<String>,
}

/// Whether the watched element, rather than the threshold, decides
/// visibility: the config names one and the telemetry resolved it.
pub open spec fn watch_resolves(c: WidgetConfig, t: ScrollTelemetry) -> bool {
    c.watch_id is Some && t.watch_element_top is Some
}

/// The visibility decision: always visible when `auto_hide` is off;
/// otherwise past the watched element's top when one resolves, and past the
/// fixed threshold when none does.
pub open spec fn visible_spec(c: WidgetConfig, t: ScrollTelemetry) -> bool {
    if !c.auto_hide {
        true
    } else if watch_resolves(c, t) {
        t.scroll_y > t.watch_element_top->0
    } else {
        t.scroll_y > c.threshold
    }
}

/// Whether the scroll target element, rather than the absolute destination,
/// decides the vertical destination.
pub open spec fn scroll_target_resolves(c: WidgetConfig, t: ScrollTelemetry) -> bool {
    c.scroll_target_id is Some && t.scroll_target_element_top is Some
}

/// The vertical destination as an unbounded integer: the resolved target
/// element's top plus the offset, or the absolute destination plus the
/// offset when no element resolves.
pub open spec fn resolved_top(c: WidgetConfig, t: ScrollTelemetry) -> int {
    if scroll_target_resolves(c, t) {
        t.scroll_target_element_top->0 + c.offset
    } else {
        c.target_top + c.offset
    }
}

/// The fragment pushed when hash updates are on: the scroll target's id, or
/// the empty string when none is configured.
pub open spec fn hash_spec(c: WidgetConfig) -> Seq<char> {
    if c.scroll_target_id is Some {
        c.scroll_target_id->0@
    } else {
        Seq::<char>::empty()
    }
}

/// What a correct instruction for `c` under telemetry `t` looks like, field
/// by field.
pub open spec fn instruction_obeys(
    c: WidgetConfig,
    t: ScrollTelemetry,
    r: ScrollInstruction,
) -> bool {
    &&& r.top == resolved_top(c, t)
    &&& r.left == c.target_left
    &&& r.behavior == c.behavior
    &&& (r.hash_to_push is Some <==> c.update_url_hash)
    &&& (c.update_url_hash ==> r.hash_to_push->0@ == hash_spec(c))
}

/// Decides whether the button is rendered, from the configuration and the
/// latest telemetry alone.
pub fn evaluate_visibility(c: &WidgetConfig, t: &ScrollTelemetry) -> (visible: bool)
    ensures
        visible == visible_spec(*c, *t),
{
    if !c.auto_hide {
        true
    } else {
        match (&c.watch_id, t.watch_element_top) {
            (Some(_), Some(watch_top)) => t.scroll_y > watch_top,
            _ => t.scroll_y > c.threshold,
        }
    }
}

/// Computes the viewport move a click should carry out, from the
/// configuration and the telemetry read at execution time. The caller keeps
/// the vertical destination within the pixel coordinate range; positions on
/// a real page are many orders of magnitude below the bound.
pub fn compute_scroll_instruction(c: &WidgetConfig, t: &ScrollTelemetry) -> (r: ScrollInstruction)
    requires
        i64::MIN <= resolved_top(*c, *t) <= i64::MAX,
    ensures
        instruction_obeys(*c, *t, r),
{
    let top: i64 = match (&c.scroll_target_id, t.scroll_target_element_top) {
        (Some(_), Some(element_top)) => element_top + c.offset,
        _ => c.target_top + c.offset,
    };
    let hash_to_push: Option<String> = if c.update_url_hash {
        match &c.scroll_target_id {
            Some(id) => Some(id.clone()),
            None => Some(String::new()),
        }
    } else {
        None
    };
    ScrollInstruction { top, left: c.target_left, behavior: c.behavior, hash_to_push }
}

/// One widget's engine: the immutable configuration and the last computed
/// visibility, which only `evaluate_visibility` updates.
pub struct ScrollWidgetEngine {
    config: WidgetConfig,
    visible: bool,
}

impl ScrollWidgetEngine {
    /// The configuration the engine was created with.
    pub closed spec fn spec_config(self) -> WidgetConfig {
        self.config
    }

    /// The visibility computed by the latest `evaluate_visibility` call,
    /// `false` before the first one.
    pub closed spec fn spec_visible(self) -> bool {
        self.visible
    }

    /// Creates the engine for one mounted widget; the button starts hidden
    /// until the first telemetry arrives.
    pub fn new(config: WidgetConfig) -> (engine: ScrollWidgetEngine)
        ensures
            engine.spec_config() == config,
            !engine.spec_visible(),
    {
        ScrollWidgetEngine { config, visible: false }
    }

    /// The engine's configuration.
    pub fn config(&self) -> (c: &WidgetConfig)
        ensures
            *c == self.spec_config(),
    {
        &self.config
    }

    /// The last computed visibility.
    pub fn is_visible(&self) -> (visible: bool)
        ensures
            visible == self.spec_visible(),
    {
        self.visible
    }

    /// Recomputes visibility from fresh telemetry, stores it, and returns
    /// it. The configuration never changes.
    pub fn evaluate_visibility(&mut self, t: &ScrollTelemetry) -> (visible: bool)
        ensures
            final(self).spec_config() == old(self).spec_config(),
            visible == visible_spec(old(self).spec_config(), *t),
            final(self).spec_visible() == visible,
    {
        let visible = evaluate_visibility(&self.config, t);
        self.visible = visible;
        visible
    }

    /// Computes the click's viewport move from this engine's configuration;
    /// see the free function of the same name.
    pub fn compute_scroll_instruction(&self, t: &ScrollTelemetry) -> (r: ScrollInstruction)
        requires
            i64::MIN <= resolved_top(self.spec_config(), *t) <= i64::MAX,
        ensures
            instruction_obeys(self.spec_config(), *t, r),
    {
        compute_scroll_instruction(&self.config, t)
    }
}

/// With visibility reacting to scroll and no watched element configured,
/// the button is visible exactly when the scroll offset exceeds the
/// threshold.
pub proof fn lemma_threshold_gates_visibility(c: WidgetConfig, t: ScrollTelemetry)
    requires
        c.auto_hide,
        c.watch_id is None,
    ensures
        visible_spec(c, t) == (t.scroll_y > c.threshold),
{
}

/// When a watched element is configured and resolves, visibility is decided
/// by the scroll offset against that element's top alone: the threshold is
/// ignored, so any two configurations alike but for the threshold decide
/// alike.
pub proof fn lemma_watch_overrides_threshold(
    c: WidgetConfig,
    other: WidgetConfig,
    t: ScrollTelemetry,
)
    requires
        c.auto_hide,
        watch_resolves(c, t),
        other.auto_hide == c.auto_hide,
        other.watch_id == c.watch_id,
    ensures
        visible_spec(c, t) == (t.scroll_y > t.watch_element_top->0),
        visible_spec(other, t) == visible_spec(c, t),
{
}

/// With `auto_hide` off, the button is visible whatever the telemetry says.
pub proof fn lemma_always_visible_without_auto_hide(c: WidgetConfig, t: ScrollTelemetry)
    requires
        !c.auto_hide,
    ensures
        visible_spec(c, t),
{
}

/// When the scroll target element does not resolve, a correct instruction
/// falls back to the absolute destination: `target_top` plus the offset,
/// and the literal `target_left`.
pub proof fn lemma_unresolved_target_falls_back(
    c: WidgetConfig,
    t: ScrollTelemetry,
    r: ScrollInstruction,
)
    requires
        !scroll_target_resolves(c, t),
        instruction_obeys(c, t, r),
    ensures
        r.top == c.target_top + c.offset,
        r.left == c.target_left,
{
}

/// When the scroll target element resolves, a correct instruction aligns
/// with it: the element's top plus the offset, while the horizontal
/// destination stays the literal `target_left`, never derived from the
/// element.
pub proof fn lemma_resolved_target_aligns(
    c: WidgetConfig,
    t: ScrollTelemetry,
    r: ScrollInstruction,
)
    requires
        scroll_target_resolves(c, t),
        instruction_obeys(c, t, r),
    ensures
        r.top == t.scroll_target_element_top->0 + c.offset,
        r.left == c.target_left,
{
}

/// A correct instruction carries a fragment exactly when hash updates are
/// on: the scroll target's id, or the empty string when none is
/// configured; with hash updates off it carries none, whatever the
/// target id.
pub proof fn lemma_hash_follows_update_flag(
    c: WidgetConfig,
    t: ScrollTelemetry,
    r: ScrollInstruction,
)
    requires
        instruction_obeys(c, t, r),
    ensures
        c.update_url_hash ==> r.hash_to_push is Some && r.hash_to_push->0@ == hash_spec(c),
        c.update_url_hash && c.scroll_target_id is Some ==> r.hash_to_push->0@
            == c.scroll_target_id->0@,
        c.update_url_hash && c.scroll_target_id is None ==> r.hash_to_push->0@
            == Seq::<char>::empty(),
        !c.update_url_hash ==> r.hash_to_push is None,
{
}

} // verus!
