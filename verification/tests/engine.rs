use scroll_rs::engine::{
    compute_scroll_instruction, evaluate_visibility, ScrollTelemetry, ScrollWidgetEngine,
    WidgetConfig,
};
use scroll_rs::Behavior;

fn telemetry(scroll_y: i64) -> ScrollTelemetry {
    ScrollTelemetry {
        scroll_y,
        watch_element_top: None,
        scroll_target_element_top: None,
    }
}

#[test]
fn default_config_matches_documented_defaults() {
    let c = WidgetConfig::default();
    assert!(matches!(c.behavior, Behavior::Smooth));
    assert_eq!(c.target_top, 0);
    assert_eq!(c.target_left, 0);
    assert_eq!(c.offset, 0);
    assert_eq!(c.delay_ms, 0);
    assert!(c.auto_hide);
    assert_eq!(c.threshold, 20);
    assert!(c.update_url_hash);
    assert!(c.watch_id.is_none());
    assert!(c.scroll_target_id.is_none());
}

#[test]
fn visible_above_threshold() {
    let c = WidgetConfig::default();
    assert!(evaluate_visibility(&c, &telemetry(21)));
}

#[test]
fn hidden_at_threshold() {
    let c = WidgetConfig::default();
    assert!(!evaluate_visibility(&c, &telemetry(20)));
    assert!(!evaluate_visibility(&c, &telemetry(0)));
}

#[test]
fn watched_element_decides_when_it_resolves() {
    let c = WidgetConfig {
        watch_id: Some("header".to_string()),
        ..WidgetConfig::default()
    };
    let t = ScrollTelemetry {
        scroll_y: 10,
        watch_element_top: Some(-50),
        scroll_target_element_top: None,
    };
    assert!(evaluate_visibility(&c, &t));
}

#[test]
fn watched_element_ignores_threshold() {
    let c = WidgetConfig {
        watch_id: Some("header".to_string()),
        threshold: 1_000_000,
        ..WidgetConfig::default()
    };
    let t = ScrollTelemetry {
        scroll_y: 10,
        watch_element_top: Some(-50),
        scroll_target_element_top: None,
    };
    assert!(evaluate_visibility(&c, &t));
    let below = ScrollTelemetry {
        scroll_y: -51,
        watch_element_top: Some(-50),
        scroll_target_element_top: None,
    };
    assert!(!evaluate_visibility(&c, &below));
}

#[test]
fn unresolved_watched_element_falls_back_to_threshold() {
    let c = WidgetConfig {
        watch_id: Some("header".to_string()),
        ..WidgetConfig::default()
    };
    assert!(evaluate_visibility(&c, &telemetry(21)));
    assert!(!evaluate_visibility(&c, &telemetry(20)));
}

#[test]
fn stray_watch_telemetry_without_watch_id_is_ignored() {
    let c = WidgetConfig::default();
    let t = ScrollTelemetry {
        scroll_y: 21,
        watch_element_top: Some(1_000_000),
        scroll_target_element_top: None,
    };
    assert!(evaluate_visibility(&c, &t));
}

#[test]
fn always_visible_when_auto_hide_off() {
    let c = WidgetConfig {
        auto_hide: false,
        ..WidgetConfig::default()
    };
    assert!(evaluate_visibility(&c, &telemetry(0)));
    assert!(evaluate_visibility(&c, &telemetry(-10)));
}

#[test]
fn unresolved_target_falls_back_to_absolute_destination() {
    let c = WidgetConfig {
        target_left: 500,
        ..WidgetConfig::default()
    };
    let r = compute_scroll_instruction(&c, &telemetry(1234));
    assert_eq!(r.top, 0);
    assert_eq!(r.left, 500);
    assert!(matches!(r.behavior, Behavior::Smooth));
}

#[test]
fn configured_target_id_without_resolution_falls_back() {
    let c = WidgetConfig {
        scroll_target_id: Some("missing".to_string()),
        target_top: 40,
        offset: 2,
        ..WidgetConfig::default()
    };
    let r = compute_scroll_instruction(&c, &telemetry(0));
    assert_eq!(r.top, 42);
}

#[test]
fn resolved_target_aligns_with_element_top() {
    let c = WidgetConfig {
        scroll_target_id: Some("bottom-scroll".to_string()),
        target_left: 7,
        ..WidgetConfig::default()
    };
    let t = ScrollTelemetry {
        scroll_y: 0,
        watch_element_top: None,
        scroll_target_element_top: Some(800),
    };
    let r = compute_scroll_instruction(&c, &t);
    assert_eq!(r.top, 800);
    assert_eq!(r.left, 7);
}

#[test]
fn offset_adjusts_both_target_branches() {
    let absolute = WidgetConfig {
        target_top: 100,
        offset: -30,
        ..WidgetConfig::default()
    };
    assert_eq!(compute_scroll_instruction(&absolute, &telemetry(0)).top, 70);

    let via_element = WidgetConfig {
        scroll_target_id: Some("section".to_string()),
        offset: 25,
        ..WidgetConfig::default()
    };
    let t = ScrollTelemetry {
        scroll_y: 0,
        watch_element_top: None,
        scroll_target_element_top: Some(800),
    };
    assert_eq!(compute_scroll_instruction(&via_element, &t).top, 825);
}

#[test]
fn behavior_passes_through_unchanged() {
    for behavior in [Behavior::Auto, Behavior::Instant, Behavior::Smooth] {
        let c = WidgetConfig {
            behavior,
            ..WidgetConfig::default()
        };
        let r = compute_scroll_instruction(&c, &telemetry(0));
        assert!(r.behavior == c.behavior);
    }
}

#[test]
fn hash_pushed_when_updates_on() {
    let c = WidgetConfig {
        scroll_target_id: Some("top".to_string()),
        ..WidgetConfig::default()
    };
    let r = compute_scroll_instruction(&c, &telemetry(0));
    assert_eq!(r.hash_to_push.as_deref(), Some("top"));
}

#[test]
fn hash_empty_when_no_target_configured() {
    let c = WidgetConfig::default();
    let r = compute_scroll_instruction(&c, &telemetry(0));
    assert_eq!(r.hash_to_push.as_deref(), Some(""));
}

#[test]
fn hash_absent_when_updates_off() {
    let c = WidgetConfig {
        update_url_hash: false,
        scroll_target_id: Some("top".to_string()),
        ..WidgetConfig::default()
    };
    let r = compute_scroll_instruction(&c, &telemetry(0));
    assert!(r.hash_to_push.is_none());
}

#[test]
fn engine_starts_hidden_and_tracks_telemetry() {
    let mut engine = ScrollWidgetEngine::new(WidgetConfig::default());
    assert!(!engine.is_visible());

    assert!(engine.evaluate_visibility(&telemetry(21)));
    assert!(engine.is_visible());

    assert!(!engine.evaluate_visibility(&telemetry(5)));
    assert!(!engine.is_visible());

    assert_eq!(engine.config().threshold, 20);
}

#[test]
fn engine_instruction_matches_free_function() {
    let config = WidgetConfig {
        target_top: 100,
        offset: 11,
        target_left: 3,
        ..WidgetConfig::default()
    };
    let engine = ScrollWidgetEngine::new(config);
    let r = engine.compute_scroll_instruction(&telemetry(0));
    assert_eq!(r.top, 111);
    assert_eq!(r.left, 3);
}
