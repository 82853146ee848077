use screen_masking::color::{get_mask_color, Rgba};
use screen_masking::compute_masks;
use screen_masking::debounce::Debouncer;
use screen_masking::enumerate::{assemble_windows, RawBounds, RawWindow};
use screen_masking::filter::{get_ignored_apps, should_ignore_app};
use screen_masking::geometry::{flipped_window_y, reconcile, PanelState, Rect, WindowInfo};
use screen_masking::text::{contains_substring, str_eq};

fn panel(x: i64, y: i64, width: i64, height: i64, window_number: i64) -> PanelState {
    PanelState {
        frame: Rect { x, y, width, height },
        window_number,
        ignored_apps: get_ignored_apps(),
    }
}

fn window(x: i64, y: i64, width: i64, height: i64, window_number: i64) -> WindowInfo {
    WindowInfo {
        title: String::new(),
        app_name: String::from("SomeApp"),
        bundle_identifier: None,
        x,
        y,
        width,
        height,
        window_number,
        pid: 42,
    }
}

#[test]
fn str_eq_basic() {
    assert!(str_eq("hello", "hello"));
    assert!(!str_eq("hello", "hellO"));
    assert!(!str_eq("hello", "hell"));
    assert!(str_eq("", ""));
}

#[test]
fn contains_substring_basic() {
    assert!(contains_substring("mydockapp", "dock"));
    assert!(contains_substring("dock", "dock"));
    assert!(contains_substring("window server", "server"));
    assert!(contains_substring("anything", ""));
    assert!(!contains_substring("", "dock"));
    assert!(!contains_substring("doc", "dock"));
    assert!(!contains_substring("spotlite", "spotlight"));
}

#[test]
fn ignore_filter_case_insensitive() {
    let ignored = get_ignored_apps();
    assert!(should_ignore_app("Dock", &ignored));
    assert!(should_ignore_app("MyDockApp", &ignored));
    assert!(should_ignore_app("NOTIFICATION CENTER", &ignored));
    assert!(should_ignore_app("Window Server", &ignored));
    assert!(should_ignore_app("Finder", &ignored));
}

#[test]
fn ignore_filter_negative() {
    let ignored = get_ignored_apps();
    assert!(!should_ignore_app("Google Chrome", &ignored));
    assert!(!should_ignore_app("kitty", &ignored));
    assert!(!should_ignore_app("", &ignored));
}

#[test]
fn ignore_set_contents() {
    let ignored = get_ignored_apps();
    assert_eq!(ignored.len(), 12);
    assert_eq!(ignored[0], "notification center");
    assert_eq!(ignored[6], "dock");
    assert_eq!(ignored[11], "window server");
}

#[test]
fn color_policy_exact_match() {
    let chrome = get_mask_color("com.google.Chrome");
    assert_eq!(
        chrome,
        Rgba { red_tenths: 0, green_tenths: 0, blue_tenths: 0, alpha_tenths: 5 }
    );
    let unknown = get_mask_color("unknown.app");
    assert_eq!(
        unknown,
        Rgba { red_tenths: 0, green_tenths: 0, blue_tenths: 0, alpha_tenths: 10 }
    );
}

#[test]
fn color_policy_full_table() {
    let kitty = get_mask_color("net.kovidgoyal.kitty");
    assert_eq!(
        kitty,
        Rgba { red_tenths: 5, green_tenths: 0, blue_tenths: 5, alpha_tenths: 7 }
    );
    let discord = get_mask_color("com.hnc.DiscordPTB");
    assert_eq!(
        discord,
        Rgba { red_tenths: 0, green_tenths: 0, blue_tenths: 10, alpha_tenths: 9 }
    );
    let empty = get_mask_color("");
    assert_eq!(
        empty,
        Rgba { red_tenths: 0, green_tenths: 0, blue_tenths: 0, alpha_tenths: 10 }
    );
}

#[test]
fn coordinate_flip() {
    assert_eq!(flipped_window_y(1000, 0, 100), 900);
    assert_eq!(flipped_window_y(1000, 850, 150), 0);
    assert_eq!(flipped_window_y(1080, 0, 1080), 0);
}

#[test]
fn reconcile_excludes_self() {
    let p = panel(0, 0, 800, 600, 7);
    // A window that covers the panel exactly, but carries the panel's own
    // stacking id: it must never be masked.
    let own = window(0, 400, 800, 600, 7);
    let masks = reconcile(&p, &vec![own], 1000);
    assert!(masks.is_empty());
}

#[test]
fn reconcile_never_longer_than_input() {
    let p = panel(0, 0, 800, 600, 1);
    let windows = vec![
        window(0, 500, 100, 100, 2),
        window(0, 0, 50, 50, 3),
        window(10_000, 10_000, 10, 10, 4),
    ];
    let masks = reconcile(&p, &windows, 1000);
    assert!(masks.len() <= windows.len());
}

#[test]
fn reconcile_strict_left_adjacency() {
    let p = panel(100, 0, 800, 1000, 1);
    // rel_x = -100 - 100 = -200 = -width: the window's right edge exactly
    // touches the panel's left edge, zero overlap, excluded.
    let adjacent = window(-100, 500, 200, 100, 2);
    let masks = reconcile(&p, &vec![adjacent], 1000);
    assert!(masks.is_empty());
    // One unit further right and it overlaps.
    let overlapping = window(-99, 500, 200, 100, 2);
    let masks = reconcile(&p, &vec![overlapping], 1000);
    assert_eq!(masks.len(), 1);
}

#[test]
fn reconcile_strict_top_adjacency() {
    let p = panel(0, 0, 800, 600, 1);
    // flipped y = 1000 - 400 - 0 ... choose so rel_y == panel height exactly:
    // rel_y = 1000 - y - height - 0 == 600 with height 100 needs y = 300.
    let adjacent = window(10, 300, 100, 100, 2);
    let masks = reconcile(&p, &vec![adjacent], 1000);
    assert!(masks.is_empty());
    let overlapping = window(10, 301, 100, 100, 2);
    let masks = reconcile(&p, &vec![overlapping], 1000);
    assert_eq!(masks.len(), 1);
}

#[test]
fn reconcile_idempotent() {
    let p = panel(0, 0, 800, 600, 1);
    let windows = vec![
        window(50, 500, 200, 150, 2),
        window(-20, 700, 400, 300, 3),
        window(5000, 5000, 10, 10, 4),
    ];
    let first = reconcile(&p, &windows, 1000);
    let second = reconcile(&p, &windows, 1000);
    assert_eq!(first, second);
}

#[test]
fn reconcile_mask_fields() {
    let p = panel(0, 0, 800, 600, 1);
    let mut w = window(50, 500, 200, 150, 2);
    w.bundle_identifier = Some(String::from("com.google.Chrome"));
    w.app_name = String::from("Google Chrome");
    let masks = reconcile(&p, &vec![w], 1000);
    assert_eq!(masks.len(), 1);
    // flipped y = 1000 - 500 - 150 = 350; rel = (50, 350).
    assert_eq!(masks[0].rect, Rect { x: 50, y: 350, width: 200, height: 150 });
    assert_eq!(
        masks[0].color,
        Rgba { red_tenths: 0, green_tenths: 0, blue_tenths: 0, alpha_tenths: 5 }
    );
    assert_eq!(masks[0].label_text, "com.google.Chrome");
}

#[test]
fn reconcile_label_falls_back_to_app_name() {
    let p = panel(0, 0, 800, 600, 1);
    let w = window(50, 500, 200, 150, 2);
    let masks = reconcile(&p, &vec![w], 1000);
    assert_eq!(masks.len(), 1);
    assert_eq!(masks[0].label_text, "SomeApp");
    assert_eq!(
        masks[0].color,
        Rgba { red_tenths: 0, green_tenths: 0, blue_tenths: 0, alpha_tenths: 10 }
    );
}

#[test]
fn end_to_end_scenario() {
    // Panel frame (0,0,800,600), screen height 1000, one window at screen
    // (50,50) of size 200 x 150. The flip puts the window at panel-space
    // y = 1000 - 50 - 150 = 800, above the 600-unit-tall panel: rel_y = 800
    // is not strictly below the panel's top, so the window is excluded.
    let p = panel(0, 0, 800, 600, 1);
    let w = window(50, 50, 200, 150, 99);
    let masks = reconcile(&p, &vec![w], 1000);
    assert!(masks.is_empty());
}

#[test]
fn end_to_end_scenario_tall_panel() {
    // The same window against a panel tall enough to reach it: exactly one
    // mask, at the flipped panel-relative position, unclipped.
    let p = panel(0, 0, 800, 1000, 1);
    let w = window(50, 50, 200, 150, 99);
    let masks = reconcile(&p, &vec![w], 1000);
    assert_eq!(masks.len(), 1);
    assert_eq!(masks[0].rect, Rect { x: 50, y: 800, width: 200, height: 150 });
}

#[test]
fn debounce_coalesces_burst() {
    let mut d = Debouncer::new();
    assert_eq!(d.pending_deadline, None);
    // Three rapid moves within the 300 ms window.
    let r1 = d.on_panel_moved(1000);
    assert_eq!(r1.cancel_deadline, None);
    assert_eq!(r1.new_deadline, 1300);
    let r2 = d.on_panel_moved(1100);
    assert_eq!(r2.cancel_deadline, Some(1300));
    assert_eq!(r2.new_deadline, 1400);
    let r3 = d.on_panel_moved(1200);
    assert_eq!(r3.cancel_deadline, Some(1400));
    assert_eq!(r3.new_deadline, 1500);
    // Superseded deadlines run nothing; the final one runs exactly one pass.
    let mut passes = 0;
    for deadline in [1300, 1400, 1500, 1500] {
        if d.on_timer_fired(deadline) {
            passes += 1;
        }
    }
    assert_eq!(passes, 1);
    assert_eq!(d.pending_deadline, None);
}

#[test]
fn debounce_single_move() {
    let mut d = Debouncer::new();
    let r = d.on_panel_moved(5000);
    assert_eq!(r.new_deadline, 5300);
    assert!(d.on_timer_fired(5300));
    assert!(!d.on_timer_fired(5300));
}

#[test]
fn assemble_fails_without_list() {
    let ignored = get_ignored_apps();
    let r = assemble_windows(None, &ignored);
    assert!(r.is_err());
    assert_eq!(r.unwrap_err().message(), "Failed to get window list");
}

#[test]
fn assemble_applies_defaults() {
    let ignored = get_ignored_apps();
    let raw = RawWindow {
        owner_name: None,
        title: None,
        window_number: None,
        owner_pid: None,
        bundle_identifier: None,
        bounds: Some(RawBounds { x: None, y: Some(30), width: None, height: Some(40) }),
    };
    let ws = assemble_windows(Some(vec![raw]), &ignored).unwrap();
    assert_eq!(ws.len(), 1);
    assert_eq!(ws[0].app_name, "");
    assert_eq!(ws[0].title, "");
    assert_eq!(ws[0].bundle_identifier, None);
    assert_eq!(ws[0].x, 0);
    assert_eq!(ws[0].y, 30);
    assert_eq!(ws[0].width, 0);
    assert_eq!(ws[0].height, 40);
    assert_eq!(ws[0].window_number, 0);
    assert_eq!(ws[0].pid, 0);
}

fn raw_named(owner: &str, window_number: i64) -> RawWindow {
    RawWindow {
        owner_name: Some(String::from(owner)),
        title: Some(String::from("a title")),
        window_number: Some(window_number),
        owner_pid: Some(321),
        bundle_identifier: None,
        bounds: Some(RawBounds { x: Some(1), y: Some(2), width: Some(3), height: Some(4) }),
    }
}

#[test]
fn assemble_drops_ignored_and_boundless() {
    let ignored = get_ignored_apps();
    let dock = raw_named("Dock", 10);
    let mut boundless = raw_named("Google Chrome", 11);
    boundless.bounds = None;
    let kept_a = raw_named("Google Chrome", 12);
    let kept_b = raw_named("kitty", 13);
    let ws = assemble_windows(Some(vec![dock, boundless, kept_a, kept_b]), &ignored).unwrap();
    assert_eq!(ws.len(), 2);
    assert_eq!(ws[0].window_number, 12);
    assert_eq!(ws[0].app_name, "Google Chrome");
    assert_eq!(ws[1].window_number, 13);
    assert_eq!(ws[1].app_name, "kitty");
}

#[test]
fn compute_masks_full_pass() {
    let p = panel(0, 0, 800, 600, 1);
    let mut chrome = raw_named("Google Chrome", 12);
    chrome.bundle_identifier = Some(String::from("com.google.Chrome"));
    chrome.bounds = Some(RawBounds {
        x: Some(50),
        y: Some(500),
        width: Some(200),
        height: Some(150),
    });
    let dock = raw_named("Dock", 10);
    let own = raw_named("Screen Helper", 1);
    let masks = compute_masks(&p, Some(vec![dock, chrome, own]), 1000).unwrap();
    assert_eq!(masks.len(), 1);
    assert_eq!(masks[0].rect, Rect { x: 50, y: 350, width: 200, height: 150 });
    assert_eq!(masks[0].label_text, "com.google.Chrome");
    assert_eq!(
        masks[0].color,
        Rgba { red_tenths: 0, green_tenths: 0, blue_tenths: 0, alpha_tenths: 5 }
    );
}

#[test]
fn compute_masks_skips_pass_on_query_failure() {
    let p = panel(0, 0, 800, 600, 1);
    let r = compute_masks(&p, None, 1000);
    assert!(r.is_err());
}
