use scratchpad::method::ScratchPadMethod;
use scratchpad::pad::ScratchPad;
use scratchpad::shell::App;

fn assert_fresh(p: &ScratchPad) {
    assert_eq!(p.title, "New Scratch Pad");
    assert_eq!(p.method, ScratchPadMethod::GET);
    assert!(p.url.is_empty());
    assert!(p.body.is_empty());
    assert!(p.request_headers.is_empty());
    assert!(p.response_body.is_empty());
    assert!(p.response_headers.is_empty());
    assert_eq!(p.response_status, 200);
    assert_eq!(p.response_time_ms, 0);
    assert_eq!(p.response_size, 0);
}

#[test]
fn new_app_is_empty() {
    let app = App::new();
    assert!(app.scratchpads().is_empty());
    assert_eq!(app.current_scratchpad(), None);
    assert!(!app.confirm_delete());
    assert_eq!(app.close_button(), "\u{274c}");
    assert!(app.current_pad().is_none());
}

#[test]
fn new_pad_has_defaults() {
    assert_fresh(&ScratchPad::new());
}

#[test]
fn create_three_pads() {
    let mut app = App::new();
    for _ in 0..3 {
        app.create_pad();
    }
    assert_eq!(app.scratchpads().len(), 3);
    for p in app.scratchpads() {
        assert_fresh(p);
    }
    assert_eq!(app.current_scratchpad(), None);
}

#[test]
fn create_keeps_selection() {
    let mut app = App::new();
    app.create_pad();
    app.select_pad(0);
    app.create_pad();
    assert_eq!(app.current_scratchpad(), Some(0));
    assert_eq!(app.scratchpads().len(), 2);
}

#[test]
fn each_position_selects_its_own_pad() {
    let mut app = App::new();
    for _ in 0..4 {
        app.create_pad();
    }
    for i in 0..4 {
        app.select_pad(i);
        assert_eq!(app.current_scratchpad(), Some(i));
    }
}

#[test]
fn select_out_of_range_does_nothing() {
    let mut app = App::new();
    app.create_pad();
    app.select_pad(1);
    assert_eq!(app.current_scratchpad(), None);
    app.select_pad(usize::MAX);
    assert_eq!(app.current_scratchpad(), None);
}

#[test]
fn single_press_only_arms() {
    let mut app = App::new();
    app.create_pad();
    app.create_pad();
    app.select_pad(1);
    let removed = app.press_close();
    assert!(removed.is_none());
    assert_eq!(app.scratchpads().len(), 2);
    assert_eq!(app.current_scratchpad(), Some(1));
    assert!(app.confirm_delete());
    assert_eq!(app.close_button(), "\u{2705}");
}

#[test]
fn press_without_selection_does_nothing() {
    let mut app = App::new();
    app.create_pad();
    assert!(app.press_close().is_none());
    assert!(!app.confirm_delete());
    assert!(app.press_close().is_none());
    assert_eq!(app.scratchpads().len(), 1);
}

#[test]
fn delete_clears_selection_at_every_position() {
    for k in 0..3 {
        let mut app = App::new();
        for _ in 0..3 {
            app.create_pad();
        }
        app.select_pad(k);
        app.press_close();
        assert!(app.press_close().is_some());
        assert_eq!(app.current_scratchpad(), None);
        assert!(app.current_pad().is_none());
        assert_eq!(app.scratchpads().len(), 2);
    }
}

#[test]
fn delete_shifts_later_pads_down() {
    let mut app = App::new();
    for _ in 0..4 {
        app.create_pad();
    }
    let urls = ["a", "b", "c", "d"];
    for (i, u) in urls.iter().enumerate() {
        app.select_pad(i);
        app.set_url(u.to_string());
    }
    app.select_pad(1);
    app.press_close();
    let removed = app.press_close().unwrap();
    assert_eq!(removed.url, "b");
    let left: Vec<&str> = app.scratchpads().iter().map(|p| p.url.as_str()).collect();
    assert_eq!(left, vec!["a", "c", "d"]);
    // the old last position names no pad any more
    app.select_pad(3);
    assert_eq!(app.current_scratchpad(), None);
    app.select_pad(2);
    assert_eq!(app.current_pad().unwrap().url, "d");
}

#[test]
fn select_then_detail_shows_method_and_url() {
    let mut app = App::new();
    app.create_pad();
    app.create_pad();
    app.select_pad(1);
    app.set_method(ScratchPadMethod::PATCH);
    app.set_url(String::from("https://example.org/items"));
    app.select_pad(0);
    let shown = app.current_pad().unwrap();
    assert_eq!(shown.method, ScratchPadMethod::GET);
    assert_eq!(shown.url, "");
    app.select_pad(1);
    let shown = app.current_pad().unwrap();
    assert_eq!(shown.method, ScratchPadMethod::PATCH);
    assert_eq!(shown.url, "https://example.org/items");
    assert_eq!(app.scratchpads()[0].method, ScratchPadMethod::GET);
}

#[test]
fn edits_without_selection_do_nothing() {
    let mut app = App::new();
    app.create_pad();
    app.set_method(ScratchPadMethod::HEAD);
    app.set_url(String::from("x"));
    assert_fresh(&app.scratchpads()[0]);
}

#[test]
fn armed_state_survives_selecting_another_pad() {
    let mut app = App::new();
    app.create_pad();
    app.create_pad();
    app.select_pad(0);
    app.press_close();
    app.select_pad(1);
    assert!(app.confirm_delete());
    let removed = app.press_close();
    assert!(removed.is_some());
    assert_eq!(app.scratchpads().len(), 1);
}

#[test]
fn create_select_arm_confirm_scenario() {
    let mut app = App::new();
    app.create_pad();
    app.create_pad();
    app.create_pad();
    for p in app.scratchpads() {
        assert_eq!(p.title, "New Scratch Pad");
    }
    app.select_pad(1);
    app.press_close();
    app.press_close();
    assert_eq!(app.scratchpads().len(), 2);
    assert_eq!(app.current_scratchpad(), None);
    assert!(!app.confirm_delete());
    assert_eq!(app.close_button(), "\u{274c}");
}

#[test]
fn method_names_and_order() {
    let names: Vec<&str> = ScratchPadMethod::all().iter().map(|m| m.name()).collect();
    assert_eq!(names, vec!["GET", "POST", "PUT", "PATCH", "DELETE", "OPTIONS", "HEAD"]);
}
