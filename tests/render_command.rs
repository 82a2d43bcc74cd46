use texrender::{
    decimal, file_name, fill_color, generate_file_path, generate_render_time_message, status_line, Action, Event,
    RenderSession, Stage, IMAGE_SCALE,
};

#[test]
fn default_fill_color_is_pink() {
    assert_eq!(fill_color(None), "#FFAAAA");
}

#[test]
fn given_fill_color_passes_through() {
    assert_eq!(fill_color(Some(String::from("#00FF00"))), "#00FF00");
    assert_eq!(fill_color(Some(String::from("not a color"))), "not a color");
    assert_eq!(fill_color(Some(String::new())), "");
}

#[test]
fn decimal_of_edge_values() {
    assert_eq!(decimal(0), "0");
    assert_eq!(decimal(7), "7");
    assert_eq!(decimal(10), "10");
    assert_eq!(decimal(1234567890), "1234567890");
    assert_eq!(decimal(u64::MAX), "18446744073709551615");
}

#[test]
fn file_name_from_number() {
    assert_eq!(file_name(0), "math0.png");
    assert_eq!(file_name(42), "math42.png");
    assert_eq!(file_name(u32::MAX), "math4294967295.png");
}

#[test]
fn distinct_numbers_give_distinct_file_names() {
    assert_ne!(file_name(1), file_name(11));
    assert_ne!(file_name(12), file_name(21));
}

#[test]
fn generated_file_path_has_the_name_layout() {
    let p = generate_file_path();
    assert!(p.starts_with("math"));
    assert!(p.ends_with(".png"));
    let digits = &p[4..p.len() - 4];
    assert!(!digits.is_empty());
    assert!(digits.chars().all(|c| c.is_ascii_digit()));
    let n: u64 = digits.parse().unwrap();
    assert!(n <= u32::MAX as u64);
    assert_eq!(file_name(n as u32), p);
}

#[test]
fn status_line_opens_the_given_text() {
    assert_eq!(status_line("1.5s"), "-# Rendered in 1.5s");
    assert_eq!(status_line(""), "-# Rendered in ");
}

#[test]
fn status_line_is_the_debug_form_of_the_duration() {
    assert_eq!(generate_render_time_message(1, 500_000_000), "-# Rendered in 1.5s");
    assert_eq!(generate_render_time_message(0, 0), "-# Rendered in 0ns");
    assert_eq!(generate_render_time_message(0, 1_500), "-# Rendered in 1.5\u{b5}s");
    assert_eq!(generate_render_time_message(0, 123_456_789), "-# Rendered in 123.456789ms");
    assert_eq!(generate_render_time_message(3600, 1), "-# Rendered in 3600.000000001s");
}

#[test]
fn status_line_matches_std_debug_at_every_magnitude() {
    for (secs, nanos) in [(0u64, 0u32), (0, 7), (0, 999_999), (2, 0), (86_400, 999_999_999), (u64::MAX, 999_999_999)] {
        let expected = format!("-# Rendered in {:?}", std::time::Duration::new(secs, nanos));
        assert_eq!(generate_render_time_message(secs, nanos), expected);
    }
}

#[test]
fn malformed_elapsed_time_ends_as_failed() {
    let mut s = RenderSession::new(None, 4);
    s.step(Event::Accepted);
    s.step(Event::Done);
    s.step(Event::Done);
    assert_eq!(s.step(Event::Saved { secs: 0, nanos: 1_000_000_000 }), Action::Finish { ok: false });
}

#[test]
fn accepted_expression_flow() {
    let mut s = RenderSession::new(Some(String::from("#00FF00")), 77);
    assert_eq!(s.stage(), Stage::Rendering);
    assert_eq!(s.step(Event::Accepted), Action::Acknowledge { ephemeral: false });
    assert_eq!(s.step(Event::Done), Action::Paint { color: String::from("#00FF00") });
    assert_eq!(
        s.step(Event::Done),
        Action::Save { path: String::from("math77.png"), scale: IMAGE_SCALE }
    );
    assert_eq!(
        s.step(Event::Saved { secs: 2, nanos: 500_000_000 }),
        Action::Reply {
            content: String::from("-# Rendered in 2.5s"),
            attachment: String::from("math77.png"),
        }
    );
    assert_eq!(s.step(Event::Done), Action::Delete { path: String::from("math77.png") });
    assert_eq!(s.step(Event::Done), Action::Finish { ok: true });
    assert_eq!(s.stage(), Stage::Over { ok: true });
}

#[test]
fn accepted_expression_uses_default_color() {
    let mut s = RenderSession::new(None, 5);
    s.step(Event::Accepted);
    assert_eq!(s.step(Event::Done), Action::Paint { color: String::from("#FFAAAA") });
}

#[test]
fn rejected_expression_flow() {
    let mut s = RenderSession::new(None, 3);
    assert_eq!(s.step(Event::Rejected), Action::Acknowledge { ephemeral: true });
    assert_eq!(s.step(Event::Done), Action::Say { text: String::from("Invalid expression") });
    assert_eq!(s.step(Event::Done), Action::Finish { ok: true });
    assert_eq!(s.step(Event::Done), Action::Finish { ok: true });
}

#[test]
fn rejected_expression_never_saves() {
    let events = [Event::Rejected, Event::Done, Event::Saved { secs: 0, nanos: 1 }, Event::Done, Event::Accepted];
    let mut s = RenderSession::new(None, 9);
    for e in events {
        let a = s.step(e);
        assert!(!matches!(a, Action::Save { .. } | Action::Reply { .. } | Action::Paint { .. }));
    }
}

#[test]
fn failure_aborts_the_rest() {
    let mut s = RenderSession::new(None, 1);
    s.step(Event::Accepted);
    s.step(Event::Done);
    s.step(Event::Done);
    assert_eq!(s.step(Event::Failed), Action::Finish { ok: false });
    assert_eq!(s.stage(), Stage::Over { ok: false });
    assert_eq!(s.step(Event::Done), Action::Finish { ok: false });
}

#[test]
fn unexpected_event_ends_as_failed() {
    let mut s = RenderSession::new(None, 1);
    assert_eq!(s.step(Event::Done), Action::Finish { ok: false });
    let mut t = RenderSession::new(None, 1);
    t.step(Event::Accepted);
    t.step(Event::Done);
    t.step(Event::Done);
    assert_eq!(t.step(Event::Done), Action::Finish { ok: false });
}

#[test]
fn started_sessions_name_their_file_from_a_number() {
    let mut s = RenderSession::start(None);
    s.step(Event::Accepted);
    s.step(Event::Done);
    match s.step(Event::Done) {
        Action::Save { path, scale } => {
            assert_eq!(scale, 20);
            assert!(path.starts_with("math") && path.ends_with(".png"));
        }
        other => panic!("unexpected action {:?}", other),
    }
}
