use texrender::{announcement, delay_secs, greeting, next_announcement, pick_member, Member, MAX_DELAY_SECS, MIN_DELAY_SECS};

fn member(display: Option<&str>, account: &str) -> Member {
    Member { display_name: display.map(String::from), account_name: String::from(account) }
}

fn roster() -> Vec<Member> {
    vec![member(Some("Ada"), "ada01"), member(None, "bob_b"), member(Some("Cy"), "cyrus")]
}

#[test]
fn name_prefers_display_name() {
    assert_eq!(member(Some("Ada"), "ada01").name(), "Ada");
    assert_eq!(member(None, "bob_b").name(), "bob_b");
}

#[test]
fn greeting_names_the_member() {
    assert_eq!(greeting("Ada"), "Hello, Ada!");
    assert_eq!(greeting(""), "Hello, !");
}

#[test]
fn pick_member_reduces_the_draw() {
    assert_eq!(pick_member(3, 0), 0);
    assert_eq!(pick_member(3, 4), 1);
    assert_eq!(pick_member(3, u64::MAX), (u64::MAX % 3) as usize);
    assert_eq!(pick_member(1, 12345), 0);
}

#[test]
fn every_member_is_selectable() {
    let r = roster();
    for i in 0..r.len() {
        assert_eq!(pick_member(r.len(), i as u64), i);
    }
}

#[test]
fn delay_bounds_inclusive() {
    assert_eq!(delay_secs(0), 3600);
    assert_eq!(delay_secs(3600), 7200);
    assert_eq!(delay_secs(3601), 3600);
    assert_eq!(delay_secs(1), 3601);
    let d = delay_secs(u64::MAX);
    assert!((MIN_DELAY_SECS..=MAX_DELAY_SECS).contains(&d));
}

#[test]
fn announcement_from_draws() {
    let r = roster();
    assert_eq!(announcement(&r, 0, 0), (String::from("Hello, Ada!"), 3600));
    assert_eq!(announcement(&r, 1, 3600), (String::from("Hello, bob_b!"), 7200));
    assert_eq!(announcement(&r, 5, 10), (String::from("Hello, Cy!"), 3610));
}

#[test]
fn single_member_roster() {
    let r = vec![member(None, "solo")];
    for draw in [0u64, 1, 99, u64::MAX] {
        assert_eq!(announcement(&r, draw, draw).0, "Hello, solo!");
    }
}

#[test]
fn random_announcements_stay_in_the_roster_and_range() {
    let r = roster();
    let names = ["Hello, Ada!", "Hello, bob_b!", "Hello, Cy!"];
    for _ in 0..200 {
        let (text, delay) = next_announcement(&r);
        assert_eq!(names.iter().filter(|n| **n == text).count(), 1);
        assert!((3600..=7200).contains(&delay));
    }
}
