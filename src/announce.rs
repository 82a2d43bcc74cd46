//! The periodic announcer: which member of the roster a greeting names, its
//! text, and how long to wait before the next one.
use vstd::prelude::*;
use vstd::arithmetic::div_mod::lemma_small_mod;

verus! {

/// The fewest seconds between two greetings.
pub const MIN_DELAY_SECS: u64 = 3600;

/// The most seconds between two greetings.
pub const MAX_DELAY_SECS: u64 = 7200;

/// A member of the roster.
pub struct Member {
    /// The name shown in the group, if the member set one.
    pub display_name: Option<String>,
    /// The account's own name.
    pub account_name: String,
}

/// The name a greeting uses: the display name if there is one, else the
/// account name.
pub open spec fn label_of(m: Member) -> Seq<char> {
    match m.display_name {
        Some(d) => d@,
        None => m.account_name@,
    }
}

/// The greeting that names `name`.
pub open spec fn greeting_of(name: Seq<char>) -> Seq<char> {
    "Hello, "@ + name + "!"@
}

/// The position in a roster of `len` members that the number `draw` selects.
pub open spec fn pick_of(len: nat, draw: nat) -> nat
    recommends
        len > 0,
{
    draw % len
}

/// The wait in seconds that the number `draw` selects.
pub open spec fn delay_of(draw: nat) -> nat {
    3600 + draw % 3601
}

/// The greeting and the wait that two numbers select from a roster.
pub open spec fn announcement_of(roster: Seq<Member>, member_draw: nat, delay_draw: nat) -> (Seq<char>, nat) {
    (greeting_of(label_of(roster[pick_of(roster.len(), member_draw) as int])), delay_of(delay_draw))
}

impl Member {
    /// The name a greeting uses for this member.
    pub fn name(&self) -> (r: String)
        ensures
            r@ == label_of(*self),
    {
        match &self.display_name {
            Some(d) => d.clone(),
            None => self.account_name.clone(),
        }
    }
}

/// The greeting that names `name`.
pub fn greeting(name: &str) -> (r: String)
    ensures
        r@ == greeting_of(name@),
{
    let mut s = String::from_str("Hello, ");
    s.append(name);
    s.append("!");
    s
}

/// The position in a roster of `len` members that the number `draw` selects.
pub fn pick_member(len: usize, draw: u64) -> (r: usize)
    requires
        len > 0,
    ensures
        r as nat == pick_of(len as nat, draw as nat),
        r < len,
{
    (draw % (len as u64)) as usize
}

/// The wait in seconds that the number `draw` selects.
pub fn delay_secs(draw: u64) -> (r: u64)
    ensures
        r as nat == delay_of(draw as nat),
        MIN_DELAY_SECS <= r <= MAX_DELAY_SECS,
{
    MIN_DELAY_SECS + draw % (MAX_DELAY_SECS - MIN_DELAY_SECS + 1)
}

/// The greeting and the wait that two numbers select from a roster.
pub fn announcement(roster: &Vec<Member>, member_draw: u64, delay_draw: u64) -> (r: (String, u64))
    requires
        roster.len() > 0,
    ensures
        (r.0@, r.1 as nat) == announcement_of(roster@, member_draw as nat, delay_draw as nat),
{
    let i = pick_member(roster.len(), member_draw);
    let name = roster[i].name();
    (greeting(name.as_str()), delay_secs(delay_draw))
}

/// The next greeting and wait, selected at random from a roster.
pub fn next_announcement(roster: &Vec<Member>) -> (r: (String, u64))
    requires
        roster.len() > 0,
    ensures
        exists|m: u64, d: u64| (r.0@, r.1 as nat) == announcement_of(roster@, m as nat, d as nat),
{
    let m: u64 = rand::random::<u64>();
    let d: u64 = rand::random::<u64>();
    announcement(roster, m, d)
}

/// Each greeting names exactly the one member at the selected position of the
/// roster, and the wait lies between one and two hours, bounds included.
pub proof fn lemma_announcement_from_roster(roster: Seq<Member>, member_draw: nat, delay_draw: nat)
    requires
        roster.len() > 0,
    ensures
        0 <= pick_of(roster.len(), member_draw) < roster.len(),
        announcement_of(roster, member_draw, delay_draw).0 == greeting_of(
            label_of(roster[pick_of(roster.len(), member_draw) as int]),
        ),
        3600 <= announcement_of(roster, member_draw, delay_draw).1 <= 7200,
{
}

/// No member is left out: every position of a roster that a machine can hold
/// is selected by some number.
pub proof fn lemma_every_member_selectable(len: nat, i: nat)
    requires
        i < len,
        len <= usize::MAX,
    ensures
        exists|draw: u64| pick_of(len, draw as nat) == i,
{
    lemma_small_mod(i, len);
    assert(pick_of(len, (i as u64) as nat) == i);
}

/// Two different names make two different greetings.
pub proof fn lemma_greetings_distinct(a: Seq<char>, b: Seq<char>)
    requires
        a != b,
    ensures
        greeting_of(a) != greeting_of(b),
{
    if greeting_of(a) == greeting_of(b) {
        reveal_strlit("Hello, ");
        reveal_strlit("!");
        let ga = greeting_of(a);
        let gb = greeting_of(b);
        assert(a =~= ga.subrange(7, ga.len() - 1));
        assert(b =~= gb.subrange(7, gb.len() - 1));
    }
}

} // verus!
