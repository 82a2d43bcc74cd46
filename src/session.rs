//! One invocation of the render command, as a machine from events to actions.
//!
//! The host runs the outside work: it typesets the expression, answers the
//! platform and writes and deletes the file. After each action it reports how
//! that went, and the machine names the next action.
use vstd::prelude::*;
use crate::outside::color_set_of;
use crate::render::{
    file_name, file_name_of, fill_color, fill_color_of, invalid_text, generate_render_time_message, status_line_of,
    IMAGE_SCALE,
};

verus! {

/// Where an invocation stands: the action it waits on.
#[derive(Clone, Copy, PartialEq, Eq, Debug, Structural)]
pub enum Stage {
    /// Waiting for the engine's verdict on the expression.
    Rendering,
    /// Waiting for the visible acknowledgment.
    Acknowledging,
    /// Waiting for the fill color to be applied.
    Coloring,
    /// Waiting for the image to be rasterized and written.
    Saving,
    /// Waiting for the reply with the image.
    Replying,
    /// Waiting for the file's deletion.
    Deleting,
    /// Waiting for the ephemeral acknowledgment of a refused expression.
    Refusing,
    /// Waiting for the error text to be sent.
    Excusing,
    /// Finished, successfully or not.
    Over { ok: bool },
}

/// What the host reports after an action.
#[derive(Clone, Copy, PartialEq, Eq, Debug, Structural)]
pub enum Event {
    /// The engine typeset the expression.
    Accepted,
    /// The engine refused the expression.
    Rejected,
    /// The last action succeeded.
    Done,
    /// The image was written; `secs` seconds and `nanos` nanoseconds have
    /// passed since the start. A report with `nanos` of a second or more is
    /// malformed.
    Saved { secs: u64, nanos: u32 },
    /// The last action failed.
    Failed,
}

/// What the host is asked to do next.
#[derive(PartialEq, Eq, Debug)]
pub enum Action {
    /// Acknowledge the invocation, visibly or to the invoker alone.
    Acknowledge { ephemeral: bool },
    /// Apply this fill color to the image.
    Paint { color: String },
    /// Rasterize the image at this scale and write it to this file.
    Save { path: String, scale: u32 },
    /// Send a reply with this text and this file attached.
    Reply { content: String, attachment: String },
    /// Send this text.
    Say { text: String },
    /// Delete this file.
    Delete { path: String },
    /// Stop; the invocation succeeded or failed.
    Finish { ok: bool },
}

/// The mathematical form of an action.
pub enum ActionModel {
    Acknowledge { ephemeral: bool },
    Paint { color: Seq<char> },
    Save { path: Seq<char>, scale: u32 },
    Reply { content: Seq<char>, attachment: Seq<char> },
    Say { text: Seq<char> },
    Delete { path: Seq<char> },
    Finish { ok: bool },
}

impl View for Action {
    type V = ActionModel;

    open spec fn view(&self) -> ActionModel {
        match self {
            Action::Acknowledge { ephemeral } => ActionModel::Acknowledge { ephemeral: *ephemeral },
            Action::Paint { color } => ActionModel::Paint { color: color@ },
            Action::Save { path, scale } => ActionModel::Save { path: path@, scale: *scale },
            Action::Reply { content, attachment } => ActionModel::Reply {
                content: content@,
                attachment: attachment@,
            },
            Action::Say { text } => ActionModel::Say { text: text@ },
            Action::Delete { path } => ActionModel::Delete { path: path@ },
            Action::Finish { ok } => ActionModel::Finish { ok: *ok },
        }
    }
}

/// One invocation of the render command.
pub struct RenderSession {
    stage: Stage,
    color: String,
    path: String,
}

/// The mathematical form of an invocation.
pub struct SessionModel {
    pub stage: Stage,
    pub color: Seq<char>,
    pub path: Seq<char>,
}

impl View for RenderSession {
    type V = SessionModel;

    closed spec fn view(&self) -> SessionModel {
        SessionModel { stage: self.stage, color: self.color@, path: self.path@ }
    }
}

/// An invocation that has not yet typeset its expression.
pub open spec fn fresh(color: Option<String>, n: nat) -> SessionModel {
    SessionModel { stage: Stage::Rendering, color: fill_color_of(color), path: file_name_of(n) }
}

/// The invocation at `stage`, with the same color and file.
pub open spec fn at(s: SessionModel, stage: Stage) -> SessionModel {
    SessionModel { stage, ..s }
}

/// The transition on one event: the next state and the action it asks for.
/// A failure, or an event that does not answer the pending action, ends the
/// invocation as failed; a finished invocation stays as it is.
pub open spec fn next(s: SessionModel, e: Event) -> (SessionModel, ActionModel) {
    match (s.stage, e) {
        (Stage::Over { ok }, _) => (s, ActionModel::Finish { ok }),
        (Stage::Rendering, Event::Accepted) => (
            at(s, Stage::Acknowledging),
            ActionModel::Acknowledge { ephemeral: false },
        ),
        (Stage::Rendering, Event::Rejected) => (
            at(s, Stage::Refusing),
            ActionModel::Acknowledge { ephemeral: true },
        ),
        (Stage::Acknowledging, Event::Done) => (
            at(s, Stage::Coloring),
            ActionModel::Paint { color: s.color },
        ),
        (Stage::Coloring, Event::Done) => (
            at(s, Stage::Saving),
            ActionModel::Save { path: s.path, scale: IMAGE_SCALE },
        ),
        (Stage::Saving, Event::Saved { secs, nanos }) => if nanos < 1_000_000_000 {
            (
                at(s, Stage::Replying),
                ActionModel::Reply { content: status_line_of(secs as nat, nanos as nat), attachment: s.path },
            )
        } else {
            (at(s, Stage::Over { ok: false }), ActionModel::Finish { ok: false })
        },
        (Stage::Replying, Event::Done) => (
            at(s, Stage::Deleting),
            ActionModel::Delete { path: s.path },
        ),
        (Stage::Deleting, Event::Done) => (
            at(s, Stage::Over { ok: true }),
            ActionModel::Finish { ok: true },
        ),
        (Stage::Refusing, Event::Done) => (
            at(s, Stage::Excusing),
            ActionModel::Say { text: invalid_text() },
        ),
        (Stage::Excusing, Event::Done) => (
            at(s, Stage::Over { ok: true }),
            ActionModel::Finish { ok: true },
        ),
        _ => (at(s, Stage::Over { ok: false }), ActionModel::Finish { ok: false }),
    }
}

/// The actions asked for while the events are fed in order, from state `s`.
pub open spec fn run(s: SessionModel, events: Seq<Event>) -> Seq<ActionModel>
    decreases events.len(),
{
    if events.len() == 0 {
        Seq::empty()
    } else {
        let (t, a) = next(s, events[0]);
        seq![a] + run(t, events.drop_first())
    }
}

impl RenderSession {
    /// A new invocation with the request's color, whose file is named from `n`.
    pub fn new(color: Option<String>, n: u32) -> (r: RenderSession)
        ensures
            r@ == fresh(color, n as nat),
    {
        RenderSession { stage: Stage::Rendering, color: fill_color(color), path: file_name(n) }
    }

    /// A new invocation with the request's color, whose file is named from a
    /// random number.
    pub fn start(color: Option<String>) -> (r: RenderSession)
        ensures
            exists|n: u32| r@ == fresh(color, n as nat),
    {
        let n: u32 = rand::random::<u32>();
        RenderSession::new(color, n)
    }

    /// Where the invocation stands.
    pub fn stage(&self) -> (r: Stage)
        ensures
            r == self@.stage,
    {
        self.stage
    }

    /// Takes the host's report on the last action and names the next one.
    pub fn step(&mut self, e: Event) -> (a: Action)
        ensures
            (final(self)@, a@) == next(old(self)@, e),
    {
        match (self.stage, e) {
            (Stage::Over { ok }, _) => Action::Finish { ok },
            (Stage::Rendering, Event::Accepted) => {
                self.stage = Stage::Acknowledging;
                Action::Acknowledge { ephemeral: false }
            },
            (Stage::Rendering, Event::Rejected) => {
                self.stage = Stage::Refusing;
                Action::Acknowledge { ephemeral: true }
            },
            (Stage::Acknowledging, Event::Done) => {
                self.stage = Stage::Coloring;
                Action::Paint { color: self.color.clone() }
            },
            (Stage::Coloring, Event::Done) => {
                self.stage = Stage::Saving;
                Action::Save { path: self.path.clone(), scale: IMAGE_SCALE }
            },
            (Stage::Saving, Event::Saved { secs, nanos }) => {
                if nanos < 1_000_000_000 {
                    self.stage = Stage::Replying;
                    Action::Reply {
                        content: generate_render_time_message(secs, nanos),
                        attachment: self.path.clone(),
                    }
                } else {
                    self.stage = Stage::Over { ok: false };
                    Action::Finish { ok: false }
                }
            },
            (Stage::Replying, Event::Done) => {
                self.stage = Stage::Deleting;
                Action::Delete { path: self.path.clone() }
            },
            (Stage::Deleting, Event::Done) => {
                self.stage = Stage::Over { ok: true };
                Action::Finish { ok: true }
            },
            (Stage::Refusing, Event::Done) => {
                self.stage = Stage::Excusing;
                Action::Say { text: String::from_str("Invalid expression") }
            },
            (Stage::Excusing, Event::Done) => {
                self.stage = Stage::Over { ok: true };
                Action::Finish { ok: true }
            },
            _ => {
                self.stage = Stage::Over { ok: false };
                Action::Finish { ok: false }
            },
        }
    }
}

/// An action that sends or writes the image.
pub open spec fn handles_image(a: ActionModel) -> bool {
    a is Save || a is Reply || a is Paint
}

/// The stages from which no image is ever written or sent.
pub open spec fn without_image(stage: Stage) -> bool {
    stage is Refusing || stage is Excusing || stage is Over
}

proof fn lemma_no_image_after(s: SessionModel, events: Seq<Event>)
    requires
        without_image(s.stage),
    ensures
        forall|i: int| 0 <= i < run(s, events).len() ==> !handles_image(#[trigger] run(s, events)[i]),
    decreases events.len(),
{
    if events.len() > 0 {
        let (t, a) = next(s, events[0]);
        lemma_no_image_after(t, events.drop_first());
        let rest = run(t, events.drop_first());
        assert(run(s, events) == seq![a] + rest);
        assert forall|i: int| 0 <= i < run(s, events).len() implies !handles_image(#[trigger] run(s, events)[i]) by {
            if i > 0 {
                assert(run(s, events)[i] == rest[i - 1]);
            }
        }
    }
}

/// When the engine accepts the expression and every step succeeds, the
/// invocation acknowledges visibly, paints the fill color, writes the image
/// to its file, sends exactly one reply with the status line and that file
/// attached, deletes the file after the reply, and ends successfully.
pub proof fn lemma_accepted_flow(color: Option<String>, n: nat, secs: u64, nanos: u32)
    requires
        nanos < 1_000_000_000,
    ensures
        run(
            fresh(color, n),
            seq![Event::Accepted, Event::Done, Event::Done, Event::Saved { secs, nanos }, Event::Done, Event::Done],
        ) == seq![
            ActionModel::Acknowledge { ephemeral: false },
            ActionModel::Paint { color: fill_color_of(color) },
            ActionModel::Save { path: file_name_of(n), scale: IMAGE_SCALE },
            ActionModel::Reply { content: status_line_of(secs as nat, nanos as nat), attachment: file_name_of(n) },
            ActionModel::Delete { path: file_name_of(n) },
            ActionModel::Finish { ok: true },
        ],
{
    reveal_with_fuel(run, 7);
    let ev = seq![Event::Accepted, Event::Done, Event::Done, Event::Saved { secs, nanos }, Event::Done, Event::Done];
    assert(ev.drop_first() =~= seq![Event::Done, Event::Done, Event::Saved { secs, nanos }, Event::Done, Event::Done]);
    assert(ev.drop_first().drop_first() =~= seq![Event::Done, Event::Saved { secs, nanos }, Event::Done, Event::Done]);
    assert(ev.drop_first().drop_first().drop_first() =~= seq![Event::Saved { secs, nanos }, Event::Done, Event::Done]);
    assert(ev.drop_first().drop_first().drop_first().drop_first() =~= seq![Event::Done, Event::Done]);
    assert(ev.drop_first().drop_first().drop_first().drop_first().drop_first() =~= seq![Event::Done]);
    assert(ev.drop_first().drop_first().drop_first().drop_first().drop_first().drop_first() =~= Seq::<Event>::empty());
    assert(run(fresh(color, n), ev) =~= seq![
        ActionModel::Acknowledge { ephemeral: false },
        ActionModel::Paint { color: fill_color_of(color) },
        ActionModel::Save { path: file_name_of(n), scale: IMAGE_SCALE },
        ActionModel::Reply { content: status_line_of(secs as nat, nanos as nat), attachment: file_name_of(n) },
        ActionModel::Delete { path: file_name_of(n) },
        ActionModel::Finish { ok: true },
    ]);
}

/// When the engine refuses the expression and both answers succeed, the
/// invocation acknowledges to the invoker alone, sends exactly the text
/// "Invalid expression", and ends successfully.
pub proof fn lemma_rejected_flow(color: Option<String>, n: nat)
    ensures
        run(fresh(color, n), seq![Event::Rejected, Event::Done, Event::Done]) == seq![
            ActionModel::Acknowledge { ephemeral: true },
            ActionModel::Say { text: invalid_text() },
            ActionModel::Finish { ok: true },
        ],
{
    reveal_with_fuel(run, 4);
    let ev = seq![Event::Rejected, Event::Done, Event::Done];
    assert(ev.drop_first() =~= seq![Event::Done, Event::Done]);
    assert(ev.drop_first().drop_first() =~= seq![Event::Done]);
    assert(ev.drop_first().drop_first().drop_first() =~= Seq::<Event>::empty());
    assert(run(fresh(color, n), ev) =~= seq![
        ActionModel::Acknowledge { ephemeral: true },
        ActionModel::Say { text: invalid_text() },
        ActionModel::Finish { ok: true },
    ]);
}

/// Once the engine has refused the expression, whatever the host reports
/// afterwards, no image is painted, written or sent.
pub proof fn lemma_rejected_writes_nothing(color: Option<String>, n: nat, events: Seq<Event>)
    requires
        events.len() >= 1,
        events[0] == Event::Rejected,
    ensures
        forall|i: int|
            0 <= i < run(fresh(color, n), events).len() ==> !handles_image(
                #[trigger] run(fresh(color, n), events)[i],
            ),
{
    let s = fresh(color, n);
    let (t, a) = next(s, events[0]);
    lemma_no_image_after(t, events.drop_first());
    let rest = run(t, events.drop_first());
    assert(run(s, events) == seq![a] + rest);
    assert forall|i: int| 0 <= i < run(s, events).len() implies !handles_image(#[trigger] run(s, events)[i]) by {
        if i > 0 {
            assert(run(s, events)[i] == rest[i - 1]);
        }
    }
}

/// The file that an action writes, sends or deletes, if any.
pub open spec fn file_of(a: ActionModel) -> Option<Seq<char>> {
    match a {
        ActionModel::Save { path, .. } => Some(path),
        ActionModel::Reply { attachment, .. } => Some(attachment),
        ActionModel::Delete { path } => Some(path),
        _ => None,
    }
}

proof fn lemma_no_reply_after(s: SessionModel, events: Seq<Event>)
    requires
        s.stage is Replying || s.stage is Deleting || s.stage is Over,
    ensures
        forall|i: int| 0 <= i < run(s, events).len() ==> !(#[trigger] run(s, events)[i] is Reply),
    decreases events.len(),
{
    if events.len() > 0 {
        let (t, a) = next(s, events[0]);
        lemma_no_reply_after(t, events.drop_first());
        let rest = run(t, events.drop_first());
        assert(run(s, events) == seq![a] + rest);
        assert forall|i: int| 0 <= i < run(s, events).len() implies !(#[trigger] run(s, events)[i] is Reply) by {
            if i > 0 {
                assert(run(s, events)[i] == rest[i - 1]);
            }
        }
    }
}

/// Whatever the host reports, an invocation sends at most one reply with an
/// attachment, and every file it writes, attaches or deletes is its own.
pub proof fn lemma_single_reply_one_file(s: SessionModel, events: Seq<Event>)
    ensures
        forall|i: int, j: int|
            0 <= i < j < run(s, events).len() && #[trigger] run(s, events)[i] is Reply ==> !(
            #[trigger] run(s, events)[j] is Reply),
        forall|i: int|
            0 <= i < run(s, events).len() && (#[trigger] file_of(run(s, events)[i])).is_some()
                ==> file_of(run(s, events)[i]) == Some(s.path),
    decreases events.len(),
{
    if events.len() > 0 {
        let (t, a) = next(s, events[0]);
        lemma_single_reply_one_file(t, events.drop_first());
        let rest = run(t, events.drop_first());
        let all = run(s, events);
        assert(all == seq![a] + rest);
        assert(t.path == s.path);
        if a is Reply {
            lemma_no_reply_after(t, events.drop_first());
        }
        assert forall|i: int, j: int|
            0 <= i < j < all.len() && #[trigger] all[i] is Reply implies !(#[trigger] all[j] is Reply) by {
            assert(all[j] == rest[j - 1]);
            if i > 0 {
                assert(all[i] == rest[i - 1]);
            }
        }
        assert forall|i: int|
            0 <= i < all.len() && (#[trigger] file_of(all[i])).is_some() implies file_of(all[i]) == Some(s.path) by {
            if i > 0 {
                assert(all[i] == rest[i - 1]);
            }
        }
    }
}

/// Typesets the expression and reports the engine's verdict as an event:
/// `Accepted` with the image, whose color is not yet set, or `Rejected`
/// without one.
pub fn render_expression(renderer: &mathjax::MathJax, expression: &str) -> (r: (Option<mathjax::Render>, Event))
    ensures
        r.0.is_some() <==> r.1 == Event::Accepted,
        r.0.is_none() <==> r.1 == Event::Rejected,
        r.0 is Some ==> !color_set_of(r.0->Some_0),
{
    match renderer.render(expression) {
        Ok(image) => (Some(image), Event::Accepted),
        Err(_) => (None, Event::Rejected),
    }
}

} // verus!
