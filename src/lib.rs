//! Decisions and text of a chat bot that typesets math expressions into
//! images and greets members of a group.
mod announce;
mod decimal;
mod outside;
mod render;
mod session;

pub use announce::{
    announcement, announcement_of, delay_of, delay_secs, greeting, greeting_of, label_of, lemma_announcement_from_roster,
    lemma_every_member_selectable, lemma_greetings_distinct, next_announcement, pick_member, pick_of, Member,
    MAX_DELAY_SECS, MIN_DELAY_SECS,
};
pub use decimal::{decimal, decimal_of, digit_char, digit_text, lemma_decimal_injective};
pub use outside::{color_set_of, duration_debug_of, replaced, svg_of};
pub use render::{
    default_color, file_name, file_name_of, fill_color, fill_color_of, generate_file_path, invalid_text,
    lemma_file_names_distinct, generate_render_time_message, set_image_color, status_line, status_line_of, status_line_with,
    IMAGE_SCALE,
};
pub use session::{
    at, file_of, fresh, handles_image, lemma_accepted_flow, lemma_rejected_flow, lemma_rejected_writes_nothing, lemma_single_reply_one_file, next, without_image, render_expression, run, Action, ActionModel, Event, RenderSession, SessionModel, Stage,
};
