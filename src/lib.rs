//! Command logic of a chat bot: rendering math through an external engine
//! inside a scratch workspace, and looking up player statistics.

mod laws;
mod render;
mod session;
mod stats;
mod text;

pub use laws::{
    law_artifact_is_engine_output, law_finish_only_without_workspace,
    law_infrastructure_error_is_generic, law_input_error_is_first_line,
    law_workspace_released_once, release_count, run, steps_left,
};
pub use render::{
    engine_diagnostic, reply_for, source_document, OutcomeView, RenderOutcome, Reply, ReplyView,
    spec_diagnostic, spec_document, spec_reply, ATTACHMENT_NAME, DOCUMENT_HEAD, DOCUMENT_TAIL,
    ENGINE, ENGINE_MODE, GENERIC_ERROR, OUTPUT_FILE, SOURCE_FILE, SYNTAX_ERROR_HEADING,
};
pub use session::{
    failure_detail, holds_workspace, initial_session, next, releasing, session_wf, Action,
    ActionView, Event, EventView, Phase, RenderSession, SessionView,
};
pub use stats::{
    decimal_text, player_slug, spec_stats_reply, stats_reply, PlayerStats, spec_decimal, spec_digits, spec_player_slug, spec_stats_url,
    stats_url, STATS_URL_HEAD, STATS_URL_TAIL,
};
pub use text::{first_line, lemma_first_line_is_first_line, is_first_line, spec_first_line};
