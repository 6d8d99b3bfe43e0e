//! Codex++ terminal client policies: account selection, usage-reset
//! redemption, weekly-window scheduling, agent inbox state, Destructive
//! Command Guard management decisions and the settings views built on them.

pub mod account_identity;
pub mod account_picker;
pub mod auto_redeem_resets;
pub mod account_usage;
pub mod history;
pub mod parse;
pub mod selection;
pub mod seqs;
pub mod text;
pub mod timestamps;
pub mod usage_reset_resume;
pub mod user_message_inbox;
pub mod weekly_window_scheduler;
pub mod destructive_command_guard;
pub mod digest;
pub mod dcg_views;
pub mod settings;
pub mod account_settings;
pub mod account_automation;
pub mod startup_accounts;
pub mod dcg_install;
pub mod compact_activity;
pub mod chat_widget;
pub mod terminal;
pub mod notices;
pub mod release;
pub mod app_state;
pub mod usage_fetch;
pub mod live_status;
pub mod wrapping;
