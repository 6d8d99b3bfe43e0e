# codex_plus_plus

The policies of the Codex++ terminal client, written in Verus and proved
against their contracts:

- choosing an imported account at startup (`startup_accounts`,
  `account_picker`, `account_usage`, `usage_fetch`);
- automatic redemption of usage resets and the weekly-window scheduler
  (`auto_redeem_resets`, `weekly_window_scheduler`, `account_identity`);
- resuming a turn after a usage reset (`usage_reset_resume`);
- the agent inbox and unread tracking (`user_message_inbox`, `app_state`);
- managing the Destructive Command Guard plugin (`destructive_command_guard`,
  `dcg_install`, `dcg_views`);
- the Codex++ settings, account settings and their views (`settings`,
  `account_settings`, `account_automation`, `selection`, `chat_widget`);
- compact tool activity, notices, release status and terminal handling
  (`compact_activity`, `notices`, `release`, `live_status`, `terminal`,
  `wrapping`).

Where the client interleaves I/O with decisions (a scan of the weekly
scheduler, a guard installation, trusting its hook, the startup picker,
reading usage), the decisions are step functions from a state and the
result of the last piece of work to the next state and the next piece of
work; the I/O itself is left to the caller.

Calls into `chrono`, `sha2`, `textwrap`, `serde_json` and `toml` stand
behind small trusted wrappers in `timestamps`, `digest`, `wrapping`,
`dcg_install`, `destructive_command_guard` (the marketplace entry of the
user configuration) and `auto_redeem_resets` (its redemption settings);
everything else is verified. JSON string escaping is stated in full
(`dcg_install::json_string`); the others name their results, and nothing is claimed of the clock's reading.

`src/` is the library, `tests/` exercises it, and `app/` holds the I/O
around it: reading configuration and cached status from disk and JSON,
turning reported floating-point percentages into the values the library
works with, and the drivers (`app/runners.rs`) that run the step functions
through I/O traits: the startup picker, a settings save, a weekly scan, a
guard installation with its hook trust, status detection, saving account
automation, and the usage reads.
