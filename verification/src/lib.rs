mod encode;
mod errors;
mod keys;
mod model;
mod pattern;
mod pipeline;
mod status;

pub use errors::PipelineError;
pub use keys::{Candidate, SecretKey, fresh_candidate, is_fingerprint_hex, is_upper_hex_digit};
pub use model::{ModelState, RunStats, count_matches, lemma_counters_exact, lemma_no_match_never_stops,
    lemma_quota_exact, lemma_quota_reached, lemma_run_bounds, lemma_stopped_frozen,
    lemma_tried_monotonic, lemma_unbounded_runs_on, quota_hit, run_after, run_init, run_on_outcomes,
    run_step};
pub use pattern::{Pattern, regex_matches};
pub use pipeline::{Attempt, Config, Fingerprunk, build_armor_headers};
pub use status::{StatusEnabled, StatusSnapshot, status_snapshot};
