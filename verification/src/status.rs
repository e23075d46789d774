use vstd::prelude::*;

verus! {

/// Whether the live status display runs: forced on, forced off, or
/// decided from how the standard streams are attached.
#[derive(Clone, Copy, PartialEq, Eq, Structural, Debug)]
pub enum StatusEnabled {
    Auto,
    Always,
    Never,
}

impl Default for StatusEnabled {
    fn default() -> (r: Self)
        ensures
            r is Auto,
    {
        StatusEnabled::Auto
    }
}

impl StatusEnabled {
    /// The status display runs when forced on, and under `Auto` exactly
    /// when diagnostics go to a terminal while the artifacts do not, so
    /// that status lines never overwrite emitted keys.
    pub fn evaluate(self, stderr_is_terminal: bool, stdout_is_terminal: bool) -> (r: bool)
        ensures
            r == (self is Always || (self is Auto && stderr_is_terminal && !stdout_is_terminal)),
    {
        match self {
            StatusEnabled::Auto => stderr_is_terminal && !stdout_is_terminal,
            StatusEnabled::Always => true,
            StatusEnabled::Never => false,
        }
    }
}

/// The numeric values one status render needs: the elapsed run time
/// decomposed into days, hours, minutes and seconds, and a snapshot of
/// the two shared counters.
#[derive(Clone, Copy, PartialEq, Eq, Structural, Debug)]
pub struct StatusSnapshot {
    pub days: u64,
    pub hours: u64,
    pub minutes: u64,
    pub seconds: u64,
    pub tried: u64,
    pub found: u64,
}

/// Decomposes the elapsed wall-clock seconds into days, hours, minutes
/// and seconds, and carries the counter values through unchanged.
pub fn status_snapshot(elapsed_secs: u64, tried: u64, found: u64) -> (s: StatusSnapshot)
    ensures
        s.tried == tried,
        s.found == found,
        s.seconds == elapsed_secs % 60,
        s.minutes == (elapsed_secs / 60) % 60,
        s.hours == (elapsed_secs / 3600) % 24,
        s.days == elapsed_secs / 86400,
        s.seconds < 60,
        s.minutes < 60,
        s.hours < 24,
        s.days * 86400 + s.hours * 3600 + s.minutes * 60 + s.seconds == elapsed_secs,
{
    let seconds = elapsed_secs % 60;
    let total_minutes = elapsed_secs / 60;
    let minutes = total_minutes % 60;
    let total_hours = total_minutes / 60;
    let hours = total_hours % 24;
    let days = total_hours / 24;
    proof {
        vstd::arithmetic::div_mod::lemma_div_denominator(elapsed_secs as int, 60, 60);
        vstd::arithmetic::div_mod::lemma_div_denominator(elapsed_secs as int, 3600, 24);
        vstd::arithmetic::div_mod::lemma_fundamental_div_mod(elapsed_secs as int, 60);
        vstd::arithmetic::div_mod::lemma_fundamental_div_mod(total_minutes as int, 60);
        vstd::arithmetic::div_mod::lemma_fundamental_div_mod(total_hours as int, 24);
    }
    StatusSnapshot { days, hours, minutes, seconds, tried, found }
}

} // verus!
