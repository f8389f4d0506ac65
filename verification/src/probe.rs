use vstd::prelude::*;
use vstd::string::*;

verus! {

/// The process-wide capability flag: whether the hardware video encoder is
/// usable. It is computed at most once and then only read; staleness after
/// the first computation is an accepted tradeoff.
///
/// The probe itself is a child process that the caller spawns; this type only
/// decides when a probe is needed and fixes the value once one outcome has
/// been observed.
pub struct CapabilityProbe {
    /// `None` until the first probe outcome is recorded, then `Some` forever.
    pub cached: Option<bool>,
}

/// The value that a call observes: the cached flag if one exists, else the
/// collapse of the fresh probe outcome. A probe that could not even be
/// launched (`None`) counts as a failed probe: the hardware path is simply
/// unavailable, never an error.
pub open spec fn probe_step_value(s: CapabilityProbe, outcome: Option<bool>) -> bool {
    match s.cached {
        Some(b) => b,
        None => outcome == Some(true),
    }
}

/// The state after a call: the observed value, cached.
pub open spec fn probe_step_state(s: CapabilityProbe, outcome: Option<bool>) -> CapabilityProbe {
    (CapabilityProbe { cached: Some(probe_step_value(s, outcome)) })
}

impl CapabilityProbe {
    /// A fresh, undecided capability flag.
    pub fn new() -> (s: Self)
        ensures
            s.cached is None,
    {
        CapabilityProbe { cached: None }
    }

    /// True exactly when no probe outcome has been recorded yet, i.e. when
    /// the caller must run the probe subprocess before asking for the value.
    pub fn needs_probe(&self) -> (r: bool)
        ensures
            r <==> self.cached is None,
    {
        match self.cached {
            None => true,
            Some(_) => false,
        }
    }
}

/// The fixed argument list of the probe itself: a short, deterministic
/// synthetic encode of a null one-frame source at a small fixed resolution,
/// targeting the hardware codec under test, with the output discarded. The
/// caller runs it once as a child process and reports only whether it
/// succeeded.
pub fn probe_args() -> (r: Vec<String>)
    ensures
        r@.len() == 11,
        r@[0]@ == "-f"@,
        r@[1]@ == "lavfi"@,
        r@[2]@ == "-i"@,
        r@[3]@ == "nullsrc=s=64x64:d=1"@,
        r@[4]@ == "-c:v"@,
        r@[5]@ == "hevc_nvenc"@,
        r@[6]@ == "-frames:v"@,
        r@[7]@ == "1"@,
        r@[8]@ == "-f"@,
        r@[9]@ == "null"@,
        r@[10]@ == "-"@,
{
    let mut r: Vec<String> = Vec::new();
    r.push(String::from_str("-f"));
    r.push(String::from_str("lavfi"));
    r.push(String::from_str("-i"));
    r.push(String::from_str("nullsrc=s=64x64:d=1"));
    r.push(String::from_str("-c:v"));
    r.push(String::from_str("hevc_nvenc"));
    r.push(String::from_str("-frames:v"));
    r.push(String::from_str("1"));
    r.push(String::from_str("-f"));
    r.push(String::from_str("null"));
    r.push(String::from_str("-"));
    r
}

/// Whether the hardware encoder is to be used. `probe_outcome` is the result
/// of the probe subprocess the caller ran when `needs_probe` asked for one:
/// `Some(success)` for an exit status, `None` when the probe could not even
/// be launched (which collapses to "hardware unavailable", never an error).
/// Once a value has been cached the outcome argument is ignored and the
/// state does not change.
pub fn use_nvenc(state: &mut CapabilityProbe, probe_outcome: Option<bool>) -> (r: bool)
    ensures
        r == probe_step_value(*old(state), probe_outcome),
        *final(state) == probe_step_state(*old(state), probe_outcome),
        final(state).cached == Some(r),
{
    let value = match state.cached {
        Some(b) => b,
        None => match probe_outcome {
            Some(success) => success,
            None => false,
        },
    };
    state.cached = Some(value);
    value
}

/// The hardware-capability flag is memoized: whatever a second probe outcome
/// would have been, a second call returns the value of the first and leaves
/// the state as the first call left it, and after the first call no further
/// probe subprocess is requested.
pub proof fn lemma_probe_memoized(s: CapabilityProbe, o1: Option<bool>, o2: Option<bool>)
    ensures
        probe_step_value(probe_step_state(s, o1), o2) == probe_step_value(s, o1),
        probe_step_state(probe_step_state(s, o1), o2) == probe_step_state(s, o1),
        !(probe_step_state(s, o1).cached is None),
{
}

} // verus!
