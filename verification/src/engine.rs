//! Request/response engine and keepalive watchdog decisions. The protocol
//! carries no message ids: the reply to a command is the next inbound line
//! that is not a spontaneous heartbeat echo. The watchdog probes the
//! connection periodically and triggers reconnection after a bounded number
//! of failed probe reads, or at once on a failed probe write. The decisions
//! here are pure; the surrounding I/O loops feed them one observation at a
//! time.

use vstd::prelude::*;

verus! {

/// Device id of the hub's spontaneous heartbeat/echo lines.
pub const ECHO_DEVICE_ID: u64 = 108;

/// What one inbound line turned out to be.
#[derive(Clone, Copy, PartialEq, Eq, Structural, Debug)]
pub enum LineClass {
    /// The line did not parse into a structured value.
    Malformed,
    /// A spontaneous heartbeat echo: nested device id equal to the echo
    /// identifier. Never a reply.
    Echo,
    /// A real reply line.
    Reply,
}

/// Whether a nested device id marks a line as a heartbeat echo.
pub fn is_echo_device_id(device_id: Option<u64>) -> (r: bool)
    ensures
        r == (device_id == Some(ECHO_DEVICE_ID)),
{
    match device_id {
        Some(id) => id == ECHO_DEVICE_ID,
        None => false,
    }
}

/// The index the read loop settles on: the first line that is not an echo,
/// with nothing but echoes before it.
pub open spec fn is_first_reply(s: Seq<LineClass>, i: int) -> bool {
    &&& 0 <= i < s.len()
    &&& s[i] != LineClass::Echo
    &&& forall|j: int| 0 <= j < i ==> s[j] == LineClass::Echo
}

/// Selects the line the read loop would return out of a batch of classified
/// lines: the first non-echo line; none when every line is an echo. The
/// selected line is never an echo.
pub fn select_reply(classes: &Vec<LineClass>) -> (r: Option<usize>)
    ensures
        match r {
            Some(i) => is_first_reply(classes@, i as int),
            None => forall|j: int| 0 <= j < classes@.len() ==> classes@[j] == LineClass::Echo,
        },
{
    let mut i: usize = 0;
    while i < classes.len()
        invariant
            i <= classes@.len(),
            forall|j: int| 0 <= j < i ==> classes@[j] == LineClass::Echo,
        decreases classes@.len() - i,
    {
        let c = classes[i];
        if !(c == LineClass::Echo) {
            return Some(i);
        }
        i = i + 1;
    }
    None
}

/// Feeding any number of heartbeat echoes followed by one real line yields
/// exactly that real line: its index is the one and only first-reply index,
/// so the read loop never returns an echo.
pub proof fn lemma_echoes_then_reply(s: Seq<LineClass>, n: int)
    requires
        0 <= n < s.len(),
        forall|j: int| 0 <= j < n ==> s[j] == LineClass::Echo,
        s[n] != LineClass::Echo,
    ensures
        is_first_reply(s, n),
        forall|i: int| is_first_reply(s, i) ==> i == n,
{
    assert forall|i: int| is_first_reply(s, i) implies i == n by {
        if i < n {
            assert(s[i] == LineClass::Echo);
        }
        if i > n {
            assert(s[n] == LineClass::Echo);
        }
    }
}

/// What the watchdog does next.
#[derive(Clone, Copy, PartialEq, Eq, Structural, Debug)]
pub enum ProbeAction {
    /// The probe succeeded; the cycle ends healthy.
    Succeed,
    /// Keep going: read (another) line.
    ReadAgain,
    /// The connection is considered dead; reconnect.
    Reconnect,
}

/// How many probe reads a keepalive cycle may spend before giving up.
pub const PROBE_ATTEMPT_LIMIT: u8 = 5;

/// Decision after writing the probe frame: a failed write or flush triggers
/// reconnection at once, without consuming any read attempt; otherwise the
/// probe proceeds to reading.
pub fn probe_write_step(write_ok: bool) -> (r: ProbeAction)
    ensures
        r == (if write_ok {
            ProbeAction::ReadAgain
        } else {
            ProbeAction::Reconnect
        }),
{
    if write_ok {
        ProbeAction::ReadAgain
    } else {
        ProbeAction::Reconnect
    }
}

/// Decision after reading one line during a probe, `attempt` being the
/// 1-based number of this read: a line of the "no data" shape ends the probe
/// successfully; a failed read at the attempt limit gives the connection up.
pub open spec fn probe_read_decision(attempt: nat, no_data: bool) -> ProbeAction {
    if no_data {
        ProbeAction::Succeed
    } else if attempt >= PROBE_ATTEMPT_LIMIT {
        ProbeAction::Reconnect
    } else {
        ProbeAction::ReadAgain
    }
}

/// Carries out one probe-read decision.
pub fn probe_read_step(attempt: u8, no_data: bool) -> (r: ProbeAction)
    requires
        1 <= attempt <= PROBE_ATTEMPT_LIMIT,
    ensures
        r == probe_read_decision(attempt as nat, no_data),
{
    if no_data {
        ProbeAction::Succeed
    } else if attempt >= PROBE_ATTEMPT_LIMIT {
        ProbeAction::Reconnect
    } else {
        ProbeAction::ReadAgain
    }
}

/// Outcome of a whole probe cycle over the lines it would read, each entry
/// telling whether that line had the "no data" success shape: the number of
/// lines consumed, and whether the cycle ended in reconnection (true) or
/// success (false). None when the given lines run out before a decision.
pub open spec fn probe_outcome(events: Seq<bool>, attempt: nat) -> Option<(nat, bool)>
    decreases events.len(),
{
    if events.len() == 0 {
        None
    } else if events[0] {
        Some((1nat, false))
    } else if attempt >= PROBE_ATTEMPT_LIMIT {
        Some((1nat, true))
    } else {
        match probe_outcome(events.drop_first(), attempt + 1) {
            Some(p) => Some(((p.0 + 1) as nat, p.1)),
            None => None,
        }
    }
}

fn run_probe_from(events: &Vec<bool>, i: usize, attempt: u8) -> (r: Option<(usize, bool)>)
    requires
        i <= events@.len(),
        1 <= attempt <= PROBE_ATTEMPT_LIMIT,
    ensures
        match r {
            Some(p) => p.0 <= events@.len() - i && probe_outcome(
                events@.skip(i as int),
                attempt as nat,
            ) == Some((p.0 as nat, p.1)),
            None => probe_outcome(events@.skip(i as int), attempt as nat) is None,
        },
    decreases events@.len() - i,
{
    if i == events.len() {
        return None;
    }
    proof {
        assert(events@.skip(i as int)[0] == events@[i as int]);
        assert(events@.skip(i as int).drop_first() =~= events@.skip(i + 1));
    }
    let no_data = events[i];
    match probe_read_step(attempt, no_data) {
        ProbeAction::Succeed => Some((1, false)),
        ProbeAction::Reconnect => Some((1, true)),
        ProbeAction::ReadAgain => match run_probe_from(events, i + 1, attempt + 1) {
            Some(p) => Some((p.0 + 1, p.1)),
            None => None,
        },
    }
}

/// Replays a whole probe cycle over classified lines: how many reads it
/// consumes, and whether it ends in reconnection (true) or success (false);
/// None when the lines run out before a decision.
pub fn run_probe_reads(events: &Vec<bool>) -> (r: Option<(usize, bool)>)
    ensures
        match r {
            Some(p) => probe_outcome(events@, 1) == Some((p.0 as nat, p.1)),
            None => probe_outcome(events@, 1) is None,
        },
{
    proof {
        assert(events@.skip(0) =~= events@);
    }
    run_probe_from(events, 0, 1)
}

proof fn lemma_probe_fails_from(events: Seq<bool>, attempt: nat)
    requires
        1 <= attempt <= PROBE_ATTEMPT_LIMIT,
        events.len() >= 1 + PROBE_ATTEMPT_LIMIT - attempt,
        forall|i: int| 0 <= i < 1 + PROBE_ATTEMPT_LIMIT - attempt ==> !events[i],
    ensures
        probe_outcome(events, attempt) == Some(((1 + PROBE_ATTEMPT_LIMIT - attempt) as nat, true)),
    decreases PROBE_ATTEMPT_LIMIT - attempt,
{
    if attempt < PROBE_ATTEMPT_LIMIT {
        assert forall|i: int|
            0 <= i < 1 + PROBE_ATTEMPT_LIMIT - (attempt + 1) implies !events.drop_first()[i] by {
            assert(events.drop_first()[i] == events[i + 1]);
        }
        lemma_probe_fails_from(events.drop_first(), attempt + 1);
    }
}

/// After exactly five probe reads that all miss the "no data" shape, the
/// cycle ends in reconnection, having consumed exactly five reads — one
/// reconnection, not more, since the cycle stops there.
pub proof fn lemma_probe_budget_exhausted(events: Seq<bool>)
    requires
        events.len() >= PROBE_ATTEMPT_LIMIT,
        forall|i: int| 0 <= i < PROBE_ATTEMPT_LIMIT ==> !events[i],
    ensures
        probe_outcome(events, 1) == Some((PROBE_ATTEMPT_LIMIT as nat, true)),
{
    lemma_probe_fails_from(events, 1);
}

proof fn lemma_probe_succeeds_from(events: Seq<bool>, attempt: nat, k: int)
    requires
        1 <= attempt <= PROBE_ATTEMPT_LIMIT,
        0 <= k < 1 + PROBE_ATTEMPT_LIMIT - attempt,
        k < events.len(),
        events[k],
        forall|i: int| 0 <= i < k ==> !events[i],
    ensures
        probe_outcome(events, attempt) == Some(((k + 1) as nat, false)),
    decreases k,
{
    if k > 0 {
        assert forall|i: int| 0 <= i < k - 1 implies !events.drop_first()[i] by {
            assert(events.drop_first()[i] == events[i + 1]);
        }
        assert(events.drop_first()[k - 1] == events[k]);
        lemma_probe_succeeds_from(events.drop_first(), attempt + 1, k - 1);
    }
}

/// A probe read that finds the "no data" shape within the attempt budget
/// ends the cycle successfully — no reconnection — after exactly the reads
/// it took to get there.
pub proof fn lemma_probe_success(events: Seq<bool>, k: int)
    requires
        0 <= k < PROBE_ATTEMPT_LIMIT,
        k < events.len(),
        events[k],
        forall|i: int| 0 <= i < k ==> !events[i],
    ensures
        probe_outcome(events, 1) == Some(((k + 1) as nat, false)),
{
    lemma_probe_succeeds_from(events, 1, k);
}

} // verus!
