//! Gateway (WebSocket) session core: send budget, session identity, the
//! identify/resume decision, close-code policy and reconnect back-off.
//!
//! Everything here is a state machine over plain values.  The surrounding
//! driver loop owns the socket and the clock; it feeds frames and the current
//! time in, and performs exactly the actions these functions decide.

use vstd::prelude::*;
use vstd::string::StringExecFns;

use crate::events::{DispatchData, GatewayEvent, GatewayPayload};
use crate::text::{occurs_in, str_contains};

verus! {

// ---------------------------------------------------------------------------
// Constants
// ---------------------------------------------------------------------------

/// Discord allows at most 120 gateway sends per 60-second window.
pub const SEND_BUDGET_MAX: u32 = 120;

/// Length of the send-budget window in milliseconds.
pub const SEND_BUDGET_WINDOW_MS: u64 = 60000;

/// Maximum number of consecutive failed connection attempts before giving up.
pub const MAX_RECONNECT_ATTEMPTS: u32 = 8;

/// Reconnect back-off is capped at one minute.
pub const BACKOFF_CAP_MS: u64 = 60000;

// ---------------------------------------------------------------------------
// Gateway send rate limiter
// ---------------------------------------------------------------------------

/// A send timestamp still counts against the budget at `now_ms` while less
/// than the window has passed since it was recorded.
pub open spec fn in_window(t: u64, now_ms: u64, window_ms: u64) -> bool {
    now_ms < t + window_ms
}

/// How many recorded timestamps still count against the budget at `now_ms`.
pub open spec fn count_in_window(ts: Seq<u64>, now_ms: u64, window_ms: u64) -> nat
    decreases ts.len(),
{
    if ts.len() == 0 {
        0
    } else {
        count_in_window(ts.drop_last(), now_ms, window_ms) + if in_window(
            ts.last(),
            now_ms,
            window_ms,
        ) {
            1nat
        } else {
            0nat
        }
    }
}

/// The recorded timestamps with the expired ones removed.
pub open spec fn prune_window(ts: Seq<u64>, now_ms: u64, window_ms: u64) -> Seq<u64>
    decreases ts.len(),
{
    if ts.len() == 0 {
        ts
    } else {
        let rest = prune_window(ts.drop_last(), now_ms, window_ms);
        if in_window(ts.last(), now_ms, window_ms) {
            rest.push(ts.last())
        } else {
            rest
        }
    }
}

/// Pruning keeps exactly the in-window timestamps, so it does not change the
/// in-window count.
pub proof fn lemma_prune_preserves_count(ts: Seq<u64>, now_ms: u64, window_ms: u64)
    ensures
        count_in_window(prune_window(ts, now_ms, window_ms), now_ms, window_ms) == count_in_window(
            ts,
            now_ms,
            window_ms,
        ),
    decreases ts.len(),
{
    if ts.len() > 0 {
        lemma_prune_preserves_count(ts.drop_last(), now_ms, window_ms);
        let rest = prune_window(ts.drop_last(), now_ms, window_ms);
        if in_window(ts.last(), now_ms, window_ms) {
            assert(rest.push(ts.last()).drop_last() =~= rest);
        }
    }
}

proof fn lemma_count_le_len(ts: Seq<u64>, now_ms: u64, window_ms: u64)
    ensures
        count_in_window(ts, now_ms, window_ms) <= ts.len(),
    decreases ts.len(),
{
    if ts.len() > 0 {
        lemma_count_le_len(ts.drop_last(), now_ms, window_ms);
    }
}

/// Sliding-window rate limiter for outbound gateway frames.
///
/// `delay` says how long a caller must wait before sending; `record` logs a
/// send.  The protocol is: call `delay` until it returns `None`, then call
/// `record` and send.
pub struct SendRateLimiter {
    timestamps: Vec<u64>,
    budget: u32,
    window_ms: u64,
}

impl SendRateLimiter {
    /// The recorded send timestamps, oldest first.
    pub closed spec fn timestamps(&self) -> Seq<u64> {
        self.timestamps@
    }

    /// The maximum number of sends per window.
    pub closed spec fn budget(&self) -> u32 {
        self.budget
    }

    /// The window length in milliseconds.
    pub closed spec fn window_ms(&self) -> u64 {
        self.window_ms
    }

    pub fn new(budget: u32, window_ms: u64) -> (r: Self)
        ensures
            r.timestamps() =~= Seq::<u64>::empty(),
            r.budget() == budget,
            r.window_ms() == window_ms,
    {
        SendRateLimiter { timestamps: Vec::new(), budget, window_ms }
    }

    /// How long the caller should wait before sending, or `None` if it can
    /// send immediately.  Does not record the send.
    pub fn delay(&self, now_ms: u64) -> (r: Option<u64>)
        requires
            self.budget() >= 1,
        ensures
            r is None <==> count_in_window(self.timestamps(), now_ms, self.window_ms())
                < self.budget(),
            r matches Some(d) ==> exists|i: int|
                0 <= i < self.timestamps().len() && in_window(
                    #[trigger] self.timestamps()[i],
                    now_ms,
                    self.window_ms(),
                ) && d == crate::saturate_u64(
                    self.timestamps()[i] + self.window_ms() - now_ms,
                ) && forall|j: int|
                    0 <= j < self.timestamps().len() && in_window(
                        self.timestamps()[j],
                        now_ms,
                        self.window_ms(),
                    ) ==> self.timestamps()[i] <= #[trigger] self.timestamps()[j],
    {
        let ghost ts = self.timestamps@;
        let n = self.timestamps.len();
        let mut count: usize = 0;
        let mut oldest: Option<u64> = None;
        for i in 0..n
            invariant
                n == ts.len(),
                ts == self.timestamps@,
                count == count_in_window(ts.take(i as int), now_ms, self.window_ms),
                count <= i,
                match oldest {
                    Some(o) => {
                        &&& exists|k: int|
                            0 <= k < i && ts[k] == o && in_window(
                                #[trigger] ts[k],
                                now_ms,
                                self.window_ms,
                            )
                        &&& forall|k: int|
                            0 <= k < i && in_window(#[trigger] ts[k], now_ms, self.window_ms)
                                ==> o <= ts[k]
                    },
                    None => forall|k: int|
                        0 <= k < i ==> !in_window(#[trigger] ts[k], now_ms, self.window_ms),
                },
        {
            let t = self.timestamps[i];
            proof {
                assert(ts.take(i + 1 as int).drop_last() =~= ts.take(i as int));
            }
            // A timestamp is in the window when less than `window_ms` has
            // passed: now < t + window, computed without overflow.
            let still_in = match t.checked_add(self.window_ms) {
                Some(sum) => now_ms < sum,
                None => true,
            };
            if still_in {
                count = count + 1;
                oldest = match oldest {
                    Some(o) => if t < o { Some(t) } else { Some(o) },
                    None => Some(t),
                };
            }
        }
        proof {
            assert(ts.take(n as int) =~= ts);
            lemma_count_le_len(ts, now_ms, self.window_ms);
        }
        if count < self.budget as usize {
            return None;
        }
        match oldest {
            Some(o) => {
                let wide = (o as u128) + (self.window_ms as u128) - (now_ms as u128);
                if wide > u64::MAX as u128 {
                    Some(u64::MAX)
                } else {
                    Some(wide as u64)
                }
            },
            None => {
                // count >= budget >= 1 guarantees an in-window timestamp,
                // which contradicts oldest being None.
                proof {
                    lemma_count_positive_has_witness(ts, now_ms, self.window_ms);
                }
                None
            },
        }
    }

    /// Record a send at `now_ms` and prune expired entries.
    pub fn record(&mut self, now_ms: u64)
        ensures
            final(self).timestamps() =~= prune_window(
                old(self).timestamps(),
                now_ms,
                old(self).window_ms(),
            ).push(now_ms),
            final(self).budget() == old(self).budget(),
            final(self).window_ms() == old(self).window_ms(),
    {
        let ghost ts = self.timestamps@;
        let n = self.timestamps.len();
        let mut kept: Vec<u64> = Vec::new();
        for i in 0..n
            invariant
                n == ts.len(),
                ts == self.timestamps@,
                kept@ =~= prune_window(ts.take(i as int), now_ms, self.window_ms),
        {
            let t = self.timestamps[i];
            proof {
                assert(ts.take(i + 1 as int).drop_last() =~= ts.take(i as int));
            }
            let still_in = match t.checked_add(self.window_ms) {
                Some(sum) => now_ms < sum,
                None => true,
            };
            if still_in {
                kept.push(t);
            }
        }
        proof {
            assert(ts.take(n as int) =~= ts);
        }
        kept.push(now_ms);
        self.timestamps = kept;
    }
}

proof fn lemma_count_positive_has_witness(ts: Seq<u64>, now_ms: u64, window_ms: u64)
    requires
        count_in_window(ts, now_ms, window_ms) > 0,
    ensures
        exists|i: int| 0 <= i < ts.len() && in_window(#[trigger] ts[i], now_ms, window_ms),
    decreases ts.len(),
{
    if ts.len() > 0 {
        if in_window(ts.last(), now_ms, window_ms) {
            assert(in_window(ts[ts.len() - 1], now_ms, window_ms));
        } else {
            lemma_count_positive_has_witness(ts.drop_last(), now_ms, window_ms);
            let i = choose|i: int|
                0 <= i < ts.drop_last().len() && in_window(
                    #[trigger] ts.drop_last()[i],
                    now_ms,
                    window_ms,
                );
            assert(in_window(ts[i], now_ms, window_ms));
        }
    }
}

/// The send budget is respected: when the limiter reports no delay (its
/// in-window count is below the budget) and the send is then recorded, the
/// number of timestamps within the window never exceeds the budget.
pub proof fn lemma_send_budget_respected(ts: Seq<u64>, now_ms: u64, window_ms: u64, budget: u32)
    requires
        count_in_window(ts, now_ms, window_ms) < budget,
    ensures
        count_in_window(prune_window(ts, now_ms, window_ms).push(now_ms), now_ms, window_ms)
            <= budget,
{
    lemma_prune_preserves_count(ts, now_ms, window_ms);
    let pruned = prune_window(ts, now_ms, window_ms);
    assert(pruned.push(now_ms).drop_last() =~= pruned);
}

// ---------------------------------------------------------------------------
// Configuration and session state
// ---------------------------------------------------------------------------

/// Options for connecting to the Discord gateway.
pub struct GatewayConfig {
    pub token: String,
    /// Gateway intents bitmask.
    pub intents: u32,
    /// Optional shard info: `[shard_id, num_shards]`.
    pub shard: Option<[u32; 2]>,
}

/// Per-connection session identity, filled in from READY.
pub struct SessionState {
    /// From the READY event.
    pub session_id: Option<String>,
    /// Resume URL provided by Discord in the READY event.
    pub resume_gateway_url: Option<String>,
    /// Highest sequence number seen on any inbound dispatch.
    pub sequence: Option<u64>,
}

impl SessionState {
    pub fn new() -> (r: Self)
        ensures
            r.session_id is None,
            r.resume_gateway_url is None,
            r.sequence is None,
    {
        SessionState { session_id: None, resume_gateway_url: None, sequence: None }
    }

    /// Fold an inbound dispatch's sequence number into the session.  The
    /// stored sequence never decreases.
    pub fn note_sequence(&mut self, s: u64)
        ensures
            final(self).sequence == (match old(self).sequence {
                Some(prev) => if prev > s {
                    Some(prev)
                } else {
                    Some(s)
                },
                None => Some(s),
            }),
            final(self).sequence matches Some(q) && q >= s,
            old(self).sequence matches Some(prev) ==> final(self).sequence matches Some(q) && q
                >= prev,
            final(self).session_id == old(self).session_id,
            final(self).resume_gateway_url == old(self).resume_gateway_url,
    {
        match self.sequence {
            Some(prev) => {
                if s > prev {
                    self.sequence = Some(s);
                } else {
                    self.sequence = Some(prev);
                }
            },
            None => {
                self.sequence = Some(s);
            },
        }
    }

    /// Persist the identity carried by READY.
    pub fn note_ready(&mut self, session_id: String, resume_gateway_url: String)
        ensures
            final(self).session_id == Some(session_id),
            final(self).resume_gateway_url == Some(resume_gateway_url),
            final(self).sequence == old(self).sequence,
    {
        self.session_id = Some(session_id);
        self.resume_gateway_url = Some(resume_gateway_url);
    }

    /// Discard the resumable identity; the resume URL is kept for the next
    /// connection attempt.  This is the only transition that resets the
    /// sequence.
    pub fn invalidate(&mut self)
        ensures
            final(self).session_id is None,
            final(self).sequence is None,
            final(self).resume_gateway_url == old(self).resume_gateway_url,
    {
        self.session_id = None;
        self.sequence = None;
    }

    /// A resume is possible exactly when both identity parts are present.
    pub open spec fn can_resume(&self) -> bool {
        self.session_id is Some && self.sequence is Some
    }
}

// ---------------------------------------------------------------------------
// Identify / resume decision
// ---------------------------------------------------------------------------

/// The authentication frame sent right after HELLO.
pub enum AuthFrame {
    /// Opcode 2: fresh identify.
    Identify { token: String, intents: u32, shard: Option<[u32; 2]> },
    /// Opcode 6: resume an existing session.
    Resume { token: String, session_id: String, seq: u64 },
}

/// Decide between RESUME and IDENTIFY.  A RESUME is sent iff both
/// `session_id` and the last sequence are present.
pub fn next_auth_frame(state: &SessionState, config: &GatewayConfig) -> (r: AuthFrame)
    ensures
        r is Resume <==> state.can_resume(),
        r matches AuthFrame::Resume { token, session_id, seq } ==> token@ == config.token@
            && state.session_id == Some(session_id) && state.sequence == Some(seq),
        r matches AuthFrame::Identify { token, intents, shard } ==> token@ == config.token@
            && intents == config.intents && shard == config.shard,
{
    match (&state.session_id, &state.sequence) {
        (Some(sid), Some(seq)) => AuthFrame::Resume {
            token: config.token.clone(),
            session_id: sid.clone(),
            seq: *seq,
        },
        _ => AuthFrame::Identify {
            token: config.token.clone(),
            intents: config.intents,
            shard: config.shard,
        },
    }
}

// ---------------------------------------------------------------------------
// Gateway URL
// ---------------------------------------------------------------------------

/// Which URL to dial, with the API version and encoding query parameters
/// appended when absent.
pub fn gateway_url(resume_url: &Option<String>) -> (r: String)
    ensures
        resume_url matches Some(u) ==> {
            &&& occurs_in(u@, "v=10"@) ==> r@ == u@
            &&& !occurs_in(u@, "v=10"@) && occurs_in(u@, "?"@) ==> r@ == u@ + "&v=10&encoding=json"@
            &&& !occurs_in(u@, "v=10"@) && !occurs_in(u@, "?"@) ==> r@ == u@
                + "?v=10&encoding=json"@
        },
        resume_url is None ==> r@ == "wss://gateway.discord.gg/?v=10&encoding=json"@,
{
    match resume_url {
        Some(u) => {
            if str_contains(u.as_str(), "v=10") {
                u.clone()
            } else if str_contains(u.as_str(), "?") {
                let mut s = u.clone();
                s.append("&v=10&encoding=json");
                s
            } else {
                let mut s = u.clone();
                s.append("?v=10&encoding=json");
                s
            }
        },
        None => "wss://gateway.discord.gg/?v=10&encoding=json".to_owned(),
    }
}

// ---------------------------------------------------------------------------
// Close-code policy
// ---------------------------------------------------------------------------

/// Why a connection attempt ended, and what to do next.
pub enum DisconnectReason {
    /// Preserve the session and reconnect with a RESUME.
    ShouldResume,
    /// Discard the session and reconnect with a fresh IDENTIFY.
    ShouldReidentify,
    /// Authentication / configuration error: stop the driver.
    Fatal,
    /// The consumer dropped its event receiver: stop the driver.
    EventChannelClosed,
}

/// Close codes that indicate a configuration or authentication error no
/// reconnect can fix.
pub open spec fn is_fatal_close_code(code: u16) -> bool {
    code == 4004 || code == 4010 || code == 4011 || code == 4012 || code == 4013 || code == 4014
}

/// Close codes after which the session is gone and a fresh identify is needed.
pub open spec fn is_reidentify_close_code(code: u16) -> bool {
    code == 4007 || code == 4009
}

/// Map an inbound close code to the disconnect outcome.
pub fn close_code_outcome(code: u16) -> (r: DisconnectReason)
    ensures
        r is Fatal <==> is_fatal_close_code(code),
        r is ShouldReidentify <==> is_reidentify_close_code(code),
        r is ShouldResume <==> !is_fatal_close_code(code) && !is_reidentify_close_code(code),
{
    if code == 4004 || code == 4010 || code == 4011 || code == 4012 || code == 4013 || code == 4014
    {
        DisconnectReason::Fatal
    } else if code == 4007 || code == 4009 {
        DisconnectReason::ShouldReidentify
    } else {
        DisconnectReason::ShouldResume
    }
}

/// Outcome for an inbound close frame; a close without a code is treated as a
/// transport failure, which preserves the session.
pub fn close_frame_outcome(code: Option<u16>) -> (r: DisconnectReason)
    ensures
        code matches Some(c) ==> {
            &&& (r is Fatal <==> is_fatal_close_code(c))
            &&& (r is ShouldReidentify <==> is_reidentify_close_code(c))
            &&& (r is ShouldResume <==> !is_fatal_close_code(c) && !is_reidentify_close_code(c))
        },
        code is None ==> r is ShouldResume,
{
    match code {
        Some(c) => close_code_outcome(c),
        None => DisconnectReason::ShouldResume,
    }
}

// ---------------------------------------------------------------------------
// Reconnect back-off
// ---------------------------------------------------------------------------

/// Two to the power `k`.
pub open spec fn pow2(k: nat) -> nat
    decreases k,
{
    if k == 0 {
        1
    } else {
        2 * pow2((k - 1) as nat)
    }
}

/// Base back-off before jitter: `1s * 2^min(attempt, 6)`.
pub open spec fn backoff_base_spec(attempt: u32) -> nat {
    1000 * pow2(if attempt <= 6 {
        attempt as nat
    } else {
        6nat
    })
}

/// Back-off after jitter, capped at one minute.  `jitter_permille` is a
/// uniform draw from [750, 1250), so the expectation stays at the base value.
pub open spec fn backoff_spec(attempt: u32, jitter_permille: u64) -> nat {
    let jittered = (backoff_base_spec(attempt) * jitter_permille / 1000) as nat;
    if jittered > BACKOFF_CAP_MS {
        BACKOFF_CAP_MS as nat
    } else {
        jittered
    }
}

/// Exponential back-off with jitter, capped at 60 s.
pub fn backoff_delay(attempt: u32, jitter_permille: u64) -> (r: u64)
    requires
        750 <= jitter_permille < 1250,
    ensures
        r == backoff_spec(attempt, jitter_permille),
{
    let capped: u32 = if attempt <= 6 {
        attempt
    } else {
        6
    };
    let mut base: u64 = 1000;
    for i in 0..capped
        invariant
            capped <= 6,
            base == 1000 * pow2(i as nat),
            base <= 64000,
    {
        proof {
            lemma_pow2_mono((i + 1) as nat, 6);
            assert(pow2(6) == 64) by {
                reveal_with_fuel(pow2, 8);
            }
        }
        base = base * 2;
    }
    proof {
        vstd::arithmetic::mul::lemma_mul_upper_bound(
            base as int,
            64000,
            jitter_permille as int,
            1249,
        );
    }
    let jittered = base * jitter_permille / 1000;
    if jittered > BACKOFF_CAP_MS {
        BACKOFF_CAP_MS
    } else {
        jittered
    }
}

/// Back-off monotonicity: for any fixed jitter draw, the delay for attempt
/// `k + 1` is at least the delay for attempt `k`, up to the cap.  Since the
/// jitter is drawn independently of the attempt, the expected back-off is
/// nondecreasing as well.
pub proof fn lemma_backoff_monotone(attempt: u32, jitter_permille: u64)
    requires
        attempt < u32::MAX,
    ensures
        backoff_spec(attempt, jitter_permille) <= backoff_spec(
            (attempt + 1) as u32,
            jitter_permille,
        ),
{
    let a = if attempt <= 6 {
        attempt as nat
    } else {
        6nat
    };
    let b = if attempt + 1 <= 6 {
        (attempt + 1) as nat
    } else {
        6nat
    };
    lemma_pow2_mono(a, b);
    let ba = backoff_base_spec(attempt);
    let bb = backoff_base_spec((attempt + 1) as u32);
    assert(ba <= bb);
    vstd::arithmetic::mul::lemma_mul_inequality(ba as int, bb as int, jitter_permille as int);
    vstd::arithmetic::div_mod::lemma_div_is_ordered(
        (ba * jitter_permille) as int,
        (bb * jitter_permille) as int,
        1000,
    );
}

proof fn lemma_pow2_pos(k: nat)
    ensures
        pow2(k) >= 1,
    decreases k,
{
    if k > 0 {
        lemma_pow2_pos((k - 1) as nat);
    }
}

proof fn lemma_pow2_mono(a: nat, b: nat)
    requires
        a <= b,
    ensures
        pow2(a) <= pow2(b),
    decreases b,
{
    if a < b {
        lemma_pow2_mono(a, (b - 1) as nat);
        lemma_pow2_pos((b - 1) as nat);
    }
}

// ---------------------------------------------------------------------------
// Reconnect policy
// ---------------------------------------------------------------------------

/// What the driver does after a connection attempt ends.
pub enum DriverStep {
    /// Wait `delay_ms`, then connect again; `attempts` is the new value of
    /// the consecutive-failure counter.
    Reconnect { delay_ms: u64, attempts: u32 },
    /// Stop the driver.
    Terminate,
}

/// Apply the disconnect outcome to the session and decide whether to
/// reconnect.  Fatal outcomes and a closed event channel terminate at once,
/// without consulting the attempt counter; more than
/// `MAX_RECONNECT_ATTEMPTS` consecutive failures also terminate.
pub fn reconnect_policy(
    reason: &DisconnectReason,
    attempts: u32,
    jitter_permille: u64,
    session: &mut SessionState,
) -> (r: DriverStep)
    requires
        750 <= jitter_permille < 1250,
        attempts < u32::MAX,
    ensures
        reason is Fatal || reason is EventChannelClosed ==> r is Terminate && *final(session)
            == *old(session),
        reason is ShouldReidentify ==> final(session).session_id is None
            && final(session).sequence is None
            && final(session).resume_gateway_url == old(session).resume_gateway_url,
        reason is ShouldResume ==> *final(session) == *old(session),
        (reason is ShouldResume || reason is ShouldReidentify) && attempts + 1
            > MAX_RECONNECT_ATTEMPTS ==> r is Terminate,
        (reason is ShouldResume || reason is ShouldReidentify) && attempts + 1
            <= MAX_RECONNECT_ATTEMPTS ==> r == (DriverStep::Reconnect {
            delay_ms: backoff_spec((attempts + 1) as u32, jitter_permille) as u64,
            attempts: (attempts + 1) as u32,
        }),
{
    match reason {
        DisconnectReason::Fatal => DriverStep::Terminate,
        DisconnectReason::EventChannelClosed => DriverStep::Terminate,
        DisconnectReason::ShouldReidentify => {
            session.invalidate();
            let next = attempts + 1;
            if next > MAX_RECONNECT_ATTEMPTS {
                DriverStep::Terminate
            } else {
                DriverStep::Reconnect { delay_ms: backoff_delay(next, jitter_permille), attempts: next }
            }
        },
        DisconnectReason::ShouldResume => {
            let next = attempts + 1;
            if next > MAX_RECONNECT_ATTEMPTS {
                DriverStep::Terminate
            } else {
                DriverStep::Reconnect { delay_ms: backoff_delay(next, jitter_permille), attempts: next }
            }
        },
    }
}

// ---------------------------------------------------------------------------
// Jitter draws
// ---------------------------------------------------------------------------

/// Draw the reconnect jitter factor, in permille: uniform over [750, 1250).
pub fn draw_backoff_jitter() -> (r: u64)
    ensures
        750 <= r < 1250,
{
    let x: u64 = rand::random::<u64>();
    750 + x % 500
}

/// Draw the initial-heartbeat jitter, in permille: uniform over [0, 1000).
pub fn draw_heartbeat_jitter() -> (r: u64)
    ensures
        r < 1000,
{
    let x: u64 = rand::random::<u64>();
    x % 1000
}

// ---------------------------------------------------------------------------
// Read-loop step
// ---------------------------------------------------------------------------

/// What the read loop does with one inbound payload.
pub enum ReadAction {
    /// Answer an inbound heartbeat request at once with the current
    /// sequence; nothing is forwarded to the consumer.
    SendHeartbeat { seq: Option<u64> },
    /// Forward the event to the consumer's queue.
    Forward(GatewayEvent),
    /// End this connection attempt: wait `wait_ms`, then apply the
    /// reconnect policy for `reason`.
    End { reason: DisconnectReason, wait_ms: u64 },
}

/// Fold one inbound payload into the session and decide what to do with it.
///
/// The sequence is updated before anything is forwarded, so a consumer that
/// observes an event sees a session sequence at least as large as that
/// event's.  READY persists the session identity.  A heartbeat request is
/// answered in-band and not forwarded.
pub fn handle_payload(
    session: &mut SessionState,
    payload: GatewayPayload,
    dispatch: DispatchData,
) -> (r: ReadAction)
    ensures
        payload.s matches Some(s) ==> (final(session).sequence matches Some(q) && q >= s && (
        old(session).sequence matches Some(p) ==> q >= p)),
        payload.s is None ==> final(session).sequence == old(session).sequence,
        old(session).sequence is Some ==> final(session).sequence is Some,
        payload.op == 1 ==> r == (ReadAction::SendHeartbeat { seq: final(session).sequence }),
        payload.op == 7 ==> r == (ReadAction::End {
            reason: DisconnectReason::ShouldResume,
            wait_ms: 0,
        }),
        payload.op == 9 ==> (r matches ReadAction::End { reason, wait_ms } && ((
        reason is ShouldResume && wait_ms == 2000) || (reason is ShouldReidentify && wait_ms
            == 3000))),
        payload.op == 11 ==> r matches Forward,
        payload.op == 0 ==> (dispatch matches DispatchData::Ready(e) ==> final(session).session_id
            == Some(e.session_id)
            && final(session).resume_gateway_url == Some(e.resume_gateway_url)
            && r matches Forward),
        payload.op == 0 && !(dispatch is Ready) ==> final(session).session_id
            == old(session).session_id
            && final(session).resume_gateway_url == old(session).resume_gateway_url
            && r matches Forward,
        payload.op != 0 ==> final(session).session_id == old(session).session_id
            && final(session).resume_gateway_url == old(session).resume_gateway_url,
{
    if let Some(s) = payload.s {
        session.note_sequence(s);
    }
    let event = GatewayEvent::from_payload(payload, dispatch);
    match event {
        GatewayEvent::Ready(re) => {
            session.note_ready(re.session_id.clone(), re.resume_gateway_url.clone());
            ReadAction::Forward(GatewayEvent::Ready(re))
        },
        GatewayEvent::HeartbeatRequest => ReadAction::SendHeartbeat { seq: session.sequence },
        GatewayEvent::Reconnect => ReadAction::End {
            reason: DisconnectReason::ShouldResume,
            wait_ms: 0,
        },
        GatewayEvent::InvalidSession(resumable) => {
            if resumable {
                ReadAction::End { reason: DisconnectReason::ShouldResume, wait_ms: 2000 }
            } else {
                ReadAction::End { reason: DisconnectReason::ShouldReidentify, wait_ms: 3000 }
            }
        },
        other => ReadAction::Forward(other),
    }
}

/// The outbound heartbeat frame: opcode 1 with the current sequence.
pub struct HeartbeatFrame {
    pub seq: Option<u64>,
}

/// Build the heartbeat answer for the current session.
pub fn heartbeat_frame(session: &SessionState) -> (r: HeartbeatFrame)
    ensures
        r.seq == session.sequence,
{
    HeartbeatFrame { seq: session.sequence }
}

/// The delay before the first heartbeat: `heartbeat_interval * jitter` with
/// jitter uniform in [0, 1).
pub fn initial_heartbeat_delay(interval_ms: u64, jitter_permille: u64) -> (r: u64)
    requires
        jitter_permille < 1000,
    ensures
        r == interval_ms as nat * jitter_permille as nat / 1000,
        r <= interval_ms,
{
    proof {
        vstd::arithmetic::mul::lemma_mul_upper_bound(
            interval_ms as int,
            u64::MAX as int,
            jitter_permille as int,
            1000,
        );
        vstd::arithmetic::mul::lemma_mul_inequality(
            jitter_permille as int,
            1000,
            interval_ms as int,
        );
        vstd::arithmetic::div_mod::lemma_div_is_ordered(
            interval_ms as int * jitter_permille as int,
            interval_ms as int * 1000,
            1000,
        );
        vstd::arithmetic::div_mod::lemma_div_multiples_vanish(interval_ms as int, 1000);
    }
    let wide = (interval_ms as u128) * (jitter_permille as u128) / 1000;
    wide as u64
}

} // verus!
