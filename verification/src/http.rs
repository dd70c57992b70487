//! REST client core: route bucketing, rate-limit accounting, the 429 retry
//! decision, header parsing, and multipart framing.
//!
//! All network traffic is performed outside the library.  The core here
//! plans each request (method, path, route key, body bytes), says how long to
//! wait before sending, folds the response headers back into the bucket
//! table, and decides whether a rate-limited call is retried.

use vstd::prelude::*;
use vstd::string::StrSliceExecFns;
use vstd::string::StringExecFns;

use crate::json::{content_object_json, spec_content_object};
use crate::saturate_u64;
use crate::text::{spec_dec, spec_hex16, str_eq, u64_to_dec, u64_to_hex16};
use crate::types::custom::RateLimitInfo;
use crate::types::datetime::{
    lemma_parse_fixed_bound, lemma_pow10_mono, parse_fixed, pow10, spec_frac_len,
    spec_parse_capped, spec_parse_fixed,
};
use crate::types::Message;

verus! {

// ---------------------------------------------------------------------------
// Constants
// ---------------------------------------------------------------------------

/// A 429 response is retried at most this many times per request, so a call
/// makes at most six attempts in total.
pub const REST_MAX_RETRIES: u32 = 5;

/// Rate-limit waits are capped at one minute.
pub const REST_DELAY_CAP_MS: u64 = 60000;

/// The base URL every request path is appended to.
pub fn base_url() -> (r: &'static str)
    ensures
        r@ == "https://discord.com/api/v10"@,
{
    "https://discord.com/api/v10"
}

/// The stable User-Agent sent with every request.
pub fn user_agent() -> (r: &'static str)
    ensures
        r@ == "BeetFramework (https://github.com/mrchantey/beet, 0.1)"@,
{
    "BeetFramework (https://github.com/mrchantey/beet, 0.1)"
}

// ---------------------------------------------------------------------------
// HTTP methods
// ---------------------------------------------------------------------------

/// The request methods the client issues.
#[derive(Debug, Clone, Copy, PartialEq, Eq, Structural)]
pub enum HttpMethod {
    Get,
    Post,
    Put,
    Patch,
    Delete,
}

impl HttpMethod {
    /// The method name as it appears in route keys.
    pub open spec fn spec_name(&self) -> Seq<char> {
        match self {
            HttpMethod::Get => "GET"@,
            HttpMethod::Post => "POST"@,
            HttpMethod::Put => "PUT"@,
            HttpMethod::Patch => "PATCH"@,
            HttpMethod::Delete => "DELETE"@,
        }
    }

    /// Render the method name.
    pub fn as_str(&self) -> (r: &'static str)
        ensures
            r@ == self.spec_name(),
    {
        match self {
            HttpMethod::Get => "GET",
            HttpMethod::Post => "POST",
            HttpMethod::Put => "PUT",
            HttpMethod::Patch => "PATCH",
            HttpMethod::Delete => "DELETE",
        }
    }
}

// ---------------------------------------------------------------------------
// Association lists keyed by strings
// ---------------------------------------------------------------------------

/// First-match lookup in an association list.
pub open spec fn assoc_lookup<V>(m: Seq<(String, V)>, key: Seq<char>) -> Option<V>
    decreases m.len(),
{
    if m.len() == 0 {
        None
    } else if m[0].0@ == key {
        Some(m[0].1)
    } else {
        assoc_lookup(m.subrange(1, m.len() as int), key)
    }
}

/// No key appears twice.
pub open spec fn assoc_keys_unique<V>(m: Seq<(String, V)>) -> bool {
    forall|i: int, j: int| 0 <= i < j < m.len() ==> m[i].0@ != m[j].0@
}

proof fn lemma_assoc_found<V>(m: Seq<(String, V)>, key: Seq<char>, i: int)
    requires
        0 <= i < m.len(),
        m[i].0@ == key,
        forall|k: int| 0 <= k < i ==> m[k].0@ != key,
    ensures
        assoc_lookup(m, key) == Some(m[i].1),
    decreases m.len(),
{
    if i > 0 {
        let rest = m.subrange(1, m.len() as int);
        lemma_assoc_found(rest, key, i - 1);
    }
}

proof fn lemma_assoc_absent<V>(m: Seq<(String, V)>, key: Seq<char>)
    requires
        forall|k: int| 0 <= k < m.len() ==> m[k].0@ != key,
    ensures
        assoc_lookup(m, key) is None,
    decreases m.len(),
{
    if m.len() > 0 {
        lemma_assoc_absent(m.subrange(1, m.len() as int), key);
    }
}

proof fn lemma_assoc_none_means_absent<V>(m: Seq<(String, V)>, key: Seq<char>)
    requires
        assoc_lookup(m, key) is None,
    ensures
        forall|k: int| 0 <= k < m.len() ==> m[k].0@ != key,
    decreases m.len(),
{
    if m.len() > 0 {
        let rest = m.subrange(1, m.len() as int);
        lemma_assoc_none_means_absent(rest, key);
        assert forall|k: int| 0 <= k < m.len() implies m[k].0@ != key by {
            if k > 0 {
                assert(m[k] == rest[k - 1]);
            }
        }
    }
}

proof fn lemma_assoc_update<V>(m: Seq<(String, V)>, i: int, entry: (String, V))
    requires
        0 <= i < m.len(),
        m[i].0@ == entry.0@,
        assoc_keys_unique(m),
    ensures
        assoc_lookup(m.update(i, entry), entry.0@) == Some(entry.1),
        forall|k: Seq<char>|
            k != entry.0@ ==> assoc_lookup(m.update(i, entry), k) == assoc_lookup(m, k),
        assoc_keys_unique(m.update(i, entry)),
    decreases m.len(),
{
    let upd = m.update(i, entry);
    assert forall|a: int, b: int| 0 <= a < b < upd.len() implies upd[a].0@ != upd[b].0@ by {
        assert(upd[a].0@ == m[a].0@);
        assert(upd[b].0@ == m[b].0@);
    }
    if i == 0 {
        assert forall|k: Seq<char>|
            k != entry.0@ implies assoc_lookup(upd, k) == assoc_lookup(m, k) by {
            assert(upd.subrange(1, upd.len() as int) =~= m.subrange(1, m.len() as int));
        }
    } else {
        let mrest = m.subrange(1, m.len() as int);
        lemma_assoc_update(mrest, i - 1, entry);
        assert(upd.subrange(1, upd.len() as int) =~= mrest.update(i - 1, entry));
        assert(upd[0] == m[0]);
        assert(m[0].0@ != entry.0@);
        assert forall|k: Seq<char>|
            k != entry.0@ implies assoc_lookup(upd, k) == assoc_lookup(m, k) by {
            assert(upd.subrange(1, upd.len() as int) =~= mrest.update(i - 1, entry));
            assert(assoc_lookup(mrest.update(i - 1, entry), k) == assoc_lookup(mrest, k));
        }
    }
}

proof fn lemma_assoc_push<V>(m: Seq<(String, V)>, entry: (String, V))
    requires
        assoc_lookup(m, entry.0@) is None,
        assoc_keys_unique(m),
    ensures
        assoc_lookup(m.push(entry), entry.0@) == Some(entry.1),
        forall|k: Seq<char>|
            k != entry.0@ ==> assoc_lookup(m.push(entry), k) == assoc_lookup(m, k),
        assoc_keys_unique(m.push(entry)),
    decreases m.len(),
{
    lemma_assoc_none_means_absent(m, entry.0@);
    let p = m.push(entry);
    assert forall|a: int, b: int| 0 <= a < b < p.len() implies p[a].0@ != p[b].0@ by {
        if b == p.len() - 1 {
            assert(p[a] == m[a]);
            assert(p[b] == entry);
        } else {
            assert(p[a] == m[a]);
            assert(p[b] == m[b]);
        }
    }
    if m.len() == 0 {
        assert(p.subrange(1, p.len() as int) =~= Seq::<(String, V)>::empty());
        assert forall|k: Seq<char>|
            k != entry.0@ implies assoc_lookup(p, k) == assoc_lookup(m, k) by {
            assert(assoc_lookup(p.subrange(1, p.len() as int), k) is None);
        }
    } else {
        let mrest = m.subrange(1, m.len() as int);
        lemma_assoc_push(mrest, entry);
        assert(p.subrange(1, p.len() as int) =~= mrest.push(entry));
        assert(p[0] == m[0]);
        assert forall|k: Seq<char>|
            k != entry.0@ implies assoc_lookup(p, k) == assoc_lookup(m, k) by {
            assert(p.subrange(1, p.len() as int) =~= mrest.push(entry));
            assert(assoc_lookup(mrest.push(entry), k) == assoc_lookup(mrest, k));
        }
    }
}

/// The index of the entry holding `key`, if any.
fn assoc_index<V>(m: &Vec<(String, V)>, key: &str) -> (r: Option<usize>)
    ensures
        r matches Some(i) ==> i < m@.len() && m@[i as int].0@ == key@ && assoc_lookup(m@, key@)
            == Some(m@[i as int].1),
        r is None <==> assoc_lookup(m@, key@) is None,
{
    let n = m.len();
    for i in 0..n
        invariant
            n == m@.len(),
            forall|k: int| 0 <= k < i ==> m@[k].0@ != key@,
    {
        if str_eq(m[i].0.as_str(), key) {
            proof {
                lemma_assoc_found(m@, key@, i as int);
            }
            return Some(i);
        }
    }
    proof {
        lemma_assoc_absent(m@, key@);
    }
    None
}

/// Insert or replace the entry for `key`.
fn assoc_set<V>(m: &mut Vec<(String, V)>, key: &str, value: V)
    requires
        assoc_keys_unique(old(m)@),
    ensures
        assoc_keys_unique(final(m)@),
        assoc_lookup(final(m)@, key@) == Some(value),
        forall|k: Seq<char>| k != key@ ==> assoc_lookup(final(m)@, k) == assoc_lookup(old(m)@, k),
{
    let entry = (key.to_owned(), value);
    match assoc_index(m, key) {
        Some(i) => {
            proof {
                lemma_assoc_update(m@, i as int, entry);
            }
            m[i] = entry;
        },
        None => {
            proof {
                lemma_assoc_push(m@, entry);
            }
            m.push(entry);
        },
    }
}

// ---------------------------------------------------------------------------
// Rate limiter
// ---------------------------------------------------------------------------

/// Per-bucket quota state learned from response headers.
#[derive(Debug, Clone, Copy, PartialEq, Eq, Structural)]
pub struct BucketState {
    /// Requests left before the bucket resets.
    pub remaining: u32,
    /// Epoch milliseconds at which the bucket resets.
    pub resets_at_ms: u64,
}

/// Route-bucketed rate-limit tracker.
///
/// `route_buckets` learns the server's bucket ID for each client route key;
/// `buckets` holds the last-seen quota per bucket; a global lockout blocks
/// every route until it expires.
pub struct RateLimiter {
    route_buckets: Vec<(String, String)>,
    buckets: Vec<(String, BucketState)>,
    global_until_ms: Option<u64>,
}

impl RateLimiter {
    /// The learned route-key-to-bucket map.
    pub closed spec fn routes(&self) -> Seq<(String, String)> {
        self.route_buckets@
    }

    /// The per-bucket quota table.
    pub closed spec fn bucket_table(&self) -> Seq<(String, BucketState)> {
        self.buckets@
    }

    /// The global lockout, if one is set.
    pub closed spec fn global_until(&self) -> Option<u64> {
        self.global_until_ms
    }

    /// Both tables carry each key at most once.
    pub open spec fn wf(&self) -> bool {
        assoc_keys_unique(self.routes()) && assoc_keys_unique(self.bucket_table())
    }

    /// The bucket ID learned for a route key.
    pub open spec fn route_bucket_of(&self, key: Seq<char>) -> Option<String> {
        assoc_lookup(self.routes(), key)
    }

    /// The quota state of a bucket.
    pub open spec fn bucket_state_of(&self, bucket: Seq<char>) -> Option<BucketState> {
        assoc_lookup(self.bucket_table(), bucket)
    }

    /// The wait a route's bucket alone asks for, ignoring the global
    /// lockout.
    pub open spec fn bucket_delay_spec(&self, key: Seq<char>, now_ms: u64) -> Option<u64> {
        match self.route_bucket_of(key) {
            None => None,
            Some(bucket) => match self.bucket_state_of(bucket@) {
                None => None,
                Some(st) => if st.remaining == 0 && st.resets_at_ms > now_ms {
                    Some((st.resets_at_ms - now_ms) as u64)
                } else {
                    None
                },
            },
        }
    }

    /// How long `delay_for` asks a caller to wait before a request on `key`.
    pub open spec fn delay_for_spec(&self, key: Seq<char>, now_ms: u64) -> Option<u64> {
        match self.global_until() {
            Some(g) => if g > now_ms {
                Some((g - now_ms) as u64)
            } else {
                self.bucket_delay_spec(key, now_ms)
            },
            None => self.bucket_delay_spec(key, now_ms),
        }
    }

    pub fn new() -> (r: Self)
        ensures
            r.wf(),
            r.routes() =~= Seq::<(String, String)>::empty(),
            r.bucket_table() =~= Seq::<(String, BucketState)>::empty(),
            r.global_until() is None,
    {
        RateLimiter { route_buckets: Vec::new(), buckets: Vec::new(), global_until_ms: None }
    }

    /// How long to wait before sending a request on `route_key`, or `None`
    /// if it can be sent immediately.
    pub fn delay_for(&self, route_key: &str, now_ms: u64) -> (r: Option<u64>)
        ensures
            r == self.delay_for_spec(route_key@, now_ms),
    {
        if let Some(until) = self.global_until_ms {
            if until > now_ms {
                return Some(until - now_ms);
            }
        }
        match assoc_index(&self.route_buckets, route_key) {
            None => None,
            Some(i) => {
                let bucket = self.route_buckets[i].1.clone();
                match assoc_index(&self.buckets, bucket.as_str()) {
                    None => None,
                    Some(j) => {
                        let st = self.buckets[j].1;
                        if st.remaining == 0 && st.resets_at_ms > now_ms {
                            Some(st.resets_at_ms - now_ms)
                        } else {
                            None
                        }
                    },
                }
            },
        }
    }

    /// Fold the rate-limit headers of one response into the table.  The
    /// route learns its bucket, the bucket takes the reported quota, and a
    /// global flag sets the global lockout.  Headers are folded in for every
    /// response, success or failure.
    pub fn update(&mut self, route_key: &str, info: &RateLimitInfo, now_ms: u64)
        requires
            old(self).wf(),
        ensures
            final(self).wf(),
            info.is_global ==> (info.reset_after_ms matches Some(ra)
                ==> final(self).global_until() == Some(saturate_u64(now_ms + ra))),
            !(info.is_global && info.reset_after_ms is Some) ==> final(self).global_until()
                == old(self).global_until(),
            info.bucket matches Some(b) ==> final(self).route_bucket_of(route_key@) matches Some(
                b2,
            ) && b2@ == b@,
            info.bucket matches Some(b) ==> final(self).bucket_state_of(b@) == Some(
                BucketState {
                    remaining: (match info.remaining {
                        Some(rem) => rem,
                        None => 1u32,
                    }),
                    resets_at_ms: saturate_u64(
                        now_ms + (match info.reset_after_ms {
                            Some(ra) => ra,
                            None => 1000u64,
                        }),
                    ),
                },
            ),
            forall|k: Seq<char>|
                k != route_key@ ==> final(self).route_bucket_of(k)
                    == old(self).route_bucket_of(k),
            info.bucket matches Some(b) ==> forall|k: Seq<char>|
                k != b@ ==> final(self).bucket_state_of(k) == old(self).bucket_state_of(k),
            info.bucket is None ==> final(self).routes() == old(self).routes()
                && final(self).bucket_table() == old(self).bucket_table(),
    {
        if info.is_global {
            if let Some(ra) = info.reset_after_ms {
                self.global_until_ms = Some(crate::saturating_add_ms(now_ms, ra));
            }
        }
        if let Some(bucket) = &info.bucket {
            let reset_at = match info.reset_after_ms {
                Some(ra) => crate::saturating_add_ms(now_ms, ra),
                None => crate::saturating_add_ms(now_ms, 1000),
            };
            let remaining = match info.remaining {
                Some(rem) => rem,
                None => 1,
            };
            assoc_set(&mut self.route_buckets, route_key, bucket.clone());
            assoc_set(&mut self.buckets, bucket.as_str(), BucketState { remaining, resets_at_ms: reset_at });
        }
    }

    /// Start a global lockout until `until_ms`.
    pub fn set_global_until(&mut self, until_ms: u64)
        requires
            old(self).wf(),
        ensures
            final(self).wf(),
            final(self).global_until() == Some(until_ms),
            final(self).routes() == old(self).routes(),
            final(self).bucket_table() == old(self).bucket_table(),
    {
        self.global_until_ms = Some(until_ms);
    }
}

/// Rate limits are respected: when the limiter reports no delay for a route,
/// no global lockout is pending, and the route's bucket — if its quota is
/// known at all — either has requests remaining or has already reset.
pub proof fn lemma_rate_limit_respected(rl: &RateLimiter, key: Seq<char>, now_ms: u64)
    requires
        rl.delay_for_spec(key, now_ms) is None,
    ensures
        rl.global_until() matches Some(g) ==> g <= now_ms,
        rl.route_bucket_of(key) matches Some(b) ==> (rl.bucket_state_of(b@) matches Some(st)
            ==> st.remaining > 0 || st.resets_at_ms <= now_ms),
{
}

// ---------------------------------------------------------------------------
// Response classification and the 429 retry decision
// ---------------------------------------------------------------------------

/// What the request loop does with one response.
pub enum ResponseStep {
    /// 2xx: hand the body to the caller.
    Success,
    /// 429 with retry budget left: sleep `delay_ms` and try again.
    RetryAfter { delay_ms: u64 },
    /// Anything else: surface an error to the caller.
    Failed,
}

/// The delay a 429 response asks for, capped at one minute; one second when
/// the header is missing.
pub open spec fn retry_delay_spec(info: &RateLimitInfo) -> u64 {
    let ra = match info.reset_after_ms {
        Some(ra) => ra,
        None => 1000u64,
    };
    if ra > REST_DELAY_CAP_MS {
        REST_DELAY_CAP_MS
    } else {
        ra
    }
}

/// Classify a response's status: success, retry, or failure.  A 429 is
/// retried only while the attempt budget lasts, so a single call makes at
/// most `1 + REST_MAX_RETRIES` attempts; a global 429 starts the global
/// lockout before the sleep.
pub fn classify_response(
    limiter: &mut RateLimiter,
    status: u16,
    info: &RateLimitInfo,
    attempt: u32,
    now_ms: u64,
) -> (r: ResponseStep)
    requires
        old(limiter).wf(),
    ensures
        final(limiter).wf(),
        200 <= status < 300 ==> r is Success,
        r is Success ==> 200 <= status < 300,
        r matches ResponseStep::RetryAfter { delay_ms } ==> status == 429 && attempt
            < REST_MAX_RETRIES && delay_ms == retry_delay_spec(info) && delay_ms
            <= REST_DELAY_CAP_MS,
        status == 429 && attempt < REST_MAX_RETRIES ==> r == (ResponseStep::RetryAfter {
            delay_ms: retry_delay_spec(info),
        }),
        status == 429 && attempt >= REST_MAX_RETRIES ==> r is Failed,
        !(200 <= status < 300) && status != 429 ==> r is Failed,
        status == 429 && info.is_global ==> final(limiter).global_until() == Some(
            saturate_u64(now_ms + retry_delay_spec(info)),
        ),
        status != 429 || !info.is_global ==> final(limiter).global_until()
            == old(limiter).global_until(),
        final(limiter).routes() == old(limiter).routes(),
        final(limiter).bucket_table() == old(limiter).bucket_table(),
{
    if status == 429 {
        let ra = match info.reset_after_ms {
            Some(ra) => ra,
            None => 1000,
        };
        let delay = if ra > REST_DELAY_CAP_MS {
            REST_DELAY_CAP_MS
        } else {
            ra
        };
        if info.is_global {
            let until = crate::saturating_add_ms(now_ms, delay);
            limiter.set_global_until(until);
        }
        if attempt < REST_MAX_RETRIES {
            ResponseStep::RetryAfter { delay_ms: delay }
        } else {
            ResponseStep::Failed
        }
    } else if 200 <= status && status < 300 {
        ResponseStep::Success
    } else {
        ResponseStep::Failed
    }
}

/// Cap a pre-flight wait at one minute, as the request loop does before
/// sleeping.
pub fn cap_delay(delay_ms: u64) -> (r: u64)
    ensures
        r == (if delay_ms > REST_DELAY_CAP_MS {
            REST_DELAY_CAP_MS
        } else {
            delay_ms
        }),
{
    if delay_ms > REST_DELAY_CAP_MS {
        REST_DELAY_CAP_MS
    } else {
        delay_ms
    }
}


// ---------------------------------------------------------------------------
// Rate-limit header parsing
// ---------------------------------------------------------------------------

/// The value a `u32` parse of `s` yields: all digits, nonempty, within range.
pub open spec fn spec_parse_u32(s: Seq<char>) -> Option<int> {
    if s.len() == 0 {
        None
    } else {
        spec_parse_capped(s, 0, s.len(), 0)
    }
}

/// Parse a whole decimal `u32`, as the remaining-requests header carries.
pub fn parse_u32_str(s: &str) -> (r: Option<u32>)
    ensures
        r matches Some(v) ==> spec_parse_u32(s@) == Some(v as int),
        r is None <==> spec_parse_u32(s@) is None,
{
    let n = s.unicode_len();
    if n == 0 {
        return None;
    }
    let mut acc: u64 = 0;
    let mut i: usize = 0;
    while i < n
        invariant
            0 <= i <= n,
            n == s@.len(),
            acc <= u32::MAX,
            spec_parse_capped(s@, 0, n as nat, 0) == spec_parse_capped(
                s@,
                i as int,
                (n - i) as nat,
                acc as int,
            ),
        decreases n - i,
    {
        let c = s.get_char(i);
        let d = match crate::types::datetime::digit_val(c) {
            Some(d) => d,
            None => {
                return None;
            },
        };
        let acc2 = acc * 10 + d;
        if acc2 > u32::MAX as u64 {
            return None;
        }
        acc = acc2;
        i = i + 1;
    }
    Some(acc as u32)
}

/// How `X-RateLimit-Reset-After` is read: `I[.F]` seconds with `I` at most
/// nine digits, truncated to whole milliseconds.
pub open spec fn spec_parse_secs_ms(s: Seq<char>) -> Option<int> {
    let dl = spec_frac_len(s, 0);
    if dl == 0 || dl > 9 {
        None
    } else if dl == s.len() {
        match spec_parse_fixed(s, 0, dl) {
            Some(v) => Some(v * 1000),
            None => None,
        }
    } else if s[dl as int] != '.' {
        None
    } else {
        let fl = spec_frac_len(s, dl + 1 as int);
        if dl + 1 + fl != s.len() {
            None
        } else {
            let take = if fl > 3 {
                3nat
            } else {
                fl
            };
            match (spec_parse_fixed(s, 0, dl), spec_parse_fixed(s, dl + 1 as int, take)) {
                (Some(v), Some(f)) => Some(v * 1000 + f * pow10((3 - take) as nat)),
                _ => None,
            }
        }
    }
}

/// Parse fractional seconds into whole milliseconds.
pub fn parse_secs_to_ms(s: &str) -> (r: Option<u64>)
    ensures
        r matches Some(v) ==> spec_parse_secs_ms(s@) == Some(v as int),
        r is None <==> spec_parse_secs_ms(s@) is None,
{
    let n = s.unicode_len();
    let dl = digit_run(s, 0);
    if dl == 0 || dl > 9 {
        return None;
    }
    proof {
        assert(pow10(9) == 1_000_000_000) by {
            reveal_with_fuel(pow10, 11);
        }
        lemma_parse_fixed_bound(s@, 0, dl as nat);
        lemma_pow10_mono(dl as nat, 9);
    }
    if dl == n {
        match parse_fixed(s, 0, dl) {
            Some(v) => {
                return Some(v * 1000);
            },
            None => {
                return None;
            },
        }
    }
    if s.get_char(dl) != '.' {
        return None;
    }
    let fl = digit_run(s, dl + 1);
    if dl + 1 + fl != n {
        return None;
    }
    let take = if fl > 3 {
        3
    } else {
        fl
    };
    proof {
        lemma_parse_fixed_bound(s@, dl + 1, take as nat);
        lemma_pow10_mono(take as nat, 3);
        assert(pow10(3) == 1000) by {
            reveal_with_fuel(pow10, 5);
        }
    }
    let int_part = match parse_fixed(s, 0, dl) {
        Some(v) => v,
        None => {
            return None;
        },
    };
    let frac_part = match parse_fixed(s, dl + 1, take) {
        Some(f) => f,
        None => {
            return None;
        },
    };
    let scale: u64 = if take == 0 {
        1000
    } else if take == 1 {
        100
    } else if take == 2 {
        10
    } else {
        1
    };
    proof {
        assert(pow10(0) == 1 && pow10(1) == 10 && pow10(2) == 100 && pow10(3) == 1000) by {
            reveal_with_fuel(pow10, 5);
        }
        vstd::arithmetic::mul::lemma_mul_upper_bound(frac_part as int, 999, scale as int, 1000);
    }
    Some(int_part * 1000 + frac_part * scale)
}

/// The length of the digit run starting at `start`.
fn digit_run(s: &str, start: usize) -> (r: usize)
    requires
        start <= s@.len(),
    ensures
        r == spec_frac_len(s@, start as int),
        start + r <= s@.len(),
    decreases s@.len() - start,
{
    let n = s.unicode_len();
    let mut end: usize = start;
    loop
        invariant_except_break
            start <= end <= n,
            n == s@.len(),
            spec_frac_len(s@, start as int) == end - start + spec_frac_len(s@, end as int),
        ensures
            start <= end <= n,
            n == s@.len(),
            spec_frac_len(s@, start as int) == end - start,
        decreases n - end,
    {
        if end >= n {
            break;
        }
        let c = s.get_char(end);
        match crate::types::datetime::digit_val(c) {
            Some(_) => {
                end = end + 1;
            },
            None => {
                break;
            },
        }
    }
    end - start
}

/// Extract the rate-limit metadata from a response's headers.  Lookup is by
/// exact lower-case header name; durations come out in whole milliseconds.
pub fn parse_rate_limit_headers(headers: &Vec<(String, String)>) -> (r: RateLimitInfo)
    ensures
        r.remaining == (match assoc_lookup(headers@, "x-ratelimit-remaining"@) {
            Some(v) => (match spec_parse_u32(v@) {
                Some(n) => Some(n as u32),
                None => None::<u32>,
            }),
            None => None::<u32>,
        }),
        r.reset_after_ms == (match assoc_lookup(headers@, "x-ratelimit-reset-after"@) {
            Some(v) => (match spec_parse_secs_ms(v@) {
                Some(n) => Some(n as u64),
                None => None::<u64>,
            }),
            None => None::<u64>,
        }),
        r.reset_at_ms == (match assoc_lookup(headers@, "x-ratelimit-reset"@) {
            Some(v) => (match spec_parse_secs_ms(v@) {
                Some(n) => Some(n as u64),
                None => None::<u64>,
            }),
            None => None::<u64>,
        }),
        (match assoc_lookup(headers@, "x-ratelimit-bucket"@) {
            Some(v) => r.bucket matches Some(b) && b@ == v@,
            None => r.bucket is None,
        }),
        r.is_global == (match assoc_lookup(headers@, "x-ratelimit-global"@) {
            Some(v) => v@ == "true"@,
            None => false,
        }),
{
    let remaining = match assoc_index(headers, "x-ratelimit-remaining") {
        Some(i) => parse_u32_str(headers[i].1.as_str()),
        None => None,
    };
    let reset_at_ms = match assoc_index(headers, "x-ratelimit-reset") {
        Some(i) => parse_secs_to_ms(headers[i].1.as_str()),
        None => None,
    };
    let reset_after_ms = match assoc_index(headers, "x-ratelimit-reset-after") {
        Some(i) => parse_secs_to_ms(headers[i].1.as_str()),
        None => None,
    };
    let bucket = match assoc_index(headers, "x-ratelimit-bucket") {
        Some(i) => Some(headers[i].1.clone()),
        None => None,
    };
    let is_global = match assoc_index(headers, "x-ratelimit-global") {
        Some(i) => str_eq(headers[i].1.as_str(), "true"),
        None => false,
    };
    RateLimitInfo { remaining, reset_at_ms, reset_after_ms, bucket, is_global }
}


// ---------------------------------------------------------------------------
// Errors
// ---------------------------------------------------------------------------

/// Errors surfaced to REST callers.
#[derive(Debug, Clone)]
pub enum HttpError {
    /// Non-success status from Discord.
    Api { status: u16, body: String, route: String },
    /// Transport / network error.
    Transport(String),
    /// Serialisation error.
    Serde(String),
}

impl HttpError {
    /// The human-readable description of the error.
    pub fn message(&self) -> (r: String)
        ensures
            (self matches HttpError::Api { status, body, route } ==> r@ == "Discord API error "@
                + spec_dec(status as nat) + " on "@ + route@ + ": "@ + body@),
            (self matches HttpError::Transport(e) ==> r@ == "HTTP transport error: "@ + e@),
            (self matches HttpError::Serde(e) ==> r@ == "Serialisation error: "@ + e@),
    {
        match self {
            HttpError::Api { status, body, route } => {
                proof {
                    reveal_strlit("Discord API error ");
                    reveal_strlit(" on ");
                    reveal_strlit(": ");
                }
                let mut out: String = "Discord API error ".to_owned();
                out.append(u64_to_dec(*status as u64).as_str());
                out.append(" on ");
                out.append(route.as_str());
                out.append(": ");
                out.append(body.as_str());
                out
            },
            HttpError::Transport(e) => {
                proof {
                    reveal_strlit("HTTP transport error: ");
                }
                let mut out: String = "HTTP transport error: ".to_owned();
                out.append(e.as_str());
                out
            },
            HttpError::Serde(e) => {
                proof {
                    reveal_strlit("Serialisation error: ");
                }
                let mut out: String = "Serialisation error: ".to_owned();
                out.append(e.as_str());
                out
            },
        }
    }
}

/// The diagnostic text of a decode failure on a 2xx body: the decoder's own
/// message, then the first 200 characters of the body.
pub fn serde_error_text(decode_error: &str, body: &str) -> (r: String)
    ensures
        r@ == decode_error@ + ": "@ + (if body@.len() <= 200 {
            body@
        } else {
            body@.take(200)
        }),
{
    proof {
        reveal_strlit(": ");
    }
    let mut out = String::new();
    out.append(decode_error);
    out.append(": ");
    let n = body.unicode_len();
    if n <= 200 {
        out.append(body);
    } else {
        out.append(body.substring_char(0, 200));
        proof {
            assert(body@.subrange(0, 200) =~= body@.take(200));
        }
    }
    proof {
        assert(out@ =~= decode_error@ + ": "@ + (if body@.len() <= 200 {
            body@
        } else {
            body@.take(200)
        }));
    }
    out
}

// ---------------------------------------------------------------------------
// Request plans
// ---------------------------------------------------------------------------

/// One planned request: where it goes and which route key buckets it.
#[derive(Debug, Clone)]
pub struct RequestPlan {
    pub method: HttpMethod,
    /// Path under the base URL, without a leading slash.
    pub path: String,
    /// The client-side bucketing key: method and templated path with major
    /// parameters substituted.
    pub route_key: String,
}

fn concat2(a: &str, b: &str) -> (r: String)
    ensures
        r@ == a@ + b@,
{
    let mut s = a.to_owned();
    s.append(b);
    s
}

fn concat3(a: &str, b: &str, c: &str) -> (r: String)
    ensures
        r@ == a@ + b@ + c@,
{
    let mut s = a.to_owned();
    s.append(b);
    s.append(c);
    proof {
        assert(s@ =~= a@ + b@ + c@);
    }
    s
}

/// Leading slashes of a path, dropped before the base URL is prepended.
pub open spec fn spec_strip_slashes(s: Seq<char>) -> Seq<char>
    decreases s.len(),
{
    if s.len() > 0 && s[0] == '/' {
        spec_strip_slashes(s.subrange(1, s.len() as int))
    } else {
        s
    }
}

/// The absolute URL for a path: base, one slash, the path without its
/// leading slashes.
pub fn request_url(path: &str) -> (r: String)
    ensures
        r@ == "https://discord.com/api/v10"@ + "/"@ + spec_strip_slashes(path@),
{
    let n = path.unicode_len();
    let mut i: usize = 0;
    proof {
        assert(path@.subrange(0, n as int) =~= path@);
    }
    loop
        invariant_except_break
            0 <= i <= n,
            n == path@.len(),
            spec_strip_slashes(path@) == spec_strip_slashes(path@.subrange(i as int, n as int)),
        ensures
            0 <= i <= n,
            n == path@.len(),
            spec_strip_slashes(path@) == spec_strip_slashes(path@.subrange(i as int, n as int)),
            i == n || path@[i as int] != '/',
        decreases n - i,
    {
        if i >= n {
            break;
        }
        if path.get_char(i) != '/' {
            break;
        }
        proof {
            assert(path@.subrange(i as int, n as int).subrange(1, (n - i) as int) =~= path@
                .subrange(i + 1 as int, n as int));
        }
        i = i + 1;
    }
    let rest = path.substring_char(i, n);
    proof {
        if i < n {
            assert(path@.subrange(i as int, n as int)[0] == path@[i as int]);
        }
        assert(spec_strip_slashes(path@.subrange(i as int, n as int)) =~= path@.subrange(
            i as int,
            n as int,
        ));
    }
    concat3(base_url(), "/", rest)
}

/// Plan for sending a rich message to a channel:
/// `POST /channels/{channel_id}/messages`.
pub fn create_message(channel_id: &str) -> (r: RequestPlan)
    ensures
        r.method == HttpMethod::Post,
        r.path@ == "channels/"@ + channel_id@ + "/messages"@,
        r.route_key@ == "POST /channels/"@ + channel_id@ + "/messages"@,
{
    RequestPlan {
        method: HttpMethod::Post,
        path: concat3("channels/", channel_id, "/messages"),
        route_key: concat3("POST /channels/", channel_id, "/messages"),
    }
}

/// Plan for sending a simple text message: the `create_message` route with a
/// content-only body.
pub fn send_message(channel_id: &str, content: &str) -> (r: (
    RequestPlan,
    crate::types::custom::CreateMessage,
))
    ensures
        r.0.method == HttpMethod::Post,
        r.0.path@ == "channels/"@ + channel_id@ + "/messages"@,
        r.0.route_key@ == "POST /channels/"@ + channel_id@ + "/messages"@,
        r.1.content matches Some(c) && c@ == content@,
        r.1.embeds is None && r.1.message_reference is None && r.1.components is None
            && r.1.flags is None,
{
    let msg = crate::types::custom::CreateMessage::new().content(content);
    (create_message(channel_id), msg)
}

/// Plan for fetching messages: `GET /channels/{channel_id}/messages`; the
/// query string is a minor parameter and stays out of the route key.
pub fn get_messages(channel_id: &str, query: &str) -> (r: RequestPlan)
    ensures
        r.method == HttpMethod::Get,
        r.path@ == "channels/"@ + channel_id@ + "/messages?"@ + query@,
        r.route_key@ == "GET /channels/"@ + channel_id@ + "/messages"@,
{
    let mut path = concat3("channels/", channel_id, "/messages?");
    path.append(query);
    proof {
        assert(path@ =~= "channels/"@ + channel_id@ + "/messages?"@ + query@);
    }
    RequestPlan {
        method: HttpMethod::Get,
        path,
        route_key: concat3("GET /channels/", channel_id, "/messages"),
    }
}

/// Plan for guild info with approximate counts: `GET /guilds/{guild_id}`.
pub fn get_guild(guild_id: &str) -> (r: RequestPlan)
    ensures
        r.method == HttpMethod::Get,
        r.path@ == "guilds/"@ + guild_id@ + "?with_counts=true"@,
        r.route_key@ == "GET /guilds/"@ + guild_id@,
{
    RequestPlan {
        method: HttpMethod::Get,
        path: concat3("guilds/", guild_id, "?with_counts=true"),
        route_key: concat2("GET /guilds/", guild_id),
    }
}

/// Plan for answering an interaction:
/// `POST /interactions/{id}/{token}/callback`.  Interaction callbacks share
/// one bucket, so the route key carries no parameters.
pub fn create_interaction_response(interaction_id: &str, interaction_token: &str) -> (r:
    RequestPlan)
    ensures
        r.method == HttpMethod::Post,
        r.path@ == "interactions/"@ + interaction_id@ + "/"@ + interaction_token@ + "/callback"@,
        r.route_key@ == "POST /interactions/callback"@,
{
    let mut path = concat3("interactions/", interaction_id, "/");
    path.append(interaction_token);
    path.append("/callback");
    proof {
        reveal_strlit("/callback");
        assert(path@ =~= "interactions/"@ + interaction_id@ + "/"@ + interaction_token@
            + "/callback"@);
    }
    RequestPlan {
        method: HttpMethod::Post,
        path,
        route_key: "POST /interactions/callback".to_owned(),
    }
}

/// Plan for editing the original interaction response:
/// `PATCH /webhooks/{application_id}/{token}/messages/@original`.
pub fn edit_original_interaction_response(application_id: &str, interaction_token: &str) -> (r:
    RequestPlan)
    ensures
        r.method == HttpMethod::Patch,
        r.path@ == "webhooks/"@ + application_id@ + "/"@ + interaction_token@
            + "/messages/@original"@,
        r.route_key@ == "PATCH /webhooks/interaction/messages/@original"@,
{
    let mut path = concat3("webhooks/", application_id, "/");
    path.append(interaction_token);
    path.append("/messages/@original");
    proof {
        reveal_strlit("/messages/@original");
        assert(path@ =~= "webhooks/"@ + application_id@ + "/"@ + interaction_token@
            + "/messages/@original"@);
    }
    RequestPlan {
        method: HttpMethod::Patch,
        path,
        route_key: "PATCH /webhooks/interaction/messages/@original".to_owned(),
    }
}

/// Plan for overwriting guild-scoped commands:
/// `PUT /applications/{application_id}/guilds/{guild_id}/commands`.
pub fn bulk_overwrite_guild_commands(application_id: &str, guild_id: &str) -> (r: RequestPlan)
    ensures
        r.method == HttpMethod::Put,
        r.path@ == "applications/"@ + application_id@ + "/guilds/"@ + guild_id@ + "/commands"@,
        r.route_key@ == "PUT /applications/"@ + application_id@ + "/guilds/"@ + guild_id@
            + "/commands"@,
{
    let mut path = concat3("applications/", application_id, "/guilds/");
    path.append(guild_id);
    path.append("/commands");
    let mut route_key = concat3("PUT /applications/", application_id, "/guilds/");
    route_key.append(guild_id);
    route_key.append("/commands");
    proof {
        reveal_strlit("/commands");
        assert(path@ =~= "applications/"@ + application_id@ + "/guilds/"@ + guild_id@
            + "/commands"@);
        assert(route_key@ =~= "PUT /applications/"@ + application_id@ + "/guilds/"@ + guild_id@
            + "/commands"@);
    }
    RequestPlan { method: HttpMethod::Put, path, route_key }
}

/// Plan for overwriting global commands:
/// `PUT /applications/{application_id}/commands`.
pub fn bulk_overwrite_global_commands(application_id: &str) -> (r: RequestPlan)
    ensures
        r.method == HttpMethod::Put,
        r.path@ == "applications/"@ + application_id@ + "/commands"@,
        r.route_key@ == "PUT /applications/"@ + application_id@ + "/commands"@,
{
    RequestPlan {
        method: HttpMethod::Put,
        path: concat3("applications/", application_id, "/commands"),
        route_key: concat3("PUT /applications/", application_id, "/commands"),
    }
}

/// Plan for channel info: `GET /channels/{channel_id}`.
pub fn get_channel(channel_id: &str) -> (r: RequestPlan)
    ensures
        r.method == HttpMethod::Get,
        r.path@ == "channels/"@ + channel_id@,
        r.route_key@ == "GET /channels/"@ + channel_id@,
{
    RequestPlan {
        method: HttpMethod::Get,
        path: concat2("channels/", channel_id),
        route_key: concat2("GET /channels/", channel_id),
    }
}

// ---------------------------------------------------------------------------
// The client
// ---------------------------------------------------------------------------

/// A thin, rate-limit-aware client core for the Discord REST API.  It plans
/// and accounts; the surrounding loop sends.
pub struct DiscordHttpClient {
    pub token: String,
    /// The shared rate-limit table; fold every response into it.
    pub limiter: RateLimiter,
}

impl DiscordHttpClient {
    /// The configured bot token.
    pub open spec fn spec_token(&self) -> Seq<char> {
        self.token@
    }

    /// Create a new client core with the given bot token.
    pub fn new(token: &str) -> (r: Self)
        ensures
            r.spec_token() == token@,
            r.limiter.wf(),
            r.limiter.global_until() is None,
    {
        DiscordHttpClient { token: token.to_owned(), limiter: RateLimiter::new() }
    }

    /// The `Authorization` header value.
    pub fn auth_header(&self) -> (r: String)
        ensures
            r@ == "Bot "@ + self.spec_token(),
    {
        concat2("Bot ", self.token.as_str())
    }

    /// The pre-flight wait for a route, capped at one minute: consult before
    /// each attempt, sleep, and consult again until clear.
    pub fn pre_flight_delay(&self, route_key: &str, now_ms: u64) -> (r: Option<u64>)
        ensures
            r == (match self.limiter.delay_for_spec(route_key@, now_ms) {
                Some(d) => Some(
                    if d > REST_DELAY_CAP_MS {
                        REST_DELAY_CAP_MS
                    } else {
                        d
                    },
                ),
                None => None::<u64>,
            }),
    {
        match self.limiter.delay_for(route_key, now_ms) {
            Some(d) => Some(cap_delay(d)),
            None => None,
        }
    }
}

// ---------------------------------------------------------------------------
// Multipart framing
// ---------------------------------------------------------------------------

/// The UTF-8 bytes of a string view.
pub open spec fn utf8(s: Seq<char>) -> Seq<u8> {
    vstd::utf8::encode_utf8(s)
}

/// The multipart/form-data body for a file upload: an optional
/// `payload_json` part carrying the content object, the `file` part, and the
/// closing boundary.
pub open spec fn spec_multipart(
    boundary: Seq<char>,
    content: Option<Seq<char>>,
    filename: Seq<char>,
    data: Seq<u8>,
) -> Seq<u8> {
    let payload_part = match content {
        Some(text) => utf8("--"@) + utf8(boundary) + utf8("\r\n"@) + utf8(
            "Content-Disposition: form-data; name=\"payload_json\"\r\n"@,
        ) + utf8("Content-Type: application/json\r\n\r\n"@) + utf8(spec_content_object(text))
            + utf8("\r\n"@),
        None => Seq::<u8>::empty(),
    };
    payload_part + utf8("--"@) + utf8(boundary) + utf8("\r\n"@) + utf8(
        "Content-Disposition: form-data; name=\"file\"; filename=\""@,
    ) + utf8(filename) + utf8("\"\r\n"@) + utf8(
        "Content-Type: application/octet-stream\r\n\r\n"@,
    ) + data + utf8("\r\n"@) + utf8("--"@) + utf8(boundary) + utf8("--\r\n"@)
}

/// Append a string's UTF-8 bytes.
fn push_str_bytes(out: &mut Vec<u8>, s: &str)
    ensures
        final(out)@ == old(out)@ + utf8(s@),
{
    out.extend_from_slice(s.as_bytes());
}

/// Build a multipart/form-data body with the given boundary: an optional
/// `payload_json` text part and a required `file` part.
pub fn build_multipart(
    boundary: &str,
    content: Option<&str>,
    filename: &str,
    file_data: &Vec<u8>,
) -> (r: Vec<u8>)
    ensures
        r@ == spec_multipart(
            boundary@,
            (match content {
                Some(c) => Some(c@),
                None => None,
            }),
            filename@,
            file_data@,
        ),
{
    let mut buf: Vec<u8> = Vec::new();
    if let Some(text) = content {
        let payload = content_object_json(text);
        push_str_bytes(&mut buf, "--");
        push_str_bytes(&mut buf, boundary);
        push_str_bytes(&mut buf, "\r\n");
        push_str_bytes(&mut buf, "Content-Disposition: form-data; name=\"payload_json\"\r\n");
        push_str_bytes(&mut buf, "Content-Type: application/json\r\n\r\n");
        push_str_bytes(&mut buf, payload.as_str());
        push_str_bytes(&mut buf, "\r\n");
    }
    push_str_bytes(&mut buf, "--");
    push_str_bytes(&mut buf, boundary);
    push_str_bytes(&mut buf, "\r\n");
    push_str_bytes(&mut buf, "Content-Disposition: form-data; name=\"file\"; filename=\"");
    push_str_bytes(&mut buf, filename);
    push_str_bytes(&mut buf, "\"\r\n");
    push_str_bytes(&mut buf, "Content-Type: application/octet-stream\r\n\r\n");
    buf.extend_from_slice(file_data.as_slice());
    push_str_bytes(&mut buf, "\r\n");
    push_str_bytes(&mut buf, "--");
    push_str_bytes(&mut buf, boundary);
    push_str_bytes(&mut buf, "--\r\n");
    proof {
        assert(buf@ =~= spec_multipart(
            boundary@,
            (match content {
                Some(c) => Some(c@),
                None => None,
            }),
            filename@,
            file_data@,
        ));
    }
    buf
}

/// Draw a fresh multipart boundary: a fixed prefix and sixteen random hex
/// digits.
pub fn multipart_boundary() -> (r: String)
    ensures
        exists|n: u64| r@ == "BeetBoundary"@ + spec_hex16(n),
{
    let n: u64 = rand::random::<u64>();
    let mut s: String = "BeetBoundary".to_owned();
    s.append(u64_to_hex16(n).as_str());
    proof {
        assert(s@ == "BeetBoundary"@ + spec_hex16(n));
    }
    s
}

/// The Content-Type header value for a multipart body.
pub fn multipart_content_type(boundary: &str) -> (r: String)
    ensures
        r@ == "multipart/form-data; boundary="@ + boundary@,
{
    concat2("multipart/form-data; boundary=", boundary)
}

// ---------------------------------------------------------------------------
// Pagination helpers
// ---------------------------------------------------------------------------

/// How many pages `count_messages` will fetch at most.
pub const MAX_COUNT_PAGES: u32 = 100;

/// The state of the backwards message count after one page.
pub struct CountStep {
    /// Messages counted so far.
    pub count: usize,
    /// The pagination cursor: the ID of the last message of this page.
    pub before: Option<String>,
    /// Whether a short page ended the walk.
    pub done: bool,
}

/// Fold one fetched page into the running count.  The cursor moves to the
/// last message of the page, so no message is counted twice; a page shorter
/// than the full 100 ends the walk.
pub fn count_messages_step(count: usize, page: &Vec<Message>) -> (r: CountStep)
    ensures
        page@.len() <= usize::MAX - count ==> r.count == count + page@.len(),
        page@.len() > usize::MAX - count ==> r.count == usize::MAX,
        r.done <==> page@.len() < 100,
        page@.len() > 0 ==> (r.before matches Some(b) && b@ == spec_dec(
            page@.last().id.spec_get() as nat,
        )),
        page@.len() == 0 ==> r.before is None && r.count == count,
{
    let n = page.len();
    let count2 = if n <= usize::MAX - count {
        count + n
    } else {
        usize::MAX
    };
    let before = if n > 0 {
        Some(page[n - 1].id.to_dec_string())
    } else {
        None
    };
    CountStep { count: count2, before, done: n < 100 }
}

/// The query string for one page of the backwards walk.
pub fn count_messages_query(before: &Option<String>) -> (r: String)
    ensures
        before matches Some(b) ==> r@ == "limit=100&before="@ + b@,
        before is None ==> r@ == "limit=100"@,
{
    match before {
        Some(b) => concat2("limit=100&before=", b.as_str()),
        None => "limit=100".to_owned(),
    }
}

/// The very first message of a channel, from the page fetched with
/// `after=0&limit=1`: the single message, or a 404-shaped error when the
/// channel has none.
pub fn get_first_message(messages: Vec<Message>, channel_id: &str) -> (r: Result<
    Message,
    HttpError,
>)
    ensures
        r is Ok <==> messages@.len() > 0,
        r matches Ok(m) ==> m == messages@[0],
        r matches Err(e) ==> (e matches HttpError::Api { status, body, route } && status == 404
            && body@ == "No messages found in this channel."@ && route@ == "GET /channels/"@
            + channel_id@ + "/messages"@),
{
    let mut messages = messages;
    if messages.len() > 0 {
        Ok(messages.remove(0))
    } else {
        Err(
            HttpError::Api {
                status: 404,
                body: "No messages found in this channel.".to_owned(),
                route: concat3("GET /channels/", channel_id, "/messages"),
            },
        )
    }
}

} // verus!
