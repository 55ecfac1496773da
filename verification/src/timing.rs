//! Humanized timing: bounded-random delays injected at fixed points of the
//! rendered-fetch flow. The bounds are configuration, threaded through the
//! orchestrator's construction; the defaults are a warm-up of [500, 1500)
//! milliseconds before navigation and a settle of [1000, 3000) milliseconds
//! after it. Only the sampling is random; every sample provably falls inside
//! its configured window.

use vstd::prelude::*;

verus! {

/// The delay windows of one rendered fetch, in milliseconds; each window is
/// half-open, `[lo, hi)`, and must be non-empty.
#[derive(Clone, Copy, PartialEq, Eq, Structural, Debug)]
pub struct DelayConfig {
    pub warm_lo: u64,
    pub warm_hi: u64,
    pub settle_lo: u64,
    pub settle_hi: u64,
}

impl DelayConfig {
    /// Both windows are non-empty.
    pub open spec fn wf(&self) -> bool {
        self.warm_lo < self.warm_hi && self.settle_lo < self.settle_hi
    }

    /// A configuration with the given windows; each must be non-empty.
    pub fn new(warm_lo: u64, warm_hi: u64, settle_lo: u64, settle_hi: u64) -> (c: DelayConfig)
        requires
            warm_lo < warm_hi,
            settle_lo < settle_hi,
        ensures
            c.wf(),
            c == (DelayConfig { warm_lo, warm_hi, settle_lo, settle_hi }),
    {
        DelayConfig { warm_lo, warm_hi, settle_lo, settle_hi }
    }
}

impl Default for DelayConfig {
    /// The default windows: warm-up [500, 1500) ms, settle [1000, 3000) ms.
    fn default() -> (c: DelayConfig)
        ensures
            c.wf(),
            c == (DelayConfig { warm_lo: 500u64, warm_hi: 1500u64, settle_lo: 1000u64, settle_hi: 3000u64 }),
    {
        DelayConfig { warm_lo: 500, warm_hi: 1500, settle_lo: 1000, settle_hi: 3000 }
    }
}

#[verifier::external_type_specification]
#[verifier::external_body]
pub struct ExThreadRng(rand::rngs::ThreadRng);

/// Relies on rand::thread_rng: a handle to the thread-local generator.
/// Nothing is promised of it; what matters is stated where it is sampled.
pub assume_specification[ rand::thread_rng ]() -> rand::rngs::ThreadRng;

/// Relies on rand::Rng::gen_range over the half-open integer range
/// `lo..hi`: the sample lies in [lo, hi), and the call panics on an empty
/// range, which the precondition rules out. Nothing more is promised of a
/// random value.
#[verifier::external_body]
fn gen_range_u64(rng: &mut rand::rngs::ThreadRng, lo: u64, hi: u64) -> (r: u64)
    requires
        lo < hi,
    ensures
        lo <= r < hi,
{
    rand::Rng::gen_range(rng, lo..hi)
}

/// Samples one humanization delay from the non-empty window `[lo, hi)`.
/// Whatever the generator returns, the sample is inside the window.
pub fn sample_delay_ms(lo: u64, hi: u64) -> (r: u64)
    requires
        lo < hi,
    ensures
        lo <= r < hi,
{
    let mut rng = rand::thread_rng();
    gen_range_u64(&mut rng, lo, hi)
}

/// The warm-up delay of a fetch: a sample from the configured warm window.
pub fn sample_warm_up(cfg: &DelayConfig) -> (r: u64)
    requires
        cfg.wf(),
    ensures
        cfg.warm_lo <= r < cfg.warm_hi,
{
    sample_delay_ms(cfg.warm_lo, cfg.warm_hi)
}

/// The settle delay of a fetch: a sample from the configured settle window.
pub fn sample_settle(cfg: &DelayConfig) -> (r: u64)
    requires
        cfg.wf(),
    ensures
        cfg.settle_lo <= r < cfg.settle_hi,
{
    sample_delay_ms(cfg.settle_lo, cfg.settle_hi)
}

} // verus!
