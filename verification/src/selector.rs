//! The engine selector / failover policy: the primary engine is attempted
//! up to `max_retries + 1` times with exponential backoff and a per-attempt
//! deadline; on exhaustion (or immediately after a non-retryable error) a
//! configured fallback gets exactly one attempt; errors are aggregated.
//!
//! The policy itself is the `Selector` step machine, whose transitions are
//! pinned by `spec_primary_step` and `spec_fallback_step`; the proofs at the
//! end of this file state the policy's guarantees over whole attempt
//! sequences. `run_transcription` drives the machine against real engines.

use vstd::prelude::*;

use crate::asr::{
    ASREngine, ASRError, ASRErrorV, RetryConfig, TranscriptionResult, TranscriptionResultV,
    spec_describe, spec_retryable,
};
use crate::audio::AudioData;

verus! {

/// Where the selector stands in its attempt schedule.
#[derive(Debug, Clone, Copy, PartialEq, Eq, Structural)]
pub enum SelectorPhase {
    /// The primary engine still has attempts left.
    Primary,
    /// The primary is exhausted; one fallback attempt is owed.
    Fallback,
    /// An outcome has been reached.
    Done,
}

/// Mathematical model of the selector.
pub struct SelectorV {
    pub max_retries: u32,
    pub base_delay_ms: u64,
    pub timeout_ms: u64,
    pub has_fallback: bool,
    pub phase: SelectorPhase,
    pub primary_attempts: u64,
    pub fallback_attempts: u64,
    pub primary_error: Option<Seq<char>>,
    pub outcome: Option<Result<TranscriptionResultV, ASRErrorV>>,
}

/// The model of one attempt's result.
pub open spec fn attempt_view(r: Result<String, ASRError>) -> Result<Seq<char>, ASRErrorV> {
    match r {
        Ok(text) => Ok(text@),
        Err(e) => Err(e@),
    }
}

/// The model of a pending or reached outcome.
pub open spec fn outcome_view(o: Option<Result<TranscriptionResult, ASRError>>) -> Option<
    Result<TranscriptionResultV, ASRErrorV>,
> {
    match o {
        None => None,
        Some(Ok(t)) => Some(Ok(t@)),
        Some(Err(e)) => Some(Err(e@)),
    }
}

/// The failover step machine. Feed it the result of each attempt it asks
/// for; it decides retry, fallback or completion.
#[derive(Debug)]
pub struct Selector {
    /// Retries allowed after the first primary attempt.
    pub max_retries: u32,
    /// Base backoff delay in milliseconds.
    pub base_delay_ms: u64,
    /// Per-attempt deadline in milliseconds.
    pub timeout_ms: u64,
    /// Whether a fallback engine is configured.
    pub has_fallback: bool,
    /// The current phase.
    pub phase: SelectorPhase,
    /// Primary attempts completed so far.
    pub primary_attempts: u64,
    /// Fallback attempts completed so far (zero or one).
    pub fallback_attempts: u64,
    /// Description of the error that exhausted the primary, once it is.
    pub primary_error: Option<String>,
    /// The final outcome, once reached.
    pub outcome: Option<Result<TranscriptionResult, ASRError>>,
}

impl View for Selector {
    type V = SelectorV;

    open spec fn view(&self) -> SelectorV {
        SelectorV {
            max_retries: self.max_retries,
            base_delay_ms: self.base_delay_ms,
            timeout_ms: self.timeout_ms,
            has_fallback: self.has_fallback,
            phase: self.phase,
            primary_attempts: self.primary_attempts,
            fallback_attempts: self.fallback_attempts,
            primary_error: self.primary_error.deep_view(),
            outcome: outcome_view(self.outcome),
        }
    }
}

/// The selector invariant. In particular: an outcome with `used_fallback`
/// set implies the primary failed with a recorded error, and a failure
/// outcome is always an aggregated `AllEnginesFailed`.
pub open spec fn selector_wf(s: SelectorV) -> bool {
    &&& (s.phase is Done <==> s.outcome is Some)
    &&& (s.phase is Primary ==> {
        &&& s.primary_attempts <= s.max_retries
        &&& s.fallback_attempts == 0
        &&& s.primary_error is None
    })
    &&& (s.phase is Fallback ==> {
        &&& s.has_fallback
        &&& s.primary_error is Some
        &&& s.fallback_attempts == 0
        &&& 1 <= s.primary_attempts <= s.max_retries + 1
    })
    &&& s.primary_attempts <= s.max_retries + 1
    &&& s.fallback_attempts <= 1
    &&& (match s.outcome {
        Some(Ok(t)) => {
            &&& (t.used_fallback ==> s.has_fallback && s.primary_error is Some
                && s.fallback_attempts == 1)
            &&& (!t.used_fallback ==> s.fallback_attempts == 0)
        },
        Some(Err(e)) => e is AllEnginesFailed && (e->AllEnginesFailed_fallback_error is Some
            ==> s.has_fallback),
        None => true,
    })
}

/// The selector's initial state for a given policy.
pub open spec fn spec_new_selector(cfg: RetryConfig, has_fallback: bool) -> SelectorV {
    SelectorV {
        max_retries: cfg.max_retries,
        base_delay_ms: cfg.base_delay_ms,
        timeout_ms: cfg.timeout_ms,
        has_fallback: has_fallback,
        phase: SelectorPhase::Primary,
        primary_attempts: 0,
        fallback_attempts: 0,
        primary_error: None,
        outcome: None,
    }
}

/// How one primary attempt's result advances the selector: success
/// completes with `used_fallback` unset; a retryable error with attempts
/// left schedules a retry; any other error exhausts the primary, moving to
/// the fallback when one is configured and failing outright otherwise.
pub open spec fn spec_primary_step(
    s: SelectorV,
    r: Result<Seq<char>, ASRErrorV>,
    engine: Seq<char>,
    elapsed_ms: u64,
) -> SelectorV {
    match r {
        Ok(text) => SelectorV {
            phase: SelectorPhase::Done,
            primary_attempts: (s.primary_attempts + 1) as u64,
            outcome: Some(
                Ok(
                    TranscriptionResultV {
                        text: text,
                        engine: engine,
                        used_fallback: false,
                        duration_ms: elapsed_ms,
                    },
                ),
            ),
            ..s
        },
        Err(e) => {
            if spec_retryable(e) && s.primary_attempts < s.max_retries {
                SelectorV {
                    primary_attempts: (s.primary_attempts + 1) as u64,
                    ..s
                }
            } else if s.has_fallback {
                SelectorV {
                    phase: SelectorPhase::Fallback,
                    primary_attempts: (s.primary_attempts + 1) as u64,
                    primary_error: Some(spec_describe(e)),
                    ..s
                }
            } else {
                SelectorV {
                    phase: SelectorPhase::Done,
                    primary_attempts: (s.primary_attempts + 1) as u64,
                    primary_error: Some(spec_describe(e)),
                    outcome: Some(
                        Err(
                            ASRErrorV::AllEnginesFailed {
                                primary_error: spec_describe(e),
                                fallback_error: None,
                            },
                        ),
                    ),
                    ..s
                }
            }
        },
    }
}

/// How the single fallback attempt's result completes the selector:
/// success carries `used_fallback`; failure aggregates both errors.
pub open spec fn spec_fallback_step(
    s: SelectorV,
    r: Result<Seq<char>, ASRErrorV>,
    engine: Seq<char>,
    elapsed_ms: u64,
) -> SelectorV {
    match r {
        Ok(text) => SelectorV {
            phase: SelectorPhase::Done,
            fallback_attempts: 1,
            outcome: Some(
                Ok(
                    TranscriptionResultV {
                        text: text,
                        engine: engine,
                        used_fallback: true,
                        duration_ms: elapsed_ms,
                    },
                ),
            ),
            ..s
        },
        Err(e) => SelectorV {
            phase: SelectorPhase::Done,
            fallback_attempts: 1,
            outcome: Some(
                Err(
                    ASRErrorV::AllEnginesFailed {
                        primary_error: s.primary_error->0,
                        fallback_error: Some(spec_describe(e)),
                    },
                ),
            ),
            ..s
        },
    }
}

/// Saturating `base * 2^i`: the backoff before primary retry `i + 1`.
pub open spec fn spec_backoff_ms(base: u64, i: nat) -> u64
    decreases i,
{
    if i == 0 {
        base
    } else {
        let p = spec_backoff_ms(base, (i - 1) as nat);
        if p > u64::MAX / 2 {
            u64::MAX
        } else {
            (p * 2) as u64
        }
    }
}

impl Selector {
    /// A fresh selector for the given policy.
    pub fn new(cfg: &RetryConfig, has_fallback: bool) -> (r: Self)
        ensures
            r@ == spec_new_selector(*cfg, has_fallback),
            selector_wf(r@),
    {
        Self {
            max_retries: cfg.max_retries,
            base_delay_ms: cfg.base_delay_ms,
            timeout_ms: cfg.timeout_ms,
            has_fallback,
            phase: SelectorPhase::Primary,
            primary_attempts: 0,
            fallback_attempts: 0,
            primary_error: None,
            outcome: None,
        }
    }

    /// The backoff to wait before the next primary attempt: none before the
    /// first, `base_delay_ms * 2^i` (saturating) after failed attempt `i`.
    pub fn next_delay_ms(&self) -> (r: u64)
        ensures
            self@.primary_attempts == 0 ==> r == 0,
            self@.primary_attempts > 0 ==> r == spec_backoff_ms(
                self@.base_delay_ms,
                (self@.primary_attempts - 1) as nat,
            ),
    {
        if self.primary_attempts == 0 {
            return 0;
        }
        let mut d: u64 = self.base_delay_ms;
        let mut i: u64 = 0;
        let last: u64 = self.primary_attempts - 1;
        while i < last
            invariant
                i <= last,
                d == spec_backoff_ms(self@.base_delay_ms, i as nat),
            decreases last - i,
        {
            if d > u64::MAX / 2 {
                d = u64::MAX;
            } else {
                d = d * 2;
            }
            i = i + 1;
        }
        d
    }

    /// Advances the machine with the result of one primary attempt.
    pub fn on_primary_result(&mut self, r: Result<String, ASRError>, engine: String, elapsed_ms: u64)
        requires
            selector_wf(old(self)@),
            old(self)@.phase is Primary,
        ensures
            selector_wf(final(self)@),
            final(self)@ == spec_primary_step(old(self)@, attempt_view(r), engine@, elapsed_ms),
    {
        match r {
            Ok(text) => {
                self.phase = SelectorPhase::Done;
                self.primary_attempts = self.primary_attempts + 1;
                self.outcome = Some(Ok(TranscriptionResult::new(text, engine, false, elapsed_ms)));
            },
            Err(e) => {
                if e.is_retryable() && self.primary_attempts < self.max_retries as u64 {
                    self.primary_attempts = self.primary_attempts + 1;
                } else if self.has_fallback {
                    self.phase = SelectorPhase::Fallback;
                    self.primary_attempts = self.primary_attempts + 1;
                    self.primary_error = Some(e.describe());
                } else {
                    let desc = e.describe();
                    self.phase = SelectorPhase::Done;
                    self.primary_attempts = self.primary_attempts + 1;
                    self.primary_error = Some(desc.clone());
                    self.outcome = Some(
                        Err(
                            ASRError::AllEnginesFailed {
                                primary_error: desc,
                                fallback_error: None,
                            },
                        ),
                    );
                }
            },
        }
    }

    /// Completes the machine with the result of the fallback attempt.
    pub fn on_fallback_result(
        &mut self,
        r: Result<String, ASRError>,
        engine: String,
        elapsed_ms: u64,
    )
        requires
            selector_wf(old(self)@),
            old(self)@.phase is Fallback,
        ensures
            selector_wf(final(self)@),
            final(self)@ == spec_fallback_step(old(self)@, attempt_view(r), engine@, elapsed_ms),
    {
        match r {
            Ok(text) => {
                self.phase = SelectorPhase::Done;
                self.fallback_attempts = 1;
                self.outcome = Some(Ok(TranscriptionResult::new(text, engine, true, elapsed_ms)));
            },
            Err(e) => {
                let primary_desc = match &self.primary_error {
                    Some(d) => d.clone(),
                    None => String::new(),
                };
                self.phase = SelectorPhase::Done;
                self.fallback_attempts = 1;
                self.outcome = Some(
                    Err(
                        ASRError::AllEnginesFailed {
                            primary_error: primary_desc,
                            fallback_error: Some(e.describe()),
                        },
                    ),
                );
            },
        }
    }
}

/// A source of time and delays, implemented by the embedding runtime: the
/// application sleeps and reads a monotonic clock; tests record the calls.
pub trait Clock {
    /// Milliseconds of a monotonic clock.
    fn now_ms(&mut self) -> u64;

    /// Waits for the given number of milliseconds.
    fn wait_ms(&mut self, ms: u64);
}

/// Drives the selector to completion against real engines: attempts the
/// primary with backoff and the policy's deadline, then the fallback once
/// if the primary is exhausted. Engine results are arbitrary, so the
/// contract states what holds of every outcome; the step lemmas below pin
/// the policy itself.
pub fn run_transcription<P: ASREngine, F: ASREngine, C: Clock>(
    primary: &mut P,
    fallback: Option<&mut F>,
    audio: &AudioData,
    cfg: &RetryConfig,
    clock: &mut C,
) -> (r: Result<TranscriptionResult, ASRError>)
    ensures
        r matches Err(e) ==> e@ is AllEnginesFailed,
        r matches Ok(t) && t.used_fallback ==> fallback is Some,
        fallback is None ==> (r matches Err(e) ==> e@->AllEnginesFailed_fallback_error is None),
{
    let has_fb = fallback.is_some();
    let mut sel = Selector::new(cfg, has_fb);
    while sel.phase == SelectorPhase::Primary
        invariant
            selector_wf(sel@),
            sel@.has_fallback == has_fb,
            sel@.max_retries == cfg.max_retries,
            has_fb == fallback is Some,
        decreases cfg.max_retries as int + 1 - sel.primary_attempts as int,
    {
        let delay = sel.next_delay_ms();
        if delay > 0 {
            clock.wait_ms(delay);
        }
        let t0 = clock.now_ms();
        let r = primary.transcribe(audio, cfg.timeout_ms);
        let t1 = clock.now_ms();
        let elapsed = if t1 >= t0 {
            t1 - t0
        } else {
            0
        };
        let name = primary.name();
        sel.on_primary_result(r, name, elapsed);
    }
    if sel.phase == SelectorPhase::Fallback {
        match fallback {
            Some(fb) => {
                let t0 = clock.now_ms();
                let r = fb.transcribe(audio, cfg.timeout_ms);
                let t1 = clock.now_ms();
                let elapsed = if t1 >= t0 {
                    t1 - t0
                } else {
                    0
                };
                let name = fb.name();
                sel.on_fallback_result(r, name, elapsed);
            },
            None => {
                proof {
                    assert(false);
                }
            },
        }
    }
    match sel.outcome {
        Some(outcome) => outcome,
        None => {
            proof {
                assert(false);
            }
            Err(ASRError::NotInitialized)
        },
    }
}

/// Iterates `spec_primary_step` over a sequence of primary attempt results.
pub open spec fn spec_feed_primary(
    s: SelectorV,
    rs: Seq<Result<Seq<char>, ASRErrorV>>,
    engine: Seq<char>,
    elapsed_ms: u64,
) -> SelectorV
    decreases rs.len(),
{
    if rs.len() == 0 {
        s
    } else {
        spec_feed_primary(
            spec_primary_step(s, rs[0], engine, elapsed_ms),
            rs.drop_first(),
            engine,
            elapsed_ms,
        )
    }
}

/// A run of retryable failures that stays within the retry budget keeps the
/// selector on the primary, only counting the attempts.
pub proof fn lemma_feed_retryable_failures(
    s: SelectorV,
    rs: Seq<Result<Seq<char>, ASRErrorV>>,
    engine: Seq<char>,
    elapsed_ms: u64,
)
    requires
        selector_wf(s),
        s.phase is Primary,
        forall|i: int| 0 <= i < rs.len() ==> rs[i] is Err && spec_retryable(rs[i]->Err_0),
        s.primary_attempts + rs.len() <= s.max_retries,
    ensures
        spec_feed_primary(s, rs, engine, elapsed_ms) == (SelectorV {
            primary_attempts: (s.primary_attempts + rs.len()) as u64,
            ..s
        }),
        selector_wf(spec_feed_primary(s, rs, engine, elapsed_ms)),
    decreases rs.len(),
{
    if rs.len() == 0 {
        assert(spec_feed_primary(s, rs, engine, elapsed_ms) == (SelectorV {
            primary_attempts: (s.primary_attempts + rs.len()) as u64,
            ..s
        }));
    } else {
        let s1 = spec_primary_step(s, rs[0], engine, elapsed_ms);
        assert(rs[0] is Err && spec_retryable(rs[0]->Err_0));
        assert(s1 == (SelectorV { primary_attempts: (s.primary_attempts + 1) as u64, ..s }));
        lemma_feed_retryable_failures(s1, rs.drop_first(), engine, elapsed_ms);
    }
}

/// Against a primary that fails deterministically `n` times and then
/// succeeds, with `n` within the retry budget, the selector succeeds with
/// `used_fallback` unset after exactly `n + 1` primary invocations and no
/// fallback invocation.
pub proof fn lemma_retries_then_success(
    cfg: RetryConfig,
    has_fallback: bool,
    rs: Seq<Result<Seq<char>, ASRErrorV>>,
    engine: Seq<char>,
    elapsed_ms: u64,
)
    requires
        rs.len() >= 1,
        forall|i: int| 0 <= i < rs.len() - 1 ==> rs[i] is Err && spec_retryable(rs[i]->Err_0),
        rs.last() is Ok,
        rs.len() - 1 <= cfg.max_retries,
    ensures
        ({
            let f = spec_feed_primary(spec_new_selector(cfg, has_fallback), rs, engine, elapsed_ms);
            &&& f.phase is Done
            &&& f.primary_attempts == rs.len()
            &&& f.fallback_attempts == 0
            &&& f.outcome == Some(
                Ok::<TranscriptionResultV, ASRErrorV>(
                    TranscriptionResultV {
                        text: rs.last()->Ok_0,
                        engine: engine,
                        used_fallback: false,
                        duration_ms: elapsed_ms,
                    },
                ),
            )
        }),
{
    let s0 = spec_new_selector(cfg, has_fallback);
    let failures = rs.drop_last();
    lemma_feed_retryable_failures(s0, failures, engine, elapsed_ms);
    let s1 = spec_feed_primary(s0, failures, engine, elapsed_ms);
    lemma_feed_primary_snoc(s0, failures, rs.last(), engine, elapsed_ms);
    assert(failures.push(rs.last()) =~= rs);
}

/// Appending one more result to a fed sequence is one more step.
pub proof fn lemma_feed_primary_snoc(
    s: SelectorV,
    rs: Seq<Result<Seq<char>, ASRErrorV>>,
    r: Result<Seq<char>, ASRErrorV>,
    engine: Seq<char>,
    elapsed_ms: u64,
)
    ensures
        spec_feed_primary(s, rs.push(r), engine, elapsed_ms) == spec_primary_step(
            spec_feed_primary(s, rs, engine, elapsed_ms),
            r,
            engine,
            elapsed_ms,
        ),
    decreases rs.len(),
{
    if rs.len() == 0 {
        assert(rs.push(r)[0] == r);
        let s1 = spec_primary_step(s, r, engine, elapsed_ms);
        assert(rs.push(r).drop_first() =~= Seq::<Result<Seq<char>, ASRErrorV>>::empty());
        assert(spec_feed_primary(s1, rs.push(r).drop_first(), engine, elapsed_ms) == s1);
        assert(spec_feed_primary(s, rs, engine, elapsed_ms) == s);
    } else {
        assert(rs.push(r)[0] == rs[0]);
        let s1 = spec_primary_step(s, rs[0], engine, elapsed_ms);
        assert(rs.push(r).drop_first() =~= rs.drop_first().push(r));
        assert(spec_feed_primary(s, rs.push(r), engine, elapsed_ms) == spec_feed_primary(
            s1,
            rs.drop_first().push(r),
            engine,
            elapsed_ms,
        ));
        lemma_feed_primary_snoc(s1, rs.drop_first(), r, engine, elapsed_ms);
        assert(spec_feed_primary(s, rs, engine, elapsed_ms) == spec_feed_primary(
            s1,
            rs.drop_first(),
            engine,
            elapsed_ms,
        ));
    }
}

/// Exhausting the primary — `max_retries + 1` retryable failures — moves
/// the selector to the fallback when one is configured, recording the last
/// primary error; a successful fallback attempt then completes with
/// `used_fallback` set after exactly one fallback invocation.
pub proof fn lemma_exhaustion_then_fallback_success(
    cfg: RetryConfig,
    rs: Seq<Result<Seq<char>, ASRErrorV>>,
    text: Seq<char>,
    primary_engine: Seq<char>,
    fallback_engine: Seq<char>,
    elapsed_ms: u64,
)
    requires
        rs.len() == cfg.max_retries + 1,
        forall|i: int| 0 <= i < rs.len() ==> rs[i] is Err && spec_retryable(rs[i]->Err_0),
    ensures
        ({
            let exhausted = spec_feed_primary(
                spec_new_selector(cfg, true),
                rs,
                primary_engine,
                elapsed_ms,
            );
            &&& exhausted.phase is Fallback
            &&& exhausted.primary_attempts == cfg.max_retries + 1
            &&& exhausted.fallback_attempts == 0
            &&& exhausted.primary_error == Some(spec_describe(rs.last()->Err_0))
            &&& ({
                let f = spec_fallback_step(exhausted, Ok(text), fallback_engine, elapsed_ms);
                &&& f.phase is Done
                &&& f.fallback_attempts == 1
                &&& f.outcome == Some(
                    Ok::<TranscriptionResultV, ASRErrorV>(
                        TranscriptionResultV {
                            text: text,
                            engine: fallback_engine,
                            used_fallback: true,
                            duration_ms: elapsed_ms,
                        },
                    ),
                )
            })
        }),
{
    let s0 = spec_new_selector(cfg, true);
    let failures = rs.drop_last();
    lemma_feed_retryable_failures(s0, failures, primary_engine, elapsed_ms);
    lemma_feed_primary_snoc(s0, failures, rs.last(), primary_engine, elapsed_ms);
    assert(failures.push(rs.last()) =~= rs);
}

/// When the primary is exhausted and the fallback attempt fails too, the
/// outcome is `AllEnginesFailed` carrying both error descriptions.
pub proof fn lemma_both_engines_fail(
    cfg: RetryConfig,
    rs: Seq<Result<Seq<char>, ASRErrorV>>,
    fallback_error: ASRErrorV,
    primary_engine: Seq<char>,
    fallback_engine: Seq<char>,
    elapsed_ms: u64,
)
    requires
        rs.len() == cfg.max_retries + 1,
        forall|i: int| 0 <= i < rs.len() ==> rs[i] is Err && spec_retryable(rs[i]->Err_0),
    ensures
        ({
            let exhausted = spec_feed_primary(
                spec_new_selector(cfg, true),
                rs,
                primary_engine,
                elapsed_ms,
            );
            let f = spec_fallback_step(
                exhausted,
                Err(fallback_error),
                fallback_engine,
                elapsed_ms,
            );
            &&& f.phase is Done
            &&& f.outcome == Some(
                Err::<TranscriptionResultV, ASRErrorV>(
                    ASRErrorV::AllEnginesFailed {
                        primary_error: spec_describe(rs.last()->Err_0),
                        fallback_error: Some(spec_describe(fallback_error)),
                    },
                ),
            )
        }),
{
    let s0 = spec_new_selector(cfg, true);
    let failures = rs.drop_last();
    lemma_feed_retryable_failures(s0, failures, primary_engine, elapsed_ms);
    lemma_feed_primary_snoc(s0, failures, rs.last(), primary_engine, elapsed_ms);
    assert(failures.push(rs.last()) =~= rs);
}

/// A non-retryable primary error — `AuthFailed` or `InvalidAudio` — never
/// triggers a retry: after a single invocation the selector has already
/// moved to the fallback (or failed outright with no fallback configured).
pub proof fn lemma_non_retryable_short_circuits(
    cfg: RetryConfig,
    has_fallback: bool,
    e: ASRErrorV,
    engine: Seq<char>,
    elapsed_ms: u64,
)
    requires
        !spec_retryable(e),
    ensures
        ({
            let f = spec_primary_step(spec_new_selector(cfg, has_fallback), Err(e), engine, elapsed_ms);
            &&& f.primary_attempts == 1
            &&& f.primary_error == Some(spec_describe(e))
            &&& (has_fallback ==> f.phase is Fallback)
            &&& (!has_fallback ==> f.phase is Done && f.outcome == Some(
                Err::<TranscriptionResultV, ASRErrorV>(
                    ASRErrorV::AllEnginesFailed {
                        primary_error: spec_describe(e),
                        fallback_error: None,
                    },
                ),
            ))
        }),
{
}

} // verus!
