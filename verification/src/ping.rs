//! The latency prober.
//!
//! A probe is a fixed number of reachability requests, one after another,
//! through the local end of a proxy. A request succeeds if the endpoint
//! answers "no content" with an empty body. The first request that fails
//! ends the probe: the server counts as unreachable and no further request
//! is made. If all succeed, the latency is the mean of the round-trip times.
//!
//! The requests themselves are made by the caller. [`Prober`] says whether
//! another one is due and keeps the sum, for callers that cannot block;
//! [`google`] runs a whole probe over a function that makes one request.

use vstd::prelude::*;
use vstd::string::StringExecFns;
use crate::text::{decimal, decimal_string};
use crate::vlink::UNREACHABLE;

verus! {

/// The status with which the reachability endpoint answers.
pub const NO_CONTENT: u16 = 204;

/// Seconds after which a single request counts as failed.
pub const REQUEST_TIMEOUT_SECS: u64 = 2;

/// The number of samples taken where none is configured.
pub const DEFAULT_SAMPLES: i32 = 5;

/// The address that answers reachability requests with [`NO_CONTENT`].
pub const REACHABILITY_URL: &'static str = "https://www.google.com/generate_204";

/// The address of the local end of a proxy that listens on `port`.
pub open spec fn endpoint(port: u16) -> Seq<char> {
    "http://127.0.0.1:"@ + decimal(port as nat)
}

/// The address of the local end of a proxy that listens on `port`.
pub fn local_endpoint(port: u16) -> (r: String)
    ensures
        r@ == endpoint(port),
{
    let mut r = String::from_str("http://127.0.0.1:");
    let digits = decimal_string(port as u64);
    r.append(digits.as_str());
    r
}

/// What the prober asks of its driver.
#[derive(Debug, Clone, Copy, PartialEq, Eq, Structural)]
pub enum ProbeStep {
    /// Make one more request and record its outcome.
    Sample,
    /// The probe is over with this latency, or with [`UNREACHABLE`].
    Finished(i32),
}

/// The sum of the samples.
pub open spec fn sum(samples: Seq<i32>) -> int
    decreases samples.len(),
{
    if samples.len() == 0 {
        0
    } else {
        sum(samples.drop_last()) + samples.last()
    }
}

/// Whether one of the samples is a failure.
pub open spec fn any_failed(samples: Seq<i32>) -> bool {
    exists|i: int| 0 <= i < samples.len() && #[trigger] samples[i] < 0
}

/// What contracts see of [`Prober`]: how many samples the probe is to take
/// and the outcomes recorded so far, a negative one standing for a failed
/// request.
pub struct ProberView {
    pub times: i32,
    pub samples: Seq<i32>,
}

impl ProberView {
    /// What is due: nothing more once a sample has failed or all have been
    /// taken, and nothing at all where no sample is asked for.
    pub open spec fn due(self) -> ProbeStep {
        if self.times <= 0 || any_failed(self.samples) {
            ProbeStep::Finished(UNREACHABLE)
        } else if self.samples.len() < self.times {
            ProbeStep::Sample
        } else {
            ProbeStep::Finished((sum(self.samples) / (self.times as int)) as i32)
        }
    }

    /// The probe after one more outcome: it is recorded if a sample was due
    /// and ignored otherwise.
    pub open spec fn recorded(self, sample: i32) -> ProberView {
        if self.due() == ProbeStep::Sample {
            ProberView { samples: self.samples.push(sample), ..self }
        } else {
            self
        }
    }
}

/// The outcome of one request. It is the elapsed time where the endpoint
/// answered with [`NO_CONTENT`], the answer has a body of length zero, and
/// the time fits the latency's type. Any other status, a body that is not
/// empty and a body of unknown length make it a failure.
pub open spec fn sample_of(status: u16, content_length: Option<u64>, elapsed_millis: u128) -> i32 {
    if status == NO_CONTENT && content_length == Some(0u64) && elapsed_millis <= i32::MAX {
        elapsed_millis as i32
    } else {
        UNREACHABLE
    }
}

/// Turns the answer to one request into a sample: `status` is the answer's
/// status, `content_length` the length of its body as the client reports it,
/// and `elapsed_millis` the time the request took.
pub fn sample_from_response(status: u16, content_length: Option<u64>, elapsed_millis: u128) -> (r:
    i32)
    ensures
        r == sample_of(status, content_length, elapsed_millis),
        r >= 0 <==> status == NO_CONTENT && content_length == Some(0u64) && elapsed_millis
            <= i32::MAX,
        r >= 0 || r == UNREACHABLE,
{
    let empty = match content_length {
        Some(length) => length == 0,
        None => false,
    };
    if status == NO_CONTENT && empty && elapsed_millis <= 2147483647 {
        elapsed_millis as i32
    } else {
        UNREACHABLE
    }
}

/// The sum of samples without a failure is between zero and the largest
/// sample times their number.
pub proof fn lemma_sum_bounds(samples: Seq<i32>)
    requires
        !any_failed(samples),
    ensures
        0 <= sum(samples) <= samples.len() * i32::MAX,
    decreases samples.len(),
{
    if samples.len() > 0 {
        let rest = samples.drop_last();
        assert forall|i: int| 0 <= i < rest.len() implies !(#[trigger] rest[i] < 0) by {
            assert(rest[i] == samples[i]);
        }
        lemma_sum_bounds(rest);
        assert(!(samples[samples.len() - 1] < 0));
        assert(samples.len() * i32::MAX == rest.len() * i32::MAX + i32::MAX) by (nonlinear_arith)
            requires
                samples.len() == rest.len() + 1,
        ;
    }
}

/// The mean of a full set of good samples lies between the least possible and
/// the largest possible sample.
pub proof fn lemma_mean_in_range(total: int, times: int)
    requires
        times > 0,
        0 <= total <= times * i32::MAX,
    ensures
        0 <= total / times <= i32::MAX,
{
    assert(0 <= total / times <= i32::MAX) by (nonlinear_arith)
        requires
            times > 0,
            0 <= total <= times * i32::MAX,
    ;
}

/// One probe in progress.
pub struct Prober {
    times: i32,
    taken: i32,
    total: i64,
    failed: bool,
    samples: Ghost<Seq<i32>>,
}

impl View for Prober {
    type V = ProberView;

    closed spec fn view(&self) -> ProberView {
        ProberView { times: self.times, samples: self.samples@ }
    }
}

impl Prober {
    /// Whether the running sum and the flags agree with the recorded samples.
    pub closed spec fn wf(&self) -> bool {
        &&& self.taken == self.samples@.len()
        &&& self.taken <= self.times || self.taken == 0
        &&& self.failed == any_failed(self.samples@)
        &&& !self.failed ==> self.total == sum(self.samples@)
    }

    /// A probe of `times` samples with none taken yet.
    pub fn new(times: i32) -> (p: Prober)
        ensures
            p.wf(),
            p@ == (ProberView { times, samples: Seq::empty() }),
    {
        Prober { times, taken: 0, total: 0, failed: false, samples: Ghost(Seq::empty()) }
    }

    /// Says whether another request is due, or how the probe ended.
    pub fn next(&self) -> (step: ProbeStep)
        requires
            self.wf(),
        ensures
            step == self@.due(),
            step matches ProbeStep::Finished(latency) ==> latency >= 0 || latency == UNREACHABLE,
    {
        if self.times <= 0 || self.failed {
            ProbeStep::Finished(UNREACHABLE)
        } else if self.taken < self.times {
            ProbeStep::Sample
        } else {
            proof {
                lemma_sum_bounds(self.samples@);
                lemma_mean_in_range(self.total as int, self.times as int);
            }
            let mean: i64 = self.total / (self.times as i64);
            ProbeStep::Finished(mean as i32)
        }
    }

    /// Records the outcome of one request; a negative `sample` is a failed
    /// request. Outcomes that arrive when no request was due are ignored.
    pub fn record(&mut self, sample: i32)
        requires
            old(self).wf(),
        ensures
            final(self).wf(),
            final(self)@ == old(self)@.recorded(sample),
    {
        if self.times <= 0 || self.failed || self.taken >= self.times {
            return ;
        }
        proof {
            lemma_sum_bounds(self.samples@);
            let after = self.samples@.push(sample);
            assert(after.drop_last() =~= self.samples@);
            if sample < 0 {
                assert(after[after.len() - 1] < 0);
            } else {
                assert forall|i: int| 0 <= i < after.len() implies !(#[trigger] after[i] < 0) by {
                    if i < self.samples@.len() {
                        assert(after[i] == self.samples@[i]);
                    }
                }
            }
            assert(self.samples@.len() * i32::MAX <= i32::MAX * i32::MAX) by (nonlinear_arith)
                requires
                    self.samples@.len() <= i32::MAX,
            ;
        }
        self.samples = Ghost(self.samples@.push(sample));
        self.taken = self.taken + 1;
        if sample < 0 {
            self.failed = true;
        } else {
            self.total = self.total + sample as i64;
        }
    }

    /// The number of samples recorded so far.
    pub fn taken(&self) -> (n: i32)
        requires
            self.wf(),
        ensures
            n == self@.samples.len(),
    {
        self.taken
    }
}

/// The whole probe over outcomes that are already known: the samples are
/// recorded in order until the probe is over, and what is left is not looked at.
pub fn aggregate(samples: &Vec<i32>, times: i32) -> (latency: i32)
    ensures
        latency == outcome(samples@, times),
        latency >= 0 || latency == UNREACHABLE,
{
    let mut prober = Prober::new(times);
    let mut i: usize = 0;
    while i < samples.len()
        invariant
            i <= samples.len(),
            prober.wf(),
            prober@ == replay(samples@.take(i as int), times),
        decreases samples.len() - i,
    {
        proof {
            assert(samples@.take(i + 1).drop_last() =~= samples@.take(i as int));
        }
        prober.record(samples[i]);
        i = i + 1;
    }
    assert(samples@.take(i as int) =~= samples@);
    match prober.next() {
        ProbeStep::Finished(latency) => latency,
        ProbeStep::Sample => UNREACHABLE,
    }
}

/// Probes on the calling thread: asks `ping` for one sample after another,
/// a negative one standing for a failed request, until `times` samples are
/// taken or one has failed, and returns the mean of the samples or
/// [`UNREACHABLE`].
///
/// `ping` is asked at most `times` times and never again after a failure,
/// and the probe is not over before it has all its samples or a failure:
/// every sample that `ping` gave was recorded, and with them the probe is
/// finished with the latency returned.
pub fn google<F>(times: i32, ping: F) -> (latency: i32) where F: Fn() -> i32
    requires
        call_requires(ping, ()),
    ensures
        latency >= 0 || latency == UNREACHABLE,
        exists|samples: Seq<i32>|
            {
                &&& forall|i: int|
                    0 <= i < samples.len() ==> call_ensures(ping, (), #[trigger] samples[i])
                &&& forall|i: int| 0 <= i < samples.len() - 1 ==> #[trigger] samples[i] >= 0
                &&& samples.len() <= times || samples.len() == 0
                &&& replay(samples, times).samples == samples
                &&& replay(samples, times).due() == ProbeStep::Finished(latency)
                &&& latency == outcome(samples, times)
            },
{
    let mut prober = Prober::new(times);
    let ghost mut samples: Seq<i32> = Seq::empty();
    loop
        invariant
            prober.wf(),
            prober@ == replay(samples, times),
            prober@.samples == samples,
            prober@.times == times,
            forall|i: int| 0 <= i < samples.len() ==> call_ensures(ping, (), #[trigger] samples[i]),
            forall|i: int| 0 <= i < samples.len() - 1 ==> #[trigger] samples[i] >= 0,
            samples.len() <= times || samples.len() == 0,
            call_requires(ping, ()),
        decreases times - samples.len(),
    {
        match prober.next() {
            ProbeStep::Finished(latency) => {
                return latency;
            },
            ProbeStep::Sample => {
                let sample = ping();
                proof {
                    assert forall|i: int| 0 <= i < samples.len() implies #[trigger] samples[i]
                        >= 0 by {
                        if samples[i] < 0 {
                            assert(any_failed(samples));
                        }
                    }
                    assert(samples.push(sample).drop_last() =~= samples);
                    samples = samples.push(sample);
                }
                prober.record(sample);
            },
        }
    }
}

/// The probe of `times` samples after the outcomes `samples` were reported in order.
pub open spec fn replay(samples: Seq<i32>, times: i32) -> ProberView
    decreases samples.len(),
{
    if samples.len() == 0 {
        ProberView { times, samples: Seq::empty() }
    } else {
        replay(samples.drop_last(), times).recorded(samples.last())
    }
}

/// The latency that a probe of `times` samples yields on the outcomes
/// `samples`; a probe that was cut short yields [`UNREACHABLE`].
pub open spec fn outcome(samples: Seq<i32>, times: i32) -> i32 {
    match replay(samples, times).due() {
        ProbeStep::Finished(latency) => latency,
        ProbeStep::Sample => UNREACHABLE,
    }
}

/// The samples that a probe has recorded are a prefix of those reported.
pub proof fn lemma_replay_is_prefix(samples: Seq<i32>, times: i32)
    ensures
        replay(samples, times).times == times,
        replay(samples, times).samples.is_prefix_of(samples),
    decreases samples.len(),
{
    if samples.len() > 0 {
        lemma_replay_is_prefix(samples.drop_last(), times);
        let before = replay(samples.drop_last(), times);
        assert(before.samples.is_prefix_of(samples));
        if before.due() == ProbeStep::Sample {
            // No sample has failed so far, so every sample so far was recorded.
            lemma_replay_keeps_all(samples.drop_last(), times);
            assert(before.samples.push(samples.last()) =~= samples);
        }
    }
}

/// A probe that still asks for a sample has recorded everything reported to it.
pub proof fn lemma_replay_keeps_all(samples: Seq<i32>, times: i32)
    requires
        replay(samples, times).due() == ProbeStep::Sample,
    ensures
        replay(samples, times).samples == samples,
    decreases samples.len(),
{
    if samples.len() > 0 {
        let before = replay(samples.drop_last(), times);
        if before.due() == ProbeStep::Sample {
            lemma_replay_keeps_all(samples.drop_last(), times);
            assert(before.samples.push(samples.last()) =~= samples);
        } else {
            assert(replay(samples, times) == before);
        }
    }
}

/// One failed request makes the whole probe a failure, whatever was measured
/// before it: a probe never averages over part of its samples.
pub proof fn law_one_failure_fails_the_probe(samples: Seq<i32>, times: i32, k: int)
    requires
        0 <= k < samples.len(),
        k < times,
        samples[k] < 0,
    ensures
        replay(samples, times).due() == ProbeStep::Finished(UNREACHABLE),
        outcome(samples, times) == UNREACHABLE,
    decreases samples.len(),
{
    let last = samples.len() - 1;
    let before = replay(samples.drop_last(), times);
    if k < last {
        assert(samples.drop_last()[k] == samples[k]);
        law_one_failure_fails_the_probe(samples.drop_last(), times, k);
    } else if before.due() == ProbeStep::Sample {
        let after = before.samples.push(samples.last());
        assert(after[after.len() - 1] < 0);
    } else {
        lemma_replay_is_prefix(samples.drop_last(), times);
        assert(before.samples.len() <= k);
    }
}

/// Whatever is reported, a probe yields a latency that is not negative or
/// the mark of an unreachable server, and it never records more samples than
/// it was asked to take.
pub proof fn law_outcome_is_latency_or_unreachable(samples: Seq<i32>, times: i32)
    ensures
        outcome(samples, times) >= 0 || outcome(samples, times) == UNREACHABLE,
        replay(samples, times).samples.len() <= times || replay(samples, times).samples.len() == 0,
    decreases samples.len(),
{
    let p = replay(samples, times);
    lemma_replay_is_prefix(samples, times);
    if samples.len() > 0 {
        law_outcome_is_latency_or_unreachable(samples.drop_last(), times);
    }
    if !(times <= 0 || any_failed(p.samples)) && p.samples.len() >= times {
        lemma_sum_bounds(p.samples);
        lemma_mean_in_range(sum(p.samples), times as int);
    }
}

/// Where all `times` samples succeed, the probe yields their mean.
pub proof fn law_full_probe_yields_the_mean(samples: Seq<i32>, times: i32)
    requires
        times > 0,
        samples.len() == times,
        !any_failed(samples),
    ensures
        outcome(samples, times) == sum(samples) / (times as int),
        0 <= outcome(samples, times),
{
    lemma_all_good_are_recorded(samples, times);
    lemma_replay_is_prefix(samples, times);
    lemma_sum_bounds(samples);
    lemma_mean_in_range(sum(samples), times as int);
}

/// Good samples, no more than the probe asks for, are all recorded.
pub proof fn lemma_all_good_are_recorded(samples: Seq<i32>, times: i32)
    requires
        samples.len() <= times,
        !any_failed(samples),
    ensures
        replay(samples, times).samples == samples,
    decreases samples.len(),
{
    if samples.len() > 0 {
        let rest = samples.drop_last();
        assert forall|i: int| 0 <= i < rest.len() implies !(#[trigger] rest[i] < 0) by {
            assert(rest[i] == samples[i]);
        }
        assert(!any_failed(rest));
        lemma_all_good_are_recorded(rest, times);
        lemma_replay_is_prefix(rest, times);
        assert(replay(rest, times).due() == ProbeStep::Sample);
        assert(rest.push(samples.last()) =~= samples);
    }
}

} // verus!
