//! Decision logic of the provider fallback chain: providers are tried
//! strictly in order, the first success wins, and when every provider fails
//! the last failure is the one surfaced. Connection tests are instead
//! aggregated over the whole chain.

use vstd::prelude::*;
use crate::provider::{spec_describe_error, ProviderError, ProviderTestResult};

verus! {

/// Outcome of a chain of provider attempts, tried in order: the first
/// success, else the last failure.
pub open spec fn resolve_spec<T>(s: Seq<Result<T, ProviderError>>) -> Result<T, ProviderError>
    recommends
        s.len() > 0,
    decreases s.len(),
{
    if s.len() <= 1 {
        s[0]
    } else if s[0] is Ok {
        s[0]
    } else {
        resolve_spec(s.drop_first())
    }
}

/// Resolves a chain of attempt outcomes, listed in the order the providers
/// were tried. An empty chain reports that no provider was available.
pub fn resolve_outcomes<T>(outcomes: Vec<Result<T, ProviderError>>) -> (r: Result<
    T,
    ProviderError,
>)
    ensures
        outcomes@.len() > 0 ==> r == resolve_spec(outcomes@),
        outcomes@.len() == 0 ==> r is Err && r->Err_0 is Other && r->Err_0->Other_0@
            == "No providers available"@,
{
    let ghost orig = outcomes@;
    let mut v = outcomes;
    if v.len() == 0 {
        return Err(ProviderError::Other(String::from_str("No providers available")));
    }
    while v.len() > 1
        invariant
            orig == outcomes@,
            orig.len() > 0,
            v@.len() >= 1,
            resolve_spec(v@) == resolve_spec(orig),
        decreases v@.len(),
    {
        let ghost before = v@;
        let first = v.remove(0);
        proof {
            assert(v@ =~= before.drop_first());
        }
        match first {
            Ok(val) => {
                proof {
                    assert(resolve_spec(before) == before[0]);
                }
                return Ok(val);
            },
            Err(_) => {},
        }
    }
    let last = v.remove(0);
    last
}

/// Law: the first success in the chain is the chain's result; failures
/// before it are absorbed, never surfaced.
pub proof fn lemma_resolver_first_success<T>(s: Seq<Result<T, ProviderError>>, i: int)
    requires
        0 <= i < s.len(),
        s[i] is Ok,
        forall|j: int| 0 <= j < i ==> s[j] is Err,
    ensures
        resolve_spec(s) == s[i],
    decreases i,
{
    if i == 0 {
    } else {
        lemma_resolver_first_success(s.drop_first(), i - 1);
    }
}

/// Law: in a chain of one failing provider followed by one succeeding
/// provider, the result is the second provider's result and no error
/// surfaces.
pub proof fn lemma_chain_second_succeeds<T>(e: ProviderError, v: T)
    ensures
        resolve_spec(seq![Err::<T, ProviderError>(e), Ok::<T, ProviderError>(v)]) == Ok::<
            T,
            ProviderError,
        >(v),
{
    let s = seq![Err::<T, ProviderError>(e), Ok::<T, ProviderError>(v)];
    lemma_resolver_first_success(s, 1);
}

/// Law: when every provider in the chain fails, the surfaced error is the
/// last provider's error.
pub proof fn lemma_resolver_all_fail<T>(s: Seq<Result<T, ProviderError>>)
    requires
        s.len() > 0,
        forall|j: int| 0 <= j < s.len() ==> s[j] is Err,
    ensures
        resolve_spec(s) == s[s.len() - 1],
    decreases s.len(),
{
    if s.len() > 1 {
        lemma_resolver_all_fail(s.drop_first());
    }
}

/// Running state of a lazily driven fallback chain: the failure to surface
/// if no later provider succeeds.
#[derive(Debug)]
pub struct FallbackState {
    pub last_error: Option<ProviderError>,
}

impl FallbackState {
    pub fn new() -> (r: Self)
        ensures
            r.last_error is None,
    {
        FallbackState { last_error: None }
    }

    /// Absorbs one provider's failure; the chain continues.
    pub fn record_failure(&mut self, e: ProviderError)
        ensures
            final (self).last_error == Some(e),
    {
        self.last_error = Some(e);
    }

    /// Surfaces the chain's failure once every provider has been tried: the
    /// last recorded error, or "no providers" when none ran.
    pub fn conclude(self) -> (r: ProviderError)
        ensures
            self.last_error is Some ==> r == self.last_error->0,
            self.last_error is None ==> r is Other && r->Other_0@ == "No providers available"@,
    {
        match self.last_error {
            Some(e) => e,
            None => ProviderError::Other(String::from_str("No providers available")),
        }
    }
}

/// The cache-then-resolve flow for one schedule request: a cached schedule
/// is returned as it stands and nothing is written; otherwise the provider
/// chain decides, and exactly a successful resolution is written back.
pub fn resolve_with_cache<T>(cached: Option<T>, outcomes: Vec<Result<T, ProviderError>>) -> (r: (
    Result<T, ProviderError>,
    bool,
))
    ensures
        cached is Some ==> r.0 is Ok && r.0->Ok_0 == cached->0 && r.1 == false,
        cached is None && outcomes@.len() > 0 ==> r.0 == resolve_spec(outcomes@),
        cached is None && outcomes@.len() == 0 ==> r.0 is Err && r.0->Err_0 is Other
            && r.0->Err_0->Other_0@ == "No providers available"@,
        cached is None ==> r.1 == (r.0 is Ok),
{
    match cached {
        Some(v) => (Ok(v), false),
        None => {
            let resolved = resolve_outcomes(outcomes);
            let write_back = resolved.is_ok();
            (resolved, write_back)
        },
    }
}

/// One provider's contribution to a combined connection-test report.
pub open spec fn spec_test_entry(name: Seq<char>, outcome: Result<
    ProviderTestResult,
    ProviderError,
>) -> Seq<char> {
    match outcome {
        Ok(t) => name + ": "@ + t.message@,
        Err(e) => name + ": Failed - "@ + spec_describe_error(e),
    }
}

/// The combined report's message: the entries joined by semicolons.
pub open spec fn spec_test_messages(s: Seq<(String, Result<ProviderTestResult, ProviderError>)>)
    -> Seq<char>
    decreases s.len(),
{
    if s.len() == 0 {
        Seq::empty()
    } else if s.len() == 1 {
        spec_test_entry(s[0].0@, s[0].1)
    } else {
        spec_test_messages(s.drop_last()) + "; "@ + spec_test_entry(s.last().0@, s.last().1)
    }
}

/// Whether every provider's test succeeded.
pub open spec fn spec_all_tests_ok(s: Seq<(String, Result<ProviderTestResult, ProviderError>)>)
    -> bool {
    forall|i: int| 0 <= i < s.len() ==> (#[trigger] s[i].1) is Ok && s[i].1->Ok_0.success
}

/// Aggregates every provider's connection test into one combined report:
/// success only when all succeed, with one message line per provider.
pub fn combine_test_results(results: Vec<(String, Result<ProviderTestResult, ProviderError>)>)
    -> (r: ProviderTestResult)
    ensures
        r.success == spec_all_tests_ok(results@),
        r.message@ == spec_test_messages(results@),
        r.latency_ms is None,
{
    let mut all_success = true;
    let mut message = String::new();
    let n = results.len();
    let mut i: usize = 0;
    while i < n
        invariant
            n == results@.len(),
            0 <= i <= n,
            all_success == spec_all_tests_ok(results@.take(i as int)),
            message@ == spec_test_messages(results@.take(i as int)),
        decreases n - i,
    {
        let ghost prefix = results@.take(i as int);
        let (name, outcome) = &results[i];
        let entry = match outcome {
            Ok(t) => name.clone().concat(": ").concat(t.message.as_str()),
            Err(e) => name.clone().concat(": Failed - ").concat(e.describe().as_str()),
        };
        let ok_here = match outcome {
            Ok(t) => t.success,
            Err(_) => false,
        };
        if i == 0 {
            message = entry;
        } else {
            message = message.concat("; ").concat(entry.as_str());
        }
        all_success = all_success && ok_here;
        proof {
            let next = results@.take(i + 1 as int);
            assert(next.drop_last() =~= prefix);
            assert(next.last() == results@[i as int]);
            assert(spec_all_tests_ok(next) == (spec_all_tests_ok(prefix) && (results@[i as int].1
                is Ok && results@[i as int].1->Ok_0.success)));
        }
        i = i + 1;
    }
    proof {
        assert(results@.take(n as int) =~= results@);
    }
    ProviderTestResult { success: all_success, message, latency_ms: None }
}

} // verus!
