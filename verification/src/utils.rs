//! Retry pacing, batching of tickers, collection of per-task results and the
//! cache decision shared by the pollers.

use vstd::prelude::*;

use crate::text::{split_char, split_spec, views};

verus! {

//-----------------------Retry-------------------------------------------------

/// Exponential retry settings: how many attempts in all, the delay after the
/// first failure, and the ceiling on any delay.
#[derive(Debug, Clone, Copy, PartialEq, Eq, Structural)]
pub struct RetryConfig {
    pub max_attempts: u32,
    pub base_delay_ms: u64,
    pub max_delay_ms: u64,
}

/// Two to the power `k`.
pub open spec fn pow2_spec(k: nat) -> nat
    decreases k,
{
    if k == 0 {
        1
    } else {
        2 * pow2_spec((k - 1) as nat)
    }
}

pub proof fn lemma_pow2_monotone(a: nat, b: nat)
    requires
        a <= b,
    ensures
        1 <= pow2_spec(a) <= pow2_spec(b),
    decreases b,
{
    if b > 0 {
        if a < b {
            lemma_pow2_monotone(a, (b - 1) as nat);
        } else {
            lemma_pow2_monotone((b - 1) as nat, (b - 1) as nat);
        }
    }
}

/// The delay after the `attempts`-th failure: the base delay doubled for each
/// earlier failure, capped at the maximum delay.
pub open spec fn backoff_delay(config: RetryConfig, attempts: nat) -> nat {
    let raw = (config.base_delay_ms * pow2_spec((attempts - 1) as nat)) as nat;
    if raw <= config.max_delay_ms {
        raw
    } else {
        config.max_delay_ms as nat
    }
}

/// Whether computing the delay after the `attempts`-th failure stays within
/// `u64` (the computation overflows, and panics, otherwise).
pub open spec fn backoff_fits(config: RetryConfig, attempts: nat) -> bool {
    attempts >= 1 && attempts - 1 < 64 && config.base_delay_ms * pow2_spec((attempts - 1) as nat)
        <= u64::MAX
}

/// What to do after an attempt.
#[derive(Debug, Clone, Copy, PartialEq, Eq, Structural)]
pub enum RetryStep {
    /// The attempt succeeded: hand its value back.
    Done,
    /// Wait this many milliseconds, then try again.
    Wait(u64),
    /// The attempt failed and no attempt is left: hand its error back.
    GiveUp,
}

/// The step after attempt number `attempts` (counting from 1).
pub open spec fn retry_step_spec(config: RetryConfig, attempts: nat, succeeded: bool) -> RetryStep {
    if succeeded {
        RetryStep::Done
    } else if attempts < config.max_attempts {
        RetryStep::Wait(backoff_delay(config, attempts) as u64)
    } else {
        RetryStep::GiveUp
    }
}

fn pow2_u64(k: u32) -> (r: u64)
    requires
        k < 64,
    ensures
        r == pow2_spec(k as nat),
{
    let mut r: u64 = 1;
    let mut i: u32 = 0;
    while i < k
        invariant
            i <= k < 64,
            r == pow2_spec(i as nat),
        decreases k - i,
    {
        proof {
            lemma_pow2_monotone((i + 1) as nat, 63);
            lemma_pow2_63();
        }
        r = r * 2;
        i = i + 1;
    }
    r
}

proof fn lemma_pow2_63()
    ensures
        pow2_spec(63) == 0x8000_0000_0000_0000,
{
    reveal_with_fuel(pow2_spec, 64);
}

/// Decides what follows attempt number `attempts` of a retried operation:
/// success ends the loop, a failure with attempts left waits the backoff
/// delay, the last failure gives up.
pub fn retry_step(config: &RetryConfig, attempts: u32, succeeded: bool) -> (r: RetryStep)
    requires
        attempts >= 1,
        !succeeded && attempts < config.max_attempts ==> backoff_fits(*config, attempts as nat),
    ensures
        r == retry_step_spec(*config, attempts as nat, succeeded),
{
    if succeeded {
        RetryStep::Done
    } else if attempts < config.max_attempts {
        let raw = config.base_delay_ms * pow2_u64(attempts - 1);
        let delay = if raw <= config.max_delay_ms {
            raw
        } else {
            config.max_delay_ms
        };
        RetryStep::Wait(delay)
    } else {
        RetryStep::GiveUp
    }
}

/// No wait is longer than the configured maximum delay.
pub proof fn retry_wait_bounded(config: RetryConfig, attempts: nat, succeeded: bool)
    ensures
        retry_step_spec(config, attempts, succeeded) matches RetryStep::Wait(d) ==> d
            <= config.max_delay_ms,
{
}

/// Later failures never wait less than earlier ones.
pub proof fn retry_waits_grow(config: RetryConfig, a1: nat, a2: nat)
    requires
        1 <= a1 <= a2,
    ensures
        backoff_delay(config, a1) <= backoff_delay(config, a2),
{
    lemma_pow2_monotone((a1 - 1) as nat, (a2 - 1) as nat);
    assert(config.base_delay_ms * pow2_spec((a1 - 1) as nat) <= config.base_delay_ms * pow2_spec(
        (a2 - 1) as nat,
    )) by (nonlinear_arith)
        requires
            pow2_spec((a1 - 1) as nat) <= pow2_spec((a2 - 1) as nat),
    ;
}

/// When every attempt fails, the operation runs `max(1, max_attempts)` times:
/// each failure before that number waits and the one at that number gives up.
pub proof fn retry_attempt_count(config: RetryConfig, attempts: nat)
    requires
        attempts >= 1,
    ensures
        retry_step_spec(config, attempts, false) is GiveUp <==> attempts >= config.max_attempts,
        attempts < config.max_attempts ==> retry_step_spec(config, attempts, false) is Wait,
{
}

/// A success ends the retries at once; the first failure waits the base
/// delay (at most the maximum), and each further failure waits twice as long
/// as the one before, as long as that stays within the maximum delay.
pub proof fn retry_delays_double(config: RetryConfig, attempts: nat)
    requires
        attempts >= 1,
    ensures
        retry_step_spec(config, attempts, true) == RetryStep::Done,
        config.max_attempts > 1 ==> retry_step_spec(config, 1, false) == RetryStep::Wait(
            if config.base_delay_ms <= config.max_delay_ms {
                config.base_delay_ms
            } else {
                config.max_delay_ms
            },
        ),
        attempts + 1 < config.max_attempts && config.base_delay_ms * pow2_spec(attempts)
            <= config.max_delay_ms ==> (retry_step_spec(config, attempts + 1, false) matches RetryStep::Wait(d2)
            && retry_step_spec(config, attempts, false) matches RetryStep::Wait(d1) && d2 == 2 * d1),
{
    assert(pow2_spec(0) == 1);
    assert(config.base_delay_ms * pow2_spec(0) == config.base_delay_ms);
    assert(backoff_delay(config, 1) == if config.base_delay_ms <= config.max_delay_ms {
        config.base_delay_ms as nat
    } else {
        config.max_delay_ms as nat
    });
    if attempts + 1 < config.max_attempts && config.base_delay_ms * pow2_spec(attempts)
        <= config.max_delay_ms {
        let k = (attempts - 1) as nat;
        assert(pow2_spec(attempts) == 2 * pow2_spec(k));
        lemma_pow2_monotone(k, attempts);
        assert(config.base_delay_ms * pow2_spec(attempts) == 2 * (config.base_delay_ms * pow2_spec(k)))
            by (nonlinear_arith)
            requires
                pow2_spec(attempts) == 2 * pow2_spec(k),
        ;
        assert(config.base_delay_ms * pow2_spec(k) <= config.base_delay_ms * pow2_spec(attempts))
            by (nonlinear_arith)
            requires
                pow2_spec(k) <= pow2_spec(attempts),
        ;
    }
}

/// The wait after a failure under linear backoff (`backoff_ms` times the
/// number of failures so far), or `None` when this failure was the last
/// allowed attempt.
pub open spec fn linear_retry_spec(retry_attempts: u32, backoff_ms: u64, attempts: u32) -> Option<
    u64,
> {
    if attempts == retry_attempts {
        None
    } else {
        Some((backoff_ms * attempts) as u64)
    }
}

/// The decision after the `attempts`-th failed fetch of a symbol in a batch.
pub fn linear_retry(retry_attempts: u32, backoff_ms: u64, attempts: u32) -> (r: Option<u64>)
    requires
        1 <= attempts <= retry_attempts,
        attempts < retry_attempts ==> backoff_ms * attempts <= u64::MAX,
    ensures
        r == linear_retry_spec(retry_attempts, backoff_ms, attempts),
{
    if attempts == retry_attempts {
        None
    } else {
        Some(backoff_ms * (attempts as u64))
    }
}

//-----------------------Batches-----------------------------------------------

/// The concatenation of the chunks.
pub open spec fn concat_chunks(chunks: Seq<Seq<Seq<char>>>) -> Seq<Seq<char>>
    decreases chunks.len(),
{
    if chunks.len() == 0 {
        Seq::empty()
    } else {
        concat_chunks(chunks.drop_last()) + chunks.last()
    }
}

/// The chunks of `size` items that `<[T]>::chunks(size)` makes: in order, each
/// full but possibly the last, none empty.
pub open spec fn chunked(items: Seq<Seq<char>>, chunks: Seq<Seq<Seq<char>>>, size: nat) -> bool {
    &&& concat_chunks(chunks) == items
    &&& forall|i: int| 0 <= i < chunks.len() ==> 1 <= #[trigger] chunks[i].len() <= size
    &&& forall|i: int| 0 <= i < chunks.len() - 1 ==> #[trigger] chunks[i].len() == size
}

pub open spec fn chunk_views(chunks: Seq<Vec<String>>) -> Seq<Seq<Seq<char>>> {
    chunks.map_values(|c: Vec<String>| views(c@))
}

/// Splits the tickers into consecutive batches of `size`.
pub fn plan_batches(items: &Vec<String>, size: usize) -> (r: Vec<Vec<String>>)
    requires
        size > 0,
    ensures
        chunked(views(items@), chunk_views(r@), size as nat),
{
    let n = items.len();
    let mut chunks: Vec<Vec<String>> = Vec::new();
    let mut current: Vec<String> = Vec::new();
    let mut i: usize = 0;
    while i < n
        invariant
            n == items@.len(),
            size > 0,
            i <= n,
            concat_chunks(chunk_views(chunks@)) + views(current@) == views(items@).take(i as int),
            current@.len() < size,
            forall|k: int| 0 <= k < chunks@.len() ==> #[trigger] chunks@[k]@.len() == size,
        decreases n - i,
    {
        let ghost cs = chunks@;
        let ghost cur = current@;
        current.push(items[i].clone());
        assert(views(current@) =~= views(cur).push(items@[i as int]@));
        assert(views(items@).take(i + 1) =~= views(items@).take(i as int).push(items@[i as int]@));
        if current.len() == size {
            let mut full: Vec<String> = Vec::new();
            std::mem::swap(&mut full, &mut current);
            chunks.push(full);
            assert(chunk_views(chunks@).drop_last() =~= chunk_views(cs));
            assert(views(current@) =~= Seq::<Seq<char>>::empty());
        }
        i = i + 1;
    }
    assert(views(items@).take(n as int) =~= views(items@));
    if current.len() > 0 {
        let ghost cs = chunks@;
        chunks.push(current);
        assert(chunk_views(chunks@).drop_last() =~= chunk_views(cs));
    } else {
        assert(views(current@) =~= Seq::<Seq<char>>::empty());
        assert(concat_chunks(chunk_views(chunks@)) + views(current@) =~= concat_chunks(
            chunk_views(chunks@),
        ));
    }
    proof {
        assert forall|k: int| 0 <= k < chunks@.len() implies 1 <= #[trigger] chunk_views(
            chunks@,
        )[k].len() <= size by {
            assert(chunk_views(chunks@)[k] == views(chunks@[k]@));
        }
        assert forall|k: int| 0 <= k < chunks@.len() - 1 implies #[trigger] chunk_views(
            chunks@,
        )[k].len() == size by {
            assert(chunk_views(chunks@)[k] == views(chunks@[k]@));
        }
    }
    chunks
}

proof fn lemma_concat_chunks_len(chunks: Seq<Seq<Seq<char>>>)
    requires
        forall|i: int| 0 <= i < chunks.len() ==> 1 <= #[trigger] chunks[i].len(),
    ensures
        concat_chunks(chunks).len() >= chunks.len(),
    decreases chunks.len(),
{
    if chunks.len() > 0 {
        assert forall|i: int| 0 <= i < chunks.drop_last().len() implies 1 <= #[trigger] chunks.drop_last()[i].len() by {
            assert(chunks.drop_last()[i] == chunks[i]);
        }
        lemma_concat_chunks_len(chunks.drop_last());
        assert(chunks.last() == chunks[chunks.len() - 1]);
    }
}

/// Tickers that passed validation (between one and the batch size of them)
/// form exactly one batch.
pub proof fn validated_tickers_form_one_batch(
    items: Seq<Seq<char>>,
    chunks: Seq<Seq<Seq<char>>>,
    size: nat,
)
    requires
        1 <= items.len() <= size,
        chunked(items, chunks, size),
    ensures
        chunks.len() == 1,
        chunks[0] == items,
{
    if chunks.len() == 0 {
        assert(concat_chunks(chunks) =~= Seq::<Seq<char>>::empty());
    } else if chunks.len() >= 2 {
        assert(chunks[0].len() == size);
        assert(chunks[1].len() >= 1);
        assert(chunks.drop_last().drop_last().len() == chunks.len() - 2);
        lemma_concat_chunks_len(chunks.drop_last().drop_last());
        assert forall|i: int| 0 <= i < chunks.drop_last().len() implies 1 <= #[trigger] chunks.drop_last()[i].len() by {
            assert(chunks.drop_last()[i] == chunks[i]);
        }
        lemma_concat_chunks_len(chunks.drop_last());
        assert(false) by {
            lemma_concat_len_at_least_first(chunks);
        }
    } else {
        assert(chunks.drop_last() =~= Seq::<Seq<Seq<char>>>::empty());
        assert(concat_chunks(chunks.drop_last()) =~= Seq::<Seq<char>>::empty());
        assert(concat_chunks(chunks) =~= chunks[0]);
    }
}

proof fn lemma_concat_len_at_least_first(chunks: Seq<Seq<Seq<char>>>)
    requires
        chunks.len() >= 2,
        forall|i: int| 0 <= i < chunks.len() ==> 1 <= #[trigger] chunks[i].len(),
    ensures
        concat_chunks(chunks).len() >= chunks[0].len() + 1,
    decreases chunks.len(),
{
    if chunks.len() == 2 {
        let one = chunks.drop_last();
        assert(one.drop_last() =~= Seq::<Seq<Seq<char>>>::empty());
        assert(concat_chunks(one.drop_last()) =~= Seq::<Seq<char>>::empty());
        assert(one.last() == chunks[0]);
        assert(concat_chunks(one) =~= chunks[0]);
        assert(chunks.last() == chunks[1]);
    } else {
        assert forall|i: int| 0 <= i < chunks.drop_last().len() implies 1 <= #[trigger] chunks.drop_last()[i].len() by {
            assert(chunks.drop_last()[i] == chunks[i]);
        }
        lemma_concat_len_at_least_first(chunks.drop_last());
        assert(chunks.drop_last()[0] == chunks[0]);
    }
}

//-----------------------Results-----------------------------------------------

/// All the values if every result is `Ok`, else the first error.
pub open spec fn collect_spec<T, E>(rs: Seq<Result<T, E>>) -> Result<Seq<T>, E>
    decreases rs.len(),
{
    if rs.len() == 0 {
        Ok(Seq::empty())
    } else {
        match rs[0] {
            Err(e) => Err(e),
            Ok(v) => match collect_spec(rs.drop_first()) {
                Ok(vs) => Ok(seq![v] + vs),
                Err(e) => Err(e),
            },
        }
    }
}

/// Gathers task results in order, stopping at the first error.
pub fn collect_results<T, E>(results: Vec<Result<T, E>>) -> (r: Result<Vec<T>, E>)
    ensures
        match (r, collect_spec(results@)) {
            (Ok(v), Ok(s)) => v@ == s,
            (Err(e), Err(f)) => e == f,
            _ => false,
        },
{
    let mut rest = results;
    let mut out: Vec<T> = Vec::new();
    while rest.len() > 0
        invariant
            match collect_spec(results@) {
                Ok(s) => collect_spec(rest@) matches Ok(t) && s == out@ + t,
                Err(f) => collect_spec(rest@) == Err::<Seq<T>, E>(f),
            },
        decreases rest@.len(),
    {
        let ghost before = rest@;
        let first = rest.remove(0);
        assert(rest@ =~= before.drop_first());
        match first {
            Ok(v) => {
                let ghost o = out@;
                out.push(v);
                proof {
                    if let Ok(t) = collect_spec(rest@) {
                        assert(out@ + t =~= o + (seq![v] + t));
                    }
                }
            },
            Err(e) => {
                return Err(e);
            },
        }
    }
    assert(out@ + Seq::<T>::empty() =~= out@);
    Ok(out)
}

//-----------------------Cache-------------------------------------------------

/// What a cached fetch does after looking up its key.
#[derive(Debug, Clone, Copy, PartialEq, Eq, Structural)]
pub enum CacheStep {
    /// A fresh entry: hand it back without fetching.
    UseCached,
    /// An expired entry: remove it, then fetch and store.
    EvictThenFetch,
    /// No entry: fetch and store.
    Fetch,
}

/// The step for a lookup that found an entry (and whether it was younger than
/// the time to live) or found nothing.
pub open spec fn cache_step_spec(found: bool, fresh: bool) -> CacheStep {
    if found && fresh {
        CacheStep::UseCached
    } else if found {
        CacheStep::EvictThenFetch
    } else {
        CacheStep::Fetch
    }
}

pub fn cache_step(found: bool, fresh: bool) -> (r: CacheStep)
    ensures
        r == cache_step_spec(found, fresh),
{
    if found {
        if fresh {
            CacheStep::UseCached
        } else {
            CacheStep::EvictThenFetch
        }
    } else {
        CacheStep::Fetch
    }
}

//-----------------------Dates-------------------------------------------------

/// The date part of a `YYYY-MM-DD HH:MM:SS` timestamp: the text before the
/// first space.
pub fn date_of(timestamp: &str) -> (r: String)
    ensures
        r@ == split_spec(timestamp@, ' ')[0],
{
    let parts = split_char(timestamp, ' ');
    proof {
        crate::text::lemma_split_len(timestamp@, ' ');
    }
    parts[0].clone()
}

//-----------------------Reports-----------------------------------------------

/// One entry of a report: a fetched value, or the text of an error.
#[derive(Debug)]
pub enum Reported<T> {
    Value(T),
    Error(String),
}

/// The text reported for a task that did not finish.
pub open spec fn panicked_text() -> Seq<char> {
    "Task panicked"@
}

/// The entry reported for a task outcome: the value of a success, the error
/// text `text` of a failure, `Task panicked` for a task that did not finish.
pub open spec fn reported_as<T, E>(
    outcome: Option<Result<T, E>>,
    text: Seq<char>,
    rep: Reported<T>,
) -> bool {
    match outcome {
        Some(Ok(v)) => rep == Reported::<T>::Value(v),
        Some(Err(_)) => rep matches Reported::Error(m) && m@ == text,
        None => rep matches Reported::Error(m) && m@ == panicked_text(),
    }
}

} // verus!
