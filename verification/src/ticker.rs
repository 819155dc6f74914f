use circular_buffer::HeapCircularBuffer;
use vstd::prelude::*;

verus! {

/// `circular_buffer::HeapCircularBuffer`, the bounded history of tickers:
/// once full, each new element drops the oldest one.
#[verifier::external_type_specification]
#[verifier::external_body]
#[verifier::reject_recursive_types(T)]
pub struct ExHeapCircularBuffer<T>(HeapCircularBuffer<T>);

/// The timestamps held by a ticker history, from the oldest (front) to the
/// newest (back), as `HeapCircularBuffer` orders its elements.
pub uninterp spec fn history(buffer: HeapCircularBuffer<i64>) -> Seq<i64>;

/// Calls `HeapCircularBuffer::len`, taken to return the number of elements
/// that the buffer holds.
#[verifier::external_body]
fn held(buffer: &HeapCircularBuffer<i64>) -> (n: usize)
    ensures
        n == history(*buffer).len(),
{
    buffer.len()
}

/// Calls `HeapCircularBuffer::back`, taken to return the newest element, or
/// nothing when the buffer is empty.
#[verifier::external_body]
fn newest(buffer: &HeapCircularBuffer<i64>) -> (r: Option<i64>)
    ensures
        history(*buffer).len() == 0 ==> r is None,
        history(*buffer).len() > 0 ==> r == Some(history(*buffer).last()),
{
    buffer.back().copied()
}

/// Calls `HeapCircularBuffer::nth_back`, taken to return the element `index`
/// places before the newest one (the newest itself for 0), or nothing when the
/// buffer holds no more than `index` elements.
#[verifier::external_body]
fn nth_newest(buffer: &HeapCircularBuffer<i64>, index: usize) -> (r: Option<i64>)
    ensures
        index < history(*buffer).len() ==> r == Some(
            history(*buffer)[history(*buffer).len() - 1 - index],
        ),
        index >= history(*buffer).len() ==> r is None,
{
    buffer.nth_back(index).copied()
}

/// The entry `k` places before the newest one of `h` is at most 60 seconds
/// older than the newest.
pub open spec fn in_last_minute(h: Seq<i64>, k: int) -> bool {
    h[h.len() - 1 - k] >= h.last() - 60
}

/// `n` is the length of the last minute of `h`: the newest entry, and each
/// one before it back to (not including) the first that is more than 60
/// seconds older than the newest.
pub open spec fn is_minute_window(h: Seq<i64>, n: nat) -> bool {
    if h.len() == 0 {
        n == 0
    } else {
        &&& 1 <= n <= h.len()
        &&& forall|k: int| 1 <= k < n ==> in_last_minute(h, k)
        &&& n < h.len() ==> !in_last_minute(h, n as int)
    }
}

/// The number of entries, counted back from the newest, that make up the
/// last minute of the ticker history. The newest entry always counts; the
/// count stops at the first entry that is more than 60 seconds older than it.
pub fn minute_window_len(buffer: &HeapCircularBuffer<i64>) -> (n: usize)
    requires
        history(*buffer).len() > 0 ==> history(*buffer).last() >= i64::MIN + 60,
    ensures
        is_minute_window(history(*buffer), n as nat),
{
    let newest_ts = match newest(buffer) {
        Some(ts) => ts,
        None => return 0,
    };
    let minute_start = newest_ts - 60;
    let ghost h = history(*buffer);
    let len = held(buffer);
    let mut end: usize = 1;
    while end < len
        invariant
            h == history(*buffer),
            h.len() > 0,
            len == h.len(),
            newest_ts == h.last(),
            minute_start == h.last() - 60,
            1 <= end <= h.len(),
            forall|k: int| 1 <= k < end ==> in_last_minute(h, k),
        ensures
            is_minute_window(h, end as nat),
        decreases h.len() - end,
    {
        match nth_newest(buffer, end) {
            Some(ts) => {
                if ts < minute_start {
                    break;
                }
                end = end + 1;
            },
            None => {
                break;
            },
        }
    }
    end
}

/// The length of the last minute of the ticker history, or nothing when
/// the newest timestamp lies so close to the least `i64` that the start of
/// its minute cannot be computed.
pub fn checked_minute_window_len(buffer: &HeapCircularBuffer<i64>) -> (r: Option<usize>)
    ensures
        r is None <==> (history(*buffer).len() > 0 && history(*buffer).last() < i64::MIN + 60),
        r matches Some(n) ==> is_minute_window(history(*buffer), n as nat),
{
    match newest(buffer) {
        Some(ts) => {
            if ts < i64::MIN + 60 {
                None
            } else {
                Some(minute_window_len(buffer))
            }
        },
        None => Some(minute_window_len(buffer)),
    }
}

/// The last minute of a history has one length only.
pub proof fn lemma_minute_window_unique(h: Seq<i64>, n: nat, m: nat)
    requires
        is_minute_window(h, n),
        is_minute_window(h, m),
    ensures
        n == m,
{
    if h.len() > 0 && n != m {
        if n < m {
            assert(in_last_minute(h, n as int));
        } else {
            assert(in_last_minute(h, m as int));
        }
    }
}

/// A ticker that comes more than a minute after the newest one before it
/// makes up the last minute on its own: the older entries are left out.
pub proof fn lemma_gap_restarts_window(h: Seq<i64>, ts: i64)
    requires
        h.len() > 0,
        h.last() < ts - 60,
    ensures
        is_minute_window(h.push(ts), 1),
{
    assert(h.push(ts)[h.push(ts).len() - 1 - 1] == h.last());
}

/// When every entry of a history lies within a minute of the newest one,
/// the last minute is the whole history.
pub proof fn lemma_recent_history_is_whole_window(h: Seq<i64>)
    requires
        h.len() > 0,
        forall|i: int| 0 <= i < h.len() ==> h[i] >= h.last() - 60,
    ensures
        is_minute_window(h, h.len()),
{
    assert forall|k: int| 1 <= k < h.len() implies in_last_minute(h, k) by {
        assert(h[h.len() - 1 - k] >= h.last() - 60);
    }
}

/// A ticker exactly 60 seconds older than the newest still belongs to the
/// last minute; one 61 seconds older does not, and the count stops there
/// even when older entries behind it are recent.
pub proof fn lemma_window_boundary(older: i64, x: i64, recent: i64)
    requires
        x <= i64::MAX - 61,
    ensures
        is_minute_window(seq![x, (x + 60) as i64], 2),
        is_minute_window(seq![x, (x + 61) as i64], 1),
        is_minute_window(seq![recent, x, (x + 61) as i64], 1),
        !is_minute_window(seq![x, (x + 60) as i64], 1),
        !is_minute_window(seq![x, (x + 61) as i64], 2),
{
    let h1 = seq![x, (x + 60) as i64];
    let h2 = seq![x, (x + 61) as i64];
    let h3 = seq![recent, x, (x + 61) as i64];
    assert(in_last_minute(h1, 1));
    assert(!in_last_minute(h2, 1));
    assert(!in_last_minute(h3, 1));
}

} // verus!
