//! The three numbers of a run: median round trip, download throughput,
//! upload throughput.

use vstd::prelude::*;
use vstd::relations::{sorted_by, total_ordering};
use vstd::seq_lib::{lemma_sorted_unique, to_multiset_build, to_multiset_insert};

verus! {

/// The order in which samples are sorted.
pub open spec fn at_most() -> spec_fn(u64, u64) -> bool {
    |a: u64, b: u64| a <= b
}

/// The samples in ascending order.
pub open spec fn ascending(samples: Seq<u64>) -> Seq<u64> {
    samples.sort_by(at_most())
}

/// The middle of a sorted sequence: the middle element of an odd number,
/// the mean of the two middle elements of an even number, rounded down.
pub open spec fn middle(sorted: Seq<u64>) -> u64 {
    let n = sorted.len() as int;
    if n % 2 == 1 {
        sorted[n / 2]
    } else {
        ((sorted[n / 2 - 1] + sorted[n / 2]) / 2) as u64
    }
}

/// The median of the samples; none of no samples.
pub open spec fn median_of(samples: Seq<u64>) -> Option<u64> {
    if samples.len() == 0 {
        None
    } else {
        Some(middle(ascending(samples)))
    }
}

/// A sequence that is in ascending order and holds the samples, each as
/// often as they do, is the samples in ascending order.
pub proof fn lemma_ascending(sorted: Seq<u64>, samples: Seq<u64>)
    requires
        forall|i: int, j: int| 0 <= i <= j < sorted.len() ==> sorted[i] <= sorted[j],
        sorted.to_multiset() == samples.to_multiset(),
    ensures
        sorted == ascending(samples),
{
    let leq = at_most();
    assert(total_ordering(leq));
    samples.lemma_sort_by_ensures(leq);
    assert(sorted_by(sorted, leq));
    lemma_sorted_unique(sorted, ascending(samples), leq);
}

/// The samples in ascending order.
pub fn sort_samples(samples: &Vec<u64>) -> (r: Vec<u64>)
    ensures
        r@ == ascending(samples@),
        r@.len() == samples@.len(),
{
    let mut out: Vec<u64> = Vec::new();
    let mut i: usize = 0;
    assert(samples@.take(0) =~= Seq::<u64>::empty());
    while i < samples.len()
        invariant
            i <= samples@.len(),
            out@.len() == i,
            forall|a: int, b: int| 0 <= a <= b < out@.len() ==> out@[a] <= out@[b],
            out@.to_multiset() == samples@.take(i as int).to_multiset(),
        decreases samples@.len() - i,
    {
        let x: u64 = samples[i];
        let mut at: usize = 0;
        while at < out.len() && out[at] <= x
            invariant
                at <= out@.len(),
                forall|k: int| 0 <= k < at ==> out@[k] <= x,
            decreases out@.len() - at,
        {
            at += 1;
        }
        let ghost before = out@;
        out.insert(at, x);
        proof {
            to_multiset_insert(before, at as int, x);
            to_multiset_build(samples@.take(i as int), x);
            assert(samples@.take(i + 1) =~= samples@.take(i as int).push(x));
            before.insert_ensures(at as int, x);
            assert forall|a: int, b: int| 0 <= a <= b < out@.len() implies out@[a] <= out@[b] by {
                if a < at && b > at {
                    assert(out@[b] == before[b - 1]);
                } else if a > at {
                    assert(out@[a] == before[a - 1]);
                    assert(out@[b] == before[b - 1]);
                } else if a == at && b > at {
                    assert(out@[b] == before[b - 1]);
                }
            }
        }
        i += 1;
    }
    proof {
        assert(samples@.take(i as int) =~= samples@);
        lemma_ascending(out@, samples@);
    }
    out
}

/// The median of the samples; none of no samples.
pub fn median(samples: &Vec<u64>) -> (r: Option<u64>)
    ensures
        r == median_of(samples@),
        r.is_some() <==> samples@.len() > 0,
{
    let n: usize = samples.len();
    if n == 0 {
        return None;
    }
    let sorted = sort_samples(samples);
    if n % 2 == 1 {
        Some(sorted[n / 2])
    } else {
        let low: u128 = sorted[n / 2 - 1] as u128;
        let high: u128 = sorted[n / 2] as u128;
        Some(((low + high) / 2) as u64)
    }
}

/// Bits in a byte.
pub const BITS_PER_BYTE: u128 = 8;

/// Nanoseconds in a second.
pub const NANOS: u128 = 1_000_000_000;

/// Bits per second in one hundredth of the reporting unit.
pub const BITS_PER_HUNDREDTH: u128 = 10_000_000;

/// The throughput of `bytes` bytes in `ns` nanoseconds, in bits per second,
/// rounded down.
pub open spec fn bits_per_second(bytes: nat, ns: nat) -> nat {
    ((bytes * 8 * 1_000_000_000) as int / ns as int) as nat
}

/// A throughput as it is reported: in hundredths of the reporting unit,
/// rounded to the nearest, and no more than 32 bits hold.
pub open spec fn reported(bps: nat) -> i32 {
    let rounded = (bps + 5_000_000) / 10_000_000;
    if rounded > i32::MAX {
        i32::MAX
    } else {
        rounded as i32
    }
}

/// The throughput of `bytes` bytes in `ns` nanoseconds as it is reported;
/// none where no time passed.
pub open spec fn speed_of(bytes: nat, ns: nat) -> Option<i32> {
    if ns == 0 {
        None
    } else {
        Some(reported(bits_per_second(bytes, ns)))
    }
}

/// The throughput of `bytes` bytes in `ns` nanoseconds as it is reported.
pub fn speed(bytes: u64, ns: u64) -> (r: Option<i32>)
    ensures
        r == speed_of(bytes as nat, ns as nat),
{
    if ns == 0 {
        return None;
    }
    assert(bytes * 8 * 1_000_000_000 <= 0xffff_ffff_ffff_ffff * 8 * 1_000_000_000) by (nonlinear_arith)
        requires
            bytes <= 0xffff_ffff_ffff_ffff,
    ;
    let bits: u128 = bytes as u128 * BITS_PER_BYTE * NANOS;
    let bps: u128 = bits / (ns as u128);
    let rounded: u128 = (bps + BITS_PER_HUNDREDTH / 2) / BITS_PER_HUNDREDTH;
    if rounded > i32::MAX as u128 {
        Some(i32::MAX)
    } else {
        Some(rounded as i32)
    }
}

/// What one stream of a run measured.
pub struct StreamResult {
    /// Round trips in nanoseconds.
    pub pings: Vec<u64>,
    /// `(elapsed_ns, bytes)` at every chunk boundary of the timed download.
    pub download_samples: Vec<(u64, u64)>,
    /// Payload bytes of the timed download.
    pub download_bytes: u64,
    /// The server's duration of the timed download in nanoseconds.
    pub download_time: Option<u64>,
    /// Payload bytes of the timed upload.
    pub upload_bytes: u64,
    /// The server's duration of the timed upload in nanoseconds.
    pub upload_time: Option<u64>,
}

/// The three numbers of a run.
#[derive(Clone, Copy, Debug, PartialEq, Eq, Structural)]
pub struct RunResult {
    /// Median round trip in nanoseconds.
    pub ping_median: Option<u64>,
    /// Download throughput as reported.
    pub download_speed: Option<i32>,
    /// Upload throughput as reported.
    pub upload_speed: Option<i32>,
}

/// The bytes that a stream had received at time `t`: those of its last
/// sample taken no later than `t`, none before its first sample.
pub open spec fn bytes_at(samples: Seq<(u64, u64)>, t: u64) -> u64
    decreases samples.len(),
{
    if samples.len() == 0 {
        0
    } else if samples.last().0 <= t {
        samples.last().1
    } else {
        bytes_at(samples.drop_last(), t)
    }
}

/// The bytes that all streams together had received at time `t`.
pub open spec fn received_at(streams: Seq<StreamResult>, t: u64) -> nat
    decreases streams.len(),
{
    if streams.len() == 0 {
        0
    } else {
        received_at(streams.drop_last(), t) + bytes_at(streams.last().download_samples@, t) as nat
    }
}

/// The time of the last sample of a stream; zero where it took none.
pub open spec fn end_of(samples: Seq<(u64, u64)>) -> u64 {
    if samples.len() == 0 {
        0
    } else {
        samples.last().0
    }
}

/// The window that all streams cover: up to the earliest time at which a
/// stream took its last sample; zero where there is no stream.
pub open spec fn common_window(streams: Seq<StreamResult>) -> u64
    decreases streams.len(),
{
    if streams.len() == 0 {
        0
    } else if streams.len() == 1 {
        end_of(streams.last().download_samples@)
    } else {
        let rest = common_window(streams.drop_last());
        let own = end_of(streams.last().download_samples@);
        if own < rest {
            own
        } else {
            rest
        }
    }
}

/// Where the stable middle of a window begins: after its first fifth.
pub open spec fn middle_start(window: u64) -> u64 {
    window / 5
}

/// Where the stable middle of a window ends: before its last fifth.
pub open spec fn middle_end(window: u64) -> u64 {
    (window - window / 5) as u64
}

/// The download throughput over the stable middle of the common window,
/// as it is reported: the bytes that all streams together received between
/// the start and the end of the middle, over the length of the middle. None
/// where the middle is empty or the streams hold fewer bytes at its end
/// than at its start.
pub open spec fn middle_speed_of(streams: Seq<StreamResult>) -> Option<i32> {
    let window = common_window(streams);
    let from = middle_start(window);
    let to = middle_end(window);
    let before = received_at(streams, from);
    let after = received_at(streams, to);
    if to <= from || after < before || after - before > u64::MAX {
        None
    } else {
        speed_of((after - before) as nat, (to - from) as nat)
    }
}

/// The bytes that a stream had received at time `t`.
pub fn received_by(samples: &Vec<(u64, u64)>, t: u64) -> (r: u64)
    ensures
        r == bytes_at(samples@, t),
{
    let mut i: usize = samples.len();
    assert(samples@.take(i as int) =~= samples@);
    while i > 0
        invariant
            i <= samples@.len(),
            bytes_at(samples@, t) == bytes_at(samples@.take(i as int), t),
        decreases i,
    {
        let ghost prefix = samples@.take(i as int);
        assert(prefix.last() == samples@[i - 1]);
        assert(prefix.drop_last() =~= samples@.take(i - 1));
        if samples[i - 1].0 <= t {
            return samples[i - 1].1;
        }
        i -= 1;
    }
    0
}

/// The download throughput over the stable middle of the common window.
pub fn middle_speed(streams: &Vec<StreamResult>) -> (r: Option<i32>)
    ensures
        r == middle_speed_of(streams@),
{
    let count: usize = streams.len();
    let mut window: u64 = 0;
    let mut i: usize = 0;
    assert(streams@.take(0) =~= Seq::<StreamResult>::empty());
    while i < count
        invariant
            count == streams@.len(),
            i <= count,
            window == common_window(streams@.take(i as int)),
        decreases count - i,
    {
        proof {
            let prefix = streams@.take(i + 1);
            assert(prefix.drop_last() =~= streams@.take(i as int));
            assert(prefix.last() == streams@[i as int]);
        }
        let samples = &streams[i].download_samples;
        let own: u64 = if samples.len() == 0 {
            0
        } else {
            samples[samples.len() - 1].0
        };
        if i == 0 || own < window {
            window = own;
        }
        i += 1;
    }
    assert(streams@.take(count as int) =~= streams@);
    let from: u64 = window / 5;
    let to: u64 = window - window / 5;
    let mut before: u128 = 0;
    let mut after: u128 = 0;
    let mut j: usize = 0;
    while j < count
        invariant
            count == streams@.len(),
            j <= count,
            before == received_at(streams@.take(j as int), from),
            after == received_at(streams@.take(j as int), to),
            before <= j * 0xffff_ffff_ffff_ffff,
            after <= j * 0xffff_ffff_ffff_ffff,
        decreases count - j,
    {
        proof {
            let prefix = streams@.take(j + 1);
            assert(prefix.drop_last() =~= streams@.take(j as int));
            assert(prefix.last() == streams@[j as int]);
            assert((j + 1) * 0xffff_ffff_ffff_ffff == j * 0xffff_ffff_ffff_ffff
                + 0xffff_ffff_ffff_ffff) by (nonlinear_arith);
            assert(j * 0xffff_ffff_ffff_ffff <= 0xffff_ffff_ffff_ffff * 0xffff_ffff_ffff_ffff) by (nonlinear_arith)
                requires
                    j <= 0xffff_ffff_ffff_ffff,
            ;
        }
        before = before + received_by(&streams[j].download_samples, from) as u128;
        after = after + received_by(&streams[j].download_samples, to) as u128;
        j += 1;
    }
    if to <= from || after < before || after - before > u64::MAX as u128 {
        None
    } else {
        speed((after - before) as u64, to - from)
    }
}

/// The round trips of all streams, stream after stream.
pub open spec fn all_pings(streams: Seq<StreamResult>) -> Seq<u64>
    decreases streams.len(),
{
    if streams.len() == 0 {
        Seq::empty()
    } else {
        all_pings(streams.drop_last()) + streams.last().pings@
    }
}

/// The download bytes of all streams together.
pub open spec fn total_download(streams: Seq<StreamResult>) -> nat
    decreases streams.len(),
{
    if streams.len() == 0 {
        0
    } else {
        total_download(streams.drop_last()) + streams.last().download_bytes as nat
    }
}

/// The upload bytes of all streams together.
pub open spec fn total_upload(streams: Seq<StreamResult>) -> nat
    decreases streams.len(),
{
    if streams.len() == 0 {
        0
    } else {
        total_upload(streams.drop_last()) + streams.last().upload_bytes as nat
    }
}

/// The longest download duration that a stream reports; zero where none
/// reports one.
pub open spec fn longest_download(streams: Seq<StreamResult>) -> u64
    decreases streams.len(),
{
    if streams.len() == 0 {
        0
    } else {
        let rest = longest_download(streams.drop_last());
        match streams.last().download_time {
            Some(t) => if t > rest {
                t
            } else {
                rest
            },
            None => rest,
        }
    }
}

/// The longest upload duration that a stream reports; zero where none
/// reports one.
pub open spec fn longest_upload(streams: Seq<StreamResult>) -> u64
    decreases streams.len(),
{
    if streams.len() == 0 {
        0
    } else {
        let rest = longest_upload(streams.drop_last());
        match streams.last().upload_time {
            Some(t) => if t > rest {
                t
            } else {
                rest
            },
            None => rest,
        }
    }
}

/// The throughput of the whole download: the bytes of all streams
/// together over the longest duration that a stream reports.
pub open spec fn whole_download_speed_of(streams: Seq<StreamResult>) -> Option<i32> {
    if total_download(streams) > u64::MAX {
        None
    } else {
        speed_of(total_download(streams), longest_download(streams) as nat)
    }
}

/// The numbers of a run whose streams measured `streams`: the median of
/// all round trips together; the download throughput over the stable
/// middle of the window that all streams cover, or that of the whole
/// download where the middle yields none; the upload bytes of all streams
/// together over the longest duration that a stream reports.
pub open spec fn result_of(streams: Seq<StreamResult>) -> RunResult {
    RunResult {
        ping_median: median_of(all_pings(streams)),
        download_speed: match middle_speed_of(streams) {
            Some(v) => Some(v),
            None => whole_download_speed_of(streams),
        },
        upload_speed: if total_upload(streams) > u64::MAX {
            None
        } else {
            speed_of(total_upload(streams), longest_upload(streams) as nat)
        },
    }
}

/// A run of one stream that took a round trip and timed both directions
/// yields all three numbers.
pub proof fn lemma_single_stream(stream: StreamResult)
    requires
        stream.pings@.len() > 0,
        stream.download_time.is_some() && stream.download_time.unwrap() > 0,
        stream.upload_time.is_some() && stream.upload_time.unwrap() > 0,
    ensures
        result_of(seq![stream]).ping_median.is_some(),
        result_of(seq![stream]).download_speed.is_some(),
        result_of(seq![stream]).upload_speed.is_some(),
{
    let one = seq![stream];
    assert(one.drop_last() =~= Seq::<StreamResult>::empty());
    assert(one.last() == stream);
    assert(all_pings(one.drop_last()) =~= Seq::<u64>::empty());
    assert(all_pings(one) =~= stream.pings@);
    assert(total_download(one.drop_last()) == 0);
    assert(total_upload(one.drop_last()) == 0);
    assert(longest_download(one.drop_last()) == 0);
    assert(longest_upload(one.drop_last()) == 0);
}

/// Computes the numbers of a run from what its streams measured.
pub fn aggregate(streams: &Vec<StreamResult>) -> (r: RunResult)
    ensures
        r == result_of(streams@),
{
    let mut pings: Vec<u64> = Vec::new();
    let mut down: u128 = 0;
    let mut up: u128 = 0;
    let mut down_time: u64 = 0;
    let mut up_time: u64 = 0;
    let mut i: usize = 0;
    assert(streams@.take(0) =~= Seq::<StreamResult>::empty());
    while i < streams.len()
        invariant
            i <= streams@.len(),
            pings@ == all_pings(streams@.take(i as int)),
            down == total_download(streams@.take(i as int)),
            up == total_upload(streams@.take(i as int)),
            down <= i * 0xffff_ffff_ffff_ffff,
            up <= i * 0xffff_ffff_ffff_ffff,
            down_time == longest_download(streams@.take(i as int)),
            up_time == longest_upload(streams@.take(i as int)),
        decreases streams@.len() - i,
    {
        proof {
            let prefix = streams@.take(i + 1);
            assert(prefix.drop_last() =~= streams@.take(i as int));
            assert(prefix.last() == streams@[i as int]);
            assert((i + 1) * 0xffff_ffff_ffff_ffff == i * 0xffff_ffff_ffff_ffff
                + 0xffff_ffff_ffff_ffff) by (nonlinear_arith);
            assert(i * 0xffff_ffff_ffff_ffff <= 0xffff_ffff_ffff_ffff * 0xffff_ffff_ffff_ffff) by (nonlinear_arith)
                requires
                    i <= 0xffff_ffff_ffff_ffff,
            ;
        }
        let s = &streams[i];
        pings.extend_from_slice(s.pings.as_slice());
        down = down + s.download_bytes as u128;
        up = up + s.upload_bytes as u128;
        match s.download_time {
            Some(t) => {
                if t > down_time {
                    down_time = t;
                }
            },
            None => {},
        }
        match s.upload_time {
            Some(t) => {
                if t > up_time {
                    up_time = t;
                }
            },
            None => {},
        }
        i += 1;
    }
    assert(streams@.take(i as int) =~= streams@);
    let whole = if down > u64::MAX as u128 {
        None
    } else {
        speed(down as u64, down_time)
    };
    RunResult {
        ping_median: median(&pings),
        download_speed: match middle_speed(streams) {
            Some(v) => Some(v),
            None => whole,
        },
        upload_speed: if up > u64::MAX as u128 {
            None
        } else {
            speed(up as u64, up_time)
        },
    }
}

} // verus!
