use crate::error::AnalysisError;
use core::cmp::Ordering;
use vstd::laws_cmp::{group_laws_cmp, obeys_cmp, obeys_cmp_partial_ord, obeys_partial_cmp_spec_properties};
use vstd::std_specs::cmp::PartialOrdSpec;
use vstd::prelude::*;

verus! {

/// One open/high/low/close summary of a window of samples.
#[derive(Debug, Clone, Copy, PartialEq)]
pub struct Candle<T> {
    /// Ordinal of the window the candle summarises.
    pub t: usize,
    pub open: T,
    pub high: T,
    pub low: T,
    pub close: T,
}

/// `a` compares strictly greater than `b`.
pub open spec fn greater<T: PartialOrd>(a: T, b: T) -> bool {
    a.partial_cmp_spec(&b) == Some(Ordering::Greater)
}

/// `a` compares strictly less than `b`.
pub open spec fn less<T: PartialOrd>(a: T, b: T) -> bool {
    a.partial_cmp_spec(&b) == Some(Ordering::Less)
}

/// The comparisons of `T` are consistent and transitive, so that a largest and a
/// smallest element of a window are well defined.
pub open spec fn well_ordered<T: PartialOrd>() -> bool {
    T::obeys_partial_cmp_spec() && obeys_partial_cmp_spec_properties::<T>()
}

/// `v` is an element of `s` and no element of `s` is greater.
pub open spec fn is_maximum<T: PartialOrd>(s: Seq<T>, v: T) -> bool {
    s.contains(v) && forall|j: int| 0 <= j < s.len() ==> !greater(#[trigger] s[j], v)
}

/// `v` is an element of `s` and no element of `s` is less.
pub open spec fn is_minimum<T: PartialOrd>(s: Seq<T>, v: T) -> bool {
    s.contains(v) && forall|j: int| 0 <= j < s.len() ==> !less(#[trigger] s[j], v)
}

/// The `i`-th window of `size` consecutive samples of `data`.
pub open spec fn window<T>(data: Seq<T>, size: int, i: int) -> Seq<T> {
    data.subrange(i * size, i * size + size)
}

/// `c` summarises the non-empty window `w`, the `i`-th one: it opens on the first
/// sample, closes on the last, and its high and low are samples of the window which,
/// for a consistent order, are its largest and smallest.
pub open spec fn summarises<T: PartialOrd>(c: Candle<T>, w: Seq<T>, i: int) -> bool {
    &&& c.t == i
    &&& c.open == w[0]
    &&& c.close == w[w.len() - 1]
    &&& w.contains(c.high)
    &&& w.contains(c.low)
    &&& well_ordered::<T>() ==> is_maximum(w, c.high) && is_minimum(w, c.low)
}

/// The candles of `data` in windows of `size` samples: one per full window, in
/// order; a trailing partial window is dropped.
pub open spec fn candles_of<T: PartialOrd>(c: Seq<Candle<T>>, data: Seq<T>, size: int) -> bool {
    &&& c.len() == (data.len() as int) / size
    &&& forall|i: int| 0 <= i < c.len() ==> summarises(#[trigger] c[i], window(data, size, i), i)
}

/// Largest and smallest sample of `data[start..end]`, scanning from the left and
/// keeping the first of equal candidates.
fn window_extremes<T: Copy + PartialOrd>(data: &[T], start: usize, end: usize) -> (r: (T, T))
    requires
        start < end <= data@.len(),
    ensures
        data@.subrange(start as int, end as int).contains(r.0),
        data@.subrange(start as int, end as int).contains(r.1),
        well_ordered::<T>() ==> is_maximum(data@.subrange(start as int, end as int), r.0)
            && is_minimum(data@.subrange(start as int, end as int), r.1),
{
    let ghost w = data@.subrange(start as int, end as int);
    let mut hi = data[start];
    let mut lo = data[start];
    let mut k: usize = start + 1;
    assert(w.subrange(0, 1)[0] == hi);
    proof {
        if well_ordered::<T>() {
            reveal(obeys_partial_cmp_spec_properties);
            assert(!greater(hi, hi) && !less(hi, hi));
        }
    }
    while k < end
        invariant
            w == data@.subrange(start as int, end as int),
            start < k <= end <= data@.len(),
            w.subrange(0, k - start).contains(hi),
            w.subrange(0, k - start).contains(lo),
            well_ordered::<T>() ==> is_maximum(w.subrange(0, k - start), hi)
                && is_minimum(w.subrange(0, k - start), lo),
        decreases end - k,
    {
        let x = data[k];
        let ghost old_hi = hi;
        let ghost old_lo = lo;
        let ghost before = w.subrange(0, k - start);
        let ghost after = w.subrange(0, k + 1 - start);
        assert(after == before.push(x));
        if x > hi {
            hi = x;
        }
        if x < lo {
            lo = x;
        }
        proof {
            assert(after[k - start] == x);
            assert forall|v: T| before.contains(v) implies after.contains(v) by {
                let j = choose|j: int| 0 <= j < before.len() && before[j] == v;
                assert(after[j] == v);
            }
            assert(after.contains(hi));
            assert(after.contains(lo));
            if well_ordered::<T>() {
                reveal(obeys_partial_cmp_spec_properties);
                assert forall|j: int| 0 <= j < after.len() implies !greater(#[trigger] after[j], hi) by {
                    if j < before.len() {
                        assert(after[j] == before[j]);
                    }
                }
                assert forall|j: int| 0 <= j < after.len() implies !less(#[trigger] after[j], lo) by {
                    if j < before.len() {
                        assert(after[j] == before[j]);
                    }
                }
            }
        }
        k = k + 1;
    }
    assert(w.subrange(0, end - start) == w);
    (hi, lo)
}

/// Summarises `data` in candles of `num_per_candle` consecutive samples each.
/// Candle `i` covers samples `i * num_per_candle ..` up to the next window; a
/// trailing window with fewer samples is dropped. A chunk size of zero is refused.
pub fn vec_to_candles<T: Copy + PartialOrd>(data: &[T], num_per_candle: usize) -> (r: Result<
    Vec<Candle<T>>,
    AnalysisError,
>)
    ensures
        num_per_candle == 0 ==> r == Err::<Vec<Candle<T>>, AnalysisError>(
            AnalysisError::InvalidChunkSize,
        ),
        num_per_candle > 0 ==> (r matches Ok(c) && candles_of(c@, data@, num_per_candle as int)),
{
    if num_per_candle == 0 {
        return Err(AnalysisError::InvalidChunkSize);
    }
    let size = num_per_candle;
    let mut out: Vec<Candle<T>> = Vec::new();
    let mut start: usize = 0;
    let mut i: usize = 0;
    while size <= data.len() - start
        invariant
            size > 0,
            start == i * size,
            i <= start <= data@.len(),
            out@.len() == i,
            forall|j: int|
                0 <= j < i ==> summarises(#[trigger] out@[j], window(data@, size as int, j), j),
        decreases data@.len() - start,
    {
        let end = start + size;
        let (hi, lo) = window_extremes(data, start, end);
        let candle = Candle { t: i, open: data[start], high: hi, low: lo, close: data[end - 1] };
        proof {
            let w = window(data@, size as int, i as int);
            assert(w == data@.subrange(start as int, end as int));
            assert(w[0] == data@[start as int]);
            assert(w[w.len() - 1] == data@[end - 1]);
        }
        out.push(candle);
        assert((i + 1) * size == i * size + size) by (nonlinear_arith);
        start = end;
        i = i + 1;
    }
    assert((data@.len() as int) / (size as int) == i as int) by (nonlinear_arith)
        requires
            size > 0,
            start == i * size,
            i <= start <= data@.len(),
            data@.len() - start < size,
    ;
    Ok(out)
}

/// How many samples one candle summarises in the time-series view.
#[derive(Debug, Clone, Copy, PartialEq, Eq, Structural)]
pub enum CandleLengths {
    Weekly,
    Monthly,
    Yearly,
}

/// Number of samples in a candle of the given length.
pub open spec fn candle_length_samples(c: CandleLengths) -> usize {
    match c {
        CandleLengths::Weekly => 7,
        CandleLengths::Monthly => 30,
        CandleLengths::Yearly => 365,
    }
}

impl CandleLengths {
    /// Every candle length, in the order the user interface lists them.
    pub const ALL: [CandleLengths; 3] = [
        CandleLengths::Weekly,
        CandleLengths::Monthly,
        CandleLengths::Yearly,
    ];

    /// The name shown for this candle length.
    pub fn name(&self) -> (r: &'static str)
        ensures
            r@ == candle_length_name(*self),
    {
        match self {
            CandleLengths::Weekly => "Weekly",
            CandleLengths::Monthly => "Monthly",
            CandleLengths::Yearly => "Yearly",
        }
    }
}

/// The display name of a candle length.
pub open spec fn candle_length_name(c: CandleLengths) -> Seq<char> {
    match c {
        CandleLengths::Weekly => "Weekly"@,
        CandleLengths::Monthly => "Monthly"@,
        CandleLengths::Yearly => "Yearly"@,
    }
}

impl Default for CandleLengths {
    fn default() -> (r: CandleLengths)
        ensures
            r == CandleLengths::Weekly,
    {
        CandleLengths::Weekly
    }
}

impl From<CandleLengths> for usize {
    fn from(value: CandleLengths) -> (r: usize)
        ensures
            r == candle_length_samples(value),
    {
        match value {
            CandleLengths::Weekly => 7,
            CandleLengths::Monthly => 30,
            CandleLengths::Yearly => 365,
        }
    }
}

impl vstd::std_specs::convert::FromSpecImpl<CandleLengths> for usize {
    open spec fn obeys_from_spec() -> bool {
        true
    }

    open spec fn from_spec(v: CandleLengths) -> usize {
        candle_length_samples(v)
    }
}

/// Every candle of a consistently ordered sample type lies within its range: its
/// open and close are neither above its high nor below its low.
pub proof fn candle_brackets_open_and_close<T: PartialOrd>(c: Candle<T>, w: Seq<T>, i: int)
    requires
        well_ordered::<T>(),
        w.len() > 0,
        summarises(c, w, i),
    ensures
        !greater(c.open, c.high),
        !greater(c.close, c.high),
        !less(c.open, c.low),
        !less(c.close, c.low),
{
    assert(c.open == w[0]);
    assert(c.close == w[w.len() - 1]);
}

/// Signed 64-bit samples are consistently ordered, so the largest and smallest sample
/// of each of their windows is fixed by the candles' contract.
pub proof fn integer_samples_are_well_ordered()
    ensures
        well_ordered::<i64>(),
{
    broadcast use group_laws_cmp;
    assert(obeys_cmp::<i64>());
    reveal(obeys_cmp_partial_ord);
}

} // verus!
