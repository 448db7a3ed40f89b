//! The low-pass filter of the FFT page, on the bins of a discrete Fourier transform.
//! A bin's frequency is its distance from the DC bin, counted the short way round, so
//! bin `i` and bin `n - i` carry the same frequency.
use vstd::prelude::*;

verus! {

/// The frequency index of bin `index` among `bin_count` bins.
pub open spec fn spec_mirrored_index(bin_count: int, index: int) -> int {
    if index <= bin_count / 2 {
        index
    } else {
        bin_count - index
    }
}

/// Whether the filter with this cutoff keeps bin `index`.
pub open spec fn spec_keeps_bin(bin_count: int, index: int, cutoff_bin: int) -> bool {
    spec_mirrored_index(bin_count, index) <= cutoff_bin
}

/// The bins with every bin above the cutoff replaced by `zero`.
pub open spec fn spec_lowpass<T>(bins: Seq<T>, zero: T, cutoff_bin: int) -> Seq<T> {
    Seq::new(
        bins.len(),
        |i: int|
            if spec_keeps_bin(bins.len() as int, i, cutoff_bin) {
                bins[i]
            } else {
                zero
            },
    )
}

/// The highest cutoff the slider reaches: one below half the number of bins, and 0
/// when there are fewer than four bins.
pub open spec fn spec_max_cutoff(bin_count: int) -> int {
    if bin_count / 2 >= 1 {
        bin_count / 2 - 1
    } else {
        0
    }
}

pub fn lowpass_max_cutoff(bin_count: usize) -> (cutoff: usize)
    ensures
        cutoff == spec_max_cutoff(bin_count as int),
{
    let half_len = bin_count / 2;
    half_len.saturating_sub(1)
}

pub fn mirrored_index(bin_count: usize, index: usize) -> (mirrored: usize)
    requires
        index < bin_count,
    ensures
        mirrored == spec_mirrored_index(bin_count as int, index as int),
{
    if index <= bin_count / 2 {
        index
    } else {
        bin_count - index
    }
}

/// Keeps the bins whose frequency index is at most `cutoff_bin` and sets the others to `zero`.
pub fn apply_lowpass_cutoff_bin<T: Copy>(bins: &[T], zero: T, cutoff_bin: usize) -> (filtered: Vec<
    T,
>)
    ensures
        filtered@ == spec_lowpass(bins@, zero, cutoff_bin as int),
{
    let n = bins.len();
    let mut filtered: Vec<T> = Vec::new();
    let mut index: usize = 0;
    while index < n
        invariant
            n == bins@.len(),
            index <= n,
            filtered@.len() == index,
            forall|j: int|
                0 <= j < index ==> filtered@[j] == (if spec_keeps_bin(n as int, j, cutoff_bin as int) {
                    bins@[j]
                } else {
                    zero
                }),
        decreases n - index,
    {
        if mirrored_index(n, index) <= cutoff_bin {
            filtered.push(bins[index]);
        } else {
            filtered.push(zero);
        }
        index = index + 1;
    }
    assert(filtered@ =~= spec_lowpass(bins@, zero, cutoff_bin as int));
    filtered
}

/// The DC bin is always kept, and bins `i` and `n - i` are kept or removed together.
pub proof fn lemma_lowpass_keeps_dc_and_symmetry(bin_count: int, index: int, cutoff_bin: int)
    requires
        0 < index < bin_count,
        0 <= cutoff_bin,
    ensures
        spec_keeps_bin(bin_count, 0, cutoff_bin),
        spec_keeps_bin(bin_count, index, cutoff_bin) == spec_keeps_bin(
            bin_count,
            bin_count - index,
            cutoff_bin,
        ),
{
}

/// Raising the cutoff never removes a bin that a lower cutoff keeps.
pub proof fn lemma_lowpass_monotone(bin_count: int, index: int, low: int, high: int)
    requires
        low <= high,
        spec_keeps_bin(bin_count, index, low),
    ensures
        spec_keeps_bin(bin_count, index, high),
{
}

/// Filtering keeps the number of bins, filtering twice is filtering once, and a cutoff
/// of half the bins or more keeps every bin.
pub proof fn lemma_lowpass_shape<T>(bins: Seq<T>, zero: T, cutoff_bin: int)
    ensures
        spec_lowpass(bins, zero, cutoff_bin).len() == bins.len(),
        spec_lowpass(spec_lowpass(bins, zero, cutoff_bin), zero, cutoff_bin) == spec_lowpass(
            bins,
            zero,
            cutoff_bin,
        ),
        cutoff_bin >= bins.len() / 2 ==> spec_lowpass(bins, zero, cutoff_bin) == bins,
{
    assert(spec_lowpass(spec_lowpass(bins, zero, cutoff_bin), zero, cutoff_bin) =~= spec_lowpass(
        bins,
        zero,
        cutoff_bin,
    ));
    if cutoff_bin >= bins.len() / 2 {
        assert(spec_lowpass(bins, zero, cutoff_bin) =~= bins);
    }
}

/// At the slider's highest cutoff, with at least two bins, exactly the bins at the
/// Nyquist end (frequency index half the number of bins) are removed.
pub proof fn lemma_max_cutoff_drops_nyquist(bin_count: int, index: int)
    requires
        2 <= bin_count,
        0 <= index < bin_count,
    ensures
        spec_keeps_bin(bin_count, index, spec_max_cutoff(bin_count)) <==> spec_mirrored_index(
            bin_count,
            index,
        ) < bin_count / 2,
{
}

} // verus!

verus! {

/// Every kept bin comes out unchanged and every removed bin comes out as `zero`, at the
/// same place.
pub proof fn lemma_lowpass_entries<T>(bins: Seq<T>, zero: T, cutoff_bin: int, index: int)
    requires
        0 <= index < bins.len(),
    ensures
        spec_keeps_bin(bins.len() as int, index, cutoff_bin) ==> spec_lowpass(
            bins,
            zero,
            cutoff_bin,
        )[index] == bins[index],
        !spec_keeps_bin(bins.len() as int, index, cutoff_bin) ==> spec_lowpass(
            bins,
            zero,
            cutoff_bin,
        )[index] == zero,
        spec_keeps_bin(bins.len() as int, index, cutoff_bin) <==> (index <= cutoff_bin || bins.len()
            - index <= cutoff_bin),
{
}

} // verus!
