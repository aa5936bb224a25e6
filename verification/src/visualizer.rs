//! The integer bookkeeping of the spectrum visualizer: whether a full FFT
//! window fits in the samples, and the range of frequency bins that a bar
//! covers. The spectrum itself is computed in floating point by the caller.

use vstd::prelude::*;

verus! {

/// Samples in one FFT window.
pub const FFT_SIZE: usize = 2048;

/// Whether a window of `FFT_SIZE` samples from `start` is taken from
/// `len` samples; where it is not, the visualizer shows zeroed bars.
pub fn has_full_window(start: usize, len: usize) -> (r: bool)
    requires
        start + FFT_SIZE <= usize::MAX,
    ensures
        r == (start + FFT_SIZE < len),
{
    start + FFT_SIZE < len
}

/// The bins `lo..hi` that a bar takes its peak from, given the bins
/// `lo_raw` and `hi_raw` where its frequency band starts and ends: the end
/// is cut at the number of bins, and the range keeps at least one bin.
pub fn band_range(lo_raw: usize, hi_raw: usize, n_bins: usize) -> (r: (usize, usize))
    requires
        lo_raw < usize::MAX,
    ensures
        r.0 == lo_raw,
        r.1 == (if hi_raw <= n_bins {
            if hi_raw > lo_raw {
                hi_raw
            } else {
                (lo_raw + 1) as usize
            }
        } else {
            if n_bins > lo_raw {
                n_bins
            } else {
                (lo_raw + 1) as usize
            }
        }),
        r.0 < r.1,
        lo_raw < n_bins ==> r.1 <= n_bins,
{
    let hi = if hi_raw < n_bins {
        hi_raw
    } else {
        n_bins
    };
    let hi = if hi > lo_raw + 1 {
        hi
    } else {
        lo_raw + 1
    };
    (lo_raw, hi)
}

} // verus!
