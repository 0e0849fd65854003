//! Per-channel histograms of rendered RGBA8 frames.

use vstd::prelude::*;

verus! {

/// Number of bins of one channel.
pub const BINS: usize = 256;

/// Number of whole RGBA pixels in a byte buffer; trailing bytes that do not
/// make up a pixel are not counted.
pub open spec fn pixel_count(rgba: Seq<u8>) -> nat {
    (rgba.len() / 4) as nat
}

/// How many of the first `n` pixels of `rgba` hold `value` in channel
/// `channel` (0 red, 1 green, 2 blue, 3 alpha).
pub open spec fn channel_count(rgba: Seq<u8>, channel: int, value: int, n: nat) -> nat
    decreases n,
{
    if n == 0 {
        0
    } else {
        let rest = channel_count(rgba, channel, value, (n - 1) as nat);
        if rgba[4 * (n - 1) + channel] == value {
            rest + 1
        } else {
            rest
        }
    }
}

/// Sum of the first `n` bins.
pub open spec fn bin_sum(bins: Seq<u32>, n: nat) -> nat
    decreases n,
{
    if n == 0 {
        0
    } else {
        bin_sum(bins, (n - 1) as nat) + bins[n - 1] as nat
    }
}

/// `bins` is the histogram of channel `channel` over all pixels of `rgba`.
pub open spec fn is_channel_histogram(bins: Seq<u32>, rgba: Seq<u8>, channel: int) -> bool {
    &&& bins.len() == BINS
    &&& forall|v: int|
        0 <= v < BINS ==> #[trigger] bins[v] == channel_count(rgba, channel, v, pixel_count(rgba))
}

/// A value cannot occur in more pixels than were looked at.
pub proof fn lemma_channel_count_bounded(rgba: Seq<u8>, channel: int, value: int, n: nat)
    ensures
        channel_count(rgba, channel, value, n) <= n,
    decreases n,
{
    if n > 0 {
        lemma_channel_count_bounded(rgba, channel, value, (n - 1) as nat);
    }
}

/// Sum over the values below `k` of how often each occurs in channel
/// `channel` of the first `n` pixels.
pub open spec fn count_sum(rgba: Seq<u8>, channel: int, n: nat, k: nat) -> nat
    decreases k,
{
    if k == 0 {
        0
    } else {
        count_sum(rgba, channel, n, (k - 1) as nat) + channel_count(
            rgba,
            channel,
            (k - 1) as int,
            n,
        )
    }
}

/// One more pixel raises the sum of the counts below `k` by one where its
/// value lies below `k`, and leaves it where it does not.
proof fn lemma_count_sum_step(rgba: Seq<u8>, channel: int, n: nat, k: nat)
    requires
        n > 0,
    ensures
        count_sum(rgba, channel, n, k) == count_sum(rgba, channel, (n - 1) as nat, k) + if rgba[4
            * (n - 1) + channel] < k {
            1nat
        } else {
            0nat
        },
    decreases k,
{
    if k > 0 {
        lemma_count_sum_step(rgba, channel, n, (k - 1) as nat);
    }
}

/// Every pixel is counted under exactly one value: over all 256 values the
/// counts of the first `n` pixels add up to `n`.
pub proof fn lemma_count_sum_total(rgba: Seq<u8>, channel: int, n: nat)
    ensures
        count_sum(rgba, channel, n, BINS as nat) == n,
    decreases n,
{
    if n == 0 {
        lemma_count_sum_none(rgba, channel, BINS as nat);
    } else {
        lemma_count_sum_total(rgba, channel, (n - 1) as nat);
        lemma_count_sum_step(rgba, channel, n, BINS as nat);
    }
}

/// No pixels, no counts.
proof fn lemma_count_sum_none(rgba: Seq<u8>, channel: int, k: nat)
    ensures
        count_sum(rgba, channel, 0, k) == 0,
    decreases k,
{
    if k > 0 {
        lemma_count_sum_none(rgba, channel, (k - 1) as nat);
    }
}

/// Bins that hold the counts add up to the sum of the counts.
proof fn lemma_bin_sum_is_count_sum(bins: Seq<u32>, rgba: Seq<u8>, channel: int, n: nat, k: nat)
    requires
        k <= bins.len(),
        forall|v: int| 0 <= v < k ==> #[trigger] bins[v] == channel_count(rgba, channel, v, n),
    ensures
        bin_sum(bins, k) == count_sum(rgba, channel, n, k),
    decreases k,
{
    if k > 0 {
        lemma_bin_sum_is_count_sum(bins, rgba, channel, n, (k - 1) as nat);
    }
}

/// The bins of a channel's histogram add up to the number of pixels of the
/// frame, whatever the frame holds.
pub proof fn lemma_histogram_sums_to_pixels(bins: Seq<u32>, rgba: Seq<u8>, channel: int)
    requires
        is_channel_histogram(bins, rgba, channel),
    ensures
        bin_sum(bins, BINS as nat) == pixel_count(rgba),
{
    lemma_bin_sum_is_count_sum(bins, rgba, channel, pixel_count(rgba), BINS as nat);
    lemma_count_sum_total(rgba, channel, pixel_count(rgba));
}

/// The bins of each channel's histogram of a frame of `width` by `height`
/// RGBA8 pixels add up to `width * height`.
pub proof fn lemma_histogram_of_frame(
    bins: Seq<u32>,
    rgba: Seq<u8>,
    channel: int,
    width: nat,
    height: nat,
)
    requires
        rgba.len() == 4 * width * height,
        is_channel_histogram(bins, rgba, channel),
    ensures
        bin_sum(bins, BINS as nat) == width * height,
{
    lemma_histogram_sums_to_pixels(bins, rgba, channel);
    assert(4 * width * height == 4 * (width * height)) by (nonlinear_arith);
}

/// Counts, for each of red, green and blue, how many pixels of `rgba` hold
/// each of the 256 possible values. Alpha is ignored, and so are trailing
/// bytes that do not make up a whole pixel.
pub fn calculate_histogram(rgba: &[u8]) -> (hist: [[u32; 256]; 3])
    requires
        pixel_count(rgba@) <= u32::MAX,
    ensures
        forall|c: int| 0 <= c < 3 ==> is_channel_histogram(#[trigger] hist[c]@, rgba@, c),
        forall|c: int| 0 <= c < 3 ==> bin_sum(#[trigger] hist[c]@, BINS as nat) == pixel_count(rgba@),
{
    let mut red: [u32; 256] = [0u32; 256];
    let mut green: [u32; 256] = [0u32; 256];
    let mut blue: [u32; 256] = [0u32; 256];
    let n: usize = rgba.len() / 4;
    let mut i: usize = 0;
    while i < n
        invariant
            i <= n,
            n == pixel_count(rgba@),
            4 * n <= rgba@.len() <= usize::MAX,
            n <= u32::MAX,
            forall|v: int| 0 <= v < BINS ==> #[trigger] red[v] == channel_count(rgba@, 0, v, i as nat),
            forall|v: int| 0 <= v < BINS ==> #[trigger] green[v] == channel_count(rgba@, 1, v, i as nat),
            forall|v: int| 0 <= v < BINS ==> #[trigger] blue[v] == channel_count(rgba@, 2, v, i as nat),
        decreases n - i,
    {
        let r: usize = rgba[4 * i] as usize;
        let g: usize = rgba[4 * i + 1] as usize;
        let b: usize = rgba[4 * i + 2] as usize;
        proof {
            lemma_channel_count_bounded(rgba@, 0, r as int, i as nat);
            lemma_channel_count_bounded(rgba@, 1, g as int, i as nat);
            lemma_channel_count_bounded(rgba@, 2, b as int, i as nat);
        }
        red[r] = red[r] + 1;
        green[g] = green[g] + 1;
        blue[b] = blue[b] + 1;
        i = i + 1;
    }
    let hist: [[u32; 256]; 3] = [red, green, blue];
    proof {
        assert(hist[0] == red && hist[1] == green && hist[2] == blue);
        lemma_histogram_sums_to_pixels(red@, rgba@, 0);
        lemma_histogram_sums_to_pixels(green@, rgba@, 1);
        lemma_histogram_sums_to_pixels(blue@, rgba@, 2);
    }
    hist
}

/// The three channel histograms of one rendered frame, red first.
#[derive(Debug, Clone)]
pub struct Histogram {
    pub data: [[u32; 256]; 3],
}

impl Histogram {
    /// The histogram of a rendered RGBA8 frame.
    pub fn from_rgba(rgba: &[u8]) -> (h: Histogram)
        requires
            pixel_count(rgba@) <= u32::MAX,
        ensures
            forall|c: int| 0 <= c < 3 ==> is_channel_histogram(#[trigger] h.data[c]@, rgba@, c),
    {
        Histogram { data: calculate_histogram(rgba) }
    }

    /// The count in bin `value` of channel `channel`.
    pub open spec fn bin(&self, channel: int, value: int) -> u32 {
        self.data[channel][value]
    }

    /// `m` is the fullest bin's count over all three channels.
    pub open spec fn is_max_count(&self, m: u32) -> bool {
        &&& forall|c: int, v: int| 0 <= c < 3 && 0 <= v < BINS ==> #[trigger] self.bin(c, v) <= m
        &&& exists|c: int, v: int| 0 <= c < 3 && 0 <= v < BINS && #[trigger] self.bin(c, v) == m
    }

    /// The count of the fullest bin over all three channels: the value that
    /// a plot of the histogram scales its bars by.
    pub fn max_count(&self) -> (m: u32)
        ensures
            self.is_max_count(m),
    {
        let mut m: u32 = self.data[0][0];
        let ghost mut at_c: int = 0;
        let ghost mut at_v: int = 0;
        let mut c: usize = 0;
        while c < 3
            invariant
                c <= 3,
                0 <= at_c < 3 && 0 <= at_v < BINS && self.bin(at_c, at_v) == m,
                forall|cc: int, v: int| 0 <= cc < c && 0 <= v < BINS ==> #[trigger] self.bin(cc, v) <= m,
            decreases 3 - c,
        {
            let mut v: usize = 0;
            while v < 256
                invariant
                    c < 3,
                    v <= 256,
                    0 <= at_c < 3 && 0 <= at_v < BINS && self.bin(at_c, at_v) == m,
                    forall|cc: int, w: int| 0 <= cc < c && 0 <= w < BINS ==> #[trigger] self.bin(cc, w) <= m,
                    forall|w: int| 0 <= w < v ==> #[trigger] self.bin(c as int, w) <= m,
                decreases 256 - v,
            {
                if self.data[c][v] > m {
                    m = self.data[c][v];
                    proof {
                        at_c = c as int;
                        at_v = v as int;
                    }
                }
                v = v + 1;
            }
            c = c + 1;
        }
        m
    }

    /// True when no pixel was counted, so that there is nothing to plot.
    pub fn is_blank(&self) -> (blank: bool)
        ensures
            blank <==> forall|c: int, v: int| 0 <= c < 3 && 0 <= v < BINS ==> #[trigger] self.bin(c, v) == 0,
    {
        let m = self.max_count();
        m == 0
    }
}

} // verus!
