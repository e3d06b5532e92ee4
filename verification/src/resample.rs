//! Resampling in two passes. The library decides which source samples lie
//! under the kernel of each destination sample and where; the arithmetic on
//! the samples is the caller's, handed in as `blend`.

use crate::addressing::{
    lemma_all_pixels_held, lemma_read_after_write_pixel, lemma_write_keeps_other_pixels,
};
use crate::endian::{field_value, le_value, lemma_le_value_pair};
use crate::error::Ktx2Error;
use crate::filter::{clamp, FilterType};
use crate::pixel::{pixel_offset, Pixel};
use crate::texture::{payload_len, TextureKtx2, TextureView};
use crate::vk_format::VkFormat;
use vstd::prelude::*;

verus! {

/// One source sample that contributes to a destination sample: its index in
/// the source row or column, and where it lies under the kernel, as the
/// fraction `num / den` of the kernel's unit.
#[derive(Clone, Copy, Debug, PartialEq, Eq, Structural)]
pub struct Tap {
    pub source: u32,
    pub num: i128,
    pub den: u64,
}

/// The longer of the two lengths: the kernel is stretched over the coarser
/// of the two images.
pub open spec fn scale(src_len: int, dst_len: int) -> int {
    if src_len > dst_len {
        src_len
    } else {
        dst_len
    }
}

/// The centre of destination sample `out` in the source, as a multiple of
/// `1 / (2 * dst_len)`: the sample's centre `out + 1/2` times the ratio
/// `src_len / dst_len`.
pub open spec fn center(out: int, src_len: int) -> int {
    (2 * out + 1) * src_len
}

/// How far the kernel reaches in the source, as a multiple of
/// `1 / (2 * dst_len)`: `support` times the ratio, or times one where the
/// image grows.
pub open spec fn reach(src_len: int, dst_len: int, support: int) -> int {
    2 * support * scale(src_len, dst_len)
}

/// The centre less the reach, rounded down.
pub open spec fn lower_edge(out: int, src_len: int, dst_len: int, support: int) -> int {
    (center(out, src_len) - reach(src_len, dst_len, support)) / (2 * dst_len)
}

/// The centre plus the reach, rounded up.
pub open spec fn upper_edge(out: int, src_len: int, dst_len: int, support: int) -> int {
    (center(out, src_len) + reach(src_len, dst_len, support) + 2 * dst_len - 1) / (2 * dst_len)
}

/// `a` held between `min` and `max`.
pub open spec fn held(a: int, min: int, max: int) -> int {
    if a < min {
        min
    } else if a > max {
        max
    } else {
        a
    }
}

/// The first source sample under the kernel: the lower edge, held inside
/// the source.
pub open spec fn window_start(out: int, src_len: int, dst_len: int, support: int) -> int {
    held(lower_edge(out, src_len, dst_len, support), 0, src_len - 1)
}

/// One past the last source sample under the kernel: the upper edge, held
/// inside the source and behind the first sample.
pub open spec fn window_end(out: int, src_len: int, dst_len: int, support: int) -> int {
    held(
        upper_edge(out, src_len, dst_len, support),
        window_start(out, src_len, dst_len, support) + 1,
        src_len,
    )
}

/// Where source sample `source` lies under the kernel of destination
/// sample `out`: the distance of its centre from the centre of `out`,
/// measured in the kernel's unit, which is a sample of the coarser image.
pub open spec fn tap_of(source: int, out: int, src_len: int, dst_len: int) -> Tap {
    Tap {
        source: source as u32,
        num: ((2 * source + 1) * dst_len - center(out, src_len)) as i128,
        den: (2 * scale(src_len, dst_len)) as u64,
    }
}

/// The source samples under the kernel of destination sample `out`, in
/// rising order.
pub open spec fn taps_of(out: int, src_len: int, dst_len: int, support: int) -> Seq<Tap> {
    let start = window_start(out, src_len, dst_len, support);
    let end = window_end(out, src_len, dst_len, support);
    Seq::new((end - start) as nat, |k: int| tap_of(start + k, out, src_len, dst_len))
}

/// The window of a destination sample holds a sample, and lies inside the
/// source.
pub proof fn lemma_window_bounds(out: int, src_len: int, dst_len: int, support: int)
    requires
        src_len > 0,
    ensures
        0 <= window_start(out, src_len, dst_len, support) < window_end(
            out,
            src_len,
            dst_len,
            support,
        ) <= src_len,
{
}

/// With a kernel that reaches no further than its own sample, and as many
/// destination samples as source samples, the window of a destination
/// sample is the source sample of the same index.
pub proof fn lemma_window_of_same_length(out: int, len: int)
    requires
        0 <= out < len,
    ensures
        window_start(out, len, len, 0) == out,
        window_end(out, len, len, 0) == out + 1,
{
    let c = center(out, len);
    assert(c == 2 * len * out + len) by (nonlinear_arith)
        requires
            c == (2 * out + 1) * len,
    ;
    assert((2 * len * out + len) / (2 * len) == out) by (nonlinear_arith)
        requires
            0 <= out,
            0 < len,
    ;
    assert((2 * len * out + len + 2 * len - 1) / (2 * len) == out + 1) by (nonlinear_arith)
        requires
            0 <= out,
            0 < len,
    ;
    assert(2 * 0 * scale(len, len) == 0) by (nonlinear_arith);
}

/// Every sample of a window lies under the kernel or within one sample of
/// its edge: measured in halves of a destination sample, its centre is no
/// further than the reach and half a sample away from the centre of the
/// kernel. In the kernel's unit that is no more than the support and one.
pub proof fn lemma_tap_in_reach(source: int, out: int, src_len: int, dst_len: int, support: int)
    requires
        0 <= out < dst_len,
        0 < src_len,
        0 <= support,
        window_start(out, src_len, dst_len, support) <= source < window_end(
            out,
            src_len,
            dst_len,
            support,
        ),
    ensures
        ({
            let distance = (2 * source + 1) * dst_len - center(out, src_len);
            let bound = reach(src_len, dst_len, support) + dst_len;
            &&& -bound < distance <= bound
            &&& bound <= (support + 1) * (2 * scale(src_len, dst_len))
        }),
{
    let middle = center(out, src_len);
    let stretch = reach(src_len, dst_len, support);
    let den = 2 * dst_len;
    let longer = scale(src_len, dst_len);
    let lower = lower_edge(out, src_len, dst_len, support);
    let upper = upper_edge(out, src_len, dst_len, support);
    let start = window_start(out, src_len, dst_len, support);
    let end = window_end(out, src_len, dst_len, support);
    assert(0 <= middle < den * src_len) by (nonlinear_arith)
        requires
            middle == (2 * out + 1) * src_len,
            den == 2 * dst_len,
            0 <= out < dst_len,
            0 < src_len,
    ;
    assert(0 <= stretch) by (nonlinear_arith)
        requires
            stretch == 2 * support * longer,
            0 <= support,
            0 < longer,
    ;
    assert(lower * den <= middle - stretch < lower * den + den) by (nonlinear_arith)
        requires
            lower == (middle - stretch) / den,
            den > 0,
    ;
    assert(upper * den - den < middle + stretch <= upper * den) by (nonlinear_arith)
        requires
            upper == (middle + stretch + den - 1) / den,
            den > 0,
    ;
    assert(lower < src_len) by (nonlinear_arith)
        requires
            lower * den <= middle - stretch,
            middle < den * src_len,
            0 <= stretch,
            den > 0,
    ;
    assert(source >= lower);
    assert(source * den >= lower * den) by (nonlinear_arith)
        requires
            source >= lower,
            den > 0,
    ;
    assert((2 * source + 1) * dst_len == source * den + dst_len) by (nonlinear_arith)
        requires
            den == 2 * dst_len,
    ;
    if end <= upper {
        assert(source * den <= upper * den - den) by (nonlinear_arith)
            requires
                source <= upper - 1,
                den > 0,
        ;
    } else {
        assert(source == start);
        if start == lower {
        } else {
            assert(source == 0);
            assert(source * den == 0) by (nonlinear_arith)
                requires
                    source == 0,
            ;
        }
    }
    assert(stretch + dst_len <= (support + 1) * (2 * longer)) by (nonlinear_arith)
        requires
            stretch == 2 * support * longer,
            dst_len <= longer,
            0 <= support,
            0 < longer,
    ;
}

/// The centre and the reach of a destination sample, and twice the
/// destination length, widened so that their sums fit.
fn window_terms(out: u32, src_len: u32, dst_len: u32, support: u32) -> (terms: (u128, u128, u128))
    requires
        out < dst_len,
    ensures
        terms.0 == center(out as int, src_len as int),
        terms.1 == reach(src_len as int, dst_len as int, support as int),
        terms.2 == 2 * dst_len,
        terms.0 <= 0x2_0000_0000 * 0x1_0000_0000,
        terms.1 <= 0x2_0000_0000 * 0x1_0000_0000,
{
    let longer: u128 = if src_len > dst_len {
        src_len as u128
    } else {
        dst_len as u128
    };
    let twice: u128 = 2 * (out as u128) + 1;
    assert(twice * src_len <= 0x2_0000_0000 * 0x1_0000_0000) by (nonlinear_arith)
        requires
            twice <= 0x2_0000_0000,
            src_len <= 0x1_0000_0000,
    ;
    let doubled: u128 = 2 * (support as u128);
    assert(doubled * longer <= 0x2_0000_0000 * 0x1_0000_0000) by (nonlinear_arith)
        requires
            doubled <= 0x2_0000_0000,
            longer <= 0x1_0000_0000,
    ;
    (twice * (src_len as u128), doubled * longer, 2 * (dst_len as u128))
}

/// The lower edge of a window where it lies between zero and the largest
/// 32-bit number, else the nearer of the two.
fn lower_edge_held(out: u32, src_len: u32, dst_len: u32, support: u32) -> (edge: u32)
    requires
        out < dst_len,
    ensures
        edge == held(
            lower_edge(out as int, src_len as int, dst_len as int, support as int),
            0,
            u32::MAX as int,
        ),
{
    let (middle, stretch, den): (u128, u128, u128) = window_terms(out, src_len, dst_len, support);
    if middle < stretch {
        assert((middle - stretch) / (den as int) < 0) by (nonlinear_arith)
            requires
                middle - stretch < 0,
                den > 0,
        ;
        0
    } else {
        let edge: u128 = (middle - stretch) / den;
        if edge > u32::MAX as u128 {
            u32::MAX
        } else {
            edge as u32
        }
    }
}

/// The upper edge of a window where it lies below the largest 32-bit
/// number, else that number.
fn upper_edge_held(out: u32, src_len: u32, dst_len: u32, support: u32) -> (edge: u32)
    requires
        out < dst_len,
    ensures
        edge == held(
            upper_edge(out as int, src_len as int, dst_len as int, support as int),
            0,
            u32::MAX as int,
        ),
{
    let (middle, stretch, den): (u128, u128, u128) = window_terms(out, src_len, dst_len, support);
    let edge: u128 = (middle + stretch + den - 1) / den;
    if edge > u32::MAX as u128 {
        u32::MAX
    } else {
        edge as u32
    }
}

/// The window of source samples that lie under the kernel of destination
/// sample `out`, from the first to one past the last.
pub fn sample_window(out: u32, src_len: u32, dst_len: u32, support: u32) -> (window: (u32, u32))
    requires
        out < dst_len,
        src_len > 0,
    ensures
        window.0 == window_start(out as int, src_len as int, dst_len as int, support as int),
        window.1 == window_end(out as int, src_len as int, dst_len as int, support as int),
        window.0 < window.1 <= src_len,
{
    let left: u32 = clamp(lower_edge_held(out, src_len, dst_len, support), 0, src_len - 1);
    let right: u32 = clamp(upper_edge_held(out, src_len, dst_len, support), left + 1, src_len);
    (left, right)
}

/// The source samples under the kernel of destination sample `out`, each
/// with its place under the kernel. No sample lies further from the centre
/// of the kernel than the support and one, in the kernel's unit.
pub fn sample_taps(out: u32, src_len: u32, dst_len: u32, support: u32) -> (taps: Vec<Tap>)
    requires
        out < dst_len,
        src_len > 0,
    ensures
        taps@ == taps_of(out as int, src_len as int, dst_len as int, support as int),
        taps@.len() >= 1,
        forall|k: int|
            0 <= k < taps@.len() ==> {
                &&& taps@[k].den == 2 * scale(src_len as int, dst_len as int)
                &&& -(support + 1) * taps@[k].den < #[trigger] taps@[k].num <= (support + 1)
                    * taps@[k].den
            },
{
    let (left, right): (u32, u32) = sample_window(out, src_len, dst_len, support);
    let longer: u64 = if src_len > dst_len {
        src_len as u64
    } else {
        dst_len as u64
    };
    let twice: i128 = 2 * (out as i128) + 1;
    assert(twice * src_len <= 0x2_0000_0000 * 0x1_0000_0000 && twice * src_len >= 0)
        by (nonlinear_arith)
        requires
            0 <= twice <= 0x2_0000_0000,
            0 <= src_len <= 0x1_0000_0000,
    ;
    let middle: i128 = twice * (src_len as i128);
    let mut taps: Vec<Tap> = Vec::new();
    let mut source: u32 = left;
    while source < right
        invariant
            left <= source <= right,
            right <= src_len,
            out < dst_len,
            middle == center(out as int, src_len as int),
            0 <= middle <= 0x2_0000_0000 * 0x1_0000_0000,
            longer == scale(src_len as int, dst_len as int),
            taps@ == Seq::new(
                (source - left) as nat,
                |k: int| tap_of(left + k, out as int, src_len as int, dst_len as int),
            ),
        decreases right - source,
    {
        let odd: i128 = 2 * (source as i128) + 1;
        assert(0 <= odd * dst_len <= 0x2_0000_0000 * 0x1_0000_0000) by (nonlinear_arith)
            requires
                0 <= odd <= 0x2_0000_0000,
                0 <= dst_len <= 0x1_0000_0000,
        ;
        taps.push(Tap { source, num: odd * (dst_len as i128) - middle, den: 2 * longer });
        assert(taps@ =~= Seq::new(
            (source + 1 - left) as nat,
            |k: int| tap_of(left + k, out as int, src_len as int, dst_len as int),
        ));
        source += 1;
    }
    proof {
        assert forall|k: int| 0 <= k < taps@.len() implies {
            &&& taps@[k].den == 2 * scale(src_len as int, dst_len as int)
            &&& -(support + 1) * taps@[k].den < #[trigger] taps@[k].num <= (support + 1)
                * taps@[k].den
        } by {
            let tap = taps@[k];
            let widest = 2 * scale(src_len as int, dst_len as int);
            let distance = (2 * (left + k) + 1) * dst_len - center(out as int, src_len as int);
            assert(tap == tap_of(left + k, out as int, src_len as int, dst_len as int));
            lemma_tap_in_reach(
                left + k,
                out as int,
                src_len as int,
                dst_len as int,
                support as int,
            );
            assert((support + 1) * widest <= 0x1_0000_0000 * 0x2_0000_0000) by (nonlinear_arith)
                requires
                    0 <= support + 1 <= 0x1_0000_0000,
                    0 <= widest <= 0x2_0000_0000,
            ;
            assert(tap.den == widest);
            assert(tap.num == distance);
            assert((support + 1) * tap.den == (support + 1) * widest);
            assert(-(support + 1) * tap.den == -((support + 1) * widest)) by (nonlinear_arith)
                requires
                    tap.den == widest,
            ;
        }
    }
    taps
}

/// The direction of a resampling pass: along the columns, which changes the
/// height, or along the rows, which changes the width.
#[derive(Clone, Copy, Debug, PartialEq, Eq, Structural)]
pub enum Axis {
    Vertical,
    Horizontal,
}

/// The coordinates `(x, y)` of the pixel that is number `along` in the
/// direction of the pass and number `across` in the other direction.
pub open spec fn place(axis: Axis, along: u32, across: u32) -> (u32, u32) {
    match axis {
        Axis::Vertical => (across, along),
        Axis::Horizontal => (along, across),
    }
}

impl TextureView {
    /// The number of pixels in the direction of a pass.
    pub open spec fn along(self, axis: Axis) -> u32 {
        match axis {
            Axis::Vertical => self.header.pixel_height,
            Axis::Horizontal => self.header.pixel_width,
        }
    }

    /// The number of pixels in the other direction.
    pub open spec fn across(self, axis: Axis) -> u32 {
        match axis {
            Axis::Vertical => self.header.pixel_width,
            Axis::Horizontal => self.header.pixel_height,
        }
    }
}

/// The samples of the column or row `across` of an image from number
/// `start` up to `end`, in the direction of the pass.
pub open spec fn line_samples(
    image: TextureView,
    axis: Axis,
    across: u32,
    start: int,
    end: int,
) -> Seq<u16> {
    Seq::new(
        (end - start) as nat,
        |k: int|
            {
                let at = place(axis, (start + k) as u32, across);
                image.sample(at.0, at.1)
            },
    )
}

/// `value` is what `blend` gave for these taps and samples.
pub open spec fn blended<F: Fn(FilterType, &Vec<Tap>, &Vec<u16>) -> u16>(
    blend: &F,
    filter: FilterType,
    taps: Seq<Tap>,
    samples: Seq<u16>,
    value: u16,
) -> bool {
    exists|t: Vec<Tap>, s: Vec<u16>|
        t@ == taps && s@ == samples && #[trigger] call_ensures(*blend, (filter, &t, &s), value)
}

/// `blend` can be called with any taps and as many samples, if there is at
/// least one.
pub open spec fn accepts<F: Fn(FilterType, &Vec<Tap>, &Vec<u16>) -> u16>(
    blend: &F,
    filter: FilterType,
) -> bool {
    forall|t: Vec<Tap>, s: Vec<u16>|
        t@.len() == s@.len() && t@.len() >= 1 ==> #[trigger] call_requires(
            *blend,
            (filter, &t, &s),
        )
}

/// Why a pass cannot be made, if it cannot: only an image of one channel of
/// half-precision numbers can be resampled, and an image without a pixel
/// in the direction of the pass has nothing to make pixels from.
pub open spec fn resample_failure(image: TextureView, axis: Axis, new_len: u32) -> Option<
    Ktx2Error,
> {
    if image.header.vk_format != VkFormat::R16_SFLOAT {
        Some(Ktx2Error::UnsupportedFormat)
    } else if image.along(axis) == 0 && new_len > 0 && image.across(axis) > 0 {
        Some(Ktx2Error::InvalidPixelAccess)
    } else {
        None
    }
}

/// The pixel of `out` that is number `along` in the direction of the pass
/// and number `across` in the other is what `blend` gave for the source
/// samples under its kernel.
pub open spec fn resampled_pixel<F: Fn(FilterType, &Vec<Tap>, &Vec<u16>) -> u16>(
    image: TextureView,
    out: TextureView,
    axis: Axis,
    filter: FilterType,
    blend: &F,
    along: u32,
    across: u32,
) -> bool {
    let src_len = image.along(axis) as int;
    let dst_len = out.along(axis) as int;
    let support = filter.reach() as int;
    let at = place(axis, along, across);
    blended(
        blend,
        filter,
        taps_of(along as int, src_len, dst_len, support),
        line_samples(
            image,
            axis,
            across,
            window_start(along as int, src_len, dst_len, support),
            window_end(along as int, src_len, dst_len, support),
        ),
        out.sample(at.0, at.1),
    )
}

/// `out` is `image` after a pass that gives it `new_len` pixels in the
/// direction of the pass: a well-formed container of the same format, as
/// long as `image` in the other direction, each of whose pixels is what
/// `blend` gave for the source samples under its kernel.
pub open spec fn resampled<F: Fn(FilterType, &Vec<Tap>, &Vec<u16>) -> u16>(
    image: TextureView,
    out: TextureView,
    axis: Axis,
    new_len: u32,
    filter: FilterType,
    blend: &F,
) -> bool {
    &&& out.well_formed()
    &&& out.header.vk_format == VkFormat::R16_SFLOAT
    &&& out.along(axis) == new_len
    &&& out.across(axis) == image.across(axis)
    &&& forall|along: u32, across: u32|
        along < new_len && across < image.across(axis) ==> #[trigger] resampled_pixel(
            image,
            out,
            axis,
            filter,
            blend,
            along,
            across,
        )
}

/// The number of payload bytes of `image` after a pass.
pub open spec fn resampled_len(image: TextureView, axis: Axis, new_len: u32) -> nat {
    match axis {
        Axis::Vertical => payload_len(image.header.pixel_width, new_len, VkFormat::R16_SFLOAT),
        Axis::Horizontal => payload_len(new_len, image.header.pixel_height, VkFormat::R16_SFLOAT),
    }
}

/// The samples of the column or row `across` of an image from number `left`
/// up to `right`.
pub fn gather(image: &TextureKtx2, axis: Axis, across: u32, left: u32, right: u32) -> (samples: Vec<
    u16,
>)
    requires
        image@.header.vk_format == VkFormat::R16_SFLOAT,
        image@.holds_all_pixels(),
        left <= right <= image@.along(axis),
        across < image@.across(axis),
    ensures
        samples@ == line_samples(image@, axis, across, left as int, right as int),
{
    let mut samples: Vec<u16> = Vec::new();
    let mut along: u32 = left;
    while along < right
        invariant
            left <= along <= right,
            right <= image@.along(axis),
            across < image@.across(axis),
            image@.header.vk_format == VkFormat::R16_SFLOAT,
            image@.holds_all_pixels(),
            samples@ == line_samples(image@, axis, across, left as int, along as int),
        decreases right - along,
    {
        let (x, y): (u32, u32) = match axis {
            Axis::Vertical => (across, along),
            Axis::Horizontal => (along, across),
        };
        proof {
            lemma_all_pixels_held(image@, x, y);
        }
        match image.read_pixel(x, y) {
            Ok(Pixel::R16_SFLOAT(bits)) => {
                samples.push(bits);
            },
            _ => {
                assert(false);
            },
        }
        assert(samples@ =~= line_samples(image@, axis, across, left as int, along + 1));
        along += 1;
    }
    samples
}

/// One pass of resampling: the image with `new_len` pixels in the direction
/// of `axis`. For each pixel of the result, `blend` is given the source
/// samples under the kernel, each with its place under the kernel, and
/// gives the bits of the pixel.
pub fn sample_along<F>(
    image: &TextureKtx2,
    new_len: u32,
    axis: Axis,
    filter: FilterType,
    blend: &F,
) -> (result: Result<TextureKtx2, Ktx2Error>) where F: Fn(FilterType, &Vec<Tap>, &Vec<u16>) -> u16
    requires
        accepts(blend, filter),
        resample_failure(image@, axis, new_len) is None ==> image@.holds_all_pixels()
            && resampled_len(image@, axis, new_len) <= isize::MAX,
    ensures
        match resample_failure(image@, axis, new_len) {
            Some(error) => result matches Err(e) && e == error,
            None => result matches Ok(out) && resampled(
                image@,
                out@,
                axis,
                new_len,
                filter,
                blend,
            ),
        },
{
    let width: u32 = image.header.pixel_width;
    let height: u32 = image.header.pixel_height;
    let format: VkFormat = image.header.vk_format;
    match format {
        VkFormat::R16_SFLOAT => {},
        _ => {
            return Err(Ktx2Error::UnsupportedFormat);
        },
    }
    let (src_len, cross_len): (u32, u32) = match axis {
        Axis::Vertical => (height, width),
        Axis::Horizontal => (width, height),
    };
    if src_len == 0 && new_len > 0 && cross_len > 0 {
        return Err(Ktx2Error::InvalidPixelAccess);
    }
    let mut out: TextureKtx2 = match axis {
        Axis::Vertical => TextureKtx2::new(width, new_len, format),
        Axis::Horizontal => TextureKtx2::new(new_len, height, format),
    };
    if cross_len == 0 || new_len == 0 {
        return Ok(out);
    }
    let support: u32 = filter.support();
    let mut along: u32 = 0;
    while along < new_len
        invariant
            along <= new_len,
            src_len > 0,
            src_len == image@.along(axis),
            cross_len == image@.across(axis),
            support == filter.reach(),
            accepts(blend, filter),
            image@.header.vk_format == VkFormat::R16_SFLOAT,
            image@.holds_all_pixels(),
            out.well_formed(),
            out@.header.vk_format == VkFormat::R16_SFLOAT,
            out@.along(axis) == new_len,
            out@.across(axis) == cross_len,
            forall|a: u32, c: u32|
                a < along && c < cross_len ==> #[trigger] resampled_pixel(
                    image@,
                    out@,
                    axis,
                    filter,
                    blend,
                    a,
                    c,
                ),
        decreases new_len - along,
    {
        let (left, right): (u32, u32) = sample_window(along, src_len, new_len, support);
        let taps: Vec<Tap> = sample_taps(along, src_len, new_len, support);
        let mut across: u32 = 0;
        while across < cross_len
            invariant
                along < new_len,
                across <= cross_len,
                src_len > 0,
                src_len == image@.along(axis),
                cross_len == image@.across(axis),
                support == filter.reach(),
                accepts(blend, filter),
                image@.header.vk_format == VkFormat::R16_SFLOAT,
                image@.holds_all_pixels(),
                left == window_start(along as int, src_len as int, new_len as int, support as int),
                right == window_end(along as int, src_len as int, new_len as int, support as int),
                left < right <= src_len,
                taps@ == taps_of(along as int, src_len as int, new_len as int, support as int),
                out.well_formed(),
                out@.header.vk_format == VkFormat::R16_SFLOAT,
                out@.along(axis) == new_len,
                out@.across(axis) == cross_len,
                forall|a: u32, c: u32|
                    (a < along && c < cross_len) || (a == along && c < across)
                        ==> #[trigger] resampled_pixel(image@, out@, axis, filter, blend, a, c),
            decreases cross_len - across,
        {
            let samples: Vec<u16> = gather(image, axis, across, left, right);
            let value: u16 = blend(filter, &taps, &samples);
            let (x, y): (u32, u32) = match axis {
                Axis::Vertical => (across, along),
                Axis::Horizontal => (along, across),
            };
            let pixel = Pixel::R16_SFLOAT(value);
            let ghost before = out@;
            proof {
                lemma_all_pixels_held(before, x, y);
            }
            let _ = out.write_pixel(x, y, pixel);
            proof {
                lemma_read_after_write_pixel(before, x, y, pixel);
                assert(out@.sample(x, y) == value);
                assert forall|a: u32, c: u32|
                    (a < along && c < cross_len) || (a == along && c < across + 1)
                    implies #[trigger] resampled_pixel(
                    image@,
                    out@,
                    axis,
                    filter,
                    blend,
                    a,
                    c,
                ) by {
                    let at = place(axis, a, c);
                    if a == along && c == across {
                        assert(at == (x, y));
                    } else {
                        assert(resampled_pixel(image@, before, axis, filter, blend, a, c));
                        lemma_all_pixels_held(before, at.0, at.1);
                        lemma_write_keeps_other_pixels(before, x, y, pixel, at.0, at.1);
                        assert(out@.sample(at.0, at.1) == before.sample(at.0, at.1));
                    }
                }
            }
            across += 1;
        }
        along += 1;
    }
    Ok(out)
}

/// `bits` is the sample at some place of the image.
pub open spec fn holds_sample(image: TextureView, bits: u16) -> bool {
    exists|x: u32, y: u32|
        x < image.header.pixel_width && y < image.header.pixel_height && #[trigger] image.sample(
            x,
            y,
        ) == bits
}

/// `blend` hands each sample that the image holds back as it is, where the
/// sample stands alone under the centre of the kernel. Nothing is asked of
/// `blend` on other numbers.
pub open spec fn keeps_samples_of<F: Fn(FilterType, &Vec<Tap>, &Vec<u16>) -> u16>(
    blend: &F,
    filter: FilterType,
    image: TextureView,
) -> bool {
    forall|t: Vec<Tap>, s: Vec<u16>, value: u16|
        #[trigger] call_ensures(*blend, (filter, &t, &s), value) && t@.len() == 1 && t@[0].num
            == 0 && s@.len() == 1 && holds_sample(image, s@[0]) ==> value == s@[0]
}

/// Two images of half-precision numbers with the same width, the same
/// height and the same number at every place, whose payloads hold their
/// pixels and nothing else, have the same payload.
pub proof fn lemma_same_samples_same_payload(one: TextureView, other: TextureView)
    requires
        one.header.vk_format == VkFormat::R16_SFLOAT,
        other.header.vk_format == VkFormat::R16_SFLOAT,
        one.header.pixel_width == other.header.pixel_width,
        one.header.pixel_height == other.header.pixel_height,
        one.level_images.len() == payload_len(
            one.header.pixel_width,
            one.header.pixel_height,
            VkFormat::R16_SFLOAT,
        ),
        other.level_images.len() == one.level_images.len(),
        forall|x: u32, y: u32|
            x < one.header.pixel_width && y < one.header.pixel_height ==> #[trigger] one.sample(
                x,
                y,
            ) == other.sample(x, y),
    ensures
        one.level_images == other.level_images,
{
    let width = one.header.pixel_width as int;
    let height = one.header.pixel_height as int;
    assert(one.level_images.len() == (width * height) * 2);
    assert forall|k: int| 0 <= k < one.level_images.len() implies one.level_images[k]
        == other.level_images[k] by {
        let pixel = k / 2;
        assert(width > 0) by (nonlinear_arith)
            requires
                0 <= k < (width * height) * 2,
                width >= 0,
        ;
        let x = pixel % width;
        let y = pixel / width;
        assert(pixel == x + width * y && 0 <= x < width && 0 <= y) by (nonlinear_arith)
            requires
                x == pixel % width,
                y == pixel / width,
                width > 0,
                pixel >= 0,
        ;
        assert(y < height) by (nonlinear_arith)
            requires
                pixel == x + width * y,
                pixel < width * height,
                0 <= x,
                width > 0,
        ;
        let at = 2 * pixel;
        assert(pixel_offset(x as u32, y as u32, one.header.pixel_width, VkFormat::R16_SFLOAT)
            == at);
        let mine = one.level_images.subrange(at, at + 2);
        let theirs = other.level_images.subrange(at, at + 2);
        lemma_le_value_pair(mine);
        lemma_le_value_pair(theirs);
        assert(one.sample(x as u32, y as u32) == other.sample(x as u32, y as u32));
        assert(field_value(one.level_images, at, 2) == le_value(mine));
        assert(field_value(other.level_images, at, 2) == le_value(theirs));
        assert(mine[0] == theirs[0] && mine[1] == theirs[1]);
        assert(one.level_images[k] == mine[k - at]);
        assert(other.level_images[k] == theirs[k - at]);
    }
    assert(one.level_images =~= other.level_images);
}

/// A pass that keeps the number of pixels, with the kernel of the nearest
/// neighbour and a `blend` that hands each sample of the image back as it
/// is where it stands alone, gives the image that it was given.
pub proof fn lemma_same_size_nearest<F: Fn(FilterType, &Vec<Tap>, &Vec<u16>) -> u16>(
    image: TextureView,
    out: TextureView,
    axis: Axis,
    blend: &F,
)
    requires
        image.well_formed(),
        image.header.vk_format == VkFormat::R16_SFLOAT,
        resampled(image, out, axis, image.along(axis), FilterType::Nearest, blend),
        keeps_samples_of(blend, FilterType::Nearest, image),
    ensures
        out == image,
{
    let len = image.along(axis);
    assert(out.header.pixel_width == image.header.pixel_width);
    assert(out.header.pixel_height == image.header.pixel_height);
    assert forall|x: u32, y: u32|
        x < out.header.pixel_width && y < out.header.pixel_height implies #[trigger] out.sample(
        x,
        y,
    ) == image.sample(x, y) by {
        let (along, across): (u32, u32) = match axis {
            Axis::Vertical => (y, x),
            Axis::Horizontal => (x, y),
        };
        assert(place(axis, along, across) == (x, y));
        assert(resampled_pixel(image, out, axis, FilterType::Nearest, blend, along, across));
        lemma_window_of_same_length(along as int, len as int);
        let samples = line_samples(image, axis, across, along as int, along + 1);
        let taps = taps_of(along as int, len as int, len as int, 0);
        assert(samples.len() == 1);
        assert(samples[0] == image.sample(x, y));
        assert(holds_sample(image, samples[0]));
        assert(taps.len() == 1);
        assert(taps[0].num == 0);
    }
    lemma_same_samples_same_payload(out, image);
}

/// Why an image cannot be resized, if it cannot: the pass along the columns
/// fails, or the pass along the rows fails on what the first gave.
pub open spec fn resize_failure(image: TextureView, nwidth: u32, nheight: u32) -> Option<
    Ktx2Error,
> {
    match resample_failure(image, Axis::Vertical, nheight) {
        Some(error) => Some(error),
        None => if image.header.pixel_width == 0 && nwidth > 0 && nheight > 0 {
            Some(Ktx2Error::InvalidPixelAccess)
        } else {
            None
        },
    }
}

impl TextureKtx2 {
    /// The image with `new_height` rows: one pass along the columns.
    pub fn vertical_sample<F>(
        image: &TextureKtx2,
        new_height: u32,
        filter: FilterType,
        blend: &F,
    ) -> (result: Result<TextureKtx2, Ktx2Error>) where
        F: Fn(FilterType, &Vec<Tap>, &Vec<u16>) -> u16,

        requires
            accepts(blend, filter),
            resample_failure(image@, Axis::Vertical, new_height) is None
                ==> image@.holds_all_pixels() && resampled_len(
                image@,
                Axis::Vertical,
                new_height,
            ) <= isize::MAX,
        ensures
            match resample_failure(image@, Axis::Vertical, new_height) {
                Some(error) => result matches Err(e) && e == error,
                None => result matches Ok(out) && resampled(
                    image@,
                    out@,
                    Axis::Vertical,
                    new_height,
                    filter,
                    blend,
                ),
            },
    {
        sample_along(image, new_height, Axis::Vertical, filter, blend)
    }

    /// The image with `new_width` columns: one pass along the rows.
    pub fn horizontal_sample<F>(
        image: &TextureKtx2,
        new_width: u32,
        filter: FilterType,
        blend: &F,
    ) -> (result: Result<TextureKtx2, Ktx2Error>) where
        F: Fn(FilterType, &Vec<Tap>, &Vec<u16>) -> u16,

        requires
            accepts(blend, filter),
            resample_failure(image@, Axis::Horizontal, new_width) is None
                ==> image@.holds_all_pixels() && resampled_len(
                image@,
                Axis::Horizontal,
                new_width,
            ) <= isize::MAX,
        ensures
            match resample_failure(image@, Axis::Horizontal, new_width) {
                Some(error) => result matches Err(e) && e == error,
                None => result matches Ok(out) && resampled(
                    image@,
                    out@,
                    Axis::Horizontal,
                    new_width,
                    filter,
                    blend,
                ),
            },
    {
        sample_along(image, new_width, Axis::Horizontal, filter, blend)
    }

    /// The image with `nwidth` columns and `nheight` rows: a pass along the
    /// columns, then a pass along the rows of what the first gave. With the
    /// kernel of the nearest neighbour, the size that the image has, and a
    /// `blend` that hands each sample of the image back as it is where it
    /// stands alone, a well-formed image comes back as it is.
    pub fn resize<F>(
        image: &TextureKtx2,
        nwidth: u32,
        nheight: u32,
        filter: FilterType,
        blend: &F,
    ) -> (result: Result<TextureKtx2, Ktx2Error>) where
        F: Fn(FilterType, &Vec<Tap>, &Vec<u16>) -> u16,

        requires
            accepts(blend, filter),
            resize_failure(image@, nwidth, nheight) is None ==> image@.holds_all_pixels()
                && payload_len(image@.header.pixel_width, nheight, VkFormat::R16_SFLOAT)
                <= isize::MAX && payload_len(nwidth, nheight, VkFormat::R16_SFLOAT) <= isize::MAX,
        ensures
            match resize_failure(image@, nwidth, nheight) {
                Some(error) => result matches Err(e) && e == error,
                None => result matches Ok(out) && exists|between: TextureView|
                    #[trigger] resampled(
                        image@,
                        between,
                        Axis::Vertical,
                        nheight,
                        filter,
                        blend,
                    ) && resampled(between, out@, Axis::Horizontal, nwidth, filter, blend),
            },
            resize_failure(image@, nwidth, nheight) is None && image.well_formed() && nwidth
                == image@.header.pixel_width && nheight == image@.header.pixel_height && filter
                == FilterType::Nearest && keeps_samples_of(blend, filter, image@) ==> (result matches Ok(
                out,
            ) && out@ == image@),
    {
        match image.header.vk_format {
            VkFormat::R16_SFLOAT => {},
            _ => {
                return Err(Ktx2Error::UnsupportedFormat);
            },
        }
        if image.header.pixel_height == 0 && nheight > 0 && image.header.pixel_width > 0 {
            return Err(Ktx2Error::InvalidPixelAccess);
        }
        if image.header.pixel_width == 0 && nwidth > 0 && nheight > 0 {
            return Err(Ktx2Error::InvalidPixelAccess);
        }
        let between: TextureKtx2 = match TextureKtx2::vertical_sample(
            image,
            nheight,
            filter,
            blend,
        ) {
            Ok(between) => between,
            Err(error) => {
                return Err(error);
            },
        };
        let result = TextureKtx2::horizontal_sample(&between, nwidth, filter, blend);
        proof {
            if image.well_formed() && nwidth == image@.header.pixel_width && nheight
                == image@.header.pixel_height && filter == FilterType::Nearest
                && keeps_samples_of(blend, filter, image@) {
                lemma_same_size_nearest(image@, between@, Axis::Vertical, blend);
                if result is Ok {
                    lemma_same_size_nearest(
                        between@,
                        result->Ok_0@,
                        Axis::Horizontal,
                        blend,
                    );
                }
            }
        }
        result
    }
}

} // verus!
