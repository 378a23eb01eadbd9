//! Pixel layouts: from interleaved channels to one plane per channel.

use vstd::prelude::*;
use vstd::arithmetic::div_mod::lemma_fundamental_div_mod;

verus! {

/// Where channel `c` of pixel `i` stands in a buffer of `pixels` pixels
/// that holds one plane per channel.
pub open spec fn planar_at(pixels: int, c: int, i: int) -> int {
    c * pixels + i
}

/// Where channel `c` of pixel `i` stands in a buffer that holds the
/// `channels` values of each pixel side by side.
pub open spec fn interleaved_at(channels: int, c: int, i: int) -> int {
    i * channels + c
}

/// `planar` holds the values of `interleaved`, one plane per channel.
pub open spec fn is_planar_of<T>(planar: Seq<T>, interleaved: Seq<T>, channels: int) -> bool {
    let pixels = interleaved.len() as int / channels;
    &&& planar.len() == interleaved.len()
    &&& forall|c: int, i: int|
        0 <= c < channels && 0 <= i < pixels ==> planar[#[trigger] planar_at(pixels, c, i)]
            == interleaved[interleaved_at(channels, c, i)]
}

/// Both layouts number the values of a buffer without gaps.
proof fn lemma_positions_in_range(channels: int, pixels: int, c: int, i: int)
    requires
        0 <= c < channels,
        0 <= i < pixels,
    ensures
        0 <= planar_at(pixels, c, i) < channels * pixels,
        0 <= interleaved_at(channels, c, i) < channels * pixels,
        planar_at(pixels, c, i) + 1 <= (c + 1) * pixels,
        c * pixels <= planar_at(pixels, c, i),
{
    assert(0 <= c * pixels && (c + 1) * pixels <= channels * pixels && (c + 1) * pixels == c
        * pixels + pixels) by (nonlinear_arith)
        requires
            0 <= c < channels,
            0 <= pixels,
    ;
    assert(0 <= i * channels && (i + 1) * channels <= channels * pixels && (i + 1) * channels == i
        * channels + channels) by (nonlinear_arith)
        requires
            0 <= i < pixels,
            0 <= channels,
    ;
}

/// Rearranges a buffer that holds the `channels` values of each pixel side
/// by side into one that holds one plane per channel: first channel 0 of
/// every pixel, then channel 1 of every pixel, and so on.
///
/// There is no such arrangement, and `None` is returned, where `channels`
/// is zero or the buffer does not hold a whole number of pixels.
pub fn planar_from_interleaved<T: Copy>(interleaved: &Vec<T>, channels: usize) -> (planar: Option<
    Vec<T>,
>)
    ensures
        planar is Some <==> channels > 0 && interleaved.len() as int % channels as int == 0,
        planar matches Some(p) ==> is_planar_of(p@, interleaved@, channels as int),
{
    if channels == 0 || interleaved.len() % channels != 0 {
        return None;
    }
    let pixels: usize = interleaved.len() / channels;
    proof {
        lemma_fundamental_div_mod(interleaved.len() as int, channels as int);
    }
    let mut planar: Vec<T> = Vec::new();
    let mut c: usize = 0;
    while c < channels
        invariant
            0 <= c <= channels,
            interleaved.len() == channels * pixels,
            planar.len() == c * pixels,
            forall|d: int, i: int|
                0 <= d < c && 0 <= i < pixels ==> planar[#[trigger] planar_at(pixels as int, d, i)]
                    == interleaved[interleaved_at(channels as int, d, i)],
        decreases channels - c,
    {
        let mut i: usize = 0;
        while i < pixels
            invariant
                0 <= c < channels,
                0 <= i <= pixels,
                interleaved.len() == channels * pixels,
                planar.len() == c * pixels + i,
                forall|d: int, j: int|
                    0 <= d < c && 0 <= j < pixels ==> planar[#[trigger] planar_at(
                        pixels as int,
                        d,
                        j,
                    )] == interleaved[interleaved_at(channels as int, d, j)],
                forall|j: int|
                    0 <= j < i ==> planar[#[trigger] planar_at(pixels as int, c as int, j)]
                        == interleaved[interleaved_at(channels as int, c as int, j)],
            decreases pixels - i,
        {
            proof {
                lemma_positions_in_range(channels as int, pixels as int, c as int, i as int);
            }
            let ghost before = planar@;
            let value: T = interleaved[i * channels + c];
            planar.push(value);
            proof {
                assert forall|d: int, j: int| 0 <= d < c && 0 <= j < pixels implies planar[#[trigger] planar_at(
                    pixels as int,
                    d,
                    j,
                )] == interleaved[interleaved_at(channels as int, d, j)] by {
                    lemma_positions_in_range(c as int, pixels as int, d, j);
                    assert(planar[planar_at(pixels as int, d, j)] == before[planar_at(
                        pixels as int,
                        d,
                        j,
                    )]);
                }
                assert forall|j: int| 0 <= j < i + 1 implies planar[#[trigger] planar_at(
                    pixels as int,
                    c as int,
                    j,
                )] == interleaved[interleaved_at(channels as int, c as int, j)] by {
                    if j < i {
                        assert(planar[planar_at(pixels as int, c as int, j)] == before[planar_at(
                            pixels as int,
                            c as int,
                            j,
                        )]);
                    }
                }
            }
            i = i + 1;
        }
        proof {
            assert((c + 1) * pixels == c * pixels + pixels) by (nonlinear_arith);
        }
        c = c + 1;
    }
    proof {
        assert(interleaved.len() as int / channels as int == pixels);
    }
    Some(planar)
}

/// What `planar_from_interleaved` returns is the only planar arrangement
/// of a buffer.
pub proof fn lemma_planar_is_unique<T>(a: Seq<T>, b: Seq<T>, interleaved: Seq<T>, channels: int)
    requires
        channels > 0,
        interleaved.len() as int % channels == 0,
        is_planar_of(a, interleaved, channels),
        is_planar_of(b, interleaved, channels),
    ensures
        a == b,
{
    let pixels = interleaved.len() as int / channels;
    lemma_fundamental_div_mod(interleaved.len() as int, channels);
    assert forall|p: int| 0 <= p < a.len() implies a[p] == b[p] by {
        lemma_fundamental_div_mod(p, pixels);
        if pixels > 0 {
            let c = p / pixels;
            let i = p % pixels;
            assert(pixels * c == c * pixels) by (nonlinear_arith);
            assert(planar_at(pixels, c, i) == p);
            assert(0 <= c) by (nonlinear_arith)
                requires
                    0 <= p,
                    pixels > 0,
                    c == p / pixels,
            ;
            if c >= channels {
                assert(c * pixels >= channels * pixels) by (nonlinear_arith)
                    requires
                        c >= channels,
                        pixels > 0,
                ;
            }
            assert(a[planar_at(pixels, c, i)] == interleaved[interleaved_at(channels, c, i)]);
            assert(b[planar_at(pixels, c, i)] == interleaved[interleaved_at(channels, c, i)]);
        } else {
            assert(channels * pixels == 0) by (nonlinear_arith)
                requires
                    pixels == 0,
            ;
        }
    }
    assert(a =~= b);
}

/// The number of bytes that one pixel of an RGB frame takes.
pub const RGB_BYTES: i32 = 3;

/// The number of bytes in one row of an RGB frame that is `width` pixels
/// wide, if there is such a frame.
pub open spec fn rgb_row_len_spec(width: int) -> Option<int> {
    if 0 <= width && width * 3 <= i32::MAX {
        Some(width * 3)
    } else {
        None
    }
}

/// The number of bytes in an RGB frame of `width` by `height` pixels, if
/// there is such a frame.
pub open spec fn rgb_frame_len_spec(width: int, height: int) -> Option<int> {
    if 0 <= width && 0 <= height && width * height * 3 <= usize::MAX {
        Some(width * height * 3)
    } else {
        None
    }
}

/// The number of bytes in one row of an RGB frame that is `width` pixels
/// wide. There is none for a negative width, nor where the number does not
/// fit.
pub fn rgb_row_len(width: i32) -> (len: Option<i32>)
    ensures
        match len {
            Some(n) => rgb_row_len_spec(width as int) == Some(n as int),
            None => rgb_row_len_spec(width as int) is None,
        },
{
    if width < 0 || width > i32::MAX / RGB_BYTES {
        None
    } else {
        Some(width * RGB_BYTES)
    }
}

/// The number of bytes in an RGB frame of `width` by `height` pixels.
/// There is none for a negative width or height, nor where the number does
/// not fit.
pub fn rgb_frame_len(width: i32, height: i32) -> (len: Option<usize>)
    ensures
        match len {
            Some(n) => rgb_frame_len_spec(width as int, height as int) == Some(n as int),
            None => rgb_frame_len_spec(width as int, height as int) is None,
        },
{
    if width < 0 || height < 0 {
        return None;
    }
    let w: u64 = width as u64;
    let h: u64 = height as u64;
    assert(w * h <= 0x7fff_ffff * 0x7fff_ffff) by (nonlinear_arith)
        requires
            0 <= w <= 0x7fff_ffff,
            0 <= h <= 0x7fff_ffff,
    ;
    let total: u64 = w * h * 3;
    if total <= usize::MAX as u64 {
        Some(total as usize)
    } else {
        None
    }
}

/// Tells whether a buffer of `byte_len` bytes holds exactly one RGB frame
/// of `width` by `height` pixels.
pub fn holds_rgb_frame(width: i32, height: i32, byte_len: usize) -> (whole: bool)
    ensures
        whole == (rgb_frame_len_spec(width as int, height as int) == Some(byte_len as int)),
{
    match rgb_frame_len(width, height) {
        Some(n) => n == byte_len,
        None => false,
    }
}

} // verus!
