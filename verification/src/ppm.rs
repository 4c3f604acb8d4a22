//! The plain-text image format: a header, then one line per pixel.

use vstd::prelude::*;

verus! {

/// The letter `P`, with which the format's mark begins.
pub const LETTER_P: u8 = 80;

/// The digit `0`; the other digits follow it.
pub const DIGIT_0: u8 = 48;

/// The space between two numbers on a line.
pub const SPACE: u8 = 32;

/// The end of a line.
pub const NEWLINE: u8 = 10;

/// The greatest value of a channel.
pub const MAX_CHANNEL: u8 = 255;

/// The character of a decimal digit.
pub open spec fn digit(d: nat) -> u8
    recommends
        d < 10,
{
    (DIGIT_0 + d) as u8
}

/// A number in decimal, without leading zeros.
pub open spec fn decimal(n: nat) -> Seq<u8>
    decreases n,
{
    if n < 10 {
        seq![digit(n)]
    } else {
        decimal(n / 10).push(digit(n % 10))
    }
}

/// The number that a string of decimal digits spells.
pub open spec fn value(digits: Seq<u8>) -> nat
    decreases digits.len(),
{
    if digits.len() == 0 {
        0
    } else {
        (value(digits.drop_last()) * 10 + (digits.last() - DIGIT_0)) as nat
    }
}

/// The header of an image, in three lines: the format's mark, which is the
/// letter `P` and the number 3; the width and the height; and the greatest
/// channel value.
pub open spec fn header_bytes(width: nat, height: nat) -> Seq<u8> {
    seq![LETTER_P] + decimal(3) + seq![NEWLINE] + decimal(width) + seq![SPACE] + decimal(height)
        + seq![NEWLINE] + decimal(MAX_CHANNEL as nat) + seq![NEWLINE]
}

/// The line of one pixel: its three channels, separated by spaces.
pub open spec fn pixel_bytes(pixel: (u8, u8, u8)) -> Seq<u8> {
    decimal(pixel.0 as nat) + seq![SPACE] + decimal(pixel.1 as nat) + seq![SPACE] + decimal(
        pixel.2 as nat,
    ) + seq![NEWLINE]
}

/// The lines of the given pixels, one after the other.
pub open spec fn body_bytes(pixels: Seq<(u8, u8, u8)>) -> Seq<u8>
    decreases pixels.len(),
{
    if pixels.len() == 0 {
        Seq::empty()
    } else {
        body_bytes(pixels.drop_last()) + pixel_bytes(pixels.last())
    }
}

/// A whole image: the header, then the pixels' lines.
pub open spec fn image_bytes(width: nat, height: nat, pixels: Seq<(u8, u8, u8)>) -> Seq<u8> {
    header_bytes(width, height) + body_bytes(pixels)
}

/// Appends `n` in decimal.
fn push_decimal(out: &mut Vec<u8>, n: usize)
    ensures
        final(out)@ == old(out)@ + decimal(n as nat),
    decreases n,
{
    if n >= 10 {
        push_decimal(out, n / 10);
    }
    let d: u8 = (n % 10) as u8;
    out.push(DIGIT_0 + d);
}

/// Appends the header of a `width` by `height` image.
fn push_header(out: &mut Vec<u8>, width: usize, height: usize)
    ensures
        final(out)@ == old(out)@ + header_bytes(width as nat, height as nat),
{
    out.push(LETTER_P);
    push_decimal(out, 3);
    out.push(NEWLINE);
    push_decimal(out, width);
    out.push(SPACE);
    push_decimal(out, height);
    out.push(NEWLINE);
    push_decimal(out, MAX_CHANNEL as usize);
    out.push(NEWLINE);
}

/// Appends the line of one pixel.
fn push_pixel(out: &mut Vec<u8>, pixel: (u8, u8, u8))
    ensures
        final(out)@ == old(out)@ + pixel_bytes(pixel),
{
    push_decimal(out, pixel.0 as usize);
    out.push(SPACE);
    push_decimal(out, pixel.1 as usize);
    out.push(SPACE);
    push_decimal(out, pixel.2 as usize);
    out.push(NEWLINE);
}

/// The header of a `width` by `height` image.
pub fn header(width: usize, height: usize) -> (out: Vec<u8>)
    ensures
        out@ == header_bytes(width as nat, height as nat),
{
    let mut out: Vec<u8> = Vec::new();
    push_header(&mut out, width, height);
    out
}

/// The line of the pixel with channels `r`, `g`, `b`.
pub fn pixel_line(r: u8, g: u8, b: u8) -> (out: Vec<u8>)
    ensures
        out@ == pixel_bytes((r, g, b)),
{
    let mut out: Vec<u8> = Vec::new();
    push_pixel(&mut out, (r, g, b));
    out
}

/// A whole image: the header, then the line of each pixel in the order given.
pub fn encode(width: usize, height: usize, pixels: &Vec<(u8, u8, u8)>) -> (out: Vec<u8>)
    ensures
        out@ == image_bytes(width as nat, height as nat, pixels@),
{
    let mut out: Vec<u8> = Vec::new();
    push_header(&mut out, width, height);
    let mut i: usize = 0;
    while i < pixels.len()
        invariant
            i <= pixels.len(),
            out@ == header_bytes(width as nat, height as nat) + body_bytes(pixels@.take(i as int)),
        decreases pixels.len() - i,
    {
        assert(pixels@.take(i + 1).drop_last() =~= pixels@.take(i as int));
        push_pixel(&mut out, pixels[i]);
        i += 1;
    }
    assert(pixels@.take(i as int) =~= pixels@);
    out
}

/// A number's decimal form is made of digits only, begins with a zero only
/// for the number zero, and spells the number.
pub proof fn lemma_decimal_spells(n: nat)
    ensures
        decimal(n).len() >= 1,
        forall|i: int| 0 <= i < decimal(n).len() ==> DIGIT_0 <= #[trigger] decimal(n)[i] <= DIGIT_0 + 9,
        decimal(n)[0] == DIGIT_0 <==> n == 0,
        value(decimal(n)) == n,
    decreases n,
{
    if n < 10 {
        assert(decimal(n).drop_last() =~= Seq::<u8>::empty());
        assert(value(decimal(n).drop_last()) == 0);
    } else {
        lemma_decimal_spells(n / 10);
        assert(decimal(n).drop_last() =~= decimal(n / 10));
    }
}

} // verus!
