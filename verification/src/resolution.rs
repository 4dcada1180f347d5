//! The `WIDTHxHEIGHT` resolution of the screen.

use vstd::prelude::*;

use crate::text;
use crate::text::{chars_of, parse_u32_range};

verus! {

/// The resolution is not `WIDTHxHEIGHT`.
#[derive(Clone, Copy, Debug, PartialEq, Eq, Structural)]
pub struct BadResolution;

impl BadResolution {
    /// The error in words.
    pub fn message(self) -> (m: &'static str)
        ensures
            m@ == "resolution must be WIDTHxHEIGHT"@,
    {
        "resolution must be WIDTHxHEIGHT"
    }
}

/// `res` is a width and a height, each a `u32`, with an `x` between them.
pub open spec fn valid_resolution(res: Seq<char>) -> bool {
    exists|width: Seq<char>, height: Seq<char>|
        #![trigger text::is_u32_text(width), text::is_u32_text(height)]
        res == width + seq!['x'] + height && text::is_u32_text(width) && text::is_u32_text(height)
}

/// A `u32` holds no `x`.
proof fn lemma_number_has_no_x(s: Seq<char>, i: int)
    requires
        text::is_u32_text(s),
        0 <= i < s.len(),
    ensures
        s[i] != 'x',
{
    let d = text::unsigned_part(s);
    if d == s {
        assert(text::is_digit(d[i]));
    } else if i > 0 {
        assert(text::is_digit(d[i - 1]));
    }
}

/// A resolution is split at the first `x` it holds.
proof fn lemma_split_at_x(res: Seq<char>, at: int)
    requires
        0 <= at < res.len(),
        res[at] == 'x',
        forall|i: int| 0 <= i < at ==> res[i] != 'x',
    ensures
        valid_resolution(res) <==> text::is_u32_text(res.subrange(0, at)) && text::is_u32_text(
            res.subrange(at + 1, res.len() as int),
        ),
{
    let left = res.subrange(0, at);
    let right = res.subrange(at + 1, res.len() as int);
    assert(res == left + seq!['x'] + right);
    if valid_resolution(res) {
        let (width, height) = choose|width: Seq<char>, height: Seq<char>|
            #![trigger text::is_u32_text(width), text::is_u32_text(height)]
            res == width + seq!['x'] + height && text::is_u32_text(width) && text::is_u32_text(height);
        assert(res[width.len() as int] == 'x');
        if at < width.len() {
            lemma_number_has_no_x(width, at);
            assert(res[at] == width[at]);
        }
        assert(at == width.len());
        assert(left == width);
        assert(right == height);
    }
}

/// Accepts `WIDTHxHEIGHT`, where both are `u32`.
pub fn validate_resolution(res: &str) -> (r: Result<(), BadResolution>)
    ensures
        r is Ok <==> valid_resolution(res@),
{
    let chars = chars_of(res);
    let mut at: usize = 0;
    while at < chars.len() && chars[at] != 'x'
        invariant
            chars@ == res@,
            at <= chars@.len(),
            forall|i: int| 0 <= i < at ==> chars@[i] != 'x',
        decreases chars@.len() - at,
    {
        at += 1;
    }
    if at == chars.len() {
        proof {
            if valid_resolution(res@) {
                let (width, height) = choose|width: Seq<char>, height: Seq<char>|
                    #![trigger text::is_u32_text(width), text::is_u32_text(height)]
                    res@ == width + seq!['x'] + height && text::is_u32_text(width) && text::is_u32_text(height);
                assert(res@[width.len() as int] == 'x');
            }
        }
        return Err(BadResolution);
    }
    proof {
        lemma_split_at_x(res@, at as int);
        text::lemma_u32_of_text_succeeds(res@.subrange(0, at as int));
        text::lemma_u32_of_text_succeeds(res@.subrange(at + 1, res@.len() as int));
    }
    let width = parse_u32_range(&chars, 0, at);
    let height = parse_u32_range(&chars, at + 1, chars.len());
    if width.is_err() || height.is_err() {
        return Err(BadResolution);
    }
    Ok(())
}

/// Every width and height, written in decimal, make a resolution that is accepted.
pub proof fn law_every_size_is_valid(width: u32, height: u32)
    ensures
        valid_resolution(text::decimal(width as int) + seq!['x'] + text::decimal(height as int)),
{
    let w = text::decimal(width as int);
    let h = text::decimal(height as int);
    text::law_decimal_reads_back(width);
    text::law_decimal_reads_back(height);
    text::lemma_u32_of_text_succeeds(w);
    text::lemma_u32_of_text_succeeds(h);
    assert(text::is_u32_text(w) && text::is_u32_text(h));
}

/// A resolution that is accepted holds exactly one `x`.
pub proof fn law_one_separator(res: Seq<char>, i: int, j: int)
    requires
        valid_resolution(res),
        0 <= i < res.len(),
        0 <= j < res.len(),
        res[i] == 'x',
        res[j] == 'x',
    ensures
        i == j,
{
    let (width, height) = choose|width: Seq<char>, height: Seq<char>|
        #![trigger text::is_u32_text(width), text::is_u32_text(height)]
        res == width + seq!['x'] + height && text::is_u32_text(width) && text::is_u32_text(height);
    let at = width.len() as int;
    if i < at {
        lemma_number_has_no_x(width, i);
    }
    if j < at {
        lemma_number_has_no_x(width, j);
    }
    if i > at {
        assert(res[i] == height[i - at - 1]);
        lemma_number_has_no_x(height, i - at - 1);
    }
    if j > at {
        assert(res[j] == height[j - at - 1]);
        lemma_number_has_no_x(height, j - at - 1);
    }
}

/// What stands before and after the `x` of a resolution has to be a number each, and
/// nothing more is asked of it; without an `x` there is no resolution.
pub proof fn law_parts_of_a_resolution(width: Seq<char>, height: Seq<char>, other: Seq<char>)
    requires
        forall|i: int| 0 <= i < width.len() ==> width[i] != 'x',
        forall|i: int| 0 <= i < other.len() ==> other[i] != 'x',
    ensures
        valid_resolution(width + seq!['x'] + height) <==> text::u32_of_text(width) is Ok
            && text::u32_of_text(height) is Ok,
        !valid_resolution(other),
{
    let res = width + seq!['x'] + height;
    assert(res[width.len() as int] == 'x');
    lemma_split_at_x(res, width.len() as int);
    assert(res.subrange(0, width.len() as int) == width);
    assert(res.subrange(width.len() as int + 1, res.len() as int) == height);
    text::lemma_u32_of_text_succeeds(width);
    text::lemma_u32_of_text_succeeds(height);
    if valid_resolution(other) {
        let (w, h) = choose|w: Seq<char>, h: Seq<char>|
            #![trigger text::is_u32_text(w), text::is_u32_text(h)]
            other == w + seq!['x'] + h && text::is_u32_text(w) && text::is_u32_text(h);
        assert(other[w.len() as int] == 'x');
    }
}

/// Whether a resolution is accepted is known from its parts.
pub proof fn law_resolution_is_accepted(
    res: &str,
    width: Seq<char>,
    height: Seq<char>,
    r: Result<(), BadResolution>,
)
    requires
        call_ensures(validate_resolution, (res,), r),
        res@ == width + seq!['x'] + height,
        forall|i: int| 0 <= i < width.len() ==> width[i] != 'x',
    ensures
        r is Ok <==> text::u32_of_text(width) is Ok && text::u32_of_text(height) is Ok,
{
    law_parts_of_a_resolution(width, height, seq![]);
}

} // verus!
