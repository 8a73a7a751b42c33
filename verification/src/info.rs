//! Frame dimensions and frame rate of a video, and reading them from the
//! report that the media probe prints for the first video stream
//! (`WIDTHxHEIGHTxNUM/DEN`, or `WIDTHxHEIGHT` when no rate is reported).
use itertools::Itertools;
use vstd::prelude::*;

use crate::text::{
    chars_of, decimal_spec, is_digit_spec, is_whitespace_spec, law_parse_u32_reads_decimal,
    lemma_decimal_excludes, lemma_decimal_spec, lemma_split_then_piece, lemma_split_without_sep,
    lemma_trim_line, lemma_trim_plain, parse_u32, parse_u32_spec, split, split_spec, trim,
    trim_spec,
};

verus! {

/// A frame rate as a fraction of frames per second.
#[derive(Debug, Clone, Copy)]
pub struct Framerate {
    pub nominator: u32,
    pub denominator: u32,
}

/// Width and height of a frame.
#[derive(Debug, Clone, Copy)]
pub struct Dimensions<T> {
    pub width: T,
    pub height: T,
}

impl<T: Copy> Dimensions<T> {
    /// The same frame turned a quarter: width and height trade places.
    #[verifier::allow_in_spec]
    pub fn swap(&self) -> Dimensions<T>
        returns
            (Dimensions { width: self.height, height: self.width }),
    {
        Dimensions { width: self.height, height: self.width }
    }
}

/// Swapping twice gives back the dimensions.
pub proof fn law_swap_involution<T: Copy>(d: Dimensions<T>)
    ensures
        d.swap().swap() == d,
{
}

/// `x` rounded down to an even number.
pub open spec fn even_floor_spec(x: u32) -> u32 {
    (x - x % 2) as u32
}

/// Rounds down to an even number, as video encoders want even sizes.
pub fn even_floor(x: u32) -> (r: u32)
    ensures
        r == even_floor_spec(x),
        r % 2 == 0,
        r <= x,
        x - r < 2,
{
    x / 2 * 2
}

/// Dimensions scaled by whole percentages, each side rounded down to an even size.
pub fn scaled_dimensions(d: Dimensions<u32>, width_percent: u32, height_percent: u32) -> (r:
    Dimensions<u32>)
    requires
        d.width * width_percent <= u32::MAX,
        d.height * height_percent <= u32::MAX,
    ensures
        r.width == even_floor_spec(((d.width * width_percent) / 100) as u32),
        r.height == even_floor_spec(((d.height * height_percent) / 100) as u32),
{
    let w = d.width * width_percent / 100;
    let h = d.height * height_percent / 100;
    Dimensions { width: even_floor(w), height: even_floor(h) }
}

/// Dimensions given directly, each side rounded down to an even size.
pub fn even_dimensions(width: u32, height: u32) -> (r: Dimensions<u32>)
    ensures
        r.width == even_floor_spec(width),
        r.height == even_floor_spec(height),
{
    Dimensions { width: even_floor(width), height: even_floor(height) }
}

/// The frame rate field `NUM/DEN`: two halves, each a number once trimmed.
pub open spec fn framerate_field_spec(field: Seq<char>) -> Option<Framerate> {
    let halves = split_spec(field, '/');
    if halves.len() == 2 {
        match (parse_u32_spec(trim_spec(halves[0])), parse_u32_spec(trim_spec(halves[1]))) {
            (Some(n), Some(d)) => Some(Framerate { nominator: n, denominator: d }),
            _ => None,
        }
    } else {
        None
    }
}

/// The probe report, trimmed and split on `x`: with three fields the last is
/// the frame rate, with two there is none, and any other count, or any field
/// that does not read, rejects the whole report.
pub open spec fn probe_report_spec(report: Seq<char>) -> Option<
    (Dimensions<u32>, Option<Framerate>),
> {
    let fields = split_spec(trim_spec(report), 'x');
    if fields.len() == 3 {
        match (
            parse_u32_spec(trim_spec(fields[0])),
            parse_u32_spec(trim_spec(fields[1])),
            framerate_field_spec(fields[2]),
        ) {
            (Some(w), Some(h), Some(f)) => Some((Dimensions { width: w, height: h }, Some(f))),
            _ => None,
        }
    } else if fields.len() == 2 {
        match (parse_u32_spec(trim_spec(fields[0])), parse_u32_spec(trim_spec(fields[1]))) {
            (Some(w), Some(h)) => Some((Dimensions { width: w, height: h }, None)),
            _ => None,
        }
    } else {
        None
    }
}

/// The line the probe prints for a stream of `width` by `height` pixels,
/// with the frame rate when it reports one: decimal numbers joined by `x`,
/// the rate written `NUM/DEN`, ending in a line break.
pub open spec fn report_line(width: u32, height: u32, rate: Option<Framerate>) -> Seq<char> {
    let dims = decimal_spec(width as nat) + seq!['x'] + decimal_spec(height as nat);
    match rate {
        Some(f) => (dims + seq!['x'] + (decimal_spec(f.nominator as nat) + seq!['/']
            + decimal_spec(f.denominator as nat))).push('\n'),
        None => dims.push('\n'),
    }
}

proof fn lemma_plain_number(n: nat)
    ensures
        forall|i: int|
            0 <= i < decimal_spec(n).len() ==> !is_whitespace_spec(#[trigger] decimal_spec(n)[i]),
        !decimal_spec(n).contains('x'),
        !decimal_spec(n).contains('/'),
        trim_spec(decimal_spec(n)) == decimal_spec(n),
{
    lemma_decimal_spec(n);
    lemma_decimal_excludes(n, 'x');
    lemma_decimal_excludes(n, '/');
    assert forall|i: int| 0 <= i < decimal_spec(n).len() implies !is_whitespace_spec(
        #[trigger] decimal_spec(n)[i],
    ) by {
        assert(is_digit_spec(decimal_spec(n)[i]));
    }
    lemma_trim_plain(decimal_spec(n));
}

proof fn lemma_plain_concat(a: Seq<char>, b: Seq<char>)
    requires
        forall|i: int| 0 <= i < a.len() ==> !is_whitespace_spec(#[trigger] a[i]),
        forall|i: int| 0 <= i < b.len() ==> !is_whitespace_spec(#[trigger] b[i]),
    ensures
        forall|i: int| 0 <= i < (a + b).len() ==> !is_whitespace_spec(#[trigger] (a + b)[i]),
{
    assert forall|i: int| 0 <= i < (a + b).len() implies !is_whitespace_spec(#[trigger] (a + b)[i]) by {
        if i < a.len() {
            assert((a + b)[i] == a[i]);
        } else {
            assert((a + b)[i] == b[i - a.len()]);
        }
    }
}

/// The probe's line for a stream reads back as that stream's dimensions and
/// frame rate.
pub proof fn law_report_round_trip(width: u32, height: u32, rate: Option<Framerate>)
    ensures
        probe_report_spec(report_line(width, height, rate)) == Some(
            (Dimensions { width, height }, rate),
        ),
{
    let dw = decimal_spec(width as nat);
    let dh = decimal_spec(height as nat);
    lemma_plain_number(width as nat);
    lemma_plain_number(height as nat);
    law_parse_u32_reads_decimal(width);
    law_parse_u32_reads_decimal(height);
    lemma_decimal_spec(width as nat);
    let x = seq!['x'];
    let slash = seq!['/'];
    assert(!is_whitespace_spec('x'));
    assert(!is_whitespace_spec('/'));
    lemma_plain_concat(dw, x);
    lemma_plain_concat(dw + x, dh);
    let dims = dw + x + dh;
    lemma_split_without_sep(dw, 'x');
    lemma_split_then_piece(dw, dh, 'x');
    assert(split_spec(dims, 'x') =~= seq![dw, dh]);
    assert(dims.len() > 0);
    match rate {
        Some(f) => {
            let dn = decimal_spec(f.nominator as nat);
            let dd = decimal_spec(f.denominator as nat);
            lemma_plain_number(f.nominator as nat);
            lemma_plain_number(f.denominator as nat);
            law_parse_u32_reads_decimal(f.nominator);
            law_parse_u32_reads_decimal(f.denominator);
            let fr = dn + slash + dd;
            lemma_plain_concat(dn, slash);
            lemma_plain_concat(dn + slash, dd);
            assert(!fr.contains('x')) by {
                if fr.contains('x') {
                    let k = choose|k: int| 0 <= k < fr.len() && fr[k] == 'x';
                    if k < dn.len() {
                        assert(dn[k] == 'x');
                    } else if k == dn.len() {
                        assert(fr[k] == '/');
                    } else {
                        assert(dd[k - dn.len() - 1] == 'x');
                    }
                }
            }
            lemma_split_without_sep(dn, '/');
            lemma_split_then_piece(dn, dd, '/');
            assert(split_spec(fr, '/') =~= seq![dn, dd]);
            let body = dims + x + fr;
            lemma_plain_concat(dims, x);
            lemma_plain_concat(dims + x, fr);
            lemma_trim_line(body);
            lemma_split_then_piece(dims, fr, 'x');
            assert(split_spec(body, 'x') =~= seq![dw, dh, fr]);
            assert(report_line(width, height, rate) == body.push('\n'));
        },
        None => {
            lemma_trim_line(dims);
            assert(report_line(width, height, rate) == dims.push('\n'));
        },
    }
}

/// `Itertools::collect_tuple` into a pair. The crate's source returns `Some`
/// exactly when the iterator yields two items, holding them in order.
#[verifier::external_body]
fn collect_pair(parts: Vec<Vec<char>>) -> (r: Option<(Vec<char>, Vec<char>)>)
    ensures
        r is Some <==> parts@.len() == 2,
        r matches Some(p) ==> p.0 == parts@[0] && p.1 == parts@[1],
{
    parts.into_iter().collect_tuple()
}

/// Reads a number field, white space around it allowed.
fn parse_field(field: &Vec<char>) -> (r: Option<u32>)
    ensures
        r == parse_u32_spec(trim_spec(field@)),
{
    let t = trim(field);
    parse_u32(&t)
}

/// Reads the frame rate field `NUM/DEN`.
fn parse_framerate_field(field: &Vec<char>) -> (r: Option<Framerate>)
    ensures
        r == framerate_field_spec(field@),
{
    let halves = split(field, '/');
    match collect_pair(halves) {
        Some((x, y)) => {
            let n = parse_field(&x);
            let d = parse_field(&y);
            match (n, d) {
                (Some(n), Some(d)) => Some(Framerate { nominator: n, denominator: d }),
                _ => None,
            }
        },
        None => None,
    }
}

/// Reads the dimensions, and the frame rate when there is one, from the
/// report that the media probe prints for a video stream.
pub fn get_width_height_from_report(report: &str) -> (r: Option<(Dimensions<u32>, Option<Framerate>)>)
    ensures
        r == probe_report_spec(report@),
{
    let chars = chars_of(report);
    let trimmed = trim(&chars);
    let fields = split(&trimmed, 'x');
    let ghost spec_fields = split_spec(trimmed@, 'x');
    if fields.len() == 3 {
        assert(fields@[0]@ == spec_fields[0]);
        assert(fields@[1]@ == spec_fields[1]);
        assert(fields@[2]@ == spec_fields[2]);
        let w = parse_field(&fields[0]);
        let h = parse_field(&fields[1]);
        let f = parse_framerate_field(&fields[2]);
        match (w, h, f) {
            (Some(w), Some(h), Some(f)) => Some((Dimensions { width: w, height: h }, Some(f))),
            _ => None,
        }
    } else if fields.len() == 2 {
        assert(fields@[0]@ == spec_fields[0]);
        assert(fields@[1]@ == spec_fields[1]);
        let w = parse_field(&fields[0]);
        let h = parse_field(&fields[1]);
        match (w, h) {
            (Some(w), Some(h)) => Some((Dimensions { width: w, height: h }, None)),
            _ => None,
        }
    } else {
        None
    }
}

} // verus!
