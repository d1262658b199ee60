//! Line-oriented tokenization and fixed-point number parsing for the asset
//! text formats.
//!
//! `obj_lines` turns a text into records: lines are split on newlines, a
//! trailing carriage return is stripped, blank lines and `#` comments are
//! skipped, and each remaining line becomes its list of space-separated
//! tokens. `parse_fx` reads a signed decimal literal with up to six decimal
//! places into a fixed-point scalar. Every function is pinned to a spec-level
//! grammar over byte sequences.
use crate::fx::{fxs, sub_fx, FX_ONE};
use crate::transform::RawTransform;
use crate::vector::{vec3_add, Vector2, Vector3};
use vstd::prelude::*;
use vstd::string::StringSliceAdditionalSpecFns;

verus! {

/// The first index of `b` in `s`, or `-1` when `s` does not hold it.
pub open spec fn find_byte(s: Seq<u8>, b: u8) -> int
    decreases s.len(),
{
    if s.len() == 0 {
        -1
    } else if s[0] == b {
        0
    } else {
        let r = find_byte(s.skip(1), b);
        if r < 0 {
            -1
        } else {
            r + 1
        }
    }
}

/// A found index lies in the sequence, holds `b`, and nothing before it does;
/// `-1` means no position holds `b`.
pub proof fn lemma_find_byte(s: Seq<u8>, b: u8)
    ensures
        find_byte(s, b) >= 0 ==> find_byte(s, b) < s.len() && s[find_byte(s, b)] == b && (forall|
            k: int,
        | 0 <= k < find_byte(s, b) ==> s[k] != b),
        find_byte(s, b) < 0 ==> (forall|k: int| 0 <= k < s.len() ==> s[k] != b),
    decreases s.len(),
{
    if s.len() != 0 && s[0] != b {
        lemma_find_byte(s.skip(1), b);
        let r = find_byte(s.skip(1), b);
        if r >= 0 {
            assert forall|k: int| 0 <= k < r + 1 implies s[k] != b by {
                if k > 0 {
                    assert(s.skip(1)[k - 1] != b);
                }
            }
        } else {
            assert forall|k: int| 0 <= k < s.len() implies s[k] != b by {
                if k > 0 {
                    assert(s.skip(1)[k - 1] != b);
                }
            }
        }
    }
}

/// A line with a trailing carriage return stripped.
pub open spec fn strip_cr(line: Seq<u8>) -> Seq<u8> {
    if line.len() > 0 && line.last() == 13 {
        line.drop_last()
    } else {
        line
    }
}

/// The lines of a text: split on each newline, carriage returns stripped.
pub open spec fn lines_of(s: Seq<u8>) -> Seq<Seq<u8>>
    decreases s.len(),
{
    let d = find_byte(s, 10);
    if 0 <= d < s.len() {
        seq![strip_cr(s.take(d))] + lines_of(s.skip(d + 1))
    } else {
        seq![strip_cr(s)]
    }
}

/// Where the token starting at the head of `s` ends: the first space, or the
/// end of the line.
pub open spec fn token_end(s: Seq<u8>) -> int {
    if find_byte(s, 32) < 0 {
        s.len() as int
    } else {
        find_byte(s, 32)
    }
}

/// The space-separated tokens of a line, empties dropped.
pub open spec fn tokens_of(s: Seq<u8>) -> Seq<Seq<u8>>
    decreases s.len(),
{
    if s.len() == 0 {
        Seq::empty()
    } else if s[0] == 32 {
        tokens_of(s.skip(1))
    } else {
        let e = token_end(s);
        if 0 < e <= s.len() {
            seq![s.take(e)] + tokens_of(s.skip(e))
        } else {
            Seq::empty()
        }
    }
}

/// The records of the first `n` lines: a line that is blank, starts with `#`,
/// or holds no token contributes nothing; any other contributes its tokens.
pub open spec fn records_of(lines: Seq<Seq<u8>>, n: int) -> Seq<Seq<Seq<u8>>>
    decreases n,
{
    if n <= 0 {
        Seq::empty()
    } else {
        let rest = records_of(lines, n - 1);
        let l = lines[n - 1];
        if l.len() > 0 && l[0] != 35 && tokens_of(l).len() > 0 {
            rest.push(tokens_of(l))
        } else {
            rest
        }
    }
}

/// The records of a text: its lines tokenized, comments and blanks skipped.
pub open spec fn obj_records(s: Seq<u8>) -> Seq<Seq<Seq<u8>>> {
    records_of(lines_of(s), lines_of(s).len() as int)
}

/// Find the first `b` at or after `from` in the byte vector.
fn find_byte_from(s: &[u8], from: usize, b: u8) -> (r: Option<usize>)
    requires
        from <= s@.len(),
    ensures
        match r {
            Some(i) => from + find_byte(s@.skip(from as int), b) == i && find_byte(
                s@.skip(from as int),
                b,
            ) >= 0,
            None => find_byte(s@.skip(from as int), b) < 0,
        },
    decreases s@.len() - from,
{
    if from == s.len() {
        return None;
    }
    if s[from] == b {
        assert(s@.skip(from as int)[0] == b);
        return Some(from);
    }
    let r = find_byte_from(s, from + 1, b);
    proof {
        assert(s@.skip(from as int).skip(1) =~= s@.skip(from as int + 1));
        assert(s@.skip(from as int)[0] != b);
    }
    match r {
        Some(i) => Some(i),
        None => None,
    }
}

/// The space-separated tokens of one line, empties dropped.
fn tokenize(line: &Vec<u8>) -> (r: Vec<Vec<u8>>)
    ensures
        r.deep_view() == tokens_of(line@),
{
    let mut out: Vec<Vec<u8>> = Vec::new();
    let mut pos: usize = 0;
    proof {
        assert(line@.skip(0) =~= line@);
        assert(out.deep_view() + tokens_of(line@) =~= tokens_of(line@));
    }
    while pos < line.len()
        invariant
            pos <= line@.len(),
            out.deep_view() + tokens_of(line@.skip(pos as int)) == tokens_of(line@),
        decreases line@.len() - pos,
    {
        if line[pos] == 32 {
            proof {
                assert(line@.skip(pos as int).skip(1) =~= line@.skip(pos as int + 1));
            }
            pos = pos + 1;
        } else {
            let end = match find_byte_from(line.as_slice(), pos, 32) {
                Some(e) => e,
                None => line.len(),
            };
            proof {
                let s = line@.skip(pos as int);
                lemma_find_byte(s, 32);
                assert(token_end(s) == end - pos);
                assert(s.take(end - pos) =~= line@.subrange(pos as int, end as int));
                assert(s.skip(end - pos) =~= line@.skip(end as int));
            }
            let mut token: Vec<u8> = Vec::new();
            let mut k: usize = pos;
            while k < end
                invariant
                    pos <= k <= end <= line@.len(),
                    token@ == line@.subrange(pos as int, k as int),
                decreases end - k,
            {
                token.push(line[k]);
                proof {
                    assert(line@.subrange(pos as int, k as int).push(line@[k as int])
                        =~= line@.subrange(pos as int, k + 1 as int));
                }
                k = k + 1;
            }
            proof {
                let s = line@.skip(pos as int);
                assert((out.deep_view() + seq![token@]) + tokens_of(line@.skip(end as int))
                    =~= out.deep_view() + (seq![s.take(end - pos)] + tokens_of(s.skip(end - pos))));
            }
            let ghost prev = out.deep_view();
            out.push(token);
            proof {
                assert(out.deep_view() =~~= prev + seq![token@]);
                assert(out.deep_view() + tokens_of(line@.skip(end as int)) =~= (prev + seq![
                    token@,
                ]) + tokens_of(line@.skip(end as int)));
            }
            pos = end;
        }
    }
    proof {
        assert(line@.skip(line@.len() as int) =~= Seq::<u8>::empty());
        assert(out.deep_view() + tokens_of(Seq::<u8>::empty()) =~= out.deep_view());
    }
    out
}

/// The records of a text: each non-blank, non-comment line as its tokens, in
/// order. A line whose first byte is `#` is a comment; a line of spaces only
/// is skipped.
pub fn obj_lines(file: &str) -> (r: Vec<Vec<Vec<u8>>>)
    ensures
        r.deep_view() == obj_records(file.spec_bytes()),
{
    let bytes = file.as_bytes();
    let mut lines: Vec<Vec<u8>> = Vec::new();
    let mut pos: usize = 0;
    let mut done = false;
    proof {
        assert(bytes@.skip(0) =~= bytes@);
        assert(lines.deep_view() + lines_of(bytes@) =~= lines_of(bytes@));
    }
    while !done
        invariant
            pos <= bytes@.len(),
            !done ==> lines.deep_view() + lines_of(bytes@.skip(pos as int)) == lines_of(bytes@),
            done ==> lines.deep_view() == lines_of(bytes@),
        decreases bytes@.len() - pos, (if done { 0int } else { 1int }),
    {
        let end = match find_byte_from(bytes, pos, 10) {
            Some(e) => e,
            None => bytes.len(),
        };
        proof {
            lemma_find_byte(bytes@.skip(pos as int), 10);
        }
        let stop = if end > pos && bytes[end - 1] == 13 {
            end - 1
        } else {
            end
        };
        let mut line: Vec<u8> = Vec::new();
        let mut k: usize = pos;
        while k < stop
            invariant
                pos <= k <= stop <= bytes@.len(),
                line@ == bytes@.subrange(pos as int, k as int),
            decreases stop - k,
        {
            line.push(bytes[k]);
            proof {
                assert(bytes@.subrange(pos as int, k as int).push(bytes@[k as int])
                    =~= bytes@.subrange(pos as int, k + 1 as int));
            }
            k = k + 1;
        }
        proof {
            let s = bytes@.skip(pos as int);
            let d = find_byte(s, 10);
            if end == bytes@.len() && d < 0 {
                assert(s.take(s.len() as int) =~= s);
                assert(s =~= bytes@.subrange(pos as int, end as int));
                if stop < end {
                    assert(line@ =~= s.drop_last());
                }
                assert(line@ =~= strip_cr(s));
                assert(lines.deep_view().push(line@) =~= lines.deep_view() + seq![strip_cr(s)]);
            } else {
                assert(d == end - pos);
                assert(s.take(d) =~= bytes@.subrange(pos as int, end as int));
                if stop < end {
                    assert(line@ =~= s.take(d).drop_last());
                }
                assert(line@ =~= strip_cr(s.take(d)));
                assert(s.skip(d + 1) =~= bytes@.skip(end + 1 as int));
                assert(lines.deep_view().push(line@) + lines_of(bytes@.skip(end + 1 as int))
                    =~= lines.deep_view() + (seq![strip_cr(s.take(d))] + lines_of(s.skip(d + 1))));
            }
        }
        let ghost prev = lines.deep_view();
        lines.push(line);
        proof {
            assert(lines.deep_view() =~~= prev.push(line@));
        }
        if end == bytes.len() {
            done = true;
        } else {
            pos = end + 1;
        }
    }
    let mut out: Vec<Vec<Vec<u8>>> = Vec::new();
    let mut i: usize = 0;
    while i < lines.len()
        invariant
            i <= lines@.len(),
            out.deep_view() == records_of(lines.deep_view(), i as int),
            lines.deep_view() == lines_of(bytes@),
        decreases lines@.len() - i,
    {
        let l = &lines[i];
        proof {
            assert(lines.deep_view()[i as int] == lines@[i as int]@);
        }
        let keep = l.len() > 0 && l[0] != 35;
        if keep {
            let tokens = tokenize(l);
            if tokens.len() > 0 {
                let ghost prev = out.deep_view();
                out.push(tokens);
                proof {
                    assert(out.deep_view() =~~= prev.push(tokens.deep_view()));
                }
            }
        }
        i = i + 1;
    }
    out
}

/// Whether `b` is an ASCII decimal digit.
pub open spec fn is_digit(b: u8) -> bool {
    48 <= b <= 57
}

/// Whether `s` is one or more decimal digits.
pub open spec fn is_digits(s: Seq<u8>) -> bool {
    s.len() > 0 && forall|k: int| 0 <= k < s.len() ==> is_digit(s[k])
}

/// The number the digit string `s` denotes.
pub open spec fn digits_value(s: Seq<u8>) -> int
    decreases s.len(),
{
    if s.len() == 0 {
        0
    } else {
        digits_value(s.drop_last()) * 10 + (s.last() - 48)
    }
}

/// Ten to the power `n`.
pub open spec fn pow10(n: int) -> int
    decreases n,
{
    if n <= 0 {
        1
    } else {
        10 * pow10(n - 1)
    }
}

/// The fixed-point value of a decimal literal: an optional minus sign, one or
/// more integer digits, and optionally a point with one to six decimal
/// places. `None` for any other shape, and for a magnitude beyond the
/// fixed-point range.
pub open spec fn fx_literal(t: Seq<u8>) -> Option<i64> {
    let neg = t.len() > 0 && t[0] == 45;
    let body = if neg {
        t.skip(1)
    } else {
        t
    };
    let d = find_byte(body, 46);
    let mag = if d < 0 {
        if is_digits(body) {
            Some(digits_value(body) * 1000000)
        } else {
            None
        }
    } else {
        let ip = body.take(d);
        let fp = body.skip(d + 1);
        if is_digits(ip) && is_digits(fp) && fp.len() <= 6 {
            Some(digits_value(ip) * 1000000 + digits_value(fp) * pow10(6 - fp.len()))
        } else {
            None
        }
    };
    match mag {
        None => None,
        Some(m) => if m <= i64::MAX {
            Some(
                (if neg {
                    -m
                } else {
                    m
                }) as i64,
            )
        } else {
            None
        },
    }
}

/// A string of digits denotes a non-negative number.
proof fn lemma_digits_value_nonneg(s: Seq<u8>)
    requires
        forall|k: int| 0 <= k < s.len() ==> is_digit(s[k]),
    ensures
        digits_value(s) >= 0,
    decreases s.len(),
{
    if s.len() > 0 {
        lemma_digits_value_nonneg(s.drop_last());
    }
}

/// Extending a digit string never shrinks its value.
proof fn lemma_digits_value_prefix(s: Seq<u8>, j: int)
    requires
        forall|k: int| 0 <= k < s.len() ==> is_digit(s[k]),
        0 <= j <= s.len(),
    ensures
        digits_value(s) >= digits_value(s.take(j)),
    decreases s.len(),
{
    if j == s.len() {
        assert(s.take(j) =~= s);
    } else {
        lemma_digits_value_nonneg(s.drop_last());
        lemma_digits_value_prefix(s.drop_last(), j);
        assert(s.drop_last().take(j) =~= s.take(j));
    }
}

/// Read the run of digits `t[from..to]`; `None` when the run is empty, holds
/// a non-digit, or denotes a number too large for the fixed-point range.
fn parse_digits(t: &[u8], from: usize, to: usize) -> (r: Option<i64>)
    requires
        from <= to <= t@.len(),
    ensures
        match r {
            Some(v) => {
                &&& is_digits(t@.subrange(from as int, to as int))
                &&& v == digits_value(t@.subrange(from as int, to as int))
                &&& 0 <= v <= 9223372036854i64
            },
            None => !is_digits(t@.subrange(from as int, to as int)) || digits_value(
                t@.subrange(from as int, to as int),
            ) * 1000000 > i64::MAX,
        },
{
    let ghost seg = t@.subrange(from as int, to as int);
    if from == to {
        return None;
    }
    let mut acc: i64 = 0;
    let mut k: usize = from;
    while k < to
        invariant
            from <= k <= to <= t@.len(),
            seg == t@.subrange(from as int, to as int),
            0 <= acc <= 9223372036854i64,
            acc == digits_value(seg.take(k - from)),
            forall|j: int| 0 <= j < k - from ==> is_digit(seg[j]),
        decreases to - k,
    {
        let b = t[k];
        proof {
            assert(seg[k - from] == t@[k as int]);
        }
        if b < 48 || b > 57 {
            return None;
        }
        proof {
            assert(seg.take(k + 1 - from).drop_last() =~= seg.take(k - from));
            assert(seg.take(k + 1 - from).last() == seg[k - from]);
        }
        let cand: i128 = (acc as i128) * 10 + ((b - 48) as i128);
        if cand > 9223372036854i128 {
            proof {
                if is_digits(seg) {
                    lemma_digits_value_prefix(seg, k + 1 - from);
                    assert(digits_value(seg) >= digits_value(seg.take(k + 1 - from)));
                    assert(digits_value(seg) * 1000000 > i64::MAX) by (nonlinear_arith)
                        requires
                            digits_value(seg) >= 9223372036855i128,
                    ;
                }
            }
            return None;
        }
        acc = acc * 10 + ((b - 48) as i64);
        k = k + 1;
    }
    proof {
        assert(seg.take(to - from) =~= seg);
    }
    Some(acc)
}

/// Ten to the power `n`, for small `n`.
fn pow10_exec(n: usize) -> (r: i64)
    requires
        n <= 6,
    ensures
        r == pow10(n as int),
        1 <= r <= 1000000,
{
    proof {
        reveal_with_fuel(pow10, 7);
    }
    if n == 0 {
        1
    } else if n == 1 {
        10
    } else if n == 2 {
        100
    } else if n == 3 {
        1000
    } else if n == 4 {
        10000
    } else if n == 5 {
        100000
    } else {
        1000000
    }
}

/// Read a decimal literal into a fixed-point scalar: an optional minus sign,
/// integer digits, and up to six decimal places.
pub fn parse_fx(t: &[u8]) -> (r: Option<i64>)
    ensures
        r == fx_literal(t@),
{
    let neg = t.len() > 0 && t[0] == 45;
    let start: usize = if neg {
        1
    } else {
        0
    };
    let ghost body = if neg {
        t@.skip(1)
    } else {
        t@
    };
    proof {
        assert(body =~= t@.skip(start as int));
        lemma_find_byte(body, 46);
    }
    let dot = find_byte_from(t, start, 46);
    match dot {
        None => {
            proof {
                assert(body =~= t@.subrange(start as int, t@.len() as int));
            }
            match parse_digits(t, start, t.len()) {
                None => None,
                Some(v) => {
                    proof {
                        assert(v * 1000000 <= 9223372036854000000i64) by (nonlinear_arith)
                            requires
                                0 <= v <= 9223372036854i64,
                        ;
                        assert(0 <= v * 1000000) by (nonlinear_arith)
                            requires
                                0 <= v,
                        ;
                    }
                    let m = v * 1000000;
                    if neg {
                        Some(-m)
                    } else {
                        Some(m)
                    }
                },
            }
        },
        Some(d) => {
            let ghost dd = find_byte(body, 46);
            proof {
                assert(body.take(dd) =~= t@.subrange(start as int, d as int));
                assert(body.skip(dd + 1) =~= t@.subrange(d + 1 as int, t@.len() as int));
            }
            let fplen = t.len() - (d + 1);
            if fplen == 0 || fplen > 6 {
                return None;
            }
            let ip = parse_digits(t, start, d);
            let fp = parse_digits(t, d + 1, t.len());
            match (ip, fp) {
                (Some(iv), Some(fv)) => {
                    proof {
                        lemma_pow10_split(fplen as int);
                        assert(body.skip(dd + 1).len() == fplen);
                        assert(digits_value(body.skip(dd + 1)) < pow10(fplen as int)) by {
                            lemma_digits_value_bound(body.skip(dd + 1));
                        }
                        assert(iv * 1000000 <= 9223372036854000000i128) by (nonlinear_arith)
                            requires
                                0 <= iv <= 9223372036854i64,
                        ;
                        assert(0 <= iv * 1000000) by (nonlinear_arith)
                            requires
                                0 <= iv,
                        ;
                    }
                    let scale = pow10_exec(6 - fplen);
                    proof {
                        assert(0 <= fv * scale < 1000000) by (nonlinear_arith)
                            requires
                                0 <= fv,
                                fv < pow10(fplen as int),
                                scale == pow10(6 - fplen as int),
                                pow10(fplen as int) * pow10(6 - fplen as int) == 1000000,
                                1 <= scale,
                        ;
                    }
                    let m: i128 = (iv as i128) * 1000000 + (fv as i128) * (scale as i128);
                    if m <= i64::MAX as i128 {
                        let m64 = m as i64;
                        if neg {
                            Some(-m64)
                        } else {
                            Some(m64)
                        }
                    } else {
                        None
                    }
                },
                (None, _) => {
                    proof {
                        let ipseg = body.take(dd);
                        let fpseg = body.skip(dd + 1);
                        if is_digits(ipseg) && is_digits(fpseg) && fpseg.len() <= 6 {
                            lemma_digits_value_nonneg(fpseg);
                            lemma_pow10_le_unit(6 - fpseg.len() as int);
                            assert(digits_value(fpseg) * pow10(6 - fpseg.len()) >= 0)
                                by (nonlinear_arith)
                                requires
                                    digits_value(fpseg) >= 0,
                                    pow10(6 - fpseg.len()) >= 1,
                            ;
                        }
                    }
                    None
                },
                (Some(_), None) => {
                    proof {
                        let fpseg = body.skip(dd + 1);
                        if is_digits(fpseg) {
                            lemma_digits_value_bound(fpseg);
                            lemma_pow10_le_unit(fpseg.len() as int);
                            assert(digits_value(fpseg) * 1000000 <= i64::MAX)
                                by (nonlinear_arith)
                                requires
                                    0 <= digits_value(fpseg) < pow10(fpseg.len() as int),
                                    pow10(fpseg.len() as int) <= 1000000,
                            ;
                        }
                    }
                    None
                },
            }
        },
    }
}

/// A structured parse failure, carrying the index of the offending record in
/// the token-line list.
#[derive(Clone, Copy, Debug, PartialEq, Eq, Structural)]
pub enum ParseError {
    /// The record has too few tokens for its keyword.
    MissingField { record: usize },
    /// A numeric field is not a decimal literal in range.
    BadNumber { record: usize },
    /// A transform record has a token count that is not a positive multiple
    /// of three.
    BadArity { record: usize },
    /// A parent name that no earlier bone declared.
    UnknownParent { record: usize },
    /// A record that needs a current bone before any bone was declared.
    NoCurrentBone { record: usize },
}

/// Three fixed-point numbers from the head of a token list.
pub open spec fn point3_of(tokens: Seq<Seq<u8>>) -> Option<Vector3> {
    if tokens.len() < 3 {
        None
    } else {
        match (fx_literal(tokens[0]), fx_literal(tokens[1]), fx_literal(tokens[2])) {
            (Some(x), Some(y), Some(z)) => Some(Vector3 { x, y, z }),
            _ => None,
        }
    }
}

/// Two fixed-point numbers from the head of a token list, the second flipped
/// against one: texture coordinates count from the other edge.
pub open spec fn point2_of(tokens: Seq<Seq<u8>>) -> Option<Vector2> {
    if tokens.len() < 2 {
        None
    } else {
        match (fx_literal(tokens[0]), fx_literal(tokens[1])) {
            (Some(x), Some(y)) => Some(Vector2 { x, y: fxs(FX_ONE, y) }),
            _ => None,
        }
    }
}

/// Whether a token count fits a transform record: a positive multiple of three.
pub open spec fn transform_arity_ok(n: int) -> bool {
    n >= 3 && n % 3 == 0
}

/// The placement a transform record denotes: three Euler angles on an
/// otherwise identity placement.
pub open spec fn transform_of(tokens: Seq<Seq<u8>>) -> Option<RawTransform> {
    if !transform_arity_ok(tokens.len() as int) {
        None
    } else {
        match point3_of(tokens) {
            Some(v) => Some(RawTransform { rotation: v, ..RawTransform::identity() }),
            None => None,
        }
    }
}

/// Read three fixed-point numbers from `tokens`, starting at `from`.
pub fn parse_point_3(tokens: &Vec<Vec<u8>>, from: usize) -> (r: Option<Vector3>)
    requires
        from <= tokens@.len(),
    ensures
        r == point3_of(tokens.deep_view().skip(from as int)),
{
    if tokens.len() - from < 3 {
        return None;
    }
    proof {
        assert(tokens.deep_view().skip(from as int)[0] == tokens@[from as int]@);
        assert(tokens.deep_view().skip(from as int)[1] == tokens@[from as int + 1]@);
        assert(tokens.deep_view().skip(from as int)[2] == tokens@[from as int + 2]@);
    }
    let x = parse_fx(tokens[from].as_slice());
    let y = parse_fx(tokens[from + 1].as_slice());
    let z = parse_fx(tokens[from + 2].as_slice());
    match (x, y, z) {
        (Some(x), Some(y), Some(z)) => Some(Vector3 { x, y, z }),
        _ => None,
    }
}

/// Read two fixed-point numbers from `tokens`, starting at `from`, flipping
/// the second against one.
pub fn parse_point_2(tokens: &Vec<Vec<u8>>, from: usize) -> (r: Option<Vector2>)
    requires
        from <= tokens@.len(),
    ensures
        r == point2_of(tokens.deep_view().skip(from as int)),
{
    if tokens.len() - from < 2 {
        return None;
    }
    proof {
        assert(tokens.deep_view().skip(from as int)[0] == tokens@[from as int]@);
        assert(tokens.deep_view().skip(from as int)[1] == tokens@[from as int + 1]@);
    }
    let x = parse_fx(tokens[from].as_slice());
    let y = parse_fx(tokens[from + 1].as_slice());
    match (x, y) {
        (Some(x), Some(y)) => Some(Vector2 { x, y: sub_fx(FX_ONE, y) }),
        _ => None,
    }
}

/// Read a transform record starting at `from`: three Euler angles on an
/// otherwise identity placement; the token count past `from` must be a
/// positive multiple of three.
pub fn parse_transform(tokens: &Vec<Vec<u8>>, from: usize) -> (r: Option<RawTransform>)
    requires
        from <= tokens@.len(),
    ensures
        r == transform_of(tokens.deep_view().skip(from as int)),
{
    let n = tokens.len() - from;
    if n < 3 || n % 3 != 0 {
        return None;
    }
    match parse_point_3(tokens, from) {
        Some(v) => {
            let mut t = RawTransform::new();
            t.rotate(v);
            proof {
                crate::fx::lemma_fx_unit();
                assert(vec3_add(Vector3 { x: 0, y: 0, z: 0 }, v) == v);
            }
            Some(t)
        },
        None => None,
    }
}

/// Whether two byte strings are equal.
pub fn bytes_eq(a: &Vec<u8>, b: &Vec<u8>) -> (r: bool)
    ensures
        r == (a@ == b@),
{
    if a.len() != b.len() {
        return false;
    }
    let mut i: usize = 0;
    while i < a.len()
        invariant
            i <= a@.len(),
            a@.len() == b@.len(),
            forall|j: int| 0 <= j < i ==> a@[j] == b@[j],
        decreases a@.len() - i,
    {
        if a[i] != b[i] {
            return false;
        }
        i = i + 1;
    }
    proof {
        assert(a@ =~= b@);
    }
    true
}

/// Whether a token is the single byte `k`.
pub fn token_is(t: &Vec<u8>, k: u8) -> (r: bool)
    ensures
        r == (t@ == seq![k]),
{
    let r = t.len() == 1 && t[0] == k;
    proof {
        if r {
            assert(t@ =~= seq![k]);
        } else {
            if t@ == seq![k] {
                assert(t@.len() == 1 && t@[0] == k);
            }
        }
    }
    r
}

/// Whether a token is the two bytes `k0`, `k1`.
pub fn token_is2(t: &Vec<u8>, k0: u8, k1: u8) -> (r: bool)
    ensures
        r == (t@ == seq![k0, k1]),
{
    let r = t.len() == 2 && t[0] == k0 && t[1] == k1;
    proof {
        if r {
            assert(t@ =~= seq![k0, k1]);
        } else {
            if t@ == seq![k0, k1] {
                assert(t@.len() == 2 && t@[0] == k0 && t@[1] == k1);
            }
        }
    }
    r
}

/// A digit string of length `n` denotes less than ten to the `n`.
proof fn lemma_digits_value_bound(s: Seq<u8>)
    requires
        forall|k: int| 0 <= k < s.len() ==> is_digit(s[k]),
    ensures
        digits_value(s) < pow10(s.len() as int),
    decreases s.len(),
{
    if s.len() > 0 {
        lemma_digits_value_bound(s.drop_last());
        assert(digits_value(s) == digits_value(s.drop_last()) * 10 + (s.last() - 48));
        assert(digits_value(s.drop_last()) * 10 + 9 < pow10(s.len() as int)) by (nonlinear_arith)
            requires
                digits_value(s.drop_last()) < pow10(s.len() - 1),
                pow10(s.len() as int) == 10 * pow10(s.len() - 1),
        ;
    }
}

/// Ten to a power of at most six lies between one and one whole unit.
proof fn lemma_pow10_le_unit(n: int)
    requires
        0 <= n <= 6,
    ensures
        1 <= pow10(n) <= 1000000,
{
    reveal_with_fuel(pow10, 7);
}

/// Ten to the `a` times ten to the remaining places is one whole unit.
proof fn lemma_pow10_split(a: int)
    requires
        0 <= a <= 6,
    ensures
        pow10(a) * pow10(6 - a) == 1000000,
{
    assert(pow10(0) == 1);
    assert(pow10(1) == 10);
    assert(pow10(2) == 100);
    assert(pow10(3) == 1000);
    assert(pow10(4) == 10000);
    assert(pow10(5) == 100000);
    assert(pow10(6) == 1000000);
    assert(1 * 1000000 == 1000000) by (nonlinear_arith);
    assert(10 * 100000 == 1000000) by (nonlinear_arith);
    assert(100 * 10000 == 1000000) by (nonlinear_arith);
    assert(1000 * 1000 == 1000000) by (nonlinear_arith);
    assert(10000 * 100 == 1000000) by (nonlinear_arith);
    assert(100000 * 10 == 1000000) by (nonlinear_arith);
    assert(1000000 * 1 == 1000000) by (nonlinear_arith);
}

} // verus!
