//! Loader for the line-oriented initialization format of a register array.
//!
//! Blank lines and `//` comments are ignored; a line `@<hex-address>` moves
//! the load cursor; any other non-blank line is a hex-encoded value stored at
//! the cursor, which then auto-increments.  Underscores are visual digit
//! separators and are stripped before parsing.  Malformed data is fatal: the
//! loader stops at the first bad line and reports it.

use vstd::prelude::*;

verus! {

/// Why loading initialization data failed.
#[derive(Clone, Copy, Debug, PartialEq, Eq, Structural)]
pub enum HexError {
    /// The (1-based) line is not blank, a comment, an address line, or a
    /// hex value that fits the value type.
    Malformed { line: usize },
    /// The value on the (1-based) line landed at a cursor outside the array.
    OutOfRange { line: usize, addr: usize },
}

/// Whitespace that may surround a payload within one line.
pub open spec fn is_space(b: u8) -> bool {
    b == 32 || b == 9 || b == 13 || b == 11 || b == 12
}

/// The value of an ASCII hex digit.
pub open spec fn hex_digit_value(b: u8) -> Option<u8> {
    if 48 <= b <= 57 {
        Some((b - 48) as u8)
    } else if 97 <= b <= 102 {
        Some((b - 87) as u8)
    } else if 65 <= b <= 70 {
        Some((b - 55) as u8)
    } else {
        None
    }
}

/// Folds hex digits into `acc` left to right; `None` on a non-digit or on
/// overflow of the value type.
pub open spec fn parse_hex_rec(s: Seq<u8>, acc: u64) -> Option<u64>
    decreases s.len(),
{
    if s.len() == 0 {
        Some(acc)
    } else {
        match hex_digit_value(s[0]) {
            None => None,
            Some(d) => if acc > (u64::MAX - d) / 16 {
                None
            } else {
                parse_hex_rec(s.drop_first(), (16 * acc + d) as u64)
            },
        }
    }
}

/// The value of a non-empty all-hex-digit byte string; `None` on an empty
/// string, a non-digit, or overflow.
pub open spec fn parse_hex(s: Seq<u8>) -> Option<u64> {
    if s.len() == 0 {
        None
    } else {
        parse_hex_rec(s, 0)
    }
}

/// The number of bytes of `l` before its first `//`; the whole length when
/// there is no comment.
pub open spec fn comment_start(l: Seq<u8>) -> nat
    decreases l.len(),
{
    if l.len() < 2 {
        l.len()
    } else if l[0] == 47 && l[1] == 47 {
        0
    } else {
        (1 + comment_start(l.drop_first())) as nat
    }
}

/// The number of leading whitespace bytes of `l`.
pub open spec fn leading_spaces(l: Seq<u8>) -> nat
    decreases l.len(),
{
    if l.len() > 0 && is_space(l[0]) {
        (1 + leading_spaces(l.drop_first())) as nat
    } else {
        0
    }
}

/// The number of trailing whitespace bytes of `l`.
pub open spec fn trailing_spaces(l: Seq<u8>) -> nat
    decreases l.len(),
{
    if l.len() > 0 && is_space(l.last()) {
        (1 + trailing_spaces(l.drop_last())) as nat
    } else {
        0
    }
}

/// `l` without leading and trailing whitespace.
pub open spec fn trim(l: Seq<u8>) -> Seq<u8> {
    if leading_spaces(l) == l.len() {
        Seq::empty()
    } else {
        l.subrange(leading_spaces(l) as int, l.len() - trailing_spaces(l))
    }
}

/// `l` with every underscore removed.
pub open spec fn strip_unders(l: Seq<u8>) -> Seq<u8>
    decreases l.len(),
{
    if l.len() == 0 {
        Seq::empty()
    } else if l.last() == 95 {
        strip_unders(l.drop_last())
    } else {
        strip_unders(l.drop_last()).push(l.last())
    }
}

/// One line, with any comment removed and surrounding whitespace trimmed.
pub open spec fn cleaned(l: Seq<u8>) -> Seq<u8> {
    trim(l.subrange(0, comment_start(l) as int))
}

/// The effect of one raw line on the array and the load cursor.  A value
/// above `limit` (the largest value the destination register can hold) is
/// malformed data.
pub open spec fn apply_line(
    arr: Seq<u64>,
    cursor: int,
    l: Seq<u8>,
    line_no: int,
    limit: u64,
) -> Result<(Seq<u64>, int), HexError> {
    let t = cleaned(l);
    if t.len() == 0 {
        Ok((arr, cursor))
    } else {
        let u = strip_unders(t);
        if u.len() > 0 && u[0] == 64 {
            match parse_hex(u.drop_first()) {
                None => Err(HexError::Malformed { line: line_no as usize }),
                Some(a) => if a > usize::MAX {
                    Err(HexError::Malformed { line: line_no as usize })
                } else {
                    Ok((arr, a as int))
                },
            }
        } else {
            match parse_hex(u) {
                None => Err(HexError::Malformed { line: line_no as usize }),
                Some(v) => if v > limit {
                    Err(HexError::Malformed { line: line_no as usize })
                } else if 0 <= cursor < arr.len() {
                    Ok((arr.update(cursor, v), cursor + 1))
                } else {
                    Err(
                        HexError::OutOfRange {
                            line: line_no as usize,
                            addr: cursor as usize,
                        },
                    )
                },
            }
        }
    }
}

/// The length of the first line of `s` (the bytes before the first newline).
pub open spec fn line_end(s: Seq<u8>) -> nat
    decreases s.len(),
{
    if s.len() == 0 {
        0
    } else if s[0] == 10 {
        0
    } else {
        (1 + line_end(s.drop_first())) as nat
    }
}

/// The effect of a whole text, applied line by line from a starting array and
/// cursor; stops at the first malformed line.
pub open spec fn load_lines(
    arr: Seq<u64>,
    cursor: int,
    s: Seq<u8>,
    line_no: int,
    limit: u64,
) -> Result<Seq<u64>, HexError>
    decreases s.len(),
{
    if s.len() == 0 {
        Ok(arr)
    } else {
        let e = line_end(s);
        if e > s.len() {
            // Unreachable: `line_end` is bounded by the length.
            Ok(arr)
        } else {
            let line = s.subrange(0, e as int);
            let rest = if e < s.len() {
                s.subrange(e as int + 1, s.len() as int)
            } else {
                Seq::<u8>::empty()
            };
            match apply_line(arr, cursor, line, line_no, limit) {
                Err(err) => Err(err),
                Ok((arr2, cur2)) => load_lines(arr2, cur2, rest, line_no + 1, limit),
            }
        }
    }
}

/// An ASCII hex digit's value, or `None` for any other byte.
pub fn hex_digit(b: u8) -> (r: Option<u8>)
    ensures
        r == hex_digit_value(b),
{
    if 48 <= b && b <= 57 {
        Some(b - 48)
    } else if 97 <= b && b <= 102 {
        Some(b - 87)
    } else if 65 <= b && b <= 70 {
        Some(b - 55)
    } else {
        None
    }
}

/// Parses `v` from index `from` on as a hex number.
fn parse_hex_range(v: &Vec<u8>, from: usize) -> (r: Option<u64>)
    requires
        from <= v@.len(),
    ensures
        r == parse_hex(v@.subrange(from as int, v@.len() as int)),
{
    let n = v.len();
    if from == n {
        return None;
    }
    let mut acc: u64 = 0;
    let mut i = from;
    while i < n
        invariant
            from <= i <= n,
            n == v@.len(),
            parse_hex_rec(v@.subrange(from as int, n as int), 0) == parse_hex_rec(
                v@.subrange(i as int, n as int),
                acc,
            ),
        decreases n - i,
    {
        let ghost pre = v@.subrange(i as int, n as int);
        match hex_digit(v[i]) {
            None => {
                return None;
            },
            Some(d) => {
                if acc > (u64::MAX - d as u64) / 16 {
                    return None;
                }
                proof {
                    assert(pre.drop_first() =~= v@.subrange(i + 1, n as int));
                }
                acc = 16 * acc + d as u64;
                i = i + 1;
            },
        }
    }
    proof {
        assert(v@.subrange(i as int, n as int) =~= Seq::<u8>::empty());
    }
    Some(acc)
}

/// Applies one raw line `text[start..end]` to the array and cursor.
fn apply_line_exec(
    arr: &mut Vec<u64>,
    text: &[u8],
    start: usize,
    end: usize,
    cursor: usize,
    line_no: usize,
    limit: u64,
) -> (r: Result<usize, HexError>)
    requires
        start <= end <= text@.len(),
    ensures
        ({
            let l = text@.subrange(start as int, end as int);
            match r {
                Ok(c2) => apply_line(old(arr)@, cursor as int, l, line_no as int, limit) == Ok::<
                    _,
                    HexError,
                >((final(arr)@, c2 as int)),
                Err(e) => apply_line(old(arr)@, cursor as int, l, line_no as int, limit) == Err::<
                    (Seq<u64>, int),
                    _,
                >(e) && final(arr)@ == old(arr)@,
            }
        }),
{
    let ghost l = text@.subrange(start as int, end as int);
    // Find the start of a `//` comment, if any.
    let mut ce = start;
    while end - ce > 1 && !(text[ce] == 47 && text[ce + 1] == 47)
        invariant
            start <= ce,
            ce <= end <= text@.len(),
            comment_start(l) == (ce - start) + comment_start(
                text@.subrange(ce as int, end as int),
            ),
        decreases end - ce,
    {
        proof {
            let cur = text@.subrange(ce as int, end as int);
            assert(cur.drop_first() =~= text@.subrange(ce as int + 1, end as int));
        }
        ce = ce + 1;
    }
    proof {
        let cur = text@.subrange(ce as int, end as int);
        if end - ce > 1 {
            assert(comment_start(cur) == 0);
        } else {
            assert(cur.len() < 2);
        }
        assert(comment_start(l) <= l.len());
    }
    let ce = if end - ce > 1 {
        ce
    } else {
        end
    };
    proof {
        assert(l.subrange(0, comment_start(l) as int) =~= text@.subrange(
            start as int,
            ce as int,
        ));
    }
    // Trim whitespace on both sides of `text[start..ce]`.
    let ghost body = text@.subrange(start as int, ce as int);
    let mut a = start;
    while a < ce && (text[a] == 32 || text[a] == 9 || text[a] == 13 || text[a] == 11 || text[a]
        == 12)
        invariant
            start <= a <= ce <= text@.len(),
            leading_spaces(body) == (a - start) + leading_spaces(
                text@.subrange(a as int, ce as int),
            ),
        decreases ce - a,
    {
        proof {
            let cur = text@.subrange(a as int, ce as int);
            assert(cur.drop_first() =~= text@.subrange(a as int + 1, ce as int));
        }
        a = a + 1;
    }
    proof {
        assert(leading_spaces(text@.subrange(a as int, ce as int)) == 0);
        assert(leading_spaces(body) == a - start);
    }
    if a == ce {
        // The line is blank (or only a comment): nothing to do.
        proof {
            assert(leading_spaces(body) == body.len());
            assert(cleaned(l).len() == 0);
        }
        return Ok(cursor);
    }
    let mut b = ce;
    while b > a && (text[b - 1] == 32 || text[b - 1] == 9 || text[b - 1] == 13 || text[b - 1]
        == 11 || text[b - 1] == 12)
        invariant
            a < b <= ce <= text@.len(),
            !is_space(text@[a as int]),
            forall|k: int| b <= k < ce ==> is_space(#[trigger] text@[k]),
        decreases b - a,
    {
        if b - 1 == a {
            // Cannot happen: the byte at `a` is not whitespace.
            proof {
                assert(is_space(text@[a as int]));
            }
        }
        b = b - 1;
    }
    proof {
        let kept = text@.subrange(start as int, b as int);
        assert(kept.last() == text@[b - 1]);
        assert(trailing_spaces(kept) == 0);
        assert(trailing_spaces(body) == ce - b) by {
            lemma_trailing_of_subrange(text@, start as int, b as int, ce as int);
        }
        // Leading whitespace was exhausted at `a`, so the byte there is not
        // whitespace and the trim of the body spans exactly [a, b).
        let tail = text@.subrange(a as int, ce as int);
        assert(tail[0] == text@[a as int]);
        assert(leading_spaces(body) < body.len());
        assert(cleaned(l) =~= text@.subrange(a as int, b as int));
    }
    // Strip underscores from the trimmed payload.
    let mut buf: Vec<u8> = Vec::new();
    let mut i = a;
    while i < b
        invariant
            a <= i <= b <= text@.len(),
            buf@ == strip_unders(text@.subrange(a as int, i as int)),
        decreases b - i,
    {
        let x = text[i];
        if x != 95 {
            buf.push(x);
        }
        proof {
            let ext = text@.subrange(a as int, i as int + 1);
            assert(ext.last() == text@[i as int]);
            assert(ext.drop_last() =~= text@.subrange(a as int, i as int));
        }
        i = i + 1;
    }
    let ghost u = strip_unders(cleaned(l));
    proof {
        assert(text@.subrange(a as int, b as int) =~= text@.subrange(a as int, b as int));
        assert(buf@ == u);
    }
    if buf.len() > 0 && buf[0] == 64 {
        // An address line: move the load cursor.
        proof {
            assert(u.drop_first() =~= buf@.subrange(1, buf@.len() as int));
        }
        match parse_hex_range(&buf, 1) {
            None => Err(HexError::Malformed { line: line_no }),
            Some(v) => {
                if v > usize::MAX as u64 {
                    Err(HexError::Malformed { line: line_no })
                } else {
                    Ok(v as usize)
                }
            },
        }
    } else {
        proof {
            assert(u =~= buf@.subrange(0, buf@.len() as int));
        }
        match parse_hex_range(&buf, 0) {
            None => Err(HexError::Malformed { line: line_no }),
            Some(v) => {
                if v > limit {
                    return Err(HexError::Malformed { line: line_no });
                }
                if cursor < arr.len() {
                    arr[cursor] = v;
                    Ok(cursor + 1)
                } else {
                    Err(HexError::OutOfRange { line: line_no, addr: cursor })
                }
            },
        }
    }
}

/// Trailing whitespace of a range only depends on how far the whitespace
/// reaches back from its end.
proof fn lemma_trailing_of_subrange(s: Seq<u8>, a: int, b: int, ce: int)
    requires
        0 <= a <= b <= ce <= s.len(),
        trailing_spaces(s.subrange(a, b)) == 0,
        forall|k: int| b <= k < ce ==> is_space(#[trigger] s[k]),
    ensures
        trailing_spaces(s.subrange(a, ce)) == ce - b,
    decreases ce - b,
{
    if ce == b {
        assert(s.subrange(a, ce) =~= s.subrange(a, b));
    } else {
        let cur = s.subrange(a, ce);
        assert(cur.last() == s[ce - 1]);
        assert(cur.drop_last() =~= s.subrange(a, ce - 1));
        lemma_trailing_of_subrange(s, a, b, ce - 1);
    }
}

/// Loads hex-encoded initialization data into `array`, in place.  `limit` is
/// the largest value the destination registers can hold: a larger value is
/// malformed data, so a caller narrowing the cells afterwards never
/// truncates.  On success the array holds exactly the line-by-line model of
/// the text; on failure the model fails with the same error (the array may
/// hold values from the lines before the bad one, as the run aborts anyway).
pub fn load_hex_text(array: &mut Vec<u64>, text: &[u8], limit: u64) -> (r: Result<(), HexError>)
    requires
        text@.len() < usize::MAX,
    ensures
        match r {
            Ok(()) => load_lines(old(array)@, 0, text@, 1, limit) == Ok::<_, HexError>(
                final(array)@,
            ),
            Err(e) => load_lines(old(array)@, 0, text@, 1, limit) == Err::<Seq<u64>, _>(e),
        },
        final(array)@.len() == old(array)@.len(),
{
    let n = text.len();
    let mut pos: usize = 0;
    let mut cursor: usize = 0;
    let mut line_no: usize = 1;
    proof {
        assert(text@.subrange(0, n as int) =~= text@);
    }
    while pos < n
        invariant
            pos <= n,
            n == text@.len(),
            n < usize::MAX,
            line_no <= pos + 1,
            array@.len() == old(array)@.len(),
            load_lines(old(array)@, 0, text@, 1, limit) == load_lines(
                array@,
                cursor as int,
                text@.subrange(pos as int, n as int),
                line_no as int,
                limit,
            ),
        decreases n - pos,
    {
        let ghost rem = text@.subrange(pos as int, n as int);
        // Find the end of the current line.
        let mut j = pos;
        while j < n && text[j] != 10
            invariant
                pos <= j <= n,
                n == text@.len(),
                line_end(rem) == (j - pos) + line_end(text@.subrange(j as int, n as int)),
            decreases n - j,
        {
            proof {
                let cur = text@.subrange(j as int, n as int);
                assert(cur.drop_first() =~= text@.subrange(j as int + 1, n as int));
            }
            j = j + 1;
        }
        proof {
            assert(line_end(text@.subrange(j as int, n as int)) == 0);
            assert(line_end(rem) == j - pos);
            assert(rem.subrange(0, (j - pos) as int) =~= text@.subrange(pos as int, j as int));
        }
        match apply_line_exec(array, text, pos, j, cursor, line_no, limit) {
            Err(e) => {
                return Err(e);
            },
            Ok(c2) => {
                cursor = c2;
            },
        }
        proof {
            if j < n {
                assert(rem.subrange(j - pos + 1, rem.len() as int) =~= text@.subrange(
                    j as int + 1,
                    n as int,
                ));
            } else {
                assert(text@.subrange(n as int, n as int) =~= Seq::<u8>::empty());
            }
        }
        pos = if j < n {
            j + 1
        } else {
            j
        };
        line_no = line_no + 1;
    }
    proof {
        assert(text@.subrange(pos as int, n as int) =~= Seq::<u8>::empty());
    }
    Ok(())
}

} // verus!
