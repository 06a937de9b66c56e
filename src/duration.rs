use vstd::prelude::*;

verus! {

/// Why a duration argument was refused.
#[derive(Clone, Copy, Debug, PartialEq, Eq)]
pub enum DurationError {
    /// The text is not of the form `[hh:]mm:ss` with integer fields.
    Format,
    /// The total number of seconds does not fit an `i64`.
    OutOfRange,
}

/// Whether `s` is one or more ASCII decimal digits.
pub open spec fn is_digits(s: Seq<char>) -> bool {
    s.len() > 0 && forall|i: int| 0 <= i < s.len() ==> '0' <= #[trigger] s[i] <= '9'
}

/// The value of a run of decimal digits.
pub open spec fn digits_value(s: Seq<char>) -> int
    decreases s.len(),
{
    if s.len() == 0 {
        0
    } else {
        digits_value(s.drop_last()) * 10 + (s.last() as int - '0' as int)
    }
}

/// The integer a text writes: an optional `+` or `-`, then decimal digits.
pub open spec fn integer_value(s: Seq<char>) -> Option<int> {
    if s.len() > 0 && s[0] == '-' && is_digits(s.skip(1)) {
        Some(-digits_value(s.skip(1)))
    } else if s.len() > 0 && s[0] == '+' && is_digits(s.skip(1)) {
        Some(digits_value(s.skip(1)))
    } else if is_digits(s) {
        Some(digits_value(s))
    } else {
        None
    }
}

/// Relies on `i64::from_str`: it accepts an optional sign followed by decimal
/// digits, and only a value that fits an `i64`.
#[verifier::external_body]
fn parse_i64(s: &str) -> (r: Option<i64>)
    ensures
        match field_value(s@) {
            Some(v) => r == Some(v as i64),
            None => r is None,
        },
{
    <i64 as std::str::FromStr>::from_str(s).ok()
}

/// The pieces between the colons of the first `n` characters of `s`; there is
/// always at least one, possibly empty.
pub open spec fn pieces_upto(s: Seq<char>, n: int) -> Seq<Seq<char>>
    decreases n,
{
    if n <= 0 {
        seq![Seq::empty()]
    } else {
        let before = pieces_upto(s, n - 1);
        if s[n - 1] == ':' {
            before.push(Seq::empty())
        } else {
            before.update(before.len() - 1, before.last().push(s[n - 1]))
        }
    }
}

/// The pieces of `s` between colons, as `str::split_terminator(':')` gives
/// them: a last piece that is empty is left out.
pub open spec fn colon_pieces(s: Seq<char>) -> Seq<Seq<char>> {
    let all = pieces_upto(s, s.len() as int);
    if all.last().len() == 0 {
        all.drop_last()
    } else {
        all
    }
}

/// The value of one field of a duration: an integer that fits an `i64`.
pub open spec fn field_value(s: Seq<char>) -> Option<int> {
    match integer_value(s) {
        Some(v) => if i64::MIN <= v <= i64::MAX {
            Some(v)
        } else {
            None
        },
        None => None,
    }
}

/// The number of seconds a `[hh:]mm:ss` text stands for.
pub open spec fn duration_seconds(s: Seq<char>) -> Option<int> {
    let p = colon_pieces(s);
    if p.len() == 2 && field_value(p[0]) is Some && field_value(p[1]) is Some {
        Some(field_value(p[0]).unwrap() * 60 + field_value(p[1]).unwrap())
    } else if p.len() == 3 && field_value(p[0]) is Some && field_value(p[1]) is Some
        && field_value(p[2]) is Some {
        Some(
            field_value(p[0]).unwrap() * 3600 + field_value(p[1]).unwrap() * 60
                + field_value(p[2]).unwrap(),
        )
    } else {
        None
    }
}

pub open spec fn views(v: Seq<String>) -> Seq<Seq<char>> {
    v.map_values(|x: String| x@)
}

/// The pieces found so far, closed ones in `done` and the open one starting
/// at `start`, are those of the first `n` characters.
proof fn lemma_pieces_step(s: Seq<char>, done: Seq<Seq<char>>, start: int, n: int)
    requires
        0 <= start <= n < s.len(),
        pieces_upto(s, n) == done.push(s.subrange(start, n)),
    ensures
        s[n] == ':' ==> pieces_upto(s, n + 1) == done.push(s.subrange(start, n)).push(
            s.subrange(n + 1, n + 1),
        ),
        s[n] != ':' ==> pieces_upto(s, n + 1) == done.push(s.subrange(start, n + 1)),
{
    if s[n] == ':' {
        assert(s.subrange(n + 1, n + 1) =~= Seq::<char>::empty());
    } else {
        assert(s.subrange(start, n).push(s[n]) =~= s.subrange(start, n + 1));
        assert(done.push(s.subrange(start, n)).update(done.len() as int, s.subrange(start, n + 1))
            =~= done.push(s.subrange(start, n + 1)));
    }
}

/// Splits `s` at each colon, leaving out an empty last piece.
pub fn split_colons(s: &str) -> (r: Vec<String>)
    ensures
        views(r@) == colon_pieces(s@),
{
    let n = s.unicode_len();
    let mut done: Vec<String> = Vec::new();
    let mut start: usize = 0;
    let mut i: usize = 0;
    assert(s@.subrange(0, 0) =~= Seq::<char>::empty());
    assert(views(done@).push(s@.subrange(0, 0)) =~= seq![Seq::<char>::empty()]);
    while i < n
        invariant
            n == s@.len(),
            start <= i <= n,
            pieces_upto(s@, i as int) == views(done@).push(s@.subrange(start as int, i as int)),
        decreases n - i,
    {
        proof {
            lemma_pieces_step(s@, views(done@), start as int, i as int);
        }
        if s.get_char(i) == ':' {
            let piece = String::from_str(s.substring_char(start, i));
            let ghost before = done@;
            done.push(piece);
            assert(views(done@) =~= views(before).push(piece@));
            start = i + 1;
        }
        i = i + 1;
    }
    let last = String::from_str(s.substring_char(start, n));
    let ghost before = done@;
    if last.as_str().unicode_len() > 0 {
        done.push(last);
        assert(views(done@) =~= views(before).push(last@));
    } else {
        assert(views(done@) =~= views(before).push(last@).drop_last());
    }
    done
}

/// Reads a duration of the form `[hh:]mm:ss` into seconds: `"10:12"` is 612
/// seconds, `"1:10:12"` is 4212. Each field is an integer that fits an `i64`.
pub fn parse_duration(s: &str) -> (r: Result<i64, DurationError>)
    ensures
        match duration_seconds(s@) {
            None => r == Err::<i64, DurationError>(DurationError::Format),
            Some(v) => if i64::MIN <= v <= i64::MAX {
                r == Ok::<i64, DurationError>(v as i64)
            } else {
                r == Err::<i64, DurationError>(DurationError::OutOfRange)
            },
        },
{
    let parts = split_colons(s);
    let ghost p = colon_pieces(s@);
    proof {
        assert forall|i: int| 0 <= i < parts@.len() implies parts@[i]@ == p[i] by {
            assert(views(parts@)[i] == parts@[i]@);
        }
    }
    let total: i128 = if parts.len() == 2 {
        let m = match parse_i64(parts[0].as_str()) {
            Some(v) => v,
            None => return Err(DurationError::Format),
        };
        let sec = match parse_i64(parts[1].as_str()) {
            Some(v) => v,
            None => return Err(DurationError::Format),
        };
        m as i128 * 60 + sec as i128
    } else if parts.len() == 3 {
        let h = match parse_i64(parts[0].as_str()) {
            Some(v) => v,
            None => return Err(DurationError::Format),
        };
        let m = match parse_i64(parts[1].as_str()) {
            Some(v) => v,
            None => return Err(DurationError::Format),
        };
        let sec = match parse_i64(parts[2].as_str()) {
            Some(v) => v,
            None => return Err(DurationError::Format),
        };
        h as i128 * 3600 + m as i128 * 60 + sec as i128
    } else {
        return Err(DurationError::Format);
    };
    if total < i64::MIN as i128 || total > i64::MAX as i128 {
        return Err(DurationError::OutOfRange);
    }
    Ok(total as i64)
}

} // verus!
