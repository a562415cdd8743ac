//! Post identifiers.
//!
//! Upstream identifiers are base-36 numbers, optionally carrying the kind
//! prefix `t3_` (stripped even when repeated) and surrounding whitespace, as
//! when the identifier was read back from a file with a trailing newline.
//! `parse_id` turns such a string into the `u64` the watermark storage
//! orders posts by.

use vstd::prelude::*;

verus! {

/// Error returned when a post identifier cannot be read as a base-36 number.
#[derive(Clone, Copy, PartialEq, Eq, Structural, Debug)]
pub struct IdError;

/// ASCII whitespace, the only whitespace that ever surrounds an identifier.
pub open spec fn is_space_char(c: char) -> bool {
    c == ' ' || c == '\t' || c == '\n' || c == '\r'
}

/// The sequence with its leading whitespace removed.
pub open spec fn trim_front(s: Seq<char>) -> Seq<char>
    decreases s.len(),
{
    if s.len() > 0 && is_space_char(s[0]) {
        trim_front(s.skip(1))
    } else {
        s
    }
}

/// The sequence with its trailing whitespace removed.
pub open spec fn trim_back(s: Seq<char>) -> Seq<char>
    decreases s.len(),
{
    if s.len() > 0 && is_space_char(s[s.len() - 1]) {
        trim_back(s.take(s.len() - 1))
    } else {
        s
    }
}

/// The sequence with whitespace removed from both ends.
pub open spec fn spec_trim(s: Seq<char>) -> Seq<char> {
    trim_back(trim_front(s))
}

/// Whether the sequence starts with the kind prefix `t3_`.
pub open spec fn has_kind_prefix(s: Seq<char>) -> bool {
    s.len() >= 3 && s[0] == 't' && s[1] == '3' && s[2] == '_'
}

/// The sequence with every leading repetition of `t3_` removed.
pub open spec fn strip_kind_prefix(s: Seq<char>) -> Seq<char>
    decreases s.len(),
{
    if has_kind_prefix(s) {
        strip_kind_prefix(s.skip(3))
    } else {
        s
    }
}

/// The value of a single base-36 digit, if the character is one.
pub open spec fn digit36(c: char) -> Option<u64> {
    if '0' <= c && c <= '9' {
        Some((c as u32 - '0' as u32) as u64)
    } else if 'a' <= c && c <= 'z' {
        Some((c as u32 - 'a' as u32 + 10) as u64)
    } else if 'A' <= c && c <= 'Z' {
        Some((c as u32 - 'A' as u32 + 10) as u64)
    } else {
        None
    }
}

/// Folds base-36 digits into `acc`, left to right; `None` on a non-digit
/// or when the value no longer fits in a `u64`.
pub open spec fn parse_base36(s: Seq<char>, acc: u64) -> Option<u64>
    decreases s.len(),
{
    if s.len() == 0 {
        Some(acc)
    } else {
        match digit36(s[0]) {
            None => None,
            Some(d) => if acc * 36 + d > u64::MAX {
                None
            } else {
                parse_base36(s.skip(1), (acc * 36 + d) as u64)
            },
        }
    }
}

/// The numeric value of a post identifier: whitespace trimmed, kind
/// prefixes stripped, an optional single leading `+`, then at least one
/// base-36 digit; `None` whenever the string is not of that shape or the
/// value overflows a `u64`.
pub open spec fn spec_parse_id(s: Seq<char>) -> Option<u64> {
    let t = strip_kind_prefix(spec_trim(s));
    let u = if t.len() > 0 && t[0] == '+' {
        t.skip(1)
    } else {
        t
    };
    if u.len() == 0 {
        None
    } else {
        parse_base36(u, 0)
    }
}

/// Executable twin of `is_space_char`.
fn is_space(c: char) -> (r: bool)
    ensures
        r == is_space_char(c),
{
    c == ' ' || c == '\t' || c == '\n' || c == '\r'
}

/// Executable twin of `digit36`.
fn digit_value(c: char) -> (r: Option<u64>)
    ensures
        r == digit36(c),
{
    let x = c as u32;
    if '0' as u32 <= x && x <= '9' as u32 {
        Some((x - '0' as u32) as u64)
    } else if 'a' as u32 <= x && x <= 'z' as u32 {
        Some((x - 'a' as u32 + 10) as u64)
    } else if 'A' as u32 <= x && x <= 'Z' as u32 {
        Some((x - 'A' as u32 + 10) as u64)
    } else {
        None
    }
}

/// The identifier with every leading `t3_` kind prefix removed, for building
/// a permalink from it.
pub fn strip_kind_prefixes(id: &str) -> (r: String)
    ensures
        r@ == strip_kind_prefix(id@),
{
    let n = id.unicode_len();
    let mut lo: usize = 0;
    proof {
        assert(id@.subrange(0, n as int) =~= id@);
    }
    while n - lo >= 3 && id.get_char(lo) == 't' && id.get_char(lo + 1) == '3' && id.get_char(
        lo + 2,
    ) == '_'
        invariant
            lo <= n,
            n == id@.len(),
            strip_kind_prefix(id@) == strip_kind_prefix(id@.subrange(lo as int, n as int)),
        decreases n - lo,
    {
        proof {
            let seg = id@.subrange(lo as int, n as int);
            assert(seg[0] == id@[lo as int]);
            assert(seg[1] == id@[lo as int + 1]);
            assert(seg[2] == id@[lo as int + 2]);
            assert(has_kind_prefix(seg));
            assert(seg.skip(3) =~= id@.subrange(lo as int + 3, n as int));
        }
        lo = lo + 3;
    }
    proof {
        let seg = id@.subrange(lo as int, n as int);
        if seg.len() >= 3 {
            assert(seg[0] == id@[lo as int]);
            assert(seg[1] == id@[lo as int + 1]);
            assert(seg[2] == id@[lo as int + 2]);
        }
        assert(!has_kind_prefix(seg));
    }
    let tail = id.substring_char(lo, n);
    tail.to_owned()
}

/// Parses a post identifier as a base-36 number, ignoring surrounding
/// whitespace and leading `t3_` kind prefixes.
pub fn parse_id(id: &str) -> (r: Result<u64, IdError>)
    ensures
        r == match spec_parse_id(id@) {
            Some(n) => Ok::<u64, IdError>(n),
            None => Err::<u64, IdError>(IdError),
        },
{
    let n = id.unicode_len();
    let mut lo: usize = 0;
    let mut hi: usize = n;

    proof {
        assert(id@.skip(0) =~= id@);
    }
    while lo < n && is_space(id.get_char(lo))
        invariant
            lo <= n,
            n == id@.len(),
            trim_front(id@) == trim_front(id@.skip(lo as int)),
        decreases n - lo,
    {
        proof {
            assert(id@.skip(lo as int).skip(1) =~= id@.skip(lo as int + 1));
        }
        lo = lo + 1;
    }
    proof {
        assert(trim_front(id@) =~= id@.skip(lo as int));
    }

    while hi > lo && is_space(id.get_char(hi - 1))
        invariant
            lo <= hi <= n,
            n == id@.len(),
            trim_front(id@) == id@.skip(lo as int),
            spec_trim(id@) == trim_back(id@.subrange(lo as int, hi as int)),
        decreases hi,
    {
        proof {
            let seg = id@.subrange(lo as int, hi as int);
            assert(seg[seg.len() - 1] == id@[hi - 1]);
            assert(seg.take(seg.len() - 1) =~= id@.subrange(lo as int, hi as int - 1));
        }
        hi = hi - 1;
    }
    proof {
        let seg = id@.subrange(lo as int, hi as int);
        assert(trim_back(id@.skip(lo as int)) == trim_back(id@.subrange(lo as int, n as int)));
        assert(trim_back(seg) =~= seg);
        assert(spec_trim(id@) == id@.subrange(lo as int, hi as int));
    }

    while hi - lo >= 3 && id.get_char(lo) == 't' && id.get_char(lo + 1) == '3' && id.get_char(
        lo + 2,
    ) == '_'
        invariant
            lo <= hi <= n,
            n == id@.len(),
            strip_kind_prefix(spec_trim(id@)) == strip_kind_prefix(
                id@.subrange(lo as int, hi as int),
            ),
        decreases hi - lo,
    {
        proof {
            let seg = id@.subrange(lo as int, hi as int);
            assert(seg[0] == id@[lo as int]);
            assert(seg[1] == id@[lo as int + 1]);
            assert(seg[2] == id@[lo as int + 2]);
            assert(has_kind_prefix(seg));
            assert(seg.skip(3) =~= id@.subrange(lo as int + 3, hi as int));
        }
        lo = lo + 3;
    }
    proof {
        let seg = id@.subrange(lo as int, hi as int);
        if seg.len() >= 3 {
            assert(seg[0] == id@[lo as int]);
            assert(seg[1] == id@[lo as int + 1]);
            assert(seg[2] == id@[lo as int + 2]);
        }
        assert(!has_kind_prefix(seg));
        assert(strip_kind_prefix(spec_trim(id@)) == seg);
    }

    if lo < hi && id.get_char(lo) == '+' {
        proof {
            let seg = id@.subrange(lo as int, hi as int);
            assert(seg[0] == id@[lo as int]);
            assert(seg.skip(1) =~= id@.subrange(lo as int + 1, hi as int));
        }
        lo = lo + 1;
    } else {
        proof {
            let seg = id@.subrange(lo as int, hi as int);
            if seg.len() > 0 {
                assert(seg[0] == id@[lo as int]);
            }
        }
    }

    if lo == hi {
        proof {
            assert(id@.subrange(lo as int, hi as int).len() == 0);
        }
        return Err(IdError);
    }

    let ghost digits: Seq<char> = id@.subrange(lo as int, hi as int);
    proof {
        assert(spec_parse_id(id@) == parse_base36(digits, 0));
    }

    let mut acc: u64 = 0;
    let mut i: usize = lo;
    while i < hi
        invariant
            lo <= i <= hi <= n,
            n == id@.len(),
            digits == id@.subrange(lo as int, hi as int),
            spec_parse_id(id@) == parse_base36(digits, 0),
            parse_base36(digits, 0) == parse_base36(id@.subrange(i as int, hi as int), acc),
        decreases hi - i,
    {
        let ghost seg = id@.subrange(i as int, hi as int);
        proof {
            assert(seg[0] == id@[i as int]);
            assert(seg.skip(1) =~= id@.subrange(i as int + 1, hi as int));
        }
        let c = id.get_char(i);
        match digit_value(c) {
            None => {
                return Err(IdError);
            },
            Some(d) => {
                match acc.checked_mul(36) {
                    None => {
                        proof {
                            assert(acc * 36 + d > u64::MAX);
                        }
                        return Err(IdError);
                    },
                    Some(m) => {
                        match m.checked_add(d) {
                            None => {
                                return Err(IdError);
                            },
                            Some(v) => {
                                acc = v;
                            },
                        }
                    },
                }
            },
        }
        i = i + 1;
    }
    proof {
        assert(id@.subrange(i as int, hi as int).len() == 0);
    }
    Ok(acc)
}

} // verus!
