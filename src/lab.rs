//! Label files: one interval per line, written `start end label`, with the
//! times in units of 100 ns.
use vstd::prelude::*;
use vstd::string::StrSliceExecFns;
use crate::generate::{canonical_label, canonical_label_spec};
use crate::time::Timestamp;

verus! {

/// Why a label file was refused, with the index of the offending line.
#[derive(Debug, Clone, Copy, PartialEq, Eq, Structural)]
pub enum LabError {
    /// A start or end time that is not a decimal number fitting in 64 bits.
    InvalidNumber(usize),
    /// A start time after the end time.
    Reversed(usize),
}

/// Position of the first space of `s` at or after `i`, or `s.len()`.
pub open spec fn space_from(s: Seq<char>, i: int) -> int
    decreases s.len() - i,
{
    if i < 0 || i >= s.len() {
        s.len() as int
    } else if s[i] == ' ' {
        i
    } else {
        space_from(s, i + 1)
    }
}

/// The three fields of a line split at its first two spaces; none when the
/// line has fewer than two spaces.
pub open spec fn lab_fields(s: Seq<char>) -> Option<(Seq<char>, Seq<char>, Seq<char>)> {
    let a = space_from(s, 0);
    let b = space_from(s, a + 1);
    if a >= s.len() || b >= s.len() {
        None
    } else {
        Some((s.subrange(0, a), s.subrange(a + 1, b), s.subrange(b + 1, s.len() as int)))
    }
}

pub open spec fn is_digit(c: char) -> bool {
    '0' <= c <= '9'
}

/// The number that a string of decimal digits spells.
pub open spec fn digits_value(s: Seq<char>) -> int
    decreases s.len(),
{
    if s.len() == 0 {
        0
    } else {
        digits_value(s.drop_last()) * 10 + (s.last() as int - '0' as int)
    }
}

/// The digits of a number, without its optional leading `+`.
pub open spec fn unsigned_digits(s: Seq<char>) -> Seq<char> {
    if s.len() > 0 && s[0] == '+' {
        s.subrange(1, s.len() as int)
    } else {
        s
    }
}

/// A decimal number, optionally led by `+`, that fits in 64 bits.
pub open spec fn is_u64_text(s: Seq<char>) -> bool {
    let d = unsigned_digits(s);
    &&& d.len() > 0
    &&& forall|i: int| 0 <= i < d.len() ==> is_digit(#[trigger] d[i])
    &&& digits_value(d) <= u64::MAX
}

pub open spec fn u64_of_text(s: Seq<char>) -> int {
    digits_value(unsigned_digits(s))
}

/// The error that line `k` with text `s` gives, if any: lines with fewer
/// than three fields are skipped; the others need two valid times, the
/// start not after the end.
pub open spec fn line_error(s: Seq<char>, k: usize) -> Option<LabError> {
    match lab_fields(s) {
        None => None,
        Some(f) => if !(is_u64_text(f.0) && is_u64_text(f.1)) {
            Some(LabError::InvalidNumber(k))
        } else if u64_of_text(f.0) > u64_of_text(f.1) {
            Some(LabError::Reversed(k))
        } else {
            None
        },
    }
}

/// The line an error points at.
pub open spec fn error_line(e: LabError) -> usize {
    match e {
        LabError::InvalidNumber(k) => k,
        LabError::Reversed(k) => k,
    }
}

/// The intervals that the lines hold, in line order: lines with fewer than
/// three fields are skipped, times are turned into microseconds and labels
/// into their canonical form.
pub open spec fn lab_intervals(lines: Seq<String>) -> Seq<(int, int, Seq<char>)>
    decreases lines.len(),
{
    if lines.len() == 0 {
        Seq::empty()
    } else {
        let rest = lab_intervals(lines.drop_last());
        match lab_fields(lines.last()@) {
            None => rest,
            Some(f) => rest.push(
                (u64_of_text(f.0) / 10, u64_of_text(f.1) / 10, canonical_label_spec(f.2)),
            ),
        }
    }
}

/// The exec intervals agree with their description.
pub open spec fn intervals_agree(r: Seq<(Timestamp, Timestamp, String)>, s: Seq<(int, int, Seq<char>)>) -> bool {
    &&& r.len() == s.len()
    &&& forall|i: int|
        0 <= i < r.len() ==> (#[trigger] r[i]).0.value == s[i].0 && r[i].1.value == s[i].1
            && r[i].2@ == s[i].2
}

proof fn lemma_space_scan(s: Seq<char>, k: int, n: int)
    requires
        0 <= k <= n <= s.len(),
        n == s.len() || s[n] == ' ',
        forall|j: int| k <= j < n ==> s[j] != ' ',
    ensures
        space_from(s, k) == n,
    decreases n - k,
{
    if k < n {
        lemma_space_scan(s, k + 1, n);
    }
}

fn find_space(s: &str, from: usize) -> (r: usize)
    requires
        from <= s@.len(),
    ensures
        r as int == space_from(s@, from as int),
        from <= r <= s@.len(),
{
    let n = s.unicode_len();
    let mut k = from;
    while k < n && s.get_char(k) != ' '
        invariant
            n == s@.len(),
            from <= k <= n,
            forall|j: int| from <= j < k ==> s@[j] != ' ',
        decreases n - k,
    {
        k = k + 1;
    }
    proof {
        lemma_space_scan(s@, from as int, k as int);
    }
    k
}

/// Reads a decimal number, optionally led by `+`, as `str::parse::<u64>` does.
pub fn parse_u64(s: &str) -> (r: Option<u64>)
    ensures
        r is Some <==> is_u64_text(s@),
        r is Some ==> r->0 == u64_of_text(s@),
{
    let n = s.unicode_len();
    let mut start: usize = 0;
    if n > 0 && s.get_char(0) == '+' {
        start = 1;
    }
    let ghost d = unsigned_digits(s@);
    assert(d =~= s@.subrange(start as int, n as int));
    if start == n {
        return None;
    }
    let mut value: u64 = 0;
    let mut i: usize = start;
    while i < n
        invariant
            n == s@.len(),
            start <= i <= n,
            d == s@.subrange(start as int, n as int),
            d == unsigned_digits(s@),
            forall|j: int| 0 <= j < i - start ==> is_digit(#[trigger] d[j]),
            value == digits_value(d.subrange(0, i - start)),
        decreases n - i,
    {
        let c = s.get_char(i);
        let ghost k = i - start;
        assert(d[k] == c);
        assert(d.subrange(0, k + 1).drop_last() =~= d.subrange(0, k));
        if !('0' <= c && c <= '9') {
            assert(!is_digit(d[k]));
            return None;
        }
        let digit = (c as u32 - '0' as u32) as u64;
        let next = match value.checked_mul(10) {
            Some(v) => v.checked_add(digit),
            None => None,
        };
        match next {
            Some(w) => {
                value = w;
            },
            None => {
                proof {
                    assert(digits_value(d.subrange(0, k + 1)) == value * 10 + digit);
                    assert(value * 10 + digit > u64::MAX);
                    if forall|j: int| 0 <= j < d.len() ==> is_digit(#[trigger] d[j]) {
                        lemma_prefix_le(d, k + 1);
                    }
                }
                return None;
            },
        }
        i = i + 1;
    }
    assert(d.subrange(0, n - start) =~= d);
    Some(value)
}

/// A prefix of a run of digits spells a number no larger than the run.
proof fn lemma_prefix_le(d: Seq<char>, k: int)
    requires
        0 <= k <= d.len(),
        forall|j: int| 0 <= j < d.len() ==> is_digit(#[trigger] d[j]),
    ensures
        digits_value(d.subrange(0, k)) <= digits_value(d),
    decreases d.len(),
{
    if k == d.len() {
        assert(d.subrange(0, k) =~= d);
    } else {
        let p = d.drop_last();
        lemma_prefix_le(p, k);
        assert(p.subrange(0, k) =~= d.subrange(0, k));
        lemma_digits_nonneg(p);
    }
}

proof fn lemma_digits_nonneg(s: Seq<char>)
    requires
        forall|j: int| 0 <= j < s.len() ==> is_digit(#[trigger] s[j]),
    ensures
        digits_value(s) >= 0,
    decreases s.len(),
{
    if s.len() > 0 {
        lemma_digits_nonneg(s.drop_last());
    }
}

/// The intervals of a label file, given as its lines. The first line that
/// holds three fields but an invalid time, or a start after its end, is
/// reported.
pub fn intervals_from_lab(lines: &Vec<String>) -> (r: Result<Vec<(Timestamp, Timestamp, String)>, LabError>)
    ensures
        r is Ok <==> forall|k: int| 0 <= k < lines@.len() ==> line_error(#[trigger] lines@[k]@, k as usize) is None,
        r is Ok ==> intervals_agree(r->Ok_0@, lab_intervals(lines@)),
        r is Err ==> {
            let k = error_line(r->Err_0) as int;
            &&& 0 <= k < lines@.len()
            &&& line_error(lines@[k]@, k as usize) == Some(r->Err_0)
            &&& forall|j: int| 0 <= j < k ==> line_error(#[trigger] lines@[j]@, j as usize) is None
        },
{
    let mut out: Vec<(Timestamp, Timestamp, String)> = Vec::new();
    let mut i: usize = 0;
    while i < lines.len()
        invariant
            i <= lines@.len(),
            forall|k: int| 0 <= k < i ==> line_error(#[trigger] lines@[k]@, k as usize) is None,
            intervals_agree(out@, lab_intervals(lines@.subrange(0, i as int))),
        decreases lines@.len() - i,
    {
        let line = lines[i].as_str();
        let ghost before = out@;
        assert(lines@.subrange(0, i + 1).drop_last() =~= lines@.subrange(0, i as int));
        assert(lines@.subrange(0, i + 1).last() == lines@[i as int]);
        let n = line.unicode_len();
        let a = find_space(line, 0);
        if a < n {
            let b = find_space(line, a + 1);
            if b < n {
                let f0 = line.substring_char(0, a);
                let f1 = line.substring_char(a + 1, b);
                let f2 = line.substring_char(b + 1, n);
                match (parse_u64(f0), parse_u64(f1)) {
                    (Some(x), Some(y)) => {
                        if x > y {
                            return Err(LabError::Reversed(i));
                        }
                        let label = canonical_label(f2);
                        out.push((Timestamp::new(x / 10), Timestamp::new(y / 10), label));
                    },
                    _ => {
                        return Err(LabError::InvalidNumber(i));
                    },
                }
            }
        }
        assert(intervals_agree(out@, lab_intervals(lines@.subrange(0, i + 1))));
        i = i + 1;
    }
    assert(lines@.subrange(0, i as int) =~= lines@);
    Ok(out)
}

} // verus!
