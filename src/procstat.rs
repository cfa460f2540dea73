use vstd::prelude::*;

verus! {

/// Position of the thread count among the fields of a process stat line.
pub const THREAD_COUNT_FIELD: usize = 19;

/// Thread count used when none can be read.
pub const DEFAULT_THREAD_COUNT: usize = 1;

/// ASCII whitespace: space, and tab through carriage return.
pub open spec fn is_blank(b: u8) -> bool {
    b == 32 || (9 <= b && b <= 13)
}

/// The whitespace-separated fields of `s`, in order.
pub open spec fn fields(s: Seq<u8>) -> Seq<Seq<u8>>
    decreases s.len(),
{
    if s.len() == 0 {
        Seq::empty()
    } else {
        let f = fields(s.drop_last());
        let b = s.last();
        if is_blank(b) {
            f
        } else if s.len() >= 2 && !is_blank(s[s.len() - 2]) {
            f.update(f.len() - 1, f.last().push(b))
        } else {
            f.push(seq![b])
        }
    }
}

pub open spec fn all_digits(s: Seq<u8>) -> bool {
    forall|i: int| 0 <= i < s.len() ==> 48 <= #[trigger] s[i] <= 57
}

/// The number that the decimal digits `s` write.
pub open spec fn digits_value(s: Seq<u8>) -> nat
    decreases s.len(),
{
    if s.len() == 0 {
        0
    } else {
        digits_value(s.drop_last()) * 10 + (s.last() - 48) as nat
    }
}

/// `s` without one leading `+`.
pub open spec fn unsigned_body(s: Seq<u8>) -> Seq<u8> {
    if s.len() > 0 && s[0] == 43 {
        s.drop_first()
    } else {
        s
    }
}

/// `s` is an unsigned decimal number that fits in `usize`, with an optional leading `+`.
pub open spec fn parses_as_usize(s: Seq<u8>) -> bool {
    let d = unsigned_body(s);
    d.len() > 0 && all_digits(d) && digits_value(d) <= usize::MAX
}

/// The thread count in a process stat line: its field at `THREAD_COUNT_FIELD`
/// read as a number, or 1 where that field is missing or is no number.
pub open spec fn thread_count_spec(s: Seq<u8>) -> usize {
    let f = fields(s);
    if f.len() > THREAD_COUNT_FIELD && parses_as_usize(f[THREAD_COUNT_FIELD as int]) {
        digits_value(unsigned_body(f[THREAD_COUNT_FIELD as int])) as usize
    } else {
        DEFAULT_THREAD_COUNT
    }
}

/// Reads an unsigned decimal number, with an optional leading `+`.
pub fn parse_usize(s: &Vec<u8>) -> (r: Option<usize>)
    ensures
        r == if parses_as_usize(s@) {
            Some(digits_value(unsigned_body(s@)) as usize)
        } else {
            None::<usize>
        },
{
    let start: usize = if s.len() > 0 && s[0] == 43 { 1 } else { 0 };
    let ghost d = unsigned_body(s@);
    assert(d =~= s@.subrange(start as int, s.len() as int));
    if start == s.len() {
        return None;
    }
    let mut value: u128 = 0;
    let mut overflow = false;
    let mut i: usize = start;
    while i < s.len()
        invariant
            start <= i <= s.len(),
            d == s@.subrange(start as int, s.len() as int),
            d == unsigned_body(s@),
            all_digits(s@.subrange(start as int, i as int)),
            !overflow ==> value == digits_value(s@.subrange(start as int, i as int)),
            !overflow ==> value <= usize::MAX,
            overflow ==> digits_value(s@.subrange(start as int, i as int)) > usize::MAX,
        decreases s.len() - i,
    {
        let b = s[i];
        if b < 48 || b > 57 {
            assert(d[i - start] == b);
            assert(!all_digits(d));
            assert(!parses_as_usize(s@));
            return None;
        }
        let ghost prev = s@.subrange(start as int, i as int);
        let ghost next = s@.subrange(start as int, i + 1);
        assert(next.drop_last() =~= prev);
        assert(digits_value(next) == digits_value(prev) * 10 + (b - 48) as nat);
        if !overflow {
            let candidate: u128 = value * 10 + (b - 48) as u128;
            if candidate > usize::MAX as u128 {
                overflow = true;
            } else {
                value = candidate;
            }
        } else {
            assert(digits_value(prev) * 10 + (b - 48) as nat >= digits_value(prev)) by (
            nonlinear_arith);
        }
        i += 1;
        assert(all_digits(next)) by {
            assert forall|k: int| 0 <= k < next.len() implies 48 <= #[trigger] next[k] <= 57 by {
                if k < prev.len() {
                    assert(next[k] == prev[k]);
                }
            }
        }
    }
    assert(s@.subrange(start as int, i as int) =~= d);
    if overflow {
        None
    } else {
        Some(value as usize)
    }
}

/// The thread count of a process from the contents of its stat file, or 1
/// where the file could not be read or holds no count.
pub fn thread_count_from_stat(contents: Option<Vec<u8>>) -> (r: usize)
    ensures
        r == match contents {
            Some(s) => thread_count_spec(s@),
            None => DEFAULT_THREAD_COUNT,
        },
{
    let s = match contents {
        Some(s) => s,
        None => {
            return DEFAULT_THREAD_COUNT;
        },
    };
    let mut count: usize = 0;
    let mut target: Vec<u8> = Vec::new();
    let mut i: usize = 0;
    while i < s.len()
        invariant
            i <= s.len(),
            count == fields(s@.subrange(0, i as int)).len(),
            count <= i,
            i > 0 && !is_blank(s@[i - 1]) ==> count > 0,
            count > THREAD_COUNT_FIELD ==> target@ == fields(s@.subrange(0, i as int))[THREAD_COUNT_FIELD as int],
        decreases s.len() - i,
    {
        let ghost prev = s@.subrange(0, i as int);
        let ghost next = s@.subrange(0, i + 1);
        assert(next.drop_last() =~= prev);
        let b = s[i];
        let blank = b == 32 || (9 <= b && b <= 13);
        if !blank {
            if i > 0 && !(s[i - 1] == 32 || (9 <= s[i - 1] && s[i - 1] <= 13)) {
                assert(next[next.len() - 2] == s@[i - 1]);
                if count - 1 == THREAD_COUNT_FIELD {
                    target.push(b);
                }
            } else {
                count = count + 1;
                if count - 1 == THREAD_COUNT_FIELD {
                    target = Vec::new();
                    target.push(b);
                    assert(target@ =~= seq![b]);
                }
            }
        }
        i += 1;
    }
    assert(s@.subrange(0, i as int) =~= s@);
    if count > THREAD_COUNT_FIELD {
        match parse_usize(&target) {
            Some(n) => n,
            None => DEFAULT_THREAD_COUNT,
        }
    } else {
        DEFAULT_THREAD_COUNT
    }
}

} // verus!
