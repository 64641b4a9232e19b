use vstd::prelude::*;

verus! {

/// ASCII decimal digit.
pub open spec fn is_digit_byte(b: u8) -> bool {
    48 <= b <= 57
}

/// ASCII whitespace, as trimming understands it: space, horizontal tab,
/// line feed, vertical tab, form feed, carriage return.
pub open spec fn is_space_byte(b: u8) -> bool {
    b == 32 || (9 <= b <= 13)
}

/// Everything before the first line feed (the whole content if there is
/// none). A trailing carriage return is left in place here; trimming
/// removes it.
pub open spec fn spec_first_line(s: Seq<u8>) -> Seq<u8>
    decreases s.len(),
{
    if s.len() == 0 {
        s
    } else if s[0] == 10 {
        Seq::empty()
    } else {
        seq![s[0]] + spec_first_line(s.drop_first())
    }
}

pub open spec fn spec_trim_front(s: Seq<u8>) -> Seq<u8>
    decreases s.len(),
{
    if s.len() > 0 && is_space_byte(s[0]) {
        spec_trim_front(s.drop_first())
    } else {
        s
    }
}

pub open spec fn spec_trim_back(s: Seq<u8>) -> Seq<u8>
    decreases s.len(),
{
    if s.len() > 0 && is_space_byte(s.last()) {
        spec_trim_back(s.drop_last())
    } else {
        s
    }
}

/// Whitespace stripped from both ends.
pub open spec fn spec_trim(s: Seq<u8>) -> Seq<u8> {
    spec_trim_back(spec_trim_front(s))
}

/// The numeric value of a byte sequence read as decimal digits.
pub open spec fn digits_value(s: Seq<u8>) -> nat
    decreases s.len(),
{
    if s.len() == 0 {
        0
    } else {
        digits_value(s.drop_last()) * 10 + (s.last() - 48) as nat
    }
}

pub open spec fn all_digits(s: Seq<u8>) -> bool {
    forall|i: int| 0 <= i < s.len() ==> is_digit_byte(s[i])
}

/// The digits of a decimal numeral: an optional leading plus sign is
/// allowed, a minus sign is not (the value is unsigned).
pub open spec fn digits_part(s: Seq<u8>) -> Seq<u8> {
    if s.len() > 0 && s[0] == 43 {
        s.drop_first()
    } else {
        s
    }
}

/// Strict decimal parse of a trimmed numeral: at least one digit, digits
/// only, and a value that fits; anything else is rejected.
pub open spec fn spec_parse_u32(s: Seq<u8>) -> Option<u32> {
    let d = digits_part(s);
    if d.len() > 0 && all_digits(d) && digits_value(d) <= u32::MAX {
        Some(digits_value(d) as u32)
    } else {
        None
    }
}

/// The process id recorded in a pid-style file: the first line of the file,
/// trimmed of surrounding whitespace, read as a decimal number — or nothing
/// if that line is not such a number. A missing file is handled by the
/// caller passing no content at all.
pub open spec fn spec_parse_pid(content: Seq<u8>) -> Option<u32> {
    spec_parse_u32(spec_trim(spec_first_line(content)))
}

proof fn lemma_first_line_subrange(s: Seq<u8>, e: int)
    requires
        0 <= e <= s.len(),
        forall|j: int| 0 <= j < e ==> s[j] != 10,
        e < s.len() ==> s[e] == 10,
    ensures
        spec_first_line(s) == s.subrange(0, e),
    decreases e,
{
    if e == 0 {
        assert(spec_first_line(s) =~= s.subrange(0, 0));
    } else {
        assert(s[0] != 10);
        let t = s.drop_first();
        assert(forall|j: int| 0 <= j < e - 1 ==> t[j] != 10);
        lemma_first_line_subrange(t, e - 1);
        assert(spec_first_line(s) == seq![s[0]] + t.subrange(0, e - 1));
        assert(seq![s[0]] + t.subrange(0, e - 1) =~= s.subrange(0, e));
    }
}

proof fn lemma_trim_front_subrange(s: Seq<u8>, k: int)
    requires
        0 <= k <= s.len(),
        forall|j: int| 0 <= j < k ==> is_space_byte(s[j]),
        k < s.len() ==> !is_space_byte(s[k]),
    ensures
        spec_trim_front(s) == s.subrange(k, s.len() as int),
    decreases k,
{
    if k == 0 {
        assert(spec_trim_front(s) =~= s.subrange(0, s.len() as int));
    } else {
        let t = s.drop_first();
        lemma_trim_front_subrange(t, k - 1);
        assert(t.subrange(k - 1, t.len() as int) =~= s.subrange(k, s.len() as int));
    }
}

proof fn lemma_trim_back_subrange(s: Seq<u8>, h: int)
    requires
        0 <= h <= s.len(),
        forall|j: int| h <= j < s.len() ==> is_space_byte(s[j]),
        h > 0 ==> !is_space_byte(s[h - 1]),
    ensures
        spec_trim_back(s) == s.subrange(0, h),
    decreases s.len(),
{
    if h == s.len() {
        assert(spec_trim_back(s) =~= s.subrange(0, h));
    } else {
        assert(is_space_byte(s.last()));
        let t = s.drop_last();
        assert(forall|j: int| h <= j < t.len() ==> is_space_byte(t[j]));
        lemma_trim_back_subrange(t, h);
        assert(t.subrange(0, h) =~= s.subrange(0, h));
    }
}

/// Appending more bytes to a numeral never shrinks its value.
proof fn lemma_digits_value_prefix(s: Seq<u8>, i: int)
    requires
        0 <= i <= s.len(),
    ensures
        digits_value(s.take(i)) <= digits_value(s),
    decreases s.len() - i,
{
    if i == s.len() {
        assert(s.take(i) =~= s);
    } else {
        let t = s.take(i + 1);
        lemma_digits_value_prefix(s, i + 1);
        assert(t.drop_last() =~= s.take(i));
        assert(digits_value(t) == digits_value(s.take(i)) * 10 + (t.last() - 48) as nat);
        assert(digits_value(s.take(i)) <= digits_value(s.take(i)) * 10);
    }
}

fn is_space(b: u8) -> (r: bool)
    ensures
        r == is_space_byte(b),
{
    b == 32 || (9 <= b && b <= 13)
}

/// Reads the process id out of a pid-style file's content, exactly as
/// [`spec_parse_pid`] describes: first line, trimmed, strictly decimal.
pub fn parse_pid(content: &Vec<u8>) -> (r: Option<u32>)
    ensures
        r == spec_parse_pid(content@),
{
    let n = content.len();
    // End of the first line: the first line feed, or the whole content.
    let mut end: usize = 0;
    while end < n && content[end] != 10
        invariant
            0 <= end <= n,
            n == content@.len(),
            forall|j: int| 0 <= j < end ==> content@[j] != 10,
        decreases n - end,
    {
        end += 1;
    }
    proof {
        lemma_first_line_subrange(content@, end as int);
    }
    let ghost line = content@.subrange(0, end as int);

    // Trim bounds within the first line.
    let mut lo: usize = 0;
    while lo < end && is_space(content[lo])
        invariant
            0 <= lo <= end <= n,
            n == content@.len(),
            forall|j: int| 0 <= j < lo ==> is_space_byte(content@[j]),
        decreases end - lo,
    {
        lo += 1;
    }
    proof {
        lemma_trim_front_subrange(line, lo as int);
        assert(line.subrange(lo as int, line.len() as int) =~= content@.subrange(
            lo as int,
            end as int,
        ));
    }
    let ghost fronted = content@.subrange(lo as int, end as int);

    let mut hi: usize = end;
    while hi > lo && is_space(content[hi - 1])
        invariant
            lo <= hi <= end <= n,
            n == content@.len(),
            forall|j: int| hi <= j < end ==> is_space_byte(content@[j]),
        decreases hi,
    {
        hi -= 1;
    }
    proof {
        lemma_trim_back_subrange(fronted, hi - lo);
        assert(fronted.subrange(0, hi - lo) =~= content@.subrange(lo as int, hi as int));
        assert(spec_trim(spec_first_line(content@)) == content@.subrange(lo as int, hi as int));
    }
    let ghost trimmed = content@.subrange(lo as int, hi as int);

    // Skip one optional leading plus sign.
    let dstart: usize = if lo < hi && content[lo] == 43 {
        lo + 1
    } else {
        lo
    };
    proof {
        assert(digits_part(trimmed) =~= content@.subrange(dstart as int, hi as int));
    }
    let ghost d = content@.subrange(dstart as int, hi as int);

    if dstart == hi {
        // No digits at all.
        return None;
    }
    let mut acc: u64 = 0;
    let mut i: usize = dstart;
    while i < hi
        invariant
            dstart <= i <= hi <= n,
            dstart < hi,
            n == content@.len(),
            d == content@.subrange(dstart as int, hi as int),
            d == digits_part(spec_trim(spec_first_line(content@))),
            forall|j: int| dstart <= j < i ==> is_digit_byte(content@[j]),
            acc == digits_value(d.take(i - dstart)),
            acc <= u32::MAX,
        decreases hi - i,
    {
        let b = content[i];
        if !(48 <= b && b <= 57) {
            // A non-digit anywhere makes the numeral invalid.
            proof {
                assert(!is_digit_byte(d[i - dstart]));
            }
            return None;
        }
        let next: u64 = acc * 10 + (b - 48) as u64;
        proof {
            let t = d.take(i + 1 - dstart);
            assert(t.drop_last() =~= d.take(i - dstart));
            assert(t.last() == content@[i as int]);
            assert(digits_value(t) == digits_value(d.take(i - dstart)) * 10 + (b - 48) as nat);
        }
        if next > 0xFFFF_FFFF {
            // The numeral's full value can only grow from here on.
            proof {
                lemma_digits_value_prefix(d, i + 1 - dstart);
            }
            return None;
        }
        acc = next;
        i += 1;
    }
    proof {
        assert(d.take(hi - dstart) =~= d);
        assert(all_digits(d));
    }
    Some(acc as u32)
}

} // verus!
