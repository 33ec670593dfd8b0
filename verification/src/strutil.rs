use vstd::prelude::*;

verus! {

/// Index of the first comma in `s` at or after `from`; `s.len()` where there
/// is none. Protocol messages are comma-separated, so this bounds a field.
pub open spec fn field_end(s: Seq<char>, from: int) -> int
    decreases s.len() - from,
{
    if from < 0 || from >= s.len() {
        s.len() as int
    } else if s[from] == ',' {
        from
    } else {
        field_end(s, from + 1)
    }
}

/// Finds the end of the comma-separated field that starts at `from`.
pub(crate) fn find_field_end(s: &str, from: usize) -> (r: usize)
    requires
        from <= s@.len(),
    ensures
        r == field_end(s@, from as int),
        from <= r <= s@.len(),
{
    let len = s.unicode_len();
    let mut i = from;
    while i < len
        invariant
            from <= i <= len,
            len == s@.len(),
            field_end(s@, from as int) == field_end(s@, i as int),
        decreases len - i,
    {
        let c = s.get_char(i);
        if c == ',' {
            return i;
        }
        i += 1;
    }
    i
}

/// Whether `p` is a prefix of `s`, compared character by character.
pub(crate) fn has_prefix(s: &str, p: &str) -> (r: bool)
    ensures
        r == p@.is_prefix_of(s@),
{
    let plen = p.unicode_len();
    let slen = s.unicode_len();
    if plen > slen {
        return false;
    }
    let mut i: usize = 0;
    while i < plen
        invariant
            0 <= i <= plen,
            plen == p@.len(),
            slen == s@.len(),
            plen <= slen,
            forall|j: int| 0 <= j < i ==> p@[j] == s@[j],
        decreases plen - i,
    {
        if p.get_char(i) != s.get_char(i) {
            assert(!p@.is_prefix_of(s@)) by {
                if p@.is_prefix_of(s@) {
                    assert(p@[i as int] == s@.subrange(0, plen as int)[i as int]);
                }
            }
            return false;
        }
        i += 1;
    }
    assert(p@ =~= s@.subrange(0, plen as int));
    true
}

pub open spec fn is_digit(c: char) -> bool {
    48 <= c as u32 && c as u32 <= 57
}

pub open spec fn all_digits(s: Seq<char>) -> bool {
    forall|i: int| 0 <= i < s.len() ==> is_digit(s[i])
}

/// The number a digit string denotes, most significant digit first.
pub open spec fn digits_val(s: Seq<char>) -> int
    decreases s.len(),
{
    if s.len() == 0 {
        0
    } else {
        digits_val(s.drop_last()) * 10 + (s.last() as u32 - 48)
    }
}

pub proof fn lemma_digits_val_nonneg(s: Seq<char>)
    requires
        all_digits(s),
    ensures
        digits_val(s) >= 0,
    decreases s.len(),
{
    if s.len() > 0 {
        assert(is_digit(s[s.len() - 1]));
        assert(all_digits(s.drop_last()));
        lemma_digits_val_nonneg(s.drop_last());
        assert(digits_val(s) == digits_val(s.drop_last()) * 10 + (s.last() as u32 - 48));
        assert(digits_val(s.drop_last()) * 10 >= 0) by (nonlinear_arith)
            requires
                digits_val(s.drop_last()) >= 0,
        ;
    }
}

/// The iteration count a field payload denotes: decimal digits only,
/// positive (the derivation's work factor must be at least one round), and
/// within `u16` like the rest of the protocol's counts.
pub open spec fn spec_parse_iterations(s: Seq<char>) -> Option<u16> {
    if s.len() > 0 && all_digits(s) && 1 <= digits_val(s) <= 65535 {
        Some(digits_val(s) as u16)
    } else {
        None
    }
}

/// Parses the `i=` payload of the first server message.
pub(crate) fn parse_iterations(s: &str) -> (r: Option<u16>)
    ensures
        r == spec_parse_iterations(s@),
{
    let len = s.unicode_len();
    if len == 0 {
        return None;
    }
    let mut i: usize = 0;
    // `val` tracks the value of the digits read so far, saturated at 100000
    // so that any overflow of the u16 range is still detected at the end.
    let mut val: u32 = 0;
    while i < len
        invariant
            0 <= i <= len,
            len == s@.len(),
            all_digits(s@.take(i as int)),
            digits_val(s@.take(i as int)) < 100000 ==> val == digits_val(s@.take(i as int)),
            digits_val(s@.take(i as int)) >= 100000 ==> val == 100000,
            val <= 100000,
        decreases len - i,
    {
        let c = s.get_char(i);
        let v = c as u32;
        if v < 48 || v > 57 {
            assert(!is_digit(s@[i as int]));
            return None;
        }
        let d = v - 48;
        let next = val * 10 + d;
        proof {
            assert(s@.take(i + 1 as int).drop_last() =~= s@.take(i as int));
            assert(s@.take(i + 1 as int).last() == s@[i as int]);
            lemma_digits_val_nonneg(s@.take(i as int));
        }
        val = if next > 100000 {
            100000
        } else {
            next
        };
        i += 1;
    }
    assert(s@.take(len as int) =~= s@);
    if val == 0 || val > 65535 {
        None
    } else {
        Some(val as u16)
    }
}

} // verus!
