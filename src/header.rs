use vstd::prelude::*;

verus! {

pub open spec fn is_digit(b: u8) -> bool {
    48 <= b && b <= 57
}

pub open spec fn all_digits(s: Seq<u8>) -> bool {
    forall|i: int| 0 <= i < s.len() ==> is_digit(#[trigger] s[i])
}

/// The number that a string of ASCII decimal digits denotes.
pub open spec fn digits_value(s: Seq<u8>) -> nat
    decreases s.len(),
{
    if s.len() == 0 {
        0
    } else {
        digits_value(s.drop_last()) * 10 + (s.last() - 48) as nat
    }
}

/// The digits of a decimal number, after an optional leading `+`.
pub open spec fn unsigned_digits(s: Seq<u8>) -> Seq<u8> {
    if s.len() > 0 && s[0] == 43 {
        s.drop_first()
    } else {
        s
    }
}

/// A header value read as an unsigned 64-bit decimal number: an optional
/// `+` and at least one digit, whose value fits in `u64`.
pub open spec fn decimal_u64(s: Seq<u8>) -> Option<u64> {
    let d = unsigned_digits(s);
    if d.len() > 0 && all_digits(d) && digits_value(d) <= u64::MAX {
        Some(digits_value(d) as u64)
    } else {
        None
    }
}

/// The blob type that accepts appends, as the bytes of `AppendBlob`.
pub open spec fn append_blob_tag() -> Seq<u8> {
    seq![65u8, 112u8, 112u8, 101u8, 110u8, 100u8, 66u8, 108u8, 111u8, 98u8]
}

proof fn lemma_digits_value_prefix(s: Seq<u8>, i: int)
    requires
        0 <= i <= s.len(),
        all_digits(s),
    ensures
        digits_value(s.take(i)) <= digits_value(s),
    decreases s.len() - i,
{
    if i < s.len() {
        lemma_digits_value_prefix(s, i + 1);
        assert(s.take(i + 1).drop_last() =~= s.take(i));
    } else {
        assert(s.take(i) =~= s);
    }
}

/// Reads a decimal append offset out of a header value.
pub fn parse_decimal_u64(v: &[u8]) -> (r: Option<u64>)
    ensures
        r == decimal_u64(v@),
{
    let start: usize = if v.len() > 0 && v[0] == 43u8 { 1 } else { 0 };
    let ghost d = unsigned_digits(v@);
    assert(d =~= v@.subrange(start as int, v@.len() as int));
    if start >= v.len() {
        return None;
    }
    let mut i: usize = start;
    while i < v.len()
        invariant
            start <= i <= v.len(),
            d =~= v@.subrange(start as int, v@.len() as int),
            d == unsigned_digits(v@),
            forall|j: int| 0 <= j < i - start ==> is_digit(#[trigger] d[j]),
        decreases v.len() - i,
    {
        assert(d[i - start] == v[i as int]);
        if !(48u8 <= v[i] && v[i] <= 57u8) {
            assert(!is_digit(d[i - start]));
            assert(!all_digits(d));
            return None;
        }
        i = i + 1;
    }
    assert(all_digits(d));
    let mut acc: u64 = 0;
    let mut i: usize = start;
    while i < v.len()
        invariant
            start <= i <= v.len(),
            d =~= v@.subrange(start as int, v@.len() as int),
            d == unsigned_digits(v@),
            all_digits(d),
            acc as nat == digits_value(d.take(i - start)),
        decreases v.len() - i,
    {
        assert(d[i - start] == v[i as int]);
        assert(is_digit(d[i - start]));
        let digit: u64 = (v[i] - 48u8) as u64;
        assert(d.take(i - start + 1).drop_last() =~= d.take(i - start));
        assert(d.take(i - start + 1).last() == v[i as int]);
        assert(digits_value(d.take(i - start + 1)) == acc * 10 + digit);
        if acc > (u64::MAX - digit) / 10 {
            proof {
                assert(acc * 10 + digit > u64::MAX) by (nonlinear_arith)
                    requires acc > (u64::MAX - digit) / 10, digit <= 9;
                lemma_digits_value_prefix(d, i - start + 1);
            }
            return None;
        }
        proof {
            assert(acc * 10 + digit <= u64::MAX) by (nonlinear_arith)
                requires acc <= (u64::MAX - digit) / 10, digit <= 9;
        }
        acc = acc * 10 + digit;
        i = i + 1;
    }
    assert(d.take(i - start) =~= d);
    Some(acc)
}

/// Tells whether a blob-type header names an appendable blob.
pub fn is_append_blob(v: Option<&[u8]>) -> (r: bool)
    ensures
        r == (v.is_some() && v.unwrap()@ == append_blob_tag()),
{
    match v {
        None => false,
        Some(b) => {
            let r = b.len() == 10 && b[0] == 65u8 && b[1] == 112u8 && b[2] == 112u8
                && b[3] == 101u8 && b[4] == 110u8 && b[5] == 100u8 && b[6] == 66u8
                && b[7] == 108u8 && b[8] == 111u8 && b[9] == 98u8;
            if r {
                assert(b@ =~= append_blob_tag());
            } else {
                let ghost t = append_blob_tag();
                assert(t.len() == 10 && t[0] == 65u8 && t[1] == 112u8 && t[2] == 112u8 && t[3] == 101u8
                    && t[4] == 110u8 && t[5] == 100u8 && t[6] == 66u8 && t[7] == 108u8
                    && t[8] == 111u8 && t[9] == 98u8);
            }
            r
        }
    }
}

} // verus!
