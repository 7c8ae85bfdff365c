use vstd::prelude::*;

verus! {

/// Whether `c` is a decimal digit.
pub open spec fn is_dec_digit(c: char) -> bool {
    '0' <= c && c <= '9'
}

/// The numeric value of a decimal digit.
pub open spec fn digit_val(c: char) -> nat {
    (c as int - '0' as int) as nat
}

/// Whether every character of `s` is a decimal digit.
pub open spec fn all_dec_digits(s: Seq<char>) -> bool {
    forall|i: int| 0 <= i < s.len() ==> is_dec_digit(s[i])
}

/// Whether `s` is a well-formed decimal numeral: nonempty and all digits.
pub open spec fn parses_as_dec(s: Seq<char>) -> bool {
    s.len() > 0 && all_dec_digits(s)
}

/// The number denoted by the decimal numeral `s` (most significant digit
/// first).
pub open spec fn dec_val(s: Seq<char>) -> nat
    decreases s.len(),
{
    if s.len() == 0 {
        0
    } else {
        dec_val(s.drop_last()) * 10 + digit_val(s.last())
    }
}

/// The digit character for a value below ten.
pub open spec fn dec_digit_char(d: nat) -> char {
    if d == 0 {
        '0'
    } else if d == 1 {
        '1'
    } else if d == 2 {
        '2'
    } else if d == 3 {
        '3'
    } else if d == 4 {
        '4'
    } else if d == 5 {
        '5'
    } else if d == 6 {
        '6'
    } else if d == 7 {
        '7'
    } else if d == 8 {
        '8'
    } else {
        '9'
    }
}

/// The decimal rendering of `n`: no sign, no leading zeroes (a single `'0'`
/// for zero).
pub open spec fn dec_str(n: nat) -> Seq<char>
    decreases n,
{
    if n < 10 {
        seq![dec_digit_char(n)]
    } else {
        dec_str(n / 10).push(dec_digit_char(n % 10))
    }
}

/// The decimal rendering of a signed number: a leading `'-'` for negatives.
pub open spec fn int_dec_str(n: int) -> Seq<char> {
    if n < 0 {
        seq!['-'] + dec_str((-n) as nat)
    } else {
        dec_str(n as nat)
    }
}

/// The value of a numeral is at least the value of any of its prefixes.
proof fn lemma_dec_val_prefix(s: Seq<char>, i: int)
    requires
        0 <= i <= s.len(),
    ensures
        dec_val(s.take(i)) <= dec_val(s),
    decreases s.len(),
{
    if i == s.len() {
        assert(s.take(i) =~= s);
    } else {
        assert(s.drop_last().take(i) =~= s.take(i));
        lemma_dec_val_prefix(s.drop_last(), i);
    }
}

/// Parses `s` as a decimal `u64`. Returns the denoted number exactly when `s`
/// is a nonempty all-digit numeral whose value fits in a `u64`.
pub fn parse_dec_u64(s: &str) -> (r: Option<u64>)
    ensures
        match r {
            Some(v) => parses_as_dec(s@) && dec_val(s@) <= u64::MAX && v as nat == dec_val(s@),
            None => !(parses_as_dec(s@) && dec_val(s@) <= u64::MAX),
        },
{
    let n = s.unicode_len();
    if n == 0 {
        return None;
    }
    let mut acc: u64 = 0;
    let mut i: usize = 0;
    while i < n
        invariant
            0 <= i <= n,
            n == s@.len(),
            all_dec_digits(s@.take(i as int)),
            acc as nat == dec_val(s@.take(i as int)),
        decreases n - i,
    {
        let c = s.get_char(i);
        if !('0' <= c && c <= '9') {
            assert(!is_dec_digit(s@[i as int]));
            return None;
        }
        let d: u64 = (c as u32 - 48) as u64;
        assert(d == digit_val(s@[i as int]));
        if acc > (u64::MAX - d) / 10 {
            proof {
                let t = s@.take(i as int + 1);
                assert(t.drop_last() =~= s@.take(i as int));
                assert(t.last() == s@[i as int]);
                assert(dec_val(t) == acc * 10 + d);
                assert(acc * 10 + d > u64::MAX) by {
                    let q = (u64::MAX - d) / 10;
                    assert(acc >= q + 1);
                    assert(acc * 10 >= (q + 1) * 10) by (nonlinear_arith)
                        requires
                            acc >= q + 1,
                    ;
                    assert(q * 10 + 10 > u64::MAX - d);
                }
                if all_dec_digits(s@) {
                    lemma_dec_val_prefix(s@, i as int + 1);
                }
            }
            return None;
        }
        proof {
            let q = (u64::MAX - d) / 10;
            assert(acc <= q);
            assert(acc * 10 <= q * 10) by (nonlinear_arith)
                requires
                    acc <= q,
            ;
            assert(q * 10 <= u64::MAX - d);
            let t = s@.take(i as int + 1);
            assert(t.drop_last() =~= s@.take(i as int));
            assert(t.last() == s@[i as int]);
        }
        acc = acc * 10 + d;
        i = i + 1;
    }
    proof {
        assert(s@.take(n as int) =~= s@);
    }
    Some(acc)
}

/// The one-character string for a digit value below ten.
fn digit_str(d: u64) -> (r: &'static str)
    requires
        d < 10,
    ensures
        r@ == seq![dec_digit_char(d as nat)],
{
    proof {
        reveal_strlit("0");
        reveal_strlit("1");
        reveal_strlit("2");
        reveal_strlit("3");
        reveal_strlit("4");
        reveal_strlit("5");
        reveal_strlit("6");
        reveal_strlit("7");
        reveal_strlit("8");
        reveal_strlit("9");
    }
    let r = if d == 0 {
        "0"
    } else if d == 1 {
        "1"
    } else if d == 2 {
        "2"
    } else if d == 3 {
        "3"
    } else if d == 4 {
        "4"
    } else if d == 5 {
        "5"
    } else if d == 6 {
        "6"
    } else if d == 7 {
        "7"
    } else if d == 8 {
        "8"
    } else {
        "9"
    };
    proof {
        assert(r@ =~= seq![dec_digit_char(d as nat)]);
    }
    r
}

/// The digit characters of `ds` read back to front.
spec fn rev_chars(ds: Seq<u64>) -> Seq<char>
    decreases ds.len(),
{
    if ds.len() == 0 {
        Seq::empty()
    } else {
        seq![dec_digit_char(ds.last() as nat)] + rev_chars(ds.drop_last())
    }
}

/// Each position of `rev_chars` holds the digit mirrored from the other end.
proof fn lemma_rev_chars_index(ds: Seq<u64>, j: int)
    requires
        0 <= j < ds.len(),
    ensures
        rev_chars(ds).len() == ds.len(),
        rev_chars(ds)[j] == dec_digit_char(ds[ds.len() - 1 - j] as nat),
    decreases ds.len(),
{
    lemma_rev_chars_len(ds.drop_last());
    if j > 0 {
        lemma_rev_chars_index(ds.drop_last(), j - 1);
    }
}

proof fn lemma_rev_chars_len(ds: Seq<u64>)
    ensures
        rev_chars(ds).len() == ds.len(),
    decreases ds.len(),
{
    if ds.len() > 0 {
        lemma_rev_chars_len(ds.drop_last());
    }
}

/// Renders `v` in decimal, exactly as [`dec_str`] states.
pub fn render_u64(v: u64) -> (r: String)
    ensures
        r@ == dec_str(v as nat),
{
    let mut digits: Vec<u64> = Vec::new();
    let mut x = v;
    loop
        invariant
            forall|j: int| 0 <= j < digits@.len() ==> digits@[j] < 10,
            x as nat > 0 ==> dec_str(v as nat) =~= dec_str(x as nat) + rev_chars(digits@),
            x == 0 && digits@.len() > 0 ==> dec_str(v as nat) =~= rev_chars(digits@),
            x == 0 && digits@.len() == 0 ==> v == 0,
        ensures
            digits@.len() > 0,
            forall|j: int| 0 <= j < digits@.len() ==> digits@[j] < 10,
            dec_str(v as nat) =~= rev_chars(digits@),
        decreases x, (if digits@.len() == 0 { 1int } else { 0int }),
    {
        if x == 0 && digits.len() > 0 {
            break;
        }
        let d = x % 10;
        proof {
            let ds2 = digits@.push(d);
            assert(ds2.drop_last() =~= digits@);
            assert(rev_chars(ds2) == seq![dec_digit_char(d as nat)] + rev_chars(digits@));
            if x < 10 {
                assert(dec_str(x as nat) == seq![dec_digit_char(x as nat)]);
                if x as nat > 0 {
                    assert(dec_str(v as nat) == seq![dec_digit_char(d as nat)] + rev_chars(digits@));
                } else {
                    assert(digits@.len() == 0 && v == 0);
                    assert(dec_str(v as nat) == seq![dec_digit_char(0 as nat)]);
                    assert(rev_chars(ds2) =~= seq![dec_digit_char(0 as nat)]);
                }
            } else {
                assert(dec_str(x as nat) == dec_str(x as nat / 10).push(dec_digit_char(x as nat % 10)));
                assert(dec_str(x as nat / 10).push(dec_digit_char(d as nat)) =~= dec_str(
                    x as nat / 10,
                ) + seq![dec_digit_char(d as nat)]);
                assert(dec_str(v as nat) =~= dec_str(x as nat / 10) + rev_chars(ds2));
            }
        }
        digits.push(d);
        x = x / 10;
    }
    let mut out = String::new();
    let mut i = digits.len();
    proof {
        lemma_rev_chars_len(digits@);
    }
    while i > 0
        invariant
            i <= digits@.len(),
            rev_chars(digits@).len() == digits@.len(),
            dec_str(v as nat) =~= rev_chars(digits@),
            forall|j: int| 0 <= j < digits@.len() ==> digits@[j] < 10,
            out@ =~= rev_chars(digits@).take(digits@.len() - i),
        decreases i,
    {
        let d = digits[i - 1];
        let ds = digit_str(d);
        proof {
            lemma_rev_chars_index(digits@, digits@.len() - i as int);
            assert(rev_chars(digits@).take(digits@.len() - (i as int - 1)) =~= rev_chars(digits@)
                .take(digits@.len() - i) + seq![dec_digit_char(d as nat)]);
        }
        out.append(ds);
        i = i - 1;
    }
    proof {
        assert(rev_chars(digits@).take(digits@.len() as int) =~= rev_chars(digits@));
    }
    out
}

/// Renders a signed number in decimal, exactly as [`int_dec_str`] states.
pub fn render_isize(v: isize) -> (r: String)
    ensures
        r@ == int_dec_str(v as int),
{
    if v >= 0 {
        render_u64(v as u64)
    } else {
        proof {
            reveal_strlit("-");
        }
        let neg: i128 = -(v as i128);
        let m: u64 = neg as u64;
        let mut out = String::from_str("-");
        proof {
            assert(out@ =~= seq!['-']);
        }
        out.append(render_u64(m).as_str());
        proof {
            assert(out@ =~= seq!['-'] + dec_str((-(v as int)) as nat));
        }
        out
    }
}

} // verus!
