//! Decimal notation of integers.

use vstd::prelude::*;
use vstd::string::StringExecFns;

verus! {

/// The character of the decimal digit `d`.
pub open spec fn digit_char(d: nat) -> char
    recommends
        d < 10,
{
    ('0' as nat + d) as char
}

/// The decimal notation of `n`, without leading zeros.
pub open spec fn decimal(n: nat) -> Seq<char>
    decreases n,
{
    if n < 10 {
        seq![digit_char(n)]
    } else {
        decimal(n / 10).push(digit_char(n % 10))
    }
}

/// The decimal notation of `v`, with a minus sign where `v` is negative.
pub open spec fn signed_decimal(v: int) -> Seq<char> {
    if v < 0 {
        seq!['-'] + decimal((-v) as nat)
    } else {
        decimal(v as nat)
    }
}

/// The digits of `n` from the least significant up, as numbers.
spec fn digits_reversed(n: nat) -> Seq<u8>
    decreases n,
{
    if n < 10 {
        seq![n as u8]
    } else {
        seq![(n % 10) as u8] + digits_reversed(n / 10)
    }
}

/// The characters of the digits `ds[..k]`, last digit first.
spec fn rendered(ds: Seq<u8>, k: int) -> Seq<char>
    decreases k,
{
    if k <= 0 {
        Seq::empty()
    } else {
        rendered(ds, k - 1).insert(0, digit_char(ds[k - 1] as nat))
    }
}

proof fn lemma_rendered_digits(n: nat)
    ensures
        rendered(digits_reversed(n), digits_reversed(n).len() as int) == decimal(n),
        forall|i: int| 0 <= i < digits_reversed(n).len() ==> digits_reversed(n)[i] < 10,
    decreases n,
{
    let ds = digits_reversed(n);
    if n < 10 {
        assert(rendered(ds, 0) =~= Seq::<char>::empty());
        assert(rendered(ds, 1) =~= seq![digit_char(n)]);
    } else {
        lemma_rendered_digits(n / 10);
        let rest = digits_reversed(n / 10);
        lemma_rendered_shift(ds, rest, rest.len() as int);
        assert(rendered(ds, ds.len() as int) =~= decimal(n));
    }
}

/// Rendering `k` digits that follow the first digit of `ds` gives what
/// rendering `rest` gives, followed by the first digit.
proof fn lemma_rendered_shift(ds: Seq<u8>, rest: Seq<u8>, k: int)
    requires
        ds.len() == rest.len() + 1,
        forall|i: int| 0 <= i < rest.len() ==> ds[i + 1] == rest[i],
        0 <= k <= rest.len(),
    ensures
        rendered(ds, k + 1) == rendered(rest, k).push(digit_char(ds[0] as nat)),
    decreases k,
{
    if k == 0 {
        assert(rendered(ds, 0) =~= Seq::<char>::empty());
        assert(rendered(ds, 1) =~= Seq::<char>::empty().push(digit_char(ds[0] as nat)));
    } else {
        lemma_rendered_shift(ds, rest, k - 1);
        assert(rendered(ds, k + 1) =~= rendered(rest, k).push(digit_char(ds[0] as nat)));
    }
}

/// The one-character text of the digit `d`.
fn digit_text(d: u8) -> (text: &'static str)
    requires
        d < 10,
    ensures
        text@ == seq![digit_char(d as nat)],
{
    proof {
        reveal_strlit("0");
        reveal_strlit("1");
        reveal_strlit("2");
        reveal_strlit("3");
        reveal_strlit("4");
        reveal_strlit("5");
        reveal_strlit("6");
        reveal_strlit("7");
        reveal_strlit("8");
        reveal_strlit("9");
    }
    let text = match d {
        0 => "0",
        1 => "1",
        2 => "2",
        3 => "3",
        4 => "4",
        5 => "5",
        6 => "6",
        7 => "7",
        8 => "8",
        _ => "9",
    };
    assert(text@ =~= seq![digit_char(d as nat)]);
    text
}

/// Appends the decimal notation of `n` to `s`.
pub fn append_number(s: &mut String, n: u64)
    ensures
        final(s)@ == old(s)@ + decimal(n as nat),
{
    let mut digits: Vec<u8> = Vec::new();
    let mut num: u64 = n;
    loop
        invariant_except_break
            digits@ + digits_reversed(num as nat) == digits_reversed(n as nat),
        ensures
            digits@ == digits_reversed(n as nat),
        decreases num,
    {
        if num < 10 {
            proof {
                assert(digits@.push(num as u8) =~= digits@ + digits_reversed(num as nat));
            }
            digits.push(num as u8);
            break ;
        }
        proof {
            assert(digits@.push((num % 10) as u8) + digits_reversed((num / 10) as nat)
                =~= digits@ + digits_reversed(num as nat));
        }
        digits.push((num % 10) as u8);
        num = num / 10;
    }
    proof {
        lemma_rendered_digits(n as nat);
        assert(rendered(digits@, 0) =~= Seq::<char>::empty());
    }
    let mut i: usize = digits.len();
    let ghost total = digits@.len() as int;
    let ghost start = s@;
    proof {
        assert(start + rendered(digits@, total) =~= start + decimal(n as nat));
    }
    while i > 0
        invariant
            i <= digits@.len(),
            total == digits@.len(),
            forall|k: int| 0 <= k < digits@.len() ==> digits@[k] < 10,
            start == old(s)@,
            s@ + rendered(digits@, i as int) == start + decimal(n as nat),
        decreases i,
    {
        i -= 1;
        let ghost before = s@;
        s.append(digit_text(digits[i]));
        proof {
            assert(s@ + rendered(digits@, i as int) =~= before + rendered(digits@, i + 1));
        }
    }
    proof {
        assert(rendered(digits@, 0) =~= Seq::<char>::empty());
        assert(s@ + rendered(digits@, 0) =~= s@);
    }
}

/// Appends the decimal notation of `v`, with a minus sign where `v` is
/// negative, to `s`.
pub fn append_signed(s: &mut String, v: i64)
    ensures
        final(s)@ == old(s)@ + signed_decimal(v as int),
{
    if v < 0 {
        let magnitude: u64 = if v == i64::MIN {
            9223372036854775808u64
        } else {
            (-v) as u64
        };
        s.append("-");
        let ghost signed = s@;
        append_number(s, magnitude);
        proof {
            reveal_strlit("-");
            assert("-"@ =~= seq!['-']);
            assert(s@ =~= old(s)@ + (seq!['-'] + decimal(magnitude as nat)));
        }
    } else {
        append_number(s, v as u64);
    }
}

/// The decimal notation of `n`.
pub fn decimal_string(n: u64) -> (text: String)
    ensures
        text@ == decimal(n as nat),
{
    let mut text = String::new();
    append_number(&mut text, n);
    assert(Seq::<char>::empty() + decimal(n as nat) =~= decimal(n as nat));
    text
}

} // verus!
