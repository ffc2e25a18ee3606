use vstd::prelude::*;

verus! {

/// The ten decimal digit characters, in order of value.
pub open spec fn digit_chars() -> Seq<char> {
    seq!['0', '1', '2', '3', '4', '5', '6', '7', '8', '9']
}

/// The decimal rendering of `n`, most significant digit first, without leading zeros.
pub open spec fn decimal(n: nat) -> Seq<char>
    decreases n,
{
    if n < 10 {
        seq![digit_chars()[n as int]]
    } else {
        decimal(n / 10) + seq![digit_chars()[(n % 10) as int]]
    }
}

pub open spec fn is_digit(c: char) -> bool {
    '0' <= c && c <= '9'
}

/// Every character of a decimal rendering is a digit.
pub proof fn lemma_decimal_digits(n: nat)
    ensures
        forall|i: int| 0 <= i < decimal(n).len() ==> is_digit(#[trigger] decimal(n)[i]),
    decreases n,
{
    let d = digit_chars();
    assert(is_digit(d[0]) && is_digit(d[1]) && is_digit(d[2]) && is_digit(d[3]) && is_digit(d[4]));
    assert(is_digit(d[5]) && is_digit(d[6]) && is_digit(d[7]) && is_digit(d[8]) && is_digit(d[9]));
    if n >= 10 {
        lemma_decimal_digits(n / 10);
        let head = decimal(n / 10);
        assert forall|i: int| 0 <= i < decimal(n).len() implies is_digit(#[trigger] decimal(n)[i]) by {
            if i < head.len() {
                assert(decimal(n)[i] == head[i]);
            }
        }
    }
}

/// A rendering has one character below ten and at least two from ten on.
pub proof fn lemma_decimal_len(n: nat)
    ensures
        decimal(n).len() >= 1,
        n >= 10 ==> decimal(n).len() >= 2,
    decreases n,
{
    if n >= 10 {
        lemma_decimal_len(n / 10);
    }
}

/// Each digit character's code is that of '0' plus its value.
pub proof fn lemma_digit_codes()
    ensures
        forall|i: int| 0 <= i < 10 ==> (#[trigger] digit_chars()[i]) as u32 == 48 + i,
{
    assert forall|i: int| 0 <= i < 10 implies (#[trigger] digit_chars()[i]) as u32 == 48 + i by {
        if i == 0 {
        } else if i == 1 {
        } else if i == 2 {
        } else if i == 3 {
        } else if i == 4 {
        } else if i == 5 {
        } else if i == 6 {
        } else if i == 7 {
        } else if i == 8 {
        } else {
        }
    }
}

/// Different numbers render differently.
pub proof fn lemma_decimal_injective(a: nat, b: nat)
    requires
        decimal(a) == decimal(b),
    ensures
        a == b,
    decreases a,
{
    lemma_digit_codes();
    lemma_decimal_len(a);
    lemma_decimal_len(b);
    if a < 10 && b < 10 {
        assert(decimal(a) == seq![digit_chars()[a as int]]);
        assert(decimal(b) == seq![digit_chars()[b as int]]);
        assert(decimal(a)[0] == decimal(b)[0]);
        assert(seq![digit_chars()[a as int]][0] == digit_chars()[a as int]);
        assert(seq![digit_chars()[b as int]][0] == digit_chars()[b as int]);
        assert(digit_chars()[a as int] == digit_chars()[b as int]);
        assert(digit_chars()[a as int] as u32 == 48 + a);
        assert(digit_chars()[b as int] as u32 == 48 + b);
    } else if a >= 10 && b >= 10 {
        let da = decimal(a);
        let db = decimal(b);
        assert(da.last() == db.last());
        assert(da.drop_last() =~= decimal(a / 10));
        assert(db.drop_last() =~= decimal(b / 10));
        lemma_decimal_injective(a / 10, b / 10);
        assert(digit_chars()[(a % 10) as int] == digit_chars()[(b % 10) as int]);
        assert(digit_chars()[(a % 10) as int] as u32 == 48 + a % 10);
        assert(digit_chars()[(b % 10) as int] as u32 == 48 + b % 10);
        assert(a % 10 == b % 10);
    } else {
        assert(decimal(a).len() != decimal(b).len());
    }
}

/// A number of six digits renders as six characters.
pub proof fn lemma_decimal_six(n: nat)
    requires
        100000 <= n <= 999999,
    ensures
        decimal(n).len() == 6,
{
    let n1 = n / 10;
    let n2 = n1 / 10;
    let n3 = n2 / 10;
    let n4 = n3 / 10;
    let n5 = n4 / 10;
    assert(10000 <= n1 <= 99999);
    assert(1000 <= n2 <= 9999);
    assert(100 <= n3 <= 999);
    assert(10 <= n4 <= 99);
    assert(1 <= n5 <= 9);
    assert(decimal(n5).len() == 1);
    assert(decimal(n4).len() == 2);
    assert(decimal(n3).len() == 3);
    assert(decimal(n2).len() == 4);
    assert(decimal(n1).len() == 5);
}

/// Renders `n` in decimal.
pub fn decimal_text(n: u64) -> (r: String)
    ensures
        r@ == decimal(n as nat),
{
    let digits = "0123456789";
    proof {
        reveal_strlit("0123456789");
        assert(digits@ =~= digit_chars());
    }
    let mut rest: u64 = n;
    let mut out = digits.substring_char((rest % 10) as usize, (rest % 10) as usize + 1).to_owned();
    assert(out@ =~= seq![digit_chars()[(n % 10) as int]]);
    while rest >= 10
        invariant
            digits@ == digit_chars(),
            rest <= n,
            rest >= 10 ==> decimal(n as nat) == decimal((rest / 10) as nat) + out@,
            rest < 10 ==> decimal(n as nat) == out@,
        decreases rest,
    {
        rest = rest / 10;
        let d = (rest % 10) as usize;
        let piece = digits.substring_char(d, d + 1).to_owned();
        assert(piece@ =~= seq![digit_chars()[(rest % 10) as int]]);
        let ghost before = out@;
        out = piece.concat(out.as_str());
        assert(out@ == piece@ + before);
        if rest >= 10 {
            assert(decimal(rest as nat) == decimal((rest / 10) as nat) + piece@);
            assert(decimal(n as nat) =~= decimal((rest / 10) as nat) + out@);
        } else {
            assert(decimal(rest as nat) == piece@);
            assert(decimal(n as nat) =~= out@);
        }
    }
    out
}

/// The pieces of `parts`, in order, with `sep` between each two.
pub open spec fn joined(parts: Seq<Seq<char>>, sep: Seq<char>) -> Seq<char>
    decreases parts.len(),
{
    if parts.len() == 0 {
        Seq::empty()
    } else if parts.len() == 1 {
        parts[0]
    } else {
        joined(parts.drop_last(), sep) + sep + parts.last()
    }
}

/// The character sequences held by a list of strings.
pub open spec fn texts(v: Seq<String>) -> Seq<Seq<char>> {
    v.map_values(|s: String| s@)
}

/// Joins `parts` with `sep` between each two.
pub fn join(parts: &Vec<String>, sep: &str) -> (r: String)
    ensures
        r@ == joined(texts(parts@), sep@),
{
    let mut out = String::new();
    let mut i: usize = 0;
    while i < parts.len()
        invariant
            i <= parts.len(),
            out@ == joined(texts(parts@.subrange(0, i as int)), sep@),
        decreases parts.len() - i,
    {
        let ghost before = texts(parts@.subrange(0, i as int));
        let ghost after = texts(parts@.subrange(0, i + 1));
        assert(after.drop_last() =~= before);
        assert(after.last() == parts@[i as int]@);
        if i > 0 {
            out.append(sep);
        }
        out.append(parts[i].as_str());
        assert(out@ =~= joined(after, sep@));
        i = i + 1;
    }
    assert(parts@.subrange(0, parts.len() as int) =~= parts@);
    out
}

} // verus!
