use vstd::prelude::*;

verus! {

/// The character that spells the decimal digit `d`.
pub open spec fn digit_char(d: nat) -> char {
    if d == 0 { '0' } else if d == 1 { '1' } else if d == 2 { '2' } else if d == 3 { '3' }
    else if d == 4 { '4' } else if d == 5 { '5' } else if d == 6 { '6' } else if d == 7 { '7' }
    else if d == 8 { '8' } else { '9' }
}

/// Decimal digits of a natural number, most significant first, without leading zeros.
pub open spec fn decimal(n: nat) -> Seq<char>
    decreases n,
{
    if n < 10 {
        seq![digit_char(n)]
    } else {
        decimal(n / 10).push(digit_char(n % 10))
    }
}

fn digit_str(d: u64) -> (r: &'static str)
    requires
        d < 10,
    ensures
        r@ == seq![digit_char(d as nat)],
{
    proof {
        reveal_strlit("0");
        reveal_strlit("1");
        reveal_strlit("2");
        reveal_strlit("3");
        reveal_strlit("4");
        reveal_strlit("5");
        reveal_strlit("6");
        reveal_strlit("7");
        reveal_strlit("8");
        reveal_strlit("9");
    }
    if d == 0 { "0" } else if d == 1 { "1" } else if d == 2 { "2" } else if d == 3 { "3" }
    else if d == 4 { "4" } else if d == 5 { "5" } else if d == 6 { "6" } else if d == 7 { "7" }
    else if d == 8 { "8" } else { "9" }
}

/// The decimal spelling of an integer: a leading `-` for negative values.
pub open spec fn signed_decimal(n: int) -> Seq<char> {
    if n < 0 {
        seq!['-'] + decimal((-n) as nat)
    } else {
        decimal(n as nat)
    }
}

/// The cache key of the entry for the record `id`: `spell:<id>`.
pub open spec fn entry_key(id: int) -> Seq<char> {
    seq!['s', 'p', 'e', 'l', 'l', ':'] + signed_decimal(id)
}

/// The cache key of the lock marker for the record `id`: `spell:lock:<id>`.
pub open spec fn lock_key(id: int) -> Seq<char> {
    seq!['s', 'p', 'e', 'l', 'l', ':', 'l', 'o', 'c', 'k', ':'] + signed_decimal(id)
}

/// Spells `n` in decimal.
pub fn decimal_string(n: u64) -> (r: String)
    ensures
        r@ == decimal(n as nat),
{
    let mut s = String::from_str(digit_str(n % 10));
    let mut m: u64 = n / 10;
    proof {
        if n >= 10 {
            assert(decimal(n as nat) =~= decimal(m as nat) + s@);
        }
    }
    while m > 0
        invariant
            m == 0 ==> s@ == decimal(n as nat),
            m > 0 ==> decimal(n as nat) == decimal(m as nat) + s@,
        decreases m,
    {
        let d = digit_str(m % 10);
        let ghost old_s = s@;
        s = String::from_str(d).concat(s.as_str());
        let next: u64 = m / 10;
        proof {
            if m >= 10 {
                assert(decimal(m as nat) == decimal(next as nat).push(digit_char((m % 10) as nat)));
                assert(decimal(n as nat) =~= decimal(next as nat) + s@);
            } else {
                assert(decimal(n as nat) =~= s@);
            }
        }
        m = next;
    }
    s
}

/// Spells `id` in decimal, with a leading `-` when it is negative.
pub fn signed_decimal_string(id: i64) -> (r: String)
    ensures
        r@ == signed_decimal(id as int),
{
    if id < 0 {
        let magnitude: u64 = ((-(id + 1)) as u64) + 1;
        let digits = decimal_string(magnitude);
        proof {
            reveal_strlit("-");
        }
        String::from_str("-").concat(digits.as_str())
    } else {
        decimal_string(id as u64)
    }
}

/// The cache key under which the record `id` is stored.
pub fn key_for_id(id: i64) -> (r: String)
    ensures
        r@ == entry_key(id as int),
{
    let digits = signed_decimal_string(id);
    proof {
        reveal_strlit("spell:");
    }
    String::from_str("spell:").concat(digits.as_str())
}

/// The cache key of the lock marker that guards loads of the record `id`.
pub fn key_for_lock(id: i64) -> (r: String)
    ensures
        r@ == lock_key(id as int),
{
    let digits = signed_decimal_string(id);
    proof {
        reveal_strlit("spell:lock:");
    }
    String::from_str("spell:lock:").concat(digits.as_str())
}

} // verus!
