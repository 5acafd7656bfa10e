//! Hero identifiers: their decimal names and the pool that holds those not
//! yet minted.
use vstd::prelude::*;

verus! {

/// The decimal digit `d` as a character.
pub open spec fn digit_char(d: nat) -> char {
    seq!['0', '1', '2', '3', '4', '5', '6', '7', '8', '9'][d as int]
}

/// The decimal representation of `n`, without sign or leading zeros.
pub open spec fn decimal_of(n: nat) -> Seq<char>
    decreases n,
{
    if n < 10 {
        seq![digit_char(n)]
    } else {
        decimal_of(n / 10).push(digit_char(n % 10))
    }
}

/// The pool a factory of `num` heroes starts with: `"0"`, `"1"`, ... in order.
pub open spec fn initial_pool(num: nat) -> Seq<Seq<char>> {
    Seq::new(num, |i: int| decimal_of(i as nat))
}

/// Relies on `u32::to_string`: the `Display` of an integer writes it in
/// decimal.
#[verifier::external_body]
pub(crate) fn u32_to_string(n: u32) -> (r: String)
    ensures
        r@ == decimal_of(n as nat),
{
    n.to_string()
}

proof fn lemma_decimal_len(n: nat)
    ensures
        decimal_of(n).len() >= 1,
        n >= 10 ==> decimal_of(n).len() >= 2,
    decreases n,
{
    if n >= 10 {
        lemma_decimal_len(n / 10);
    }
}

proof fn lemma_digit_injective(a: nat, b: nat)
    requires
        a < 10,
        b < 10,
        digit_char(a) == digit_char(b),
    ensures
        a == b,
{
    let d = seq!['0', '1', '2', '3', '4', '5', '6', '7', '8', '9'];
    assert(d[0] != d[1] && d[0] != d[2] && d[0] != d[3] && d[0] != d[4] && d[0] != d[5] && d[0] != d[6] && d[0] != d[7] && d[0] != d[8] && d[0] != d[9]);
    assert(d[1] != d[2] && d[1] != d[3] && d[1] != d[4] && d[1] != d[5] && d[1] != d[6] && d[1] != d[7] && d[1] != d[8] && d[1] != d[9]);
    assert(d[2] != d[3] && d[2] != d[4] && d[2] != d[5] && d[2] != d[6] && d[2] != d[7] && d[2] != d[8] && d[2] != d[9]);
    assert(d[3] != d[4] && d[3] != d[5] && d[3] != d[6] && d[3] != d[7] && d[3] != d[8] && d[3] != d[9]);
    assert(d[4] != d[5] && d[4] != d[6] && d[4] != d[7] && d[4] != d[8] && d[4] != d[9]);
    assert(d[5] != d[6] && d[5] != d[7] && d[5] != d[8] && d[5] != d[9]);
    assert(d[6] != d[7] && d[6] != d[8] && d[6] != d[9]);
    assert(d[7] != d[8] && d[7] != d[9]);
    assert(d[8] != d[9]);
}

/// Distinct numbers have distinct decimal names.
pub proof fn lemma_decimal_injective(a: nat, b: nat)
    requires
        decimal_of(a) == decimal_of(b),
    ensures
        a == b,
    decreases a,
{
    lemma_decimal_len(a);
    lemma_decimal_len(b);
    if a < 10 && b < 10 {
        assert(decimal_of(a) == seq![digit_char(a)]);
        assert(decimal_of(b) == seq![digit_char(b)]);
        assert(decimal_of(a)[0] == digit_char(a));
        assert(decimal_of(b)[0] == digit_char(b));
        lemma_digit_injective(a, b);
    } else if a >= 10 && b >= 10 {
        let sa = decimal_of(a);
        let sb = decimal_of(b);
        assert(sa.last() == sb.last());
        lemma_digit_injective(a % 10, b % 10);
        assert(decimal_of(a / 10) =~= sa.drop_last());
        assert(decimal_of(b / 10) =~= sb.drop_last());
        lemma_decimal_injective(a / 10, b / 10);
    } else {
        lemma_decimal_len(a / 10);
        lemma_decimal_len(b / 10);
    }
}

/// The initial pool names each hero once.
pub proof fn lemma_initial_pool_unique(num: nat)
    ensures
        initial_pool(num).no_duplicates(),
{
    assert forall|i: int, j: int|
        0 <= i < num && 0 <= j < num && i != j implies initial_pool(num)[i] != initial_pool(num)[j] by {
        if initial_pool(num)[i] == initial_pool(num)[j] {
            lemma_decimal_injective(i as nat, j as nat);
        }
    }
}

} // verus!
