//! The order of object keys. An object is filed under the decimal numeral of
//! its id, and keys are ordered as text, so that 10 comes before 9.

use vstd::prelude::*;

verus! {

/// The decimal digits of `n`, most significant first.
pub open spec fn digits(n: nat) -> Seq<u8>
    decreases n,
{
    if n < 10 {
        seq![n as u8]
    } else {
        digits(n / 10).push((n % 10) as u8)
    }
}

/// Whether `a` comes strictly before `b` in dictionary order.
pub open spec fn precedes(a: Seq<u8>, b: Seq<u8>) -> bool
    decreases a.len(),
{
    if b.len() == 0 {
        false
    } else if a.len() == 0 {
        true
    } else if a[0] != b[0] {
        a[0] < b[0]
    } else {
        precedes(a.skip(1), b.skip(1))
    }
}

/// Whether the key of id `a` comes strictly before the key of id `b`.
pub open spec fn sorts_before(a: u128, b: u128) -> bool {
    precedes(digits(a as nat), digits(b as nat))
}

proof fn lemma_digits_len(n: nat)
    ensures
        digits(n).len() >= 1,
        n >= 10 ==> digits(n).len() >= 2,
    decreases n,
{
    if n >= 10 {
        lemma_digits_len(n / 10);
    }
}

proof fn lemma_digits_injective(a: nat, b: nat)
    requires
        digits(a) == digits(b),
    ensures
        a == b,
    decreases a,
{
    lemma_digits_len(a);
    lemma_digits_len(b);
    if a < 10 {
        assert(digits(a).len() == 1);
        assert(b < 10);
        assert(digits(a)[0] == a as u8);
        assert(digits(b)[0] == b as u8);
    } else {
        assert(digits(b).len() >= 2);
        assert(b >= 10) by {
            if b < 10 {
                assert(digits(b).len() == 1);
            }
        }
        let da = digits(a / 10);
        let db = digits(b / 10);
        assert(digits(a).last() == (a % 10) as u8);
        assert(digits(b).last() == (b % 10) as u8);
        assert(a % 10 == b % 10);
        assert(da =~= digits(a).drop_last());
        assert(db =~= digits(b).drop_last());
        lemma_digits_injective(a / 10, b / 10);
        assert(a == 10 * (a / 10) + a % 10);
        assert(b == 10 * (b / 10) + b % 10);
    }
}

proof fn lemma_precedes_irreflexive(a: Seq<u8>)
    ensures
        !precedes(a, a),
    decreases a.len(),
{
    if a.len() > 0 {
        lemma_precedes_irreflexive(a.skip(1));
    }
}

proof fn lemma_precedes_asymmetric(a: Seq<u8>, b: Seq<u8>)
    requires
        precedes(a, b),
    ensures
        !precedes(b, a),
    decreases a.len(),
{
    if a.len() > 0 && b.len() > 0 && a[0] == b[0] {
        lemma_precedes_asymmetric(a.skip(1), b.skip(1));
    }
}

proof fn lemma_precedes_transitive(a: Seq<u8>, b: Seq<u8>, c: Seq<u8>)
    requires
        precedes(a, b),
        precedes(b, c),
    ensures
        precedes(a, c),
    decreases a.len(),
{
    if a.len() > 0 && b.len() > 0 && c.len() > 0 && a[0] == b[0] && b[0] == c[0] {
        lemma_precedes_transitive(a.skip(1), b.skip(1), c.skip(1));
    }
}

proof fn lemma_precedes_total(a: Seq<u8>, b: Seq<u8>)
    requires
        a != b,
    ensures
        precedes(a, b) || precedes(b, a),
    decreases a.len(),
{
    if a.len() == 0 || b.len() == 0 {
        if a.len() == 0 && b.len() == 0 {
            assert(a =~= b);
        }
    } else if a[0] == b[0] {
        if a.skip(1) == b.skip(1) {
            assert(a =~= seq![a[0]] + a.skip(1));
            assert(b =~= seq![b[0]] + b.skip(1));
        }
        lemma_precedes_total(a.skip(1), b.skip(1));
    }
}

/// The order of keys is a strict total order on ids: no id comes before
/// itself, and of two different ids exactly one comes before the other.
pub proof fn sorts_before_is_strict_and_total(a: u128, b: u128)
    ensures
        !sorts_before(a, a),
        sorts_before(a, b) ==> !sorts_before(b, a),
        a != b ==> sorts_before(a, b) || sorts_before(b, a),
{
    lemma_precedes_irreflexive(digits(a as nat));
    if sorts_before(a, b) {
        lemma_precedes_asymmetric(digits(a as nat), digits(b as nat));
    }
    if a != b {
        if digits(a as nat) == digits(b as nat) {
            lemma_digits_injective(a as nat, b as nat);
        }
        lemma_precedes_total(digits(a as nat), digits(b as nat));
    }
}

/// The order of keys is transitive.
pub proof fn sorts_before_is_transitive(a: u128, b: u128, c: u128)
    requires
        sorts_before(a, b),
        sorts_before(b, c),
    ensures
        sorts_before(a, c),
{
    lemma_precedes_transitive(digits(a as nat), digits(b as nat), digits(c as nat));
}

/// The decimal digits of `n`, most significant first.
fn decimal(n: u128) -> (numeral: Vec<u8>)
    ensures
        numeral@ == digits(n as nat),
{
    let ghost all = digits(n as nat);
    let mut low: Vec<u8> = Vec::new();
    let mut rest: u128 = n;
    while rest >= 10
        invariant
            all == digits(n as nat),
            all.len() == digits(rest as nat).len() + low@.len(),
            forall|j: int|
                0 <= j < digits(rest as nat).len() ==> all[j] == #[trigger] digits(rest as nat)[j],
            forall|j: int| 0 <= j < low@.len() ==> #[trigger] low@[j] == all[all.len() - 1 - j],
        decreases rest,
    {
        proof {
            lemma_digits_len((rest / 10) as nat);
        }
        let ghost before = digits(rest as nat);
        let ghost last = low@.len() as int;
        assert(before == digits((rest / 10) as nat).push((rest % 10) as u8));
        assert(all[before.len() - 1] == before[before.len() - 1]);
        low.push((rest % 10) as u8);
        rest = rest / 10;
        assert(forall|j: int|
            0 <= j < digits(rest as nat).len() ==> before[j] == #[trigger] digits(rest as nat)[j]);
        assert(low@[last] == all[all.len() - 1 - last]);
    }
    assert(digits(rest as nat) == seq![rest as u8]);
    assert(digits(rest as nat)[0] == rest as u8);
    low.push(rest as u8);
    let mut numeral: Vec<u8> = Vec::new();
    let mut i: usize = low.len();
    while i > 0
        invariant
            i <= low@.len(),
            low@.len() == all.len(),
            numeral@.len() == low@.len() - i,
            forall|j: int| 0 <= j < low@.len() ==> #[trigger] low@[j] == all[all.len() - 1 - j],
            forall|j: int| 0 <= j < numeral@.len() ==> #[trigger] numeral@[j] == all[j],
        decreases i,
    {
        i -= 1;
        numeral.push(low[i]);
    }
    assert(numeral@ =~= all);
    numeral
}

/// Whether the key of id `a` comes strictly before the key of id `b`.
pub fn comes_before(a: u128, b: u128) -> (before: bool)
    ensures
        before == sorts_before(a, b),
{
    let left = decimal(a);
    let right = decimal(b);
    let mut i: usize = 0;
    assert(left@.skip(0) =~= left@ && right@.skip(0) =~= right@);
    while i < left.len() && i < right.len() && left[i] == right[i]
        invariant
            i <= left@.len(),
            i <= right@.len(),
            precedes(left@, right@) == precedes(left@.skip(i as int), right@.skip(i as int)),
        decreases left@.len() - i,
    {
        assert(left@.skip(i as int).skip(1) =~= left@.skip(i + 1));
        assert(right@.skip(i as int).skip(1) =~= right@.skip(i + 1));
        i += 1;
    }
    if i == right.len() {
        false
    } else if i == left.len() {
        true
    } else {
        left[i] < right[i]
    }
}

} // verus!
