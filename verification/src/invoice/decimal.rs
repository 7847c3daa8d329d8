//! Decimal numerals.

use vstd::prelude::*;

verus! {

/// The decimal numeral of a number, most significant digit first.
pub open spec fn digits(n: nat) -> Seq<u8>
    decreases n,
{
    if n < 10 {
        seq![(48 + n) as u8]
    } else {
        digits(n / 10).push((48 + n % 10) as u8)
    }
}

/// The number that a sequence of decimal digits denotes.
pub open spec fn digits_value(s: Seq<u8>) -> int
    decreases s.len(),
{
    if s.len() == 0 {
        0
    } else {
        10 * digits_value(s.drop_last()) + (s.last() - 48)
    }
}

/// Writes the decimal numeral of `number` to the start of `buf` and returns
/// its length. A buffer that is too short gets the low-order digits that fit.
pub fn write_u64_decimal(buf: &mut [u8], number: u64) -> (written: usize)
    requires
        old(buf)@.len() > 0 || number == 0,
    ensures
        ({
            let numeral = digits(number as nat);
            let skipped = if numeral.len() <= old(buf)@.len() {
                0
            } else {
                numeral.len() - old(buf)@.len()
            };
            &&& written == numeral.len() - skipped
            &&& final(buf)@ == numeral.skip(skipped) + old(buf)@.skip(written as int)
        }),
{
    let ghost numeral = digits(number as nat);
    let ghost before = buf@;
    if number == 0 {
        if buf.len() == 0 {
            assert(numeral.skip(1) + before.skip(0) =~= buf@);
            return 0;
        }
        buf[0] = 48;
        assert(buf@ =~= numeral.skip(0) + before.skip(1));
        return 1;
    }
    let mut n: u64 = number;
    let mut i: usize = 0;
    assert(numeral.take(numeral.len() as int) =~= numeral);
    while n > 0 && i < buf.len()
        invariant
            numeral == digits(number as nat),
            buf@.len() == before.len(),
            i <= buf@.len(),
            i <= numeral.len(),
            n > 0 ==> digits(n as nat) == numeral.take(numeral.len() - i),
            n == 0 ==> i == numeral.len(),
            n > 0 ==> i < numeral.len(),
            i == 0 ==> n > 0,
            forall|j: int| 0 <= j < i ==> buf@[j] == numeral[numeral.len() - 1 - j],
            forall|j: int| i <= j < before.len() ==> buf@[j] == before[j],
        decreases n,
    {
        let ghost m = digits(n as nat);
        assert(m.len() >= 1 && m.last() == (48 + n % 10) as u8);
        assert(m.last() == numeral[numeral.len() - 1 - i]);
        let digit: u8 = 48 + (n % 10) as u8;
        buf[i] = digit;
        assert(n >= 10 ==> digits((n / 10) as nat) =~= m.drop_last());
        assert(n >= 10 ==> m.drop_last() =~= numeral.take(numeral.len() - (i + 1)));
        assert(n < 10 ==> m.len() == 1);
        assert(n >= 10 ==> digits((n / 10) as nat).len() >= 1);
        n = n / 10;
        i = i + 1;
    }
    let ghost reversed = buf@;
    let mut lo: usize = 0;
    let mut hi: usize = i - 1;
    while lo < hi
        invariant
            buf@.len() == before.len(),
            1 <= i <= buf@.len(),
            i <= numeral.len(),
            lo + hi == i - 1,
            reversed.len() == before.len(),
            forall|j: int| 0 <= j < i ==> reversed[j] == numeral[numeral.len() - 1 - j],
            forall|j: int| lo <= j <= hi ==> buf@[j] == reversed[j],
            forall|j: int| 0 <= j < lo ==> buf@[j] == reversed[i - 1 - j],
            forall|j: int| hi < j < i ==> buf@[j] == reversed[i - 1 - j],
            forall|j: int| i <= j < before.len() ==> buf@[j] == before[j],
        decreases i - lo,
    {
        let low: u8 = buf[lo];
        let high: u8 = buf[hi];
        buf[lo] = high;
        buf[hi] = low;
        lo = lo + 1;
        hi = hi - 1;
    }
    assert forall|j: int| 0 <= j < i implies buf@[j] == numeral[numeral.len() - i + j] by {
        assert(buf@[j] == reversed[i - 1 - j]);
    }
    assert(buf@ =~= numeral.skip(numeral.len() - i) + before.skip(i as int));
    i
}

/// A numeral denotes the number that it was written for, and holds decimal
/// digits alone.
pub proof fn numeral_denotes_its_number(n: nat)
    ensures
        digits(n).len() >= 1,
        digits_value(digits(n)) == n,
        forall|i: int| 0 <= i < digits(n).len() ==> 48 <= #[trigger] digits(n)[i] <= 57,
    decreases n,
{
    if n < 10 {
        let d = digits(n);
        assert(d.drop_last() =~= Seq::<u8>::empty());
        reveal_with_fuel(digits_value, 2);
    } else {
        numeral_denotes_its_number(n / 10);
        assert(digits(n).drop_last() =~= digits(n / 10));
    }
}

/// A numeral has no zeros before it, and is one digit below ten.
pub proof fn numerals_have_no_zeros_before_them(n: nat)
    ensures
        n < 10 ==> digits(n).len() == 1,
        n > 0 ==> digits(n).len() > 0 && digits(n)[0] != 48,
    decreases n,
{
    if n >= 10 {
        numerals_have_no_zeros_before_them(n / 10);
    }
}

/// Digits count ten times as much with every digit that follows.
pub proof fn digits_count_by_tens(s: Seq<u8>, d: u8)
    ensures
        digits_value(Seq::empty()) == 0,
        digits_value(s.push(d)) == 10 * digits_value(s) + (d - 48),
{
    assert(s.push(d).drop_last() =~= s);
}

/// The text made of a prefix and the decimal numeral of a number.
pub fn concat_prefix_u64(prefix: &[u8], id: u64) -> (text: Vec<u8>)
    requires
        prefix@.len() <= 20,
    ensures
        text@ == prefix@ + digits(id as nat),
{
    let mut numeral: [u8; 20] = [0; 20];
    proof {
        lemma_digits_len(id as nat, 20);
    }
    let written: usize = write_u64_decimal(&mut numeral, id);
    let mut text: Vec<u8> = Vec::new();
    let mut i: usize = 0;
    while i < prefix.len()
        invariant
            i <= prefix@.len(),
            text@ == prefix@.take(i as int),
        decreases prefix@.len() - i,
    {
        text.push(prefix[i]);
        i = i + 1;
    }
    i = 0;
    while i < written
        invariant
            i <= written,
            written == digits(id as nat).len(),
            written <= 20,
            forall|j: int| 0 <= j < written ==> numeral@[j] == digits(id as nat)[j],
            text@ == prefix@ + digits(id as nat).take(i as int),
        decreases written - i,
    {
        text.push(numeral[i]);
        i = i + 1;
    }
    assert(digits(id as nat).take(written as int) =~= digits(id as nat));
    text
}

spec fn power_of_ten(k: nat) -> int
    decreases k,
{
    if k == 0 {
        1
    } else {
        10 * power_of_ten((k - 1) as nat)
    }
}

proof fn lemma_digits_len(n: nat, k: nat)
    requires
        k == 20,
        n <= u64::MAX,
    ensures
        digits(n).len() <= k,
{
    reveal_with_fuel(power_of_ten, 21);
    lemma_digits_len_step(n, k);
}

proof fn lemma_digits_len_step(n: nat, k: nat)
    requires
        k >= 1,
        n < power_of_ten(k),
    ensures
        digits(n).len() <= k,
    decreases k,
{
    if n >= 10 {
        assert(k >= 2) by {
            reveal_with_fuel(power_of_ten, 3);
        }
        lemma_digits_len_step(n / 10, (k - 1) as nat);
    }
}

} // verus!
