//! Version numbers of the ledger's code.

use vstd::prelude::*;

verus! {

/// The version of the code that runs the ledger.
#[derive(Clone, Copy, Debug, PartialEq, Eq, Structural)]
pub struct ContractVersion {
    pub major: u32,
    pub minor: u32,
    pub patch: u32,
}

/// Where `mark` first stands in `s`, or the length of `s` if it does not.
pub open spec fn position(s: Seq<u8>, mark: u8) -> int
    decreases s.len(),
{
    if s.len() == 0 || s[0] == mark {
        0
    } else {
        1 + position(s.skip(1), mark)
    }
}

/// What stands before the first `mark`: all of `s` if there is none.
pub open spec fn before(s: Seq<u8>, mark: u8) -> Seq<u8> {
    s.take(position(s, mark))
}

/// What stands behind the first `mark`, if there is one.
pub open spec fn behind(s: Seq<u8>, mark: u8) -> Option<Seq<u8>> {
    if position(s, mark) < s.len() {
        Some(s.skip(position(s, mark) + 1))
    } else {
        None
    }
}

/// Whether `s` is made of decimal digits, one at least.
pub open spec fn all_digits(s: Seq<u8>) -> bool {
    s.len() > 0 && forall|i: int| 0 <= i < s.len() ==> 48 <= #[trigger] s[i] <= 57
}

/// The number that `s` stands for: digits, with or without one plus sign before
/// them, of a value below 2^32. Anything else stands for 0.
pub open spec fn component(s: Seq<u8>) -> u32 {
    let d = if s.len() > 0 && s[0] == 43 {
        s.skip(1)
    } else {
        s
    };
    if all_digits(d) && crate::invoice::decimal::digits_value(d) <= u32::MAX {
        crate::invoice::decimal::digits_value(d) as u32
    } else {
        0
    }
}

/// The version that a text such as `1.4.2-beta` stands for. The first two
/// components end at a dot; the third ends at a hyphen. One that is missing is 0.
pub open spec fn version_of(s: Seq<u8>) -> ContractVersion {
    let rest = behind(s, 46);
    let last = match rest {
        Some(r) => behind(r, 46),
        None => None,
    };
    ContractVersion {
        major: component(before(s, 46)),
        minor: match rest {
            Some(r) => component(before(r, 46)),
            None => 0,
        },
        patch: match last {
            Some(r) => component(before(r, 45)),
            None => 0,
        },
    }
}

proof fn lemma_position(s: Seq<u8>, mark: u8, i: int)
    requires
        0 <= i <= s.len(),
        forall|j: int| 0 <= j < i ==> s[j] != mark,
        i < s.len() ==> s[i] == mark,
    ensures
        position(s, mark) == i,
    decreases i,
{
    if i > 0 {
        let t = s.skip(1);
        assert forall|j: int| 0 <= j < i - 1 implies t[j] != mark by {
            assert(t[j] == s[j + 1]);
        }
        lemma_position(t, mark, i - 1);
    }
}

/// Where `mark` first stands in `s` at or behind `from`, or the length of `s`.
fn find(s: &[u8], from: usize, mark: u8) -> (r: usize)
    requires
        from <= s@.len(),
    ensures
        r == from + position(s@.skip(from as int), mark),
        from <= r <= s@.len(),
{
    let mut i: usize = from;
    while i < s.len() && s[i] != mark
        invariant
            from <= i <= s@.len(),
            forall|j: int| from <= j < i ==> s@[j] != mark,
        decreases s@.len() - i,
    {
        i = i + 1;
    }
    proof {
        let t = s@.skip(from as int);
        assert forall|j: int| 0 <= j < i - from implies t[j] != mark by {
            assert(t[j] == s@[from + j]);
        }
        lemma_position(t, mark, i - from);
    }
    i
}

proof fn lemma_digits_value_grows(s: Seq<u8>, i: int)
    requires
        0 <= i <= s.len(),
        forall|j: int| 0 <= j < s.len() ==> 48 <= #[trigger] s[j] <= 57,
    ensures
        0 <= crate::invoice::decimal::digits_value(s.take(i)),
        crate::invoice::decimal::digits_value(s.take(i))
            <= crate::invoice::decimal::digits_value(s),
    decreases s.len(),
{
    if i == s.len() {
        assert(s.take(i) =~= s);
        if i > 0 {
            lemma_digits_value_grows(s.drop_last(), i - 1);
            assert(s.drop_last().take(i - 1) =~= s.drop_last());
        }
    } else {
        lemma_digits_value_grows(s.drop_last(), i);
        assert(s.drop_last().take(i) =~= s.take(i));
    }
}

/// The component that stands in `s` from `from` up to `to`.
fn parse_component(s: &[u8], from: usize, to: usize) -> (r: u32)
    requires
        from <= to <= s@.len(),
    ensures
        r == component(s@.subrange(from as int, to as int)),
{
    let ghost whole = s@.subrange(from as int, to as int);
    let mut start: usize = from;
    if from < to && s[from] == 43 {
        start = from + 1;
    }
    let ghost d = s@.subrange(start as int, to as int);
    assert(d =~= if whole.len() > 0 && whole[0] == 43 {
        whole.skip(1)
    } else {
        whole
    });
    if start == to {
        return 0;
    }
    let mut value: u64 = 0;
    let mut fits = true;
    let mut i: usize = start;
    while i < to
        invariant
            from <= start <= i <= to <= s@.len(),
            whole == s@.subrange(from as int, to as int),
            d == if whole.len() > 0 && whole[0] == 43 {
                whole.skip(1)
            } else {
                whole
            },
            d == s@.subrange(start as int, to as int),
            forall|j: int| 0 <= j < i - start ==> 48 <= #[trigger] d[j] <= 57,
            value <= u32::MAX,
            fits ==> value == crate::invoice::decimal::digits_value(d.take(i - start)),
            !fits ==> crate::invoice::decimal::digits_value(d.take(i - start)) > u32::MAX,
        decreases to - i,
    {
        let byte: u8 = s[i];
        assert(byte == d[i - start]);
        if byte < 48 || byte > 57 {
            assert(!all_digits(d));
            return 0;
        }
        proof {
            let t = d.take(i + 1 - start);
            assert(t.drop_last() =~= d.take(i - start));
            lemma_digits_value_grows(t, i - start);
        }
        if fits {
            let next: u64 = value * 10 + (byte - 48) as u64;
            if next > u32::MAX as u64 {
                fits = false;
            } else {
                value = next;
            }
        }
        i = i + 1;
    }
    assert(d.take(to - start) =~= d);
    if fits {
        value as u32
    } else {
        0
    }
}

/// Reads the version that a text stands for.
pub fn parse_version(v: &[u8]) -> (version: ContractVersion)
    ensures
        version == version_of(v@),
{
    let first: usize = find(v, 0, 46);
    assert(v@.skip(0) =~= v@);
    let major: u32 = parse_component(v, 0, first);
    assert(v@.subrange(0, first as int) =~= before(v@, 46));
    let mut minor: u32 = 0;
    let mut patch: u32 = 0;
    if first < v.len() {
        let ghost rest = v@.skip(first + 1);
        let second: usize = find(v, first + 1, 46);
        minor = parse_component(v, first + 1, second);
        assert(v@.subrange(first + 1, second as int) =~= before(rest, 46));
        if second < v.len() {
            let ghost last = v@.skip(second + 1);
            assert(rest.skip(position(rest, 46) + 1) =~= last);
            let end: usize = find(v, second + 1, 45);
            patch = parse_component(v, second + 1, end);
            assert(v@.subrange(second + 1, end as int) =~= before(last, 45));
        }
    }
    ContractVersion { major, minor, patch }
}

/// Whether a text is a numeral below 2^32: decimal digits alone, one at least.
pub open spec fn is_numeral(s: Seq<u8>) -> bool {
    &&& s.len() > 0
    &&& forall|i: int| 0 <= i < s.len() ==> 48 <= #[trigger] s[i] <= 57
    &&& crate::invoice::decimal::digits_value(s) < 0x1_0000_0000
}

proof fn lemma_split(a: Seq<u8>, mark: u8, rest: Seq<u8>)
    requires
        forall|i: int| 0 <= i < a.len() ==> #[trigger] a[i] != mark,
    ensures
        before(a.push(mark) + rest, mark) == a,
        behind(a.push(mark) + rest, mark) == Some(rest),
        before(a, mark) == a,
        behind(a, mark) is None,
{
    let s = a.push(mark) + rest;
    lemma_position(s, mark, a.len() as int);
    lemma_position(a, mark, a.len() as int);
    assert(s.take(a.len() as int) =~= a);
    assert(s.skip(a.len() as int + 1) =~= rest);
    assert(a.take(a.len() as int) =~= a);
}

proof fn lemma_component(s: Seq<u8>)
    requires
        is_numeral(s),
    ensures
        component(s) == crate::invoice::decimal::digits_value(s),
        component(seq![43u8] + s) == crate::invoice::decimal::digits_value(s),
        forall|i: int| 0 <= i < s.len() ==> #[trigger] s[i] != 46 && s[i] != 45,
{
    assert((seq![43u8] + s).skip(1) =~= s);
    lemma_digits_value_grows(s, 0);
    assert(48 <= s[0]);
}

/// Three numerals between dots are the three components of a version, whatever
/// follows the third behind a hyphen; components that are missing are 0.
pub proof fn versions_are_read_as_written(a: Seq<u8>, b: Seq<u8>, c: Seq<u8>, tail: Seq<u8>)
    requires
        is_numeral(a),
        is_numeral(b),
        is_numeral(c),
    ensures
        ({
            let dotted = a.push(46) + (b.push(46) + c);
            let tagged = a.push(46) + (b.push(46) + (c.push(45) + tail));
            let version = version_of(dotted);
            &&& version.major == crate::invoice::decimal::digits_value(a)
            &&& version.minor == crate::invoice::decimal::digits_value(b)
            &&& version.patch == crate::invoice::decimal::digits_value(c)
            &&& version_of(tagged) == version
            &&& version_of(a.push(46) + b) == (ContractVersion { patch: 0, ..version })
            &&& version_of(a) == (ContractVersion { minor: 0, patch: 0, ..version })
        }),
{
    lemma_component(a);
    lemma_component(b);
    lemma_component(c);
    lemma_split(a, 46, b.push(46) + c);
    lemma_split(a, 46, b.push(46) + (c.push(45) + tail));
    lemma_split(a, 46, b);
    lemma_split(b, 46, c);
    lemma_split(b, 46, c.push(45) + tail);
    lemma_split(c, 45, tail);
}

/// A component that is no number, or one beyond 32 bits, counts as 0; a plus sign
/// before a numeral does not count.
pub proof fn components_that_are_no_numbers_are_zero(s: Seq<u8>)
    ensures
        is_numeral(s) ==> component(s) == crate::invoice::decimal::digits_value(s) && component(
            seq![43u8] + s,
        ) == component(s),
        !is_numeral(s) && (s.len() == 0 || s[0] != 43) ==> component(s) == 0,
{
    if is_numeral(s) {
        lemma_component(s);
    }
}

} // verus!
