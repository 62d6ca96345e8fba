//! Fresh-name generation. A name generator is a counter namespaced by a
//! caller-supplied prefix; the names it hands out are the prefix followed by
//! the counter's decimal digits, so distinct counters give distinct names.

use vstd::prelude::*;

verus! {

broadcast use vstd::seq::group_seq_axioms, vstd::seq_lib::group_seq_lib_default;

/// The decimal digit character for `digit` (digits ten and above do not occur).
pub open spec fn digit_char(digit: nat) -> char {
    if digit == 0 { '0' }
    else if digit == 1 { '1' }
    else if digit == 2 { '2' }
    else if digit == 3 { '3' }
    else if digit == 4 { '4' }
    else if digit == 5 { '5' }
    else if digit == 6 { '6' }
    else if digit == 7 { '7' }
    else if digit == 8 { '8' }
    else { '9' }
}

/// Whether `character` is a decimal digit.
pub open spec fn is_digit(character: char) -> bool {
    character == '0' || character == '1' || character == '2' || character == '3'
        || character == '4' || character == '5' || character == '6' || character == '7'
        || character == '8' || character == '9'
}

/// The decimal digits of `n`, most significant first, with no leading zero.
pub open spec fn decimal_digits(n: nat) -> Seq<char>
    decreases n,
{
    if n < 10 {
        seq![digit_char(n)]
    } else {
        decimal_digits(n / 10).push(digit_char(n % 10))
    }
}

/// The separator between a seed name and the counter's digits.
pub open spec fn name_separator() -> Seq<char> {
    seq!['_', 'c', '_']
}

/// The name generated from a seed name and a counter value: the seed, the
/// separator, and the counter's decimal digits.
pub open spec fn generated_name(seed: Seq<char>, counter: nat) -> Seq<char> {
    seed + name_separator() + decimal_digits(counter)
}

/// Appends the character for one decimal digit to `name`.
fn push_digit(name: &mut String, digit: u128)
    requires
        digit < 10,
    ensures
        final(name)@ == old(name)@ + seq![digit_char(digit as nat)],
{
    proof {
        reveal_strlit("0");
        reveal_strlit("1");
        reveal_strlit("2");
        reveal_strlit("3");
        reveal_strlit("4");
        reveal_strlit("5");
        reveal_strlit("6");
        reveal_strlit("7");
        reveal_strlit("8");
        reveal_strlit("9");
    }
    match digit {
        0 => name.append("0"),
        1 => name.append("1"),
        2 => name.append("2"),
        3 => name.append("3"),
        4 => name.append("4"),
        5 => name.append("5"),
        6 => name.append("6"),
        7 => name.append("7"),
        8 => name.append("8"),
        _ => name.append("9"),
    }
    proof {
        assert(final(name)@ =~= old(name)@ + seq![digit_char(digit as nat)]);
    }
}

/// Appends the decimal digits of `n` to `name`.
fn push_decimal(name: &mut String, n: u128)
    ensures
        final(name)@ == old(name)@ + decimal_digits(n as nat),
    decreases n,
{
    if n < 10 {
        push_digit(name, n);
    } else {
        push_decimal(name, n / 10);
        push_digit(name, n % 10);
        proof {
            assert(final(name)@ =~= old(name)@ + decimal_digits(n as nat));
        }
    }
}

/// A process-local counter, namespaced by a caller-supplied prefix, that
/// produces one name per counter value. Distinct counter values give distinct
/// names, and sharing one generator across nested builders keeps every name
/// it hands out unique across the whole definition being built.
#[derive(Debug)]
pub struct NameGenerator {
    pub prefix: String,
    pub counter: u128,
}

impl NameGenerator {
    /// A generator whose names all start with `prefix`, counting from zero.
    pub fn new(prefix: String) -> (generator: Self)
        ensures
            generator.prefix@ == prefix@,
            generator.counter == 0,
    {
        Self { prefix, counter: 0 }
    }

    /// Hands out the next name: the prefix followed by the counter's decimal
    /// digits, then advances the counter.
    pub fn generate(&mut self) -> (name: String)
        requires
            old(self).counter < u128::MAX,
        ensures
            name@ == old(self).prefix@ + decimal_digits(old(self).counter as nat),
            final(self).prefix@ == old(self).prefix@,
            final(self).counter == old(self).counter + 1,
    {
        let mut name = self.prefix.clone();
        push_decimal(&mut name, self.counter);
        self.counter = self.counter + 1;
        name
    }
}

/// Whether `name` is one of the names generated from `seed`, for any counter
/// value.
pub open spec fn is_generated_from(seed: Seq<char>, name: Seq<char>) -> bool {
    exists|counter: nat| name == generated_name(seed, counter)
}

/// Every character of a decimal representation is a digit.
pub proof fn lemma_decimal_digits_are_digits(n: nat)
    ensures
        forall|i: int| 0 <= i < decimal_digits(n).len() ==> is_digit(
            #[trigger] decimal_digits(n)[i],
        ),
    decreases n,
{
    if n >= 10 {
        lemma_decimal_digits_are_digits(n / 10);
        assert forall|i: int| 0 <= i < decimal_digits(n).len() implies is_digit(
            decimal_digits(n)[i],
        ) by {
            if i < decimal_digits(n / 10).len() {
                assert(decimal_digits(n)[i] == decimal_digits(n / 10)[i]);
            } else {
                assert(decimal_digits(n)[i] == digit_char(n % 10));
            }
        }
    }
}

/// A decimal representation has one digit exactly for values below ten.
pub proof fn lemma_decimal_digits_len(n: nat)
    ensures
        decimal_digits(n).len() >= 1,
        n >= 10 ==> decimal_digits(n).len() >= 2,
    decreases n,
{
    if n >= 10 {
        lemma_decimal_digits_len(n / 10);
    }
}

/// Distinct values have distinct decimal representations.
pub proof fn lemma_decimal_digits_injective(a: nat, b: nat)
    requires
        decimal_digits(a) == decimal_digits(b),
    ensures
        a == b,
    decreases a,
{
    lemma_decimal_digits_len(a);
    lemma_decimal_digits_len(b);
    if a < 10 && b < 10 {
        assert(decimal_digits(a)[0] == digit_char(a));
        assert(decimal_digits(b)[0] == digit_char(b));
    } else if a < 10 {
        assert(decimal_digits(a).len() == 1);
    } else if b < 10 {
        assert(decimal_digits(b).len() == 1);
    } else {
        assert(decimal_digits(a).last() == digit_char(a % 10));
        assert(decimal_digits(b).last() == digit_char(b % 10));
        assert(a % 10 == b % 10);
        assert(decimal_digits(a).drop_last() =~= decimal_digits(a / 10));
        assert(decimal_digits(b).drop_last() =~= decimal_digits(b / 10));
        lemma_decimal_digits_injective(a / 10, b / 10);
    }
}

/// Name freshness, at the generator: two generated names agree only when
/// both their seeds and their counter values agree, so names generated from
/// one seed are pairwise distinct, and names generated from distinct seeds
/// never collide.
pub proof fn lemma_generated_name_injective(
    seed1: Seq<char>,
    counter1: nat,
    seed2: Seq<char>,
    counter2: nat,
)
    requires
        generated_name(seed1, counter1) == generated_name(seed2, counter2),
    ensures
        seed1 == seed2,
        counter1 == counter2,
{
    let name = generated_name(seed1, counter1);
    let digits1 = decimal_digits(counter1);
    let digits2 = decimal_digits(counter2);
    lemma_decimal_digits_are_digits(counter1);
    lemma_decimal_digits_are_digits(counter2);
    lemma_decimal_digits_len(counter1);
    lemma_decimal_digits_len(counter2);
    assert(name.len() == seed1.len() + 3 + digits1.len());
    assert(name.len() == seed2.len() + 3 + digits2.len());
    assert(name[seed1.len() as int] == '_');
    assert(name[seed2.len() as int] == '_');
    if seed1.len() < seed2.len() {
        let position = seed2.len() + 2;
        assert(name[position as int] == name_separator()[2]);
        assert(name[position as int] == '_');
        assert(position >= seed1.len() + 3);
        assert(name[position as int] == digits1[position - (seed1.len() + 3)]);
        assert(is_digit(name[position as int]));
        assert(false);
    }
    if seed2.len() < seed1.len() {
        let position = seed1.len() + 2;
        assert(name[position as int] == name_separator()[2]);
        assert(name[position as int] == '_');
        assert(position >= seed2.len() + 3);
        assert(name[position as int] == digits2[position - (seed2.len() + 3)]);
        assert(is_digit(name[position as int]));
        assert(false);
    }
    assert(seed1.len() == seed2.len());
    assert forall|i: int| 0 <= i < seed1.len() implies seed1[i] == seed2[i] by {
        assert(name[i] == seed1[i]);
        assert(name[i] == seed2[i]);
    }
    assert(seed1 =~= seed2);
    assert forall|i: int| 0 <= i < digits1.len() implies digits1[i] == digits2[i] by {
        assert(name[seed1.len() + 3 + i] == digits1[i]);
        assert(name[seed2.len() + 3 + i] == digits2[i]);
    }
    assert(digits1 =~= digits2);
    lemma_decimal_digits_injective(counter1, counter2);
}

} // verus!
