//! Small standard-library exercises: factorial, option helpers, squaring
//! with a decimal rendering, doubled-and-shifted data, and a named record.

use vstd::prelude::*;
use vstd::string::*;

verus! {

/// The factorial of `n`.
pub open spec fn fact(n: nat) -> nat
    decreases n,
{
    if n == 0 {
        1
    } else {
        n * fact((n - 1) as nat)
    }
}

/// Factorials never decrease along the sequence.
pub proof fn lemma_fact_nondecreasing(m: nat, n: nat)
    requires
        m <= n,
    ensures
        fact(m) <= fact(n),
    decreases n,
{
    if m < n {
        lemma_fact_nondecreasing(m, (n - 1) as nat);
        assert(fact(n) == n * fact((n - 1) as nat));
        assert(fact((n - 1) as nat) <= n * fact((n - 1) as nat)) by (nonlinear_arith)
            requires
                n >= 1,
        ;
    }
}

/// The product of one through `n`; the result must fit.
pub fn factorial(n: u32) -> (r: u32)
    requires
        fact(n as nat) <= u32::MAX,
    ensures
        r == fact(n as nat),
{
    let mut r: u32 = 1;
    let mut i: u32 = 0;
    while i < n
        invariant
            i <= n,
            r == fact(i as nat),
            fact(n as nat) <= u32::MAX,
        decreases n - i,
    {
        proof {
            lemma_fact_nondecreasing((i + 1) as nat, n as nat);
            assert(fact((i + 1) as nat) == (i + 1) * fact(i as nat));
        }
        i += 1;
        r = r * i;
    }
    r
}

/// Nobody is here: always `None`.
pub fn nobody() -> (r: Option<&'static str>)
    ensures
        r is None,
{
    None
}

/// The vikings are here.
pub fn vikings() -> (r: Option<&'static str>)
    ensures
        r is Some,
        r->0@ == "vikings"@,
{
    Some("vikings")
}

/// Whether the number is even.
pub fn is_even(n: &i32) -> (r: bool)
    ensures
        r <==> (*n as int) % 2 == 0,
{
    n % 2 == 0
}

/// The decimal digit characters of `n`, most significant first.
pub open spec fn dec_digits(n: nat) -> Seq<char>
    decreases n,
{
    if n < 10 {
        seq![digit_char(n)]
    } else {
        dec_digits(n / 10).push(digit_char(n % 10))
    }
}

/// The character for one decimal digit.
pub open spec fn digit_char(d: nat) -> char {
    if d == 0 {
        '0'
    } else if d == 1 {
        '1'
    } else if d == 2 {
        '2'
    } else if d == 3 {
        '3'
    } else if d == 4 {
        '4'
    } else if d == 5 {
        '5'
    } else if d == 6 {
        '6'
    } else if d == 7 {
        '7'
    } else if d == 8 {
        '8'
    } else {
        '9'
    }
}

/// One decimal digit as an owned string.
fn digit_str(d: u32) -> (r: String)
    requires
        d < 10,
    ensures
        r@ =~= seq![digit_char(d as nat)],
{
    let r = if d == 0 {
        String::from_str("0")
    } else if d == 1 {
        String::from_str("1")
    } else if d == 2 {
        String::from_str("2")
    } else if d == 3 {
        String::from_str("3")
    } else if d == 4 {
        String::from_str("4")
    } else if d == 5 {
        String::from_str("5")
    } else if d == 6 {
        String::from_str("6")
    } else if d == 7 {
        String::from_str("7")
    } else if d == 8 {
        String::from_str("8")
    } else {
        String::from_str("9")
    };
    proof {
        reveal_strlit("0");
        reveal_strlit("1");
        reveal_strlit("2");
        reveal_strlit("3");
        reveal_strlit("4");
        reveal_strlit("5");
        reveal_strlit("6");
        reveal_strlit("7");
        reveal_strlit("8");
        reveal_strlit("9");
    }
    r
}

/// Renders `x` in decimal.
pub fn u32_to_string(x: u32) -> (r: String)
    ensures
        r@ == dec_digits(x as nat),
    decreases x,
{
    if x < 10 {
        digit_str(x)
    } else {
        let high = u32_to_string(x / 10);
        let low = digit_str(x % 10);
        let r = high.concat(low.as_str());
        proof {
            assert(r@ =~= dec_digits((x / 10) as nat).push(digit_char((x % 10) as nat)));
        }
        r
    }
}

/// Squares `x` when the square fits, rendered in decimal; `None` when
/// the square would overflow.
pub fn sq_then_to_string(x: u32) -> (r: Option<String>)
    ensures
        x * x <= u32::MAX ==> r is Some && r->0@ == dec_digits((x * x) as nat),
        x * x > u32::MAX ==> r is None,
{
    proof {
        assert((x as int) * (x as int) <= 0xffff_fffe_0000_0001) by (nonlinear_arith)
            requires
                x <= 0xffff_ffffu32,
        ;
    }
    let wide = (x as u64) * (x as u64);
    if wide > u32::MAX as u64 {
        None
    } else {
        let sq = wide as u32;
        Some(u32_to_string(sq))
    }
}

/// Doubles each value and adds five; every result must fit.
pub fn process_data(data: &[u32]) -> (r: Vec<u32>)
    requires
        forall|k: int| 0 <= k < data@.len() ==> 2 * (#[trigger] data@[k]) + 5 <= u32::MAX,
    ensures
        r@.len() == data@.len(),
        forall|k: int| 0 <= k < data@.len() ==> r@[k] == 2 * (#[trigger] data@[k]) + 5,
{
    let mut output: Vec<u32> = Vec::new();
    let mut i: usize = 0;
    while i < data.len()
        invariant
            i <= data@.len(),
            output@.len() == i,
            forall|k: int| 0 <= k < data@.len() ==> 2 * (#[trigger] data@[k]) + 5 <= u32::MAX,
            forall|k: int| 0 <= k < i ==> output@[k] == 2 * (#[trigger] data@[k]) + 5,
        decreases data@.len() - i,
    {
        let val = data[i];
        output.push(val * 2 + 5);
        i += 1;
    }
    output
}

/// Doubles each value and adds five, reserving exactly once up front.
pub fn process_data2(data: &[u32]) -> (r: Vec<u32>)
    requires
        forall|k: int| 0 <= k < data@.len() ==> 2 * (#[trigger] data@[k]) + 5 <= u32::MAX,
    ensures
        r@.len() == data@.len(),
        forall|k: int| 0 <= k < data@.len() ==> r@[k] == 2 * (#[trigger] data@[k]) + 5,
{
    let mut output: Vec<u32> = Vec::with_capacity(data.len());
    let mut i: usize = 0;
    while i < data.len()
        invariant
            i <= data@.len(),
            output@.len() == i,
            forall|k: int| 0 <= k < data@.len() ==> 2 * (#[trigger] data@[k]) + 5 <= u32::MAX,
            forall|k: int| 0 <= k < i ==> output@[k] == 2 * (#[trigger] data@[k]) + 5,
        decreases data@.len() - i,
    {
        let val = data[i];
        output.push(val * 2 + 5);
        i += 1;
    }
    output
}

/// A named raider and where they hail from.
#[derive(PartialEq, Eq, Hash, Debug)]
pub struct Viking {
    pub name: String,
    pub country: String,
}

impl Viking {
    /// A viking with the given name and country, copied into owned
    /// strings.
    pub fn new(name: &str, country: &str) -> (r: Viking)
        ensures
            r.name@ == name@,
            r.country@ == country@,
    {
        Viking { name: name.to_owned(), country: country.to_owned() }
    }
}

/// A counter that alternates between producing and skipping: even states
/// are produced, odd states yield nothing, and the state always advances.
pub struct Alternate {
    pub state: i32,
}

impl Alternate {
    /// Advances the state by one and yields the old state only when it
    /// was even.
    pub fn next(&mut self) -> (r: Option<i32>)
        requires
            old(self).state < i32::MAX,
        ensures
            final(self).state == old(self).state + 1,
            (old(self).state as int) % 2 == 0 ==> r == Some(old(self).state),
            (old(self).state as int) % 2 != 0 ==> r is None,
    {
        let val = self.state;
        self.state = self.state + 1;
        if val % 2 == 0 {
            Some(val)
        } else {
            None
        }
    }
}

} // verus!
