//! The guessing game's decisions: drawing the secret, reading a guess out
//! of a typed line, and judging it. The loop around them — printing and
//! reading — is the host program's business; each round is one call of
//! [`game_step`], whose contract covers every line the player can type.

use vstd::prelude::*;
use vstd::string::*;

verus! {

/// A whitespace character, as trimming a typed line understands it.
pub open spec fn is_space(c: char) -> bool {
    c == ' ' || c == '\t' || c == '\n' || c == '\r'
}

/// The sequence with leading whitespace dropped.
pub open spec fn trim_front(s: Seq<char>) -> Seq<char>
    decreases s.len(),
{
    if s.len() > 0 && is_space(s[0]) {
        trim_front(s.drop_first())
    } else {
        s
    }
}

/// The sequence with trailing whitespace dropped.
pub open spec fn trim_back(s: Seq<char>) -> Seq<char>
    decreases s.len(),
{
    if s.len() > 0 && is_space(s.last()) {
        trim_back(s.drop_last())
    } else {
        s
    }
}

/// Whitespace dropped from both ends.
pub open spec fn trimmed(s: Seq<char>) -> Seq<char> {
    trim_back(trim_front(s))
}

/// The digits of a number, after an optional leading plus sign.
pub open spec fn digits_part(s: Seq<char>) -> Seq<char> {
    if s.len() > 0 && s[0] == '+' {
        s.drop_first()
    } else {
        s
    }
}

/// A decimal digit character.
pub open spec fn is_digit(c: char) -> bool {
    48 <= c as u32 <= 57
}

/// The numeric value of one digit character.
pub open spec fn digit_val(c: char) -> nat {
    (c as u32 - 48) as nat
}

/// Every character is a digit.
pub open spec fn all_digits(s: Seq<char>) -> bool {
    forall|i: int| 0 <= i < s.len() ==> is_digit(#[trigger] s[i])
}

/// The number a digit string denotes.
pub open spec fn dec_value(s: Seq<char>) -> nat
    decreases s.len(),
{
    if s.len() == 0 {
        0
    } else {
        dec_value(s.drop_last()) * 10 + digit_val(s.last())
    }
}

/// A prefix of a digit string never denotes more than the whole.
proof fn lemma_dec_value_prefix(s: Seq<char>, j: int)
    requires
        0 <= j <= s.len(),
    ensures
        dec_value(s.subrange(0, j)) <= dec_value(s),
    decreases s.len() - j,
{
    if j < s.len() {
        assert(s.subrange(0, j + 1).drop_last() =~= s.subrange(0, j));
        assert(dec_value(s.subrange(0, j + 1)) == dec_value(s.subrange(0, j)) * 10 + digit_val(
            s[j],
        ));
        lemma_dec_value_prefix(s, j + 1);
    } else {
        assert(s.subrange(0, j) =~= s);
    }
}

/// A scan that stopped at the first non-space found the trimmed front.
proof fn lemma_trim_front(s: Seq<char>, lo: int)
    requires
        0 <= lo <= s.len(),
        forall|k: int| 0 <= k < lo ==> is_space(#[trigger] s[k]),
        lo < s.len() ==> !is_space(s[lo]),
    ensures
        trim_front(s) =~= s.subrange(lo, s.len() as int),
    decreases s.len(),
{
    if s.len() > 0 && is_space(s[0]) {
        lemma_trim_front(s.drop_first(), lo - 1);
        assert(s.drop_first().subrange(lo - 1, s.drop_first().len() as int) =~= s.subrange(
            lo,
            s.len() as int,
        ));
    }
}

/// A scan that stopped at the last non-space found the trimmed back.
proof fn lemma_trim_back(s: Seq<char>, hi: int)
    requires
        0 <= hi <= s.len(),
        forall|k: int| hi <= k < s.len() ==> is_space(#[trigger] s[k]),
        hi > 0 ==> !is_space(s[hi - 1]),
    ensures
        trim_back(s) =~= s.subrange(0, hi),
    decreases s.len(),
{
    if s.len() > 0 && is_space(s.last()) {
        lemma_trim_back(s.drop_last(), hi);
        assert(s.drop_last().subrange(0, hi) =~= s.subrange(0, hi));
    }
}

/// Reads an unsigned number out of a typed line: whitespace around it is
/// ignored, one leading plus sign is allowed, and the digits must denote
/// a value that fits. Any other line reads as nothing.
pub fn parse_u32(s: &str) -> (r: Option<u32>)
    ensures
        r is Some <==> {
            let d = digits_part(trimmed(s@));
            d.len() > 0 && all_digits(d) && dec_value(d) <= u32::MAX
        },
        r is Some ==> r->0 == dec_value(digits_part(trimmed(s@))),
{
    let len = s.unicode_len();
    let mut lo: usize = 0;
    while lo < len && is_space_char(s.get_char(lo))
        invariant
            lo <= len,
            len == s@.len(),
            forall|k: int| 0 <= k < lo ==> is_space(#[trigger] s@[k]),
        decreases len - lo,
    {
        lo += 1;
    }
    let mut hi: usize = len;
    while hi > lo && is_space_char(s.get_char(hi - 1))
        invariant
            lo <= hi <= len,
            len == s@.len(),
            forall|k: int| 0 <= k < lo ==> is_space(#[trigger] s@[k]),
            lo < len ==> !is_space(s@[lo as int]),
            forall|k: int| hi <= k < len ==> is_space(#[trigger] s@[k]),
        decreases hi,
    {
        hi -= 1;
    }
    proof {
        lemma_trim_front(s@, lo as int);
        if lo < len {
            lemma_trim_back(
                s@.subrange(lo as int, len as int),
                hi - lo as int,
            );
        }
        assert(trimmed(s@) =~= s@.subrange(lo as int, hi as int));
    }
    let mut p = lo;
    if p < hi && s.get_char(p) == '+' {
        p += 1;
    }
    let ghost digits = s@.subrange(p as int, hi as int);
    proof {
        assert(digits_part(trimmed(s@)) =~= digits);
    }
    if p == hi {
        return None;
    }
    let mut v: u32 = 0;
    let mut j = p;
    while j < hi
        invariant
            p <= j <= hi <= len,
            len == s@.len(),
            digits == s@.subrange(p as int, hi as int),
            digits == digits_part(trimmed(s@)),
            digits.len() == hi - p,
            v == dec_value(digits.subrange(0, j - p)),
            all_digits(digits.subrange(0, j - p)),
        decreases hi - j,
    {
        let c = s.get_char(j);
        let cv = c as u32;
        proof {
            assert(digits[j - p] == s@[j as int]);
            assert(digits.subrange(0, j - p + 1).drop_last() =~= digits.subrange(0, j - p));
        }
        if cv < 48 || cv > 57 {
            proof {
                assert(!is_digit(digits[j - p]));
            }
            return None;
        }
        let d = cv - 48;
        if v > (u32::MAX - d) / 10 {
            proof {
                assert(dec_value(digits.subrange(0, j - p + 1)) == v * 10 + d);
                assert(v * 10 + d > u32::MAX) by (nonlinear_arith)
                    requires
                        v > (u32::MAX - d) / 10,
                        d < 10,
                ;
                lemma_dec_value_prefix(digits, j - p + 1);
            }
            return None;
        }
        proof {
            assert(v * 10 + d <= u32::MAX) by (nonlinear_arith)
                requires
                    v <= (u32::MAX - d) / 10,
                    d < 10,
            ;
        }
        v = v * 10 + d;
        j += 1;
    }
    proof {
        assert(digits.subrange(0, (hi - p) as int) =~= digits);
    }
    Some(v)
}

/// Whether one character counts as whitespace here.
fn is_space_char(c: char) -> (r: bool)
    ensures
        r == is_space(c),
{
    c == ' ' || c == '\t' || c == '\n' || c == '\r'
}

/// What one round of the game decides about a typed line.
#[derive(Clone, Copy, PartialEq, Eq, Structural, Debug)]
pub enum GameStep {
    /// The line does not read as a number; ask again.
    Invalid,
    /// The guess is below the secret.
    TooSmall,
    /// The guess is above the secret.
    TooBig,
    /// The guess hits the secret; the game ends.
    Correct,
}

/// Judges one typed line against the secret.
pub fn game_step(input: &str, secret: u32) -> (r: GameStep)
    ensures
        ({
            let d = digits_part(trimmed(input@));
            let readable = d.len() > 0 && all_digits(d) && dec_value(d) <= u32::MAX;
            &&& !readable ==> r is Invalid
            &&& readable && dec_value(d) > secret ==> r is TooBig
            &&& readable && dec_value(d) < secret ==> r is TooSmall
            &&& readable && dec_value(d) == secret ==> r is Correct
        }),
{
    match parse_u32(input) {
        None => GameStep::Invalid,
        Some(guess) => {
            if guess > secret {
                GameStep::TooBig
            } else if guess < secret {
                GameStep::TooSmall
            } else {
                GameStep::Correct
            }
        },
    }
}

/// Relies on rand 0.8's `Rng::gen_range` on the thread-local generator:
/// the sampled value lies in the requested inclusive range, and the call
/// panics only on an empty range, which the precondition rules out.
#[verifier::external_body]
fn random_in_range(low: u32, high: u32) -> (r: u32)
    requires
        low <= high,
    ensures
        low <= r <= high,
{
    rand::Rng::gen_range(&mut rand::thread_rng(), low..=high)
}

/// Draws the game's secret: a number from 1 to 100.
pub fn secret_number() -> (r: u32)
    ensures
        1 <= r <= 100,
{
    random_in_range(1, 100)
}

} // verus!
