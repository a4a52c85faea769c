//! Job codes: five random alphanumeric characters followed by a number
//! taken from the clock.

use core::time::Duration;
use rand::rngs::ThreadRng;
use rand::Rng;
use std::time::{SystemTime, UNIX_EPOCH};
use vstd::arithmetic::div_mod::{lemma_add_mod_noop, lemma_mul_mod_noop_right};
use vstd::prelude::*;
use vstd::string::*;

verus! {

/// The characters a code is drawn from.
pub const CHARSET: &'static str = "0123456789abcdefghijklmnopqrstuvwxyzABCDEFGHIJKLMNOPQRSTUVWXYZ";

/// The decimal digits.
pub const DIGITS: &'static str = "0123456789";

/// How many random characters a code starts with.
pub const CODE_LETTERS: usize = 5;

/// The modulus that mixes the random number and the clock into an offset.
pub const OFFSET_MODULUS: u128 = 93229;

/// The modulus of the clock-derived suffix.
pub const SUFFIX_MODULUS: u128 = 1000;

/// The shift applied to every random pick of one code.
pub open spec fn code_offset(rand_num: nat, timestamp: nat) -> nat {
    (((rand_num % 93229) * timestamp) % 93229) as nat
}

/// The character that a random pick yields under an offset.
pub open spec fn code_char(pick: nat, offset: nat) -> char {
    CHARSET@[((pick + offset) % 62) as int]
}

/// The decimal notation of a number, without padding.
pub open spec fn decimal(n: nat) -> Seq<char>
    decreases n,
{
    if n < 10 {
        seq![DIGITS@[n as int]]
    } else {
        decimal(n / 10).push(DIGITS@[(n % 10) as int])
    }
}

/// The code that the given picks, random number and clock reading make.
pub open spec fn code_text(picks: Seq<usize>, rand_num: nat, timestamp: nat) -> Seq<char> {
    Seq::new(picks.len(), |i: int| code_char(picks[i] as nat, code_offset(rand_num, timestamp)))
        + decimal(timestamp % 1000)
}

/// The shape of every code: five characters of the charset, then one to
/// three decimal digits.
pub open spec fn code_shaped(code: Seq<char>) -> bool {
    &&& 6 <= code.len() <= 8
    &&& forall|i: int| 0 <= i < 5 ==> CHARSET@.contains(#[trigger] code[i])
    &&& forall|i: int| 5 <= i < code.len() ==> DIGITS@.contains(#[trigger] code[i])
}

/// The thread-local random number generator of `rand`, carried as an opaque
/// value.
#[verifier::external_type_specification]
#[verifier::external_body]
pub struct ExThreadRng(ThreadRng);

/// A reading of the system clock, carried as an opaque value.
#[verifier::external_type_specification]
#[verifier::external_body]
pub struct ExSystemTime(SystemTime);

/// `rand::thread_rng` hands out the generator of the calling thread; nothing
/// is claimed of it.
pub assume_specification[ rand::thread_rng ]() -> (rng: ThreadRng)
;

/// `SystemTime::now` reads the system clock; nothing is claimed of the
/// reading.
pub assume_specification[ SystemTime::now ]() -> (now: SystemTime)
;

/// `Duration::as_nanos` gives the whole duration in nanoseconds; nothing is
/// claimed of the number.
pub assume_specification[ Duration::as_nanos ](elapsed: &Duration) -> (nanos: u128)
;

/// `Rng::gen` for `u128`: a random number, of which nothing is claimed.
#[verifier::external_body]
fn gen_u128(rng: &mut ThreadRng) -> (n: u128) {
    rng.gen()
}

/// `Rng::gen_range` on `0..bound`: the sample lies in the range. The call
/// panics on an empty range, which `requires` leaves out.
#[verifier::external_body]
fn gen_index(rng: &mut ThreadRng, bound: usize) -> (pick: usize)
    requires
        bound > 0,
    ensures
        pick < bound,
{
    rng.gen_range(0..bound)
}

/// `SystemTime::duration_since` against the Unix epoch: the time elapsed
/// since the epoch, or `None` where the clock reads earlier than the epoch.
#[verifier::external_body]
fn since_unix_epoch(at: &SystemTime) -> (elapsed: Option<Duration>) {
    match at.duration_since(UNIX_EPOCH) {
        Ok(elapsed) => Some(elapsed),
        Err(_) => None,
    }
}

/// The nanoseconds that the system clock counts since the Unix epoch, and
/// `None` where it reads earlier than the epoch.
pub fn unix_nanos() -> (nanos: Option<u128>)
{
    let now = SystemTime::now();
    match since_unix_epoch(&now) {
        Some(elapsed) => Some(elapsed.as_nanos()),
        None => None,
    }
}

/// Appends the decimal notation of `n` to `out`.
pub fn push_decimal(out: &mut String, n: u128)
    ensures
        final(out)@ == old(out)@ + decimal(n as nat),
    decreases n,
{
    proof {
        reveal_strlit("0123456789");
    }
    if n >= 10 {
        push_decimal(out, n / 10);
    }
    let d: usize = (n % 10) as usize;
    out.append(DIGITS.substring_char(d, d + 1));
    proof {
        assert(DIGITS@.subrange(d as int, d + 1) =~= seq![DIGITS@[d as int]]);
        assert(out@ =~= old(out)@ + decimal(n as nat));
    }
}

/// Builds the code from what was drawn: one character per pick, each shifted
/// by the offset that `rand_num` and `timestamp` give, then the last three
/// decimal places of `timestamp`.
pub fn compose_code(picks: &Vec<usize>, rand_num: u128, timestamp: u128) -> (code: String)
    ensures
        code@ == code_text(picks@, rand_num as nat, timestamp as nat),
{
    proof {
        reveal_strlit("0123456789abcdefghijklmnopqrstuvwxyzABCDEFGHIJKLMNOPQRSTUVWXYZ");
    }
    let a: u128 = rand_num % OFFSET_MODULUS;
    let b: u128 = timestamp % OFFSET_MODULUS;
    assert(a * b <= 93229 * 93229) by (nonlinear_arith)
        requires
            a < 93229,
            b < 93229,
    ;
    let mixed: u128 = (a * b) % OFFSET_MODULUS;
    proof {
        lemma_mul_mod_noop_right((rand_num % 93229) as int, timestamp as int, 93229);
    }
    let offset: usize = (mixed % 62) as usize;
    let ghost full = code_offset(rand_num as nat, timestamp as nat);
    assert(mixed == full);
    let mut code = String::new();
    let mut i: usize = 0;
    while i < picks.len()
        invariant
            i <= picks.len(),
            offset == full % 62,
            CHARSET@.len() == 62,
            code@ == Seq::new(i as nat, |k: int| code_char(picks@[k] as nat, full)),
        decreases picks.len() - i,
    {
        let idx: usize = (picks[i] % 62 + offset) % 62;
        proof {
            lemma_add_mod_noop(picks@[i as int] as int, full as int, 62);
        }
        code.append(CHARSET.substring_char(idx, idx + 1));
        proof {
            assert(CHARSET@.subrange(idx as int, idx + 1) =~= seq![CHARSET@[idx as int]]);
            assert(code@ =~= Seq::new((i + 1) as nat, |k: int| code_char(picks@[k] as nat, full)));
        }
        i += 1;
    }
    push_decimal(&mut code, timestamp % SUFFIX_MODULUS);
    code
}

/// Draws a fresh code: a random number and five random picks from the
/// thread's generator, and the clock's nanoseconds since the Unix epoch (a
/// clock that reads earlier counts as the epoch itself). Whatever was drawn,
/// the result has the shape of a code. Whether a code is free is for the
/// task store to say.
pub fn generate_rand_code() -> (code: String)
    ensures
        code_shaped(code@),
{
    proof {
        reveal_strlit("0123456789abcdefghijklmnopqrstuvwxyzABCDEFGHIJKLMNOPQRSTUVWXYZ");
    }
    let mut rng = rand::thread_rng();
    let rand_num: u128 = gen_u128(&mut rng);
    let timestamp: u128 = match unix_nanos() {
        Some(nanos) => nanos,
        None => 0,
    };
    let mut picks: Vec<usize> = Vec::new();
    while picks.len() < CODE_LETTERS
        invariant
            picks.len() <= CODE_LETTERS,
        decreases CODE_LETTERS - picks.len(),
    {
        let pick = gen_index(&mut rng, 62);
        picks.push(pick);
    }
    let code = compose_code(&picks, rand_num, timestamp);
    proof {
        lemma_code_shape(picks@, rand_num as nat, timestamp as nat);
    }
    code
}

proof fn lemma_decimal_digits(n: nat)
    ensures
        decimal(n).len() >= 1,
        n < 10 ==> decimal(n).len() == 1,
        10 <= n < 100 ==> decimal(n).len() == 2,
        100 <= n < 1000 ==> decimal(n).len() == 3,
        forall|i: int| 0 <= i < decimal(n).len() ==> DIGITS@.contains(#[trigger] decimal(n)[i]),
    decreases n,
{
    reveal_strlit("0123456789");
    if n < 10 {
        assert(DIGITS@.contains(DIGITS@[n as int]));
    } else {
        lemma_decimal_digits(n / 10);
        assert(DIGITS@.contains(DIGITS@[(n % 10) as int]));
    }
}

/// Every code composed from five picks has the shape of a code.
pub proof fn lemma_code_shape(picks: Seq<usize>, rand_num: nat, timestamp: nat)
    requires
        picks.len() == 5,
    ensures
        code_shaped(code_text(picks, rand_num, timestamp)),
{
    reveal_strlit("0123456789abcdefghijklmnopqrstuvwxyzABCDEFGHIJKLMNOPQRSTUVWXYZ");
    lemma_decimal_digits(timestamp % 1000);
    let code = code_text(picks, rand_num, timestamp);
    let offset = code_offset(rand_num, timestamp);
    assert forall|i: int| 0 <= i < 5 implies CHARSET@.contains(#[trigger] code[i]) by {
        let at = ((picks[i] as nat + offset) % 62) as int;
        assert(code[i] == CHARSET@[at]);
    }
    assert forall|i: int| 5 <= i < code.len() implies DIGITS@.contains(#[trigger] code[i]) by {
        assert(code[i] == decimal(timestamp % 1000)[i - 5]);
    }
}

} // verus!
