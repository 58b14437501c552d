use vstd::prelude::*;

verus! {

/// One more than the largest value of a single 64-bit word.
pub open spec fn word_base() -> int {
    0x1_0000_0000_0000_0000
}

/// One more than the largest ledger unsigned integer (2^256).
pub open spec fn amount_bound() -> int {
    word_base() * word_base() * word_base() * word_base()
}

/// The value of four little-endian 64-bit words.
pub open spec fn limbs_value(l: Seq<u64>) -> int {
    l[0] as int + word_base() * (l[1] as int + word_base() * (l[2] as int + word_base() * (l[3] as int)))
}

pub open spec fn is_dec_digit(c: char) -> bool {
    '0' <= c && c <= '9'
}

pub open spec fn all_dec_digits(s: Seq<char>) -> bool {
    forall|i: int| 0 <= i < s.len() ==> is_dec_digit(#[trigger] s[i])
}

/// The number written by a string of decimal digits (zero for the empty string).
pub open spec fn dec_value(s: Seq<char>) -> int
    decreases s.len(),
{
    if s.len() == 0 {
        0
    } else {
        dec_value(s.drop_last()) * 10 + ((s.last() as u32) as int - 48)
    }
}

/// The amount that a goal typed as text stands for: its decimal value where the
/// text is a decimal number that fits a ledger integer, and zero otherwise.
pub open spec fn goal_amount(s: Seq<char>) -> int {
    if all_dec_digits(s) && dec_value(s) < amount_bound() {
        dec_value(s)
    } else {
        0
    }
}

/// A ledger unsigned integer (256 bits), as four little-endian 64-bit words.
#[derive(Clone, Copy, Debug, PartialEq, Eq)]
pub struct Amount {
    pub limbs: [u64; 4],
}

impl Amount {
    pub open spec fn value(&self) -> int {
        limbs_value(self.limbs@)
    }

    pub fn zero() -> (r: Amount)
        ensures
            r.value() == 0,
    {
        Amount { limbs: [0u64, 0u64, 0u64, 0u64] }
    }

    /// The amount whose low word is `v` and whose other words are zero.
    pub fn from_u64(v: u64) -> (r: Amount)
        ensures
            r.value() == v as int,
    {
        Amount { limbs: [v, 0u64, 0u64, 0u64] }
    }

    /// The low 64 bits of the amount: the value truncated to a 64-bit word.
    pub fn low_u64(&self) -> (r: u64)
        ensures
            r as int == self.value() % word_base(),
    {
        let l = self.limbs[0];
        proof {
            let rest = self.limbs@[1] as int + word_base() * (self.limbs@[2] as int + word_base()
                * (self.limbs@[3] as int));
            vstd::arithmetic::div_mod::lemma_mod_multiples_vanish(rest, l as int, word_base());
            vstd::arithmetic::div_mod::lemma_small_mod(l as nat, word_base() as nat);
        }
        l
    }
}

/// Relies on `U256::from_dec_str` of web3's numeric types: it reads every byte as
/// a decimal digit, fails on any other byte and on a value of 2^256 or more, and
/// reads the empty string as zero. The words are the result's own.
#[verifier::external_body]
fn dec_str_limbs(s: &str) -> (r: Option<[u64; 4]>)
    ensures
        r.is_some() <==> (all_dec_digits(s@) && dec_value(s@) < amount_bound()),
        r matches Some(l) ==> limbs_value(l@) == dec_value(s@),
{
    web3::types::U256::from_dec_str(s).ok().map(|v| v.0)
}

/// Reads the goal of a new campaign from the text of a form. Text that is not a
/// decimal number, or one too large for a ledger integer, silently becomes zero.
pub fn parse_goal(goal: &str) -> (r: Amount)
    ensures
        r.value() == goal_amount(goal@),
{
    match dec_str_limbs(goal) {
        Some(l) => Amount { limbs: l },
        None => Amount::zero(),
    }
}

/// A goal whose text holds anything but decimal digits is the amount zero.
pub proof fn lemma_non_numeric_goal_is_zero(goal: Seq<char>, i: int)
    requires
        0 <= i < goal.len(),
        !is_dec_digit(goal[i]),
    ensures
        goal_amount(goal) == 0,
{
}

} // verus!
