//! The score: a single counter and its decimal text rendering.
//!
//! The text is a derived view of the counter, kept in step by the two
//! handlers; it is what the host program displays.

use vstd::prelude::*;

verus! {

use vstd::string::StringExecFns;

/// The character of one decimal digit.
pub open spec fn digit_char(d: nat) -> char {
    if d == 0 {
        '0'
    } else if d == 1 {
        '1'
    } else if d == 2 {
        '2'
    } else if d == 3 {
        '3'
    } else if d == 4 {
        '4'
    } else if d == 5 {
        '5'
    } else if d == 6 {
        '6'
    } else if d == 7 {
        '7'
    } else if d == 8 {
        '8'
    } else {
        '9'
    }
}

/// The decimal rendering of `n`, most significant digit first, without
/// leading zeroes (zero itself renders as one digit).
pub open spec fn dec_digits(n: nat) -> Seq<char>
    decreases n,
{
    if n < 10 {
        seq![digit_char(n)]
    } else {
        dec_digits(n / 10).push(digit_char(n % 10))
    }
}

/// The one-character string of a decimal digit.
fn digit_str(d: u32) -> (r: &'static str)
    requires
        d < 10,
    ensures
        r@ =~= seq![digit_char(d as nat)],
{
    proof {
        reveal_strlit("0");
        reveal_strlit("1");
        reveal_strlit("2");
        reveal_strlit("3");
        reveal_strlit("4");
        reveal_strlit("5");
        reveal_strlit("6");
        reveal_strlit("7");
        reveal_strlit("8");
        reveal_strlit("9");
    }
    match d {
        0 => "0",
        1 => "1",
        2 => "2",
        3 => "3",
        4 => "4",
        5 => "5",
        6 => "6",
        7 => "7",
        8 => "8",
        _ => "9",
    }
}

/// Appends the decimal rendering of `n` to `out`.
fn push_digits(n: u32, out: &mut String)
    ensures
        final(out)@ == old(out)@ + dec_digits(n as nat),
    decreases n,
{
    let ghost mid = out@;
    if n >= 10 {
        push_digits(n / 10, out);
        proof {
            assert(out@ == mid + dec_digits((n / 10) as nat));
        }
    }
    let ghost pre = out@;
    out.append(digit_str(n % 10));
    proof {
        if n >= 10 {
            assert(dec_digits(n as nat) == dec_digits((n as nat) / 10).push(
                digit_char((n as nat) % 10),
            ));
            assert((n / 10) as nat == (n as nat) / 10);
            assert((n % 10) as nat == (n as nat) % 10);
            assert(out@ =~= mid + dec_digits(n as nat));
        } else {
            assert(out@ =~= mid + dec_digits(n as nat));
        }
    }
}

/// Renders `n` in decimal.
pub fn u32_to_string(n: u32) -> (r: String)
    ensures
        r@ == dec_digits(n as nat),
{
    let mut s = String::new();
    push_digits(n, &mut s);
    proof {
        assert(Seq::<char>::empty() + dec_digits(n as nat) =~= dec_digits(n as nat));
    }
    s
}

/// The score: the counter and its displayed decimal text.
#[derive(Debug)]
pub struct Score {
    pub count: u32,
    pub text: String,
}

/// The displayed text always renders the counter.
pub open spec fn score_wf(s: Score) -> bool {
    s.text@ == dec_digits(s.count as nat)
}

/// Sets up the score display at zero.
pub fn setup_score() -> (r: Score)
    ensures
        r.count == 0,
        score_wf(r),
{
    let text = u32_to_string(0);
    Score { count: 0, text }
}

impl Score {
    /// A gap was passed: the counter rises by exactly one and the text
    /// follows.
    pub fn handle_increase_score(&mut self)
        requires
            old(self).count < u32::MAX,
            score_wf(*old(self)),
        ensures
            final(self).count == old(self).count + 1,
            score_wf(*final(self)),
    {
        self.count = self.count + 1;
        self.text = u32_to_string(self.count);
    }

    /// A game reset: the counter returns to exactly zero and the text
    /// follows; without a reset nothing changes.
    pub fn handle_game_reset(&mut self, reset: bool)
        requires
            score_wf(*old(self)),
        ensures
            reset ==> final(self).count == 0 && score_wf(*final(self)),
            !reset ==> final(self).count == old(self).count && final(self).text@ == old(
                self,
            ).text@ && score_wf(*final(self)),
    {
        if reset {
            self.count = 0;
            self.text = u32_to_string(0);
        }
    }
}

} // verus!
