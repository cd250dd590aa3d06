//! An outer loop that counts down, and in each round an inner loop that
//! multiplies its way down from a bound and hands the product outward.

use crate::decimal::{decimal, u32_to_string};
use vstd::prelude::*;
use vstd::string::*;

verus! {

/// The value from which the outer loop of [`run`] counts down.
pub const START_COUNT: u32 = 4;

/// The factor at which the inner loop of [`run`] starts.
pub const INNER_BOUND: u32 = 10;

/// The product `n * (n - 1) * ... * 1`, and 1 for zero.
pub open spec fn factorial(n: nat) -> nat
    decreases n,
{
    if n == 0 {
        1
    } else {
        n * factorial((n - 1) as nat)
    }
}

/// A factorial is never zero.
pub proof fn lemma_factorial_positive(n: nat)
    ensures
        factorial(n) >= 1,
    decreases n,
{
    if n > 0 {
        lemma_factorial_positive((n - 1) as nat);
        assert(n * factorial((n - 1) as nat) >= 1) by (nonlinear_arith)
            requires
                n >= 1,
                factorial((n - 1) as nat) >= 1,
        ;
    }
}

/// What one round of the outer loop shows: the counter, and the product that
/// the inner loop handed out in that round.
#[derive(Clone, Copy, Debug, PartialEq, Eq)]
pub struct Round {
    pub count: u32,
    pub factorial: u32,
}

/// The rounds of a run, first to last, and the sum of their products.
#[derive(Debug, PartialEq, Eq)]
pub struct Tally {
    pub rounds: Vec<Round>,
    pub result: u32,
}

/// Whether `rounds` are the rounds of a run that starts at `start`: one for
/// each value of the counter from `start` down to 1, in that order, and in
/// every one of them the factorial of `bound`, whatever the counter.
pub open spec fn is_countdown(rounds: Seq<Round>, start: nat, bound: nat) -> bool {
    &&& rounds.len() == start
    &&& forall|i: int|
        0 <= i < start ==> (#[trigger] rounds[i]).count == start - i && rounds[i].factorial
            == factorial(bound)
}

/// What the inner loop hands to the outer one when it stops.
#[derive(Clone, Copy, Debug, PartialEq, Eq)]
pub enum Handoff {
    /// The product it has built.
    Product(u32),
    /// No product: the outer loop is to start its next round at once.
    Restart,
}

/// The inner loop: multiplies an accumulator that starts at 1 by `bound`,
/// `bound - 1`, ... down to 2, and stops with the product, the factorial of
/// `bound`, when the factor reaches 1. Before each multiplication it looks at
/// the outer counter `count`, and stops without a product if that is zero; so
/// it does whenever `count` is zero, unless there is nothing to multiply.
///
/// The arithmetic is 32 bits wide and does not wrap: `bound` is at least 1
/// and its factorial fits, unless `count` is zero and nothing is multiplied
/// at all.
pub fn inner_loop(count: u32, bound: u32) -> (handoff: Handoff)
    requires
        count != 0 ==> bound >= 1 && factorial(bound as nat) <= u32::MAX,
    ensures
        match handoff {
            Handoff::Product(product) => (count != 0 || bound == 1) && product == factorial(
                bound as nat,
            ),
            Handoff::Restart => count == 0 && bound != 1,
        },
{
    let mut num: u32 = bound;
    let mut product: u32 = 1;
    loop
        invariant
            count != 0 ==> 1 <= num <= bound,
            count != 0 ==> factorial(bound as nat) <= u32::MAX,
            count == 0 ==> num == bound,
            product >= 1,
            product * factorial(num as nat) == factorial(bound as nat),
        decreases num,
    {
        if num == 1 {
            assert(factorial(1) == 1) by {
                reveal_with_fuel(factorial, 2);
            }
            return Handoff::Product(product);
        }
        if count == 0 {
            return Handoff::Restart;
        }
        proof {
            let rest = factorial((num - 1) as nat);
            lemma_factorial_positive((num - 1) as nat);
            assert(product * (num * rest) == (product * num) * rest) by (nonlinear_arith);
            assert(1 <= product <= product * num <= (product * num) * rest) by (nonlinear_arith)
                requires
                    rest >= 1,
                    product >= 1,
                    num >= 1,
            ;
        }
        product *= num;
        num -= 1;
    }
}

/// The outer loop: counts down from `start` to zero, and in each round takes
/// the product of the inner loop, notes it beside the counter and adds it to
/// the running sum.
///
/// The arithmetic is 32 bits wide and does not wrap: unless `start` is zero,
/// `bound` is at least 1 and the sum of all rounds fits.
pub fn accumulate(start: u32, bound: u32) -> (tally: Tally)
    requires
        start > 0 ==> bound >= 1 && start * factorial(bound as nat) <= u32::MAX,
    ensures
        is_countdown(tally.rounds@, start as nat, bound as nat),
        tally.result == start * factorial(bound as nat),
{
    let mut count: u32 = start;
    let mut result: u32 = 0;
    let mut rounds: Vec<Round> = Vec::new();
    proof {
        lemma_factorial_positive(bound as nat);
    }
    loop
        invariant
            count <= start,
            start > 0 ==> bound >= 1 && start * factorial(bound as nat) <= u32::MAX,
            factorial(bound as nat) >= 1,
            rounds@.len() == start - count,
            forall|i: int|
                0 <= i < rounds@.len() ==> (#[trigger] rounds@[i]).count == start - i
                    && rounds@[i].factorial == factorial(bound as nat),
            result == (start - count) * factorial(bound as nat),
        ensures
            count == 0,
        decreases count,
    {
        if count == 0 {
            break;
        }
        proof {
            let f = factorial(bound as nat);
            assert(f <= start * f) by (nonlinear_arith)
                requires
                    start >= 1,
                    f >= 1,
            ;
            assert((start - count) * f + f == (start - count + 1) * f) by (nonlinear_arith);
            assert((start - count + 1) * f <= start * f) by (nonlinear_arith)
                requires
                    start - count + 1 <= start,
                    f >= 1,
            ;
        }
        let product: u32 = match inner_loop(count, bound) {
            Handoff::Product(product) => product,
            // Not reached: the counter is not zero here, so the inner loop
            // has multiplied to the end.
            Handoff::Restart => {
                continue;
            },
        };
        result += product;
        rounds.push(Round { count, factorial: product });
        count -= 1;
    }
    Tally { rounds, result }
}

impl Round {
    /// The line that shows this round.
    pub open spec fn text(self) -> Seq<char> {
        "count = "@ + decimal(self.count as nat) + ", factorial : "@ + decimal(
            self.factorial as nat,
        )
    }

    /// Writes the line that shows this round.
    pub fn line(&self) -> (line: String)
        ensures
            line@ == self.text(),
    {
        let mut line = String::from_str("count = ");
        line.append(u32_to_string(self.count).as_str());
        line.append(", factorial : ");
        line.append(u32_to_string(self.factorial).as_str());
        line
    }
}

impl Tally {
    /// The lines that show this run: one for each round, in order, and then
    /// the sum.
    pub open spec fn text(self) -> Seq<Seq<char>> {
        self.rounds@.map_values(|round: Round| round.text()).push(
            "Result = "@ + decimal(self.result as nat),
        )
    }

    /// Writes the lines that show this run.
    pub fn lines(&self) -> (lines: Vec<String>)
        ensures
            lines.deep_view() == self.text(),
    {
        let mut lines: Vec<String> = Vec::new();
        let mut i: usize = 0;
        while i < self.rounds.len()
            invariant
                i <= self.rounds@.len(),
                lines@.len() == i,
                forall|k: int| 0 <= k < i ==> (#[trigger] lines@[k])@ == self.rounds@[k].text(),
            decreases self.rounds@.len() - i,
        {
            lines.push(self.rounds[i].line());
            i += 1;
        }
        let mut last = String::from_str("Result = ");
        last.append(u32_to_string(self.result).as_str());
        lines.push(last);
        assert(lines.deep_view() =~= self.text());
        lines
    }
}

/// The factorial of ten.
pub proof fn lemma_factorial_of_ten()
    ensures
        factorial(10) == 3628800,
{
    reveal_with_fuel(factorial, 11);
}

/// The run that counts down from [`START_COUNT`] with [`INNER_BOUND`] as the
/// inner loop's first factor: four rounds, each with the factorial of ten,
/// and their sum. No step of it leaves the 32-bit range.
pub fn tally() -> (tally: Tally)
    ensures
        tally.rounds@ == seq![
            (Round { count: 4, factorial: 3628800 }),
            (Round { count: 3, factorial: 3628800 }),
            (Round { count: 2, factorial: 3628800 }),
            (Round { count: 1, factorial: 3628800 }),
        ],
        tally.result == 14515200,
{
    proof {
        lemma_factorial_of_ten();
    }
    let tally = accumulate(START_COUNT, INNER_BOUND);
    assert(tally.rounds@ =~= seq![
        (Round { count: 4, factorial: 3628800 }),
        (Round { count: 3, factorial: 3628800 }),
        (Round { count: 2, factorial: 3628800 }),
        (Round { count: 1, factorial: 3628800 }),
    ]);
    tally
}

/// The text of [`run`], line by line.
pub open spec fn output() -> Seq<Seq<char>> {
    seq![
        "count = 4, factorial : 3628800"@,
        "count = 3, factorial : 3628800"@,
        "count = 2, factorial : 3628800"@,
        "count = 1, factorial : 3628800"@,
        "Result = 14515200"@,
    ]
}

/// The whole demonstration: the rounds of [`tally`] and their sum, as text.
pub fn run() -> (lines: Vec<String>)
    ensures
        lines.deep_view() == output(),
{
    let tally = tally();
    let lines = tally.lines();
    proof {
        reveal_with_fuel(decimal, 9);
        reveal_strlit("count = ");
        reveal_strlit(", factorial : ");
        reveal_strlit("Result = ");
        reveal_strlit("count = 4, factorial : 3628800");
        reveal_strlit("count = 3, factorial : 3628800");
        reveal_strlit("count = 2, factorial : 3628800");
        reveal_strlit("count = 1, factorial : 3628800");
        reveal_strlit("Result = 14515200");
        assert(tally.text() =~~= output());
    }
    lines
}

/// Running twice shows the same text: whatever two results [`run`] returns,
/// they have the same lines, character for character.
pub proof fn lemma_run_repeats(first: Vec<String>, second: Vec<String>)
    requires
        first.deep_view() == output(),
        second.deep_view() == output(),
    ensures
        first@.len() == second@.len(),
        forall|i: int| 0 <= i < first@.len() ==> first@[i]@ == second@[i]@,
{
    assert(first@.len() == first.deep_view().len());
    assert(second@.len() == second.deep_view().len());
    assert forall|i: int| 0 <= i < first@.len() implies first@[i]@ == second@[i]@ by {
        assert(first@[i]@ == first.deep_view()[i]);
        assert(second@[i]@ == second.deep_view()[i]);
    }
}

} // verus!
