//! Bindings: one that is never reassigned, one that is, a named constant,
//! a name that is bound again and hides what it stood for, and a constant of
//! the whole crate.

use crate::decimal::{decimal, labelled};
use vstd::prelude::*;

verus! {

/// The hours in a day: a constant of the whole crate, readable everywhere.
pub const HOURS_IN_DAY: i32 = 24;

/// The age that [`const_example`] shows: a named constant, fixed for good.
const AGE: i32 = 25;

/// A binding that is made once and only read: the line shows its value.
pub fn immutable_example() -> (line: String)
    ensures
        line@ == "Your immutalbe age is  25"@,
{
    let age: i32 = 25;
    let line = labelled("Your immutalbe age is  ", age);
    proof {
        reveal_with_fuel(decimal, 2);
        reveal_strlit("Your immutalbe age is  ");
        reveal_strlit("Your immutalbe age is  25");
        assert(line@ =~= "Your immutalbe age is  25"@);
    }
    line
}

/// A mutable binding: the first line shows the value it was made with, the
/// second the value assigned to it afterwards.
pub fn mutable_example() -> (lines: Vec<String>)
    ensures
        lines.deep_view() == seq!["Your mutalbe age is  25"@, "Your mutalbe new age is  26"@],
{
    let mut lines: Vec<String> = Vec::new();
    let mut age: i32 = 25;
    lines.push(labelled("Your mutalbe age is  ", age));
    age = 26;
    lines.push(labelled("Your mutalbe new age is  ", age));
    proof {
        reveal_with_fuel(decimal, 2);
        reveal_strlit("Your mutalbe age is  ");
        reveal_strlit("Your mutalbe new age is  ");
        reveal_strlit("Your mutalbe age is  25");
        reveal_strlit("Your mutalbe new age is  26");
        assert(lines.deep_view() =~~= seq![
            "Your mutalbe age is  25"@,
            "Your mutalbe new age is  26"@,
        ]);
    }
    lines
}

/// A named constant: the line shows [`AGE`].
pub fn const_example() -> (line: String)
    ensures
        line@ == "You const varialbe age is 25"@,
{
    let line = labelled("You const varialbe age is ", AGE);
    proof {
        reveal_with_fuel(decimal, 2);
        reveal_strlit("You const varialbe age is ");
        reveal_strlit("You const varialbe age is 25");
        assert(line@ =~= "You const varialbe age is 25"@);
    }
    line
}

/// A keyword cannot name a binding, so there is nothing to bind and nothing
/// to show.
pub fn keyword_example() {
}

/// Shadowing: `x` is bound to 5, then bound again to one more. Inside a
/// block it is bound once more, to twice that, and the first line shows the
/// value in the block. After the block the name stands for the value it had
/// before it, which the second line shows.
pub fn shadowing_example() -> (lines: Vec<String>)
    ensures
        lines.deep_view() == seq![
            "The value of x in the inner scope is: 12"@,
            "The value of x is: 6"@,
        ],
{
    let mut lines: Vec<String> = Vec::new();
    let x: i32 = 5;
    let x: i32 = x + 1;
    {
        let x: i32 = x * 2;
        lines.push(labelled("The value of x in the inner scope is: ", x));
    }
    lines.push(labelled("The value of x is: ", x));
    proof {
        reveal_with_fuel(decimal, 2);
        reveal_strlit("The value of x in the inner scope is: ");
        reveal_strlit("The value of x is: ");
        reveal_strlit("The value of x in the inner scope is: 12");
        reveal_strlit("The value of x is: 6");
        assert(lines.deep_view() =~~= seq![
            "The value of x in the inner scope is: 12"@,
            "The value of x is: 6"@,
        ]);
    }
    lines
}

/// The text of [`run`], line by line.
pub open spec fn output() -> Seq<Seq<char>> {
    seq![
        "Your immutalbe age is  25"@,
        "Your mutalbe age is  25"@,
        "Your mutalbe new age is  26"@,
        "You const varialbe age is 25"@,
        "Your Global varialbe hours in a day is 24"@,
    ]
}

/// The whole demonstration: the immutable binding, the mutable one, the
/// named constant, and last the crate's constant [`HOURS_IN_DAY`].
pub fn run() -> (lines: Vec<String>)
    ensures
        lines.deep_view() == output(),
{
    let mut lines: Vec<String> = Vec::new();
    lines.push(immutable_example());
    let mut ages = mutable_example();
    proof {
        let shown = ages.deep_view();
        assert(shown.len() == 2);
        assert(ages@[0]@ == shown[0] && ages@[1]@ == shown[1]);
    }
    lines.append(&mut ages);
    lines.push(const_example());
    lines.push(labelled("Your Global varialbe hours in a day is ", HOURS_IN_DAY));
    proof {
        reveal_with_fuel(decimal, 2);
        reveal_strlit("Your Global varialbe hours in a day is ");
        reveal_strlit("Your Global varialbe hours in a day is 24");
        assert(lines.deep_view() =~~= output());
    }
    lines
}

/// Running twice shows the same text: whatever two results [`run`] returns,
/// they have the same lines, character for character.
pub proof fn lemma_run_repeats(first: Vec<String>, second: Vec<String>)
    requires
        first.deep_view() == output(),
        second.deep_view() == output(),
    ensures
        first@.len() == second@.len(),
        forall|i: int| 0 <= i < first@.len() ==> first@[i]@ == second@[i]@,
{
    assert(first@.len() == first.deep_view().len());
    assert(second@.len() == second.deep_view().len());
    assert forall|i: int| 0 <= i < first@.len() implies first@[i]@ == second@[i]@ by {
        assert(first@[i]@ == first.deep_view()[i]);
        assert(second@[i]@ == second.deep_view()[i]);
    }
}

} // verus!
