//! Conditionals and every flavour of loop: `loop`, `while`, `for`, a
//! labeled pair of nested loops, and a loop that searches from the back
//! of a list.

use vstd::prelude::*;

verus! {

/// Where a number falls relative to five and ten.
#[derive(Debug, PartialEq, Eq, Structural)]
pub enum SizeDescription {
    LessThanFive,
    FiveToTen,
    OverTen,
}

/// Places a number below five, between five and ten, or over ten.
pub fn conditional(num: i16) -> (d: SizeDescription)
    ensures
        d == if num < 5 {
            SizeDescription::LessThanFive
        } else if num <= 10 {
            SizeDescription::FiveToTen
        } else {
            SizeDescription::OverTen
        },
{
    if num < 5 {
        SizeDescription::LessThanFive
    } else if num <= 10 {
        SizeDescription::FiveToTen
    } else {
        SizeDescription::OverTen
    }
}

/// Names a number even or odd, assigning the outcome of an `if`
/// expression straight to a variable.
pub fn conditional_let(num: u32) -> (even_odd: &'static str)
    ensures
        num % 2 == 0 ==> even_odd@ == "even"@,
        num % 2 != 0 ==> even_odd@ == "odd"@,
{
    let even_odd: &'static str = if num % 2 == 0 {
        "even"
    } else {
        "odd"
    };
    even_odd
}

/// Counts down from `num` to zero with a bare `loop`, returning each
/// value the loop announces, the zero included.
pub fn loop_loop(num: u8) -> (printed: Vec<u8>)
    ensures
        printed@.len() == num + 1,
        forall|i: int| 0 <= i <= num ==> printed@[i] == num - i,
{
    let mut n: u8 = num;
    let mut printed: Vec<u8> = Vec::new();
    loop
        invariant_except_break
            n <= num,
            printed@.len() == num - n,
            forall|i: int| 0 <= i < printed@.len() ==> printed@[i] == num - i,
        ensures
            printed@.len() == num + 1,
            forall|i: int| 0 <= i <= num ==> printed@[i] == num - i,
        decreases n,
    {
        printed.push(n);
        if n == 0 {
            break;
        }
        n = n - 1;
    }
    printed
}

/// The value a backwards scan settles on: starting from position `i`
/// and stopping before position 0, the first entry divisible by four.
pub open spec fn divisible_by_four_from(list: Seq<u8>, i: int) -> Option<u8>
    decreases i,
{
    if i <= 0 {
        None
    } else if list[i] % 4 == 0 {
        Some(list[i])
    } else {
        divisible_by_four_from(list, i - 1)
    }
}

/// Walks a five-entry list from the back looking for a number divisible
/// by four; the scan gives up upon reaching the front entry, which it
/// never examines.
pub fn val_loop(list: [u8; 5]) -> (found: Option<u8>)
    ensures
        found == divisible_by_four_from(list@, 4),
        found matches Some(v) ==> v % 4 == 0,
{
    let mut count: usize = 5 - 1;
    loop
        invariant
            0 < count + 1 <= 5,
            divisible_by_four_from(list@, count as int) == divisible_by_four_from(list@, 4),
        decreases count,
    {
        if count == 0 {
            return None;
        }
        if list[count] % 4 == 0 {
            return Some(list[count]);
        }
        count = count - 1;
    }
}

/// Two nested loops where the inner one uses a label to break all the
/// way out: the count always ends at two.
pub fn labeled_loop() -> (count: i8)
    ensures
        count == 2,
{
    let mut count: i8 = 0;
    'counting_up: loop
        invariant_except_break
            0 <= count <= 2,
        ensures
            count == 2,
        decreases 2 - count,
    {
        let mut remaining: i32 = 10;
        loop
            invariant_except_break
                9 <= remaining <= 10,
                0 <= count <= 2,
                remaining == 10 || count < 2,
            ensures
                remaining == 9 && count < 2,
            decreases remaining,
        {
            if remaining == 9 {
                break;
            }
            if count == 2 {
                break 'counting_up;
            }
            remaining = remaining - 1;
        }
        count = count + 1;
    }
    count
}

/// Counts down from `num` with a `while` loop, returning each value the
/// loop announces; it stops before reaching zero.
pub fn while_loop(num: u8) -> (printed: Vec<u8>)
    ensures
        printed@.len() == num,
        forall|i: int| 0 <= i < num ==> printed@[i] == num - i,
{
    let mut n: u8 = num;
    let mut printed: Vec<u8> = Vec::new();
    while n != 0
        invariant
            n <= num,
            printed@.len() == num - n,
            forall|i: int| 0 <= i < printed@.len() ==> printed@[i] == num - i,
        decreases n,
    {
        printed.push(n);
        n = n - 1;
    }
    printed
}

/// Steps through a fixed array of six number words with a `for` loop,
/// handing each element back in order.
pub fn for_loop() -> (elements: Vec<&'static str>)
    ensures
        elements@.len() == 6,
        elements@[0]@ == "one"@,
        elements@[1]@ == "two"@,
        elements@[2]@ == "three"@,
        elements@[3]@ == "four"@,
        elements@[4]@ == "five"@,
        elements@[5]@ == "six"@,
{
    let arr: [&'static str; 6] = ["one", "two", "three", "four", "five", "six"];
    let mut elements: Vec<&'static str> = Vec::new();
    let mut i: usize = 0;
    while i < 6
        invariant
            i <= 6,
            arr@.len() == 6,
            arr@[0]@ == "one"@,
            arr@[1]@ == "two"@,
            arr@[2]@ == "three"@,
            arr@[3]@ == "four"@,
            arr@[4]@ == "five"@,
            arr@[5]@ == "six"@,
            elements@.len() == i,
            forall|j: int| 0 <= j < i ==> elements@[j] == arr@[j],
        decreases 6 - i,
    {
        elements.push(arr[i]);
        i = i + 1;
    }
    elements
}

} // verus!
