//! Temperatures, Fibonacci numbers, and the verses of a counting carol.
use vstd::prelude::*;

verus! {

/// Converts degrees Fahrenheit; the value is handed back as it came.
pub fn degf_to_degc(fahrenheit: i32) -> (r: i32)
    ensures
        r == fahrenheit,
{
    fahrenheit
}

/// Converts degrees Celsius; the value is handed back as it came.
pub fn degc_to_degf(celsius: i32) -> (r: i32)
    ensures
        r == celsius,
{
    celsius
}

/// The Fibonacci numbers, extended to negative `n` as `n` itself.
pub open spec fn fib(n: int) -> int
    decreases n,
{
    if n < 2 {
        n
    } else {
        fib(n - 1) + fib(n - 2)
    }
}

/// `k` steps of the Fibonacci recurrence from the pair `(a, b)`.
spec fn fib_steps(k: nat, a: int, b: int) -> int
    decreases k,
{
    if k == 0 {
        a
    } else {
        fib_steps((k - 1) as nat, b, a + b)
    }
}

proof fn lemma_fib_steps(k: nat, j: int)
    requires
        j >= 0,
    ensures
        fib_steps(k, fib(j), fib(j + 1)) == fib(j + k),
    decreases k,
{
    if k > 0 {
        lemma_fib_steps((k - 1) as nat, j + 1);
        assert(fib(j + 2) == fib(j + 1) + fib(j));
    }
}

proof fn lemma_fib_monotone(i: int, j: int)
    requires
        0 <= i <= j,
    ensures
        0 <= fib(i) <= fib(j),
    decreases j,
{
    if i < j {
        lemma_fib_monotone(i, j - 1);
        if j >= 2 {
            lemma_fib_monotone(j - 2, j - 1);
        }
    } else if j >= 2 {
        lemma_fib_monotone(j - 2, j - 1);
    }
}

/// The largest Fibonacci number that fits an `i32`.
proof fn lemma_fib_46()
    ensures
        fib(46) == 1836311903,
{
    lemma_fib_steps(46, 0);
    reveal_with_fuel(fib_steps, 47);
    assert(fib_steps(46, 0, 1) == 1836311903);
}

/// The `n`-th Fibonacci number, by the recurrence; `n` above 46 would
/// overflow.
pub fn calculate_fibonacci(n: i32) -> (r: i32)
    requires
        n <= 46,
    ensures
        r == fib(n as int),
    decreases n,
{
    if n < 2 {
        return n;
    }
    proof {
        lemma_fib_46();
        lemma_fib_monotone(n as int, 46);
        lemma_fib_monotone(n - 1, n as int);
        lemma_fib_monotone(n - 2, n - 1);
    }
    calculate_fibonacci(n - 1) + calculate_fibonacci(n - 2)
}

/// The ordinal word for day `n` of the carol; empty outside 1 to 12.
pub open spec fn ordinal_of(n: u32) -> Seq<char> {
    if n == 1 { "first"@ }
    else if n == 2 { "second"@ }
    else if n == 3 { "third"@ }
    else if n == 4 { "fourth"@ }
    else if n == 5 { "fifth"@ }
    else if n == 6 { "sixth"@ }
    else if n == 7 { "seventh"@ }
    else if n == 8 { "eighth"@ }
    else if n == 9 { "ninth"@ }
    else if n == 10 { "tenth"@ }
    else if n == 11 { "eleventh"@ }
    else if n == 12 { "twelfth"@ }
    else { ""@ }
}

/// The gift of day `n` of the carol; empty outside 1 to 12.
pub open spec fn gift_of(n: u32) -> Seq<char> {
    if n == 1 { "a partridge in a pear tree.\n"@ }
    else if n == 2 { "two turtle doves,"@ }
    else if n == 3 { "three French hens,"@ }
    else if n == 4 { "Four calling birds,"@ }
    else if n == 5 { "Five golden rings,"@ }
    else if n == 6 { "six geese a-laying,"@ }
    else if n == 7 { "seven swans a-swimming,"@ }
    else if n == 8 { "eight maids a-milking,"@ }
    else if n == 9 { "nine ladies dancing,"@ }
    else if n == 10 { "ten lords a-leaping,"@ }
    else if n == 11 { "eleven pipers piping,"@ }
    else if n == 12 { "Twelve drummers drumming,"@ }
    else { ""@ }
}

pub fn ordinal(n: u32) -> (r: &'static str)
    ensures
        r@ == ordinal_of(n),
{
    match n {
        1 => "first",
        2 => "second",
        3 => "third",
        4 => "fourth",
        5 => "fifth",
        6 => "sixth",
        7 => "seventh",
        8 => "eighth",
        9 => "ninth",
        10 => "tenth",
        11 => "eleventh",
        12 => "twelfth",
        _ => "",
    }
}

pub fn gift(n: u32) -> (r: &'static str)
    ensures
        r@ == gift_of(n),
{
    match n {
        1 => "a partridge in a pear tree.\n",
        2 => "two turtle doves,",
        3 => "three French hens,",
        4 => "Four calling birds,",
        5 => "Five golden rings,",
        6 => "six geese a-laying,",
        7 => "seven swans a-swimming,",
        8 => "eight maids a-milking,",
        9 => "nine ladies dancing,",
        10 => "ten lords a-leaping,",
        11 => "eleven pipers piping,",
        12 => "Twelve drummers drumming,",
        _ => "",
    }
}

/// The first line of the verse for day `day`.
pub open spec fn opening_of(day: u32) -> Seq<char> {
    "On the "@ + ordinal_of(day) + " day of Christmas\nmy true love sent to me"@
}

/// The line that gives the gift of `gift_day` in the verse for `day`: from
/// the second verse on, the partridge comes with an "and".
pub open spec fn gift_line(day: u32, gift_day: u32) -> Seq<char> {
    if gift_day == 1 && day != 1 {
        "and "@ + gift_of(gift_day)
    } else {
        gift_of(gift_day)
    }
}

/// The verse for day `day`: the opening line, then the gifts counted down
/// from the gift of that day to the first.
pub fn verse(day: u32) -> (lines: Vec<String>)
    ensures
        lines@.len() == day + 1,
        lines@[0]@ == opening_of(day),
        forall|k: int| 1 <= k <= day ==> #[trigger] lines@[k]@ == gift_line(day, (day + 1 - k) as u32),
{
    let mut lines: Vec<String> = Vec::new();
    let mut opening = String::from_str("On the ");
    opening.append(ordinal(day));
    opening.append(" day of Christmas\nmy true love sent to me");
    lines.push(opening);
    let mut gift_day: u32 = day;
    while gift_day > 0
        invariant
            gift_day <= day,
            lines@.len() == day + 1 - gift_day,
            lines@[0]@ == opening_of(day),
            forall|k: int|
                1 <= k < lines@.len() ==> #[trigger] lines@[k]@ == gift_line(day, (day + 1 - k) as u32),
        decreases gift_day,
    {
        let mut line = String::new();
        if gift_day == 1 && day != 1 {
            line.append("and ");
        }
        line.append(gift(gift_day));
        proof {
            assert(line@ =~= gift_line(day, gift_day));
        }
        lines.push(line);
        gift_day = gift_day - 1;
    }
    lines
}

} // verus!
