//! A simple Fibonacci function, used by the benchmark task.

use vstd::prelude::*;

verus! {

/// The Fibonacci sequence as this firmware counts it: the first two
/// values are 1, and every later value is the sum of the previous two.
pub open spec fn fib_spec(x: nat) -> nat
    decreases x,
{
    if x > 2 {
        (fib_spec((x - 1) as nat) + fib_spec((x - 2) as nat)) as nat
    } else {
        1
    }
}

/// The sequence never decreases from one index to the next.
pub proof fn lemma_fib_mono(x: nat, y: nat)
    requires
        x <= y,
    ensures
        fib_spec(x) <= fib_spec(y),
    decreases y,
{
    if y > 2 && x < y {
        lemma_fib_mono(x, (y - 1) as nat);
    }
}

/// The values of the sequence up to index 47, the largest whose value
/// fits in 32 bits.
pub proof fn lemma_fib_values()
    ensures
        fib_spec(47) == 2971215073,
{
    assert(fib_spec(1) == 1);
    assert(fib_spec(2) == 1);
    assert(fib_spec(3) == 2);
    assert(fib_spec(4) == 3);
    assert(fib_spec(5) == 5);
    assert(fib_spec(6) == 8);
    assert(fib_spec(7) == 13);
    assert(fib_spec(8) == 21);
    assert(fib_spec(9) == 34);
    assert(fib_spec(10) == 55);
    assert(fib_spec(11) == 89);
    assert(fib_spec(12) == 144);
    assert(fib_spec(13) == 233);
    assert(fib_spec(14) == 377);
    assert(fib_spec(15) == 610);
    assert(fib_spec(16) == 987);
    assert(fib_spec(17) == 1597);
    assert(fib_spec(18) == 2584);
    assert(fib_spec(19) == 4181);
    assert(fib_spec(20) == 6765);
    assert(fib_spec(21) == 10946);
    assert(fib_spec(22) == 17711);
    assert(fib_spec(23) == 28657);
    assert(fib_spec(24) == 46368);
    assert(fib_spec(25) == 75025);
    assert(fib_spec(26) == 121393);
    assert(fib_spec(27) == 196418);
    assert(fib_spec(28) == 317811);
    assert(fib_spec(29) == 514229);
    assert(fib_spec(30) == 832040);
    assert(fib_spec(31) == 1346269);
    assert(fib_spec(32) == 2178309);
    assert(fib_spec(33) == 3524578);
    assert(fib_spec(34) == 5702887);
    assert(fib_spec(35) == 9227465);
    assert(fib_spec(36) == 14930352);
    assert(fib_spec(37) == 24157817);
    assert(fib_spec(38) == 39088169);
    assert(fib_spec(39) == 63245986);
    assert(fib_spec(40) == 102334155);
    assert(fib_spec(41) == 165580141);
    assert(fib_spec(42) == 267914296);
    assert(fib_spec(43) == 433494437);
    assert(fib_spec(44) == 701408733);
    assert(fib_spec(45) == 1134903170);
    assert(fib_spec(46) == 1836311903);
    assert(fib_spec(47) == 2971215073);
}

/// Calculate the `x`'th Fibonacci number.
pub fn fib(x: usize) -> (r: u32)
    requires
        x <= 47,
    ensures
        r == fib_spec(x as nat),
    decreases x,
{
    if x > 2 {
        let a = fib(x - 1);
        let b = fib(x - 2);
        proof {
            lemma_fib_values();
            lemma_fib_mono(x as nat, 47);
            assert(fib_spec(x as nat) == fib_spec((x - 1) as nat) + fib_spec((x - 2) as nat));
        }
        a + b
    } else {
        1
    }
}

} // verus!
