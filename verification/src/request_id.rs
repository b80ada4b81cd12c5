//! Request numbers: one counter for the life of the process, handed out as
//! decimal text.

use vstd::prelude::*;

use crate::decimal::{decimal, law_decimal_is_injective, u64_to_decimal};

verus! {

/// Numbers requests from a counter that starts at zero and steps by one.
#[derive(Debug)]
pub struct MyRequestId {
    counter: u64,
}

impl View for MyRequestId {
    type V = nat;

    /// The number that the next request gets.
    closed spec fn view(&self) -> nat {
        self.counter as nat
    }
}

/// The number that follows `n`. The counter has 64 bits, so the largest
/// number is followed by zero.
pub open spec fn successor(n: nat) -> nat {
    if n >= u64::MAX {
        0
    } else {
        n + 1
    }
}

/// The number that the request after `k` others gets, from a counter that stood at `start`.
pub open spec fn number_after(start: nat, k: nat) -> nat
    decreases k,
{
    if k == 0 {
        start
    } else {
        successor(number_after(start, (k - 1) as nat))
    }
}

impl MyRequestId {
    /// A counter that starts at zero.
    pub fn new() -> (ids: MyRequestId)
        ensures
            ids@ == 0,
    {
        MyRequestId { counter: 0 }
    }

    /// A counter that starts at `first`.
    pub fn starting_at(first: u64) -> (ids: MyRequestId)
        ensures
            ids@ == first,
    {
        MyRequestId { counter: first }
    }

    /// Every counter stands at a 64-bit number.
    pub proof fn lemma_in_range(&self)
        ensures
            self@ <= u64::MAX,
    {
    }

    /// Hands out the next request number as decimal text, and steps the counter.
    pub fn make_request_id(&mut self) -> (id: Option<String>)
        ensures
            id matches Some(s) && s@ == decimal(old(self)@),
            final(self)@ == successor(old(self)@),
    {
        let n = self.counter;
        self.counter = if n == u64::MAX {
            0
        } else {
            n + 1
        };
        Some(u64_to_decimal(n))
    }
}

impl Default for MyRequestId {
    fn default() -> (ids: MyRequestId)
        ensures
            ids@ == 0,
    {
        MyRequestId::new()
    }
}

/// Until the counter runs out of 64-bit numbers, the request after `k`
/// others gets the starting number plus `k`.
pub proof fn lemma_number_after(start: nat, k: nat)
    requires
        start + k <= u64::MAX,
    ensures
        number_after(start, k) == start + k,
    decreases k,
{
    if k > 0 {
        lemma_number_after(start, (k - 1) as nat);
    }
}

/// Request numbers increase strictly, and no two requests get the same text,
/// for as long as the counter has not passed its largest number.
pub proof fn law_request_ids_increase(start: nat, i: nat, j: nat)
    requires
        i < j,
        start + j <= u64::MAX,
    ensures
        number_after(start, i) < number_after(start, j),
        decimal(number_after(start, i)) != decimal(number_after(start, j)),
{
    lemma_number_after(start, i);
    lemma_number_after(start, j);
    if decimal(number_after(start, i)) == decimal(number_after(start, j)) {
        law_decimal_is_injective(number_after(start, i), number_after(start, j));
    }
}

/// The counter counts modulo two to the 64th: the request after `k` others
/// gets the starting number plus `k`, reduced to 64 bits.
pub proof fn lemma_number_after_wraps(start: nat, k: nat)
    requires
        start <= u64::MAX,
    ensures
        number_after(start, k) == (start + k) % 0x1_0000_0000_0000_0000,
    decreases k,
{
    if k > 0 {
        lemma_number_after_wraps(start, (k - 1) as nat);
        let before = (start + k - 1) as int;
        let q = before / 0x1_0000_0000_0000_0000;
        let r = before % 0x1_0000_0000_0000_0000;
        assert(before == q * 0x1_0000_0000_0000_0000 + r);
        if r == u64::MAX {
            assert(before + 1 == (q + 1) * 0x1_0000_0000_0000_0000 + 0);
            lemma_remainder_is_unique(before + 1, q + 1, 0);
        } else {
            assert(before + 1 == q * 0x1_0000_0000_0000_0000 + (r + 1));
            lemma_remainder_is_unique(before + 1, q, r + 1);
        }
    }
}

/// A number written as a multiple of two to the 64th plus a 64-bit rest has
/// that rest as its remainder.
proof fn lemma_remainder_is_unique(n: int, q: int, r: int)
    requires
        n == q * 0x1_0000_0000_0000_0000 + r,
        0 <= r < 0x1_0000_0000_0000_0000,
    ensures
        n % 0x1_0000_0000_0000_0000 == r,
        n / 0x1_0000_0000_0000_0000 == q,
{
    vstd::arithmetic::div_mod::lemma_fundamental_div_mod_converse(n, 0x1_0000_0000_0000_0000, q, r);
}

/// No two of two to the 64th requests in a row get the same number or the
/// same text, even where the counter wraps between them.
pub proof fn law_request_ids_are_distinct(start: nat, i: nat, j: nat)
    requires
        start <= u64::MAX,
        i < j,
        j - i < 0x1_0000_0000_0000_0000,
    ensures
        number_after(start, i) != number_after(start, j),
        decimal(number_after(start, i)) != decimal(number_after(start, j)),
{
    lemma_number_after_wraps(start, i);
    lemma_number_after_wraps(start, j);
    let m = 0x1_0000_0000_0000_0000int;
    let a = (start + i) as int;
    let b = (start + j) as int;
    if a % m == b % m {
        assert(a == (a / m) * m + a % m);
        assert(b == (b / m) * m + b % m);
        assert(b - a == (b / m - a / m) * m) by (nonlinear_arith)
            requires
                a == (a / m) * m + a % m,
                b == (b / m) * m + b % m,
                a % m == b % m,
        ;
        let d = b / m - a / m;
        assert(false) by (nonlinear_arith)
            requires
                0 < b - a < m,
                b - a == d * m,
        ;
    }
    if decimal(number_after(start, i)) == decimal(number_after(start, j)) {
        law_decimal_is_injective(number_after(start, i), number_after(start, j));
    }
}

} // verus!
