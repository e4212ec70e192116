//! Page-aligned address ranges.
//!
//! Platform memory services (pinning, protection flags, dump exclusion) work
//! in whole pages.  [`align_region`] turns the address and byte length of an
//! allocation into the smallest page-aligned range that covers it.

use vstd::prelude::*;

verus! {

/// A page-aligned span of addresses: `start` is rounded down to a page
/// boundary and `len` is a whole number of pages.
#[derive(Clone, Copy, Debug, PartialEq, Eq, Structural)]
pub struct Region {
    /// First address of the span, a multiple of `page_size`.
    pub start: usize,
    /// Length of the span in bytes, a multiple of `page_size`.
    pub len: usize,
    /// The platform page size the span was aligned to.
    pub page_size: usize,
}

impl Region {
    /// Both bounds fall on page boundaries and the span stays inside the
    /// address space.
    pub open spec fn wf(&self) -> bool {
        &&& self.page_size >= 1
        &&& self.start % self.page_size == 0
        &&& self.len % self.page_size == 0
        &&& self.start + self.len <= usize::MAX
    }

    /// One past the last address of the span.
    pub open spec fn end(&self) -> int {
        self.start + self.len
    }

    /// The span contains every byte of `[addr, addr + len)`.
    pub open spec fn covers(&self, addr: usize, len: usize) -> bool {
        self.start <= addr && addr + len <= self.end()
    }
}

/// `n` rounded down to the nearest multiple of `ps`.
pub open spec fn round_down(n: int, ps: int) -> int
    recommends
        ps >= 1,
{
    n - n % ps
}

/// `n` rounded up to the nearest multiple of `ps`.
pub open spec fn round_up(n: int, ps: int) -> int
    recommends
        ps >= 1,
{
    if n % ps == 0 {
        n
    } else {
        n + (ps - n % ps)
    }
}

/// Computes the smallest page-aligned region covering the `len` bytes that
/// start at address `addr`.  The start is rounded down to a page boundary and
/// the end rounded up, so page-granular protection calls never split a page
/// that holds part of the extent.
pub fn align_region(addr: usize, len: usize, page_size: usize) -> (r: Region)
    requires
        page_size >= 1,
        addr + len <= usize::MAX,
        round_up(addr + len, page_size as int) <= usize::MAX,
    ensures
        r.page_size == page_size,
        r.start == round_down(addr as int, page_size as int),
        r.end() == round_up(addr + len, page_size as int),
        r.wf(),
        r.covers(addr, len),
        addr < r.start + page_size,
        r.end() < addr + len + page_size,
{
    proof {
        lemma_round_facts(addr as int, len as int, page_size as int);
    }
    let rem: usize = addr % page_size;
    let start: usize = addr - rem;
    let end_raw: usize = addr + len;
    let end_rem: usize = end_raw % page_size;
    let end: usize = if end_rem == 0 {
        end_raw
    } else {
        end_raw + (page_size - end_rem)
    };
    Region { start, len: end - start, page_size }
}

/// The arithmetic behind `align_region`: rounding down and up lands on
/// multiples of the page size, moves each bound by less than one page, and
/// keeps the rounded-down start at or below the rounded-up end.
proof fn lemma_round_facts(a: int, l: int, ps: int)
    requires
        ps >= 1,
        a >= 0,
        l >= 0,
    ensures
        0 <= a % ps < ps,
        a % ps <= a,
        0 <= (a + l) % ps < ps,
        round_down(a, ps) % ps == 0,
        round_up(a + l, ps) % ps == 0,
        round_down(a, ps) <= a,
        a < round_down(a, ps) + ps,
        a + l <= round_up(a + l, ps) < a + l + ps,
        round_down(a, ps) <= round_up(a + l, ps),
        (round_up(a + l, ps) - round_down(a, ps)) % ps == 0,
{
    let e = a + l;
    assert(0 <= a % ps < ps && a % ps <= a && 0 <= e % ps < ps) by (nonlinear_arith)
        requires
            ps >= 1,
            a >= 0,
            e >= 0,
    ;
    assert((a - a % ps) % ps == 0) by (nonlinear_arith)
        requires
            ps >= 1,
            a >= 0,
    ;
    assert(e % ps != 0 ==> (e + (ps - e % ps)) % ps == 0) by (nonlinear_arith)
        requires
            ps >= 1,
            e >= 0,
    ;
    let d = round_down(a, ps);
    let u = round_up(e, ps);
    assert(d % ps == 0);
    assert(u % ps == 0);
    vstd::arithmetic::div_mod::lemma_fundamental_div_mod(d, ps);
    vstd::arithmetic::div_mod::lemma_fundamental_div_mod(u, ps);
    assert(u - d == (u / ps - d / ps) * ps) by (nonlinear_arith)
        requires
            d == ps * (d / ps) + (d % ps),
            u == ps * (u / ps) + (u % ps),
            d % ps == 0,
            u % ps == 0,
    ;
    vstd::arithmetic::div_mod::lemma_mod_multiples_basic(u / ps - d / ps, ps);
}

} // verus!
