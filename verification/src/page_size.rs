//! Page-size selection for the backing memory region: the channel record
//! must be laid over a whole number of pages, so the requested byte size
//! is rounded up to the page size in use.

use vstd::prelude::*;
use vstd::arithmetic::div_mod::{lemma_fundamental_div_mod, lemma_mod_division_less_than_divisor,
    lemma_mod_multiples_vanish, lemma_mod_self_0};

use crate::error::QueError;

verus! {

/// The least multiple of `page_size` that is at least `size`.
pub open spec fn spec_upligned(page_size: int, size: int) -> int {
    if size % page_size == 0 {
        size
    } else {
        size - size % page_size + page_size
    }
}

/// `spec_upligned` is a multiple of the page size within one page above
/// the requested size.
pub proof fn lemma_upligned_bounds(page_size: int, size: int)
    requires
        1 <= page_size,
        0 <= size,
    ensures
        size <= spec_upligned(page_size, size) < size + page_size,
        spec_upligned(page_size, size) % page_size == 0,
{
    lemma_mod_division_less_than_divisor(size, page_size);
    if size % page_size != 0 {
        lemma_fundamental_div_mod(size, page_size);
        let q = size / page_size;
        assert(size - size % page_size + page_size == page_size * (q + 1)) by (nonlinear_arith)
            requires
                size == page_size * q + size % page_size,
        ;
        lemma_mod_multiples_vanish(q + 1, 0, page_size);
        lemma_mod_self_0(page_size);
        assert((page_size * (q + 1)) % page_size == 0);
    }
}

/// Rounds `size` up to the next multiple of `page_size`.
pub fn get_upligned_size(page_size: usize, size: usize) -> (r: usize)
    requires
        1 <= page_size,
        size + page_size <= usize::MAX,
    ensures
        r as int == spec_upligned(page_size as int, size as int),
        size <= r < size + page_size,
        r as int % page_size as int == 0,
{
    proof {
        lemma_upligned_bounds(page_size as int, size as int);
    }
    let rem = size % page_size;
    proof {
        vstd::arithmetic::div_mod::lemma_mod_decreases(size as nat, page_size as nat);
    }
    if rem == 0 {
        size
    } else {
        size - rem + page_size
    }
}

/// The page granularities the backing memory can be mapped with.
#[derive(Clone, Copy, Debug)]
pub enum PageSize {
    /// Default system page size (typically 4 KiB).
    Standard,
    /// 2 MiB huge pages.
    Huge,
    /// 1 GiB gigantic pages.
    Gigantic,
}

/// Byte size of a huge page (2 MiB).
pub const HUGE_PAGE_BYTES: usize = 0x20_0000;

/// Byte size of a gigantic page (1 GiB).
pub const GIGANTIC_PAGE_BYTES: usize = 0x4000_0000;

impl PageSize {
    /// The required buffer size for the selected page granularity:
    /// `size` rounded up to the page's own size.
    pub fn mem_size(&self, size: usize) -> (r: usize)
        requires
            size + 0x7fff_ffff_ffff_ffff <= usize::MAX,
        ensures
            size <= r,
            *self is Standard ==> (exists|ps: int|
                1 <= ps <= i64::MAX && r as int == spec_upligned(ps, size as int)),
            *self is Huge ==> r as int == spec_upligned(HUGE_PAGE_BYTES as int, size as int),
            *self is Gigantic ==> r as int == spec_upligned(
                GIGANTIC_PAGE_BYTES as int,
                size as int,
            ),
    {
        match self {
            PageSize::Standard => {
                let ps = PageSize::standard();
                let r = get_upligned_size(ps, size);
                proof {
                    assert(1 <= ps as int <= i64::MAX && r as int == spec_upligned(
                        ps as int,
                        size as int,
                    ));
                }
                r
            },
            PageSize::Huge => get_upligned_size(HUGE_PAGE_BYTES, size),
            PageSize::Gigantic => get_upligned_size(GIGANTIC_PAGE_BYTES, size),
        }
    }

    /// Like [`PageSize::mem_size`], but reports a rounded size that does
    /// not fit the backing-memory API's integer range (a signed 64-bit
    /// byte count) as [`QueError::InvalidSize`] instead of returning it.
    pub fn checked_mem_size(&self, size: usize) -> (r: Result<usize, QueError>)
        requires
            size + 0x7fff_ffff_ffff_ffff <= usize::MAX,
        ensures
            r matches Ok(m) ==> size <= m <= i64::MAX,
            *self is Huge ==> (r matches Ok(m) ==> m as int == spec_upligned(
                HUGE_PAGE_BYTES as int,
                size as int,
            )),
            *self is Gigantic ==> (r matches Ok(m) ==> m as int == spec_upligned(
                GIGANTIC_PAGE_BYTES as int,
                size as int,
            )),
            *self is Standard ==> (r matches Ok(m) ==> (exists|ps: int|
                1 <= ps <= i64::MAX && m as int == spec_upligned(ps, size as int))),
            r is Err ==> r == Err::<usize, QueError>(QueError::InvalidSize),
            *self is Huge ==> ((r is Err) == (spec_upligned(HUGE_PAGE_BYTES as int, size as int)
                > i64::MAX)),
            *self is Gigantic ==> ((r is Err) == (spec_upligned(
                GIGANTIC_PAGE_BYTES as int,
                size as int,
            ) > i64::MAX)),
    {
        let m = self.mem_size(size);
        if m as u64 > 0x7fff_ffff_ffff_ffffu64 {
            Err(QueError::InvalidSize)
        } else {
            Ok(m)
        }
    }

    /// Returns `true` iff this is [`PageSize::Huge`].
    pub fn is_huge(&self) -> (r: bool)
        ensures
            r == (*self is Huge),
    {
        match self {
            PageSize::Huge => true,
            _ => false,
        }
    }

    /// Returns `true` iff this is [`PageSize::Gigantic`].
    pub fn is_gigantic(&self) -> (r: bool)
        ensures
            r == (*self is Gigantic),
    {
        match self {
            PageSize::Gigantic => true,
            _ => false,
        }
    }

    /// The system's default page size.
    ///
    /// Relies on `nix::unistd::sysconf(PAGE_SIZE)`: the kernel reports
    /// the size of a page in bytes, a positive value carried in a C
    /// `long`; like the callers of the raw interface, this panics if the
    /// system cannot report a page size at all.
    #[verifier::external_body]
    pub fn standard() -> (r: usize)
        ensures
            1 <= r <= i64::MAX,
    {
        nix::unistd::sysconf(nix::unistd::SysconfVar::PAGE_SIZE)
            .expect("unable to get default page size")
            .expect("unable to get default page size")
            .try_into()
            .unwrap()
    }
}

} // verus!
