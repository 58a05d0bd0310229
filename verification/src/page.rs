//! Pagination: the page parameters a query accepts and the page summary a
//! listing returns.
use vstd::prelude::*;

verus! {

/// The page of results a caller asks for.
#[derive(Clone, Copy, Debug, PartialEq, Eq, Structural)]
pub struct PageRequest {
    pub page: u64,
    pub page_size: u64,
}

/// The page a caller gets when the request names none.
pub fn default_page() -> (r: u64)
    ensures
        r == 0,
{
    0
}

/// The page size a caller gets when the request names none.
pub fn default_page_size() -> (r: u64)
    ensures
        r == 10,
{
    10
}

/// The summary of one returned page.
#[derive(Clone, Copy, Debug, PartialEq, Eq, Structural)]
pub struct Pagination {
    pub number_of_elements: usize,
    pub page: u32,
    pub page_size: u32,
    pub total_pages: u32,
    pub total_elements: usize,
}

/// One page of results with its summary.
#[derive(Clone, Debug)]
pub struct PageResponse<T> {
    pub data: Vec<T>,
    pub page_info: Pagination,
}

/// How many pages of size `page_size` hold `total` elements: the total
/// rounded up to whole pages.
pub open spec fn spec_total_pages(total: nat, page_size: nat) -> nat
    recommends
        page_size > 0,
{
    (total + page_size - 1) as nat / page_size
}

/// Builds the page summary for one returned page: `total_pages` is the
/// element total rounded up to whole pages.
pub fn paginate(page: u32, page_size: u32, number_of_elements: usize, total_elements: usize) -> (p:
    Pagination)
    requires
        page_size >= 1,
        spec_total_pages(total_elements as nat, page_size as nat) <= u32::MAX,
    ensures
        p.page == page,
        p.page_size == page_size,
        p.number_of_elements == number_of_elements,
        p.total_elements == total_elements,
        p.total_pages as nat == spec_total_pages(total_elements as nat, page_size as nat),
{
    let whole: usize = total_elements / (page_size as usize);
    let partial: usize = total_elements % (page_size as usize);
    proof {
        lemma_ceil_div(total_elements as nat, page_size as nat);
    }
    let total_pages: u32 = if partial == 0 {
        whole as u32
    } else {
        (whole + 1) as u32
    };
    Pagination { number_of_elements, page, page_size, total_pages, total_elements }
}

/// Rounding up by adding `d - 1` before dividing agrees with dividing and
/// adding one for a remainder.
proof fn lemma_ceil_div(n: nat, d: nat)
    requires
        d >= 1,
    ensures
        spec_total_pages(n, d) == n / d + (if n % d == 0 {
            0nat
        } else {
            1nat
        }),
{
    let nn = n as int;
    let dd = d as int;
    let q = nn / dd;
    let r = nn % dd;
    let x = nn + dd - 1;
    vstd::arithmetic::div_mod::lemma_fundamental_div_mod(nn, dd);
    assert(nn == dd * q + r);
    if r == 0 {
        assert(x == q * dd + (dd - 1)) by (nonlinear_arith)
            requires
                nn == dd * q + r && r == 0 && x == nn + dd - 1,
        ;
        vstd::arithmetic::div_mod::lemma_fundamental_div_mod_converse(x, dd, q, dd - 1);
    } else {
        assert(x == (q + 1) * dd + (r - 1)) by (nonlinear_arith)
            requires
                nn == dd * q + r && x == nn + dd - 1,
        ;
        vstd::arithmetic::div_mod::lemma_fundamental_div_mod_converse(x, dd, q + 1, r - 1);
    }
}

/// The rows a query skips to reach the requested page, pages counted from
/// one.
pub fn skip_offset(page: u64, page_size: u64) -> (r: u64)
    requires
        page >= 1,
        (page - 1) * page_size <= u64::MAX,
    ensures
        r == (page - 1) * page_size,
{
    (page - 1) * page_size
}

} // verus!
