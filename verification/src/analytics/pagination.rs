//! The total number of groups behind one page of a report.
use vstd::prelude::*;

verus! {

/// Where the total of a paginated report comes from.
#[derive(Debug, Clone, Copy, PartialEq, Eq, Structural)]
pub enum PageTotal {
    /// The total is known.
    Known(i64),
    /// The page lies past the end: the groups must be counted.
    Count,
}

/// The total number of groups, from the total that the first row of the page
/// carries, or from the fact that an empty first page means an empty result.
/// Only an empty page past the beginning needs a count of its own.
pub fn page_total(first_row_total: Option<i64>, offset: i64) -> (r: PageTotal)
    ensures
        r == (match first_row_total {
            Some(total) => PageTotal::Known(total),
            None => if offset == 0 {
                PageTotal::Known(0)
            } else {
                PageTotal::Count
            },
        }),
{
    match first_row_total {
        Some(total) => PageTotal::Known(total),
        None => if offset == 0 {
            PageTotal::Known(0)
        } else {
            PageTotal::Count
        },
    }
}

/// A page that has rows knows its total, and so does an empty first page; only an
/// empty page further on must be counted.
pub proof fn law_only_empty_later_pages_are_counted(
    first_row_total: Option<i64>,
    offset: i64,
    r: PageTotal,
)
    requires
        call_ensures(page_total, (first_row_total, offset), r),
    ensures
        r == PageTotal::Count <==> first_row_total is None && offset != 0,
        r matches PageTotal::Known(total) ==> total == 0 || first_row_total == Some(total),
        first_row_total matches Some(total) ==> r == PageTotal::Known(total),
{
}

} // verus!
