//! The query sent to the search service.

use vstd::prelude::*;
use vstd::string::*;
use crate::search::models::{SearchResults, SearchResult, printed, wrapped_lines};
use crate::text::{decimal, decimal_string};

verus! {

/// How many results make up a page.
pub const PAGE_SIZE: usize = 10;

/// The number of the first result on page `page`, pages and results both
/// counted from one.
pub open spec fn offset(page: nat) -> nat
    recommends
        page >= 1,
{
    ((page - 1) * 10 + 1) as nat
}

/// The number of the first result on page `num`.
pub fn page_number(num: usize) -> (start: usize)
    requires
        num >= 1,
        offset(num as nat) <= usize::MAX,
    ensures
        start == offset(num as nat),
        start == (num - 1) * 10 + 1,
{
    (num - 1) * PAGE_SIZE + 1
}

/// The number of the first result on page `num`, where there is such a
/// page: none for page zero, and none where the number does not fit.
pub fn checked_page_number(num: usize) -> (start: Option<usize>)
    ensures
        start is Some <==> num >= 1 && offset(num as nat) <= usize::MAX,
        start matches Some(s) ==> s == offset(num as nat),
{
    if num >= 1 && num - 1 <= (usize::MAX - 1) / PAGE_SIZE {
        Some(page_number(num))
    } else {
        None
    }
}

/// The address that asks the search service for one page of results.
pub open spec fn query_url(
    query: Seq<char>,
    api_key: Seq<char>,
    search_engine_id: Seq<char>,
    start: nat,
) -> Seq<char> {
    "https://www.googleapis.com/customsearch/v1?key="@ + api_key + "&cx="@ + search_engine_id
        + "&q="@ + query + "&start="@ + decimal(start)
}

/// The address that asks for page `page_num` of the results for `query`,
/// with the two credentials of the configuration. The parts are put in as
/// they are.
pub fn get_results(query: &str, api_key: &str, search_engine_id: &str, page_num: usize) -> (url:
    String)
    requires
        page_num >= 1,
        offset(page_num as nat) <= usize::MAX,
    ensures
        url@ == query_url(query@, api_key@, search_engine_id@, offset(page_num as nat)),
{
    let start: usize = page_number(page_num);
    let number: String = decimal_string(start);
    String::from_str("https://www.googleapis.com/customsearch/v1?key=").concat(api_key).concat(
        "&cx=",
    ).concat(search_engine_id).concat("&q=").concat(query).concat("&start=").concat(
        number.as_str(),
    )
}

/// The text to show for a page of results: one block for each result, in
/// order, numbered from one.
pub fn execute(results: &SearchResults) -> (blocks: Vec<String>)
    ensures
        blocks@.len() == results.items@.len(),
        forall|i: int|
            0 <= i < blocks@.len() ==> (#[trigger] blocks@[i])@ == printed(
                (i + 1) as nat,
                results.items@[i].title@,
                results.items@[i].link@,
                wrapped_lines(results.items@[i].snippet@, 70),
            ),
{
    let mut blocks: Vec<String> = Vec::new();
    let mut i: usize = 0;
    while i < results.items.len()
        invariant
            i <= results.items@.len(),
            blocks@.len() == i,
            forall|k: int|
                0 <= k < i ==> (#[trigger] blocks@[k])@ == printed(
                    (k + 1) as nat,
                    results.items@[k].title@,
                    results.items@[k].link@,
                    wrapped_lines(results.items@[k].snippet@, 70),
                ),
        decreases results.items@.len() - i,
    {
        let item: &SearchResult = &results.items[i];
        blocks.push(item.print(i + 1));
        i = i + 1;
    }
    blocks
}

} // verus!
