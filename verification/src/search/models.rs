//! The results of a search, and the store that keeps their links for a
//! later lookup by number.

use vstd::prelude::*;
use vstd::string::*;
use crate::search::config::{home_dir, store_path_of};
use crate::text::{byte_len, decimal, decimal_string, join, joined, repeat, repeated, texts};

verus! {

/// One page of results, in the order the service gave them.
#[derive(Debug, Clone)]
pub struct SearchResults {
    pub items: Vec<SearchResult>,
}

/// A single result: its title, its address and a description.
#[derive(Debug, Clone)]
pub struct SearchResult {
    pub title: String,
    pub link: String,
    pub snippet: String,
}

/// A stored link with the number under which it was shown.
#[derive(Debug)]
pub struct ResultStoreItem {
    pub index: usize,
    pub link: String,
}

/// The links of the page shown last, each under its number.
#[derive(Debug)]
pub struct ResultStore {
    pub items: Vec<ResultStoreItem>,
}

/// Why a number could not be resolved to a link.
#[derive(Clone, Copy, Debug, PartialEq, Eq, Structural)]
pub enum LookupError {
    /// Nothing has been stored yet.
    StoreNotFound,
    /// The store holds no link under this number.
    IndexNotFound,
}

/// A `ResultStoreItem` as plain values.
pub struct StoredLink {
    pub index: nat,
    pub link: Seq<char>,
}

impl View for ResultStoreItem {
    type V = StoredLink;

    open spec fn view(&self) -> StoredLink {
        StoredLink { index: self.index as nat, link: self.link@ }
    }
}

impl View for ResultStore {
    type V = Seq<StoredLink>;

    open spec fn view(&self) -> Seq<StoredLink> {
        Seq::new(self.items@.len(), |i: int| self.items@[i]@)
    }
}

/// The links of a page of results, in order.
pub open spec fn links_of(results: Seq<SearchResult>) -> Seq<Seq<char>> {
    Seq::new(results.len(), |i: int| results[i].link@)
}

/// The store made of `links`: the first under number one, the second under
/// number two, and so on.
pub open spec fn stored_of(links: Seq<Seq<char>>) -> Seq<StoredLink> {
    Seq::new(links.len(), |i: int| StoredLink { index: (i + 1) as nat, link: links[i] })
}

/// The numbers of `items` run from one upwards with no gap, in order.
pub open spec fn dense(items: Seq<StoredLink>) -> bool {
    forall|i: int| 0 <= i < items.len() ==> (#[trigger] items[i]).index == i + 1
}

/// The link of the first item of `items` stored under `index`.
pub open spec fn lookup(items: Seq<StoredLink>, index: nat) -> Option<Seq<char>>
    decreases items.len(),
{
    if items.len() == 0 {
        None
    } else if items[0].index == index {
        Some(items[0].link)
    } else {
        lookup(items.drop_first(), index)
    }
}

/// The lines that `textwrap::wrap` breaks `text` into at `width` columns.
pub uninterp spec fn wrapped_lines(text: Seq<char>, width: nat) -> Seq<Seq<char>>;

/// Calls `textwrap::wrap` with a plain width and takes each line as an
/// owned string. Nothing is claimed of the lines but that they are the ones
/// that this function gives for this text and width.
#[verifier::external_body]
fn wrap(text: &str, width: usize) -> (lines: Vec<String>)
    ensures
        texts(lines@) == wrapped_lines(text@, width as nat),
{
    textwrap::wrap(text, width).into_iter().map(|line| line.into_owned()).collect()
}

/// The block of text that shows one result: a bold line with the number
/// and the title, a rule as long as the title has bytes, the description's
/// lines, and the link in italics.
pub open spec fn printed(idx: nat, title: Seq<char>, link: Seq<char>, lines: Seq<Seq<char>>) -> Seq<
    char,
> {
    "\n\x1b[1m"@ + decimal(idx) + " | "@ + title + "\x1b[0m\n    "@ + repeated(
        '-',
        byte_len(title) as nat,
    ) + "\n    "@ + joined(lines, "\n    "@) + "\n\n    \x1b[3m"@ + link + "\x1b[0m\n        "@
}

impl SearchResult {
    /// The block of text that shows this result under the number `idx`,
    /// with `lines` as its description.
    pub fn layout(&self, idx: usize, lines: &Vec<String>) -> (block: String)
        ensures
            block@ == printed(idx as nat, self.title@, self.link@, texts(lines@)),
    {
        proof {
            reveal_strlit("-");
        }
        let number: String = decimal_string(idx);
        let rule: String = repeat("-", self.title.as_str().len());
        let description: String = join(lines, "\n    ");
        assert("-"@[0] == '-');
        String::from_str("\n\x1b[1m").concat(number.as_str()).concat(" | ").concat(
            self.title.as_str(),
        ).concat("\x1b[0m\n    ").concat(rule.as_str()).concat("\n    ").concat(
            description.as_str(),
        ).concat("\n\n    \x1b[3m").concat(self.link.as_str()).concat("\x1b[0m\n        ")
    }

    /// The block of text that shows this result under the number `idx`,
    /// its description wrapped at seventy columns.
    pub fn print(&self, idx: usize) -> (block: String)
        ensures
            block@ == printed(
                idx as nat,
                self.title@,
                self.link@,
                wrapped_lines(self.snippet@, 70),
            ),
    {
        let lines: Vec<String> = wrap(self.snippet.as_str(), 70);
        self.layout(idx, &lines)
    }
}

impl ResultStoreItem {
    pub fn new(index: usize, link: String) -> (item: Self)
        ensures
            item.index == index,
            item.link == link,
    {
        Self { index, link }
    }
}

impl ResultStore {
    /// Numbers the links of `results` from one, in order.
    pub fn from_search_results(results: SearchResults) -> (store: Self)
        ensures
            store@ == stored_of(links_of(results.items@)),
            dense(store@),
    {
        let mut items: Vec<ResultStoreItem> = Vec::new();
        let mut i: usize = 0;
        while i < results.items.len()
            invariant
                i <= results.items@.len(),
                items@.len() == i,
                forall|k: int|
                    0 <= k < i ==> (#[trigger] items@[k])@ == (StoredLink {
                        index: (k + 1) as nat,
                        link: results.items@[k].link@,
                    }),
            decreases results.items@.len() - i,
        {
            let item = ResultStoreItem::new(i + 1, results.items[i].link.clone());
            items.push(item);
            i = i + 1;
        }
        let store = Self { items };
        assert(store@ =~= stored_of(links_of(results.items@)));
        store
    }

    /// The place of the result store under `home`.
    pub fn path_in(home: &str) -> (path: String)
        ensures
            path@ == store_path_of(home@),
    {
        String::from_str(home).concat("/.dev-config/results.yaml")
    }

    /// The place of the current user's result store, where the user has a
    /// home directory.
    pub fn dir() -> (path: Option<String>)
        ensures
            path matches Some(p) ==> exists|home: Seq<char>| p@ == store_path_of(home),
    {
        let home: Option<String> = home_dir();
        let path: Option<String> = ResultStore::path_for(&home);
        assert(path matches Some(p) ==> home matches Some(h) && p@ == store_path_of(h@));
        path
    }

    /// The place of the result store for a user whose home directory is
    /// `home`: under that directory where there is one, and nowhere where
    /// there is none.
    pub fn path_for(home: &Option<String>) -> (path: Option<String>)
        ensures
            home is None <==> path is None,
            home matches Some(h) ==> (path matches Some(p) && p@ == store_path_of(h@)),
    {
        match home {
            Some(h) => Some(ResultStore::path_in(h.as_str())),
            None => None,
        }
    }

    /// Resolves a number to the link stored under it.
    ///
    /// With no store at all the answer is `StoreNotFound`. With a store it
    /// is the link of the first item under that number, or `IndexNotFound`
    /// where there is none.
    pub fn get_link(store: Option<&ResultStore>, index: usize) -> (r: Result<String, LookupError>)
        ensures
            store is None <==> r == Err::<String, LookupError>(LookupError::StoreNotFound),
            store matches Some(s) ==> match lookup(s@, index as nat) {
                Some(link) => r matches Ok(found) && found@ == link,
                None => r == Err::<String, LookupError>(LookupError::IndexNotFound),
            },
    {
        match store {
            None => Err(LookupError::StoreNotFound),
            Some(s) => {
                let mut i: usize = 0;
                assert(s@.skip(0) =~= s@);
                while i < s.items.len()
                    invariant
                        store == Some(s),
                        i <= s.items@.len(),
                        lookup(s@, index as nat) == lookup(s@.skip(i as int), index as nat),
                    decreases s.items@.len() - i,
                {
                    assert(s@.skip(i as int)[0] == s.items@[i as int]@);
                    assert(s@.skip(i as int).drop_first() =~= s@.skip(i + 1));
                    if s.items[i].index == index {
                        return Ok(s.items[i].link.clone());
                    }
                    i = i + 1;
                }
                Err(LookupError::IndexNotFound)
            },
        }
    }
}

/// Whatever is stored is found again: in the store made of `links`, the
/// number `k` resolves to the `k`-th link, counted from one, and every
/// other number resolves to nothing.
pub proof fn lemma_stored_links_resolve(links: Seq<Seq<char>>, k: nat)
    ensures
        1 <= k <= links.len() ==> lookup(stored_of(links), k) == Some(links[k - 1]),
        !(1 <= k <= links.len()) ==> lookup(stored_of(links), k) is None,
{
    lemma_dense_lookup(stored_of(links), 0, k);
}

/// In a run of items numbered `base + 1`, `base + 2`, ... the number `k`
/// is found at its place, and no number outside the run is found.
pub proof fn lemma_dense_lookup(items: Seq<StoredLink>, base: nat, k: nat)
    requires
        forall|i: int| 0 <= i < items.len() ==> (#[trigger] items[i]).index == base + i + 1,
    ensures
        base + 1 <= k <= base + items.len() ==> lookup(items, k) == Some(
            items[k - base - 1].link,
        ),
        !(base + 1 <= k <= base + items.len()) ==> lookup(items, k) is None,
    decreases items.len(),
{
    if items.len() > 0 {
        let rest = items.drop_first();
        assert forall|i: int| 0 <= i < rest.len() implies (#[trigger] rest[i]).index == (base + 1)
            + i + 1 by {
            assert(rest[i] == items[i + 1]);
        }
        lemma_dense_lookup(rest, base + 1, k);
        if base + 2 <= k <= base + items.len() {
            assert(rest[k - (base + 1) - 1] == items[k - base - 1]);
        }
    }
}

/// A store is made of the links alone, in their order: two pages with the
/// same links give the same store, and every number resolves alike in both.
pub proof fn lemma_store_repeatable(first: Seq<SearchResult>, second: Seq<SearchResult>, k: nat)
    requires
        links_of(first) == links_of(second),
    ensures
        stored_of(links_of(first)) == stored_of(links_of(second)),
        lookup(stored_of(links_of(first)), k) == lookup(stored_of(links_of(second)), k),
{
}

} // verus!
