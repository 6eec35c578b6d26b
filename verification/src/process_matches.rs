//! From what the command line held to what the tool is asked to do.

use vstd::prelude::*;
use vstd::string::*;
use crate::text::{count_of, parse_number, same_text};
use crate::utils::get_value_or_default;

verus! {

/// What the command line held: the command and the command under it, and
/// the arguments that were given, each as it was typed.
pub struct Matches {
    pub command: Option<String>,
    pub subcommand: Option<String>,
    pub name: Option<String>,
    pub lang: Option<String>,
    pub query: Option<String>,
    pub page: Option<String>,
    pub last: Option<String>,
}

/// What the tool is asked to do.
pub enum Request {
    /// Create the project `name` in the language of the key `lang`.
    NewProject { name: String, lang: String },
    /// Give the link that was shown under the number `index`.
    Lookup { index: usize },
    /// Show page `page` of the results for `query`.
    Search { query: String, page: usize },
    /// Nothing.
    Nothing,
}

/// A `Request` as plain values.
pub enum RequestView {
    NewProject { name: Seq<char>, lang: Seq<char> },
    Lookup { index: usize },
    Search { query: Seq<char>, page: usize },
    Nothing,
}

impl View for Request {
    type V = RequestView;

    open spec fn view(&self) -> RequestView {
        match self {
            Request::NewProject { name, lang } => RequestView::NewProject {
                name: name@,
                lang: lang@,
            },
            Request::Lookup { index } => RequestView::Lookup { index: *index },
            Request::Search { query, page } => RequestView::Search { query: query@, page: *page },
            Request::Nothing => RequestView::Nothing,
        }
    }
}

/// Why a command line stands for no request.
#[derive(Clone, Copy, Debug, PartialEq, Eq, Structural)]
pub enum Rejected {
    /// `project new` was given no name.
    NameRequired,
    /// `search` was given neither a query nor a number to look up.
    QueryRequired,
    /// The page is no number.
    PageInvalid,
    /// The number to look up is no number.
    LastInvalid,
}

/// What the user is told of a rejected command line.
pub open spec fn message_of(rejected: Rejected) -> Seq<char> {
    match rejected {
        Rejected::NameRequired => "`name` is required"@,
        Rejected::QueryRequired => "`query` is required"@,
        Rejected::PageInvalid => "The value of `page` must be a valid usize"@,
        Rejected::LastInvalid => "The value of `last` must be a valid usize"@,
    }
}

impl Rejected {
    /// What to tell the user.
    pub fn message(self) -> (s: String)
        ensures
            s@ == message_of(self),
    {
        match self {
            Rejected::NameRequired => String::from_str("`name` is required"),
            Rejected::QueryRequired => String::from_str("`query` is required"),
            Rejected::PageInvalid => String::from_str(
                "The value of `page` must be a valid usize",
            ),
            Rejected::LastInvalid => String::from_str(
                "The value of `last` must be a valid usize",
            ),
        }
    }
}

/// An optional text as plain values.
pub open spec fn text_of(value: Option<String>) -> Option<Seq<char>> {
    match value {
        Some(s) => Some(s@),
        None => None,
    }
}

/// The request that a command line stands for.
///
/// `project new` creates a project, in Python where no language is named.
/// `search` with a number to look up resolves that number and asks for no
/// query; otherwise it searches, on the first page where none is named.
/// A page and a number to look up are numerals. Every other command line
/// asks for nothing.
pub open spec fn request_of(
    command: Option<Seq<char>>,
    subcommand: Option<Seq<char>>,
    name: Option<Seq<char>>,
    lang: Option<Seq<char>>,
    query: Option<Seq<char>>,
    page: Option<Seq<char>>,
    last: Option<Seq<char>>,
) -> Result<RequestView, Rejected> {
    if command == Some("project"@) {
        if subcommand == Some("new"@) {
            match name {
                Some(n) => Ok(
                    RequestView::NewProject {
                        name: n,
                        lang: match lang {
                            Some(l) => l,
                            None => "py"@,
                        },
                    },
                ),
                None => Err(Rejected::NameRequired),
            }
        } else {
            Ok(RequestView::Nothing)
        }
    } else if command == Some("search"@) {
        match last {
            Some(typed) => match count_of(typed) {
                Some(index) => Ok(RequestView::Lookup { index }),
                None => Err(Rejected::LastInvalid),
            },
            None => match query {
                Some(q) => match page {
                    Some(typed) => match count_of(typed) {
                        Some(p) => Ok(RequestView::Search { query: q, page: p }),
                        None => Err(Rejected::PageInvalid),
                    },
                    None => Ok(RequestView::Search { query: q, page: 1 }),
                },
                None => Err(Rejected::QueryRequired),
            },
        }
    } else {
        Ok(RequestView::Nothing)
    }
}

/// Reads an optional numeral: nothing where nothing was typed, and no
/// answer where what was typed is no number.
fn number(typed: &Option<String>) -> (r: Result<Option<usize>, ()>)
    ensures
        typed is None ==> r == Ok::<Option<usize>, ()>(None),
        typed matches Some(t) ==> match count_of(t@) {
            Some(n) => r == Ok::<Option<usize>, ()>(Some(n)),
            None => r is Err,
        },
{
    match typed {
        Some(t) => match parse_number(t.as_str()) {
            Some(n) => Ok(Some(n)),
            None => Err(()),
        },
        None => Ok(None),
    }
}

fn is_text(value: &Option<String>, wanted: &str) -> (same: bool)
    ensures
        same == (text_of(*value) == Some(wanted@)),
{
    match value {
        Some(s) => same_text(s.as_str(), wanted),
        None => false,
    }
}

/// Reads the request off a command line.
pub fn process_matches(matches: Matches) -> (r: Result<Request, Rejected>)
    ensures
        match request_of(
            text_of(matches.command),
            text_of(matches.subcommand),
            text_of(matches.name),
            text_of(matches.lang),
            text_of(matches.query),
            text_of(matches.page),
            text_of(matches.last),
        ) {
            Ok(wanted) => r matches Ok(got) && got@ == wanted,
            Err(rejected) => r == Err::<Request, Rejected>(rejected),
        },
{
    if is_text(&matches.command, "project") {
        process_project_subcommand(matches)
    } else if is_text(&matches.command, "search") {
        match number(&matches.last) {
            Err(_) => Err(Rejected::LastInvalid),
            Ok(Some(index)) => Ok(Request::Lookup { index }),
            Ok(None) => match matches.query {
                Some(query) => match number(&matches.page) {
                    Err(_) => Err(Rejected::PageInvalid),
                    Ok(given) => {
                        let page: usize = get_value_or_default(given, 1);
                        Ok(Request::Search { query, page })
                    },
                },
                None => Err(Rejected::QueryRequired),
            },
        }
    } else {
        Ok(Request::Nothing)
    }
}

fn process_project_subcommand(matches: Matches) -> (r: Result<Request, Rejected>)
    requires
        text_of(matches.command) == Some("project"@),
    ensures
        match request_of(
            text_of(matches.command),
            text_of(matches.subcommand),
            text_of(matches.name),
            text_of(matches.lang),
            text_of(matches.query),
            text_of(matches.page),
            text_of(matches.last),
        ) {
            Ok(wanted) => r matches Ok(got) && got@ == wanted,
            Err(rejected) => r == Err::<Request, Rejected>(rejected),
        },
{
    if is_text(&matches.subcommand, "new") {
        match matches.name {
            Some(name) => {
                let lang: String = get_value_or_default(matches.lang, String::from_str("py"));
                Ok(Request::NewProject { name, lang })
            },
            None => Err(Rejected::NameRequired),
        }
    } else {
        Ok(Request::Nothing)
    }
}

} // verus!
