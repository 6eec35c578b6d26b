use clap::{Arg, ArgMatches, Command};
use dev_cli::file::{write_file_from_response, File, Received};
use dev_cli::process_matches::{process_matches, Matches, Rejected, Request};
use dev_cli::text::{decimal_string, join, parse_number, repeat, same_text};
use dev_cli::utils::get_value_or_default;

fn given(matches: &ArgMatches, command: &str, name: &str) -> Option<String> {
    matches.subcommand_matches(command).unwrap().get_one::<String>(name).cloned()
}

#[test]
fn test_get_value_or_default() {
    let matches: ArgMatches = Command::new("dev-cli")
        .subcommand(Command::new("test").about("A test subcommand").arg(Arg::new("test")))
        .get_matches_from(vec!["dev-cli", "test", "test"]);

    let val: String = get_value_or_default(given(&matches, "test", "test"), "default".to_string());
    assert_eq!(val, "test");
}

#[test]
fn test_get_value_or_default_default() {
    let matches: ArgMatches = Command::new("dev-cli")
        .subcommand(Command::new("test").about("A test subcommand").arg(Arg::new("test")))
        .get_matches_from(vec!["dev-cli", "test"]);

    let val: String = get_value_or_default(given(&matches, "test", "test"), "default".to_string());
    assert_eq!(val, "default");
}

#[test]
fn default_applies_to_numbers_too() {
    assert_eq!(get_value_or_default(None, 1usize), 1);
    assert_eq!(get_value_or_default(Some(4usize), 1usize), 4);
}

fn line(command: Option<&str>, subcommand: Option<&str>) -> Matches {
    Matches {
        command: command.map(|s| s.to_string()),
        subcommand: subcommand.map(|s| s.to_string()),
        name: None,
        lang: None,
        query: None,
        page: None,
        last: None,
    }
}

#[test]
fn a_new_project_defaults_to_python() {
    let mut m = line(Some("project"), Some("new"));
    m.name = Some("demo".to_string());
    match process_matches(m) {
        Ok(Request::NewProject { name, lang }) => {
            assert_eq!(name, "demo");
            assert_eq!(lang, "py");
        }
        _ => panic!("a new project was asked for"),
    }
}

#[test]
fn a_new_project_takes_the_language_given() {
    let mut m = line(Some("project"), Some("new"));
    m.name = Some("demo".to_string());
    m.lang = Some("rb".to_string());
    match process_matches(m) {
        Ok(Request::NewProject { name, lang }) => {
            assert_eq!(name, "demo");
            assert_eq!(lang, "rb");
        }
        _ => panic!("a new project was asked for"),
    }
}

#[test]
fn a_new_project_needs_a_name() {
    let m = line(Some("project"), Some("new"));
    assert_eq!(process_matches(m).err(), Some(Rejected::NameRequired));
}

#[test]
fn project_alone_asks_for_nothing() {
    assert!(matches!(process_matches(line(Some("project"), None)), Ok(Request::Nothing)));
    assert!(matches!(
        process_matches(line(Some("project"), Some("old"))),
        Ok(Request::Nothing)
    ));
}

#[test]
fn a_lookup_goes_before_a_query() {
    let mut m = line(Some("search"), None);
    m.last = Some("3".to_string());
    m.query = Some("ignored".to_string());
    m.page = Some("not a page".to_string());
    assert!(matches!(process_matches(m), Ok(Request::Lookup { index: 3 })));
    let mut m = line(Some("search"), None);
    m.last = Some("0".to_string());
    assert!(matches!(process_matches(m), Ok(Request::Lookup { index: 0 })));
}

#[test]
fn a_search_defaults_to_the_first_page() {
    let mut m = line(Some("search"), None);
    m.query = Some("verus".to_string());
    match process_matches(m) {
        Ok(Request::Search { query, page }) => {
            assert_eq!(query, "verus");
            assert_eq!(page, 1);
        }
        _ => panic!("a search was asked for"),
    }
    let mut m = line(Some("search"), None);
    m.query = Some("verus".to_string());
    m.page = Some("4".to_string());
    assert!(matches!(process_matches(m), Ok(Request::Search { page: 4, .. })));
}

#[test]
fn numbers_that_are_none_are_rejected() {
    let mut m = line(Some("search"), None);
    m.query = Some("verus".to_string());
    m.page = Some("two".to_string());
    assert_eq!(process_matches(m).err(), Some(Rejected::PageInvalid));
    let mut m = line(Some("search"), None);
    m.query = Some("verus".to_string());
    m.last = Some("-1".to_string());
    assert_eq!(process_matches(m).err(), Some(Rejected::LastInvalid));
    let mut m = line(Some("search"), None);
    m.page = Some("x".to_string());
    assert_eq!(process_matches(m).err(), Some(Rejected::QueryRequired));
}

#[test]
fn rejections_have_their_messages() {
    assert_eq!(Rejected::NameRequired.message(), "`name` is required");
    assert_eq!(Rejected::QueryRequired.message(), "`query` is required");
    assert_eq!(Rejected::PageInvalid.message(), "The value of `page` must be a valid usize");
    assert_eq!(Rejected::LastInvalid.message(), "The value of `last` must be a valid usize");
}

#[test]
fn numerals_are_read_as_the_language_reads_them() {
    let max = usize::MAX.to_string();
    let over = format!("{}0", max);
    let mut next = max.clone().into_bytes();
    let last = next.len() - 1;
    next[last] += 1;
    let next = String::from_utf8(next).unwrap();
    let inputs = [
        "0", "7", "10", "007", "+5", "+0", "+", "", "-", "-1", "-0", "++5", "5+", " 5", "5 ",
        "1_000", "0x10", "12a", "a12", "1.5", "\u{663}", "\u{ff11}", "18446744073709551615",
        "18446744073709551616", "99999999999999999999999999", "000000000000000000000000001",
        &max, &over, &next,
    ];
    for text in inputs {
        assert_eq!(parse_number(text), text.parse::<usize>().ok(), "{:?}", text);
    }
    assert_eq!(parse_number("21"), Some(21));
    assert_eq!(parse_number("+21"), Some(21));
    assert_eq!(parse_number("twenty"), None);
    assert_eq!(parse_number(&max), Some(usize::MAX));
    assert_eq!(parse_number(&next), None);
}

#[test]
fn a_search_needs_a_query() {
    let mut m = line(Some("search"), None);
    m.page = Some("2".to_string());
    assert_eq!(process_matches(m).err(), Some(Rejected::QueryRequired));
}

#[test]
fn other_commands_ask_for_nothing() {
    assert!(matches!(process_matches(line(None, None)), Ok(Request::Nothing)));
    assert!(matches!(process_matches(line(Some("Search"), None)), Ok(Request::Nothing)));
    assert!(matches!(process_matches(line(Some("help"), Some("new"))), Ok(Request::Nothing)));
}

#[test]
fn a_file_goes_under_the_working_directory() {
    let file = File::new(
        "/work",
        "test.txt".to_string(),
        "test".to_string(),
        "Hello World!".to_string(),
    );
    assert_eq!(file.name, "test.txt");
    assert_eq!(file.dir, "/work/test/");
    assert_eq!(file.content, "Hello World!");
    let order = file.write();
    assert_eq!(order.dir, "/work/test/");
    assert_eq!(order.path, "/work/test//test.txt");
    assert_eq!(order.content, "Hello World!");
}

#[test]
fn a_response_of_status_200_gives_a_file() {
    let r = write_file_from_response(
        "/work",
        200,
        "body".to_string(),
        "README.md".to_string(),
        "proj".to_string(),
    );
    match r {
        Received::Created { file, notice } => {
            assert_eq!(file.name, "README.md");
            assert_eq!(file.dir, "/work/proj/");
            assert_eq!(file.content, "body");
            assert_eq!(notice, "README.md created.");
        }
        Received::Missing { .. } => panic!("the file was given"),
    }
}

#[test]
fn any_other_status_gives_no_file() {
    for status in [0u16, 199, 201, 204, 301, 404, 500] {
        let r = write_file_from_response(
            "/work",
            status,
            "body".to_string(),
            "README.md".to_string(),
            "proj".to_string(),
        );
        match r {
            Received::Missing { notice } => {
                assert_eq!(notice, "Error: Could not get README.md from repo.")
            }
            Received::Created { .. } => panic!("no file was given"),
        }
    }
}

#[test]
fn numbers_are_written_in_decimal() {
    assert_eq!(decimal_string(0), "0");
    assert_eq!(decimal_string(7), "7");
    assert_eq!(decimal_string(10), "10");
    assert_eq!(decimal_string(21), "21");
    assert_eq!(decimal_string(1234567890), "1234567890");
    assert_eq!(decimal_string(usize::MAX), usize::MAX.to_string());
}

#[test]
fn what_is_written_is_read_back() {
    for n in [0usize, 1, 9, 10, 11, 99, 100, 12345, usize::MAX - 1, usize::MAX] {
        assert_eq!(parse_number(&decimal_string(n)), Some(n));
    }
}

#[test]
fn text_helpers() {
    assert_eq!(repeat("-", 0), "");
    assert_eq!(repeat("-", 4), "----");
    assert!(same_text("py", "py"));
    assert!(!same_text("py", "Py"));
    assert!(!same_text("py", "pyx"));
    let parts = vec!["a".to_string(), "".to_string(), "c".to_string()];
    assert_eq!(join(&parts, ", "), "a, , c");
    let one = vec!["a".to_string()];
    assert_eq!(join(&one, ", "), "a");
    let none: Vec<String> = Vec::new();
    assert_eq!(join(&none, ", "), "");
}
