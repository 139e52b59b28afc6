use exercises::borrowing::{calculate_length as borrowed_length, change, first_word};
use exercises::collections::{bubble_sort, last_char_of_first_line};
use exercises::grep::{contains_sub, run, search, search_case_insensitive, split_lines, Args};
use exercises::guessing::{game_step, parse_u32, secret_number, GameStep};
use exercises::lifetimes::{longest, longest_one, Import, _first_word};
use exercises::ownership::{calculate_length, gives_ownership, takes_and_gives_back};
use exercises::standard::u32_to_string;
use exercises::web::{eq_str, route, status_line, Route};

#[test]
fn search_finds_one_result() {
    let query = "duct";
    let contents = "\
Rust:
safe, fast, productive.
Pick three.";

    assert_eq!(vec!["safe, fast, productive."], search(query, contents));
}

#[test]
fn search_is_case_sensitive() {
    let query = "rUsT";
    let contents = "\
Rust:
safe, fast, productive.
Trust me.";

    assert!(search(query, contents).is_empty());
    assert_eq!(vec!["Rust:", "Trust me."], search_case_insensitive(query, contents));
}

#[test]
fn run_selects_the_mode() {
    let contents = "Rust:\nTrust me.";
    assert_eq!(run("rust", contents, false), vec!["Trust me."]);
    assert_eq!(run("rust", contents, true), vec!["Rust:", "Trust me."]);
}

#[test]
fn lines_split_like_the_standard_reader() {
    assert_eq!(split_lines("a\nb\r\nc\n"), vec!["a", "b", "c"]);
    assert_eq!(split_lines(""), Vec::<&str>::new());
    assert_eq!(split_lines("\n"), vec![""]);
    assert_eq!(split_lines("tail"), vec!["tail"]);
}

#[test]
fn substring_search() {
    assert!(contains_sub("hello world", "o w"));
    assert!(contains_sub("hello", ""));
    assert!(!contains_sub("hello", "world"));
    assert!(!contains_sub("ab", "abc"));
}

#[test]
fn args_are_parsed_from_the_command_line() {
    let ok = Args::build(
        vec![String::from("prog"), String::from("query"), String::from("file.txt")],
        true,
    )
    .unwrap();
    assert_eq!(ok.query, "query");
    assert_eq!(ok.file_path, "file.txt");
    assert!(ok.ignore_case);
    match Args::build(vec![String::from("prog")], false) {
        Err(e) => assert_eq!(e, "Didn't get a query string"),
        Ok(_) => panic!("one argument is not enough"),
    }
    match Args::build(vec![String::from("prog"), String::from("q")], false) {
        Err(e) => assert_eq!(e, "Didn't get a file path"),
        Ok(_) => panic!("two arguments are not enough"),
    }
}

#[test]
fn guesses_are_parsed_and_judged() {
    assert_eq!(parse_u32("  42\n"), Some(42));
    assert_eq!(parse_u32("+7"), Some(7));
    assert_eq!(parse_u32("abc"), None);
    assert_eq!(parse_u32(""), None);
    assert_eq!(parse_u32("4294967295"), Some(u32::MAX));
    assert_eq!(parse_u32("4294967296"), None);
    assert_eq!(game_step("50\n", 50), GameStep::Correct);
    assert_eq!(game_step("49", 50), GameStep::TooSmall);
    assert_eq!(game_step("51", 50), GameStep::TooBig);
    assert_eq!(game_step("fifty", 50), GameStep::Invalid);
}

#[test]
fn secrets_stay_in_range() {
    for _ in 0..100 {
        let s = secret_number();
        assert!((1..=100).contains(&s));
    }
}

#[test]
fn sorting_orders_and_keeps_elements() {
    let mut v = vec![5, 1, 4, 2, 8, 2];
    bubble_sort(&mut v);
    assert_eq!(v, vec![1, 2, 2, 4, 5, 8]);
    let mut empty: Vec<i32> = vec![];
    bubble_sort(&mut empty);
    assert!(empty.is_empty());
}

#[test]
fn last_chars_of_first_lines() {
    assert_eq!(last_char_of_first_line("Hello, world\nHow are you?"), Some('d'));
    assert_eq!(last_char_of_first_line(""), None);
    assert_eq!(last_char_of_first_line("\nhi"), None);
    assert_eq!(last_char_of_first_line("ab\r\ncd"), Some('b'));
    assert_eq!(last_char_of_first_line("no newline"), Some('e'));
}

#[test]
fn first_words() {
    assert_eq!(first_word("hello world"), "hello");
    assert_eq!(first_word("single"), "single");
    assert_eq!(first_word(" leading"), "");
    assert_eq!(_first_word("two words"), "two");
}

#[test]
fn longest_strings() {
    assert_eq!(longest("long string is long", "short"), "long string is long");
    assert_eq!(longest("a", "bc"), "bc");
    assert_eq!(longest_one("first", "second"), "first");
    let i = Import { part: "Call me Ishmael" };
    assert_eq!(i.level(), 3);
    assert_eq!(i.announce_and_return_part("ahoy"), "Call me Ishmael");
}

#[test]
fn owned_strings_move_and_return() {
    let (s, len) = calculate_length(String::from("hello"));
    assert_eq!(s, "hello");
    assert_eq!(len, 5);
    assert_eq!(gives_ownership(), "yours");
    assert_eq!(takes_and_gives_back(String::from("echo")), "echo");
    let mut hello = String::from("hello");
    change(&mut hello);
    assert_eq!(hello, "hello world");
    assert_eq!(borrowed_length(&hello), 11);
}

#[test]
fn requests_are_routed() {
    assert_eq!(route("GET / HTTP/1.1"), Route::Hello);
    assert_eq!(route("GET /sleep HTTP/1.1"), Route::SleepThenHello);
    assert_eq!(route("GET /missing HTTP/1.1"), Route::NotFound);
    assert_eq!(status_line(&Route::Hello), "HTTP/1.1 200 OK");
    assert_eq!(status_line(&Route::NotFound), "HTTP/1.1 404 NOT FOUND");
    assert!(eq_str("abc", "abc"));
    assert!(!eq_str("abc", "abd"));
    assert!(!eq_str("abc", "ab"));
}

#[test]
fn decimal_rendering() {
    assert_eq!(u32_to_string(0), "0");
    assert_eq!(u32_to_string(7), "7");
    assert_eq!(u32_to_string(1234), "1234");
    assert_eq!(u32_to_string(u32::MAX), "4294967295");
}
