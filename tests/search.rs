use minigrep::search::{contains_query, search, search_case_insensitive};
use minigrep::split_lines;
use minigrep::text::{first_word, first_word_through_slice, last_char_of_first_line};
use minigrep::Config;

#[test]
fn case_sensitive() {
    let query = "duct";
    let contents = "\
Rust:
safe, fast, productive.
Pick three.
        ";

    assert_eq!(vec!["safe, fast, productive."], search(query, contents));
}

#[test]
fn case_insensitive() {
    let query = "rUsT";
    let contents = "\
Rust:
safe, fast, productive.
Pick three.
Trust me.";

    assert_eq!(
        vec!["Rust:", "Trust me."],
        search_case_insensitive(query, contents)
    );
}

#[test]
fn empty_query_returns_every_line() {
    let contents = "one\n\ntwo\r\nthree";
    assert_eq!(vec!["one", "", "two", "three"], search("", contents));
}

#[test]
fn empty_contents_match_nothing() {
    assert!(search("x", "").is_empty());
    assert!(search("", "").is_empty());
    assert!(search_case_insensitive("X", "").is_empty());
}

#[test]
fn search_is_case_sensitive() {
    assert!(search("RUST", "rust\n").is_empty());
    assert_eq!(vec!["rust"], search_case_insensitive("RUST", "rust\n"));
}

#[test]
fn search_twice_gives_same_lines() {
    let contents = "alpha\nbeta\nalphabet\n";
    let first = search("alpha", contents);
    let second = search("alpha", contents);
    assert_eq!(first, second);
    assert_eq!(vec!["alpha", "alphabet"], first);
}

#[test]
fn a_line_appears_once_however_often_it_matches() {
    assert_eq!(vec!["aaaa", "xa"], search("a", "aaaa\nbbb\nxa"));
}

#[test]
fn results_point_into_contents() {
    let contents = String::from("first\nsecond\n");
    let found = search("sec", &contents);
    assert_eq!(1, found.len());
    let base = contents.as_ptr() as usize;
    assert_eq!(base + 6, found[0].as_ptr() as usize);
}

#[test]
fn lines_split_on_newline_and_crlf() {
    assert_eq!(vec!["a", "b", "", "c"], split_lines("a\r\nb\n\nc\n"));
    assert_eq!(vec!["x\r"], split_lines("x\r"));
    assert_eq!(vec![""], split_lines("\n"));
    assert!(split_lines("").is_empty());
}

#[test]
fn contains_query_exact_runs() {
    assert!(contains_query("productive", "duct"));
    assert!(contains_query("abc", ""));
    assert!(!contains_query("", "a"));
    assert!(!contains_query("Rust", "rust"));
    assert!(!contains_query("ab", "abc"));
}

#[test]
fn case_insensitive_returns_unfolded_lines() {
    let contents = "HELLO World\nnothing\nhello";
    assert_eq!(vec!["HELLO World", "hello"], search_case_insensitive("Hello", contents));
}

#[test]
fn last_char_of_first_line_cases() {
    assert_eq!(Some('o'), last_char_of_first_line("hello\nworld"));
    assert_eq!(None, last_char_of_first_line(""));
    assert_eq!(None, last_char_of_first_line("\nabc"));
    assert_eq!(Some('д'), last_char_of_first_line("Зд\r\nx"));
}

#[test]
fn first_word_byte_index() {
    assert_eq!(5, first_word(&String::from("hello world")));
    assert_eq!(5, first_word(&String::from("hello")));
    assert_eq!(4, first_word(&String::from("Зд рр")));
    assert_eq!(0, first_word(&String::from(" lead")));
}

#[test]
fn first_word_slice() {
    assert_eq!("hello", first_word_through_slice(&String::from("hello world")));
    assert_eq!("hello", first_word_through_slice(&String::from("hello")));
    assert_eq!("Зд", first_word_through_slice(&String::from("Зд рр")));
    assert_eq!("", first_word_through_slice(&String::from("")));
}

#[test]
fn config_needs_three_arguments() {
    let args = vec![String::from("prog"), String::from("query")];
    assert_eq!(Err("not enough arguments"), Config::new(&args, false).map(|_| ()));
}

#[test]
fn config_takes_query_and_file() {
    let args = vec![
        String::from("prog"),
        String::from("query"),
        String::from("poem.txt"),
        String::from("extra"),
    ];
    let config = Config::new(&args, true).ok().unwrap();
    assert_eq!("query", config.search_string);
    assert_eq!("poem.txt", config.filename);
    assert!(config.ignore_case);
}

#[test]
fn config_render_text() {
    let config = Config {
        search_string: String::from("to"),
        filename: String::from("poem.txt"),
        ignore_case: false,
    };
    let rule = "================================================================\n";
    let expected = format!(
        "{rule}search_string: to\nfilename: poem.txt\nignore_case: false\n{rule}"
    );
    assert_eq!(expected, config.render());
}

#[test]
fn config_search_in_follows_ignore_case() {
    let contents = "To be\nor not to be";
    let mut config = Config {
        search_string: String::from("to"),
        filename: String::from("poem.txt"),
        ignore_case: false,
    };
    assert_eq!(vec!["or not to be"], config.search_in(contents));
    config.ignore_case = true;
    assert_eq!(vec!["To be", "or not to be"], config.search_in(contents));
}
