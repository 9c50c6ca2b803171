use minigrep::arith::{add_one, add_two, greeting};
use minigrep::art::{choose_blue, choose_orange, mix, PrimaryColor, SecondaryColor};
use minigrep::inventory::{Inventory, ShirtColor};
use minigrep::largest::{generic_largest, largest};
use minigrep::rectangle::Rectangle;
use minigrep::remote::post;
use minigrep::summary::{returns_summary, NewsArticle, Summary, Tweet};

#[test]
fn larger_can_hold_smaller() {
    let larger = Rectangle { width: 8, height: 7 };
    let smaller = Rectangle { width: 5, height: 1 };
    assert_eq!(larger.can_hold(&smaller), true);
}

#[test]
fn smaller_cannot_hold_larger() {
    let larger = Rectangle {
        width: 8,
        height: 7,
    };
    let smaller = Rectangle {
        width: 5,
        height: 1,
    };

    assert!(!smaller.can_hold(&larger));
}

#[test]
fn it_adds_two() {
    let result = add_two(2);
    assert_eq!(result, 4);
}

#[test]
fn greeting_contains_name() {
    let name = "Carol";
    let result = greeting(name);
    assert!(result.contains("Carol"),
    "Greeting did not contain name `{}`, result was `{}`", name, result);
}

#[test]
fn test_result() -> Result<(), String> {
    let ret = add_two(100);
    if ret == 102 {
        Ok(())
    } else {
        Err("should never get here".into())
    }
}

#[test]
fn greeting_text() {
    assert_eq!("Hello Carol", greeting("Carol"));
    assert_eq!("Hello ", greeting(""));
}

#[test]
fn add_one_and_two() {
    assert_eq!(6, add_one(5));
    assert_eq!(-1, add_two(-3));
}

#[test]
fn rectangle_area_and_equal_sides() {
    let r = Rectangle::new(30, 50);
    assert_eq!(30, r.width);
    assert_eq!(50, r.height);
    assert_eq!(1500, r.area());
    assert!(!r.can_hold(&Rectangle::new(30, 20)));
    assert!(r.can_hold(&Rectangle::new(29, 49)));
}

#[test]
fn largest_of_numbers() {
    let arr = [3, 45, 1, 5, 2, 6, 123, 4123, 4, 7, 5, 63];
    assert_eq!(Some(&4123), largest(&arr));
    assert_eq!(Some(&4123), generic_largest(&arr));
    let empty: [i32; 0] = [];
    assert_eq!(None, largest(&empty));
    assert_eq!(None, generic_largest(&empty));
    assert_eq!(Some(&-2), largest(&[-5, -2, -9]));
    assert_eq!(Some(&'z'), generic_largest(&['q', 'z', 'a']));
}

#[test]
fn colours() {
    assert_eq!(SecondaryColor::Orange, mix(PrimaryColor::Red, PrimaryColor::Yellow));
    assert_eq!(SecondaryColor::Orange, mix(PrimaryColor::Blue, PrimaryColor::Blue));
    assert_eq!(PrimaryColor::Blue, choose_blue());
    assert_eq!(SecondaryColor::Orange, choose_orange());
}

#[test]
fn post_succeeds() {
    assert!(post(&String::from("127.0.0.1:8080/index")).is_ok());
}

#[test]
fn summaries() {
    let tweet = returns_summary();
    assert_eq!("horse_ebooks: of course, as you probably already know, people", tweet.summarize());
    assert_eq!("@horse_ebooks", tweet.summarize_author());
    assert!(!tweet.reply && !tweet.retweet);
    let article = NewsArticle {
        headline: String::from("Penguins win the Stanley Cup Championship!"),
        location: String::from("Pittsburgh, PA, USA"),
        author: String::from("Iceburgh"),
        content: String::from("The Pittsburgh Penguins once again are the best hockey team in the NHL."),
    };
    assert_eq!(
        "Penguins win the Stanley Cup Championship!, by Iceburgh (Pittsburgh, PA, USA)",
        article.summarize()
    );
    assert_eq!("@Iceburgh", article.summarize_author());
    let other = Tweet {
        username: String::from("a"),
        content: String::from("b"),
        reply: true,
        retweet: false,
    };
    assert_eq!("a: b", other.summarize());
}

#[test]
fn inventory_giveaway() {
    let store = Inventory {
        shirts: vec![ShirtColor::Blue, ShirtColor::Red, ShirtColor::Blue],
    };
    assert_eq!(ShirtColor::Red, store.giveaway(Some(ShirtColor::Red)));
    assert_eq!(ShirtColor::Blue, store.giveaway(None));
    let reds = Inventory {
        shirts: vec![ShirtColor::Red, ShirtColor::Red, ShirtColor::Blue],
    };
    assert_eq!(ShirtColor::Red, reds.most_stocked());
    let tie = Inventory {
        shirts: vec![ShirtColor::Red, ShirtColor::Blue],
    };
    assert_eq!(ShirtColor::Blue, tie.most_stocked());
    let empty = Inventory { shirts: vec![] };
    assert_eq!(ShirtColor::Blue, empty.giveaway(None));
}
