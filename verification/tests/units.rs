use std::cell::RefCell;

use exercises::advanced::{add_one, do_twice, returns_closure, Dog};
use exercises::back_house;
use exercises::blog::{Post, State};
use exercises::blog_typed::PostRust;
use exercises::generics::{char_max, largest, max_one, Po, Point};
use exercises::gui::{Button, Component, Draw, Screen, Screen_Two, SelectBox};
use exercises::inventory::{shoe_in_size, Inventory, Shoe, ShirtColor};
use exercises::limits::{LimitTracker, Messenger};
use exercises::matching::{plus_one as option_plus_one, value_in_cents, Coin, UsState};
use exercises::numbers::{fibonacci, five, plus_one};
use exercises::restaurant;
use exercises::samples::{add, add_two, add_two2, greeting, internal_adder, Guess, Rectangle};
use exercises::shapes;
use exercises::smart::{List, MyBox};
use exercises::standard::{factorial, is_even, nobody, process_data, process_data2, sq_then_to_string, vikings, Alternate, Viking};
use exercises::summaries::{returns_summarizable, Pair, Summary, Tweet};

#[test]
fn internal() {
    assert_eq!(4, internal_adder(2, 2));
}

#[test]
fn greeting_contains_name() {
    let result = greeting("Carol");
    assert!(
        result.contains("H"),
        "Greeting did not contain name, value was '{}':",
        result
    );
}

#[test]
fn it_works() -> Result<(), String> {
    if 2 + 2 == 4 {
        Ok(())
    } else {
        Err(String::from("two plus two does not equal four"))
    }
}

#[test]
fn it_add_two() {
    assert_eq!(add_two(3), 5);
}

#[test]
fn exploration() {
    let result = add(2, 2);
    assert_eq!(4, result);
}

#[test]
fn another() {}

#[test]
fn larger_can_hold_smaller() {
    let larger = Rectangle { width: 8, heigth: 7 };

    let smaller = Rectangle { width: 5, heigth: 1 };

    assert!(larger.can_hold(&smaller));
    assert!(!smaller.can_hold(&larger));
}

struct MockMessenger {
    sent_messages: RefCell<Vec<String>>,
}

impl MockMessenger {
    fn new() -> MockMessenger {
        MockMessenger { sent_messages: RefCell::new(vec![]) }
    }
}

impl Messenger for MockMessenger {
    fn send(&self, msg: &str) {
        self.sent_messages.borrow_mut().push(String::from(msg));
    }
}

#[test]
fn it_sends_an_over_75_percent_warning_message() {
    let mock_messenger = MockMessenger::new();
    let mut limit_tracker = LimitTracker::new(&mock_messenger, 100);

    limit_tracker.set_value(80);

    assert_eq!(mock_messenger.sent_messages.borrow().len(), 1);
}

#[test]
fn tracker_thresholds() {
    let mock = MockMessenger::new();
    let mut tracker = LimitTracker::new(&mock, 100);
    tracker.set_value(50);
    assert_eq!(mock.sent_messages.borrow().len(), 0);
    tracker.set_value(90);
    assert!(mock.sent_messages.borrow().last().unwrap().contains("90%"));
    tracker.set_value(100);
    assert!(mock.sent_messages.borrow().last().unwrap().contains("over your quota"));
    assert_eq!(mock.sent_messages.borrow().len(), 2);
}

#[test]
fn guess_round_trip() {
    let g = Guess::new(42);
    assert_eq!(g.value(), 42);
    assert_eq!(add_two2(40), 42);
}

#[test]
fn fibonacci_values() {
    assert_eq!(fibonacci(0), 1);
    assert_eq!(fibonacci(1), 1);
    assert_eq!(fibonacci(2), 0);
    assert_eq!(fibonacci(3), 2);
    assert_eq!(fibonacci(10), 55);
}

#[test]
fn numbers_helpers() {
    assert_eq!(plus_one(41), 42);
    assert_eq!(five(), 5);
}

#[test]
fn factorial_values() {
    assert_eq!(factorial(0), 1);
    assert_eq!(factorial(5), 120);
    assert_eq!(factorial(12), 479001600);
}

#[test]
fn option_helpers() {
    assert_eq!(nobody(), None);
    assert_eq!(vikings(), Some("vikings"));
    assert!(is_even(&4));
    assert!(!is_even(&7));
    assert!(is_even(&-2));
}

#[test]
fn squares_rendered_in_decimal() {
    assert_eq!(sq_then_to_string(4), Some(String::from("16")));
    assert_eq!(sq_then_to_string(65535), Some(String::from("4294836225")));
    assert_eq!(sq_then_to_string(4_000_000_000), None);
}

#[test]
fn viking_and_alternate() {
    let v = Viking::new("Einar", "Norway");
    assert_eq!(v.name, "Einar");
    assert_eq!(v.country, "Norway");
    let mut a = Alternate { state: 0 };
    assert_eq!(a.next(), Some(0));
    assert_eq!(a.next(), None);
    assert_eq!(a.next(), Some(2));
    assert_eq!(a.state, 3);
}

#[test]
fn coins_and_options() {
    assert_eq!(value_in_cents(Coin::Penny), 1);
    assert_eq!(value_in_cents(Coin::Nickel), 5);
    assert_eq!(value_in_cents(Coin::Dime), 10);
    assert_eq!(value_in_cents(Coin::Quarter(UsState::Alaska)), 25);
    assert_eq!(option_plus_one(Some(5)), Some(6));
    assert_eq!(option_plus_one(None), None);
}

#[test]
fn blog_state_pattern() {
    let mut post = Post::new();
    post.add_text("I ate a salad for lunch today");
    assert_eq!(post.content(), "");
    post.request_review();
    assert_eq!(post.content(), "");
    post.add_text(" (ignored)");
    post.approve();
    assert_eq!(post.content(), "");
    post.approve();
    assert_eq!(post.content(), "I ate a salad for lunch today");
    assert!(!post.can_add_text());
}

#[test]
fn blog_reject_goes_back_to_draft() {
    let mut post = Post::new();
    post.add_text("draft");
    post.request_review();
    post.reject();
    assert!(post.can_add_text());
    post.add_text(" more");
    post.request_review();
    post.approve();
    post.approve();
    assert_eq!(post.content(), "draft more");
    let _ = State::Draft;
}

#[test]
fn blog_typed_workflow() {
    let mut post = PostRust::new();
    post.add_text("I ate a salad for lunch today");
    let post = post.request_review();
    let post = post.approve();
    assert_eq!(post.content(), "I ate a salad for lunch today");
}

#[test]
fn rectangles_and_areas() {
    let r = shapes::Rectangle { width: 20, height: 40 };
    assert_eq!(r.area_method(), 800);
    assert_eq!(r.width(), 20);
    assert_eq!(r.height(), 40);
    assert_eq!(shapes::area(30, 50), 1500);
    assert_eq!(shapes::area_struct(&r), 800);
    let s = shapes::Rectangle::square(10);
    assert!(r.can_hold(&shapes::Rectangle { width: 10, height: 40 }) == false);
    assert!(r.can_hold(&s));
}

#[test]
fn users_and_persons() {
    let u = shapes::User::new();
    assert!(!u.active);
    assert_eq!(u.sign_in_count, 0);
    assert_eq!(u.username, "");
    let p = shapes::Person::new("shiina", "shiina@example.com");
    assert!(p.active);
    assert_eq!(p.username, "shiina");
    assert_eq!(p.email, "shiina@example.com");
}

#[test]
fn largest_of_lists() {
    let number_list = vec![34, 50, 25, 100, 65];
    assert_eq!(*largest(&number_list), 100);
    let number_list = vec![102, 34, 6000, 89, 54, 2, 43, 8];
    assert_eq!(*largest(&number_list), 6000);
    let char_list = vec!['y', 'm', 'a', 'q', 'z'];
    assert_eq!(*char_max(&char_list), 'z');
    assert_eq!(*max_one(&[34, 50, 25, 100, 65]), 100);
    assert_eq!(*max_one(&['y', 'm', 'a', 'q']), 'y');
}

#[test]
fn points_mix_and_match() {
    let p = Point::new(10, 20);
    assert_eq!(*p.x(), 10);
    assert_eq!(*p.y(), 20);
    let p1 = Po { x: 5, y: 10 };
    let p2 = Po { x: "hello", y: 'c' };
    let p3 = p1.mixup(p2);
    assert_eq!(p3.x, 5);
    assert_eq!(p3.y, 'c');
}

#[test]
fn shirts_and_shoes() {
    let inventory = Inventory {
        shirts: vec![ShirtColor::Blue, ShirtColor::Red, ShirtColor::Blue],
    };
    assert_eq!(inventory.giveaway(Some(ShirtColor::Red)), ShirtColor::Red);
    assert_eq!(inventory.giveaway(None), ShirtColor::Blue);
    let red_heavy = Inventory {
        shirts: vec![ShirtColor::Red, ShirtColor::Red, ShirtColor::Blue],
    };
    assert_eq!(red_heavy.most_stocked(), ShirtColor::Red);

    let shoes = vec![
        Shoe { size: 10, style: String::from("sneaker") },
        Shoe { size: 13, style: String::from("sandal") },
        Shoe { size: 10, style: String::from("boot") },
    ];
    let in_my_size = shoe_in_size(shoes, 10);
    assert_eq!(
        in_my_size,
        vec![
            Shoe { size: 10, style: String::from("sneaker") },
            Shoe { size: 10, style: String::from("boot") },
        ]
    );
}

#[test]
fn summaries_render_exactly() {
    let tweet = returns_summarizable();
    assert_eq!(
        tweet.summarize(),
        "horse_ebooks: of course, as you probably already know, people"
    );
    assert_eq!(tweet.summarize_author(), "@horse_ebooks");
    let article = exercises::summaries::NewsArticle {
        headline: String::from("Penguins win the Stanley Cup Championship!"),
        location: String::from("Pittsburgh, PA, USA"),
        author: String::from("Iceburgh"),
        content: String::from("The Pittsburgh Penguins once again are the best hockey team in the NHL."),
    };
    assert_eq!(
        article.summarize(),
        "Penguins win the Stanley Cup Championship!, by Iceburgh (Pittsburgh, PA, USA)"
    );
    let pair = Pair::new(1, 2);
    assert_eq!(pair.x, 1);
    assert_eq!(pair.y, 2);
    let tw: Tweet = returns_summarizable();
    assert!(!tw.reply && !tw.retweet);
}

#[test]
fn screens_draw_components_in_order() {
    let screen = Screen {
        components: vec![
            Component::Button(Button { width: 50, height: 10, label: String::from("Ok") }),
            Component::SelectBox(SelectBox {
                width: 75,
                height: 10,
                options: vec![String::from("Yes"), String::from("Maybe"), String::from("No")],
            }),
        ],
    };
    let drawings = screen.run();
    assert_eq!(drawings.len(), 2);
    assert_eq!(drawings[0].width, 50);
    assert_eq!(drawings[0].text, vec![String::from("Ok")]);
    assert_eq!(drawings[1].height, 10);
    assert_eq!(drawings[1].text.len(), 3);

    let uniform = Screen_Two {
        components: vec![
            Button { width: 1, height: 2, label: String::from("a") },
            Button { width: 3, height: 4, label: String::from("b") },
        ],
    };
    let drawings = uniform.run();
    assert_eq!(drawings[1].width, 3);
    assert_eq!(drawings[1].text, vec![String::from("b")]);
    let direct = Button { width: 9, height: 9, label: String::from("x") }.draw();
    assert_eq!(direct.text, vec![String::from("x")]);
}

#[test]
fn summaries_through_the_trait() {
    let tweet = returns_summarizable();
    assert_eq!(tweet.default_impl(), "(Read more from @horse_ebooks...)");
    assert_eq!(
        exercises::summaries::notify(&tweet),
        "Breaking news! horse_ebooks: of course, as you probably already know, people"
    );
}

#[test]
fn data_is_doubled_and_shifted() {
    assert_eq!(process_data(&[1, 2, 3]), vec![7, 9, 11]);
    assert_eq!(process_data2(&[0, 10]), vec![5, 25]);
    assert_eq!(process_data(&[]), Vec::<u32>::new());
}

#[test]
fn iterator_walkthroughs_run() {
    exercises::inventory::iterator_sum();
    exercises::inventory::iterator_demonstration();
    exercises::advanced::generic("anything");
}

#[test]
fn functions_as_values() {
    assert_eq!(do_twice(add_one, 5), 12);
    let f = returns_closure();
    assert_eq!(f(5), 6);
    assert_eq!(Dog::baby_name(), "Spot");
}

#[test]
fn boxes_and_lists() {
    let b = MyBox::new(5);
    assert_eq!(b.0, 5);
    let list: List<i32> = List::Cons(1, Box::new(List::Cons(2, Box::new(List::Nil))));
    match list.tail() {
        Some(List::Cons(v, _)) => assert_eq!(*v, 2),
        _ => panic!("tail of a two-element list starts with its second element"),
    }
    let nil: List<i32> = List::Nil;
    assert!(nil.tail().is_none());
}

#[test]
fn restaurant_breakfasts() {
    let meal = restaurant::Breakfase::summer("Rye");
    assert_eq!(meal.toast, "Rye");
    let mut meal = meal;
    meal.toast = String::from("Wheat");
    assert_eq!(meal.toast, "Wheat");
    let kitchen_meal = back_house::Breakfase::summer("Sourdough");
    assert_eq!(kitchen_meal.toast, "Sourdough");
    restaurant::add_to_waitlist();
    restaurant::fix_incorrect_order();
    back_house::fix_incorrect_order();
    let _order1 = restaurant::Appetizer::Soup;
    let _order2 = back_house::Appetizer::Salad;
}
