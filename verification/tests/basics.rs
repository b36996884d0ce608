use verified_basics::boxes::{use_cons, List};
use verified_basics::deref::{
    deref_my_box, dereference_operator, dereference_with_box, MyBox,
};
use verified_basics::enums::{
    call_route, enums, route, use_enum_with_data, IpAddr, IpAddrKind, IpAddrWithDiffTypes,
    IpAddrWithStructs, IpAddrWithTypes, IpV4Addr, IpV6Addr, Message,
};
use verified_basics::functions::{five, statement, trying_to_use_unit};
use verified_basics::lifetimes::{
    borrow_checker, dangling_ref, longest, longest_one_lifetime, static_lifetime,
    use_lifetime_struct, use_longest_with_scope, ImportantExcerpt, FULL_STOP,
};
use verified_basics::match_control_flow::{
    plus_one, use_plus_one, using_value_match, Coin, UsState,
};
use verified_basics::ownership::{
    calculate_length, change, gives_ownership, no_dangling_ref, return_values_and_scope,
    takes_and_gives_back,
};
use verified_basics::recoverable_errors::maybe_do_something;
use verified_basics::struct_example::{area, area_with_rect, area_with_tuple, Rectangle};
use verified_basics::structs;

#[test]
fn coins_in_cents() {
    assert_eq!(Coin::Penny.value_in_cents(), 1);
    assert_eq!(Coin::Nickel.value_in_cents(), 5);
    assert_eq!(Coin::Dime.value_in_cents(), 10);
    assert_eq!(Coin::Quarter(UsState::Alabama).value_in_cents(), 20);
    assert_eq!(Coin::Quarter(UsState::Alaska).value_in_cents(), 25);
}

#[test]
fn plus_one_on_some_and_none() {
    assert_eq!(plus_one(Some(5)), Some(6));
    assert_eq!(plus_one(None), None);
    assert_eq!(plus_one(Some(-1)), Some(0));
    assert_eq!(plus_one(Some(i32::MIN)), Some(i32::MIN + 1));
    assert_eq!(plus_one(Some(i32::MAX - 1)), Some(i32::MAX));
}

#[test]
fn areas() {
    assert_eq!(area(30, 50), 1500);
    assert_eq!(area_with_tuple((30, 50)), 1500);
    assert_eq!(area_with_rect(&Rectangle { width: 30, height: 50 }), 1500);
    assert_eq!(Rectangle { width: 30, height: 50 }.area(), 1500);
    assert_eq!(structs::area(30, 50), 1500);
    assert_eq!(structs::area(1, u32::MAX), u32::MAX);
    assert_eq!(area(0, u32::MAX), 0);
    assert_eq!(area(65535, 65537), u32::MAX);
}

#[test]
fn larger_can_hold_smaller() {
    let larger = Rectangle { width: 8, height: 7 };
    let smaller = Rectangle { width: 5, height: 1 };
    assert!(larger.can_hold(&smaller));
    assert!(!smaller.can_hold(&larger));
}

#[test]
fn a_rectangle_cannot_hold_one_of_the_same_width_or_height() {
    let r = Rectangle { width: 8, height: 7 };
    assert!(!r.can_hold(&Rectangle { width: 8, height: 7 }));
    assert!(!r.can_hold(&Rectangle { width: 8, height: 1 }));
    assert!(!r.can_hold(&Rectangle { width: 1, height: 7 }));
    assert!(r.can_hold(&Rectangle { width: 7, height: 6 }));
}

#[test]
fn rectangle_constructors() {
    let square = Rectangle::square(3);
    assert_eq!((square.width, square.height), (3, 3));
    let rectangle = Rectangle::with(4, 9);
    assert_eq!((rectangle.width, rectangle.height), (4, 9));
}

#[test]
fn strings_are_handed_around() {
    assert_eq!(gives_ownership(), "hello");
    assert_eq!(no_dangling_ref(), "hello");
    assert_eq!(takes_and_gives_back(String::from("mine")), "mine");
    return_values_and_scope();
}

#[test]
fn length_is_in_bytes() {
    assert_eq!(calculate_length(&String::from("hello")), 5);
    assert_eq!(calculate_length(&String::new()), 0);
    assert_eq!(calculate_length(&String::from("Здравствуйте")), 24);
}

#[test]
fn change_appends_world() {
    let mut s = String::from("hello");
    change(&mut s);
    assert_eq!(s, "hello, world");
    change(&mut s);
    assert_eq!(s, "hello, world, world");
    let mut empty = String::new();
    change(&mut empty);
    assert_eq!(empty, ", world");
}

#[test]
fn longest_of_two() {
    assert_eq!(longest("abcd", "xyz"), "abcd");
    assert_eq!(longest("xyz", "abcd"), "abcd");
    assert_eq!(longest("long string is long", "xyz"), "long string is long");
}

#[test]
fn longest_of_two_equally_long_is_the_second() {
    assert_eq!(longest("abc", "xyz"), "xyz");
    assert_eq!(longest("", ""), "");
}

#[test]
fn longest_goes_by_bytes() {
    assert_eq!(longest("éé", "abc"), "éé");
}

#[test]
fn longest_one_lifetime_is_the_first() {
    assert_eq!(longest_one_lifetime("first", "the second, longer one"), "first");
}

#[test]
fn excerpt_level_is_three() {
    let excerpt = ImportantExcerpt { part: "Call me Ishmael" };
    assert_eq!(excerpt.level(), 3);
    assert_eq!(excerpt.part, "Call me Ishmael");
    assert_eq!(FULL_STOP, b'.');
}

#[test]
fn maybe_do_something_answers_or_complains() {
    assert_eq!(maybe_do_something(true), Ok(42));
    assert_eq!(maybe_do_something(false), Err(String::from("this shit don't work")));
}

#[test]
fn five_is_five() {
    assert_eq!(five(), 5);
}

#[test]
fn my_box_holds_and_yields_its_value() {
    let boxed = MyBox::new(5);
    assert_eq!(boxed.0, 5);
    assert_eq!(*boxed, 5);
    let text = MyBox::new(String::from("Rust"));
    assert_eq!(text.len(), 4);
}

#[test]
fn list_can_be_built_by_hand() {
    let list = List::Cons(1, Box::new(List::Cons(2, Box::new(List::Nil))));
    match list {
        List::Cons(head, tail) => {
            assert_eq!(head, 1);
            assert!(matches!(*tail, List::Cons(2, _)));
        }
        List::Nil => panic!("the list has two items"),
    }
}

#[test]
fn address_types_can_be_built() {
    let home = IpAddr { kind: IpAddrKind::V4, address: String::from("127.0.0.1") };
    assert!(matches!(home.kind, IpAddrKind::V4));
    assert_eq!(home.address, "127.0.0.1");
    assert!(matches!(IpAddrWithTypes::V6(String::from("::1")), IpAddrWithTypes::V6(_)));
    assert!(matches!(
        IpAddrWithDiffTypes::V4(127, 0, 0, 1),
        IpAddrWithDiffTypes::V4(127, 0, 0, 1)
    ));
    assert!(matches!(IpAddrWithDiffTypes::V6(String::from("::1")), IpAddrWithDiffTypes::V6(_)));
    assert!(matches!(IpAddrWithStructs::V4(IpV4Addr {}), IpAddrWithStructs::V4(_)));
    assert!(matches!(IpAddrWithStructs::V6(IpV6Addr {}), IpAddrWithStructs::V6(_)));
    route(IpAddrKind::V6);
}

#[test]
fn messages_can_be_built() {
    let messages = vec![
        Message::Write(String::from("hello")),
        Message::Move { x: 0, y: 0 },
        Message::Quit,
        Message::ChangeColour(0, 0, 0),
    ];
    assert!(matches!(messages[0], Message::Write(_)));
    assert!(matches!(messages[1], Message::Move { x: 0, y: 0 }));
    assert!(matches!(messages[2], Message::Quit));
    assert!(matches!(messages[3], Message::ChangeColour(0, 0, 0)));
}

#[test]
fn walkthroughs_run_to_their_end() {
    using_value_match();
    use_plus_one();
    dangling_ref();
    borrow_checker();
    use_longest_with_scope();
    use_lifetime_struct();
    static_lifetime();
    statement();
    trying_to_use_unit();
    dereference_operator();
    dereference_with_box();
    deref_my_box();
    enums();
    call_route();
    use_enum_with_data();
    use_cons();
}
