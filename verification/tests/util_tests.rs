use ledger_core::books::Book;
use ledger_core::digits::u64_to_string;
use ledger_core::util::{
    destructure_tuple, longest_string, move_string, return_back_ownership_of_owned_string,
    return_ref_data_fix, take_mutable_ref_of_int, transfer, verify, wait, Bytes, Milliseconds,
};

#[test]
fn test_longest_string_picks_the_last_longest() {
    let strings = vec![
        String::from("still"),
        String::from("1234567"),
        String::from("Mananaf"),
        String::from("Aisha"),
    ];

    assert_eq!(longest_string(&strings), "Mananaf");
}

#[test]
fn test_move_string_hands_the_value_back() {
    let s = String::from("Hello man!");
    assert_eq!(move_string(s), "Hello man!".to_string());
}

#[test]
fn test_take_mutable_ref_of_int_doubles_in_place() {
    let mut class_number: u32 = 500;
    let doubled = take_mutable_ref_of_int(&mut class_number);
    assert_eq!(*doubled, 1000);
    assert_eq!(class_number, 1000);
}

#[test]
fn test_destructure_tuple_renders_the_summary() {
    let user_profile = (String::from("Bnk Mnf"), 32u32, false);
    assert_eq!(
        destructure_tuple(user_profile),
        "Name: Bnk Mnf\nAge: 32\nStatus: false".to_string()
    );
}

#[test]
fn test_transfer_and_wait_double_their_quantities() {
    assert_eq!(transfer(Bytes(21)), Bytes(42));
    assert_eq!(wait(Milliseconds(7)), Milliseconds(14));
}

#[test]
fn test_return_ref_data_fix_returns_the_same_reference() {
    let input = String::from("good morning!");
    assert_eq!(return_ref_data_fix(&input), &input);
}

#[test]
fn test_return_back_ownership_of_owned_string_greets() {
    assert_eq!(return_back_ownership_of_owned_string(), "good morning!".to_string());
}

#[test]
fn test_verify_compares_strictly() {
    assert!(verify(3, 2));
    assert!(!verify(2, 2));
    assert!(!verify(1, 2));
}

#[test]
fn test_u64_to_string_renders_decimal() {
    assert_eq!(u64_to_string(0), "0".to_string());
    assert_eq!(u64_to_string(7), "7".to_string());
    assert_eq!(u64_to_string(10), "10".to_string());
    assert_eq!(u64_to_string(90210), "90210".to_string());
    assert_eq!(
        u64_to_string(u64::MAX),
        "18446744073709551615".to_string()
    );
}

#[test]
fn test_book_builder_fills_defaults() {
    let things_fall_apart = Book::new("things fall apart".into(), true).build();
    assert_eq!(things_fall_apart.title, "things fall apart".to_string());
    assert_eq!(things_fall_apart.pages, 0);
    assert_eq!(things_fall_apart.publication_date, 0);
    assert!(things_fall_apart.is_available);

    let with_pages = Book::new("samankwe and the highway robbers".into(), true)
        .pages(144)
        .build();
    assert_eq!(with_pages.pages, 144);

    let rebuilt = Book::new("draft".into(), false)
        .title("final title".into())
        .publication_date(20240101)
        .is_available(true)
        .build();
    assert_eq!(rebuilt.title, "final title".to_string());
    assert_eq!(rebuilt.publication_date, 20240101);
    assert!(rebuilt.is_available);
}
