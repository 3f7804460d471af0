use rust_code_examples::basics::compound_types::{
    array_type, build_user, enum_type, plus_one, praise, string_slice_type, struct_type,
};
use rust_code_examples::text::{decimal_u8, digit_char};

#[test]
fn the_string_tour_changes_strings_as_the_standard_library_does() {
    let shown = string_slice_type();
    assert_eq!(shown.greeting, "hello,world!");
    assert_eq!(shown.pushed_str, "Hello rust");
    assert_eq!(shown.pushed, "Hello rust!");
    assert_eq!(shown.inserted, "Hello, rust!");
    assert_eq!(shown.inserted_str, "Hello, I like rust!");
    assert_eq!(shown.replaced, "I like RUST. Learning RUST is my favorite!");
    assert_eq!(shown.replaced_once, "I like RUST. Learning rust is my favorite!");
    assert_eq!(shown.replaced_range, "I like Rust!");
    assert_eq!(shown.popped, (Some('!'), Some('文')));
    assert_eq!(shown.after_pop, "rust pop 中");
    assert_eq!(shown.size, 18);
    assert_eq!(shown.after_remove, "试remove方法");
    assert_eq!(shown.truncated, "测");
    assert_eq!(shown.cleared, "");
    assert_eq!(shown.joined, "hello rust!!!!");
    assert_eq!(shown.chars, vec!['中', '国', '人']);
    assert_eq!(shown.bytes, vec![228, 184, 173, 229, 155, 189, 228, 186, 186]);
}

#[test]
fn the_string_tour_agrees_with_the_bytes_of_the_literals() {
    let shown = string_slice_type();
    assert_eq!(shown.size, "测试remove方法".len());
    assert_eq!(shown.bytes, "中国人".as_bytes());
    assert_eq!(shown.chars, "中国人".chars().collect::<Vec<char>>());
}

#[test]
fn the_struct_tour() {
    let shown = struct_type();
    assert!(shown.updated.active);
    assert_eq!(shown.updated.username, "someusername123");
    assert_eq!(shown.updated.email, "another@example.com");
    assert_eq!(shown.updated.sign_in_count, 1);
    assert_eq!((shown.black.0, shown.black.1, shown.black.2), (0, 0, 0));
    assert_eq!((shown.origin.0, shown.origin.1, shown.origin.2), (0, 0, 0));
    assert_eq!((shown.first.width, shown.first.height), (30, 50));
    assert_eq!(shown.scaled_width, 60);
    assert_eq!((shown.second.width, shown.second.height), (60, 50));
    assert_eq!(format!("{:?}", shown.first), "Rectangle { width: 30, height: 50 }");
}

#[test]
fn a_user_is_built_active_with_one_sign_in() {
    let user = build_user(String::from("a@b.c"), String::from("abc"));
    assert_eq!(user.email, "a@b.c");
    assert_eq!(user.username, "abc");
    assert!(user.active);
    assert_eq!(user.sign_in_count, 1);
}

#[test]
fn plus_one_adds_one_inside_the_option() {
    assert_eq!(plus_one(Some(5)), Some(6));
    assert_eq!(plus_one(Some(-1)), Some(0));
    assert_eq!(plus_one(Some(i32::MAX - 1)), Some(i32::MAX));
    assert_eq!(plus_one(Some(i32::MIN)), Some(i32::MIN + 1));
    assert_eq!(plus_one(None), None);
}

#[test]
fn the_enum_and_array_tours_return() {
    enum_type();
    array_type();
    assert_eq!(praise(0), "rust is good!");
    assert_eq!(praise(7), "rust is good!");
}

#[test]
fn digits_and_bytes_in_decimal() {
    assert_eq!(digit_char(0), '0');
    assert_eq!(digit_char(7), '7');
    assert_eq!(digit_char(9), '9');
    assert_eq!(decimal_u8(0), "0");
    assert_eq!(decimal_u8(9), "9");
    assert_eq!(decimal_u8(10), "10");
    assert_eq!(decimal_u8(99), "99");
    assert_eq!(decimal_u8(100), "100");
    assert_eq!(decimal_u8(205), "205");
    assert_eq!(decimal_u8(255), "255");
    for n in 0..=255u8 {
        assert_eq!(decimal_u8(n), n.to_string());
    }
}
