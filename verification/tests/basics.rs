use rust_code_examples::basics::basic_types::{
    bool_type, char_type, functions_type, statements_expressions_type, unit_type,
};
use rust_code_examples::basics::comments::{doc_test, panic_test};
use rust_code_examples::basics::controls::{
    condition_control_run, divisibility, loop_control_run, Divisibility,
};
use rust_code_examples::basics::methods::{impl_method, Rectangle};
use rust_code_examples::basics::pointer::{box_pointer_test, gen_static_str};
use rust_code_examples::basics::variables::{
    calculate_length, change, ex1_variable_run, ex3_unpack_run, ex4_const_run,
    ex5_variable_shadowing_run, gives_ownership, ownership_borrow, takes_and_gives_back,
    MAX_POINTS,
};

#[test]
fn the_demonstrations_without_a_result_return() {
    char_type();
    bool_type();
    unit_type();
    functions_type();
    ex3_unpack_run();
    ex4_const_run();
}

#[test]
fn the_block_of_statements_evaluates_to_eight() {
    assert_eq!(statements_expressions_type(), 8);
}

#[test]
fn doc_test_adds_one() {
    assert_eq!(doc_test(5), 6);
    assert_eq!(doc_test(-1), 0);
    assert_eq!(doc_test(i32::MIN), i32::MIN + 1);
    assert_eq!(doc_test(i32::MAX - 1), i32::MAX);
}

#[test]
fn panic_test_divides_and_rounds_towards_zero() {
    assert_eq!(panic_test(10, 2), 5);
    assert_eq!(panic_test(7, 2), 3);
    assert_eq!(panic_test(-7, 2), -3);
    assert_eq!(panic_test(7, -2), -3);
    assert_eq!(panic_test(-7, -2), 3);
    assert_eq!(panic_test(0, -5), 0);
    assert_eq!(panic_test(1, i32::MIN), 0);
    assert_eq!(panic_test(i32::MIN, 1), i32::MIN);
    assert_eq!(panic_test(i32::MIN, 2), -1073741824);
    assert_eq!(panic_test(i32::MAX, -1), -i32::MAX);
    assert_eq!(panic_test(i32::MIN, i32::MIN), 1);
}

#[test]
fn the_four_bindings_add_up_to_ninety() {
    assert_eq!(ex1_variable_run(), 90);
}

#[test]
fn the_constant_is_one_hundred_thousand() {
    assert_eq!(MAX_POINTS, 100_000);
}

#[test]
fn shadowing_gives_twelve_inside_and_six_outside() {
    let seen = ex5_variable_shadowing_run();
    assert_eq!(seen.inner, 12);
    assert_eq!(seen.outer, 6);
}

#[test]
fn ownership_moves_copies_clones_and_borrows() {
    let shown = ownership_borrow();
    assert_eq!(shown.literal, "hello, world");
    assert_eq!(shown.literal_again, "hello, world");
    assert_eq!(shown.owned, "hello");
    assert_eq!(shown.cloned, "hello");
    assert_eq!(shown.moved, "hello");
    assert_eq!(shown.copied, 5);
    assert_eq!(shown.returned, "hello");
    assert_eq!(shown.measured, "hello");
    assert_eq!(shown.length, 5);
    assert_eq!(shown.changed, "hello, world");
}

#[test]
fn the_helpers_of_the_ownership_tour() {
    assert_eq!(gives_ownership(), "hello");
    assert_eq!(takes_and_gives_back(String::from("给我")), "给我");
    assert_eq!(calculate_length(&String::from("hello")), 5);
    assert_eq!(calculate_length(&String::new()), 0);
    assert_eq!(calculate_length(&String::from("中国人")), 9);
    assert_eq!(calculate_length(&String::from("aé中😻")), 10);
    let mut s = String::from("hello");
    change(&mut s);
    assert_eq!(s, "hello, world");
    let mut s = String::new();
    change(&mut s);
    assert_eq!(s, ", world");
}

#[test]
fn the_branches_take_five_and_divisible_by_three() {
    let decided = condition_control_run();
    assert_eq!(decided.number, 5);
    assert_eq!(decided.verdict, Divisibility::ByThree);
}

#[test]
fn divisibility_takes_the_first_of_four_three_and_two() {
    assert_eq!(divisibility(0), Divisibility::ByFour);
    assert_eq!(divisibility(12), Divisibility::ByFour);
    assert_eq!(divisibility(8), Divisibility::ByFour);
    assert_eq!(divisibility(6), Divisibility::ByThree);
    assert_eq!(divisibility(9), Divisibility::ByThree);
    assert_eq!(divisibility(2), Divisibility::ByTwo);
    assert_eq!(divisibility(10), Divisibility::ByTwo);
    assert_eq!(divisibility(1), Divisibility::Indivisible);
    assert_eq!(divisibility(7), Divisibility::Indivisible);
    assert_eq!(divisibility(-4), Divisibility::ByFour);
    assert_eq!(divisibility(-9), Divisibility::ByThree);
    assert_eq!(divisibility(-2), Divisibility::ByTwo);
    assert_eq!(divisibility(-7), Divisibility::Indivisible);
    assert_eq!(divisibility(i32::MIN), Divisibility::ByFour);
    assert_eq!(divisibility(i32::MAX), Divisibility::Indivisible);
}

#[test]
fn the_loops_visit_what_they_should() {
    let visited = loop_control_run();
    assert_eq!(visited.counted, vec![1, 2, 3, 4, 5]);
    assert_eq!(visited.indexed, vec![(1, 4), (2, 3), (3, 2), (4, 1)]);
    assert_eq!(visited.skipping, vec![1, 3]);
    assert_eq!(visited.stopping, vec![1]);
    assert_eq!(visited.repeated, vec![0, 1, 2, 3, 4, 5]);
    assert_eq!(visited.doubled, 20);
}

#[test]
fn a_rectangle_of_thirty_by_fifty() {
    let seen = impl_method();
    assert_eq!(seen.area, 1500);
    assert!(seen.has_width);
    assert_eq!(seen.width, 30);
}

#[test]
fn the_methods_of_a_rectangle() {
    assert_eq!(Rectangle { width: 3, height: 4 }.area(), 12);
    assert_eq!(Rectangle { width: 0, height: 4 }.area(), 0);
    assert_eq!(Rectangle { width: 65535, height: 65537 }.area(), u32::MAX);
    assert!(Rectangle { width: 1, height: 0 }.width());
    assert!(!Rectangle { width: 0, height: 9 }.width());
}

#[test]
fn the_box_tour() {
    let seen = box_pointer_test();
    assert_eq!(seen.a, 3);
    assert_eq!(seen.b, 4);
    assert_eq!(seen.stack_len, 1000);
    assert_eq!(seen.copied_len, 1000);
    assert_eq!(seen.heap_len, 1000);
    assert_eq!(seen.leaked, "hello, world");
    assert_eq!(gen_static_str(), "hello, world");
}
