use rust_code_examples::basics::generics_traits::{
    add, add1, compute_buffer_size, const_fn_run, create, draw1, draw2, notify,
    returns_summarizable, trait_example, Buffer, Button, Draw, Draw_1, Member, Pair, Point,
    Point_1, Point_2, Post, SelectBox, Summary, Weibo, SIZE,
};

#[test]
fn add_works_for_any_type_with_plus() {
    assert_eq!(add(2i32, 3i32), 5);
    assert_eq!(add(-2i64, 2i64), 0);
    assert_eq!(add(200u8, 55u8), 255);
    assert_eq!(add1(7u64, 8u64), 15);
    assert_eq!(add1(i32::MIN, i32::MAX), -1);
}

#[test]
fn points_add_coordinate_by_coordinate() {
    let sum = Point_2 { x: 1i32, y: 2i32 } + Point_2 { x: 3i32, y: 4i32 };
    assert_eq!((sum.x, sum.y), (4, 6));
    let sum = add(Point_2 { x: 10u8, y: 0u8 }, Point_2 { x: 5u8, y: 255u8 });
    assert_eq!((sum.x, sum.y), (15, 255));
}

#[test]
fn mixup_takes_x_from_the_first_and_y_from_the_second() {
    let numbers = Point_1 { x: 5, y: 10 };
    let texts = Point_1 { x: "Hello", y: 'c' };
    let mixed = numbers.mixup(texts);
    assert_eq!(mixed.x, 5);
    assert_eq!(mixed.y, 'c');
}

#[test]
fn a_point_holds_two_coordinates_of_one_type() {
    let p = Point { x: 1u8, y: 2u8 };
    assert_eq!((p.x, p.y), (1, 2));
}

#[test]
fn one_hundred_converts_into_wider_integers() {
    assert_eq!(create::<i64>(), 100i64);
    assert_eq!(create::<i128>(), 100i128);
    assert_eq!(create::<i32>(), 100i32);
}

#[test]
fn four_kibibytes_are_4096_bytes() {
    assert_eq!(compute_buffer_size(4), 4096);
    assert_eq!(compute_buffer_size(0), 0);
    assert_eq!(compute_buffer_size(1), 1024);
    assert_eq!(compute_buffer_size(usize::MAX / 1024), usize::MAX - 1023);
    assert_eq!(SIZE, 4096);
    assert_eq!(const_fn_run(), 4096);
    let buffer = Buffer::<2> { data: [7, 8] };
    assert_eq!(buffer.data.len(), 2);
}

#[test]
fn a_post_and_a_weibo_summarize_themselves() {
    let (post, weibo) = trait_example();
    assert_eq!(post, "文章Rust语言简介, 作者是Sunface");
    assert_eq!(weibo, "sunface发表了微博好像微博没Tweet好用");

    let post = Post {
        title: String::from("T"),
        author: String::from("A"),
        content: String::from("ignored"),
    };
    assert_eq!(post.summarize(), "文章T, 作者是A");
    let weibo = Weibo { username: String::new(), content: String::new() };
    assert_eq!(weibo.summarize(), "发表了微博");
}

#[test]
fn notify_puts_breaking_news_in_front() {
    let weibo = Weibo { username: String::from("u"), content: String::from("c") };
    assert_eq!(notify(&weibo), "Breaking news! u发表了微博c");
    assert_eq!(
        notify(&returns_summarizable()),
        "Breaking news! sunface发表了微博m1 max太厉害了，电脑再也不会卡"
    );
    assert_eq!(
        returns_summarizable().summarize(),
        "sunface发表了微博m1 max太厉害了，电脑再也不会卡"
    );
}

#[test]
fn the_largest_member_of_a_pair() {
    assert_eq!(Pair::new(3, 2).cmp_display(), Member::X);
    assert_eq!(Pair::new(2, 3).cmp_display(), Member::Y);
    assert_eq!(Pair::new(2, 2).cmp_display(), Member::X);
    assert_eq!(Pair::new("b", "a").cmp_display(), Member::X);
    assert_eq!(Pair::new('a', 'b').cmp_display(), Member::Y);
    let pair = Pair::new(1u8, 9u8);
    assert_eq!((pair.x, pair.y), (1, 9));
}

#[test]
fn components_are_drawn_through_a_box_and_through_a_reference() {
    let button = Button { width: 1, height: 2, label: String::from("ok") };
    button.draw();
    draw2(&button);
    draw1(Box::new(button));
    let select = SelectBox { width: 1, height: 2, options: vec![String::from("a")] };
    draw2(&select);
    draw1(Box::new(select));
}

#[test]
fn a_byte_draws_itself_in_decimal() {
    assert_eq!(0u8.draw(), "u8: 0");
    assert_eq!(8u8.draw(), "u8: 8");
    assert_eq!(42u8.draw(), "u8: 42");
    assert_eq!(255u8.draw(), "u8: 255");
}
