use rust_primer::complex_types::{close, complex_types, open, File};
use rust_primer::eq_partialeq::{Book, BookFormat, Pair};
use rust_primer::hash_map::fast_map_with;
use rust_primer::iterator::{shoes_in_size, Counter, Shoe};
use rust_primer::learn_deref::{MyBox, Person};
use rust_primer::lifecycle::longest;
use rust_primer::pattern_matching::{value_in_cents, Coin, Direction, UsState};
use rust_primer::tuple::calculate_length;
use rust_primer::type_conversion::{reinterpret, Foo};

#[test]
fn open_and_close_succeed_and_keep_the_name() {
    let mut f1 = File::from("f1.txt");
    assert!(open(&mut f1));
    assert_eq!(f1, "f1.txt");
    assert!(close(&mut f1));
    assert_eq!(f1, "f1.txt");
    let mut unnamed = File::new();
    assert!(open(&mut unnamed));
    assert!(close(&mut unnamed));
    assert_eq!(unnamed, "");
}

#[test]
fn complex_types_runs_to_the_end() {
    complex_types();
}

#[test]
fn each_coin_has_its_worth() {
    assert_eq!(value_in_cents(Coin::Penny), 1);
    assert_eq!(value_in_cents(Coin::Nickel), 5);
    assert_eq!(value_in_cents(Coin::Dime), 10);
    assert_eq!(value_in_cents(Coin::Quarter(UsState::Alabama)), 25);
    assert_eq!(value_in_cents(Coin::Quarter(UsState::Alaska)), 25);
}

#[test]
fn directions_are_four_distinct_values() {
    let all = [Direction::East, Direction::West, Direction::North, Direction::South];
    let mut seen = [0u8; 4];
    for d in all {
        match d {
            Direction::East => seen[0] += 1,
            Direction::West => seen[1] += 1,
            Direction::North => seen[2] += 1,
            Direction::South => seen[3] += 1,
        }
    }
    assert_eq!(seen, [1, 1, 1, 1]);
}

#[test]
fn calculate_length_counts_bytes() {
    let (s2, len) = calculate_length(String::from("hello"));
    assert_eq!(s2, "hello");
    assert_eq!(len, 5);
    let (s3, len3) = calculate_length(String::from("中国人"));
    assert_eq!(s3, "中国人");
    assert_eq!(len3, 9);
    let (s4, len4) = calculate_length(String::new());
    assert_eq!(s4, "");
    assert_eq!(len4, 0);
}

#[test]
fn longest_prefers_more_bytes_and_the_second_on_a_tie() {
    assert_eq!(longest("abcd", "xyz"), "abcd");
    assert_eq!(longest("ab", "xyz"), "xyz");
    let x = String::from("same");
    let y = String::from("size");
    assert_eq!(longest(&x, &y), "size");
    assert_eq!(longest("", ""), "");
    assert_eq!(longest("中", "ab"), "中");
}

#[test]
fn shoes_in_size_keeps_matching_shoes_in_order() {
    let shoe_vec = vec![
        Shoe { size: 1, style: String::from("shoe 1") },
        Shoe { size: 2, style: String::from("shoe 2") },
        Shoe { size: 1, style: String::from("shoe 3") },
    ];
    let kept = shoes_in_size(shoe_vec, 1);
    assert_eq!(kept.len(), 2);
    assert_eq!((kept[0].size, kept[0].style.as_str()), (1, "shoe 1"));
    assert_eq!((kept[1].size, kept[1].style.as_str()), (1, "shoe 3"));
}

#[test]
fn shoes_in_size_with_no_match_or_no_shoes() {
    let shoe_vec = vec![Shoe { size: 1, style: String::from("shoe 1") }];
    assert!(shoes_in_size(shoe_vec, 7).is_empty());
    assert!(shoes_in_size(Vec::new(), 1).is_empty());
}

#[test]
fn counter_counts_to_five_and_stops() {
    let mut counter = Counter::new();
    assert_eq!(counter.next(), Some(1));
    assert_eq!(counter.next(), Some(2));
    assert_eq!(counter.next(), Some(3));
    assert_eq!(counter.next(), Some(4));
    assert_eq!(counter.next(), Some(5));
    assert_eq!(counter.next(), None);
    assert_eq!(counter.next(), None);
}

#[test]
fn counters_zipped_multiplied_and_filtered_sum_to_eighteen() {
    let mut firsts = Counter::new();
    let mut seconds = Counter::new();
    seconds.next();
    let mut sum = 0u32;
    while let (Some(a), Some(b)) = (firsts.next(), seconds.next()) {
        if (a * b) % 3 == 0 {
            sum += a * b;
        }
    }
    assert_eq!(18, sum);
}

#[test]
fn books_are_equal_by_isbn_alone() {
    let paper = Book { isbn: 3, format: BookFormat::Paperback };
    let hard = Book { isbn: 3, format: BookFormat::Hardback };
    let other = Book { isbn: 4, format: BookFormat::Ebook };
    assert!(paper == hard);
    assert!(hard == paper);
    assert!(paper != other);
    assert!(paper == paper);
}

#[test]
fn pair_new_keeps_order() {
    let a = Pair::new(1, 2);
    assert_eq!((a.x, a.y), (1, 2));
}

#[test]
fn my_box_dereferences_to_its_content() {
    let y = MyBox::new(5);
    assert_eq!(*y, 5);
    let s = MyBox::new(String::from("hello world"));
    assert_eq!(s.len(), 11);
    assert_eq!(s.0, "hello world");
}

#[test]
fn person_new_fills_both_fields() {
    let p = Person::new(String::from("Ann"), 30);
    assert_eq!(p.name, "Ann");
    assert_eq!(p.age, 30);
}

#[test]
fn reinterpret_carries_both_fields_over() {
    let bar = reinterpret(Foo { x: 7, y: 9 });
    assert_eq!((bar.a, bar.b), (7, 9));
    let top = reinterpret(Foo { x: u32::MAX, y: u16::MAX });
    assert_eq!((top.a, top.b), (u32::MAX, u16::MAX));
}

#[test]
fn fast_map_with_holds_exactly_one_pair() {
    let map = fast_map_with(12, 34);
    assert_eq!(map.len(), 1);
    assert_eq!(map.get(&12), Some(&34));
    assert_eq!(map.get(&34), None);
}
