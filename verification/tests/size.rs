use favilib::size::{dimension_between, find_comma};
use favilib::text::{chars_of, contains_chars, matches_at, same_chars, starts_with};
use favilib::ImageSize;

fn chars(text: &str) -> Vec<char> {
    text.chars().collect()
}

#[test]
fn named_sizes_parse() {
    assert_eq!(ImageSize::from("small"), ImageSize::Small);
    assert_eq!(ImageSize::from("medium"), ImageSize::Medium);
    assert_eq!(ImageSize::from("large"), ImageSize::Large);
    assert_eq!(ImageSize::from("default"), ImageSize::Default);
}

#[test]
fn custom_size_parses() {
    assert_eq!(ImageSize::from("16,16"), ImageSize::Custom(16, 16));
    assert_eq!(ImageSize::from("640,480"), ImageSize::Custom(640, 480));
    assert_eq!(ImageSize::from("0,10"), ImageSize::Custom(0, 10));
    assert_eq!(ImageSize::from("+7,007"), ImageSize::Custom(7, 7));
    assert_eq!(ImageSize::from("4294967295,1"), ImageSize::Custom(4294967295, 1));
    assert_eq!(
        ImageSize::from("00000000000000000000000012,3"),
        ImageSize::Custom(12, 3)
    );
}

#[test]
fn other_texts_are_invalid() {
    assert_eq!(ImageSize::from(""), ImageSize::Invalid);
    assert_eq!(ImageSize::from("Small"), ImageSize::Invalid);
    assert_eq!(ImageSize::from("tiny"), ImageSize::Invalid);
    assert_eq!(ImageSize::from("16"), ImageSize::Invalid);
    assert_eq!(ImageSize::from("16,"), ImageSize::Invalid);
    assert_eq!(ImageSize::from(",16"), ImageSize::Invalid);
    assert_eq!(ImageSize::from(","), ImageSize::Invalid);
    assert_eq!(ImageSize::from("16,16,16"), ImageSize::Invalid);
    assert_eq!(ImageSize::from("16, 16"), ImageSize::Invalid);
    assert_eq!(ImageSize::from("16x16"), ImageSize::Invalid);
    assert_eq!(ImageSize::from("-1,16"), ImageSize::Invalid);
    assert_eq!(ImageSize::from("+,16"), ImageSize::Invalid);
    assert_eq!(ImageSize::from("++1,16"), ImageSize::Invalid);
    assert_eq!(ImageSize::from("1_0,16"), ImageSize::Invalid);
    assert_eq!(ImageSize::from("4294967296,1"), ImageSize::Invalid);
    assert_eq!(ImageSize::from("1,99999999999999999999999"), ImageSize::Invalid);
    assert_eq!(ImageSize::from("١٦,16"), ImageSize::Invalid);
}

#[test]
fn parse_agrees_with_from() {
    for text in ["small", "medium", "large", "default", "3,4", "nope", "1,2,3"] {
        assert_eq!(ImageSize::parse(text), ImageSize::from(text));
    }
}

#[test]
fn parse_agrees_with_the_integer_parser() {
    let texts = [
        "0", "1", "+1", "-1", "", "+", "00", "4294967295", "4294967296", "12a", " 1", "1 ", "+-1",
        "1+",
    ];
    for text in texts {
        let expected: Option<u32> = text.parse().ok();
        let cs = chars(text);
        assert_eq!(dimension_between(&cs, 0, cs.len()), expected, "{:?}", text);
    }
}

#[test]
fn dimension_between_reads_a_part() {
    let cs = chars("ab123,45");
    assert_eq!(dimension_between(&cs, 2, 5), Some(123));
    assert_eq!(dimension_between(&cs, 6, 8), Some(45));
    assert_eq!(dimension_between(&cs, 0, 5), None);
    assert_eq!(dimension_between(&cs, 3, 3), None);
}

#[test]
fn dimensions_of_the_sizes() {
    assert_eq!(ImageSize::Small.dimensions(), Some((16, 16)));
    assert_eq!(ImageSize::Medium.dimensions(), Some((32, 32)));
    assert_eq!(ImageSize::Large.dimensions(), Some((64, 64)));
    assert_eq!(ImageSize::Custom(5, 9).dimensions(), Some((5, 9)));
    assert_eq!(ImageSize::Default.dimensions(), None);
    assert_eq!(ImageSize::Invalid.dimensions(), None);
}

#[test]
fn find_comma_finds_the_first() {
    assert_eq!(find_comma(&chars("a,b,c")), Some(1));
    assert_eq!(find_comma(&chars(",")), Some(0));
    assert_eq!(find_comma(&chars("abc")), None);
    assert_eq!(find_comma(&chars("")), None);
}

#[test]
fn same_chars_compares_texts() {
    assert!(same_chars(&chars("small"), &chars("small")));
    assert!(same_chars(&chars(""), &chars("")));
    assert!(!same_chars(&chars("small"), &chars("smalL")));
    assert!(!same_chars(&chars("small"), &chars("smal")));
}

#[test]
fn chars_of_gives_the_characters() {
    assert_eq!(chars_of("héllo"), vec!['h', 'é', 'l', 'l', 'o']);
    assert_eq!(chars_of(""), Vec::<char>::new());
}

#[test]
fn matches_at_checks_one_position() {
    let text = chars("shortcut icon");
    assert!(matches_at(&text, &chars("icon"), 9));
    assert!(!matches_at(&text, &chars("icon"), 8));
    assert!(!matches_at(&text, &chars("icon"), 10));
    assert!(!matches_at(&text, &chars("icon"), 100));
    assert!(matches_at(&text, &chars(""), 13));
    assert!(!matches_at(&text, &chars(""), 14));
}

#[test]
fn contains_chars_searches_everywhere() {
    assert!(contains_chars(&chars("shortcut icon"), &chars("icon")));
    assert!(contains_chars(&chars("icon"), &chars("icon")));
    assert!(contains_chars(&chars("iicon"), &chars("icon")));
    assert!(contains_chars(&chars("anything"), &chars("")));
    assert!(contains_chars(&chars(""), &chars("")));
    assert!(!contains_chars(&chars("ico"), &chars("icon")));
    assert!(!contains_chars(&chars("i con"), &chars("icon")));
    assert!(!contains_chars(&chars(""), &chars("icon")));
}

#[test]
fn starts_with_checks_the_beginning() {
    assert!(starts_with("www.example.com", "www."));
    assert!(starts_with("www.", "www."));
    assert!(starts_with("anything", ""));
    assert!(!starts_with("ww.example.com", "www."));
    assert!(!starts_with("example.www.com", "www."));
    assert!(!starts_with("ww", "www."));
}
