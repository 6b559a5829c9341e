use video_search::query::{search_url, RESULTS_URL};
use video_search::text::{
    decimal_text, digit_text, prefix, slice_between, str_eq, take_before, trim_trailing_slashes,
};

#[test]
fn search_url_encodes_the_query() {
    assert_eq!(
        search_url("rust tutorial"),
        "https://www.youtube.com/results?search_query=rust%20tutorial"
    );
    assert_eq!(search_url(""), RESULTS_URL);
}

#[test]
fn unreserved_bytes_stand_for_themselves() {
    assert_eq!(
        search_url("AZaz09-._~"),
        "https://www.youtube.com/results?search_query=AZaz09-._~"
    );
}

#[test]
fn other_bytes_become_upper_case_hex() {
    assert_eq!(
        search_url("a&b=c/d?e+f"),
        "https://www.youtube.com/results?search_query=a%26b%3Dc%2Fd%3Fe%2Bf"
    );
    assert_eq!(
        search_url("é日"),
        "https://www.youtube.com/results?search_query=%C3%A9%E6%97%A5"
    );
    assert_eq!(
        search_url("\u{0}\n\u{7f}"),
        "https://www.youtube.com/results?search_query=%00%0A%7F"
    );
}

#[test]
fn strings_are_equal_when_their_characters_are() {
    assert!(str_eq("", ""));
    assert!(str_eq("abc", "abc"));
    assert!(str_eq("é日", "é日"));
    assert!(!str_eq("abc", "abd"));
    assert!(!str_eq("abc", "ab"));
    assert!(!str_eq("", "a"));
    assert!(!str_eq("e", "é"));
}

#[test]
fn slices_run_through_both_ends() {
    assert_eq!(slice_between("a{b}c", 1, 3), "{b}");
    assert_eq!(slice_between("é{ü}é", 2, 5), "{ü}");
    assert_eq!(slice_between("x", 0, 0), "x");
}

#[test]
fn prefix_cuts_at_a_byte_offset() {
    assert_eq!(prefix("héllo", 0), "");
    assert_eq!(prefix("héllo", 1), "h");
    assert_eq!(prefix("héllo", 3), "hé");
    assert_eq!(prefix("héllo", 6), "héllo");
}

#[test]
fn text_before_a_character() {
    assert_eq!(take_before("2024-05-01T10:00:00Z", b'T'), "2024-05-01");
    assert_eq!(take_before("no such letter", b'T'), "no such letter");
    assert_eq!(take_before("Tea", b'T'), "");
    assert_eq!(take_before("", b'T'), "");
    assert_eq!(take_before("éTé", b'T'), "é");
}

#[test]
fn trailing_slashes_are_cut() {
    assert_eq!(trim_trailing_slashes("https://x/y///"), "https://x/y");
    assert_eq!(trim_trailing_slashes("https://x/y"), "https://x/y");
    assert_eq!(trim_trailing_slashes("///"), "");
    assert_eq!(trim_trailing_slashes(""), "");
    assert_eq!(trim_trailing_slashes("é/"), "é");
}

#[test]
fn numbers_in_decimal() {
    assert_eq!(decimal_text(0), "0");
    assert_eq!(decimal_text(7), "7");
    assert_eq!(decimal_text(10), "10");
    assert_eq!(decimal_text(404), "404");
    assert_eq!(decimal_text(65535), "65535");
    assert_eq!(decimal_text(u64::MAX), "18446744073709551615");
    for d in 0..10u64 {
        assert_eq!(digit_text(d), d.to_string());
    }
}
