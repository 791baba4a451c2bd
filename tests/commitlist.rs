use gitui::utils::string_width_align;

#[test]
fn test_string_width_align() {
    assert_eq!(string_width_align("123", 3), "123");
    assert_eq!(string_width_align("123", 2), "..");
    assert_eq!(string_width_align("123", 3), "123");
    assert_eq!(string_width_align("12345", 6), "12345 ");
    assert_eq!(string_width_align("1234556", 4), "12..");
}

#[test]
fn test_string_width_align_unicode() {
    assert_eq!(string_width_align("äste", 3), "ä..");
    assert_eq!(string_width_align("wüsten äste", 10), "wüsten ä..");
    assert_eq!(
        string_width_align("Jon Grythe Stødle", 19),
        "Jon Grythe Stødle  "
    );
}

#[test]
fn string_width_align_wide_characters_cut_by_columns() {
    // each of these characters takes two columns
    assert_eq!(string_width_align("你好吗", 5), "你..");
    // padding counts characters, not columns
    assert_eq!(string_width_align("你好吗", 6), "你好吗   ");
}
