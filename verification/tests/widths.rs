use padded_column::{
    ForbidExcess, IgnoreExcess, PadDirection, PadError, PaddedItem, Render, Whole, Width,
};

#[test]
fn width_of_text_is_its_number_of_characters() {
    assert_eq!("".width(), 0);
    assert_eq!("abcdef".width(), 6);
    assert_eq!("héllo".width(), 5);
    assert_eq!(String::from("grüße").width(), 5);
    assert_eq!('x'.width(), 1);
    assert_eq!('€'.width(), 1);
    assert_eq!(Whole("abc").width(), 3);
}

#[test]
fn values_write_themselves() {
    let mut sink = String::from(">");
    "ab".write_to(&mut sink);
    'c'.write_to(&mut sink);
    String::from("de").write_to(&mut sink);
    Whole('f').write_to(&mut sink);
    assert_eq!(sink, ">abcdef");
}

#[test]
fn values_write_their_leading_columns() {
    let mut sink = String::new();
    assert!("abcdef".write_truncated(2, &mut sink));
    assert_eq!(sink, "ab");
    assert!("xy".write_truncated(5, &mut sink));
    assert_eq!(sink, "abxy");
    assert!(String::from("héllo").write_truncated(2, &mut sink));
    assert_eq!(sink, "abxyhé");
    assert!('z'.write_truncated(0, &mut sink));
    assert_eq!(sink, "abxyhé");
    assert!('z'.write_truncated(1, &mut sink));
    assert_eq!(sink, "abxyhéz");
    assert!(!Whole("abc").write_truncated(2, &mut sink));
    assert_eq!(sink, "abxyhéz");
}

#[test]
fn owned_text_is_padded() {
    let item = PaddedItem {
        value: String::from("abc"),
        pad_block: ' ',
        total_width: 6,
        pad_direction: PadDirection::Right,
        handle_excess: ForbidExcess,
    };
    assert_eq!(item.render(), Ok("abc   ".to_string()));
}

#[test]
fn character_is_padded() {
    let item = PaddedItem {
        value: 'x',
        pad_block: '0',
        total_width: 4,
        pad_direction: PadDirection::Left,
        handle_excess: ForbidExcess,
    };
    assert_eq!(item.render(), Ok("000x".to_string()));
}

#[test]
fn wide_characters_count_once() {
    let item = PaddedItem {
        value: "héllo",
        pad_block: '·',
        total_width: 8,
        pad_direction: PadDirection::Left,
        handle_excess: ForbidExcess,
    };
    assert_eq!(item.render(), Ok("···héllo".to_string()));
}

#[test]
fn pad_block_of_two_columns_overshoots() {
    let item = PaddedItem {
        value: "x",
        pad_block: "ab",
        total_width: 4,
        pad_direction: PadDirection::Left,
        handle_excess: ForbidExcess,
    };
    assert_eq!(item.render(), Ok("abababx".to_string()));
}

#[test]
fn empty_pad_block_adds_nothing() {
    let item = PaddedItem {
        value: "x",
        pad_block: "",
        total_width: 4,
        pad_direction: PadDirection::Right,
        handle_excess: ForbidExcess,
    };
    assert_eq!(item.render(), Ok("x".to_string()));
}

#[test]
fn empty_value_is_all_pad() {
    let item = PaddedItem {
        value: "",
        pad_block: '#',
        total_width: 3,
        pad_direction: PadDirection::Right,
        handle_excess: ForbidExcess,
    };
    assert_eq!(item.render(), Ok("###".to_string()));
}

#[test]
fn zero_width_takes_only_the_empty_value() {
    let empty = PaddedItem {
        value: "",
        pad_block: '#',
        total_width: 0,
        pad_direction: PadDirection::Left,
        handle_excess: ForbidExcess,
    };
    assert_eq!(empty.render(), Ok(String::new()));
    let full = PaddedItem {
        value: "a",
        pad_block: '#',
        total_width: 0,
        pad_direction: PadDirection::Left,
        handle_excess: ForbidExcess,
    };
    assert_eq!(full.render(), Err(PadError::Excess));
}

#[test]
fn long_pad_is_written_in_full() {
    let item = PaddedItem {
        value: "end",
        pad_block: '-',
        total_width: 10_000,
        pad_direction: PadDirection::Left,
        handle_excess: IgnoreExcess,
    };
    let text = item.render().unwrap();
    assert_eq!(text.len(), 10_000);
    assert!(text.ends_with("end"));
    assert!(text[..9_997].chars().all(|c| c == '-'));
}
