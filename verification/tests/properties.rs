use padded_column::{
    ForbidExcess, IgnoreExcess, PadDirection, PadError, PaddedItem, PaddedValue, Width,
};

const VALUES: [&str; 6] = ["", "a", "abc", "abcdef", "héllo wörld", "0123456789"];

#[test]
fn padded_text_is_as_wide_as_asked() {
    for value in VALUES {
        for extra in 0..5usize {
            let total_width = value.width() + extra;
            for pad_direction in [PadDirection::Left, PadDirection::Right] {
                let item = PaddedItem {
                    value,
                    pad_block: '.',
                    total_width,
                    pad_direction,
                    handle_excess: ForbidExcess,
                };
                let text = item.render().unwrap();
                assert_eq!(text.as_str().width(), total_width);
                assert_eq!(text.chars().count(), total_width);
            }
        }
    }
}

#[test]
fn left_pad_is_fill_then_value() {
    for value in VALUES {
        for extra in 0..5usize {
            let item = PaddedItem {
                value,
                pad_block: '*',
                total_width: value.width() + extra,
                pad_direction: PadDirection::Left,
                handle_excess: ForbidExcess,
            };
            let expected = format!("{}{}", "*".repeat(extra), value);
            assert_eq!(item.render(), Ok(expected));
        }
    }
}

#[test]
fn right_pad_is_value_then_fill() {
    for value in VALUES {
        for extra in 0..5usize {
            let item = PaddedItem {
                value,
                pad_block: '*',
                total_width: value.width() + extra,
                pad_direction: PadDirection::Right,
                handle_excess: ForbidExcess,
            };
            let expected = format!("{}{}", value, "*".repeat(extra));
            assert_eq!(item.render(), Ok(expected));
        }
    }
}

#[test]
fn exact_width_is_the_value_itself() {
    for value in VALUES {
        for pad_direction in [PadDirection::Left, PadDirection::Right] {
            let item = PaddedItem {
                value,
                pad_block: '*',
                total_width: value.width(),
                pad_direction,
                handle_excess: ForbidExcess,
            };
            assert_eq!(item.render(), Ok(value.to_string()));
        }
    }
}

#[test]
fn forbid_fails_and_writes_nothing() {
    for value in VALUES {
        for total_width in 0..value.width() {
            let item = PaddedItem {
                value,
                pad_block: '*',
                total_width,
                pad_direction: PadDirection::Right,
                handle_excess: ForbidExcess,
            };
            let mut sink = String::from(">");
            assert_eq!(item.fmt(&mut sink), Err(PadError::Excess));
            assert_eq!(sink, ">");
        }
    }
}

#[test]
fn ignore_writes_only_the_value() {
    for value in VALUES {
        for total_width in 0..value.width() {
            let item = PaddedItem {
                value,
                pad_block: '*',
                total_width,
                pad_direction: PadDirection::Right,
                handle_excess: IgnoreExcess,
            };
            let mut sink = String::from(">");
            assert_eq!(item.fmt(&mut sink), Ok(()));
            assert_eq!(sink, format!(">{}", value));
        }
    }
}

#[test]
fn two_sinks_get_the_same_text() {
    for value in VALUES {
        for total_width in 0..14usize {
            let item = PaddedValue {
                value,
                pad_block: '_',
                total_width,
                pad_direction: PadDirection::Left,
                handle_excess: IgnoreExcess,
            };
            let mut first = String::new();
            let mut second = String::new();
            let first_result = item.fmt(&mut first);
            let second_result = item.fmt(&mut second);
            assert_eq!(first_result, second_result);
            assert_eq!(first.as_bytes(), second.as_bytes());
        }
    }
}

#[test]
fn writing_only_adds_to_the_sink() {
    let item = PaddedItem {
        value: "abc",
        pad_block: ' ',
        total_width: 5,
        pad_direction: PadDirection::Right,
        handle_excess: ForbidExcess,
    };
    let mut sink = String::from("[");
    assert_eq!(item.fmt(&mut sink), Ok(()));
    assert_eq!(sink, "[abc  ");
    assert_eq!(item.fmt(&mut sink), Ok(()));
    assert_eq!(sink, "[abc  abc  ");
}
