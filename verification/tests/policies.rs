use padded_column::{
    Excess, ExcessHandler, ExcessHandlingFunction, ForbidExcess, IgnoreExcess, PadDirection,
    PadError, PaddedItem, PaddedValue, TruncateExcess, Whole,
};

fn ellipsis(excess: Excess<'_, &'static str, char>) -> Result<String, PadError> {
    let kept: String = excess.value.chars().take(excess.total_width - 1).collect();
    Ok(format!("{}~", kept))
}

fn report(excess: Excess<'_, &'static str, char>) -> Result<String, PadError> {
    Ok(format!(
        "{}/{}/{}/{}",
        excess.value, excess.value_width, excess.total_width, excess.pad_block
    ))
}

#[test]
fn truncate_keeps_the_leading_columns() {
    let item = PaddedItem {
        value: "abcdefgh",
        pad_block: '-',
        total_width: 5,
        pad_direction: PadDirection::Left,
        handle_excess: TruncateExcess,
    };
    assert_eq!(item.render(), Ok("abcde".to_string()));
}

#[test]
fn truncate_counts_characters_not_bytes() {
    let item = PaddedItem {
        value: "äöüß€abc",
        pad_block: '-',
        total_width: 4,
        pad_direction: PadDirection::Right,
        handle_excess: TruncateExcess,
    };
    assert_eq!(item.render(), Ok("äöüß".to_string()));
}

#[test]
fn truncate_to_nothing() {
    let item = PaddedItem {
        value: 'x',
        pad_block: '-',
        total_width: 0,
        pad_direction: PadDirection::Left,
        handle_excess: TruncateExcess,
    };
    assert_eq!(item.render(), Ok(String::new()));
}

#[test]
fn truncate_leaves_a_fitting_value_alone() {
    let item = PaddedItem {
        value: "abc",
        pad_block: '-',
        total_width: 5,
        pad_direction: PadDirection::Left,
        handle_excess: TruncateExcess,
    };
    assert_eq!(item.render(), Ok("--abc".to_string()));
}

#[test]
fn truncate_of_a_whole_value_is_unsupported() {
    let item = PaddedItem {
        value: Whole("abcdefgh"),
        pad_block: '-',
        total_width: 5,
        pad_direction: PadDirection::Left,
        handle_excess: TruncateExcess,
    };
    let mut sink = String::from("kept");
    assert_eq!(item.fmt(&mut sink), Err(PadError::UnsupportedTruncation));
    assert_eq!(sink, "kept");
}

#[test]
fn whole_value_that_fits_is_padded() {
    let item = PaddedItem {
        value: Whole("abc"),
        pad_block: '-',
        total_width: 5,
        pad_direction: PadDirection::Right,
        handle_excess: TruncateExcess,
    };
    assert_eq!(item.render(), Ok("abc--".to_string()));
}

#[test]
fn function_policy_writes_its_answer() {
    let item = PaddedItem {
        value: "abcdefgh",
        pad_block: '-',
        total_width: 5,
        pad_direction: PadDirection::Left,
        handle_excess: ExcessHandlingFunction(ellipsis),
    };
    let mut sink = String::from("|");
    assert_eq!(item.fmt(&mut sink), Ok(()));
    assert_eq!(sink, "|abcd~");
}

#[test]
fn function_policy_sees_the_excess() {
    let item = PaddedValue {
        value: "abcdefgh",
        pad_block: '-',
        total_width: 5,
        pad_direction: PadDirection::Right,
        handle_excess: ExcessHandlingFunction(report),
    };
    assert_eq!(item.render(), Ok("abcdefgh/8/5/-".to_string()));
}

#[test]
fn function_policy_is_not_asked_when_the_value_fits() {
    let item = PaddedItem {
        value: "abcde",
        pad_block: '-',
        total_width: 5,
        pad_direction: PadDirection::Left,
        handle_excess: ExcessHandlingFunction(report),
    };
    assert_eq!(item.render(), Ok("abcde".to_string()));
}

#[test]
fn function_policy_may_fail() {
    let item = PaddedItem {
        value: "abcdefgh",
        pad_block: '-',
        total_width: 5,
        pad_direction: PadDirection::Left,
        handle_excess: ExcessHandlingFunction(|_excess: Excess<'_, &'static str, char>| {
            Err(PadError::Excess)
        }),
    };
    let mut sink = String::from("kept");
    assert_eq!(item.fmt(&mut sink), Err(PadError::Excess));
    assert_eq!(sink, "kept");
}

#[test]
fn function_pointer_is_the_default_policy() {
    let item: PaddedItem<&'static str> = PaddedItem {
        value: "abcdefgh",
        pad_block: '-',
        total_width: 5,
        pad_direction: PadDirection::Left,
        handle_excess: ExcessHandlingFunction(ellipsis),
    };
    assert_eq!(item.render(), Ok("abcd~".to_string()));
    let padded: PaddedValue<&'static str> = PaddedValue {
        value: "abcdefgh",
        pad_block: '-',
        total_width: 5,
        pad_direction: PadDirection::Left,
        handle_excess: ExcessHandlingFunction(report),
    };
    assert_eq!(padded.render(), Ok("abcdefgh/8/5/-".to_string()));
}

#[test]
fn policies_can_be_called_directly() {
    let value = "abcdefgh";
    let pad_block = '-';
    let mut sink = String::new();
    let excess = Excess { value: &value, value_width: 8, total_width: 3, pad_block: &pad_block };
    assert_eq!(ForbidExcess.handle_excess(excess, &mut sink), Err(PadError::Excess));
    assert_eq!(sink, "");
    assert_eq!(IgnoreExcess.handle_excess(excess, &mut sink), Ok(()));
    assert_eq!(sink, "abcdefgh");
    assert_eq!(TruncateExcess.handle_excess(excess, &mut sink), Ok(()));
    assert_eq!(sink, "abcdefghabc");
}
