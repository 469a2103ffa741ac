use exiftool_rs_wrapper::advanced::{
    append_string_arg, numeric_operation_arg, shift_datetime_arg, shift_tag_arg,
};
use exiftool_rs_wrapper::{DateTimeOffset, NumericOperation, TagId, TimeUnit};

#[test]
fn test_datetime_offset_format() {
    let offset = DateTimeOffset::new().days(1).hours(2).minutes(30);

    assert_eq!(offset.format(), "+0:00:01 02:30:00");
}

#[test]
fn test_datetime_offset_negative() {
    let offset = DateTimeOffset::new().days(-1).hours(-2);

    assert_eq!(offset.format(), "-0:00:01 02:00:00");
}

#[test]
fn test_numeric_operation() {
    let op = NumericOperation::Add(5);
    assert_eq!(op.operator(), "+=");
    assert_eq!(op.value(), 5);

    let op = NumericOperation::Multiply(2);
    assert_eq!(op.operator(), "*=");
    assert_eq!(op.value(), 2);
}

#[test]
fn offset_sign_follows_any_negative_part() {
    let o = DateTimeOffset::new().years(2).seconds(-5);
    assert!(o.is_negative());
    assert_eq!(o.format(), "-2:00:00 00:00:05");
    let o = DateTimeOffset::new().years(12).months(11).seconds(59);
    assert!(!o.is_negative());
    assert_eq!(o.format(), "+12:11:00 00:00:59");
}

#[test]
fn offset_parts_wider_than_two_digits() {
    let o = DateTimeOffset::new().days(123).minutes(-100);
    assert_eq!(o.format(), "-0:00:123 00:100:00");
    assert_eq!(DateTimeOffset::default().format(), "+0:00:00 00:00:00");
}

#[test]
fn operations_and_their_arguments() {
    assert_eq!(NumericOperation::Subtract(3).operator(), "-=");
    assert_eq!(NumericOperation::Divide(-4).operator(), "/=");
    assert_eq!(NumericOperation::Divide(-4).value(), -4);
    assert_eq!(
        numeric_operation_arg(TagId::new("Rating"), NumericOperation::Add(2)),
        "-Rating+=2"
    );
    assert_eq!(
        numeric_operation_arg(TagId::new("Rating"), NumericOperation::Subtract(-7)),
        "-Rating-=-7"
    );
    assert_eq!(append_string_arg(TagId::new("Comment"), " end"), "-Comment+= end");
}

#[test]
fn shift_arguments() {
    let o = DateTimeOffset::new().days(1).hours(2);
    assert_eq!(shift_datetime_arg(&o), "-AllDates+0:00:01 02:00:00");
    assert_eq!(
        shift_tag_arg(TagId::new("CreateDate"), &o),
        "-CreateDate+0:00:01 02:00:00"
    );
}

#[test]
fn unit_abbreviations() {
    assert_eq!(TimeUnit::Years.abbreviation(), "y");
    assert_eq!(TimeUnit::Months.abbreviation(), "m");
    assert_eq!(TimeUnit::Days.abbreviation(), "d");
    assert_eq!(TimeUnit::Hours.abbreviation(), "H");
    assert_eq!(TimeUnit::Minutes.abbreviation(), "M");
    assert_eq!(TimeUnit::Seconds.abbreviation(), "S");
}

#[test]
fn offsets_that_can_be_written() {
    assert!(DateTimeOffset::new().days(-3).in_range());
    assert!(!DateTimeOffset::new().hours(i32::MIN).in_range());
}
