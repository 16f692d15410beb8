use sitestat::text::{i64_to_dec_string, u64_to_dec_string};
use sitestat::utils::{get_count_for_ru, get_price_acc_values};

#[test]
fn decimal_rendering_is_exact() {
    assert_eq!(u64_to_dec_string(0), "0");
    assert_eq!(u64_to_dec_string(7), "7");
    assert_eq!(u64_to_dec_string(12345), "12345");
    assert_eq!(u64_to_dec_string(u64::MAX), "18446744073709551615");
    assert_eq!(i64_to_dec_string(-1), "-1");
    assert_eq!(i64_to_dec_string(-9007), "-9007");
    assert_eq!(i64_to_dec_string(i64::MIN), "-9223372036854775808");
    assert_eq!(i64_to_dec_string(i64::MAX), "9223372036854775807");
}

#[test]
fn price_discounts_by_band() {
    assert_eq!(get_price_acc_values(&3_000_001), Some(300_000));
    assert_eq!(get_price_acc_values(&2_500_000), Some(175_000));
    assert_eq!(get_price_acc_values(&1_500_000), Some(75_000));
    assert_eq!(get_price_acc_values(&214_748_364), Some(21_474_836));
}

#[test]
fn prices_below_the_first_band_earn_nothing() {
    assert_eq!(get_price_acc_values(&0), None);
    assert_eq!(get_price_acc_values(&999_999), None);
    assert_eq!(get_price_acc_values(&1_000_000), None);
}

#[test]
fn band_boundaries_earn_nothing() {
    assert_eq!(get_price_acc_values(&2_000_000), None);
    assert_eq!(get_price_acc_values(&3_000_000), None);
}

fn ru(count: i16) -> String {
    get_count_for_ru(
        count,
        String::from(" one"),
        String::from(" few"),
        String::from(" many"),
    )
}

#[test]
fn russian_counts_ending_in_one() {
    assert_eq!(ru(1), "1 one");
    assert_eq!(ru(21), "21 one");
    assert_eq!(ru(121), "121 one");
}

#[test]
fn russian_counts_ending_in_two_to_four() {
    assert_eq!(ru(2), "2 few");
    assert_eq!(ru(4), "4 few");
    assert_eq!(ru(22), "22 few");
    assert_eq!(ru(104), "104 few");
}

#[test]
fn russian_counts_of_the_teens_and_rest() {
    assert_eq!(ru(0), "0 many");
    assert_eq!(ru(5), "5 many");
    assert_eq!(ru(11), "11 many");
    assert_eq!(ru(12), "12 many");
    assert_eq!(ru(14), "14 many");
    assert_eq!(ru(111), "111 many");
    assert_eq!(ru(-7), "-7 many");
}
