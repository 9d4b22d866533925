use kucoin::decimal::Decimal;
use kucoin::decimal_map::DecimalMap;
use kucoin::error::{SystemCode, SystemCodeError};
use kucoin::text::{compare_text, i128_text, parse_i64, parse_u32, split_once, u64_text};
use kucoin::time::Time;
use kucoin::utils::{is_false, iter_to_csv};

fn d(m: i64, s: u32) -> Decimal {
    Decimal::new(m, s)
}

fn parts(x: Decimal) -> (i128, u32) {
    (x.mantissa(), x.scale())
}

#[test]
fn decimal_compare_is_numeric() {
    assert_eq!(d(150, 2).compare(&d(15, 1)), 0);
    assert_eq!(d(1, 0).compare(&d(2, 0)), -1);
    assert_eq!(d(-1, 1).compare(&d(-2, 1)), 1);
    assert!(d(150, 2).num_eq(&d(15, 1)));
    assert!(d(-3, 0).num_lt(&d(0, 5)));
    assert!(d(1, 28).is_positive());
    assert!(!d(0, 3).is_positive());
}

#[test]
fn decimal_round_dp_halves_to_even() {
    assert_eq!(parts(d(25, 1).round_dp(0)), (2, 0));
    assert_eq!(parts(d(35, 1).round_dp(0)), (4, 0));
    assert_eq!(parts(d(-25, 1).round_dp(0)), (-2, 0));
    assert_eq!(parts(d(12345, 3).round_dp(2)), (1234, 2));
    assert_eq!(parts(d(12355, 3).round_dp(2)), (1236, 2));
    assert_eq!(parts(d(12346, 3).round_dp(2)), (1235, 2));
    assert_eq!(parts(d(15, 1).round_dp(3)), (15, 1));
}

#[test]
fn decimal_to_string_keeps_the_scale() {
    assert_eq!(d(1500, 2).to_string(), "15.00");
    assert_eq!(d(5, 2).to_string(), "0.05");
    assert_eq!(d(-15, 1).to_string(), "-1.5");
    assert_eq!(d(0, 0).to_string(), "0");
    assert_eq!(d(0, 3).to_string(), "0.000");
    assert_eq!(d(123, 0).to_string(), "123");
    assert_eq!(d(-5, 3).to_string(), "-0.005");
}

#[test]
fn decimal_parts_are_checked() {
    assert!(Decimal::try_from_i128_with_scale(1, 29).is_none());
    assert!(Decimal::try_from_i128_with_scale(79228162514264337593543950336, 0).is_none());
    let x = Decimal::try_from_i128_with_scale(-79228162514264337593543950335, 28).unwrap();
    assert_eq!(parts(x), (-79228162514264337593543950335, 28));
    assert_eq!(parts(Decimal::zero()), (0, 0));
}

#[test]
fn decimal_map_keys_compare_numerically() {
    let mut m: DecimalMap<u32> = DecimalMap::new();
    m.insert(d(20, 1), 1);
    m.insert(d(1, 0), 2);
    m.insert(d(200, 2), 3);
    assert_eq!(m.len(), 2);
    let e = m.entries();
    assert_eq!(parts(e[0].0), (1, 0));
    assert_eq!(e[0].1, 2);
    // The key first inserted keeps its representation; the value is replaced.
    assert_eq!(parts(e[1].0), (20, 1));
    assert_eq!(e[1].1, 3);
    assert_eq!(m.get(&d(2, 0)), Some(3));
    assert_eq!(m.remove(&d(100, 2)), Some(2));
    assert_eq!(m.get(&d(1, 0)), None);
    assert_eq!(m.len(), 1);
}

#[test]
fn decimal_map_from_entries_last_wins() {
    let m = DecimalMap::from_entries(vec![(d(3, 0), 'a'), (d(1, 0), 'b'), (d(30, 1), 'c')]);
    assert_eq!(m.len(), 2);
    assert_eq!(m.get(&d(3, 0)), Some('c'));
    assert_eq!(parts(m.entries()[0].0), (1, 0));
}

#[test]
fn parse_u32_follows_from_str() {
    assert_eq!(parse_u32("42"), Some(42));
    assert_eq!(parse_u32("+7"), Some(7));
    assert_eq!(parse_u32("007"), Some(7));
    assert_eq!(parse_u32("4294967295"), Some(u32::MAX));
    assert_eq!(parse_u32("4294967296"), None);
    assert_eq!(parse_u32(""), None);
    assert_eq!(parse_u32("+"), None);
    assert_eq!(parse_u32("-1"), None);
    assert_eq!(parse_u32("1 "), None);
    for n in [0u32, 9, 10, 200000, u32::MAX] {
        assert_eq!(parse_u32(&n.to_string()), Some(n));
    }
}

#[test]
fn integer_texts() {
    assert_eq!(u64_text(0), "0");
    assert_eq!(u64_text(1234567890), "1234567890");
    assert_eq!(u64_text(u64::MAX), u64::MAX.to_string());
    assert_eq!(i128_text(-45), "-45");
    assert_eq!(i128_text(i128::MIN), i128::MIN.to_string());
}

#[test]
fn text_helpers() {
    assert_eq!(split_once("BTC-USDT-X", '-'), Some(("BTC".to_string(), "USDT-X".to_string())));
    assert_eq!(split_once("BTC", '-'), None);
    assert_eq!(compare_text("abc", "abd"), -1);
    assert_eq!(compare_text("ab", "abc"), -1);
    assert_eq!(compare_text("b", "a"), 1);
    assert_eq!(compare_text("same", "same"), 0);
    assert_eq!(iter_to_csv(&vec!["a".to_string(), "b".to_string(), "c".to_string()]), "a,b,c");
    assert_eq!(iter_to_csv(&vec![]), "");
    assert!(is_false(&false));
    assert!(!is_false(&true));
}

#[test]
fn time_renders_milliseconds() {
    assert_eq!(Time::from_unix_millis(1234).to_string(), "1234");
    assert_eq!(Time::from_unix_nanos(1_999_999).to_string(), "1");
    assert_eq!(Time::from_unix_nanos(-1).to_string(), "-1");
    assert_eq!(Time::from_unix_seconds(2).unix_millis(), 2000);
    assert_eq!(Time::from_unix_millis(1999).unix_seconds(), 1);
    assert_eq!(Time::from_unix_nanos(-1).unix_seconds(), -1);
    assert_eq!(Time::from_unix_seconds(-3).unix_seconds(), -3);
    assert_eq!(Time::default().to_string(), "0");
    assert!(Time::unix_epoch().is_before(&Time::from_unix_nanos(1)));
    assert!(Time::now().unix_nanos() > 0);
    assert!(Time::checked_from_unix_nanos(Time::now().unix_nanos()).is_some());
}

#[test]
fn system_codes() {
    assert_eq!(SystemCode::success().0, 200000);
    assert_eq!(SystemCode::from_u64(400100), Ok(SystemCode(400100)));
    assert_eq!(SystemCode::from_u64(1 << 32), Err(SystemCodeError::OutOfRange));
    assert_eq!(SystemCode::from_text("200000"), Ok(SystemCode(200000)));
    assert_eq!(SystemCode::from_text("20x"), Err(SystemCodeError::NotAnInteger));
}

#[test]
fn parse_i64_follows_from_str() {
    assert_eq!(parse_i64("1600000000"), Some(1600000000));
    assert_eq!(parse_i64("-42"), Some(-42));
    assert_eq!(parse_i64("+7"), Some(7));
    assert_eq!(parse_i64("9223372036854775807"), Some(i64::MAX));
    assert_eq!(parse_i64("-9223372036854775808"), Some(i64::MIN));
    assert_eq!(parse_i64("9223372036854775808"), None);
    assert_eq!(parse_i64("-9223372036854775809"), None);
    assert_eq!(parse_i64("-"), None);
    assert_eq!(parse_i64(""), None);
    assert_eq!(parse_i64("1.5"), None);
    for n in [0i64, -1, 10, i64::MIN, i64::MAX] {
        assert_eq!(parse_i64(&n.to_string()), Some(n));
    }
}

#[test]
fn instants_stay_in_the_calendar() {
    assert_eq!(Time::checked_from_unix_seconds(253402300799).map(|t| t.unix_seconds()), Some(253402300799));
    assert!(Time::checked_from_unix_seconds(253402300800).is_none());
    assert_eq!(Time::checked_from_unix_seconds(-377705116800).map(|t| t.unix_seconds()), Some(-377705116800));
    assert!(Time::checked_from_unix_seconds(-377705116801).is_none());
    assert_eq!(Time::checked_from_unix_millis(1234).map(|t| t.unix_millis()), Some(1234));
    assert!(Time::checked_from_unix_millis(i64::MAX).is_none());
    assert!(Time::checked_from_unix_nanos(-377705116800_000_000_001).is_none());
    assert!(Time::checked_from_unix_nanos(-1).is_some());
}
