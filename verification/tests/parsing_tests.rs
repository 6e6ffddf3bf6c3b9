//! Dates, currency amounts, and the enumerated sets: the parsers accept
//! exactly the documented shapes and yield exact values.

use h1b_customer_service::dates::{date_le, date_to_string, parse_date, Date};
use h1b_customer_service::models::{
    parse_h1b_status, parse_marital_status, parse_sex, H1bStatus, MaritalStatus, Sex,
};
use h1b_customer_service::money::{money_to_string, parse_money, Money};

#[test]
fn parse_date_accepts_plain_dates() {
    assert_eq!(
        parse_date("1990-01-01"),
        Some(Date { year: 1990, month: 1, day: 1 })
    );
    assert_eq!(
        parse_date("2024-12-31"),
        Some(Date { year: 2024, month: 12, day: 31 })
    );
    assert_eq!(
        parse_date("9999-06-15"),
        Some(Date { year: 9999, month: 6, day: 15 })
    );
}

#[test]
fn parse_date_handles_leap_years() {
    assert_eq!(
        parse_date("2024-02-29"),
        Some(Date { year: 2024, month: 2, day: 29 })
    );
    assert_eq!(parse_date("2023-02-29"), None);
    assert_eq!(
        parse_date("2000-02-29"),
        Some(Date { year: 2000, month: 2, day: 29 })
    );
    assert_eq!(parse_date("1900-02-29"), None);
}

#[test]
fn parse_date_rejects_malformed_strings() {
    assert_eq!(parse_date(""), None);
    assert_eq!(parse_date("2024-1-01"), None);
    assert_eq!(parse_date("2024/01/01"), None);
    assert_eq!(parse_date("01-01-2024"), None);
    assert_eq!(parse_date("2024-13-01"), None);
    assert_eq!(parse_date("2024-00-10"), None);
    assert_eq!(parse_date("2024-04-31"), None);
    assert_eq!(parse_date("2024-06-00"), None);
    assert_eq!(parse_date("0000-01-01"), None);
    assert_eq!(parse_date("2024-01-012"), None);
}

#[test]
fn date_order_is_calendar_order() {
    let a = Date { year: 2024, month: 2, day: 1 };
    let b = Date { year: 2027, month: 2, day: 1 };
    let c = Date { year: 2024, month: 3, day: 1 };
    assert!(date_le(&a, &b));
    assert!(!date_le(&b, &a));
    assert!(date_le(&a, &c));
    assert!(date_le(&a, &a));
}

#[test]
fn parse_money_yields_exact_cents() {
    assert_eq!(parse_money("95000").map(|m| m.cents), Some(9_500_000));
    assert_eq!(parse_money("95000.00").map(|m| m.cents), Some(9_500_000));
    assert_eq!(parse_money("95000.5").map(|m| m.cents), Some(9_500_050));
    assert_eq!(parse_money("95000.55").map(|m| m.cents), Some(9_500_055));
    assert_eq!(parse_money("0.01").map(|m| m.cents), Some(1));
    assert_eq!(parse_money("0").map(|m| m.cents), Some(0));
}

#[test]
fn parse_money_rejects_malformed_amounts() {
    assert_eq!(parse_money(""), None);
    assert_eq!(parse_money("."), None);
    assert_eq!(parse_money(".5"), None);
    assert_eq!(parse_money("5."), None);
    assert_eq!(parse_money("1.234"), None);
    assert_eq!(parse_money("-5"), None);
    assert_eq!(parse_money("1,000"), None);
    assert_eq!(parse_money("1e3"), None);
    // one integer digit over the thirteen the type admits
    assert_eq!(parse_money("12345678901234"), None);
    assert!(parse_money("1234567890123").is_some());
}

#[test]
fn dates_write_and_read_back() {
    let d = Date { year: 1990, month: 1, day: 1 };
    assert_eq!(date_to_string(&d), "1990-01-01");
    let e = Date { year: 2024, month: 12, day: 31 };
    assert_eq!(date_to_string(&e), "2024-12-31");
    assert_eq!(parse_date(&date_to_string(&e)), Some(e));
}

#[test]
fn amounts_write_and_read_back() {
    assert_eq!(money_to_string(&Money { cents: 9_500_000 }), "95000.00");
    assert_eq!(money_to_string(&Money { cents: 1 }), "0.01");
    assert_eq!(money_to_string(&Money { cents: 10_500_055 }), "105000.55");
    let m = Money { cents: 123_456_789 };
    assert_eq!(parse_money(&money_to_string(&m)), Some(m));
}

#[test]
fn enum_membership_is_exact() {
    assert_eq!(parse_sex(&"Male".to_string()), Some(Sex::Male));
    assert_eq!(parse_sex(&"Female".to_string()), Some(Sex::Female));
    assert_eq!(parse_sex(&"Other".to_string()), Some(Sex::Other));
    assert_eq!(parse_sex(&"male".to_string()), None);
    assert_eq!(parse_sex(&"".to_string()), None);

    assert_eq!(
        parse_marital_status(&"Single".to_string()),
        Some(MaritalStatus::Single)
    );
    assert_eq!(
        parse_marital_status(&"Married".to_string()),
        Some(MaritalStatus::Married)
    );
    assert_eq!(
        parse_marital_status(&"Divorced".to_string()),
        Some(MaritalStatus::Divorced)
    );
    assert_eq!(
        parse_marital_status(&"Widowed".to_string()),
        Some(MaritalStatus::Widowed)
    );
    assert_eq!(parse_marital_status(&"Separated".to_string()), None);

    assert_eq!(
        parse_h1b_status(&"Pending".to_string()),
        Some(H1bStatus::Pending)
    );
    assert_eq!(
        parse_h1b_status(&"Active".to_string()),
        Some(H1bStatus::Active)
    );
    assert_eq!(
        parse_h1b_status(&"Expired".to_string()),
        Some(H1bStatus::Expired)
    );
    assert_eq!(
        parse_h1b_status(&"Revoked".to_string()),
        Some(H1bStatus::Revoked)
    );
    assert_eq!(
        parse_h1b_status(&"Inactive".to_string()),
        Some(H1bStatus::Inactive)
    );
    assert_eq!(parse_h1b_status(&"Cancelled".to_string()), None);
}
