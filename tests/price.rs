#![allow(non_snake_case)]

use chrono::NaiveDate;
use pecunia::indicators::averages::simple_moving_average;
use std::ops::{Add, Div, Mul, Sub};

use pecunia::market_value::MarketValue;
use pecunia::price::{DateBoundedPrice, Price};
use pecunia::price_map::{
    decode_price_map, decode_price_seq, encode_price_map, encode_price_seq,
    RawPriceCurrencyVisitor, UnitValueVisitor,
};
use pecunia::units::currency::Currency;

#[derive(Clone, Copy, Debug, PartialEq)]
struct RawPrice(f64);

impl Add for RawPrice {
    type Output = RawPrice;
    fn add(self, rhs: RawPrice) -> RawPrice {
        RawPrice(self.0 + rhs.0)
    }
}

impl Sub for RawPrice {
    type Output = RawPrice;
    fn sub(self, rhs: RawPrice) -> RawPrice {
        RawPrice(self.0 - rhs.0)
    }
}

impl Mul<f64> for RawPrice {
    type Output = RawPrice;
    fn mul(self, rhs: f64) -> RawPrice {
        RawPrice(self.0 * rhs)
    }
}

impl Div<f64> for RawPrice {
    type Output = RawPrice;
    fn div(self, rhs: f64) -> RawPrice {
        RawPrice(self.0 / rhs)
    }
}

impl From<f64> for RawPrice {
    fn from(v: f64) -> RawPrice {
        RawPrice(v)
    }
}

impl MarketValue for RawPrice {
    type Scalar = f64;
}

const CURRENCIES: [Currency; 10] = [
    Currency::NotACurrency,
    Currency::USD,
    Currency::EUR,
    Currency::AUD,
    Currency::CAD,
    Currency::CHF,
    Currency::GBP,
    Currency::JPY,
    Currency::RUB,
    Currency::SAR,
];

const PRICES: [f64; 4] = [0.0, 10.1, 1234.5678901234, 65535.0];

#[test]
fn construct_Price() {
    for p in PRICES {
        for c in CURRENCIES {
            let n = Price::from_raw(RawPrice(p), c);
            let r = Price::from_raw(RawPrice(p), Currency::default()).with_currency(c);
            assert_eq!(n, r);
        }
    }
}

#[test]
fn change_currency() {
    for c in CURRENCIES {
        let prev = Price::from_raw(RawPrice(10.1), c);
        assert_eq!(prev.currency(), c);
        for d in CURRENCIES {
            let aft = prev.with_currency(d);
            assert_eq!(aft.currency(), d);
            assert_eq!(aft.raw_price(), RawPrice(10.1));
        }
    }
}

#[test]
fn get_RawPrice() {
    for p in PRICES {
        let c = Currency::CHF;
        let price = Price::from_raw(RawPrice(p), c);
        let raw = price.raw_price();
        assert_eq!(raw.0, p);
        assert_eq!(price, Price::from_raw(raw, c));
        assert_eq!(price.into_raw_price(), RawPrice(p));
        assert_eq!(price.into_currency(), c);
    }
}

#[test]
fn get_mut_RawPrice() {
    let mut price = Price::from_raw(RawPrice(10.1), Currency::GBP);
    assert_eq!(price.raw_price(), RawPrice(10.1));
    price.set_raw_price(RawPrice(20.2));
    assert_eq!(price.raw_price(), RawPrice(20.2));
    assert_eq!(price.currency(), Currency::GBP);
}

#[test]
fn currency() {
    for c in CURRENCIES {
        let price = Price::from_raw(RawPrice(3.5), c);
        assert_eq!(price.currency(), c);
    }
}

#[test]
fn price_arithmetic_keeps_the_currency() {
    let a = Price::from_raw(RawPrice(100.0), Currency::EUR);
    assert_eq!(a.plus_raw(RawPrice(20.0)), Price::from_raw(RawPrice(120.0), Currency::EUR));
    assert_eq!(a.minus_raw(RawPrice(120.0)), Price::from_raw(RawPrice(-20.0), Currency::EUR));
    assert_eq!(a.times(0.5), Price::from_raw(RawPrice(50.0), Currency::EUR));
    assert_eq!(a.divided_by(4.0), Price::from_raw(RawPrice(25.0), Currency::EUR));
}

#[test]
fn adding_five_percent_to_a_hundred() {
    let a = Price::from_raw(RawPrice(100.0), Currency::EUR);
    assert_eq!(a.add_relative(0.05), Price::from_raw(RawPrice(105.0), Currency::EUR));
    assert_eq!(a.sub_relative(0.05), Price::from_raw(RawPrice(95.0), Currency::EUR));
    assert_eq!(a.times(0.05), Price::from_raw(RawPrice(5.0), Currency::EUR));
}

#[test]
fn moving_average_of_raw_prices() {
    let raw = [RawPrice(1.0), RawPrice(2.0), RawPrice(3.0)];
    assert_eq!(simple_moving_average(&raw, 2), vec![RawPrice(1.5), RawPrice(2.5)]);
}

#[test]
fn date_bounded_price_parts() {
    let d = NaiveDate::from_ymd_opt(2020, 2, 29).unwrap();
    let e = NaiveDate::from_ymd_opt(2021, 3, 1).unwrap();
    let dp = DateBoundedPrice::from_raw(RawPrice(9.5), Currency::JPY, d);
    assert_eq!(*dp.date(), d);
    assert_eq!(*dp.price(), Price::from_raw(RawPrice(9.5), Currency::JPY));
    assert_eq!(dp.with_date(e).into_date(), e);
    assert_eq!(dp.with_currency(Currency::RUB).price().currency(), Currency::RUB);
    assert_eq!(dp.with_raw_price(RawPrice(1.0)).into_price().raw_price(), RawPrice(1.0));
    let other = Price::from_raw(RawPrice(2.0), Currency::SAR);
    assert_eq!(dp.with_price(other).into_price(), other);
}

/// A decoded wire value: a number or a code.
#[derive(Clone, Copy, Debug, PartialEq)]
enum Wire {
    Number(f64),
    Code(&'static str),
}

fn to_price(fields: (Wire, Wire)) -> Price<RawPrice> {
    match fields {
        (Wire::Number(p), Wire::Code(c)) => Price::from_raw(RawPrice(p), Currency::from_code(c).unwrap()),
        _ => panic!("unexpected field types"),
    }
}

#[test]
fn deserialize_Price() {
    for p in PRICES {
        for c in CURRENCIES {
            let sc = c.code();
            let price_currency = decode_price_map(
                &RawPriceCurrencyVisitor,
                &[("price", Wire::Number(p)), ("currency", Wire::Code(sc))],
            )
            .unwrap();
            let unit_value = decode_price_map(
                &UnitValueVisitor,
                &[("value", Wire::Number(p)), ("unit", Wire::Code(sc))],
            )
            .unwrap();
            let seq = decode_price_seq(&[Wire::Number(p), Wire::Code(sc)]).unwrap();

            assert_eq!(to_price(price_currency), to_price(unit_value));
            assert_eq!(to_price(price_currency), to_price(seq));
            assert_eq!(to_price(price_currency), Price::from_raw(RawPrice(p), c));
        }
    }
}

#[test]
fn serialize_Price() {
    for p in PRICES {
        for c in CURRENCIES {
            let sp = Wire::Number(p);
            let sc = Wire::Code(c.code());
            assert_eq!(encode_price_seq(sp, sc), vec![sp, sc]);
            assert_eq!(
                encode_price_map(&RawPriceCurrencyVisitor, sp, sc),
                vec![("price", sp), ("currency", sc)]
            );
            assert_eq!(
                encode_price_map(&UnitValueVisitor, sp, sc),
                vec![("value", sp), ("unit", sc)]
            );
        }
    }
}
