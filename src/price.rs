//! A price: a raw magnitude tagged with the currency it is given in.
//!
//! Arithmetic on a price acts on the magnitude alone and keeps the currency.
use vstd::prelude::*;

use chrono::NaiveDate;

use crate::market_value::{
    add_relative, obeys_algebra, spec_add_relative, spec_sub_relative, sub_relative, total_algebra,
    MarketValue,
};
use vstd::std_specs::ops::{AddSpec, DivSpec, MulSpec, SubSpec};
use crate::units::currency::Currency;

verus! {

/// A raw magnitude together with its currency.
#[derive(Clone, Copy, Debug, PartialEq)]
pub struct Price<R> {
    raw_price: R,
    currency: Currency,
}

impl<R: Copy> Price<R> {
    /// The raw magnitude.
    pub closed spec fn spec_raw_price(self) -> R {
        self.raw_price
    }

    /// The currency.
    pub closed spec fn spec_currency(self) -> Currency {
        self.currency
    }

    /// The price of magnitude `price` in `currency`.
    pub fn from_raw(price: R, currency: Currency) -> (r: Self)
        ensures
            r.spec_raw_price() == price,
            r.spec_currency() == currency,
    {
        Price { raw_price: price, currency }
    }

    /// The raw magnitude, consuming the price.
    pub fn into_raw_price(self) -> (r: R)
        ensures
            r == self.spec_raw_price(),
    {
        self.raw_price
    }

    /// The currency, consuming the price.
    pub fn into_currency(self) -> (r: Currency)
        ensures
            r == self.spec_currency(),
    {
        self.currency
    }

    /// The same magnitude in another currency.
    pub fn with_currency(self, currency: Currency) -> (r: Self)
        ensures
            r.spec_raw_price() == self.spec_raw_price(),
            r.spec_currency() == currency,
    {
        Price { raw_price: self.raw_price, currency }
    }

    /// The raw magnitude.
    pub fn raw_price(&self) -> (r: R)
        ensures
            r == self.spec_raw_price(),
    {
        self.raw_price
    }

    /// Replaces the raw magnitude and keeps the currency.
    pub fn set_raw_price(&mut self, price: R)
        ensures
            final(self).spec_raw_price() == price,
            final(self).spec_currency() == old(self).spec_currency(),
    {
        self.raw_price = price;
    }

    /// The currency.
    pub fn currency(&self) -> (r: Currency)
        ensures
            r == self.spec_currency(),
    {
        self.currency
    }
}

impl<R: MarketValue> Price<R> {
    /// Adds a raw magnitude; the currency stays.
    pub fn plus_raw(&self, rhs: R) -> (r: Self)
        requires
            total_algebra::<R>(),
        ensures
            r.spec_currency() == self.spec_currency(),
            obeys_algebra::<R>() ==> r.spec_raw_price() == self.spec_raw_price().add_spec(rhs),
    {
        Price { raw_price: self.raw_price + rhs, currency: self.currency }
    }

    /// Subtracts a raw magnitude; the currency stays.
    pub fn minus_raw(&self, rhs: R) -> (r: Self)
        requires
            total_algebra::<R>(),
        ensures
            r.spec_currency() == self.spec_currency(),
            obeys_algebra::<R>() ==> r.spec_raw_price() == self.spec_raw_price().sub_spec(rhs),
    {
        Price { raw_price: self.raw_price - rhs, currency: self.currency }
    }

    /// Multiplies the magnitude by a scalar; the currency stays.
    pub fn times(&self, factor: R::Scalar) -> (r: Self)
        requires
            total_algebra::<R>(),
        ensures
            r.spec_currency() == self.spec_currency(),
            obeys_algebra::<R>() ==> r.spec_raw_price() == self.spec_raw_price().mul_spec(factor),
    {
        Price { raw_price: self.raw_price * factor, currency: self.currency }
    }

    /// Divides the magnitude by a scalar; the currency stays.
    pub fn divided_by(&self, divisor: R::Scalar) -> (r: Self)
        requires
            total_algebra::<R>(),
        ensures
            r.spec_currency() == self.spec_currency(),
            obeys_algebra::<R>() ==> r.spec_raw_price() == self.spec_raw_price().div_spec(divisor),
    {
        Price { raw_price: self.raw_price / divisor, currency: self.currency }
    }

    /// Adds a relative change (the stored fraction of a percentage) to the
    /// magnitude: `raw + raw * fraction`; the currency stays.
    pub fn add_relative(&self, fraction: R::Scalar) -> (r: Self)
        requires
            total_algebra::<R>(),
        ensures
            r.spec_currency() == self.spec_currency(),
            obeys_algebra::<R>() ==> r.spec_raw_price() == spec_add_relative(
                self.spec_raw_price(),
                fraction,
            ),
    {
        Price { raw_price: add_relative(&self.raw_price, fraction), currency: self.currency }
    }

    /// Subtracts a relative change (the stored fraction of a percentage) from
    /// the magnitude: `raw - raw * fraction`; the currency stays.
    pub fn sub_relative(&self, fraction: R::Scalar) -> (r: Self)
        requires
            total_algebra::<R>(),
        ensures
            r.spec_currency() == self.spec_currency(),
            obeys_algebra::<R>() ==> r.spec_raw_price() == spec_sub_relative(
                self.spec_raw_price(),
                fraction,
            ),
    {
        Price { raw_price: sub_relative(&self.raw_price, fraction), currency: self.currency }
    }
}

/// chrono's calendar date, carried through unread.
#[verifier::external_type_specification]
#[verifier::external_body]
pub struct ExNaiveDate(NaiveDate);

/// Relies on chrono's derived `Clone` of `NaiveDate`, a `Copy` type: the copy
/// is the same date.
pub assume_specification[ <NaiveDate as Clone>::clone ](date: &NaiveDate) -> (r: NaiveDate)
    ensures
        r == *date,
;

/// A price on a calendar date.
#[derive(Clone, Copy, Debug, PartialEq)]
pub struct DateBoundedPrice<R> {
    price: Price<R>,
    date: NaiveDate,
}

impl<R: Copy> DateBoundedPrice<R> {
    /// The price.
    pub closed spec fn spec_price(self) -> Price<R> {
        self.price
    }

    /// The date.
    pub closed spec fn spec_date(self) -> NaiveDate {
        self.date
    }

    /// The price of magnitude `price` in `currency` on `date`.
    pub fn from_raw(price: R, currency: Currency, date: NaiveDate) -> (r: Self)
        ensures
            r.spec_price().spec_raw_price() == price,
            r.spec_price().spec_currency() == currency,
            r.spec_date() == date,
    {
        DateBoundedPrice { price: Price::from_raw(price, currency), date }
    }

    /// The price, consuming the dated price.
    pub fn into_price(self) -> (r: Price<R>)
        ensures
            r == self.spec_price(),
    {
        self.price
    }

    /// The date, consuming the dated price.
    pub fn into_date(self) -> (r: NaiveDate)
        ensures
            r == self.spec_date(),
    {
        self.date
    }

    /// Another price on the same date.
    pub fn with_price(self, price: Price<R>) -> (r: Self)
        ensures
            r.spec_price() == price,
            r.spec_date() == self.spec_date(),
    {
        DateBoundedPrice { price, date: self.date }
    }

    /// Another magnitude in the same currency on the same date.
    pub fn with_raw_price(self, price: R) -> (r: Self)
        ensures
            r.spec_price().spec_raw_price() == price,
            r.spec_price().spec_currency() == self.spec_price().spec_currency(),
            r.spec_date() == self.spec_date(),
    {
        DateBoundedPrice { price: Price::from_raw(price, self.price.currency), date: self.date }
    }

    /// The same magnitude in another currency on the same date.
    pub fn with_currency(self, currency: Currency) -> (r: Self)
        ensures
            r.spec_price().spec_raw_price() == self.spec_price().spec_raw_price(),
            r.spec_price().spec_currency() == currency,
            r.spec_date() == self.spec_date(),
    {
        DateBoundedPrice { price: self.price.with_currency(currency), date: self.date }
    }

    /// The same price on another date.
    pub fn with_date(self, date: NaiveDate) -> (r: Self)
        ensures
            r.spec_price() == self.spec_price(),
            r.spec_date() == date,
    {
        DateBoundedPrice { price: self.price, date }
    }

    /// The price.
    pub fn price(&self) -> (r: &Price<R>)
        ensures
            *r == self.spec_price(),
    {
        &self.price
    }

    /// The date.
    pub fn date(&self) -> (r: &NaiveDate)
        ensures
            *r == self.spec_date(),
    {
        &self.date
    }
}

} // verus!
