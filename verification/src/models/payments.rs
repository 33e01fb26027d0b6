//! Payments: their vocabulary, the views that each party has of them, the
//! requests that list them, and the form in which the payment service sends
//! them.

use vstd::prelude::*;
use vstd::string::*;

use crate::models::payments::merchant::MerchantPayment;
use crate::models::payments::payment::{FeeTypes, FullPayment, PaymentSides, PaymentStatuses};

pub mod merchant;
pub mod payment;
pub mod requests;
pub mod trader;

verus! {

/// A date and time of the `chrono` crate, without time zone.
#[verifier::external_type_specification]
#[verifier::external_body]
pub struct ExNaiveDateTime(chrono::NaiveDateTime);

/// A decimal number of the `rust_decimal` crate.
#[verifier::external_type_specification]
#[verifier::external_body]
pub struct ExDecimal(rust_decimal::Decimal);

/// A point in time as the payment service sends it: seconds since the Unix
/// epoch in UTC, and nanoseconds into that second.
#[derive(Debug, Clone, Copy, PartialEq, Eq, Structural)]
pub struct Timestamp {
    pub seconds: i64,
    pub nanos: i32,
}

/// The date and time that lies the given seconds and nanoseconds after the
/// Unix epoch, or `None` where they are out of range.
pub uninterp spec fn naive_at(seconds: int, nanos: int) -> Option<chrono::NaiveDateTime>;

/// The whole seconds from the Unix epoch to a date and time, taken as UTC.
pub uninterp spec fn epoch_seconds(at: chrono::NaiveDateTime) -> int;

/// The nanoseconds of a date and time into its second, as a signed number.
pub uninterp spec fn subsec_nanos(at: chrono::NaiveDateTime) -> int;

/// The decimal number that a text stands for, or `None` where it stands for
/// none.
pub uninterp spec fn decimal_of_text(text: Seq<char>) -> Option<rust_decimal::Decimal>;

/// The text of a decimal number.
pub uninterp spec fn decimal_text(number: rust_decimal::Decimal) -> Seq<char>;

/// Wraps `DateTime::from_timestamp` and `DateTime::naive_utc`: the date and
/// time at the given seconds and nanoseconds, or `None` where the seconds
/// are out of range or the nanoseconds are two billion or more.
#[verifier::external_body]
fn naive_from_timestamp(seconds: i64, nanos: u32) -> (at: Option<chrono::NaiveDateTime>)
    ensures
        at == naive_at(seconds as int, nanos as int),
{
    match chrono::DateTime::from_timestamp(seconds, nanos) {
        Some(at) => Some(at.naive_utc()),
        None => None,
    }
}

/// Wraps `NaiveDateTime::and_utc` and `DateTime::timestamp`: the whole
/// seconds from the Unix epoch to the date and time, taken as UTC.
#[verifier::external_body]
fn naive_epoch_seconds(at: &chrono::NaiveDateTime) -> (seconds: i64)
    ensures
        seconds == epoch_seconds(*at),
{
    at.and_utc().timestamp()
}

/// Wraps `NaiveDateTime::and_utc` and `DateTime::timestamp_subsec_nanos`:
/// the nanoseconds of the date and time into its second, as a signed number.
#[verifier::external_body]
fn naive_subsec_nanos(at: &chrono::NaiveDateTime) -> (nanos: i32)
    ensures
        nanos == subsec_nanos(*at),
{
    at.and_utc().timestamp_subsec_nanos() as i32
}

/// Wraps `Decimal::from_str`: the number that the text stands for, or `None`
/// where parsing fails.
#[verifier::external_body]
fn parse_decimal(text: &str) -> (number: Option<rust_decimal::Decimal>)
    ensures
        number == decimal_of_text(text@),
{
    <rust_decimal::Decimal as std::str::FromStr>::from_str(text).ok()
}

/// Wraps `Decimal::to_string`: the text of the number.
#[verifier::external_body]
fn decimal_to_string(number: &rust_decimal::Decimal) -> (text: String)
    ensures
        text@ == decimal_text(*number),
{
    number.to_string()
}

/// The date and time of a timestamp, or `None` where its nanoseconds are
/// negative or it is out of range.
pub open spec fn instant_of(timestamp: Timestamp) -> Option<chrono::NaiveDateTime> {
    if timestamp.nanos < 0 {
        None
    } else {
        naive_at(timestamp.seconds as int, timestamp.nanos as int)
    }
}

/// The date and time of a timestamp that must be there.
pub open spec fn required_instant(timestamp: Option<Timestamp>) -> Option<chrono::NaiveDateTime> {
    match timestamp {
        Some(stamp) => instant_of(stamp),
        None => None,
    }
}

/// The date and time of a timestamp that may be absent: `None` where the
/// timestamp is there and has no date and time.
pub open spec fn optional_instant(timestamp: Option<Timestamp>) -> Option<
    Option<chrono::NaiveDateTime>,
> {
    match timestamp {
        Some(stamp) => match instant_of(stamp) {
            Some(at) => Some(Some(at)),
            None => None,
        },
        None => Some(None),
    }
}

/// The timestamp of a date and time.
pub open spec fn timestamp_of(at: chrono::NaiveDateTime) -> Timestamp {
    Timestamp { seconds: epoch_seconds(at) as i64, nanos: subsec_nanos(at) as i32 }
}

/// The timestamp of a date and time that may be absent.
pub open spec fn optional_timestamp_of(at: Option<chrono::NaiveDateTime>) -> Option<Timestamp> {
    match at {
        Some(t) => Some(timestamp_of(t)),
        None => None,
    }
}

/// Converts a timestamp to its date and time. The timestamp must have one:
/// its nanoseconds are not negative and it is in range.
pub fn from_timestamp_to_chrono(timestamp: Timestamp) -> (at: chrono::NaiveDateTime)
    requires
        instant_of(timestamp) is Some,
    ensures
        Some(at) == instant_of(timestamp),
{
    match naive_from_timestamp(timestamp.seconds, timestamp.nanos as u32) {
        Some(at) => at,
        None => vstd::pervasive::unreached(),
    }
}

/// Converts a timestamp to a date and time, where it has one; `None` says
/// that it has none.
pub fn try_from_timestamp_to_chrono(timestamp: Timestamp) -> (at: Option<chrono::NaiveDateTime>)
    ensures
        at == instant_of(timestamp),
{
    if timestamp.nanos < 0 {
        return None;
    }
    match naive_from_timestamp(timestamp.seconds, timestamp.nanos as u32) {
        Some(_) => Some(from_timestamp_to_chrono(timestamp)),
        None => None,
    }
}

/// Converts a date and time to a timestamp.
pub fn from_chrono_to_timestamp(timestamp: chrono::NaiveDateTime) -> (stamp: Timestamp)
    ensures
        stamp == timestamp_of(timestamp),
{
    Timestamp { seconds: naive_epoch_seconds(&timestamp), nanos: naive_subsec_nanos(&timestamp) }
}

/// A payment as the payment service sends it: numbers, statuses and sides
/// as text, points in time as seconds and nanoseconds.
#[derive(Debug)]
pub struct PaymentProto {
    pub id: String,
    pub external_id: String,
    pub merchant_id: String,
    pub client_id: Option<String>,
    pub trader_id: String,
    pub requisite_id: String,
    pub bank_id: String,
    pub status: String,
    pub payment_side: String,
    pub currency: String,
    pub target_amount: String,
    pub fiat_amount: String,
    pub crypto_amount: String,
    pub trader_crypto_amount: String,
    pub exchange_rate: String,
    pub fee_type: String,
    pub crypto_fee: String,
    pub fiat_fee: String,
    pub trader_crypto_fee: String,
    pub trader_fiat_fee: String,
    pub holder_name: String,
    pub holder_account: String,
    pub bank_name: String,
    pub method: String,
    pub margin: String,
    pub trader_margin: String,
    pub earnings: String,
    pub created_at: Option<Timestamp>,
    pub updated_at: Option<Timestamp>,
    pub deadline: Option<Timestamp>,
    pub last_four: String,
    pub card_last_four: String,
    pub close_by: Option<String>,
}

/// Whether a sent payment says what a stored payment holds: texts as they
/// are, numbers, statuses and sides by their text, points in time by their
/// timestamp.
pub open spec fn proto_of(proto: PaymentProto, value: FullPayment) -> bool {
    &&& proto.id == value.id
    &&& proto.external_id == value.external_id
    &&& proto.merchant_id == value.merchant_id
    &&& proto.client_id == value.client_id
    &&& proto.trader_id == value.trader_id
    &&& proto.requisite_id == value.requisite_id
    &&& proto.bank_id == value.bank_id
    &&& proto.status@ == value.status.text()
    &&& proto.payment_side@ == value.payment_side.text()
    &&& proto.currency == value.currency
    &&& proto.target_amount@ == decimal_text(value.target_amount)
    &&& proto.fiat_amount@ == decimal_text(value.fiat_amount)
    &&& proto.crypto_amount@ == decimal_text(value.crypto_amount)
    &&& proto.trader_crypto_amount@ == decimal_text(value.trader_crypto_amount)
    &&& proto.exchange_rate@ == decimal_text(value.exchange_rate)
    &&& proto.fee_type@ == value.fee_type.text()
    &&& proto.crypto_fee@ == decimal_text(value.crypto_fee)
    &&& proto.fiat_fee@ == decimal_text(value.fiat_fee)
    &&& proto.trader_crypto_fee@ == decimal_text(value.trader_crypto_fee)
    &&& proto.trader_fiat_fee@ == decimal_text(value.trader_fiat_fee)
    &&& proto.holder_name == value.holder_name
    &&& proto.holder_account == value.holder_account
    &&& proto.bank_name == value.bank_name
    &&& proto.method == value.method
    &&& proto.margin@ == decimal_text(value.margin)
    &&& proto.trader_margin@ == decimal_text(value.trader_margin)
    &&& proto.earnings@ == decimal_text(value.earnings)
    &&& proto.created_at == Some(timestamp_of(value.created_at))
    &&& proto.updated_at == optional_timestamp_of(value.updated_at)
    &&& proto.deadline == Some(timestamp_of(value.deadline))
    &&& proto.last_four == value.last_four
    &&& proto.card_last_four == value.card_last_four
    &&& proto.close_by == value.close_by
}

/// Whether every part of a sent payment can be read: each number, status
/// and side stands for one, and each point in time that must be there is
/// there and in range.
pub open spec fn proto_is_readable(proto: PaymentProto) -> bool {
    &&& PaymentStatuses::named(proto.status@) is Some
    &&& PaymentSides::named(proto.payment_side@) is Some
    &&& decimal_of_text(proto.target_amount@) is Some
    &&& decimal_of_text(proto.fiat_amount@) is Some
    &&& decimal_of_text(proto.crypto_amount@) is Some
    &&& decimal_of_text(proto.trader_crypto_amount@) is Some
    &&& decimal_of_text(proto.exchange_rate@) is Some
    &&& FeeTypes::named(proto.fee_type@) is Some
    &&& decimal_of_text(proto.crypto_fee@) is Some
    &&& decimal_of_text(proto.fiat_fee@) is Some
    &&& decimal_of_text(proto.trader_crypto_fee@) is Some
    &&& decimal_of_text(proto.trader_fiat_fee@) is Some
    &&& decimal_of_text(proto.margin@) is Some
    &&& decimal_of_text(proto.trader_margin@) is Some
    &&& decimal_of_text(proto.earnings@) is Some
    &&& required_instant(proto.created_at) is Some
    &&& optional_instant(proto.updated_at) is Some
    &&& required_instant(proto.deadline) is Some
}

/// Whether a stored payment holds what a sent payment says.
pub open spec fn payment_of_proto(value: FullPayment, proto: PaymentProto) -> bool {
    &&& value.id == proto.id
    &&& value.external_id == proto.external_id
    &&& value.merchant_id == proto.merchant_id
    &&& value.client_id == proto.client_id
    &&& value.trader_id == proto.trader_id
    &&& value.requisite_id == proto.requisite_id
    &&& value.bank_id == proto.bank_id
    &&& Some(value.status) == PaymentStatuses::named(proto.status@)
    &&& Some(value.payment_side) == PaymentSides::named(proto.payment_side@)
    &&& value.currency == proto.currency
    &&& Some(value.target_amount) == decimal_of_text(proto.target_amount@)
    &&& Some(value.fiat_amount) == decimal_of_text(proto.fiat_amount@)
    &&& Some(value.crypto_amount) == decimal_of_text(proto.crypto_amount@)
    &&& Some(value.trader_crypto_amount) == decimal_of_text(proto.trader_crypto_amount@)
    &&& Some(value.exchange_rate) == decimal_of_text(proto.exchange_rate@)
    &&& Some(value.fee_type) == FeeTypes::named(proto.fee_type@)
    &&& Some(value.crypto_fee) == decimal_of_text(proto.crypto_fee@)
    &&& Some(value.fiat_fee) == decimal_of_text(proto.fiat_fee@)
    &&& Some(value.trader_crypto_fee) == decimal_of_text(proto.trader_crypto_fee@)
    &&& Some(value.trader_fiat_fee) == decimal_of_text(proto.trader_fiat_fee@)
    &&& value.holder_name == proto.holder_name
    &&& value.holder_account == proto.holder_account
    &&& value.bank_name == proto.bank_name
    &&& value.method == proto.method
    &&& Some(value.margin) == decimal_of_text(proto.margin@)
    &&& Some(value.trader_margin) == decimal_of_text(proto.trader_margin@)
    &&& Some(value.earnings) == decimal_of_text(proto.earnings@)
    &&& Some(value.created_at) == required_instant(proto.created_at)
    &&& Some(value.updated_at) == optional_instant(proto.updated_at)
    &&& Some(value.deadline) == required_instant(proto.deadline)
    &&& value.last_four == proto.last_four
    &&& value.card_last_four == proto.card_last_four
    &&& value.close_by == proto.close_by
}

/// Whether the parts of a sent payment that a merchant sees can be read.
pub open spec fn proto_is_readable_for_merchant(proto: PaymentProto) -> bool {
    &&& PaymentStatuses::named(proto.status@) is Some
    &&& PaymentSides::named(proto.payment_side@) is Some
    &&& decimal_of_text(proto.target_amount@) is Some
    &&& decimal_of_text(proto.fiat_amount@) is Some
    &&& decimal_of_text(proto.crypto_amount@) is Some
    &&& FeeTypes::named(proto.fee_type@) is Some
    &&& decimal_of_text(proto.margin@) is Some
    &&& decimal_of_text(proto.exchange_rate@) is Some
    &&& decimal_of_text(proto.fiat_fee@) is Some
    &&& decimal_of_text(proto.crypto_fee@) is Some
    &&& required_instant(proto.created_at) is Some
    &&& optional_instant(proto.updated_at) is Some
    &&& required_instant(proto.deadline) is Some
}

/// Whether a merchant's view holds what a sent payment says.
pub open spec fn merchant_payment_of_proto(value: MerchantPayment, proto: PaymentProto) -> bool {
    &&& value.id == proto.id
    &&& value.external_id == proto.external_id
    &&& value.merchant_id == proto.merchant_id
    &&& value.client_id == proto.client_id
    &&& Some(value.status) == PaymentStatuses::named(proto.status@)
    &&& Some(value.payment_side) == PaymentSides::named(proto.payment_side@)
    &&& value.currency == proto.currency
    &&& Some(value.target_amount) == decimal_of_text(proto.target_amount@)
    &&& Some(value.fiat_amount) == decimal_of_text(proto.fiat_amount@)
    &&& Some(value.crypto_amount) == decimal_of_text(proto.crypto_amount@)
    &&& Some(value.fee_type) == FeeTypes::named(proto.fee_type@)
    &&& Some(value.margin) == decimal_of_text(proto.margin@)
    &&& Some(value.exchange_rate) == decimal_of_text(proto.exchange_rate@)
    &&& Some(value.fiat_fee) == decimal_of_text(proto.fiat_fee@)
    &&& Some(value.crypto_fee) == decimal_of_text(proto.crypto_fee@)
    &&& value.holder_name == proto.holder_name
    &&& value.holder_account == proto.holder_account
    &&& value.bank_name == proto.bank_name
    &&& value.method == proto.method
    &&& Some(value.created_at) == required_instant(proto.created_at)
    &&& Some(value.updated_at) == optional_instant(proto.updated_at)
    &&& Some(value.deadline) == required_instant(proto.deadline)
}

impl PaymentProto {
    /// The form in which a stored payment is sent.
    pub fn from(value: FullPayment) -> (proto: PaymentProto)
        ensures
            proto_of(proto, value),
    {
        PaymentProto {
            id: value.id,
            external_id: value.external_id,
            merchant_id: value.merchant_id,
            client_id: value.client_id,
            trader_id: value.trader_id,
            requisite_id: value.requisite_id,
            bank_id: value.bank_id,
            status: value.status.to_string(),
            payment_side: value.payment_side.to_string(),
            currency: value.currency,
            target_amount: decimal_to_string(&value.target_amount),
            fiat_amount: decimal_to_string(&value.fiat_amount),
            crypto_amount: decimal_to_string(&value.crypto_amount),
            trader_crypto_amount: decimal_to_string(&value.trader_crypto_amount),
            exchange_rate: decimal_to_string(&value.exchange_rate),
            fee_type: value.fee_type.to_string(),
            crypto_fee: decimal_to_string(&value.crypto_fee),
            fiat_fee: decimal_to_string(&value.fiat_fee),
            trader_crypto_fee: decimal_to_string(&value.trader_crypto_fee),
            trader_fiat_fee: decimal_to_string(&value.trader_fiat_fee),
            holder_name: value.holder_name,
            holder_account: value.holder_account,
            bank_name: value.bank_name,
            method: value.method,
            margin: decimal_to_string(&value.margin),
            trader_margin: decimal_to_string(&value.trader_margin),
            earnings: decimal_to_string(&value.earnings),
            created_at: Some(from_chrono_to_timestamp(value.created_at)),
            updated_at: match value.updated_at {
                Some(at) => Some(from_chrono_to_timestamp(at)),
                None => None,
            },
            deadline: Some(from_chrono_to_timestamp(value.deadline)),
            last_four: value.last_four,
            card_last_four: value.card_last_four,
            close_by: value.close_by,
        }
    }
}

impl FullPayment {
    /// Reads a sent payment. It gives `None` where a part of it cannot be
    /// read: a number, a status, a side or a fee type that stands for none,
    /// a point in time that is out of range, or a missing time of creation
    /// or deadline.
    pub fn from_proto(proto: PaymentProto) -> (read: Option<FullPayment>)
        ensures
            read is Some <==> proto_is_readable(proto),
            read matches Some(value) ==> payment_of_proto(value, proto),
    {
        let status = match PaymentStatuses::from_str(proto.status.as_str()) {
            Ok(known) => known,
            Err(_) => return None,
        };
        let payment_side = match PaymentSides::from_str(proto.payment_side.as_str()) {
            Ok(known) => known,
            Err(_) => return None,
        };
        let target_amount = match parse_decimal(proto.target_amount.as_str()) {
            Some(number) => number,
            None => return None,
        };
        let fiat_amount = match parse_decimal(proto.fiat_amount.as_str()) {
            Some(number) => number,
            None => return None,
        };
        let crypto_amount = match parse_decimal(proto.crypto_amount.as_str()) {
            Some(number) => number,
            None => return None,
        };
        let trader_crypto_amount = match parse_decimal(proto.trader_crypto_amount.as_str()) {
            Some(number) => number,
            None => return None,
        };
        let exchange_rate = match parse_decimal(proto.exchange_rate.as_str()) {
            Some(number) => number,
            None => return None,
        };
        let fee_type = match FeeTypes::from_str(proto.fee_type.as_str()) {
            Ok(known) => known,
            Err(_) => return None,
        };
        let crypto_fee = match parse_decimal(proto.crypto_fee.as_str()) {
            Some(number) => number,
            None => return None,
        };
        let fiat_fee = match parse_decimal(proto.fiat_fee.as_str()) {
            Some(number) => number,
            None => return None,
        };
        let trader_crypto_fee = match parse_decimal(proto.trader_crypto_fee.as_str()) {
            Some(number) => number,
            None => return None,
        };
        let trader_fiat_fee = match parse_decimal(proto.trader_fiat_fee.as_str()) {
            Some(number) => number,
            None => return None,
        };
        let margin = match parse_decimal(proto.margin.as_str()) {
            Some(number) => number,
            None => return None,
        };
        let trader_margin = match parse_decimal(proto.trader_margin.as_str()) {
            Some(number) => number,
            None => return None,
        };
        let earnings = match parse_decimal(proto.earnings.as_str()) {
            Some(number) => number,
            None => return None,
        };
        let created_at = match proto.created_at {
            Some(stamp) => match try_from_timestamp_to_chrono(stamp) {
                Some(at) => at,
                None => return None,
            },
            None => return None,
        };
        let updated_at = match proto.updated_at {
            Some(stamp) => match try_from_timestamp_to_chrono(stamp) {
                Some(at) => Some(at),
                None => return None,
            },
            None => None,
        };
        let deadline = match proto.deadline {
            Some(stamp) => match try_from_timestamp_to_chrono(stamp) {
                Some(at) => at,
                None => return None,
            },
            None => return None,
        };
        Some(FullPayment {
            id: proto.id,
            external_id: proto.external_id,
            merchant_id: proto.merchant_id,
            client_id: proto.client_id,
            trader_id: proto.trader_id,
            requisite_id: proto.requisite_id,
            bank_id: proto.bank_id,
            status,
            payment_side,
            currency: proto.currency,
            target_amount,
            fiat_amount,
            crypto_amount,
            trader_crypto_amount,
            exchange_rate,
            fee_type,
            crypto_fee,
            fiat_fee,
            trader_crypto_fee,
            trader_fiat_fee,
            holder_name: proto.holder_name,
            holder_account: proto.holder_account,
            bank_name: proto.bank_name,
            method: proto.method,
            margin,
            trader_margin,
            earnings,
            created_at,
            updated_at,
            deadline,
            last_four: proto.last_four,
            card_last_four: proto.card_last_four,
            close_by: proto.close_by,
        })
    }
}

impl MerchantPayment {
    /// Reads the merchant's view of a sent payment. It gives `None` where a
    /// part that the merchant sees cannot be read.
    pub fn from_proto(proto: PaymentProto) -> (read: Option<MerchantPayment>)
        ensures
            read is Some <==> proto_is_readable_for_merchant(proto),
            read matches Some(value) ==> merchant_payment_of_proto(value, proto),
    {
        let status = match PaymentStatuses::from_str(proto.status.as_str()) {
            Ok(known) => known,
            Err(_) => return None,
        };
        let payment_side = match PaymentSides::from_str(proto.payment_side.as_str()) {
            Ok(known) => known,
            Err(_) => return None,
        };
        let target_amount = match parse_decimal(proto.target_amount.as_str()) {
            Some(number) => number,
            None => return None,
        };
        let fiat_amount = match parse_decimal(proto.fiat_amount.as_str()) {
            Some(number) => number,
            None => return None,
        };
        let crypto_amount = match parse_decimal(proto.crypto_amount.as_str()) {
            Some(number) => number,
            None => return None,
        };
        let fee_type = match FeeTypes::from_str(proto.fee_type.as_str()) {
            Ok(known) => known,
            Err(_) => return None,
        };
        let margin = match parse_decimal(proto.margin.as_str()) {
            Some(number) => number,
            None => return None,
        };
        let exchange_rate = match parse_decimal(proto.exchange_rate.as_str()) {
            Some(number) => number,
            None => return None,
        };
        let fiat_fee = match parse_decimal(proto.fiat_fee.as_str()) {
            Some(number) => number,
            None => return None,
        };
        let crypto_fee = match parse_decimal(proto.crypto_fee.as_str()) {
            Some(number) => number,
            None => return None,
        };
        let created_at = match proto.created_at {
            Some(stamp) => match try_from_timestamp_to_chrono(stamp) {
                Some(at) => at,
                None => return None,
            },
            None => return None,
        };
        let updated_at = match proto.updated_at {
            Some(stamp) => match try_from_timestamp_to_chrono(stamp) {
                Some(at) => Some(at),
                None => return None,
            },
            None => None,
        };
        let deadline = match proto.deadline {
            Some(stamp) => match try_from_timestamp_to_chrono(stamp) {
                Some(at) => at,
                None => return None,
            },
            None => return None,
        };
        Some(MerchantPayment {
            id: proto.id,
            external_id: proto.external_id,
            merchant_id: proto.merchant_id,
            client_id: proto.client_id,
            status,
            payment_side,
            currency: proto.currency,
            target_amount,
            fiat_amount,
            crypto_amount,
            fee_type,
            margin,
            exchange_rate,
            fiat_fee,
            crypto_fee,
            holder_name: proto.holder_name,
            holder_account: proto.holder_account,
            bank_name: proto.bank_name,
            method: proto.method,
            created_at,
            updated_at,
            deadline,
        })
    }
}

} // verus!
