//! Payments as a trader sees them, and the requests of a trader for its
//! payments.

use vstd::prelude::*;
use vstd::string::*;

use crate::models::payments::payment::{FullPayment, PaymentSides, PaymentStatuses};
use crate::models::payments::payment::{PaymentStatusesSlim, ToSQL};

verus! {

/// A payment as its trader sees it.
#[derive(Debug)]
pub struct TraderPayment {
    pub id: String,
    pub requisite_id: String,
    pub holder_account: String,
    pub bank_id: String,
    pub bank_name: String,
    pub method: String,
    pub status: PaymentStatuses,
    pub payment_side: PaymentSides,
    pub currency: String,
    pub margin: rust_decimal::Decimal,
    pub exchange_rate: rust_decimal::Decimal,
    pub fiat_amount: rust_decimal::Decimal,
    pub crypto_amount: rust_decimal::Decimal,
    pub crypto_earnings: rust_decimal::Decimal,
    pub fiat_earnings: rust_decimal::Decimal,
    pub created_at: chrono::NaiveDateTime,
    pub updated_at: Option<chrono::NaiveDateTime>,
    pub deadline: chrono::NaiveDateTime,
}

impl ToSQL for TraderPayment {
    /// The statement that selects the columns of a trader's view.
    fn sql() -> (text: String)
        ensures
            text@ == "SELECT id, requisite_id, holder_account, bank_id, \n        bank_name, method, status, payment_side, currency, trader_margin, exchange_rate, fiat_amount, \n        trader_crypto_amount, trader_crypto_fee, trader_fiat_fee, created_at, updated_at, deadline\n        FROM payments"@,
    {
        String::from_str("SELECT id, requisite_id, holder_account, bank_id, \n        bank_name, method, status, payment_side, currency, trader_margin, exchange_rate, fiat_amount, \n        trader_crypto_amount, trader_crypto_fee, trader_fiat_fee, created_at, updated_at, deadline\n        FROM payments")
    }
}

impl From<FullPayment> for TraderPayment {
    /// The trader's view of a payment. The margin and the crypto amount are those of the payment as a whole; the earnings are the trader's fees.
    fn from(payment: FullPayment) -> (view: TraderPayment) {
        TraderPayment {
            id: payment.id,
            requisite_id: payment.requisite_id,
            holder_account: payment.holder_account,
            bank_id: payment.bank_id,
            bank_name: payment.bank_name,
            method: payment.method,
            status: payment.status,
            payment_side: payment.payment_side,
            currency: payment.currency,
            margin: payment.margin,
            exchange_rate: payment.exchange_rate,
            fiat_amount: payment.fiat_amount,
            crypto_amount: payment.crypto_amount,
            crypto_earnings: payment.trader_crypto_fee,
            fiat_earnings: payment.trader_fiat_fee,
            created_at: payment.created_at,
            updated_at: payment.updated_at,
            deadline: payment.deadline,
        }
    }
}

impl vstd::std_specs::convert::FromSpecImpl<FullPayment> for TraderPayment {
    open spec fn obeys_from_spec() -> bool {
        true
    }

    open spec fn from_spec(payment: FullPayment) -> TraderPayment {
        TraderPayment {
            id: payment.id,
            requisite_id: payment.requisite_id,
            holder_account: payment.holder_account,
            bank_id: payment.bank_id,
            bank_name: payment.bank_name,
            method: payment.method,
            status: payment.status,
            payment_side: payment.payment_side,
            currency: payment.currency,
            margin: payment.margin,
            exchange_rate: payment.exchange_rate,
            fiat_amount: payment.fiat_amount,
            crypto_amount: payment.crypto_amount,
            crypto_earnings: payment.trader_crypto_fee,
            fiat_earnings: payment.trader_fiat_fee,
            created_at: payment.created_at,
            updated_at: payment.updated_at,
            deadline: payment.deadline,
        }
    }
}

/// The trader's share of a payment, as it is computed before the payment is
/// stored.
#[derive(Debug)]
pub struct TraderPaymentBuilder {
    pub trader_fiat_fee: rust_decimal::Decimal,
    pub trader_crypto_fee: rust_decimal::Decimal,
    pub trader_crypto_amount: rust_decimal::Decimal,
    pub trader_margin: rust_decimal::Decimal,
}

/// A payment as its trader sees it in a list.
#[derive(Debug)]
pub struct TraderPaymentSlim {
    pub id: String,
    pub holder_account: String,
    pub status: PaymentStatuses,
    pub payment_side: PaymentSides,
    pub currency: String,
    pub exchange_rate: rust_decimal::Decimal,
    pub fiat_amount: rust_decimal::Decimal,
    pub crypto_amount: rust_decimal::Decimal,
    pub crypto_earnings: rust_decimal::Decimal,
    pub created_at: chrono::NaiveDateTime,
    pub deadline: chrono::NaiveDateTime,
}

impl ToSQL for TraderPaymentSlim {
    /// The statement that selects the columns of a trader's list view.
    fn sql() -> (text: String)
        ensures
            text@ == "SELECT id, holder_account, status, payment_side, currency, exchange_rate, fiat_amount,\n    trader_crypto_amount, trader_crypto_fee, created_at, deadline\n    FROM payments"@,
    {
        String::from_str("SELECT id, holder_account, status, payment_side, currency, exchange_rate, fiat_amount,\n    trader_crypto_amount, trader_crypto_fee, created_at, deadline\n    FROM payments")
    }
}

/// The filters by which a trader lists its payments.
#[derive(Debug)]
pub struct GetPaymentsTrader {
    pub id: Option<String>,
    pub status: Option<Vec<PaymentStatusesSlim>>,
    pub bank_id: Option<String>,
    pub limit: Option<u32>,
    pub page: Option<u32>,
}

} // verus!
