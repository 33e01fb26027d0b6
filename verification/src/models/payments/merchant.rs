//! Payments as a merchant sees them, and the requests of a merchant for its
//! payments.

use vstd::prelude::*;
use vstd::string::*;

use crate::models::payments::payment::{FeeTypes, FullPayment, PaymentSides, PaymentStatuses};
use crate::models::payments::payment::{PaymentStatusesSlim, ToSQL};

verus! {

/// A payment as its merchant sees it.
#[derive(Debug)]
pub struct MerchantPayment {
    pub id: String,
    pub external_id: String,
    pub merchant_id: String,
    pub client_id: Option<String>,
    pub status: PaymentStatuses,
    pub payment_side: PaymentSides,
    pub currency: String,
    pub target_amount: rust_decimal::Decimal,
    pub fiat_amount: rust_decimal::Decimal,
    pub crypto_amount: rust_decimal::Decimal,
    pub fee_type: FeeTypes,
    pub margin: rust_decimal::Decimal,
    pub exchange_rate: rust_decimal::Decimal,
    pub fiat_fee: rust_decimal::Decimal,
    pub crypto_fee: rust_decimal::Decimal,
    pub holder_name: String,
    pub holder_account: String,
    pub bank_name: String,
    pub method: String,
    pub created_at: chrono::NaiveDateTime,
    pub updated_at: Option<chrono::NaiveDateTime>,
    pub deadline: chrono::NaiveDateTime,
}

impl ToSQL for MerchantPayment {
    /// The statement that selects the columns of a merchant's view.
    fn sql() -> (text: String)
        ensures
            text@ == "SELECT id, external_id, merchant_id, client_id, status,\n        payment_side, currency, target_amount, fiat_amount, crypto_amount,\n        fee_type, margin, exchange_rate, fiat_fee, crypto_fee, holder_name, holder_account,\n        bank_name, method, created_at, updated_at, deadline\n        FROM payments"@,
    {
        String::from_str("SELECT id, external_id, merchant_id, client_id, status,\n        payment_side, currency, target_amount, fiat_amount, crypto_amount,\n        fee_type, margin, exchange_rate, fiat_fee, crypto_fee, holder_name, holder_account,\n        bank_name, method, created_at, updated_at, deadline\n        FROM payments")
    }
}

impl From<FullPayment> for MerchantPayment {
    /// The merchant's view of a payment: each field is the payment's field of the same name.
    fn from(payment: FullPayment) -> (view: MerchantPayment) {
        MerchantPayment {
            id: payment.id,
            external_id: payment.external_id,
            merchant_id: payment.merchant_id,
            client_id: payment.client_id,
            status: payment.status,
            payment_side: payment.payment_side,
            currency: payment.currency,
            target_amount: payment.target_amount,
            fiat_amount: payment.fiat_amount,
            crypto_amount: payment.crypto_amount,
            fee_type: payment.fee_type,
            margin: payment.margin,
            exchange_rate: payment.exchange_rate,
            fiat_fee: payment.fiat_fee,
            crypto_fee: payment.crypto_fee,
            holder_name: payment.holder_name,
            holder_account: payment.holder_account,
            bank_name: payment.bank_name,
            method: payment.method,
            created_at: payment.created_at,
            updated_at: payment.updated_at,
            deadline: payment.deadline,
        }
    }
}

impl vstd::std_specs::convert::FromSpecImpl<FullPayment> for MerchantPayment {
    open spec fn obeys_from_spec() -> bool {
        true
    }

    open spec fn from_spec(payment: FullPayment) -> MerchantPayment {
        MerchantPayment {
            id: payment.id,
            external_id: payment.external_id,
            merchant_id: payment.merchant_id,
            client_id: payment.client_id,
            status: payment.status,
            payment_side: payment.payment_side,
            currency: payment.currency,
            target_amount: payment.target_amount,
            fiat_amount: payment.fiat_amount,
            crypto_amount: payment.crypto_amount,
            fee_type: payment.fee_type,
            margin: payment.margin,
            exchange_rate: payment.exchange_rate,
            fiat_fee: payment.fiat_fee,
            crypto_fee: payment.crypto_fee,
            holder_name: payment.holder_name,
            holder_account: payment.holder_account,
            bank_name: payment.bank_name,
            method: payment.method,
            created_at: payment.created_at,
            updated_at: payment.updated_at,
            deadline: payment.deadline,
        }
    }
}

/// The filters by which a merchant lists its payments.
#[derive(Debug)]
pub struct GetMerchantPayments {
    pub id: Option<String>,
    pub client_id: Option<String>,
    pub status: Option<Vec<PaymentStatusesSlim>>,
    pub payment_side: Option<PaymentSides>,
    pub from: Option<chrono::NaiveDateTime>,
    pub to: Option<chrono::NaiveDateTime>,
    pub limit: Option<u32>,
    pub page: Option<u32>,
}

} // verus!
