//! Payment vocabulary: fee types, sides and statuses, each with the text
//! that stands for it in requests and in the store.

use vstd::prelude::*;
use vstd::string::*;

use crate::text::{joined, str_eq, to_uppercase, uppercase};

verus! {

/// A record that knows the statement which selects its columns.
pub trait ToSQL {
    /// The `SELECT` statement for this record, without conditions.
    fn sql() -> String;
}

/// A parse result with the characters of its message.
pub open spec fn parse_result<T>(result: Result<T, String>) -> Result<T, Seq<char>> {
    match result {
        Ok(value) => Ok(value),
        Err(message) => Err(message@),
    }
}

/// Who pays the fee of a payment.
#[derive(Debug, Clone, Copy, PartialEq, Eq, Structural)]
pub enum FeeTypes {
    /// The customer pays the fee.
    ChargeCustomer,
    /// The merchant pays the fee.
    ChargeMerchant,
}

impl Default for FeeTypes {
    fn default() -> (value: FeeTypes)
        ensures
            value == FeeTypes::ChargeCustomer,
    {
        FeeTypes::ChargeCustomer
    }
}

impl FeeTypes {
    /// The text that stands for this fee type.
    pub open spec fn text(self) -> Seq<char> {
        match self {
            FeeTypes::ChargeCustomer => "charge_customer"@,
            FeeTypes::ChargeMerchant => "charge_merchant"@,
        }
    }

    /// The fee type that a text stands for, if any.
    pub open spec fn named(text: Seq<char>) -> Option<FeeTypes> {
        if text == "charge_customer"@ {
            Some(FeeTypes::ChargeCustomer)
        } else if text == "charge_merchant"@ {
            Some(FeeTypes::ChargeMerchant)
        } else {
            None
        }
    }

    /// The message for a text that stands for no fee type.
    pub open spec fn unknown(text: Seq<char>) -> Seq<char> {
        "unknown fee_types "@ + text
    }

    /// What parsing returns for a text, given the text in which the fee type is looked up.
    pub open spec fn parsed(lookup: Seq<char>, given: Seq<char>) -> Result<FeeTypes, Seq<char>> {
        match FeeTypes::named(lookup) {
            Some(value) => Ok(value),
            None => Err(FeeTypes::unknown(given)),
        }
    }

    /// The text that stands for this fee type.
    pub fn as_str(&self) -> (text: &'static str)
        ensures
            text@ == self.text(),
    {
        match self {
            FeeTypes::ChargeCustomer => "charge_customer",
            FeeTypes::ChargeMerchant => "charge_merchant",
        }
    }

    /// The text that stands for this fee type, as an owned string.
    pub fn to_string(&self) -> (text: String)
        ensures
            text@ == self.text(),
    {
        String::from_str(self.as_str())
    }

    /// Parses the text that stands for a fee type. Any other text is an
    /// error, whose message names the text.
    pub fn from_str(s: &str) -> (result: Result<FeeTypes, String>)
        ensures
            crate::models::payments::payment::parse_result(result) == FeeTypes::parsed(s@, s@),
    {
        if str_eq(s, "charge_customer") {
            Ok(FeeTypes::ChargeCustomer)
        } else if str_eq(s, "charge_merchant") {
            Ok(FeeTypes::ChargeMerchant)
        } else {
            Err(String::from_str("unknown fee_types ").concat(s))
        }
    }

    /// Each fee type is the one that its own text stands for.
    pub proof fn text_round_trip(self)
        ensures
            FeeTypes::named(self.text()) == Some(self),
    {
        reveal_strlit("charge_customer");
        reveal_strlit("charge_merchant");
        assert("charge_customer"@.len() == 15);
        assert("charge_merchant"@.len() == 15);
        assert("charge_customer"@[7] != "charge_merchant"@[7]);
    }
}

impl std::str::FromStr for FeeTypes {
    type Err = String;

    fn from_str(s: &str) -> (result: Result<FeeTypes, String>)
        ensures
            parse_result(result) == FeeTypes::parsed(s@, s@),
    {
        FeeTypes::from_str(s)
    }
}

/// The side of a payment.
#[derive(Debug, Clone, Copy, PartialEq, Eq, Structural)]
pub enum PaymentSides {
    /// The customer buys.
    Buy,
    /// The customer sells.
    Sell,
}

impl Default for PaymentSides {
    fn default() -> (value: PaymentSides)
        ensures
            value == PaymentSides::Buy,
    {
        PaymentSides::Buy
    }
}

impl PaymentSides {
    /// The text that stands for this side.
    pub open spec fn text(self) -> Seq<char> {
        match self {
            PaymentSides::Buy => "BUY"@,
            PaymentSides::Sell => "SELL"@,
        }
    }

    /// The side that a text stands for, if any.
    pub open spec fn named(text: Seq<char>) -> Option<PaymentSides> {
        if text == "BUY"@ {
            Some(PaymentSides::Buy)
        } else if text == "SELL"@ {
            Some(PaymentSides::Sell)
        } else {
            None
        }
    }

    /// The message for a text that stands for no side.
    pub open spec fn unknown(text: Seq<char>) -> Seq<char> {
        "unknown payment sides "@ + text
    }

    /// What parsing returns for a text, given the text in which the side is looked up.
    pub open spec fn parsed(lookup: Seq<char>, given: Seq<char>) -> Result<PaymentSides, Seq<char>> {
        match PaymentSides::named(lookup) {
            Some(value) => Ok(value),
            None => Err(PaymentSides::unknown(given)),
        }
    }

    /// The text that stands for this side.
    pub fn as_str(&self) -> (text: &'static str)
        ensures
            text@ == self.text(),
    {
        match self {
            PaymentSides::Buy => "BUY",
            PaymentSides::Sell => "SELL",
        }
    }

    /// The text that stands for this side, as an owned string.
    pub fn to_string(&self) -> (text: String)
        ensures
            text@ == self.text(),
    {
        String::from_str(self.as_str())
    }

    /// Parses the text that stands for a side. Any other text is an
    /// error, whose message names the text.
    pub fn from_str(s: &str) -> (result: Result<PaymentSides, String>)
        ensures
            crate::models::payments::payment::parse_result(result) == PaymentSides::parsed(s@, s@),
    {
        if str_eq(s, "BUY") {
            Ok(PaymentSides::Buy)
        } else if str_eq(s, "SELL") {
            Ok(PaymentSides::Sell)
        } else {
            Err(String::from_str("unknown payment sides ").concat(s))
        }
    }

    /// Each side is the one that its own text stands for.
    pub proof fn text_round_trip(self)
        ensures
            PaymentSides::named(self.text()) == Some(self),
    {
        reveal_strlit("BUY");
        reveal_strlit("SELL");
        assert("BUY"@.len() == 3);
        assert("SELL"@.len() == 4);
    }
}

impl std::str::FromStr for PaymentSides {
    type Err = String;

    fn from_str(s: &str) -> (result: Result<PaymentSides, String>)
        ensures
            parse_result(result) == PaymentSides::parsed(s@, s@),
    {
        PaymentSides::from_str(s)
    }
}

/// The coarse status by which payments are filtered.
#[derive(Debug, Clone, Copy, PartialEq, Eq, Structural)]
pub enum PaymentStatusesSlim {
    /// Payments that succeeded.
    Completed,
    /// Payments that are under way.
    Processing,
    /// Payments that are frozen.
    Frozen,
    /// Payments that were cancelled, by whomever.
    Cancelled,
}

impl PaymentStatusesSlim {
    /// The text that stands for this coarse status.
    pub open spec fn text(self) -> Seq<char> {
        match self {
            PaymentStatusesSlim::Completed => "COMPLETED"@,
            PaymentStatusesSlim::Processing => "PROCESSING"@,
            PaymentStatusesSlim::Frozen => "FROZEN"@,
            PaymentStatusesSlim::Cancelled => "CANCELLED"@,
        }
    }

    /// The coarse status that a text stands for, if any.
    pub open spec fn named(text: Seq<char>) -> Option<PaymentStatusesSlim> {
        if text == "COMPLETED"@ {
            Some(PaymentStatusesSlim::Completed)
        } else if text == "PROCESSING"@ {
            Some(PaymentStatusesSlim::Processing)
        } else if text == "FROZEN"@ {
            Some(PaymentStatusesSlim::Frozen)
        } else if text == "CANCELLED"@ {
            Some(PaymentStatusesSlim::Cancelled)
        } else {
            None
        }
    }

    /// The message for a text that stands for no coarse status.
    pub open spec fn unknown(text: Seq<char>) -> Seq<char> {
        "unknown payment slim "@ + text
    }

    /// What parsing returns for a text, given the text in which the coarse status is looked up.
    pub open spec fn parsed(lookup: Seq<char>, given: Seq<char>) -> Result<PaymentStatusesSlim, Seq<char>> {
        match PaymentStatusesSlim::named(lookup) {
            Some(value) => Ok(value),
            None => Err(PaymentStatusesSlim::unknown(given)),
        }
    }

    /// The text that stands for this coarse status.
    pub fn as_str(&self) -> (text: &'static str)
        ensures
            text@ == self.text(),
    {
        match self {
            PaymentStatusesSlim::Completed => "COMPLETED",
            PaymentStatusesSlim::Processing => "PROCESSING",
            PaymentStatusesSlim::Frozen => "FROZEN",
            PaymentStatusesSlim::Cancelled => "CANCELLED",
        }
    }

    /// The text that stands for this coarse status, as an owned string.
    pub fn to_string(&self) -> (text: String)
        ensures
            text@ == self.text(),
    {
        String::from_str(self.as_str())
    }

    /// Looks up the coarse status that `upper` stands for; `given` is the text
    /// that the message names where `upper` stands for none.
    pub fn lookup(upper: &str, given: &str) -> (result: Result<PaymentStatusesSlim, String>)
        ensures
            crate::models::payments::payment::parse_result(result) == PaymentStatusesSlim::parsed(upper@, given@),
    {
        if str_eq(upper, "COMPLETED") {
            Ok(PaymentStatusesSlim::Completed)
        } else if str_eq(upper, "PROCESSING") {
            Ok(PaymentStatusesSlim::Processing)
        } else if str_eq(upper, "FROZEN") {
            Ok(PaymentStatusesSlim::Frozen)
        } else if str_eq(upper, "CANCELLED") {
            Ok(PaymentStatusesSlim::Cancelled)
        } else {
            Err(String::from_str("unknown payment slim ").concat(given))
        }
    }

    /// Parses the text that stands for a coarse status, in any letter case. Any
    /// other text is an error, whose message names the text as given.
    pub fn from_str(s: &str) -> (result: Result<PaymentStatusesSlim, String>)
        ensures
            crate::models::payments::payment::parse_result(result) == PaymentStatusesSlim::parsed(uppercase(s@), s@),
    {
        let upper = to_uppercase(s);
        PaymentStatusesSlim::lookup(upper.as_str(), s)
    }

    /// Each coarse status is the one that its own text stands for.
    pub proof fn text_round_trip(self)
        ensures
            PaymentStatusesSlim::named(self.text()) == Some(self),
    {
        reveal_strlit("COMPLETED");
        reveal_strlit("PROCESSING");
        reveal_strlit("FROZEN");
        reveal_strlit("CANCELLED");
        assert("COMPLETED"@.len() == 9);
        assert("PROCESSING"@.len() == 10);
        assert("FROZEN"@.len() == 6);
        assert("CANCELLED"@.len() == 9);
        assert("COMPLETED"@[1] != "CANCELLED"@[1]);
    }
}

impl std::str::FromStr for PaymentStatusesSlim {
    type Err = String;

    fn from_str(s: &str) -> (result: Result<PaymentStatusesSlim, String>)
        ensures
            parse_result(result) == PaymentStatusesSlim::parsed(uppercase(s@), s@),
    {
        PaymentStatusesSlim::from_str(s)
    }
}

impl PaymentStatusesSlim {
    /// The statuses that this coarse status covers, as the quoted list that
    /// an SQL `IN` condition takes.
    pub open spec fn sql_list(self) -> Seq<char> {
        match self {
            PaymentStatusesSlim::Completed => "'COMPLETED'"@,
            PaymentStatusesSlim::Processing => "'PROCESSING', 'PAID'"@,
            PaymentStatusesSlim::Frozen => "'FROZEN'"@,
            PaymentStatusesSlim::Cancelled => "'CANCELLED_BY_TIMEOUT', 'CANCELLED_BY_ADMIN', 'CANCELLED_BY_TRADER', 'CANCELLED_BY_MERCHANT', 'CANCELLED_BY_CUSTOMER'"@,
        }
    }

    /// The statuses that this coarse status covers, quoted and separated by
    /// commas, for an SQL `IN` condition.
    pub fn get_statuses_for_sql_query(&self) -> (list: String)
        ensures
            list@ == self.sql_list(),
    {
        match self {
            PaymentStatusesSlim::Completed => String::from_str("'COMPLETED'"),
            PaymentStatusesSlim::Processing => String::from_str("'PROCESSING', 'PAID'"),
            PaymentStatusesSlim::Frozen => String::from_str("'FROZEN'"),
            PaymentStatusesSlim::Cancelled => String::from_str(
                "'CANCELLED_BY_TIMEOUT', 'CANCELLED_BY_ADMIN', 'CANCELLED_BY_TRADER', 'CANCELLED_BY_MERCHANT', 'CANCELLED_BY_CUSTOMER'",
            ),
        }
    }
}

/// The status of a payment.
#[derive(Debug, Clone, Copy, PartialEq, Eq, Structural)]
pub enum PaymentStatuses {
    /// Created, not yet offered.
    Pending,
    /// Offered, not yet paid.
    Unpaid,
    /// Paid, not yet confirmed.
    Paid,
    /// Confirmed: the payment succeeded.
    Completed,
    /// Cancelled because its deadline passed.
    CancelledByTimeout,
    /// Cancelled by the merchant.
    CancelledByMerchant,
    /// Cancelled by the customer.
    CancelledByCustomer,
    /// Cancelled by an admin.
    CancelledByAdmin,
    /// Cancelled by the trader.
    CancelledByTrader,
    /// Being processed.
    Processing,
    /// Waiting for a trader.
    Queued,
    /// Frozen pending a dispute.
    Frozen,
}

impl Default for PaymentStatuses {
    fn default() -> (value: PaymentStatuses)
        ensures
            value == PaymentStatuses::Unpaid,
    {
        PaymentStatuses::Unpaid
    }
}

impl PaymentStatuses {
    /// The text that stands for this status.
    pub open spec fn text(self) -> Seq<char> {
        match self {
            PaymentStatuses::Pending => "PENDING"@,
            PaymentStatuses::Unpaid => "UNPAID"@,
            PaymentStatuses::Paid => "PAID"@,
            PaymentStatuses::Completed => "COMPLETED"@,
            PaymentStatuses::CancelledByTimeout => "CANCELLED_BY_TIMEOUT"@,
            PaymentStatuses::CancelledByMerchant => "CANCELLED_BY_MERCHANT"@,
            PaymentStatuses::CancelledByCustomer => "CANCELLED_BY_CUSTOMER"@,
            PaymentStatuses::CancelledByAdmin => "CANCELLED_BY_ADMIN"@,
            PaymentStatuses::CancelledByTrader => "CANCELLED_BY_TRADER"@,
            PaymentStatuses::Processing => "PROCESSING"@,
            PaymentStatuses::Queued => "QUEUED"@,
            PaymentStatuses::Frozen => "FROZEN"@,
        }
    }

    /// The status that a text stands for, if any.
    pub open spec fn named(text: Seq<char>) -> Option<PaymentStatuses> {
        if text == "PENDING"@ {
            Some(PaymentStatuses::Pending)
        } else if text == "UNPAID"@ {
            Some(PaymentStatuses::Unpaid)
        } else if text == "PAID"@ {
            Some(PaymentStatuses::Paid)
        } else if text == "COMPLETED"@ {
            Some(PaymentStatuses::Completed)
        } else if text == "CANCELLED_BY_TIMEOUT"@ {
            Some(PaymentStatuses::CancelledByTimeout)
        } else if text == "CANCELLED_BY_MERCHANT"@ {
            Some(PaymentStatuses::CancelledByMerchant)
        } else if text == "CANCELLED_BY_CUSTOMER"@ {
            Some(PaymentStatuses::CancelledByCustomer)
        } else if text == "CANCELLED_BY_ADMIN"@ {
            Some(PaymentStatuses::CancelledByAdmin)
        } else if text == "CANCELLED_BY_TRADER"@ {
            Some(PaymentStatuses::CancelledByTrader)
        } else if text == "PROCESSING"@ {
            Some(PaymentStatuses::Processing)
        } else if text == "QUEUED"@ {
            Some(PaymentStatuses::Queued)
        } else if text == "FROZEN"@ {
            Some(PaymentStatuses::Frozen)
        } else {
            None
        }
    }

    /// The message for a text that stands for no status.
    pub open spec fn unknown(text: Seq<char>) -> Seq<char> {
        "unknown payment: "@ + text
    }

    /// What parsing returns for a text, given the text in which the status is looked up.
    pub open spec fn parsed(lookup: Seq<char>, given: Seq<char>) -> Result<PaymentStatuses, Seq<char>> {
        match PaymentStatuses::named(lookup) {
            Some(value) => Ok(value),
            None => Err(PaymentStatuses::unknown(given)),
        }
    }

    /// The text that stands for this status.
    pub fn as_str(&self) -> (text: &'static str)
        ensures
            text@ == self.text(),
    {
        match self {
            PaymentStatuses::Pending => "PENDING",
            PaymentStatuses::Unpaid => "UNPAID",
            PaymentStatuses::Paid => "PAID",
            PaymentStatuses::Completed => "COMPLETED",
            PaymentStatuses::CancelledByTimeout => "CANCELLED_BY_TIMEOUT",
            PaymentStatuses::CancelledByMerchant => "CANCELLED_BY_MERCHANT",
            PaymentStatuses::CancelledByCustomer => "CANCELLED_BY_CUSTOMER",
            PaymentStatuses::CancelledByAdmin => "CANCELLED_BY_ADMIN",
            PaymentStatuses::CancelledByTrader => "CANCELLED_BY_TRADER",
            PaymentStatuses::Processing => "PROCESSING",
            PaymentStatuses::Queued => "QUEUED",
            PaymentStatuses::Frozen => "FROZEN",
        }
    }

    /// The text that stands for this status, as an owned string.
    pub fn to_string(&self) -> (text: String)
        ensures
            text@ == self.text(),
    {
        String::from_str(self.as_str())
    }

    /// Parses the text that stands for a status. Any other text is an
    /// error, whose message names the text.
    pub fn from_str(s: &str) -> (result: Result<PaymentStatuses, String>)
        ensures
            crate::models::payments::payment::parse_result(result) == PaymentStatuses::parsed(s@, s@),
    {
        if str_eq(s, "PENDING") {
            Ok(PaymentStatuses::Pending)
        } else if str_eq(s, "UNPAID") {
            Ok(PaymentStatuses::Unpaid)
        } else if str_eq(s, "PAID") {
            Ok(PaymentStatuses::Paid)
        } else if str_eq(s, "COMPLETED") {
            Ok(PaymentStatuses::Completed)
        } else if str_eq(s, "CANCELLED_BY_TIMEOUT") {
            Ok(PaymentStatuses::CancelledByTimeout)
        } else if str_eq(s, "CANCELLED_BY_MERCHANT") {
            Ok(PaymentStatuses::CancelledByMerchant)
        } else if str_eq(s, "CANCELLED_BY_CUSTOMER") {
            Ok(PaymentStatuses::CancelledByCustomer)
        } else if str_eq(s, "CANCELLED_BY_ADMIN") {
            Ok(PaymentStatuses::CancelledByAdmin)
        } else if str_eq(s, "CANCELLED_BY_TRADER") {
            Ok(PaymentStatuses::CancelledByTrader)
        } else if str_eq(s, "PROCESSING") {
            Ok(PaymentStatuses::Processing)
        } else if str_eq(s, "QUEUED") {
            Ok(PaymentStatuses::Queued)
        } else if str_eq(s, "FROZEN") {
            Ok(PaymentStatuses::Frozen)
        } else {
            Err(String::from_str("unknown payment: ").concat(s))
        }
    }

    /// Each status is the one that its own text stands for.
    pub proof fn text_round_trip(self)
        ensures
            PaymentStatuses::named(self.text()) == Some(self),
    {
        reveal_strlit("PENDING");
        reveal_strlit("UNPAID");
        reveal_strlit("PAID");
        reveal_strlit("COMPLETED");
        reveal_strlit("CANCELLED_BY_TIMEOUT");
        reveal_strlit("CANCELLED_BY_MERCHANT");
        reveal_strlit("CANCELLED_BY_CUSTOMER");
        reveal_strlit("CANCELLED_BY_ADMIN");
        reveal_strlit("CANCELLED_BY_TRADER");
        reveal_strlit("PROCESSING");
        reveal_strlit("QUEUED");
        reveal_strlit("FROZEN");
        assert("PENDING"@.len() == 7);
        assert("UNPAID"@.len() == 6);
        assert("PAID"@.len() == 4);
        assert("COMPLETED"@.len() == 9);
        assert("CANCELLED_BY_TIMEOUT"@.len() == 20);
        assert("CANCELLED_BY_MERCHANT"@.len() == 21);
        assert("CANCELLED_BY_CUSTOMER"@.len() == 21);
        assert("CANCELLED_BY_ADMIN"@.len() == 18);
        assert("CANCELLED_BY_TRADER"@.len() == 19);
        assert("PROCESSING"@.len() == 10);
        assert("QUEUED"@.len() == 6);
        assert("FROZEN"@.len() == 6);
        assert("UNPAID"@[0] != "QUEUED"@[0]);
        assert("UNPAID"@[0] != "FROZEN"@[0]);
        assert("CANCELLED_BY_MERCHANT"@[13] != "CANCELLED_BY_CUSTOMER"@[13]);
        assert("QUEUED"@[0] != "FROZEN"@[0]);
    }
}

impl std::str::FromStr for PaymentStatuses {
    type Err = String;

    fn from_str(s: &str) -> (result: Result<PaymentStatuses, String>)
        ensures
            parse_result(result) == PaymentStatuses::parsed(s@, s@),
    {
        PaymentStatuses::from_str(s)
    }
}

impl PaymentStatusesSlim {
    /// The statuses that this coarse status covers, in the order of its
    /// list.
    pub open spec fn covers(self) -> Seq<PaymentStatuses> {
        match self {
            PaymentStatusesSlim::Completed => seq![PaymentStatuses::Completed],
            PaymentStatusesSlim::Processing => seq![
                PaymentStatuses::Processing,
                PaymentStatuses::Paid,
            ],
            PaymentStatusesSlim::Frozen => seq![PaymentStatuses::Frozen],
            PaymentStatusesSlim::Cancelled => seq![
                PaymentStatuses::CancelledByTimeout,
                PaymentStatuses::CancelledByAdmin,
                PaymentStatuses::CancelledByTrader,
                PaymentStatuses::CancelledByMerchant,
                PaymentStatuses::CancelledByCustomer,
            ],
        }
    }

    /// The texts of the statuses that this coarse status covers, each in
    /// single quotes.
    pub open spec fn quoted_covers(self) -> Seq<Seq<char>> {
        Seq::new(self.covers().len(), |i: int| "'"@ + self.covers()[i].text() + "'"@)
    }

    /// The list of a coarse status names the statuses that it covers: it
    /// is their texts, each in single quotes, separated by a comma and a
    /// space.
    pub proof fn list_names_covers(self)
        ensures
            self.sql_list() == joined(self.quoted_covers(), ", "@),
    {
        reveal_with_fuel(joined, 6);
        reveal_strlit("'");
        reveal_strlit(", ");
        reveal_strlit("COMPLETED");
        reveal_strlit("PROCESSING");
        reveal_strlit("PAID");
        reveal_strlit("FROZEN");
        reveal_strlit("CANCELLED_BY_TIMEOUT");
        reveal_strlit("CANCELLED_BY_ADMIN");
        reveal_strlit("CANCELLED_BY_TRADER");
        reveal_strlit("CANCELLED_BY_MERCHANT");
        reveal_strlit("CANCELLED_BY_CUSTOMER");
        reveal_strlit("'COMPLETED'");
        reveal_strlit("'PROCESSING', 'PAID'");
        reveal_strlit("'FROZEN'");
        reveal_strlit(
            "'CANCELLED_BY_TIMEOUT', 'CANCELLED_BY_ADMIN', 'CANCELLED_BY_TRADER', 'CANCELLED_BY_MERCHANT', 'CANCELLED_BY_CUSTOMER'",
        );
        let parts = self.quoted_covers();
        match self {
            PaymentStatusesSlim::Completed => {
                assert(self.sql_list() =~= parts[0]);
            },
            PaymentStatusesSlim::Processing => {
                assert(parts.drop_last() =~= seq![parts[0]]);
                assert(self.sql_list() =~= parts[0] + ", "@ + parts[1]);
            },
            PaymentStatusesSlim::Frozen => {
                assert(self.sql_list() =~= parts[0]);
            },
            PaymentStatusesSlim::Cancelled => {
                let four = parts.drop_last();
                let three = four.drop_last();
                let two = three.drop_last();
                let one = two.drop_last();
                assert(four =~= seq![parts[0], parts[1], parts[2], parts[3]]);
                assert(three =~= seq![parts[0], parts[1], parts[2]]);
                assert(two =~= seq![parts[0], parts[1]]);
                assert(one =~= seq![parts[0]]);
                assert(joined(two, ", "@) =~= parts[0] + ", "@ + parts[1]);
                assert(joined(three, ", "@) =~= joined(two, ", "@) + ", "@ + parts[2]);
                assert(joined(four, ", "@) =~= joined(three, ", "@) + ", "@ + parts[3]);
                assert(joined(parts, ", "@) =~= joined(four, ", "@) + ", "@ + parts[4]);
                assert(self.sql_list() =~= parts[0] + ", "@ + parts[1] + ", "@ + parts[2] + ", "@
                    + parts[3] + ", "@ + parts[4]);
            },
        }
    }

    /// The coarse statuses sort the statuses by kind: "completed" covers
    /// the successful one, "cancelled" the cancelled ones, and the other two
    /// cover statuses that are not final.
    pub proof fn covers_by_kind(self, status: PaymentStatuses)
        ensures
            PaymentStatusesSlim::Completed.covers().contains(status) <==> status.success(),
            PaymentStatusesSlim::Cancelled.covers().contains(status) <==> status.cancelled(),
            PaymentStatusesSlim::Processing.covers().contains(status)
                || PaymentStatusesSlim::Frozen.covers().contains(status) ==> !status.success()
                && !status.cancelled(),
    {
        let completed = PaymentStatusesSlim::Completed.covers();
        let cancelled = PaymentStatusesSlim::Cancelled.covers();
        if status.success() {
            assert(completed[0] == status);
        }
        if status.cancelled() {
            assert(cancelled[0] == status || cancelled[1] == status || cancelled[2] == status
                || cancelled[3] == status || cancelled[4] == status);
        }
    }
}

impl PaymentStatuses {
    /// Whether the payment succeeded.
    pub open spec fn success(self) -> bool {
        self == PaymentStatuses::Completed
    }

    /// Whether the payment was cancelled, by whomever.
    pub open spec fn cancelled(self) -> bool {
        self == PaymentStatuses::CancelledByTimeout || self == PaymentStatuses::CancelledByMerchant
            || self == PaymentStatuses::CancelledByCustomer || self
            == PaymentStatuses::CancelledByAdmin || self == PaymentStatuses::CancelledByTrader
    }

    /// Tests whether the payment succeeded.
    pub fn is_success(&self) -> (yes: bool)
        ensures
            yes == self.success(),
    {
        matches!(self, PaymentStatuses::Completed)
    }

    /// Tests whether the payment was cancelled, by whomever.
    pub fn is_cancelled(&self) -> (yes: bool)
        ensures
            yes == self.cancelled(),
    {
        matches!(
            self,
            PaymentStatuses::CancelledByTimeout | PaymentStatuses::CancelledByMerchant
                | PaymentStatuses::CancelledByCustomer | PaymentStatuses::CancelledByAdmin
                | PaymentStatuses::CancelledByTrader
        )
    }

    /// Tests whether the payment has reached a status that it will not
    /// leave: it succeeded or was cancelled.
    pub fn is_final(&self) -> (yes: bool)
        ensures
            yes == (self.success() || self.cancelled()),
    {
        matches!(
            self,
            PaymentStatuses::Completed | PaymentStatuses::CancelledByTimeout
                | PaymentStatuses::CancelledByMerchant | PaymentStatuses::CancelledByCustomer
                | PaymentStatuses::CancelledByAdmin | PaymentStatuses::CancelledByTrader
        )
    }
}

/// The filters by which an admin lists payments.
#[derive(Debug)]
pub struct GetPaymentRequestAdmin {
    pub id: Option<String>,
    pub client_id: Option<String>,
    pub external_id: Option<String>,
    pub bank_id: Option<String>,
    pub requisite_id: Option<String>,
    pub merchant_id: Option<String>,
    pub trader_id: Option<String>,
    pub statuses: Option<Vec<PaymentStatusesSlim>>,
    pub limit: Option<u32>,
    pub page: Option<u32>,
}

/// A payment with everything that the store holds of it.
#[derive(Debug)]
pub struct FullPayment {
    pub id: String,
    pub external_id: String,
    pub merchant_id: String,
    pub client_id: Option<String>,
    pub trader_id: String,
    pub requisite_id: String,
    pub bank_id: String,
    pub status: PaymentStatuses,
    pub payment_side: PaymentSides,
    pub currency: String,
    pub target_amount: rust_decimal::Decimal,
    pub fiat_amount: rust_decimal::Decimal,
    pub crypto_amount: rust_decimal::Decimal,
    pub trader_crypto_amount: rust_decimal::Decimal,
    pub exchange_rate: rust_decimal::Decimal,
    pub fee_type: FeeTypes,
    pub crypto_fee: rust_decimal::Decimal,
    pub fiat_fee: rust_decimal::Decimal,
    pub trader_crypto_fee: rust_decimal::Decimal,
    pub trader_fiat_fee: rust_decimal::Decimal,
    pub holder_name: String,
    pub holder_account: String,
    pub bank_name: String,
    pub method: String,
    pub margin: rust_decimal::Decimal,
    pub trader_margin: rust_decimal::Decimal,
    pub earnings: rust_decimal::Decimal,
    pub created_at: chrono::NaiveDateTime,
    pub updated_at: Option<chrono::NaiveDateTime>,
    pub deadline: chrono::NaiveDateTime,
    pub last_four: String,
    pub card_last_four: String,
    pub close_by: Option<String>,
}

impl ToSQL for FullPayment {
    /// The statement that selects every column of a payment.
    fn sql() -> (text: String)
        ensures
            text@ == "SELECT * FROM payments"@,
    {
        String::from_str("SELECT * FROM payments")
    }
}

/// What a merchant sends to open a payment.
#[derive(Debug)]
pub struct NewPaymentRequest {
    pub external_id: String,
    pub client_id: Option<String>,
    pub target_amount: rust_decimal::Decimal,
    pub currency: String,
    pub currency_type: String,
    pub side: PaymentSides,
    pub fee_type: FeeTypes,
    pub method_id: String,
}

} // verus!
