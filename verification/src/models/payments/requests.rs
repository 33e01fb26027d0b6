//! The listing of payments: what a merchant, a trader or an admin may filter
//! by, and the conditions and parameters of the statement that such a
//! request becomes. The conditions follow the `SELECT` part of a record's
//! own statement.

use vstd::prelude::*;
use vstd::string::*;

use crate::models::payments::merchant::GetMerchantPayments;
use crate::models::payments::payment::{GetPaymentRequestAdmin, PaymentSides, PaymentStatusesSlim};
use crate::models::payments::trader::GetPaymentsTrader;
use crate::text::{decimal, decimal_string, join, joined, texts};

verus! {

/// The most payments on one page of a merchant's listing.
pub const MERCHANT_PAGE_MOST: u32 = 100;

/// The most payments on one page of a trader's or an admin's listing, and
/// the most that any request is taken to ask for.
pub const PAGE_MOST: u32 = 50;

/// The longest span, in whole days, that a merchant's listing covers
/// without paging.
pub const UNPAGED_DAYS_MOST: i64 = 30;

/// The whole days from one date and time to another, as the `chrono` crate
/// counts them: negative where the second lies before the first.
pub uninterp spec fn whole_days_between(from: chrono::NaiveDateTime, to: chrono::NaiveDateTime) -> int;

/// Wraps `NaiveDateTime::signed_duration_since` and `TimeDelta::num_days`:
/// the whole days from `from` to `to`.
#[verifier::external_body]
fn days_between(from: &chrono::NaiveDateTime, to: &chrono::NaiveDateTime) -> (days: i64)
    ensures
        days == whole_days_between(*from, *to),
{
    to.signed_duration_since(*from).num_days()
}

/// A parameter of a statement, with the type under which the store takes it.
#[derive(Debug)]
pub enum SqlParam {
    /// A text, taken as `VARCHAR`.
    Varchar(String),
    /// A date and time, taken as `TIMESTAMP`.
    Timestamp(chrono::NaiveDateTime),
}

/// A parameter as mathematical values.
pub enum SqlParamView {
    Varchar(Seq<char>),
    Timestamp(chrono::NaiveDateTime),
}

impl View for SqlParam {
    type V = SqlParamView;

    open spec fn view(&self) -> SqlParamView {
        match self {
            SqlParam::Varchar(text) => SqlParamView::Varchar(text@),
            SqlParam::Timestamp(at) => SqlParamView::Timestamp(*at),
        }
    }
}

/// An optional parameter as mathematical values.
pub open spec fn optional_param(param: Option<SqlParam>) -> Option<SqlParamView> {
    match param {
        Some(p) => Some(p@),
        None => None,
    }
}

/// The parameters of a list as mathematical values.
pub open spec fn param_views(params: Seq<SqlParam>) -> Seq<SqlParamView> {
    Seq::new(params.len(), |i: int| params[i]@)
}

/// A request to list payments: of one merchant, of one trader, or of all as
/// an admin sees them. The id is the merchant's or the trader's.
#[derive(Debug)]
pub enum GetPaymentsRequest {
    Merchant((String, Option<GetMerchantPayments>)),
    Trader((String, Option<GetPaymentsTrader>)),
    Admin(Option<GetPaymentRequestAdmin>),
}

/// One filter that a request may carry: the condition that it becomes, up to
/// the number of its placeholder; its value, where the request carries it;
/// and whether the next filter gets the next number.
pub struct Filter {
    pub condition: Seq<char>,
    pub value: Option<SqlParamView>,
    pub counts: bool,
}

/// The text parameter of an optional text.
pub open spec fn varchar(text: Option<String>) -> Option<SqlParamView> {
    match text {
        Some(t) => Some(SqlParamView::Varchar(t@)),
        None => None,
    }
}

/// The timestamp parameter of an optional date and time.
pub open spec fn timestamp(at: Option<chrono::NaiveDateTime>) -> Option<SqlParamView> {
    match at {
        Some(t) => Some(SqlParamView::Timestamp(t)),
        None => None,
    }
}

/// A filter on a text column.
pub open spec fn text_filter(condition: Seq<char>, text: Option<String>) -> Filter {
    Filter { condition, value: varchar(text), counts: true }
}

/// By how much the filters of a list advance the number of the next
/// placeholder: by one for each filter that is carried and counts.
pub open spec fn placeholders_used(filters: Seq<Filter>) -> nat
    decreases filters.len(),
{
    if filters.len() == 0 {
        0
    } else {
        placeholders_used(filters.drop_last()) + if filters.last().value is Some
            && filters.last().counts {
            1nat
        } else {
            0nat
        }
    }
}

/// The conditions of the filters that are carried, in order, each with the
/// number of its placeholder; the first placeholder has the number `first`.
pub open spec fn conditions(filters: Seq<Filter>, first: nat) -> Seq<Seq<char>>
    decreases filters.len(),
{
    if filters.len() == 0 {
        Seq::empty()
    } else {
        let before = conditions(filters.drop_last(), first);
        if filters.last().value is Some {
            before.push(
                filters.last().condition + decimal(first + placeholders_used(filters.drop_last())),
            )
        } else {
            before
        }
    }
}

/// The values of the filters that are carried, in order.
pub open spec fn parameters(filters: Seq<Filter>) -> Seq<SqlParamView>
    decreases filters.len(),
{
    if filters.len() == 0 {
        Seq::empty()
    } else {
        let before = parameters(filters.drop_last());
        match filters.last().value {
            Some(value) => before.push(value),
            None => before,
        }
    }
}

/// The quoted status lists of coarse statuses, one for each.
pub open spec fn status_lists(statuses: Seq<PaymentStatusesSlim>) -> Seq<Seq<char>> {
    Seq::new(statuses.len(), |i: int| statuses[i].sql_list())
}

/// The condition on the status, where the request filters by status: the
/// status is among those that the coarse statuses cover.
pub open spec fn status_conditions(statuses: Option<Vec<PaymentStatusesSlim>>) -> Seq<Seq<char>> {
    match statuses {
        Some(list) => seq!["status IN ("@ + joined(status_lists(list@), ", "@) + ")"@],
        None => Seq::empty(),
    }
}

/// The conditions of a statement, joined by `AND` behind a lead; nothing
/// where there are no conditions.
pub open spec fn condition_clause(lead: Seq<char>, conditions: Seq<Seq<char>>) -> Seq<char> {
    if conditions.len() == 0 {
        Seq::empty()
    } else {
        lead + joined(conditions, " AND "@)
    }
}

/// The size of a page: what the request asks for, but no more than `most`,
/// and `most` where it asks for nothing.
pub open spec fn page_size(limit: Option<u32>, most: u32) -> u32 {
    match limit {
        Some(asked) => if asked < most {
            asked
        } else {
            most
        },
        None => most,
    }
}

/// The payments before a page: pages are counted from one, and a request
/// without page asks for the first.
pub open spec fn page_offset(page: Option<u32>, size: u32) -> int {
    match page {
        Some(number) => (number - 1) * size,
        None => 0,
    }
}

/// Newest first.
pub open spec fn newest_first() -> Seq<char> {
    " ORDER BY created_at DESC"@
}

/// Newest first, one page of them.
pub open spec fn paged(limit: Option<u32>, page: Option<u32>, most: u32) -> Seq<char> {
    newest_first() + " LIMIT "@ + decimal(page_size(limit, most) as nat) + " OFFSET "@ + decimal(
        page_offset(page, page_size(limit, most)) as nat,
    )
}

/// The filters of a merchant's request.
pub open spec fn merchant_filters(request: GetMerchantPayments) -> Seq<Filter> {
    seq![
        text_filter("id=$"@, request.id),
        Filter {
            condition: "payment_side=$"@,
            value: match request.payment_side {
                Some(side) => Some(SqlParamView::Varchar(side.text())),
                None => None,
            },
            counts: true,
        },
        Filter { condition: "created_at>=$"@, value: timestamp(request.from), counts: true },
        Filter { condition: "created_at<=$"@, value: timestamp(request.to), counts: true },
    ]
}

/// The filters of a trader's request.
pub open spec fn trader_filters(request: GetPaymentsTrader) -> Seq<Filter> {
    seq![text_filter("bank_id=$"@, request.bank_id), text_filter("id=$"@, request.id)]
}

/// The filters of an admin's request. The filter on the merchant does not
/// count: the filter that follows it gets the same number.
pub open spec fn admin_filters(request: GetPaymentRequestAdmin) -> Seq<Filter> {
    seq![
        text_filter("trader_id=$"@, request.trader_id),
        text_filter("bank_id=$"@, request.bank_id),
        text_filter("id=$"@, request.id),
        Filter { condition: "merchant_id=$"@, value: varchar(request.merchant_id), counts: false },
        text_filter("client_id=$"@, request.client_id),
        text_filter("requisite_id=$"@, request.requisite_id),
    ]
}

/// The whole days that a merchant's request spans, where it names both
/// ends of a span.
pub open spec fn span_days(request: GetMerchantPayments) -> Option<int> {
    if request.from is Some && request.to is Some {
        Some(whole_days_between(request.from->0, request.to->0))
    } else {
        None
    }
}

/// The end of a merchant's statement, given the days that the request
/// spans: newest first, and one page of them unless the request spans at
/// most thirty days.
pub open spec fn merchant_paging(request: GetMerchantPayments, span: Option<int>) -> Seq<char> {
    if span is Some && span->0 <= UNPAGED_DAYS_MOST {
        newest_first()
    } else {
        paged(request.limit, request.page, MERCHANT_PAGE_MOST)
    }
}

impl GetPaymentsRequest {
    /// The page that the request asks for, if it asks for one.
    pub open spec fn page(self) -> Option<u32> {
        match self {
            GetPaymentsRequest::Merchant((id, Some(request))) => request.page,
            GetPaymentsRequest::Trader((id, Some(request))) => request.page,
            GetPaymentsRequest::Admin(Some(request)) => request.page,
            _ => None,
        }
    }

    /// The size of page that the request asks for, if it has filters.
    pub open spec fn limit(self) -> Option<Option<u32>> {
        match self {
            GetPaymentsRequest::Merchant((id, Some(request))) => Some(request.limit),
            GetPaymentsRequest::Trader((id, Some(request))) => Some(request.limit),
            GetPaymentsRequest::Admin(Some(request)) => Some(request.limit),
            _ => None,
        }
    }

    /// The whole days that the request spans, where it is a merchant's and
    /// names both ends of a span.
    pub open spec fn span(self) -> Option<int> {
        match self {
            GetPaymentsRequest::Merchant((id, Some(request))) => span_days(request),
            _ => None,
        }
    }

    /// The conditions, the order and the paging of the statement.
    pub open spec fn sql_text(self) -> Seq<char> {
        self.sql_text_spanning(self.span())
    }

    /// The conditions, the order and the paging of the statement, given the
    /// days that the request spans.
    pub open spec fn sql_text_spanning(self, span: Option<int>) -> Seq<char> {
        match self {
            GetPaymentsRequest::Merchant((id, None)) => " WHERE merchant_id=$1"@,
            GetPaymentsRequest::Merchant((id, Some(request))) => " WHERE merchant_id=$1"@
                + condition_clause(
                " AND "@,
                conditions(merchant_filters(request), 2) + status_conditions(request.status),
            ) + merchant_paging(request, span),
            GetPaymentsRequest::Trader((id, None)) => " WHERE trader_id=$1"@,
            GetPaymentsRequest::Trader((id, Some(request))) => " WHERE trader_id=$1"@
                + condition_clause(
                " AND "@,
                conditions(trader_filters(request), 2) + status_conditions(request.status),
            ) + paged(request.limit, request.page, PAGE_MOST),
            GetPaymentsRequest::Admin(None) => Seq::empty(),
            GetPaymentsRequest::Admin(Some(request)) => condition_clause(
                " WHERE "@,
                conditions(admin_filters(request), 1) + status_conditions(request.statuses),
            ) + paged(request.limit, request.page, PAGE_MOST),
        }
    }

    /// The parameters of the statement, in the order in which the request
    /// carries them.
    pub open spec fn sql_params(self) -> Seq<SqlParamView> {
        match self {
            GetPaymentsRequest::Merchant((id, None)) => seq![SqlParamView::Varchar(id@)],
            GetPaymentsRequest::Merchant((id, Some(request))) => seq![SqlParamView::Varchar(id@)]
                + parameters(merchant_filters(request)),
            GetPaymentsRequest::Trader((id, None)) => seq![SqlParamView::Varchar(id@)],
            GetPaymentsRequest::Trader((id, Some(request))) => seq![SqlParamView::Varchar(id@)]
                + parameters(trader_filters(request)),
            GetPaymentsRequest::Admin(None) => Seq::empty(),
            GetPaymentsRequest::Admin(Some(request)) => parameters(admin_filters(request)),
        }
    }

    /// The one condition that restricts a statement to the payments of the
    /// request's merchant or trader, with a placeholder of the given number;
    /// a blank for an admin, who sees all.
    pub open spec fn owner_condition(self, index: u32) -> Seq<char> {
        match self {
            GetPaymentsRequest::Trader((id, request)) => " WHERE trader_id=$"@ + decimal(
                index as nat,
            ),
            GetPaymentsRequest::Merchant((id, request)) => " WHERE merchant_id=$"@ + decimal(
                index as nat,
            ),
            GetPaymentsRequest::Admin(request) => " "@,
        }
    }

    /// The merchant or trader whose payments are listed; none for an admin.
    pub open spec fn owner(self) -> Option<Seq<char>> {
        match self {
            GetPaymentsRequest::Trader((id, request)) => Some(id@),
            GetPaymentsRequest::Merchant((id, request)) => Some(id@),
            GetPaymentsRequest::Admin(request) => None,
        }
    }
}

/// Adding a filter to a list adds its condition and its value where it is
/// carried, and advances the placeholders where it is carried and counts.
proof fn filter_added(filters: Seq<Filter>, filter: Filter, first: nat)
    ensures
        placeholders_used(filters.push(filter)) == placeholders_used(filters) + if filter.value
            is Some && filter.counts {
            1nat
        } else {
            0nat
        },
        conditions(filters.push(filter), first) == if filter.value is Some {
            conditions(filters, first).push(
                filter.condition + decimal(first + placeholders_used(filters)),
            )
        } else {
            conditions(filters, first)
        },
        parameters(filters.push(filter)) == match filter.value {
            Some(value) => parameters(filters).push(value),
            None => parameters(filters),
        },
{
    assert(filters.push(filter).drop_last() =~= filters);
}

/// Every condition has its parameter: there are as many of the one as of
/// the other. And where every filter counts, the placeholders are numbered
/// without gap: there are as many parameters as numbers were used.
pub proof fn conditions_match_parameters(filters: Seq<Filter>, first: nat)
    ensures
        conditions(filters, first).len() == parameters(filters).len(),
        placeholders_used(filters) <= parameters(filters).len(),
        (forall|i: int| 0 <= i < filters.len() ==> filters[i].counts) ==> placeholders_used(filters)
            == parameters(filters).len(),
    decreases filters.len(),
{
    if filters.len() > 0 {
        conditions_match_parameters(filters.drop_last(), first);
    }
}

/// The conditions and parameters gathered so far, for the filters seen so
/// far.
struct Gathered {
    conditions: Vec<String>,
    params: Vec<SqlParam>,
    next: u32,
    seen: Ghost<Seq<Filter>>,
    first: Ghost<nat>,
}

impl Gathered {
    spec fn well_formed(&self) -> bool {
        &&& texts(self.conditions@) == conditions(self.seen@, self.first@)
        &&& param_views(self.params@) == parameters(self.seen@)
        &&& self.next == self.first@ + placeholders_used(self.seen@)
        &&& placeholders_used(self.seen@) <= self.seen@.len()
        &&& self.first@ <= 2
    }

    fn new(first: u32) -> (gathered: Gathered)
        requires
            first <= 2,
        ensures
            gathered.well_formed(),
            gathered.seen@ == Seq::<Filter>::empty(),
            gathered.first@ == first,
    {
        let gathered = Gathered {
            conditions: Vec::new(),
            params: Vec::new(),
            next: first,
            seen: Ghost(Seq::empty()),
            first: Ghost(first as nat),
        };
        assert(texts(gathered.conditions@) =~= conditions(gathered.seen@, gathered.first@));
        assert(param_views(gathered.params@) =~= parameters(gathered.seen@));
        gathered
    }

    fn add(&mut self, condition: &'static str, value: Option<SqlParam>, counts: bool)
        requires
            old(self).well_formed(),
            old(self).seen@.len() < 100,
        ensures
            final(self).well_formed(),
            final(self).first@ == old(self).first@,
            final(self).seen@ == old(self).seen@.push(
                Filter { condition: condition@, value: optional_param(value), counts },
            ),
    {
        let ghost filter = Filter { condition: condition@, value: optional_param(value), counts };
        proof {
            filter_added(self.seen@, filter, self.first@);
        }
        let ghost before_conditions = texts(self.conditions@);
        let ghost before_params = param_views(self.params@);
        match value {
            Some(v) => {
                let mut text = String::from_str(condition);
                text.append(decimal_string(self.next as u64).as_str());
                self.conditions.push(text);
                self.params.push(v);
                if counts {
                    self.next = self.next + 1;
                }
                assert(texts(self.conditions@) =~= before_conditions.push(text@));
                assert(param_views(self.params@) =~= before_params.push(v@));
            },
            None => {},
        }
        self.seen = Ghost(self.seen@.push(filter));
    }
}

/// Builds the condition on the status for the coarse statuses of a request.
fn status_condition(statuses: &Vec<PaymentStatusesSlim>) -> (condition: String)
    ensures
        condition@ == "status IN ("@ + joined(status_lists(statuses@), ", "@) + ")"@,
{
    let mut lists: Vec<String> = Vec::new();
    let mut i: usize = 0;
    while i < statuses.len()
        invariant
            i <= statuses.len(),
            texts(lists@) == status_lists(statuses@).take(i as int),
        decreases statuses.len() - i,
    {
        let list = statuses[i].get_statuses_for_sql_query();
        let ghost before = texts(lists@);
        lists.push(list);
        assert(texts(lists@) =~= before.push(list@));
        assert(status_lists(statuses@).take(i + 1) =~= status_lists(statuses@).take(i as int).push(
            list@,
        ));
        i += 1;
    }
    assert(status_lists(statuses@).take(statuses.len() as int) =~= status_lists(statuses@));
    let mut condition = String::from_str("status IN (");
    condition.append(join(&lists, ", ").as_str());
    condition.append(")");
    condition
}

/// Builds the end of a paged statement: newest first, one page of them.
fn paging(limit: Option<u32>, page: Option<u32>, most: u32) -> (clause: String)
    requires
        page != Some(0u32),
    ensures
        clause@ == paged(limit, page, most),
{
    let size: u32 = match limit {
        Some(asked) => if asked < most {
            asked
        } else {
            most
        },
        None => most,
    };
    let offset: u64 = match page {
        Some(number) => {
            assert((number - 1) * size <= 0xffff_ffff * 0xffff_ffff) by (nonlinear_arith)
                requires
                    1 <= number <= 0xffff_ffff,
                    0 <= size <= 0xffff_ffff,
            ;
            (number as u64 - 1) * (size as u64)
        },
        None => 0,
    };
    let mut clause = String::from_str(" ORDER BY created_at DESC");
    clause.append(" LIMIT ");
    clause.append(decimal_string(size as u64).as_str());
    clause.append(" OFFSET ");
    clause.append(decimal_string(offset).as_str());
    clause
}

/// Appends the conditions to a statement, joined by `AND` behind a lead,
/// and, where the request filters by status, the condition on the status
/// among them.
fn append_conditions(
    query: &mut String,
    lead: &str,
    gathered: Gathered,
    statuses: &Option<Vec<PaymentStatusesSlim>>,
) -> (params: Vec<SqlParam>)
    requires
        gathered.well_formed(),
    ensures
        final(query)@ == old(query)@ + condition_clause(
            lead@,
            conditions(gathered.seen@, gathered.first@) + status_conditions(*statuses),
        ),
        param_views(params@) == parameters(gathered.seen@),
{
    let Gathered { conditions: mut all, params, next: _, seen: _, first: _ } = gathered;
    let ghost before = texts(all@);
    match statuses {
        Some(list) => {
            let condition = status_condition(list);
            all.push(condition);
            assert(texts(all@) =~= before + status_conditions(*statuses));
        },
        None => {
            assert(texts(all@) =~= before + status_conditions(*statuses));
        },
    }
    if all.len() > 0 {
        query.append(lead);
        query.append(join(&all, " AND ").as_str());
    }
    assert(texts(all@).len() == all.len());
    params
}

impl GetPaymentsRequest {
    /// Builds what follows the `SELECT` part of the statement that lists
    /// the payments of this request, and the parameters of its placeholders.
    ///
    /// A merchant's and a trader's statement begin with the condition on
    /// their own id, as the first placeholder. The filters that the request
    /// carries follow as further conditions, numbered in order. The newest
    /// payments come first. A listing is paged, at most fifty to a page (a
    /// hundred for a merchant), unless it is a merchant's and covers a span
    /// of at most thirty days. A request without filters has no paging.
    ///
    /// Pages are counted from one.
    pub fn to_sql(&self) -> (statement: (String, Vec<SqlParam>))
        requires
            self.page() != Some(0u32),
        ensures
            statement.0@ == self.sql_text(),
            param_views(statement.1@) == self.sql_params(),
            statement.1@.len() == self.sql_params().len(),
            forall|i: int|
                0 <= i < statement.1@.len() ==> (#[trigger] statement.1@[i])@
                    == self.sql_params()[i],
    {
        let span: Option<i64> = match self {
            GetPaymentsRequest::Merchant((_, Some(request))) => match (&request.from, &request.to) {
                (Some(from), Some(to)) => Some(days_between(from, to)),
                _ => None,
            },
            _ => None,
        };
        self.to_sql_spanning(span)
    }

    /// Builds the statement of this request as `to_sql` does, given the
    /// whole days that the request spans: `None` where it names no span.
    pub fn to_sql_spanning(&self, span: Option<i64>) -> (statement: (String, Vec<SqlParam>))
        requires
            self.page() != Some(0u32),
        ensures
            statement.0@ == self.sql_text_spanning(
                match span {
                    Some(days) => Some(days as int),
                    None => None,
                },
            ),
            param_views(statement.1@) == self.sql_params(),
            statement.1@.len() == self.sql_params().len(),
            forall|i: int|
                0 <= i < statement.1@.len() ==> (#[trigger] statement.1@[i])@
                    == self.sql_params()[i],
    {
        let statement = self.build(span);
        assert(param_views(statement.1@).len() == statement.1@.len());
        assert forall|i: int| 0 <= i < statement.1@.len() implies (#[trigger] statement.1@[i])@
            == self.sql_params()[i] by {
            assert(param_views(statement.1@)[i] == statement.1@[i]@);
        }
        statement
    }

    /// Builds the statement, given the days that the request spans.
    fn build(&self, span: Option<i64>) -> (statement: (String, Vec<SqlParam>))
        requires
            self.page() != Some(0u32),
        ensures
            statement.0@ == self.sql_text_spanning(
                match span {
                    Some(days) => Some(days as int),
                    None => None,
                },
            ),
            param_views(statement.1@) == self.sql_params(),
    {
        match self {
            GetPaymentsRequest::Merchant((merchant_id, request)) => {
                let mut query = String::from_str(" WHERE merchant_id=$1");
                let owner = SqlParam::Varchar(merchant_id.clone());
                match request {
                    None => {
                        let mut params: Vec<SqlParam> = Vec::new();
                        params.push(owner);
                        assert(param_views(params@) =~= self.sql_params());
                        (query, params)
                    },
                    Some(request) => {
                        let mut gathered = Gathered::new(2);
                        gathered.add("id=$", clone_varchar(&request.id), true);
                        gathered.add("payment_side=$", side_param(&request.payment_side), true);
                        gathered.add("created_at>=$", copy_timestamp(&request.from), true);
                        gathered.add("created_at<=$", copy_timestamp(&request.to), true);
                        assert(gathered.seen@ =~= merchant_filters(*request));
                        let filtered = append_conditions(
                            &mut query,
                            " AND ",
                            gathered,
                            &request.status,
                        );
                        let spans_few_days = match span {
                            Some(days) => days <= UNPAGED_DAYS_MOST,
                            None => false,
                        };
                        if spans_few_days {
                            query.append(" ORDER BY created_at DESC");
                        } else {
                            query.append(
                                paging(request.limit, request.page, MERCHANT_PAGE_MOST).as_str(),
                            );
                        }
                        let params = prepend(owner, filtered);
                        (query, params)
                    },
                }
            },
            GetPaymentsRequest::Trader((trader_id, request)) => {
                let mut query = String::from_str(" WHERE trader_id=$1");
                let owner = SqlParam::Varchar(trader_id.clone());
                match request {
                    None => {
                        let mut params: Vec<SqlParam> = Vec::new();
                        params.push(owner);
                        assert(param_views(params@) =~= self.sql_params());
                        (query, params)
                    },
                    Some(request) => {
                        let mut gathered = Gathered::new(2);
                        gathered.add("bank_id=$", clone_varchar(&request.bank_id), true);
                        gathered.add("id=$", clone_varchar(&request.id), true);
                        assert(gathered.seen@ =~= trader_filters(*request));
                        let filtered = append_conditions(
                            &mut query,
                            " AND ",
                            gathered,
                            &request.status,
                        );
                        query.append(paging(request.limit, request.page, PAGE_MOST).as_str());
                        let params = prepend(owner, filtered);
                        (query, params)
                    },
                }
            },
            GetPaymentsRequest::Admin(request) => {
                let mut query = String::new();
                match request {
                    None => {
                        let params: Vec<SqlParam> = Vec::new();
                        assert(param_views(params@) =~= self.sql_params());
                        (query, params)
                    },
                    Some(request) => {
                        let mut gathered = Gathered::new(1);
                        gathered.add("trader_id=$", clone_varchar(&request.trader_id), true);
                        gathered.add("bank_id=$", clone_varchar(&request.bank_id), true);
                        gathered.add("id=$", clone_varchar(&request.id), true);
                        gathered.add("merchant_id=$", clone_varchar(&request.merchant_id), false);
                        gathered.add("client_id=$", clone_varchar(&request.client_id), true);
                        gathered.add("requisite_id=$", clone_varchar(&request.requisite_id), true);
                        assert(gathered.seen@ =~= admin_filters(*request));
                        let params = append_conditions(
                            &mut query,
                            " WHERE ",
                            gathered,
                            &request.statuses,
                        );
                        query.append(paging(request.limit, request.page, PAGE_MOST).as_str());
                        (query, params)
                    },
                }
            },
        }
    }

    /// Builds the one condition that restricts a statement to the payments
    /// of this request's merchant or trader, and returns it with the id that
    /// its placeholder stands for. The placeholder gets the number in
    /// `sql_index`, which is then advanced by one, or the number one where
    /// no index is given. An admin's request has no such condition: it gives
    /// a blank and leaves the index as it is.
    pub fn single_query<'a>(&'a self, sql_index: Option<&mut u32>) -> (condition: (
        String,
        Option<&'a str>,
    ))
        requires
            match sql_index {
                Some(index) => self.owner() is Some ==> *index < u32::MAX,
                None => true,
            },
        ensures
            match sql_index {
                Some(index) => {
                    &&& condition.0@ == self.owner_condition(*index)
                    &&& *final(index) == if self.owner() is Some {
                        (*index + 1) as u32
                    } else {
                        *index
                    }
                },
                None => condition.0@ == self.owner_condition(1),
            },
            match condition.1 {
                Some(id) => self.owner() == Some(id@),
                None => self.owner() is None,
            },
    {
        match self {
            GetPaymentsRequest::Trader((id, _)) => {
                let index: u32 = take_index(sql_index);
                let mut query = String::from_str(" WHERE trader_id=$");
                query.append(decimal_string(index as u64).as_str());
                (query, Some(id.as_str()))
            },
            GetPaymentsRequest::Merchant((id, _)) => {
                let index: u32 = take_index(sql_index);
                let mut query = String::from_str(" WHERE merchant_id=$");
                query.append(decimal_string(index as u64).as_str());
                (query, Some(id.as_str()))
            },
            GetPaymentsRequest::Admin(_) => (String::from_str(" "), None),
        }
    }

    /// The most payments that this request asks for: the size of page that
    /// it names, but no more than fifty, and fifty where it names none. The
    /// request must have filters.
    pub fn get_requested_limit(self) -> (most: usize)
        requires
            self.limit() is Some,
        ensures
            most == page_size(self.limit()->0, PAGE_MOST),
    {
        let limit: Option<u32> = match self {
            GetPaymentsRequest::Merchant((_, request)) => request.unwrap().limit,
            GetPaymentsRequest::Trader((_, request)) => request.unwrap().limit,
            GetPaymentsRequest::Admin(request) => request.unwrap().limit,
        };
        match limit {
            Some(asked) => if asked < PAGE_MOST {
                asked as usize
            } else {
                PAGE_MOST as usize
            },
            None => PAGE_MOST as usize,
        }
    }
}

/// Takes the number in an index and advances the index by one; the number
/// one where there is no index.
fn take_index(sql_index: Option<&mut u32>) -> (number: u32)
    requires
        match sql_index {
            Some(index) => *index < u32::MAX,
            None => true,
        },
    ensures
        match sql_index {
            Some(index) => number == *index && *final(index) == *index + 1,
            None => number == 1,
        },
{
    match sql_index {
        Some(index) => {
            let current: u32 = *index;
            *index = current + 1;
            current
        },
        None => 1,
    }
}

/// The text parameter of an optional text, copied.
fn clone_varchar(text: &Option<String>) -> (param: Option<SqlParam>)
    ensures
        optional_param(param) == varchar(*text),
{
    match text {
        Some(t) => Some(SqlParam::Varchar(t.clone())),
        None => None,
    }
}

/// The timestamp parameter of an optional date and time.
fn copy_timestamp(at: &Option<chrono::NaiveDateTime>) -> (param: Option<SqlParam>)
    ensures
        optional_param(param) == timestamp(*at),
{
    match at {
        Some(t) => Some(SqlParam::Timestamp(*t)),
        None => None,
    }
}

/// The text parameter of an optional side.
fn side_param(side: &Option<PaymentSides>) -> (param: Option<SqlParam>)
    ensures
        optional_param(param) == (match *side {
            Some(s) => Some(SqlParamView::Varchar(s.text())),
            None => None,
        }),
{
    match side {
        Some(s) => Some(SqlParam::Varchar(s.to_string())),
        None => None,
    }
}

/// Puts one parameter before the others.
fn prepend(first: SqlParam, rest: Vec<SqlParam>) -> (all: Vec<SqlParam>)
    ensures
        param_views(all@) == seq![first@] + param_views(rest@),
{
    let ghost others = param_views(rest@);
    let mut all: Vec<SqlParam> = Vec::new();
    all.push(first);
    let mut rest = rest;
    all.append(&mut rest);
    assert(param_views(all@) =~= seq![first@] + others);
    all
}

} // verus!
