//! The request gates. Each gate is a decision over what is known of a
//! request so far: it allows the request, denies it with one error kind, or
//! names the one lookup whose outcome it needs. The caller performs that
//! lookup, hands the outcome in and asks again.

use vstd::prelude::*;
use vstd::string::*;

use crate::clock::{parse_rfc3339, rfc3339_instant, utc_now, Instant};
use crate::errors::LibError;
use crate::models::{Claims, ClaimsView};
use crate::repository::Entity;
use crate::text::{from_utf8_lossy, lowercase, str_eq, to_lowercase, utf8_lossy};

verus! {

/// The header that carries the bearer token.
pub const TOKEN_HEADER: &'static str = "X-Token";

/// The header that carries the merchant's id on a signed request.
pub const MERCHANT_ID_HEADER: &'static str = "X-Merchant-ID";

/// The header that carries the time of signing, in RFC 3339.
pub const TIMESTAMP_HEADER: &'static str = "X-Timestamp";

/// The header that carries the signature, in base64.
pub const SIGNATURE_HEADER: &'static str = "X-Signature";

/// What a gate decides.
#[derive(Debug)]
pub enum GateStep {
    /// Resolve whether this principal is blocked, and ask again with the
    /// outcome.
    CheckBlocked { entity: Entity, id: String },
    /// Let the request pass, with these claims attached as its identity.
    Allow(Claims),
    /// Refuse the request with this error kind.
    Deny(LibError),
}

/// A gate's decision as mathematical values.
pub enum GateStepView {
    CheckBlocked { entity: Entity, id: Seq<char> },
    Allow(ClaimsView),
    Deny(LibError),
}

impl View for GateStep {
    type V = GateStepView;

    open spec fn view(&self) -> GateStepView {
        match self {
            GateStep::CheckBlocked { entity, id } => GateStepView::CheckBlocked {
                entity: *entity,
                id: id@,
            },
            GateStep::Allow(claims) => GateStepView::Allow(claims@),
            GateStep::Deny(kind) => GateStepView::Deny(*kind),
        }
    }
}

/// What is known of a request's bearer token: `None` where the request has
/// no token header, else the claims of the token or the error of its
/// verification.
pub open spec fn token_view(token: Option<Result<Claims, LibError>>) -> Option<
    Result<ClaimsView, LibError>,
> {
    match token {
        None => None,
        Some(Ok(claims)) => Some(Ok(claims@)),
        Some(Err(kind)) => Some(Err(kind)),
    }
}

/// The outcome of a token verification as mathematical values.
pub open spec fn verified_view(verified: Result<Claims, LibError>) -> Result<ClaimsView, LibError> {
    match verified {
        Ok(claims) => Ok(claims@),
        Err(kind) => Err(kind),
    }
}

/// What token verification returns for the claims that decoding gave, if it
/// gave any: a token that does not verify is unauthorized, whatever the
/// reason.
pub open spec fn verification_of(decoded: Option<ClaimsView>) -> Result<ClaimsView, LibError> {
    match decoded {
        Some(claims) => Ok(claims),
        None => Err(LibError::Unauthorized),
    }
}

/// What a gate decides for a principal whose block status matters, by the
/// outcome of the lookup: a blocked principal is denied with `on_blocked`,
/// a failed lookup with its own error.
pub open spec fn by_block_status(
    entity: Entity,
    claims: ClaimsView,
    blocked: Option<Result<bool, LibError>>,
    on_blocked: LibError,
) -> GateStepView {
    match blocked {
        None => GateStepView::CheckBlocked { entity, id: claims.sub },
        Some(Ok(true)) => GateStepView::Deny(on_blocked),
        Some(Ok(false)) => GateStepView::Allow(claims),
        Some(Err(kind)) => GateStepView::Deny(kind),
    }
}

/// The trader gate. A request without a token is unauthorized, and so is
/// one whose token does not verify. A role other than `trader` is forbidden.
/// A trader in whose name an admin acts passes without a look at the block
/// status; any other trader passes unless blocked, and a blocked one is
/// unauthorized.
pub open spec fn trader_gate(
    token: Option<Result<ClaimsView, LibError>>,
    blocked: Option<Result<bool, LibError>>,
) -> GateStepView {
    match token {
        None => GateStepView::Deny(LibError::Unauthorized),
        Some(Err(kind)) => GateStepView::Deny(kind),
        Some(Ok(claims)) => if claims.role != "trader"@ {
            GateStepView::Deny(LibError::Forbidden)
        } else if claims.impersonated_by is Some {
            GateStepView::Allow(claims)
        } else {
            by_block_status(Entity::Trader, claims, blocked, LibError::Unauthorized)
        },
    }
}

/// The error with which the merchant gate answers a failed lookup: a
/// merchant that is not found is forbidden, any other error stays.
pub open spec fn merchant_lookup_error(kind: LibError) -> LibError {
    if kind == LibError::NotFound || kind == LibError::MerchantNotFound {
        LibError::Forbidden
    } else {
        kind
    }
}

/// The merchant gate for verified claims, given the role in lower case. A
/// role other than `merchant` is forbidden. A merchant in whose name an
/// admin acts passes without a look at the block status; any other merchant
/// passes unless blocked, and a blocked one is unauthorized.
pub open spec fn merchant_claims_gate(
    claims: ClaimsView,
    folded_role: Seq<char>,
    blocked: Option<Result<bool, LibError>>,
) -> GateStepView {
    if folded_role != "merchant"@ {
        GateStepView::Deny(LibError::Forbidden)
    } else if claims.impersonated_by is Some {
        GateStepView::Allow(claims)
    } else {
        match blocked {
            Some(Err(kind)) => GateStepView::Deny(merchant_lookup_error(kind)),
            _ => by_block_status(Entity::Merchant, claims, blocked, LibError::Unauthorized),
        }
    }
}

/// The merchant gate. A request without a token is unauthorized, and so is
/// one whose token does not verify. The role counts in any letter case.
pub open spec fn merchant_gate(
    token: Option<Result<ClaimsView, LibError>>,
    blocked: Option<Result<bool, LibError>>,
) -> GateStepView {
    match token {
        None => GateStepView::Deny(LibError::Unauthorized),
        Some(Err(kind)) => GateStepView::Deny(kind),
        Some(Ok(claims)) => merchant_claims_gate(claims, lowercase(claims.role), blocked),
    }
}

/// The admin gate. A request without a token is unauthorized, and so is one
/// whose token does not verify. The role must be `admin`, letter for letter;
/// any other is forbidden. No block status is looked at.
pub open spec fn admin_gate(token: Option<Result<ClaimsView, LibError>>) -> GateStepView {
    match token {
        None => GateStepView::Deny(LibError::Unauthorized),
        Some(Err(kind)) => GateStepView::Deny(kind),
        Some(Ok(claims)) => if claims.role == "admin"@ {
            GateStepView::Allow(claims)
        } else {
            GateStepView::Deny(LibError::Forbidden)
        },
    }
}

/// The shared-endpoint gate for verified claims, given the role in lower
/// case. Every role passes; a trader in whose name no admin acts passes
/// unless blocked, and a blocked one is forbidden.
pub open spec fn universal_claims_gate(
    claims: ClaimsView,
    folded_role: Seq<char>,
    blocked: Option<Result<bool, LibError>>,
) -> GateStepView {
    if folded_role == "trader"@ && claims.impersonated_by is None {
        by_block_status(Entity::Trader, claims, blocked, LibError::Forbidden)
    } else {
        GateStepView::Allow(claims)
    }
}

/// The shared-endpoint gate. A request without a token is forbidden; one
/// whose token does not verify is unauthorized.
pub open spec fn universal_gate(
    token: Option<Result<ClaimsView, LibError>>,
    blocked: Option<Result<bool, LibError>>,
) -> GateStepView {
    match token {
        None => GateStepView::Deny(LibError::Forbidden),
        Some(Err(kind)) => GateStepView::Deny(kind),
        Some(Ok(claims)) => universal_claims_gate(claims, lowercase(claims.role), blocked),
    }
}

/// Turns the outcome of decoding a token into the outcome of its
/// verification: a token that did not decode, for whatever reason, is
/// unauthorized and nothing more is said of it.
pub fn verify_jwt(decoded: Option<Claims>) -> (verified: Result<Claims, LibError>)
    ensures
        verified_view(verified) == verification_of(
            match decoded {
                Some(claims) => Some(claims@),
                None => None,
            },
        ),
{
    match decoded {
        Some(claims) => Ok(claims),
        None => Err(LibError::Unauthorized),
    }
}

/// Decides for a principal whose block status matters.
fn decide_by_block_status(
    entity: Entity,
    claims: &Claims,
    blocked: &Option<Result<bool, LibError>>,
    on_blocked: LibError,
) -> (step: GateStep)
    ensures
        step@ == by_block_status(entity, claims@, *blocked, on_blocked),
{
    match blocked {
        None => GateStep::CheckBlocked { entity, id: claims.sub.clone() },
        Some(Ok(true)) => GateStep::Deny(on_blocked),
        Some(Ok(false)) => GateStep::Allow(claims.clone()),
        Some(Err(kind)) => GateStep::Deny(*kind),
    }
}

/// The trader gate: decides on a request to the trader API from what is
/// known of its token and, once it was looked up, of the trader's block
/// status.
pub fn only_trader_middleware(
    token: &Option<Result<Claims, LibError>>,
    blocked: &Option<Result<bool, LibError>>,
) -> (step: GateStep)
    ensures
        step@ == trader_gate(token_view(*token), *blocked),
{
    match token {
        None => GateStep::Deny(LibError::Unauthorized),
        Some(Err(kind)) => GateStep::Deny(*kind),
        Some(Ok(claims)) => {
            if !str_eq(claims.role.as_str(), "trader") {
                GateStep::Deny(LibError::Forbidden)
            } else if claims.impersonated_by.is_some() {
                GateStep::Allow(claims.clone())
            } else {
                decide_by_block_status(Entity::Trader, claims, blocked, LibError::Unauthorized)
            }
        },
    }
}

/// The merchant gate for verified claims, given their role in lower case.
pub fn merchant_gate_for(
    claims: &Claims,
    folded_role: &str,
    blocked: &Option<Result<bool, LibError>>,
) -> (step: GateStep)
    ensures
        step@ == merchant_claims_gate(claims@, folded_role@, *blocked),
{
    if !str_eq(folded_role, "merchant") {
        GateStep::Deny(LibError::Forbidden)
    } else if claims.impersonated_by.is_some() {
        GateStep::Allow(claims.clone())
    } else {
        match blocked {
            Some(Err(LibError::NotFound)) => GateStep::Deny(LibError::Forbidden),
            Some(Err(LibError::MerchantNotFound)) => GateStep::Deny(LibError::Forbidden),
            _ => decide_by_block_status(Entity::Merchant, claims, blocked, LibError::Unauthorized),
        }
    }
}

/// The merchant gate: decides on a request to the merchant API from what is
/// known of its token and, once it was looked up, of the merchant's block
/// status.
pub fn only_merchant_middleware(
    token: &Option<Result<Claims, LibError>>,
    blocked: &Option<Result<bool, LibError>>,
) -> (step: GateStep)
    ensures
        step@ == merchant_gate(token_view(*token), *blocked),
{
    match token {
        None => GateStep::Deny(LibError::Unauthorized),
        Some(Err(kind)) => GateStep::Deny(*kind),
        Some(Ok(claims)) => {
            let folded = to_lowercase(claims.role.as_str());
            merchant_gate_for(claims, folded.as_str(), blocked)
        },
    }
}

/// The admin gate: decides on a request to the admin API from what is known
/// of its token. Admins are not subject to blocking.
pub fn only_admin_middleware(token: &Option<Result<Claims, LibError>>) -> (step: GateStep)
    ensures
        step@ == admin_gate(token_view(*token)),
{
    match token {
        None => GateStep::Deny(LibError::Unauthorized),
        Some(Err(kind)) => GateStep::Deny(*kind),
        Some(Ok(claims)) => {
            if str_eq(claims.role.as_str(), "admin") {
                GateStep::Allow(claims.clone())
            } else {
                GateStep::Deny(LibError::Forbidden)
            }
        },
    }
}

/// The shared-endpoint gate for verified claims, given their role in
/// lower case.
pub fn universal_gate_for(
    claims: &Claims,
    folded_role: &str,
    blocked: &Option<Result<bool, LibError>>,
) -> (step: GateStep)
    ensures
        step@ == universal_claims_gate(claims@, folded_role@, *blocked),
{
    if str_eq(folded_role, "trader") && claims.impersonated_by.is_none() {
        decide_by_block_status(Entity::Trader, claims, blocked, LibError::Forbidden)
    } else {
        GateStep::Allow(claims.clone())
    }
}

/// The shared-endpoint gate, for what all roles share: decides on a request from
/// what is known of its token and, for a trader, of the block status.
pub fn for_all_users_middleware(
    token: &Option<Result<Claims, LibError>>,
    blocked: &Option<Result<bool, LibError>>,
) -> (step: GateStep)
    ensures
        step@ == universal_gate(token_view(*token), *blocked),
{
    match token {
        None => GateStep::Deny(LibError::Forbidden),
        Some(Err(kind)) => GateStep::Deny(*kind),
        Some(Ok(claims)) => {
            let folded = to_lowercase(claims.role.as_str());
            universal_gate_for(claims, folded.as_str(), blocked)
        },
    }
}

/// The admin gate lets every verified admin token pass. It takes no block
/// status, so none can change its decision.
pub proof fn admin_passes(claims: ClaimsView)
    requires
        claims.role == "admin"@,
    ensures
        admin_gate(Some(Ok(claims))) == GateStepView::Allow(claims),
{
}

/// The trader gate denies a blocked trader as unauthorized, unless an admin
/// acts in the trader's name: then it lets the request pass whatever is
/// known of the block status, and never asks for it.
pub proof fn trader_gate_on_blocked(claims: ClaimsView, blocked: Option<Result<bool, LibError>>)
    requires
        claims.role == "trader"@,
    ensures
        claims.impersonated_by is None ==> trader_gate(Some(Ok(claims)), Some(Ok(true)))
            == GateStepView::Deny(LibError::Unauthorized),
        claims.impersonated_by is Some ==> trader_gate(Some(Ok(claims)), blocked)
            == GateStepView::Allow(claims),
{
}

/// No gate lets a request pass before the block status that it depends on
/// is known, and none turns a failed lookup into a pass.
pub proof fn no_pass_without_status(
    claims: ClaimsView,
    folded_role: Seq<char>,
    blocked: Option<Result<bool, LibError>>,
)
    requires
        claims.impersonated_by is None,
        !(blocked matches Some(Ok(is_blocked)) && !is_blocked),
    ensures
        !(trader_gate(Some(Ok(claims)), blocked) is Allow),
        !(merchant_claims_gate(claims, folded_role, blocked) is Allow),
        folded_role == "trader"@ ==> !(universal_claims_gate(claims, folded_role, blocked) is Allow),
{
}

/// The method of a request.
#[derive(Debug, Clone, Copy, PartialEq, Eq, Structural)]
pub enum Method {
    Get,
    Post,
    /// Any method but `GET` and `POST`.
    Other,
}

/// A signed request of a merchant's machine, as it arrived: its method, the
/// three headers that identify the caller, its body, and when it arrived. A
/// header is `None` where it is absent or not text; the body is `None` where
/// it could not be read.
#[derive(Debug)]
pub struct SignedRequest {
    pub method: Method,
    pub merchant_id: Option<String>,
    pub timestamp: Option<String>,
    pub signature: Option<String>,
    pub body: Option<Vec<u8>>,
    pub received_at: Instant,
}

/// A signed request as mathematical values.
pub struct SignedRequestView {
    pub method: Method,
    pub merchant_id: Option<Seq<char>>,
    pub timestamp: Option<Seq<char>>,
    pub signature: Option<Seq<char>>,
    pub body: Option<Seq<u8>>,
    pub received_at: Instant,
}

impl View for SignedRequest {
    type V = SignedRequestView;

    open spec fn view(&self) -> SignedRequestView {
        SignedRequestView {
            method: self.method,
            merchant_id: crate::models::option_text(self.merchant_id),
            timestamp: crate::models::option_text(self.timestamp),
            signature: crate::models::option_text(self.signature),
            body: match self.body {
                Some(bytes) => Some(bytes@),
                None => None,
            },
            received_at: self.received_at,
        }
    }
}

/// What the signed-request gate decides.
#[derive(Debug)]
pub enum SignedStep {
    /// Resolve the merchant's public key, verify this signature over this
    /// line against it, and ask again with the outcome.
    VerifySignature { merchant_id: String, signature: String, raw_line: String },
    /// Resolve whether this merchant is blocked, and ask again with the
    /// outcome.
    CheckBlocked { merchant_id: String },
    /// Let the request pass, with the merchant's id attached as its identity
    /// and with this body, which is the whole body that arrived.
    Allow { merchant_id: String, body: Vec<u8> },
    /// Refuse the request with this error kind.
    Deny(LibError),
}

/// A decision on a signed request as mathematical values.
pub enum SignedStepView {
    VerifySignature { merchant_id: Seq<char>, signature: Seq<char>, raw_line: Seq<char> },
    CheckBlocked { merchant_id: Seq<char> },
    Allow { merchant_id: Seq<char>, body: Seq<u8> },
    Deny(LibError),
}

impl View for SignedStep {
    type V = SignedStepView;

    open spec fn view(&self) -> SignedStepView {
        match self {
            SignedStep::VerifySignature { merchant_id, signature, raw_line } => {
                SignedStepView::VerifySignature {
                    merchant_id: merchant_id@,
                    signature: signature@,
                    raw_line: raw_line@,
                }
            },
            SignedStep::CheckBlocked { merchant_id } => SignedStepView::CheckBlocked {
                merchant_id: merchant_id@,
            },
            SignedStep::Allow { merchant_id, body } => SignedStepView::Allow {
                merchant_id: merchant_id@,
                body: body@,
            },
            SignedStep::Deny(kind) => SignedStepView::Deny(*kind),
        }
    }
}

/// The line that a merchant signs. For `GET` it is the method, the
/// merchant's id and the timestamp, each on a line of its own; for `POST`
/// the body follows on a fourth line. No other method has a line.
pub open spec fn canonical_line(
    method: Method,
    merchant_id: Seq<char>,
    timestamp: Seq<char>,
    body_text: Seq<char>,
) -> Option<Seq<char>> {
    match method {
        Method::Get => Some("GET\n"@ + merchant_id + "\n"@ + timestamp),
        Method::Post => Some("POST\n"@ + merchant_id + "\n"@ + timestamp + "\n"@ + body_text),
        Method::Other => None,
    }
}

/// What the signed-request gate decides once the signature has been verified: a valid one
/// sends it on to the block status, where a blocked merchant is forbidden;
/// an invalid one is unauthorized; an error of the verification stays.
pub open spec fn after_signature(
    merchant_id: Seq<char>,
    body: Seq<u8>,
    signature_valid: Result<bool, LibError>,
    blocked: Option<Result<bool, LibError>>,
) -> SignedStepView {
    match signature_valid {
        Ok(true) => match blocked {
            None => SignedStepView::CheckBlocked { merchant_id },
            Some(Ok(true)) => SignedStepView::Deny(LibError::Forbidden),
            Some(Ok(false)) => SignedStepView::Allow { merchant_id, body },
            Some(Err(kind)) => SignedStepView::Deny(kind),
        },
        Ok(false) => SignedStepView::Deny(LibError::Unauthorized),
        Err(kind) => SignedStepView::Deny(kind),
    }
}

/// The signed-request gate, given the point in time that the timestamp
/// header parses to, if it parses, and the body as text.
///
/// In this order: a request without merchant id is unauthorized; so is one
/// whose timestamp is absent, does not parse, or lies more than five
/// minutes before or after its arrival; so is one without signature. A body
/// that could not be read is an internal error. A method other than `GET`
/// and `POST` is unauthorized. Then the signature decides, and after it the
/// block status.
pub open spec fn signed_gate_with(
    request: SignedRequestView,
    stamped: Option<Instant>,
    body_text: Seq<char>,
    signature_valid: Option<Result<bool, LibError>>,
    blocked: Option<Result<bool, LibError>>,
) -> SignedStepView {
    if request.merchant_id is None {
        SignedStepView::Deny(LibError::Unauthorized)
    } else if request.timestamp is None || stamped is None {
        SignedStepView::Deny(LibError::Unauthorized)
    } else if !request.received_at.in_replay_window(stamped->0) {
        SignedStepView::Deny(LibError::Unauthorized)
    } else if request.signature is None {
        SignedStepView::Deny(LibError::Unauthorized)
    } else if request.body is None {
        SignedStepView::Deny(LibError::InternalError)
    } else {
        match canonical_line(
            request.method,
            request.merchant_id->0,
            request.timestamp->0,
            body_text,
        ) {
            None => SignedStepView::Deny(LibError::Unauthorized),
            Some(raw_line) => match signature_valid {
                None => SignedStepView::VerifySignature {
                    merchant_id: request.merchant_id->0,
                    signature: request.signature->0,
                    raw_line,
                },
                Some(verdict) => after_signature(
                    request.merchant_id->0,
                    request.body->0,
                    verdict,
                    blocked,
                ),
            },
        }
    }
}

/// The point in time that a timestamp header parses to, if it is present
/// and parses.
pub open spec fn stamped_at(timestamp: Option<Seq<char>>) -> Option<Instant> {
    match timestamp {
        Some(text) => rfc3339_instant(text),
        None => None,
    }
}

/// The body of a request as text, bytes that are not UTF-8 replaced. A body
/// that could not be read has no text.
pub open spec fn body_text_of(body: Option<Seq<u8>>) -> Seq<char> {
    match body {
        Some(bytes) => utf8_lossy(bytes),
        None => Seq::empty(),
    }
}

/// The signed-request gate.
pub open spec fn signed_gate(
    request: SignedRequestView,
    signature_valid: Option<Result<bool, LibError>>,
    blocked: Option<Result<bool, LibError>>,
) -> SignedStepView {
    signed_gate_with(
        request,
        stamped_at(request.timestamp),
        body_text_of(request.body),
        signature_valid,
        blocked,
    )
}

impl SignedRequest {
    /// A request that arrives now: it is stamped with the current time.
    pub fn receive(
        method: Method,
        merchant_id: Option<String>,
        timestamp: Option<String>,
        signature: Option<String>,
        body: Option<Vec<u8>>,
    ) -> (request: SignedRequest)
        ensures
            request.method == method,
            request.merchant_id == merchant_id,
            request.timestamp == timestamp,
            request.signature == signature,
            request.body == body,
    {
        SignedRequest { method, merchant_id, timestamp, signature, body, received_at: utc_now() }
    }
}

/// Builds the line that a merchant signs, for the methods that have one.
pub fn raw_line(method: Method, merchant_id: &str, timestamp: &str, body_text: &str) -> (line: Option<
    String,
>)
    ensures
        crate::models::option_text(line) == canonical_line(
            method,
            merchant_id@,
            timestamp@,
            body_text@,
        ),
{
    match method {
        Method::Get => {
            let mut line = String::from_str("GET\n");
            line.append(merchant_id);
            line.append("\n");
            line.append(timestamp);
            Some(line)
        },
        Method::Post => {
            let mut line = String::from_str("POST\n");
            line.append(merchant_id);
            line.append("\n");
            line.append(timestamp);
            line.append("\n");
            line.append(body_text);
            Some(line)
        },
        Method::Other => None,
    }
}

/// The signed-request gate, given the point in time that the timestamp
/// header parses to, if it parses, and the body as text.
pub fn merchant_api_gate(
    request: &SignedRequest,
    stamped: Option<Instant>,
    body_text: &str,
    signature_valid: &Option<Result<bool, LibError>>,
    blocked: &Option<Result<bool, LibError>>,
) -> (step: SignedStep)
    ensures
        step@ == signed_gate_with(request@, stamped, body_text@, *signature_valid, *blocked),
{
    let merchant_id = match &request.merchant_id {
        Some(id) => id,
        None => return SignedStep::Deny(LibError::Unauthorized),
    };
    let timestamp = match &request.timestamp {
        Some(text) => text,
        None => return SignedStep::Deny(LibError::Unauthorized),
    };
    let stamped_at = match stamped {
        Some(at) => at,
        None => return SignedStep::Deny(LibError::Unauthorized),
    };
    if !request.received_at.within_replay_window(&stamped_at) {
        return SignedStep::Deny(LibError::Unauthorized);
    }
    let signature = match &request.signature {
        Some(text) => text,
        None => return SignedStep::Deny(LibError::Unauthorized),
    };
    let body = match &request.body {
        Some(bytes) => bytes,
        None => return SignedStep::Deny(LibError::InternalError),
    };
    let line = match raw_line(request.method, merchant_id.as_str(), timestamp.as_str(), body_text) {
        Some(line) => line,
        None => return SignedStep::Deny(LibError::Unauthorized),
    };
    match signature_valid {
        None => SignedStep::VerifySignature {
            merchant_id: merchant_id.clone(),
            signature: signature.clone(),
            raw_line: line,
        },
        Some(Ok(true)) => match blocked {
            None => SignedStep::CheckBlocked { merchant_id: merchant_id.clone() },
            Some(Ok(true)) => SignedStep::Deny(LibError::Forbidden),
            Some(Ok(false)) => SignedStep::Allow {
                merchant_id: merchant_id.clone(),
                body: body.clone(),
            },
            Some(Err(kind)) => SignedStep::Deny(*kind),
        },
        Some(Ok(false)) => SignedStep::Deny(LibError::Unauthorized),
        Some(Err(kind)) => SignedStep::Deny(*kind),
    }
}

/// The signed-request gate: decides on a request of a merchant's machine
/// from its headers, its body and its time of arrival and, once they are
/// known, from the validity of its signature and the merchant's block
/// status.
pub fn merchant_api_middleware(
    request: &SignedRequest,
    signature_valid: &Option<Result<bool, LibError>>,
    blocked: &Option<Result<bool, LibError>>,
) -> (step: SignedStep)
    ensures
        step@ == signed_gate(request@, *signature_valid, *blocked),
{
    let stamped = match &request.timestamp {
        Some(text) => parse_rfc3339(text.as_str()),
        None => None,
    };
    let body_text = match &request.body {
        Some(bytes) => from_utf8_lossy(bytes.as_slice()),
        None => String::new(),
    };
    merchant_api_gate(request, stamped, body_text.as_str(), signature_valid, blocked)
}

/// A signed request whose timestamp lies more than five minutes from its
/// arrival, before or after, is unauthorized: whether or not its signature
/// is valid, and whatever else is known of it.
pub proof fn stale_request_is_unauthorized(
    request: SignedRequestView,
    stamped: Instant,
    signature_valid: Option<Result<bool, LibError>>,
    blocked: Option<Result<bool, LibError>>,
)
    requires
        stamped_at(request.timestamp) == Some(stamped),
        request.received_at.distance(stamped) > crate::clock::REPLAY_WINDOW_NANOS,
    ensures
        signed_gate(request, signature_valid, blocked) == SignedStepView::Deny(
            LibError::Unauthorized,
        ),
{
}

/// A signed request passes only with a signature that was verified as valid
/// and a block status that was looked up and is negative; and it passes
/// with its whole body.
pub proof fn signed_pass_is_earned(
    request: SignedRequestView,
    signature_valid: Option<Result<bool, LibError>>,
    blocked: Option<Result<bool, LibError>>,
)
    requires
        signed_gate(request, signature_valid, blocked) is Allow,
    ensures
        signature_valid == Some(Ok::<bool, LibError>(true)),
        blocked == Some(Ok::<bool, LibError>(false)),
        request.merchant_id == Some(signed_gate(request, signature_valid, blocked)->Allow_merchant_id),
        request.body == Some(signed_gate(request, signature_valid, blocked)->Allow_body),
        stamped_at(request.timestamp) is Some,
        request.received_at.in_replay_window(stamped_at(request.timestamp)->0),
{
}

} // verus!
