use crate::amount::Amount;
use crate::chain::{api_prefix, prefix_url, Chain};
use crate::decimal::{decimal_text, push_decimal};
use crate::error::AppError;
use url::Url;
use vstd::prelude::*;

verus! {

/// Which transaction list is requested.
#[derive(Clone, Copy, PartialEq, Eq, Structural, Debug)]
pub enum RequestKind {
    /// Top-level transactions (`txlist`).
    NormalTransaction,
    /// Transfers made by contract code (`txlistinternal`).
    InternalTransaction,
    /// Token transfer events (`tokentx`).
    TokenTransfer,
}

/// The API action of a request kind.
pub open spec fn action_name(kind: RequestKind) -> Seq<char> {
    match kind {
        RequestKind::NormalTransaction => "txlist"@,
        RequestKind::InternalTransaction => "txlistinternal"@,
        RequestKind::TokenTransfer => "tokentx"@,
    }
}

/// The paging and block-range parameters of a list request: token transfers
/// name the page first and reach block 999999999, the transaction lists name
/// the block range first and reach block 99999999.
pub open spec fn paging_text(kind: RequestKind, page: nat, offset: nat) -> Seq<char> {
    match kind {
        RequestKind::TokenTransfer => "&page="@ + decimal_text(page) + "&offset="@ + decimal_text(
            offset,
        ) + "&startblock=0&endblock=999999999"@,
        _ => "&startblock=0&endblock=99999999&page="@ + decimal_text(page) + "&offset="@
            + decimal_text(offset),
    }
}

/// The URL text for page `page` of `offset` records of a list, in ascending
/// block order.
pub open spec fn list_url_text(
    chain: Chain,
    kind: RequestKind,
    address: Seq<char>,
    page: nat,
    offset: nat,
    api_key: Seq<char>,
) -> Seq<char> {
    api_prefix(chain) + "/api?module=account&action="@ + action_name(kind) + "&address="@ + address
        + paging_text(kind, page, offset) + "&sort=asc&apikey="@ + api_key
}

/// The URL text of a balance request.
pub open spec fn balance_url_text(chain: Chain, address: Seq<char>, api_key: Seq<char>) -> Seq<
    char,
> {
    api_prefix(chain) + "/api?module=account&action=balance&address="@ + address
        + "&tag=latest&apikey="@ + api_key
}

/// What `url::Url::parse` makes of a text: its serialization, or `None`
/// when the text is no valid URL.
pub uninterp spec fn parsed_url(s: Seq<char>) -> Option<Seq<char>>;

/// Relies on url's `Url::parse` and `Url::as_str`: the parsed URL's
/// serialization, a function of the text alone.
#[verifier::external_body]
fn parse_url(s: &str) -> (r: Option<String>)
    ensures
        match r {
            Some(u) => parsed_url(s@) == Some(u@),
            None => parsed_url(s@) is None,
        },
{
    match Url::parse(s) {
        Ok(u) => Some(u.as_str().to_string()),
        Err(_) => None,
    }
}

/// The URL itself, or the error of a text that does not parse.
pub open spec fn url_outcome(text: Seq<char>) -> Result<Seq<char>, AppError> {
    match parsed_url(text) {
        Some(u) => Ok(u),
        None => Err(AppError::ErrorInternalUrlParsing),
    }
}

fn checked_url(text: String) -> (r: Result<String, AppError>)
    ensures
        match url_outcome(text@) {
            Ok(u) => r matches Ok(t) && t@ == u,
            Err(e) => r == Err::<String, AppError>(e),
        },
{
    match parse_url(text.as_str()) {
        Some(u) => Ok(u),
        None => Err(AppError::ErrorInternalUrlParsing),
    }
}

/// The URL for one page of a transaction list.
pub fn transactions_url(
    chain: Chain,
    kind: RequestKind,
    address: &str,
    page: usize,
    offset: usize,
    api_key: &str,
) -> (r: Result<String, AppError>)
    ensures
        match url_outcome(list_url_text(chain, kind, address@, page as nat, offset as nat, api_key@)) {
            Ok(u) => r matches Ok(t) && t@ == u,
            Err(e) => r == Err::<String, AppError>(e),
        },
{
    let mut text = String::from_str(prefix_url(chain));
    text.append("/api?module=account&action=");
    match kind {
        RequestKind::NormalTransaction => text.append("txlist"),
        RequestKind::InternalTransaction => text.append("txlistinternal"),
        RequestKind::TokenTransfer => text.append("tokentx"),
    }
    text.append("&address=");
    text.append(address);
    match kind {
        RequestKind::TokenTransfer => {
            text.append("&page=");
            push_decimal(&mut text, page as u128);
            text.append("&offset=");
            push_decimal(&mut text, offset as u128);
            text.append("&startblock=0&endblock=999999999");
        },
        _ => {
            text.append("&startblock=0&endblock=99999999&page=");
            push_decimal(&mut text, page as u128);
            text.append("&offset=");
            push_decimal(&mut text, offset as u128);
        },
    }
    text.append("&sort=asc&apikey=");
    text.append(api_key);
    assert(text@ =~= list_url_text(chain, kind, address@, page as nat, offset as nat, api_key@));
    checked_url(text)
}

/// The URL for the balance of an address.
pub fn balance_url(chain: Chain, address: &str, api_key: &str) -> (r: Result<String, AppError>)
    ensures
        match url_outcome(balance_url_text(chain, address@, api_key@)) {
            Ok(u) => r matches Ok(t) && t@ == u,
            Err(e) => r == Err::<String, AppError>(e),
        },
{
    let mut text = String::from_str(prefix_url(chain));
    text.append("/api?module=account&action=balance&address=");
    text.append(address);
    text.append("&tag=latest&apikey=");
    text.append(api_key);
    assert(text@ =~= balance_url_text(chain, address@, api_key@));
    checked_url(text)
}

/// The `result` field of a balance reply: the balance, or a failure text.
pub enum BalanceResult {
    Success(Amount),
    Failed(String),
}

/// A decoded balance reply: status `"1"` means success.
pub struct BalanceResponse {
    pub status: String,
    pub message: String,
    pub result: BalanceResult,
}

/// What came back for a balance request.
pub enum BalanceReply {
    /// The request could not be sent or no reply was received.
    SendFailed,
    /// A reply arrived with this HTTP status; `body` is its decoded envelope,
    /// or `None` when the body did not decode.
    Received { http_status: u16, body: Option<BalanceResponse> },
}

/// The balance a reply gives, or the error it is.
pub open spec fn balance_outcome(reply: BalanceReply) -> Result<Amount, AppError> {
    match reply {
        BalanceReply::SendFailed => Err(AppError::ErrorSendingHttpRequest),
        BalanceReply::Received { http_status, body } => if http_status != 200 {
            Err(AppError::ErrorHttpStatus(http_status))
        } else {
            match body {
                None => Err(AppError::ErrorJsonParsing),
                Some(resp) => if resp.status@ == "1"@ {
                    match resp.result {
                        BalanceResult::Success(v) => Ok(v),
                        BalanceResult::Failed(text) => Err(AppError::ErrorUnexpectedResult(Some(text))),
                    }
                } else {
                    Err(AppError::ErrorApiResponse(resp.message))
                },
            }
        },
    }
}

/// The balance a reply gives, or the error it is.
pub fn balance_from_reply(reply: BalanceReply) -> (r: Result<Amount, AppError>)
    ensures
        r == balance_outcome(reply),
{
    match reply {
        BalanceReply::SendFailed => Err(AppError::ErrorSendingHttpRequest),
        BalanceReply::Received { http_status, body } => {
            if http_status != 200 {
                return Err(AppError::ErrorHttpStatus(http_status));
            }
            match body {
                None => Err(AppError::ErrorJsonParsing),
                Some(resp) => {
                    if resp.status == String::from_str("1") {
                        match resp.result {
                            BalanceResult::Success(v) => Ok(v),
                            BalanceResult::Failed(text) => Err(AppError::ErrorUnexpectedResult(Some(text))),
                        }
                    } else {
                        Err(AppError::ErrorApiResponse(resp.message))
                    }
                },
            }
        },
    }
}

} // verus!
