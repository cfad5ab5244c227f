//! A company's raw financial figures, read from the two JSON documents the
//! quote service returns for a ticker symbol.
use vstd::prelude::*;
use vstd::string::StringExecFns;

verus! {

/// The four figures the evaluation needs, for one ticker symbol. All four
/// are read as signed integers, so a figure the service reports with an odd
/// sign is kept as it came and judged by the policy.
pub struct Company {
    pub name: String,
    pub market_cap: i64,
    pub total_debt: i64,
    pub free_cash: i64,
    pub free_cash_flow: i64,
}

/// Why a company's figures could not be had.
#[derive(Debug)]
pub enum FetchError {
    /// A request to the quote service failed.
    RequestError(reqwest::Error),
    /// A response body is not a JSON document.
    ResponseError(serde_json::Error),
    MarketCapParseError,
    TotalDebtParseError,
    FreeCashParseError,
    FreeCashFlowParseError,
}

/// A parsed JSON document, together with the text it was parsed from.
struct Document {
    text: Ghost<Seq<char>>,
    value: serde_json::Value,
}

impl Document {
    /// The text this document was parsed from.
    closed spec fn text(&self) -> Seq<char> {
        self.text@
    }
}

/// Whether serde_json accepts `text` as a JSON document.
pub uninterp spec fn json_accepts(text: Seq<char>) -> bool;

/// The integer that the JSON pointer `pointer` selects in the document
/// written as `text`, if it selects one that fits an `i64`.
pub uninterp spec fn json_i64_at(text: Seq<char>, pointer: Seq<char>) -> Option<i64>;

/// Relies on serde_json::from_str into a serde_json::Value: it succeeds exactly
/// on the texts serde_json accepts as JSON, and the outcome depends on the text alone.
#[verifier::external_body]
fn parse_document(body: &str) -> (r: Result<Document, serde_json::Error>)
    ensures
        r is Ok <==> json_accepts(body@),
        r matches Ok(d) ==> d.text() == body@,
{
    match serde_json::from_str::<serde_json::Value>(body) {
        Ok(value) => Ok(Document { text: Ghost(body@), value }),
        Err(e) => Err(e),
    }
}

/// Relies on serde_json's Value::pointer and Value::as_i64: the value at a JSON
/// pointer, read as an `i64` where it is an integer that fits.
#[verifier::external_body]
fn number_at(doc: &Document, pointer: &str) -> (r: Option<i64>)
    ensures
        r == json_i64_at(doc.text(), pointer@),
{
    doc.value.pointer(pointer).and_then(serde_json::Value::as_i64)
}

pub const QUOTE_SUMMARY_URL: &'static str = "https://query2.finance.yahoo.com/v6/finance/quoteSummary/";

pub const SUMMARY_MODULE: &'static str = "?modules=summaryDetail";

pub const FINANCIAL_MODULE: &'static str = "?modules=financialData";

pub const MARKET_CAP_POINTER: &'static str = "/quoteSummary/result/0/summaryDetail/marketCap/raw";

pub const TOTAL_DEBT_POINTER: &'static str = "/quoteSummary/result/0/financialData/totalDebt/raw";

pub const TOTAL_CASH_POINTER: &'static str = "/quoteSummary/result/0/financialData/totalCash/raw";

pub const FREE_CASH_FLOW_POINTER: &'static str = "/quoteSummary/result/0/financialData/freeCashflow/raw";

/// `r` is what the figures found (`None` where one is missing) make of a
/// company named `name`: the first missing figure, in the order market cap,
/// total debt, total cash, free cash flow, names the error.
pub open spec fn built_from(
    r: Result<Company, FetchError>,
    name: Seq<char>,
    market_cap: Option<i64>,
    total_debt: Option<i64>,
    free_cash: Option<i64>,
    free_cash_flow: Option<i64>,
) -> bool {
    if market_cap is None {
        r matches Err(FetchError::MarketCapParseError)
    } else if total_debt is None {
        r matches Err(FetchError::TotalDebtParseError)
    } else if free_cash is None {
        r matches Err(FetchError::FreeCashParseError)
    } else if free_cash_flow is None {
        r matches Err(FetchError::FreeCashFlowParseError)
    } else {
        &&& r is Ok
        &&& r->Ok_0.name@ == name
        &&& r->Ok_0.market_cap == market_cap->0
        &&& r->Ok_0.total_debt == total_debt->0
        &&& r->Ok_0.free_cash == free_cash->0
        &&& r->Ok_0.free_cash_flow == free_cash_flow->0
    }
}

impl Company {
    /// The URL of the summary document, which holds the market cap.
    pub fn summary_url(name: &str) -> (r: String)
        ensures
            r@ == QUOTE_SUMMARY_URL@ + name@ + SUMMARY_MODULE@,
    {
        let mut url = String::from_str(QUOTE_SUMMARY_URL);
        url.append(name);
        url.append(SUMMARY_MODULE);
        url
    }

    /// The URL of the financial-data document, which holds debt, cash and
    /// free cash flow.
    pub fn financial_url(name: &str) -> (r: String)
        ensures
            r@ == QUOTE_SUMMARY_URL@ + name@ + FINANCIAL_MODULE@,
    {
        let mut url = String::from_str(QUOTE_SUMMARY_URL);
        url.append(name);
        url.append(FINANCIAL_MODULE);
        url
    }

    /// Builds a company from the figures found, failing on the first one missing.
    pub fn from_fields(
        name: &str,
        market_cap: Option<i64>,
        total_debt: Option<i64>,
        free_cash: Option<i64>,
        free_cash_flow: Option<i64>,
    ) -> (r: Result<Company, FetchError>)
        ensures
            built_from(r, name@, market_cap, total_debt, free_cash, free_cash_flow),
    {
        let market_cap = match market_cap {
            Some(v) => v,
            None => return Err(FetchError::MarketCapParseError),
        };
        let total_debt = match total_debt {
            Some(v) => v,
            None => return Err(FetchError::TotalDebtParseError),
        };
        let free_cash = match free_cash {
            Some(v) => v,
            None => return Err(FetchError::FreeCashParseError),
        };
        let free_cash_flow = match free_cash_flow {
            Some(v) => v,
            None => return Err(FetchError::FreeCashFlowParseError),
        };
        Ok(Company { name: String::from_str(name), market_cap, total_debt, free_cash, free_cash_flow })
    }

    /// Reads a company from the bodies of its summary and financial-data
    /// documents: a body that is not JSON gives `ResponseError`, a missing
    /// figure the error that names it.
    pub fn from_responses(name: &str, summary: &str, financial: &str) -> (r: Result<Company, FetchError>)
        ensures
            !json_accepts(summary@) ==> r matches Err(FetchError::ResponseError(_)),
            json_accepts(summary@) && !json_accepts(financial@) ==> r matches Err(
                FetchError::ResponseError(_),
            ),
            json_accepts(summary@) && json_accepts(financial@) ==> built_from(
                r,
                name@,
                json_i64_at(summary@, MARKET_CAP_POINTER@),
                json_i64_at(financial@, TOTAL_DEBT_POINTER@),
                json_i64_at(financial@, TOTAL_CASH_POINTER@),
                json_i64_at(financial@, FREE_CASH_FLOW_POINTER@),
            ),
    {
        let summary_doc = match parse_document(summary) {
            Ok(d) => d,
            Err(e) => return Err(FetchError::ResponseError(e)),
        };
        let financial_doc = match parse_document(financial) {
            Ok(d) => d,
            Err(e) => return Err(FetchError::ResponseError(e)),
        };
        let market_cap = number_at(&summary_doc, MARKET_CAP_POINTER);
        let total_debt = number_at(&financial_doc, TOTAL_DEBT_POINTER);
        let free_cash = number_at(&financial_doc, TOTAL_CASH_POINTER);
        let free_cash_flow = number_at(&financial_doc, FREE_CASH_FLOW_POINTER);
        Company::from_fields(name, market_cap, total_debt, free_cash, free_cash_flow)
    }
}

} // verus!
