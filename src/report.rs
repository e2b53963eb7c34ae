//! Outcome records of single checks and the report records built from them.
use vstd::prelude::*;
use vstd::string::StringExecFns;

verus! {

/// A duration as whole seconds and the nanoseconds beyond them.
#[derive(Clone, Copy, PartialEq, Eq, Structural)]
pub struct Elapsed {
    pub secs: u64,
    pub nanos: u32,
}

impl Elapsed {
    pub open spec fn wf(&self) -> bool {
        self.nanos < 1_000_000_000
    }

    /// Whole milliseconds, truncating.
    pub open spec fn millis(&self) -> int {
        self.secs * 1000 + self.nanos / 1_000_000
    }

    pub fn zero() -> (e: Self)
        ensures
            e.wf(),
            e.millis() == 0,
    {
        Elapsed { secs: 0, nanos: 0 }
    }

    pub fn new(secs: u64, nanos: u32) -> (e: Option<Self>)
        ensures
            e is Some <==> nanos < 1_000_000_000,
            e is Some ==> e->0.secs == secs && e->0.nanos == nanos,
    {
        if nanos < 1_000_000_000 {
            Some(Elapsed { secs, nanos })
        } else {
            None
        }
    }

    pub fn as_millis(&self) -> (ms: u128)
        ensures
            ms == self.millis(),
    {
        self.secs as u128 * 1000 + (self.nanos / 1_000_000) as u128
    }
}

/// The result of checking one target: the HTTP status code of the response,
/// or a message describing why no response came.
pub struct CheckOutcome {
    pub url: String,
    pub result: Result<u16, String>,
    pub elapsed: Elapsed,
    pub timestamp: String,
}

/// One record of the final report.
pub struct ReportRecord {
    pub url: String,
    pub status_code: Option<u16>,
    pub error: Option<String>,
    pub response_time_ms: u128,
    pub timestamp: String,
}

/// Exactly one of the status code and the error is present.
pub open spec fn record_consistent(r: ReportRecord) -> bool {
    r.status_code is Some != r.error is Some
}

/// `r` is the report record of `o`.
pub open spec fn record_of(o: CheckOutcome, r: ReportRecord) -> bool {
    &&& r.url@ == o.url@
    &&& r.timestamp@ == o.timestamp@
    &&& r.response_time_ms == o.elapsed.millis()
    &&& match o.result {
        Ok(code) => r.status_code == Some(code) && r.error is None,
        Err(msg) => r.status_code is None && r.error is Some && r.error->0@ == msg@,
    }
}

/// The message of an attempt that got no HTTP response.
pub fn request_error_message(detail: &str) -> (m: String)
    ensures
        m@ == "Request error: "@ + detail@,
{
    let mut m = String::from_str("Request error: ");
    m.append(detail);
    m
}

/// The message of a check that could not build its HTTP client.
pub fn client_error_message(detail: &str) -> (m: String)
    ensures
        m@ == "Failed to create HTTP client: "@ + detail@,
{
    let mut m = String::from_str("Failed to create HTTP client: ");
    m.append(detail);
    m
}

/// The outcome of a check whose HTTP client could not be built: an error,
/// with no attempt made and no time spent.
pub fn client_failure_outcome(url: String, detail: &str, timestamp: String) -> (o: CheckOutcome)
    ensures
        o.url == url,
        o.result is Err,
        o.result->Err_0@ == "Failed to create HTTP client: "@ + detail@,
        o.elapsed.wf(),
        o.elapsed.millis() == 0,
        o.timestamp == timestamp,
{
    CheckOutcome {
        url,
        result: Err(client_error_message(detail)),
        elapsed: Elapsed::zero(),
        timestamp,
    }
}

/// Builds the report record of one outcome.
pub fn to_record(o: &CheckOutcome) -> (r: ReportRecord)
    ensures
        record_of(*o, r),
        record_consistent(r),
{
    let (status_code, error) = match &o.result {
        Ok(code) => (Some(*code), None),
        Err(msg) => (None, Some(msg.clone())),
    };
    ReportRecord {
        url: o.url.clone(),
        status_code,
        error,
        response_time_ms: o.elapsed.as_millis(),
        timestamp: o.timestamp.clone(),
    }
}

/// Builds the report: one record per outcome, in the same order.
pub fn emit_report(outcomes: &Vec<CheckOutcome>) -> (rs: Vec<ReportRecord>)
    ensures
        rs@.len() == outcomes@.len(),
        forall|i: int| 0 <= i < rs@.len() ==> record_of(outcomes@[i], #[trigger] rs@[i]),
        forall|i: int| 0 <= i < rs@.len() ==> record_consistent(#[trigger] rs@[i]),
{
    let mut rs: Vec<ReportRecord> = Vec::new();
    let mut i: usize = 0;
    while i < outcomes.len()
        invariant
            i <= outcomes@.len(),
            rs@.len() == i,
            forall|j: int| 0 <= j < i ==> record_of(outcomes@[j], #[trigger] rs@[j]),
            forall|j: int| 0 <= j < i ==> record_consistent(#[trigger] rs@[j]),
        decreases outcomes@.len() - i,
    {
        let r = to_record(&outcomes[i]);
        rs.push(r);
        i = i + 1;
    }
    rs
}

} // verus!
