use vstd::prelude::*;

verus! {

/// A request that has been dispatched and not yet logged. It cannot be copied, so each
/// request gives at most one record.
#[derive(Debug)]
pub struct PendingRequest {
    method: String,
    path: String,
}

impl View for PendingRequest {
    type V = (Seq<char>, Seq<char>);

    closed spec fn view(&self) -> (Seq<char>, Seq<char>) {
        (self.method@, self.path@)
    }
}

/// One log line's worth of facts about a handled request.
#[derive(Debug)]
pub struct RequestLogRecord {
    pub method: String,
    pub path: String,
    pub status: u16,
    pub elapsed_micros: u64,
}

/// Notes the method and path of a request before it is handed to its handler.
pub fn begin_request(method: &str, path: &str) -> (r: PendingRequest)
    ensures
        r@ == (method@, path@),
{
    PendingRequest { method: String::from_str(method), path: String::from_str(path) }
}

/// Closes a request with the status of the answer its handler gave and the time it took,
/// and gives its one record.
pub fn finish_request(pending: PendingRequest, status: u16, elapsed_micros: u64) -> (r:
    RequestLogRecord)
    ensures
        r.method@ == pending@.0,
        r.path@ == pending@.1,
        r.status == status,
        r.elapsed_micros == elapsed_micros,
{
    RequestLogRecord { method: pending.method, path: pending.path, status, elapsed_micros }
}

} // verus!
