use crate::response::{copy_headers, headers_view, is_status_code, HeaderPair, ResponseView, SavedResponse};
use vstd::prelude::*;
use vstd::slice::slice_to_vec;
use vstd::string::*;

verus! {

/// The row that stores a response under an idempotency key: the columns
/// `response_status_code`, `response_headers` and `response_body`.
pub struct SavedRecord {
    pub response_status_code: i16,
    pub response_headers: Vec<HeaderPair>,
    pub response_body: Vec<u8>,
}

/// The mathematical content of a stored row.
pub struct SavedRecordView {
    pub response_status_code: i16,
    pub response_headers: Seq<(Seq<char>, Seq<u8>)>,
    pub response_body: Seq<u8>,
}

impl View for SavedRecord {
    type V = SavedRecordView;

    open spec fn view(&self) -> SavedRecordView {
        SavedRecordView {
            response_status_code: self.response_status_code,
            response_headers: headers_view(self.response_headers@),
            response_body: self.response_body@,
        }
    }
}

/// What can go wrong between the idempotency table and a response.
#[derive(Debug, Clone, Copy, PartialEq, Eq, Structural)]
pub enum IdempotencyError {
    /// The stored status code is negative and so no `u16`.
    StatusOutOfRange,
    /// The stored status code is no HTTP status code.
    InvalidStatusCode,
    /// The key was claimed before, yet no response is stored under it.
    MissingSavedResponse,
}

/// The text of each error.
pub open spec fn error_message(e: IdempotencyError) -> Seq<char> {
    match e {
        IdempotencyError::StatusOutOfRange => "out of range integral type conversion attempted"@,
        IdempotencyError::InvalidStatusCode => "invalid status code"@,
        IdempotencyError::MissingSavedResponse => "We expected a saved response, we didn't find it"@,
    }
}

impl IdempotencyError {
    /// The error's text.
    pub fn message(&self) -> (m: String)
        ensures
            m@ == error_message(*self),
    {
        match self {
            IdempotencyError::StatusOutOfRange => String::from_str(
                "out of range integral type conversion attempted",
            ),
            IdempotencyError::InvalidStatusCode => String::from_str("invalid status code"),
            IdempotencyError::MissingSavedResponse => String::from_str(
                "We expected a saved response, we didn't find it",
            ),
        }
    }
}

/// An optional row, taken by its view.
pub open spec fn record_view(o: Option<SavedRecord>) -> Option<SavedRecordView> {
    match o {
        Some(r) => Some(r@),
        None => None,
    }
}

/// An optional response, taken by its view.
pub open spec fn response_view(o: Option<SavedResponse>) -> Option<ResponseView> {
    match o {
        Some(r) => Some(r@),
        None => None,
    }
}

/// The outcome of a lookup, taken by its view.
pub open spec fn lookup_view(res: Result<Option<SavedResponse>, IdempotencyError>) -> Result<
    Option<ResponseView>,
    IdempotencyError,
> {
    match res {
        Ok(o) => Ok(response_view(o)),
        Err(e) => Err(e),
    }
}

/// The outcome of `try_processing`, taken by its view.
pub open spec fn decision_view(res: Result<NextAction, IdempotencyError>) -> Result<
    NextActionView,
    IdempotencyError,
> {
    match res {
        Ok(a) => Ok(a@),
        Err(e) => Err(e),
    }
}

/// The response a stored row stands for, if any.
pub open spec fn spec_get_saved_response(record: Option<SavedRecordView>) -> Result<
    Option<ResponseView>,
    IdempotencyError,
> {
    match record {
        None => Ok(None),
        Some(r) => if r.response_status_code < 0 {
            Err(IdempotencyError::StatusOutOfRange)
        } else if !is_status_code(r.response_status_code as int) {
            Err(IdempotencyError::InvalidStatusCode)
        } else {
            Ok(
                Some(
                    ResponseView {
                        status: r.response_status_code as u16,
                        headers: r.response_headers,
                        body: r.response_body,
                    },
                ),
            )
        },
    }
}

/// Turns the row found under a key (if one was) back into the response it
/// stores.  A stored status code that is negative or no HTTP status code is
/// an error.
pub fn get_saved_response(record: Option<SavedRecord>) -> (res: Result<
    Option<SavedResponse>,
    IdempotencyError,
>)
    ensures
        lookup_view(res) == spec_get_saved_response(record_view(record)),
        record is None ==> res matches Ok(None),
        record matches Some(r) && r.response_status_code < 0 ==> res
            == Err::<Option<SavedResponse>, IdempotencyError>(IdempotencyError::StatusOutOfRange),
        record matches Some(r) && 0 <= r.response_status_code && (r.response_status_code < 100
            || r.response_status_code > 999) ==> res == Err::<Option<SavedResponse>, IdempotencyError>(
            IdempotencyError::InvalidStatusCode,
        ),
        record matches Some(r) ==> (100 <= r.response_status_code <= 999 ==> (res matches Ok(
            Some(x),
        ) && x@.status as int == r.response_status_code as int && x@.headers == headers_view(
            r.response_headers@,
        ) && x@.body == r.response_body@)),
{
    match record {
        None => Ok(None),
        Some(r) => {
            if r.response_status_code < 0 {
                return Err(IdempotencyError::StatusOutOfRange);
            }
            let code = r.response_status_code as u16;
            match SavedResponse::new(code, r.response_headers, r.response_body) {
                Some(s) => Ok(Some(s)),
                None => Err(IdempotencyError::InvalidStatusCode),
            }
        },
    }
}

/// The row under which a response is stored.
pub open spec fn spec_save_response(r: ResponseView) -> SavedRecordView {
    SavedRecordView {
        response_status_code: r.status as i16,
        response_headers: r.headers,
        response_body: r.body,
    }
}

/// The values that storing `response` writes into its row.
pub fn save_response(response: &SavedResponse) -> (record: SavedRecord)
    ensures
        record@ == spec_save_response(response@),
        record.response_status_code as int == response@.status as int,
        headers_view(record.response_headers@) == response@.headers,
        record.response_body@ == response@.body,
{
    let status = response.status();
    SavedRecord {
        response_status_code: status as i16,
        response_headers: copy_headers(response.headers()),
        response_body: slice_to_vec(response.body().as_slice()),
    }
}

/// Law: what is stored of a response gives that response back.
pub proof fn lemma_save_then_get_round_trip(r: ResponseView)
    requires
        is_status_code(r.status as int),
    ensures
        spec_get_saved_response(Some(spec_save_response(r))) == Ok::<
            Option<ResponseView>,
            IdempotencyError,
        >(Some(r)),
{
}

/// Law: a stored row with a valid status code gives back exactly its status,
/// headers and body, and one with any other status code is refused.
pub proof fn lemma_get_keeps_row(r: SavedRecordView)
    ensures
        is_status_code(r.response_status_code as int) ==> spec_get_saved_response(Some(r)) == Ok::<
            Option<ResponseView>,
            IdempotencyError,
        >(
            Some(
                ResponseView {
                    status: r.response_status_code as u16,
                    headers: r.response_headers,
                    body: r.response_body,
                },
            ),
        ),
        !is_status_code(r.response_status_code as int) ==> spec_get_saved_response(Some(r)) is Err,
{
}

/// Law: storing a response keeps its status code, headers and body.
pub proof fn lemma_save_keeps_response(r: ResponseView)
    requires
        is_status_code(r.status as int),
    ensures
        spec_save_response(r).response_status_code as int == r.status as int,
        spec_save_response(r).response_headers == r.headers,
        spec_save_response(r).response_body == r.body,
{
}

/// Law: under a key with no stored row there is no saved response.
pub proof fn lemma_no_row_no_response()
    ensures
        spec_get_saved_response(None) == Ok::<Option<ResponseView>, IdempotencyError>(None),
{
}

/// What to do with a request whose key has been claimed or was claimed
/// before.
pub enum NextAction {
    /// The key was claimed now: process the request.
    StartProcessing,
    /// The key was claimed before: answer with the response stored then.
    ReturnSavedResponse(SavedResponse),
}

/// The mathematical content of a `NextAction`.
pub enum NextActionView {
    StartProcessing,
    ReturnSavedResponse(ResponseView),
}

impl View for NextAction {
    type V = NextActionView;

    open spec fn view(&self) -> NextActionView {
        match self {
            NextAction::StartProcessing => NextActionView::StartProcessing,
            NextAction::ReturnSavedResponse(r) => NextActionView::ReturnSavedResponse(r@),
        }
    }
}

/// The decision of `try_processing`.
pub open spec fn spec_try_processing(n_inserted_rows: u64, saved: Option<ResponseView>) -> Result<
    NextActionView,
    IdempotencyError,
> {
    if n_inserted_rows > 0 {
        Ok(NextActionView::StartProcessing)
    } else {
        match saved {
            Some(r) => Ok(NextActionView::ReturnSavedResponse(r)),
            None => Err(IdempotencyError::MissingSavedResponse),
        }
    }
}

/// Law: a request whose key was claimed now is processed; one whose key was
/// claimed before gets exactly the response saved under the key (status,
/// headers and body), or fails when none was saved.
pub proof fn lemma_try_processing_replays(n_inserted_rows: u64, saved: Option<ResponseView>)
    ensures
        n_inserted_rows > 0 ==> spec_try_processing(n_inserted_rows, saved) == Ok::<
            NextActionView,
            IdempotencyError,
        >(NextActionView::StartProcessing),
        saved matches Some(r) ==> (n_inserted_rows == 0 ==> spec_try_processing(
            n_inserted_rows,
            saved,
        ) == Ok::<NextActionView, IdempotencyError>(NextActionView::ReturnSavedResponse(r))),
        n_inserted_rows == 0 && saved is None ==> spec_try_processing(n_inserted_rows, saved) == Err::<
            NextActionView,
            IdempotencyError,
        >(IdempotencyError::MissingSavedResponse),
{
}

/// Decides what to do once the key has been offered to the idempotency
/// table: `n_inserted_rows` rows were inserted (none when the key was
/// there already), and `saved` is the response stored under the key (only
/// looked at when no row was inserted).
pub fn try_processing(n_inserted_rows: u64, saved: Option<SavedResponse>) -> (res: Result<
    NextAction,
    IdempotencyError,
>)
    ensures
        decision_view(res) == spec_try_processing(n_inserted_rows, response_view(saved)),
        n_inserted_rows > 0 ==> res matches Ok(NextAction::StartProcessing),
        n_inserted_rows == 0 && saved is None ==> res == Err::<NextAction, IdempotencyError>(
            IdempotencyError::MissingSavedResponse,
        ),
        saved matches Some(r) ==> (n_inserted_rows == 0 ==> (res matches Ok(
            NextAction::ReturnSavedResponse(x),
        ) && x@ == r@)),
{
    if n_inserted_rows > 0 {
        Ok(NextAction::StartProcessing)
    } else {
        match saved {
            Some(r) => Ok(NextAction::ReturnSavedResponse(r)),
            None => Err(IdempotencyError::MissingSavedResponse),
        }
    }
}

} // verus!
