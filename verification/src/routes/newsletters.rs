use crate::idempotency::key::{key_rejection, IdempotencyKey};
use crate::idempotency::persistence::{
    error_message, get_saved_response, lemma_save_then_get_round_trip, save_response,
    spec_get_saved_response,
    spec_save_response, try_processing, IdempotencyError, NextAction, SavedRecord,
    SavedRecordView,
};
use crate::response::{is_status_code, see_other, see_other_view, ResponseView, SavedResponse};
use vstd::prelude::*;
use vstd::string::*;

verus! {

/// The form with which an administrator publishes a newsletter issue.
pub struct FormData {
    pub title: String,
    pub html_content: String,
    pub text_content: String,
    pub idempotency_key: String,
}

/// The mathematical content of the form.
pub struct FormDataView {
    pub title: Seq<char>,
    pub html_content: Seq<char>,
    pub text_content: Seq<char>,
    pub idempotency_key: Seq<char>,
}

impl View for FormData {
    type V = FormDataView;

    open spec fn view(&self) -> FormDataView {
        FormDataView {
            title: self.title@,
            html_content: self.html_content@,
            text_content: self.text_content@,
            idempotency_key: self.idempotency_key@,
        }
    }
}

/// The content of a newsletter issue.
pub struct NewsletterIssue {
    pub title: String,
    pub text_content: String,
    pub html_content: String,
}

/// The mathematical content of an issue.
pub struct IssueView {
    pub title: Seq<char>,
    pub text_content: Seq<char>,
    pub html_content: Seq<char>,
}

impl View for NewsletterIssue {
    type V = IssueView;

    open spec fn view(&self) -> IssueView {
        IssueView {
            title: self.title@,
            text_content: self.text_content@,
            html_content: self.html_content@,
        }
    }
}

/// How a publication request fails: `BadRequest` is answered with status
/// 400, `InternalError` with status 500; each carries the error's text.
pub enum PublishError {
    BadRequest(String),
    InternalError(String),
}

/// The mathematical content of an error.
pub enum PublishErrorView {
    BadRequest(Seq<char>),
    InternalError(Seq<char>),
}

impl View for PublishError {
    type V = PublishErrorView;

    open spec fn view(&self) -> PublishErrorView {
        match self {
            PublishError::BadRequest(m) => PublishErrorView::BadRequest(m@),
            PublishError::InternalError(m) => PublishErrorView::InternalError(m@),
        }
    }
}

/// Where a publication request stands.
pub enum PublishState {
    /// The key is being claimed in the idempotency table.
    Claiming { key: IdempotencyKey, issue: NewsletterIssue },
    /// The key was claimed before; the response stored under it is being read.
    FetchingSaved { key: IdempotencyKey },
    /// The issue is being stored.
    InsertingIssue { key: IdempotencyKey },
    /// Deliveries of the stored issue are being queued.
    Enqueuing { key: IdempotencyKey },
    /// The response is being stored under the key.
    Saving { response: SavedResponse },
    /// The request has been answered.
    Finished,
}

/// The mathematical content of a state.
pub enum PublishStateView {
    Claiming { key: Seq<char>, issue: IssueView },
    FetchingSaved { key: Seq<char> },
    InsertingIssue { key: Seq<char> },
    Enqueuing { key: Seq<char> },
    Saving { response: ResponseView },
    Finished,
}

impl View for PublishState {
    type V = PublishStateView;

    open spec fn view(&self) -> PublishStateView {
        match self {
            PublishState::Claiming { key, issue } => PublishStateView::Claiming {
                key: key@,
                issue: issue@,
            },
            PublishState::FetchingSaved { key } => PublishStateView::FetchingSaved { key: key@ },
            PublishState::InsertingIssue { key } => PublishStateView::InsertingIssue { key: key@ },
            PublishState::Enqueuing { key } => PublishStateView::Enqueuing { key: key@ },
            PublishState::Saving { response } => PublishStateView::Saving { response: response@ },
            PublishState::Finished => PublishStateView::Finished,
        }
    }
}

/// What the caller is to do next for a publication request.
pub enum PublishAction {
    /// Begin a transaction and insert the key into the idempotency table,
    /// doing nothing where it is there already; report the rows inserted.
    ClaimKey { key: IdempotencyKey },
    /// Read the response stored under the key.
    FetchSavedResponse { key: IdempotencyKey },
    /// Store the issue in the transaction; report its id.
    InsertIssue { issue: NewsletterIssue },
    /// Queue one delivery of the issue per confirmed subscriber.
    EnqueueDeliveryTasks { issue_id: u128 },
    /// Write `record` into the key's row and commit the transaction.
    SaveResponse { key: IdempotencyKey, record: SavedRecord },
    /// Send the flash message `flash` and answer with `response`.
    Respond { response: SavedResponse, flash: String },
    /// Answer with the error.
    Fail(PublishError),
}

/// The mathematical content of an action.
pub enum PublishActionView {
    ClaimKey { key: Seq<char> },
    FetchSavedResponse { key: Seq<char> },
    InsertIssue { issue: IssueView },
    EnqueueDeliveryTasks { issue_id: u128 },
    SaveResponse { key: Seq<char>, record: SavedRecordView },
    Respond { response: ResponseView, flash: Seq<char> },
    Fail(PublishErrorView),
}

impl View for PublishAction {
    type V = PublishActionView;

    open spec fn view(&self) -> PublishActionView {
        match self {
            PublishAction::ClaimKey { key } => PublishActionView::ClaimKey { key: key@ },
            PublishAction::FetchSavedResponse { key } => PublishActionView::FetchSavedResponse {
                key: key@,
            },
            PublishAction::InsertIssue { issue } => PublishActionView::InsertIssue { issue: issue@ },
            PublishAction::EnqueueDeliveryTasks { issue_id } =>
                PublishActionView::EnqueueDeliveryTasks { issue_id: *issue_id },
            PublishAction::SaveResponse { key, record } => PublishActionView::SaveResponse {
                key: key@,
                record: record@,
            },
            PublishAction::Respond { response, flash } => PublishActionView::Respond {
                response: response@,
                flash: flash@,
            },
            PublishAction::Fail(e) => PublishActionView::Fail(e@),
        }
    }
}

/// What the caller reports back after performing an action.
pub enum PublishEvent {
    /// After `ClaimKey`: the rows inserted, or the database error's text.
    KeyClaimed(Result<u64, String>),
    /// After `FetchSavedResponse`: the row found (if any), or the error's text.
    SavedResponseFetched(Result<Option<SavedRecord>, String>),
    /// After `InsertIssue`: the new issue's id, or `None` when storing failed.
    IssueInserted(Option<u128>),
    /// After `EnqueueDeliveryTasks`: whether queueing succeeded.
    DeliveryTasksEnqueued(bool),
    /// After `SaveResponse`: success, or the error's text.
    ResponseSaved(Result<(), String>),
}

/// The mathematical content of an event.
pub enum PublishEventView {
    KeyClaimed(Result<u64, Seq<char>>),
    SavedResponseFetched(Result<Option<SavedRecordView>, Seq<char>>),
    IssueInserted(Option<u128>),
    DeliveryTasksEnqueued(bool),
    ResponseSaved(Result<(), Seq<char>>),
}

impl View for PublishEvent {
    type V = PublishEventView;

    open spec fn view(&self) -> PublishEventView {
        match self {
            PublishEvent::KeyClaimed(r) => PublishEventView::KeyClaimed(
                match r {
                    Ok(n) => Ok(*n),
                    Err(m) => Err(m@),
                },
            ),
            PublishEvent::SavedResponseFetched(r) => PublishEventView::SavedResponseFetched(
                match r {
                    Ok(Some(rec)) => Ok(Some(rec@)),
                    Ok(None) => Ok(None),
                    Err(m) => Err(m@),
                },
            ),
            PublishEvent::IssueInserted(o) => PublishEventView::IssueInserted(*o),
            PublishEvent::DeliveryTasksEnqueued(b) => PublishEventView::DeliveryTasksEnqueued(*b),
            PublishEvent::ResponseSaved(r) => PublishEventView::ResponseSaved(
                match r {
                    Ok(u) => Ok(*u),
                    Err(m) => Err(m@),
                },
            ),
        }
    }
}

/// The flash message shown once an issue has been accepted.
pub open spec fn success_text() -> Seq<char> {
    "The newsletter issue has been accepted emals will go out shortly!"@
}

/// The page to which an accepted publication redirects.
pub open spec fn newsletters_page() -> Seq<char> {
    "/admin/newsletters"@
}

/// The text of an internal error when the issue could not be stored.
pub open spec fn store_issue_failure() -> Seq<char> {
    "Failed to store newsletter issue details"@
}

/// The text of an internal error when deliveries could not be queued.
pub open spec fn enqueue_failure() -> Seq<char> {
    "Failed to enqueue delivery tasks"@
}

/// The flash message shown once an issue has been accepted.
pub fn success_message() -> (m: String)
    ensures
        m@ == success_text(),
{
    String::from_str("The newsletter issue has been accepted emals will go out shortly!")
}

/// The answer to a request after `response` was obtained for it.
pub open spec fn respond(response: ResponseView) -> (PublishStateView, PublishActionView) {
    (
        PublishStateView::Finished,
        PublishActionView::Respond { response, flash: success_text() },
    )
}

/// The answer to a request that failed with status 500.
pub open spec fn internal_error(message: Seq<char>) -> (PublishStateView, PublishActionView) {
    (
        PublishStateView::Finished,
        PublishActionView::Fail(PublishErrorView::InternalError(message)),
    )
}

/// How a publication request begins.
pub open spec fn spec_publish_newsletter(form: FormDataView) -> (PublishStateView, PublishActionView) {
    match key_rejection(form.idempotency_key) {
        Some(m) => (PublishStateView::Finished, PublishActionView::Fail(PublishErrorView::BadRequest(m))),
        None => (
            PublishStateView::Claiming {
                key: form.idempotency_key,
                issue: IssueView {
                    title: form.title,
                    text_content: form.text_content,
                    html_content: form.html_content,
                },
            },
            PublishActionView::ClaimKey { key: form.idempotency_key },
        ),
    }
}

/// Whether `state` waits for an event of the kind of `event`.
pub open spec fn accepts(state: PublishStateView, event: PublishEventView) -> bool {
    match (state, event) {
        (PublishStateView::Claiming { .. }, PublishEventView::KeyClaimed(_)) => true,
        (PublishStateView::FetchingSaved { .. }, PublishEventView::SavedResponseFetched(_)) => true,
        (PublishStateView::InsertingIssue { .. }, PublishEventView::IssueInserted(_)) => true,
        (PublishStateView::Enqueuing { .. }, PublishEventView::DeliveryTasksEnqueued(_)) => true,
        (PublishStateView::Saving { .. }, PublishEventView::ResponseSaved(_)) => true,
        _ => false,
    }
}

/// One step of a publication request.
pub open spec fn spec_publish_step(state: PublishStateView, event: PublishEventView) -> (
    PublishStateView,
    PublishActionView,
) {
    match (state, event) {
        (PublishStateView::Claiming { key, issue }, PublishEventView::KeyClaimed(r)) => match r {
            Err(m) => internal_error(m),
            Ok(n) => if n > 0 {
                (PublishStateView::InsertingIssue { key }, PublishActionView::InsertIssue { issue })
            } else {
                (PublishStateView::FetchingSaved { key }, PublishActionView::FetchSavedResponse { key })
            },
        },
        (PublishStateView::FetchingSaved { key }, PublishEventView::SavedResponseFetched(r)) => match r {
            Err(m) => internal_error(m),
            Ok(record) => match spec_get_saved_response(record) {
                Err(e) => internal_error(error_message(e)),
                Ok(None) => internal_error(error_message(IdempotencyError::MissingSavedResponse)),
                Ok(Some(response)) => respond(response),
            },
        },
        (PublishStateView::InsertingIssue { key }, PublishEventView::IssueInserted(o)) => match o {
            None => internal_error(store_issue_failure()),
            Some(issue_id) => (
                PublishStateView::Enqueuing { key },
                PublishActionView::EnqueueDeliveryTasks { issue_id },
            ),
        },
        (PublishStateView::Enqueuing { key }, PublishEventView::DeliveryTasksEnqueued(ok)) => if ok {
            (
                PublishStateView::Saving { response: see_other_view(newsletters_page()) },
                PublishActionView::SaveResponse {
                    key,
                    record: spec_save_response(see_other_view(newsletters_page())),
                },
            )
        } else {
            internal_error(enqueue_failure())
        },
        (PublishStateView::Saving { response }, PublishEventView::ResponseSaved(r)) => match r {
            Err(m) => internal_error(m),
            Ok(_) => respond(response),
        },
        _ => internal_error(Seq::empty()),
    }
}

/// The actions a request issues when the events `events` come in turn,
/// stopping at the first event the request does not wait for.
pub open spec fn run_events(state: PublishStateView, events: Seq<PublishEventView>) -> Seq<PublishActionView>
    decreases events.len(),
{
    if events.len() == 0 || !accepts(state, events[0]) {
        Seq::empty()
    } else {
        let (next, action) = spec_publish_step(state, events[0]);
        seq![action] + run_events(next, events.drop_first())
    }
}

/// Whether an action does the work of a publication: storing the issue,
/// queueing deliveries or storing the response.
pub open spec fn is_processing(action: PublishActionView) -> bool {
    ||| action is InsertIssue
    ||| action is EnqueueDeliveryTasks
    ||| action is SaveResponse
}

/// Law: a key that is empty or too long is refused with status 400 and the
/// error's text, and the request ends there, before any database work.
pub proof fn lemma_refused_key_is_bad_request(form: FormDataView)
    requires
        key_rejection(form.idempotency_key) is Some,
    ensures
        spec_publish_newsletter(form) == (
            PublishStateView::Finished,
            PublishActionView::Fail(
                PublishErrorView::BadRequest(key_rejection(form.idempotency_key)->0),
            ),
        ),
{
}

/// Law: an acceptable key is claimed first, and the issue to publish is
/// the form's title and contents.
pub proof fn lemma_accepted_key_is_claimed(form: FormDataView)
    requires
        key_rejection(form.idempotency_key) is None,
    ensures
        spec_publish_newsletter(form) == (
            PublishStateView::Claiming {
                key: form.idempotency_key,
                issue: IssueView {
                    title: form.title,
                    text_content: form.text_content,
                    html_content: form.html_content,
                },
            },
            PublishActionView::ClaimKey { key: form.idempotency_key },
        ),
{
}

/// Law: a request whose key was claimed before never stores an issue,
/// queues deliveries or stores a response, whatever is reported to it.
pub proof fn lemma_repeated_key_is_not_processed(
    key: Seq<char>,
    issue: IssueView,
    events: Seq<PublishEventView>,
)
    requires
        events.len() > 0,
        events[0] == PublishEventView::KeyClaimed(Ok(0)),
    ensures
        forall|i: int| 0 <= i < run_events(PublishStateView::Claiming { key, issue }, events).len()
            ==> !is_processing(#[trigger] run_events(PublishStateView::Claiming { key, issue }, events)[i]),
{
    let s0 = PublishStateView::Claiming { key, issue };
    let rest = events.drop_first();
    let s1 = PublishStateView::FetchingSaved { key };
    assert(run_events(s0, events) == seq![PublishActionView::FetchSavedResponse { key }] + run_events(s1, rest));
    if rest.len() > 0 && accepts(s1, rest[0]) {
        let (s2, a1) = spec_publish_step(s1, rest[0]);
        assert(s2 is Finished);
        let rest2 = rest.drop_first();
        assert(run_events(s2, rest2) == Seq::<PublishActionView>::empty());
        assert(run_events(s1, rest) == seq![a1] + run_events(s2, rest2));
        assert(a1 is Respond || a1 is Fail);
    } else {
        assert(run_events(s1, rest) == Seq::<PublishActionView>::empty());
    }
}

/// Law: a repeated request is answered exactly as the first request with
/// its key was: the response that the first one stored and answered with
/// is what the stored row gives back, with the same flash message.
pub proof fn lemma_repeated_request_gets_first_answer(key: Seq<char>)
    ensures
        ({
            let (saving, save) = spec_publish_step(
                PublishStateView::Enqueuing { key },
                PublishEventView::DeliveryTasksEnqueued(true),
            );
            let first_answer = spec_publish_step(saving, PublishEventView::ResponseSaved(Ok(()))).1;
            &&& save matches PublishActionView::SaveResponse { key: saved_key, record }
                && saved_key == key
                && spec_publish_step(
                    PublishStateView::FetchingSaved { key },
                    PublishEventView::SavedResponseFetched(Ok(Some(record))),
                ).1 == first_answer
            &&& first_answer == (PublishActionView::Respond {
                response: see_other_view(newsletters_page()),
                flash: success_text(),
            })
        }),
{
    let r = see_other_view(newsletters_page());
    assert(is_status_code(r.status as int));
    lemma_save_then_get_round_trip(r);
}

/// Law: a request with a fresh key stores the issue, queues its deliveries,
/// stores the redirect to the newsletters page under the key, and answers
/// with that redirect and the success flash message.
pub proof fn lemma_fresh_request_publishes(key: Seq<char>, issue: IssueView, n: u64, issue_id: u128)
    requires
        n > 0,
    ensures
        run_events(
            PublishStateView::Claiming { key, issue },
            seq![
                PublishEventView::KeyClaimed(Ok(n)),
                PublishEventView::IssueInserted(Some(issue_id)),
                PublishEventView::DeliveryTasksEnqueued(true),
                PublishEventView::ResponseSaved(Ok(())),
            ],
        ) == seq![
            PublishActionView::InsertIssue { issue },
            PublishActionView::EnqueueDeliveryTasks { issue_id },
            PublishActionView::SaveResponse {
                key,
                record: spec_save_response(see_other_view(newsletters_page())),
            },
            PublishActionView::Respond {
                response: see_other_view(newsletters_page()),
                flash: success_text(),
            },
        ],
{
    let events = seq![
        PublishEventView::KeyClaimed(Ok(n)),
        PublishEventView::IssueInserted(Some(issue_id)),
        PublishEventView::DeliveryTasksEnqueued(true),
        PublishEventView::ResponseSaved(Ok(())),
    ];
    let e1 = events.drop_first();
    let e2 = e1.drop_first();
    let e3 = e2.drop_first();
    let e4 = e3.drop_first();
    assert(e1 =~= seq![events[1], events[2], events[3]]);
    assert(e2 =~= seq![events[2], events[3]]);
    assert(e3 =~= seq![events[3]]);
    assert(e4 =~= Seq::<PublishEventView>::empty());
    let s1 = PublishStateView::InsertingIssue { key };
    let s2 = PublishStateView::Enqueuing { key };
    let s3 = PublishStateView::Saving { response: see_other_view(newsletters_page()) };
    assert(run_events(PublishStateView::Finished, e4) == Seq::<PublishActionView>::empty());
    assert(run_events(s3, e3) == seq![PublishActionView::Respond {
        response: see_other_view(newsletters_page()),
        flash: success_text(),
    }]);
    assert(run_events(s2, e2) == seq![PublishActionView::SaveResponse {
        key,
        record: spec_save_response(see_other_view(newsletters_page())),
    }] + run_events(s3, e3));
    assert(run_events(s1, e1) == seq![PublishActionView::EnqueueDeliveryTasks { issue_id }] + run_events(s2, e2));
}

/// Law: each waiting state accepts every report of the action that led to
/// it, whatever the report says.
pub proof fn lemma_states_accept_their_reports(
    key: Seq<char>,
    issue: IssueView,
    response: ResponseView,
    claimed: Result<u64, Seq<char>>,
    fetched: Result<Option<SavedRecordView>, Seq<char>>,
    inserted: Option<u128>,
    queued: bool,
    saved: Result<(), Seq<char>>,
)
    ensures
        accepts(PublishStateView::Claiming { key, issue }, PublishEventView::KeyClaimed(claimed)),
        accepts(PublishStateView::FetchingSaved { key }, PublishEventView::SavedResponseFetched(fetched)),
        accepts(PublishStateView::InsertingIssue { key }, PublishEventView::IssueInserted(inserted)),
        accepts(PublishStateView::Enqueuing { key }, PublishEventView::DeliveryTasksEnqueued(queued)),
        accepts(PublishStateView::Saving { response }, PublishEventView::ResponseSaved(saved)),
{
}

/// Law: after each action but an answer, the request waits for the report
/// of that very action, whatever the report says.
pub proof fn lemma_issued_action_is_awaited(state: PublishStateView, event: PublishEventView)
    requires
        accepts(state, event),
    ensures
        ({
            let (next, action) = spec_publish_step(state, event);
            &&& action is FetchSavedResponse ==> forall|f: Result<Option<SavedRecordView>, Seq<char>>|
                #[trigger] accepts(next, PublishEventView::SavedResponseFetched(f))
            &&& action is InsertIssue ==> forall|o: Option<u128>|
                #[trigger] accepts(next, PublishEventView::IssueInserted(o))
            &&& action is EnqueueDeliveryTasks ==> forall|b: bool|
                #[trigger] accepts(next, PublishEventView::DeliveryTasksEnqueued(b))
            &&& action is SaveResponse ==> forall|r: Result<(), Seq<char>>|
                #[trigger] accepts(next, PublishEventView::ResponseSaved(r))
        }),
{
}

/// Law: a request whose key was claimed before reads the stored row and
/// answers with exactly the response stored there (status, headers, body)
/// and the success flash message.
pub proof fn lemma_repeated_request_replays_row(key: Seq<char>, issue: IssueView, row: SavedRecordView)
    requires
        100 <= row.response_status_code <= 999,
    ensures
        run_events(
            PublishStateView::Claiming { key, issue },
            seq![
                PublishEventView::KeyClaimed(Ok(0)),
                PublishEventView::SavedResponseFetched(Ok(Some(row))),
            ],
        ) == seq![
            PublishActionView::FetchSavedResponse { key },
            PublishActionView::Respond {
                response: ResponseView {
                    status: row.response_status_code as u16,
                    headers: row.response_headers,
                    body: row.response_body,
                },
                flash: "The newsletter issue has been accepted emals will go out shortly!"@,
            },
        ],
{
    let events = seq![
        PublishEventView::KeyClaimed(Ok(0)),
        PublishEventView::SavedResponseFetched(Ok(Some(row))),
    ];
    let e1 = events.drop_first();
    let e2 = e1.drop_first();
    assert(e1 =~= seq![events[1]]);
    assert(e2 =~= Seq::<PublishEventView>::empty());
    assert(run_events(PublishStateView::Finished, e2) == Seq::<PublishActionView>::empty());
    let response = ResponseView {
        status: row.response_status_code as u16,
        headers: row.response_headers,
        body: row.response_body,
    };
    assert(spec_get_saved_response(Some(row)) == Ok::<Option<ResponseView>, IdempotencyError>(
        Some(response),
    ));
    let s1 = PublishStateView::FetchingSaved { key };
    assert(spec_publish_step(s1, events[1]) == respond(response));
    assert(run_events(s1, e1) == seq![PublishActionView::Respond { response, flash: success_text() }]);
    assert(run_events(PublishStateView::Claiming { key, issue }, events) == seq![
        PublishActionView::FetchSavedResponse { key },
    ] + run_events(s1, e1));
}

/// Law: a request whose key was claimed before answers with exactly the
/// response that was stored under the key, and the success flash message.
pub proof fn lemma_repeated_request_replays(key: Seq<char>, issue: IssueView, r: ResponseView)
    requires
        is_status_code(r.status as int),
    ensures
        run_events(
            PublishStateView::Claiming { key, issue },
            seq![
                PublishEventView::KeyClaimed(Ok(0)),
                PublishEventView::SavedResponseFetched(Ok(Some(spec_save_response(r)))),
            ],
        ) == seq![
            PublishActionView::FetchSavedResponse { key },
            PublishActionView::Respond { response: r, flash: "The newsletter issue has been accepted emals will go out shortly!"@ },
        ],
{
    lemma_repeated_request_replays_row(key, issue, spec_save_response(r));
    let r2 = ResponseView {
        status: spec_save_response(r).response_status_code as u16,
        headers: r.headers,
        body: r.body,
    };
    assert(r2 == r);
}

/// Law: the answer to an accepted publication is a `303 See Other` to
/// `/admin/newsletters` with an empty body, and the success flash message
/// reads "The newsletter issue has been accepted emals will go out shortly!".
pub proof fn lemma_accepted_answer_is_redirect()
    ensures
        see_other_view(newsletters_page()) == (ResponseView {
            status: 303,
            headers: seq![("location"@, vstd::utf8::encode_utf8("/admin/newsletters"@))],
            body: Seq::empty(),
        }),
        success_text() == "The newsletter issue has been accepted emals will go out shortly!"@,
{
}

/// Law: every answer ends the request, every step that ends it answers,
/// every success carries the success flash message, and once the key has
/// been accepted every failure is an internal error (status 500).
pub proof fn lemma_answers_end_requests(state: PublishStateView, event: PublishEventView)
    requires
        accepts(state, event),
    ensures
        ({
            let (next, action) = spec_publish_step(state, event);
            &&& (next is Finished <==> (action is Respond || action is Fail))
            &&& action matches PublishActionView::Respond { flash, .. } ==> flash == success_text()
            &&& action matches PublishActionView::Fail(e) ==> e is InternalError
        }),
{
}

/// Law: a request that has been answered waits for nothing more.
pub proof fn lemma_finished_request_takes_no_event(event: PublishEventView)
    ensures
        !accepts(PublishStateView::Finished, event),
{
}

/// Takes in a publication request: a key that is empty or too long is
/// refused with status 400 and nothing else happens; otherwise the key is
/// to be claimed.
pub fn publish_newsletter(form: FormData) -> (res: (PublishState, PublishAction))
    ensures
        (res.0@, res.1@) == spec_publish_newsletter(form@),
{
    let FormData { title, html_content, text_content, idempotency_key } = form;
    match IdempotencyKey::parse(idempotency_key) {
        Err(m) => (PublishState::Finished, PublishAction::Fail(PublishError::BadRequest(m))),
        Ok(key) => {
            let claim = key.duplicate();
            (
                PublishState::Claiming { key, issue: NewsletterIssue { title, text_content, html_content } },
                PublishAction::ClaimKey { key: claim },
            )
        },
    }
}

/// Answers with `response` and the success flash message.
fn respond_with(response: SavedResponse) -> (res: (PublishState, PublishAction))
    ensures
        (res.0@, res.1@) == respond(response@),
{
    (PublishState::Finished, PublishAction::Respond { response, flash: success_message() })
}

/// Fails with status 500 and `message`.
fn fail_internal(message: String) -> (res: (PublishState, PublishAction))
    ensures
        (res.0@, res.1@) == internal_error(message@),
{
    (PublishState::Finished, PublishAction::Fail(PublishError::InternalError(message)))
}

impl PublishState {
    /// Whether this state waits for an event of the kind of `event`.
    pub fn accepts_event(&self, event: &PublishEvent) -> (b: bool)
        ensures
            b == accepts(self@, event@),
            b <==> ((self is Claiming && event is KeyClaimed) || (self is FetchingSaved
                && event is SavedResponseFetched) || (self is InsertingIssue
                && event is IssueInserted) || (self is Enqueuing && event is DeliveryTasksEnqueued)
                || (self is Saving && event is ResponseSaved)),
    {
        match (self, event) {
            (PublishState::Claiming { .. }, PublishEvent::KeyClaimed(_)) => true,
            (PublishState::FetchingSaved { .. }, PublishEvent::SavedResponseFetched(_)) => true,
            (PublishState::InsertingIssue { .. }, PublishEvent::IssueInserted(_)) => true,
            (PublishState::Enqueuing { .. }, PublishEvent::DeliveryTasksEnqueued(_)) => true,
            (PublishState::Saving { .. }, PublishEvent::ResponseSaved(_)) => true,
            _ => false,
        }
    }
}

/// Takes the outcome of the last action and says what comes next.
pub fn publish_step(state: PublishState, event: PublishEvent) -> (res: (PublishState, PublishAction))
    requires
        accepts(state@, event@),
    ensures
        (res.0@, res.1@) == spec_publish_step(state@, event@),
{
    match state {
        PublishState::Claiming { key, issue } => match event {
            PublishEvent::KeyClaimed(Err(m)) => fail_internal(m),
            PublishEvent::KeyClaimed(Ok(n)) => {
                if n > 0 {
                    (PublishState::InsertingIssue { key }, PublishAction::InsertIssue { issue })
                } else {
                    let fetch = key.duplicate();
                    (PublishState::FetchingSaved { key }, PublishAction::FetchSavedResponse { key: fetch })
                }
            },
            _ => fail_internal(String::new()),
        },
        PublishState::FetchingSaved { key } => match event {
            PublishEvent::SavedResponseFetched(Err(m)) => fail_internal(m),
            PublishEvent::SavedResponseFetched(Ok(record)) => {
                match get_saved_response(record) {
                    Err(e) => fail_internal(e.message()),
                    Ok(saved) => match try_processing(0, saved) {
                        Ok(NextAction::ReturnSavedResponse(response)) => respond_with(response),
                        Ok(NextAction::StartProcessing) => fail_internal(String::new()),
                        Err(e) => fail_internal(e.message()),
                    },
                }
            },
            _ => fail_internal(String::new()),
        },
        PublishState::InsertingIssue { key } => match event {
            PublishEvent::IssueInserted(None) => fail_internal(
                String::from_str("Failed to store newsletter issue details"),
            ),
            PublishEvent::IssueInserted(Some(issue_id)) => (
                PublishState::Enqueuing { key },
                PublishAction::EnqueueDeliveryTasks { issue_id },
            ),
            _ => fail_internal(String::new()),
        },
        PublishState::Enqueuing { key } => match event {
            PublishEvent::DeliveryTasksEnqueued(ok) => {
                if ok {
                    let response = see_other("/admin/newsletters");
                    let record = save_response(&response);
                    (PublishState::Saving { response }, PublishAction::SaveResponse { key, record })
                } else {
                    fail_internal(String::from_str("Failed to enqueue delivery tasks"))
                }
            },
            _ => fail_internal(String::new()),
        },
        PublishState::Saving { response } => match event {
            PublishEvent::ResponseSaved(Err(m)) => fail_internal(m),
            PublishEvent::ResponseSaved(Ok(())) => respond_with(response),
            _ => fail_internal(String::new()),
        },
        PublishState::Finished => fail_internal(String::new()),
    }
}

} // verus!
