use vstd::prelude::*;
use vstd::slice::slice_to_vec;
use vstd::string::*;

verus! {

/// One header of an HTTP response: its name and its raw value.
pub struct HeaderPair {
    pub name: String,
    pub value: Vec<u8>,
}

impl View for HeaderPair {
    type V = (Seq<char>, Seq<u8>);

    open spec fn view(&self) -> (Seq<char>, Seq<u8>) {
        (self.name@, self.value@)
    }
}

/// The headers of a response, each taken by its view.
pub open spec fn headers_view(headers: Seq<HeaderPair>) -> Seq<(Seq<char>, Seq<u8>)> {
    headers.map_values(|h: HeaderPair| h@)
}

/// Whether `status` is a status code that HTTP allows (three digits).
pub open spec fn is_status_code(status: int) -> bool {
    100 <= status <= 999
}

/// The mathematical content of a response.
pub struct ResponseView {
    pub status: u16,
    pub headers: Seq<(Seq<char>, Seq<u8>)>,
    pub body: Seq<u8>,
}

/// An HTTP response as the service stores and replays it: a valid status
/// code, the headers in order, and the body.
pub struct SavedResponse {
    status: u16,
    headers: Vec<HeaderPair>,
    body: Vec<u8>,
}

impl View for SavedResponse {
    type V = ResponseView;

    closed spec fn view(&self) -> ResponseView {
        ResponseView { status: self.status, headers: headers_view(self.headers@), body: self.body@ }
    }
}

/// A copy of `headers`, header by header.
pub fn copy_headers(headers: &Vec<HeaderPair>) -> (copy: Vec<HeaderPair>)
    ensures
        headers_view(copy@) == headers_view(headers@),
{
    let mut copy: Vec<HeaderPair> = Vec::new();
    let mut i: usize = 0;
    while i < headers.len()
        invariant
            i <= headers.len(),
            copy@.len() == i,
            forall|j: int| 0 <= j < i ==> #[trigger] copy@[j]@ == headers@[j]@,
        decreases headers.len() - i,
    {
        let h = &headers[i];
        let pair = HeaderPair { name: h.name.clone(), value: slice_to_vec(h.value.as_slice()) };
        copy.push(pair);
        i = i + 1;
    }
    assert(headers_view(copy@) =~= headers_view(headers@));
    copy
}

impl SavedResponse {
    #[verifier::type_invariant]
    spec fn status_is_valid(self) -> bool {
        is_status_code(self.status as int)
    }

    /// Builds a response; refused exactly when `status` is no HTTP status
    /// code (outside 100..=999).
    pub fn new(status: u16, headers: Vec<HeaderPair>, body: Vec<u8>) -> (res: Option<SavedResponse>)
        ensures
            res is Some <==> is_status_code(status as int),
            res matches Some(r) ==> r@ == (ResponseView {
                status,
                headers: headers_view(headers@),
                body: body@,
            }),
    {
        if 100 <= status && status <= 999 {
            Some(SavedResponse { status, headers, body })
        } else {
            None
        }
    }

    /// The status code, always a valid one.
    pub fn status(&self) -> (s: u16)
        ensures
            s == self@.status,
            is_status_code(s as int),
    {
        proof {
            use_type_invariant(self);
        }
        self.status
    }

    /// The headers, in order.
    pub fn headers(&self) -> (h: &Vec<HeaderPair>)
        ensures
            headers_view(h@) == self@.headers,
    {
        &self.headers
    }

    /// The body.
    pub fn body(&self) -> (b: &Vec<u8>)
        ensures
            b@ == self@.body,
    {
        &self.body
    }

    /// A copy of this response.
    pub fn duplicate(&self) -> (copy: SavedResponse)
        ensures
            copy@ == self@,
    {
        proof {
            use_type_invariant(self);
        }
        SavedResponse {
            status: self.status,
            headers: copy_headers(&self.headers),
            body: slice_to_vec(self.body.as_slice()),
        }
    }

}

/// The status code `303 See Other`.
pub const SEE_OTHER: u16 = 303;

/// The redirect `see_other(location)` answers with.
pub open spec fn see_other_view(location: Seq<char>) -> ResponseView {
    ResponseView {
        status: SEE_OTHER,
        headers: seq![("location"@, encode_location(location))],
        body: Seq::empty(),
    }
}

/// The bytes of a header value written as text (its UTF-8 encoding).
pub open spec fn encode_location(location: Seq<char>) -> Seq<u8> {
    vstd::utf8::encode_utf8(location)
}

/// A `303 See Other` redirect to `location`, with an empty body.
pub fn see_other(location: &str) -> (r: SavedResponse)
    ensures
        r@ == see_other_view(location@),
        r@.status == 303,
        r@.headers == seq![("location"@, vstd::utf8::encode_utf8(location@))],
        r@.body.len() == 0,
{
    let mut headers: Vec<HeaderPair> = Vec::new();
    headers.push(HeaderPair { name: String::from_str("location"), value: slice_to_vec(location.as_bytes()) });
    let r = SavedResponse { status: SEE_OTHER, headers, body: Vec::new() };
    assert(headers_view(r.headers@) =~= seq![("location"@, encode_location(location@))]);
    assert(r.body@ =~= Seq::<u8>::empty());
    r
}

} // verus!
