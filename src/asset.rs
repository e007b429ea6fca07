use vstd::prelude::*;

verus! {

/// Status code of a response that carries the requested content.
pub const STATUS_OK: u16 = 200;

/// Status code of a response for content that could not be found.
pub const STATUS_NOT_FOUND: u16 = 404;

/// A servable payload: its bytes and its content type.
#[derive(Debug)]
pub struct Asset {
    pub data: Vec<u8>,
    pub content_type: String,
}

impl View for Asset {
    type V = (Seq<u8>, Seq<char>);

    open spec fn view(&self) -> (Seq<u8>, Seq<char>) {
        (self.data@, self.content_type@)
    }
}

/// What is answered to a request: a status code, a body and its content type.
#[derive(Debug)]
pub struct Response {
    pub status: u16,
    pub body: Vec<u8>,
    pub content_type: String,
}

impl View for Response {
    type V = (u16, Seq<u8>, Seq<char>);

    open spec fn view(&self) -> (u16, Seq<u8>, Seq<char>) {
        (self.status, self.body@, self.content_type@)
    }
}

/// The body of the built-in not-found answer.
pub open spec fn default_body() -> Seq<u8> {
    seq![78u8, 111, 116, 32, 70, 111, 117, 110, 100]
}

/// The content type of the built-in not-found answer.
pub open spec fn default_content_type() -> Seq<char> {
    seq!['t', 'e', 'x', 't', '/', 'p', 'l', 'a', 'i', 'n', ';', ' ', 'c', 'h', 'a', 'r', 's', 'e', 't', '=', 'u', 't', 'f', '-', '8']
}

/// The built-in not-found answer, used when the store has no not-found page.
pub open spec fn default_not_found_view() -> (u16, Seq<u8>, Seq<char>) {
    (STATUS_NOT_FOUND, default_body(), default_content_type())
}

/// A copy of a byte buffer.
pub fn copy_bytes(v: &Vec<u8>) -> (r: Vec<u8>)
    ensures
        r@ == v@,
{
    let mut r: Vec<u8> = Vec::with_capacity(v.len());
    let mut i: usize = 0;
    while i < v.len()
        invariant
            i <= v.len(),
            r@ == v@.subrange(0, i as int),
        decreases v.len() - i,
    {
        r.push(v[i]);
        i = i + 1;
    }
    assert(r@ =~= v@);
    r
}

/// The answer given when neither the requested content nor a not-found page exists.
pub fn default_not_found() -> (r: Response)
    ensures
        r@ == default_not_found_view(),
{
    let body: Vec<u8> = vec![78u8, 111, 116, 32, 70, 111, 117, 110, 100];
    let content_type = String::from_str("text/plain; charset=utf-8");
    proof {
        reveal_strlit("text/plain; charset=utf-8");
        assert(body@ =~= default_body());
        assert(content_type@ =~= default_content_type());
    }
    Response { status: STATUS_NOT_FOUND, body, content_type }
}

/// The answer that carries an asset under the given status.
pub fn respond_with(status: u16, asset: Asset) -> (r: Response)
    ensures
        r@ == (status, asset@.0, asset@.1),
{
    Response { status, body: asset.data, content_type: asset.content_type }
}

} // verus!
