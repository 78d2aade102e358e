//! HTTP requests and answers as plain values.

use vstd::prelude::*;
use crate::support::text;

verus! {

/// How a resource is asked for.
#[derive(Clone, Copy, Debug, PartialEq, Eq, Structural)]
pub enum Method {
    Get,
    Head,
    Put,
    Post,
    Delete,
}

/// A request, but for what every HTTP client adds.
#[derive(Debug)]
pub struct HttpRequest {
    pub method: Method,
    pub url: String,
    /// Whether JSON is asked for, by an `Accept` header.
    pub accept_json: bool,
    /// The value of a `Range` header.
    pub range: Option<String>,
    /// Parameters behind the URL.
    pub query: Vec<(String, String)>,
    /// Fields of a multipart form.
    pub form: Vec<(String, String)>,
    pub body: Vec<u8>,
    /// A deadline tighter than the client's own.
    pub timeout_secs: Option<u64>,
}

/// The contents of an [`HttpRequest`].
pub ghost struct RequestView {
    pub method: Method,
    pub url: Seq<char>,
    pub accept_json: bool,
    pub range: Option<Seq<char>>,
    pub query: Seq<(Seq<char>, Seq<char>)>,
    pub form: Seq<(Seq<char>, Seq<char>)>,
    pub body: Seq<u8>,
    pub timeout_secs: Option<u64>,
}

/// The texts of pairs.
pub open spec fn pairs(s: Seq<(String, String)>) -> Seq<(Seq<char>, Seq<char>)> {
    Seq::new(s.len(), |i: int| (s[i].0@, s[i].1@))
}

impl View for HttpRequest {
    type V = RequestView;

    open spec fn view(&self) -> RequestView {
        RequestView {
            method: self.method,
            url: self.url@,
            accept_json: self.accept_json,
            range: match self.range {
                Some(r) => Some(r@),
                None => None,
            },
            query: pairs(self.query@),
            form: pairs(self.form@),
            body: self.body@,
            timeout_secs: self.timeout_secs,
        }
    }
}

/// A request with nothing but a method and a URL.
pub open spec fn plain(method: Method, url: Seq<char>) -> RequestView {
    RequestView {
        method,
        url,
        accept_json: false,
        range: None,
        query: Seq::empty(),
        form: Seq::empty(),
        body: Seq::empty(),
        timeout_secs: None,
    }
}

impl HttpRequest {
    /// A request with nothing but a method and a URL.
    pub fn new(method: Method, url: String) -> (r: HttpRequest)
        ensures
            r@ == plain(method, url@),
    {
        let r = HttpRequest {
            method,
            url,
            accept_json: false,
            range: None,
            query: Vec::new(),
            form: Vec::new(),
            body: Vec::new(),
            timeout_secs: None,
        };
        proof {
            assert(r@.query =~= Seq::empty());
            assert(r@.form =~= Seq::empty());
        }
        r
    }

    /// The request with a parameter behind its URL.
    pub fn with_query(self, name: &str, value: &str) -> (r: HttpRequest)
        ensures
            r@ == (RequestView { query: self@.query.push((name@, value@)), ..self@ }),
    {
        let mut r = self;
        r.query.push((name.to_owned(), value.to_owned()));
        proof {
            assert(r@.query =~= self@.query.push((name@, value@)));
        }
        r
    }

    /// The request with a field in its form.
    pub fn with_field(self, name: &str, value: &str) -> (r: HttpRequest)
        ensures
            r@ == (RequestView { form: self@.form.push((name@, value@)), ..self@ }),
    {
        let mut r = self;
        r.form.push((name.to_owned(), value.to_owned()));
        proof {
            assert(r@.form =~= self@.form.push((name@, value@)));
        }
        r
    }

    /// The request for JSON.
    pub fn for_json(self) -> (r: HttpRequest)
        ensures
            r@ == (RequestView { accept_json: true, ..self@ }),
    {
        let mut r = self;
        r.accept_json = true;
        r
    }

    /// The request for a range of bytes.
    pub fn for_range(self, range: String) -> (r: HttpRequest)
        ensures
            r@ == (RequestView { range: Some(range@), ..self@ }),
    {
        let mut r = self;
        r.range = Some(range);
        r
    }

    /// The request with a body.
    pub fn with_body(self, body: Vec<u8>) -> (r: HttpRequest)
        ensures
            r@ == (RequestView { body: body@, ..self@ }),
    {
        let mut r = self;
        r.body = body;
        r
    }

    /// The request with a deadline of its own.
    pub fn within(self, timeout_secs: u64) -> (r: HttpRequest)
        ensures
            r@ == (RequestView { timeout_secs: Some(timeout_secs), ..self@ }),
    {
        let mut r = self;
        r.timeout_secs = Some(timeout_secs);
        r
    }
}

/// The status of an answer: a number of three digits.
#[derive(Clone, Copy, Debug, PartialEq, Eq)]
pub struct HttpStatus {
    code: u16,
}

/// What `reqwest::StatusCode`'s `Display` writes: the number and its canonical
/// reason.
pub uninterp spec fn status_text(code: u16) -> Seq<char>;

/// `reqwest::StatusCode`'s `Display`, of a number that is a status.
#[verifier::external_body]
fn describe_status(code: u16) -> (r: String)
    requires
        100 <= code <= 999,
    ensures
        r@ == status_text(code),
{
    match reqwest::StatusCode::from_u16(code) {
        Ok(status) => status.to_string(),
        Err(e) => e.to_string(),
    }
}

impl View for HttpStatus {
    type V = u16;

    closed spec fn view(&self) -> u16 {
        self.code
    }
}

/// Whether a number is the status of a success.
pub open spec fn success(code: u16) -> bool {
    200 <= code < 300
}

impl HttpStatus {
    #[verifier::type_invariant]
    spec fn in_range(self) -> bool {
        100 <= self.code <= 999
    }

    /// The status of that number.
    pub fn new(code: u16) -> (r: Option<HttpStatus>)
        ensures
            r is Some <==> 100 <= code <= 999,
            r is Some ==> r->0@ == code,
    {
        if 100 <= code && code <= 999 {
            Some(HttpStatus { code })
        } else {
            None
        }
    }

    /// The number.
    pub fn code(&self) -> (r: u16)
        ensures
            r == self@,
    {
        self.code
    }

    /// Whether the request succeeded.
    pub fn is_success(&self) -> (r: bool)
        ensures
            r == success(self@),
    {
        200 <= self.code && self.code < 300
    }

    /// The number and what it stands for.
    pub fn to_string(&self) -> (r: String)
        ensures
            r@ == status_text(self@),
    {
        proof {
            use_type_invariant(self);
        }
        describe_status(self.code)
    }
}

/// An answer: its status, and its body as text where that was read.
#[derive(Debug)]
pub struct HttpReply {
    pub status: HttpStatus,
    pub text: Option<String>,
}

impl HttpReply {
    /// What a refusal says: its body, or its status.
    pub open spec fn detail(self) -> Seq<char> {
        text::text_or(self.text, "HTTP "@ + status_text(self.status@))
    }

    /// What a refusal says: its body, or its status.
    pub fn error_detail(&self) -> (r: String)
        ensures
            r@ == self.detail(),
    {
        match &self.text {
            Some(t) => t.clone(),
            None => "HTTP ".to_owned().concat(self.status.to_string().as_str()),
        }
    }
}

/// A request succeeded exactly where its status begins with a two: a redirect
/// is no success, nor is what the server only began.
pub proof fn success_begins_with_two(code: u16)
    requires
        100 <= code <= 999,
    ensures
        success(code) <==> code / 100 == 2,
{
}

/// What a refusal says comes from its body where that was read, an empty one
/// too, and names the status only where it was not.
pub proof fn refusals_speak_by_their_body(reply: HttpReply)
    ensures
        reply.text is Some ==> reply.detail() == reply.text->0@,
        reply.text is None ==> "HTTP "@.is_prefix_of(reply.detail()) && reply.detail()
            == "HTTP "@ + status_text(reply.status@),
{
    assert(("HTTP "@ + status_text(reply.status@)).subrange(0, "HTTP "@.len() as int)
        =~= "HTTP "@);
}

/// A plain request carries nothing but its method and its URL.
pub proof fn plain_requests_carry_nothing(method: Method, url: Seq<char>)
    ensures
        plain(method, url).method == method,
        plain(method, url).url == url,
        plain(method, url).body.len() == 0,
        plain(method, url).query.len() == 0,
        plain(method, url).form.len() == 0,
        plain(method, url).range is None,
        plain(method, url).timeout_secs is None,
        !plain(method, url).accept_json,
{
}

/// The contents of a request are its own parts: method, URL, headers,
/// parameters, form, body and deadline.
pub proof fn contents_are_the_parts(request: HttpRequest, i: int)
    ensures
        request@.method == request.method,
        request@.url == request.url@,
        request@.accept_json == request.accept_json,
        request.range is None <==> request@.range is None,
        request.range is Some ==> request@.range->0 == request.range->0@,
        request@.query.len() == request.query@.len(),
        0 <= i < request.query@.len() ==> request@.query[i].0 == request.query@[i].0@
            && request@.query[i].1 == request.query@[i].1@,
        request@.form.len() == request.form@.len(),
        0 <= i < request.form@.len() ==> request@.form[i].0 == request.form@[i].0@
            && request@.form[i].1 == request.form@[i].1@,
        request@.body == request.body@,
        request@.timeout_secs == request.timeout_secs,
{
}

} // verus!
