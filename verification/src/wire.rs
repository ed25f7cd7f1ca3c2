//! Requests as the client hands them to whoever sends them, and the
//! form encoding of their parameters.

use vstd::prelude::*;
use vstd::string::*;

verus! {

/// How a request is sent.
#[derive(Clone, Copy, PartialEq, Eq, Structural, Debug)]
pub enum Method {
    /// A GET with the parameters in the query string.
    Get,
    /// A POST with the parameters form-encoded in the body, under the
    /// content type `application/x-www-form-urlencoded`.
    Post,
}

/// One request to the router.
pub enum Request {
    Get { url: String, query: Vec<(String, String)> },
    PostForm { url: String, body: String },
}

pub ghost enum RequestView {
    Get { url: Seq<char>, query: Seq<(Seq<char>, Seq<char>)> },
    PostForm { url: Seq<char>, body: Seq<char> },
}

/// Names and values as the characters they hold.
pub open spec fn pairs_view(pairs: Seq<(String, String)>) -> Seq<(Seq<char>, Seq<char>)> {
    pairs.map_values(|p: (String, String)| (p.0@, p.1@))
}

impl View for Request {
    type V = RequestView;

    open spec fn view(&self) -> RequestView {
        match self {
            Request::Get { url, query } => RequestView::Get {
                url: url@,
                query: pairs_view(query@),
            },
            Request::PostForm { url, body } => RequestView::PostForm { url: url@, body: body@ },
        }
    }
}

/// What `Serializer::append_pair` writes for one name and its value: the
/// name in `application/x-www-form-urlencoded` syntax, an equals sign, and
/// the value in the same syntax.
pub uninterp spec fn form_pair(name: Seq<char>, value: Seq<char>) -> Seq<char>;

/// The separator before a pair: an ampersand unless nothing stands before.
pub open spec fn form_separator(before: Seq<char>) -> Seq<char> {
    if before.len() > 0 {
        seq!['&']
    } else {
        Seq::empty()
    }
}

/// `Serializer::new`, `append_pair` and `finish` of `form_urlencoded` on the
/// target itself: they append an ampersand if the target is not empty, then
/// the encoded pair, and leave what was there untouched.
#[verifier::external_body]
fn append_pair(target: &mut String, name: &str, value: &str)
    ensures
        final(target)@ == old(target)@ + form_separator(old(target)@) + form_pair(name@, value@),
{
    form_urlencoded::Serializer::new(target).append_pair(name, value).finish();
}

/// The form encoding of a list of pairs: the pairs in order, with an
/// ampersand between them.
pub open spec fn form_body(pairs: Seq<(Seq<char>, Seq<char>)>) -> Seq<char>
    decreases pairs.len(),
{
    if pairs.len() == 0 {
        Seq::empty()
    } else {
        let before = form_body(pairs.drop_last());
        before + form_separator(before) + form_pair(pairs.last().0, pairs.last().1)
    }
}

/// The pairs in `application/x-www-form-urlencoded` syntax.
pub fn form_data(pairs: &Vec<(String, String)>) -> (body: String)
    ensures
        body@ == form_body(pairs_view(pairs@)),
{
    let mut body = String::new();
    let mut i: usize = 0;
    let ghost all = pairs_view(pairs@);
    assert(all.take(0) =~= Seq::empty());
    while i < pairs.len()
        invariant
            i <= pairs@.len(),
            all == pairs_view(pairs@),
            body@ == form_body(all.take(i as int)),
        decreases pairs@.len() - i,
    {
        proof {
            assert(all.take(i + 1).drop_last() =~= all.take(i as int));
            assert(all.take(i + 1).last() == (pairs@[i as int].0@, pairs@[i as int].1@));
        }
        append_pair(&mut body, pairs[i].0.as_str(), pairs[i].1.as_str());
        i = i + 1;
    }
    assert(all.take(pairs@.len() as int) =~= all);
    body
}

/// A name and a value as an owned pair.
pub fn pair(name: &str, value: &str) -> (p: (String, String))
    ensures
        p.0@ == name@,
        p.1@ == value@,
{
    (name.to_owned(), value.to_owned())
}

/// What a request with the given parameters looks like: a GET carries them
/// as its query, a POST as its form-encoded body.
pub open spec fn request_view(
    method: Method,
    url: Seq<char>,
    params: Seq<(Seq<char>, Seq<char>)>,
) -> RequestView {
    match method {
        Method::Get => RequestView::Get { url, query: params },
        Method::Post => RequestView::PostForm { url, body: form_body(params) },
    }
}

impl Request {
    /// The request of the given method to `url` with the given parameters.
    pub fn new(method: Method, url: String, params: Vec<(String, String)>) -> (r: Request)
        ensures
            r@ == request_view(method, url@, pairs_view(params@)),
    {
        match method {
            Method::Get => Request::Get { url, query: params },
            Method::Post => {
                let body = form_data(&params);
                Request::PostForm { url, body }
            },
        }
    }
}

} // verus!
