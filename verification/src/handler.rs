//! The answer of the HTTP handler to an authenticated request.
use vstd::prelude::*;

verus! {

/// The response the handler sends: its status, content type and body.
#[derive(Debug, Clone)]
pub struct HelloResponse {
    pub status: u16,
    pub content_type: String,
    pub body: String,
}

/// The name greeted: the query parameter `name` where the request has one, else `world`.
pub open spec fn greeted(who: Option<&str>) -> Seq<char> {
    match who {
        Some(w) => w@,
        None => "world"@,
    }
}

/// The greeting for `who`.
pub open spec fn greeting_of(who: Option<&str>) -> Seq<char> {
    "Hello "@ + greeted(who) + ", this is an AWS Lambda HTTP request"@
}

/// The greeting message for the value of the query parameter `name`, if any.
pub fn greeting(who: Option<&str>) -> (r: String)
    ensures
        r@ == greeting_of(who),
{
    let mut s = String::from_str("Hello ");
    match who {
        Some(w) => s.append(w),
        None => s.append("world"),
    }
    s.append(", this is an AWS Lambda HTTP request");
    s
}

/// The response to an authenticated request whose query parameter `name` is `who`:
/// status 200, an HTML content type, and the greeting.
pub fn hello_response(who: Option<&str>) -> (r: HelloResponse)
    ensures
        r.status == 200,
        r.content_type@ == "text/html"@,
        r.body@ == greeting_of(who),
{
    HelloResponse {
        status: 200,
        content_type: String::from_str("text/html"),
        body: greeting(who),
    }
}

/// The greeting for a name is `Hello `, then the name as given, whatever its characters,
/// then `, this is an AWS Lambda HTTP request`; without a name it is the greeting for
/// `world`.
pub proof fn lemma_greeting_layout(w: &str)
    ensures
        greeting_of(Some(w)).len() == 6 + w@.len() + 36,
        greeting_of(Some(w)).subrange(0, 6) =~= seq!['H', 'e', 'l', 'l', 'o', ' '],
        greeting_of(Some(w)).subrange(6, 6 + w@.len() as int) =~= w@,
        greeting_of(Some(w)).subrange(6 + w@.len() as int, 42 + w@.len() as int) =~= ", this is an AWS Lambda HTTP request"@,
        greeting_of(None) =~= seq!['H', 'e', 'l', 'l', 'o', ' ', 'w', 'o', 'r', 'l', 'd']
            + ", this is an AWS Lambda HTTP request"@,
{
    reveal_strlit("Hello ");
    reveal_strlit("world");
    reveal_strlit(", this is an AWS Lambda HTTP request");
    let g = greeting_of(Some(w));
    assert(g =~= "Hello "@ + w@ + ", this is an AWS Lambda HTTP request"@);
}

/// Different names get different greetings: the greeting tells which name was given.
pub proof fn lemma_greeting_names_the_caller(w1: &str, w2: &str)
    ensures
        greeting_of(Some(w1)) == greeting_of(Some(w2)) ==> w1@ == w2@,
{
    lemma_greeting_layout(w1);
    lemma_greeting_layout(w2);
    if greeting_of(Some(w1)) == greeting_of(Some(w2)) {
        let g = greeting_of(Some(w1));
        assert(w1@ =~= g.subrange(6, 6 + w1@.len() as int));
        assert(w2@ =~= g.subrange(6, 6 + w2@.len() as int));
    }
}

} // verus!
