//! Responses and the two responders that build them.

use vstd::prelude::*;
use vstd::string::*;

verus! {

/// Status code of a permanent redirect.
pub const STATUS_MOVED_PERMANENTLY: u16 = 301;

/// Status code of the fallback response.
pub const STATUS_NOT_FOUND: u16 = 404;

/// Name of the header that carries the redirect target.
pub const LOCATION: &'static str = "Location";

/// Body of the fallback response.
pub const NOT_FOUND_BODY: &'static str = "nothing to see here";

/// One response header.
#[derive(Clone, Debug, PartialEq, Eq)]
pub struct Header {
    pub name: String,
    pub value: String,
}

/// A response, ready to be handed to the transport layer.
#[derive(Clone, Debug, PartialEq, Eq)]
pub struct OutgoingResponse {
    pub status_code: u16,
    pub headers: Vec<Header>,
    pub body: String,
}

/// What a response means: its status, its headers as a mapping from name to
/// value, and its body.
pub struct ResponseView {
    pub status_code: u16,
    pub headers: Map<Seq<char>, Seq<char>>,
    pub body: Seq<char>,
}

/// The mapping that a list of headers stands for. Where a name occurs more
/// than once, the earliest entry decides.
pub open spec fn header_map(headers: Seq<Header>) -> Map<Seq<char>, Seq<char>>
    decreases headers.len(),
{
    if headers.len() == 0 {
        Map::empty()
    } else {
        header_map(headers.drop_first()).insert(headers[0].name@, headers[0].value@)
    }
}

/// The response of a permanent redirect to `target_url`.
pub open spec fn redirect_view(target_url: Seq<char>) -> ResponseView {
    ResponseView {
        status_code: STATUS_MOVED_PERMANENTLY,
        headers: Map::empty().insert(LOCATION@, target_url),
        body: Seq::empty(),
    }
}

/// The fallback response.
pub open spec fn not_found_view() -> ResponseView {
    ResponseView {
        status_code: STATUS_NOT_FOUND,
        headers: Map::empty(),
        body: NOT_FOUND_BODY@,
    }
}

impl View for OutgoingResponse {
    type V = ResponseView;

    open spec fn view(&self) -> ResponseView {
        ResponseView {
            status_code: self.status_code,
            headers: header_map(self.headers@),
            body: self.body@,
        }
    }
}

/// No entry of `headers` carries `name`.
pub open spec fn absent_from(headers: Seq<Header>, name: Seq<char>) -> bool {
    forall|j: int| 0 <= j < headers.len() ==> (#[trigger] headers[j]).name@ != name
}

/// A name that no entry carries is not a key of the mapping.
pub proof fn lemma_header_map_absent(headers: Seq<Header>, name: Seq<char>)
    requires
        absent_from(headers, name),
    ensures
        !header_map(headers).contains_key(name),
    decreases headers.len(),
{
    if headers.len() > 0 {
        let rest = headers.drop_first();
        assert forall|j: int| 0 <= j < rest.len() implies (#[trigger] rest[j]).name@ != name by {
            assert(rest[j] == headers[j + 1]);
        }
        lemma_header_map_absent(rest, name);
    }
}

/// The first entry that carries a name gives the mapping's value for it.
pub proof fn lemma_header_map_first(headers: Seq<Header>, i: int, name: Seq<char>)
    requires
        0 <= i < headers.len(),
        headers[i].name@ == name,
        forall|j: int| 0 <= j < i ==> (#[trigger] headers[j]).name@ != name,
    ensures
        header_map(headers).contains_key(name),
        header_map(headers)[name] == headers[i].value@,
    decreases headers.len(),
{
    if i > 0 {
        let rest = headers.drop_first();
        assert(rest[i - 1] == headers[i]);
        assert forall|j: int| 0 <= j < i - 1 implies (#[trigger] rest[j]).name@ != name by {
            assert(rest[j] == headers[j + 1]);
        }
        lemma_header_map_first(rest, i - 1, name);
        assert(headers[0].name@ != name);
    }
}

impl OutgoingResponse {
    /// Looks a header up by its exact name.
    pub fn header(&self, name: &str) -> (value: Option<String>)
        ensures
            value is Some == self@.headers.contains_key(name@),
            value matches Some(v) ==> v@ == self@.headers[name@],
    {
        let wanted = String::from_str(name);
        let mut i: usize = 0;
        while i < self.headers.len()
            invariant
                i <= self.headers.len(),
                wanted@ == name@,
                forall|j: int| 0 <= j < i ==> (#[trigger] self.headers@[j]).name@ != name@,
            decreases self.headers.len() - i,
        {
            if self.headers[i].name == wanted {
                proof {
                    lemma_header_map_first(self.headers@, i as int, name@);
                }
                return Some(self.headers[i].value.clone());
            }
            i = i + 1;
        }
        proof {
            lemma_header_map_absent(self.headers@, name@);
        }
        None
    }
}

/// Answers with a permanent redirect to `target_url`.
///
/// The target is passed through unchanged: it is neither validated nor
/// encoded, and an empty one is emitted as given.
pub fn redirect(target_url: &str) -> (response: OutgoingResponse)
    ensures
        response@ == redirect_view(target_url@),
{
    let location = Header { name: String::from_str(LOCATION), value: String::from_str(target_url) };
    let response = OutgoingResponse {
        status_code: STATUS_MOVED_PERMANENTLY,
        headers: vec![location],
        body: String::new(),
    };
    proof {
        let rest = response.headers@.drop_first();
        assert(rest =~= Seq::<Header>::empty());
        assert(header_map(rest) == Map::<Seq<char>, Seq<char>>::empty());
    }
    response
}

/// Answers any request that no route claims: the same response every time.
pub fn handler_404() -> (response: OutgoingResponse)
    ensures
        response@ == not_found_view(),
{
    OutgoingResponse {
        status_code: STATUS_NOT_FOUND,
        headers: Vec::new(),
        body: String::from_str(NOT_FOUND_BODY),
    }
}

} // verus!
