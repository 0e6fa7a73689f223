//! The plain-value model of an accepted request and the lookup of its
//! content type.

use vstd::prelude::*;
use vstd::utf8::is_ascii_chars;

verus! {

/// One header as it arrived: a field name and its value.
#[derive(Clone, Debug, PartialEq, Eq)]
pub struct Header {
    pub field: String,
    pub value: String,
}

/// An accepted request, held as plain values. The body bytes are not part of
/// it: they are read at most once by whoever owns the connection.
#[derive(Clone, Debug, PartialEq, Eq)]
pub struct IncomingRequest {
    pub method: String,
    pub url: String,
    pub version: String,
    pub headers: Vec<Header>,
    pub body_length: Option<usize>,
}

/// A header over plain character sequences.
pub struct HeaderView {
    pub field: Seq<char>,
    pub value: Seq<char>,
}

impl View for Header {
    type V = HeaderView;

    open spec fn view(&self) -> HeaderView {
        HeaderView { field: self.field@, value: self.value@ }
    }
}

/// A request over plain values: texts as character sequences, the headers
/// as a sequence in arrival order.
pub struct RequestView {
    pub method: Seq<char>,
    pub url: Seq<char>,
    pub version: Seq<char>,
    pub headers: Seq<HeaderView>,
    pub body_length: Option<usize>,
}

impl View for IncomingRequest {
    type V = RequestView;

    open spec fn view(&self) -> RequestView {
        RequestView {
            method: self.method@,
            url: self.url@,
            version: self.version@,
            headers: Seq::new(self.headers@.len(), |i: int| self.headers@[i]@),
            body_length: self.body_length,
        }
    }
}

impl RequestView {
    /// The number of body bytes that the request declares; none declared
    /// counts as zero.
    pub open spec fn declared_length(self) -> nat {
        match self.body_length {
            Some(n) => n as nat,
            None => 0,
        }
    }

    /// The content type that the headers declare.
    pub open spec fn content_type(self) -> Seq<char> {
        content_type_from(self.headers, 0)
    }
}

/// The code of a character after ASCII upper-case letters are folded to lower case.
pub open spec fn ascii_fold(c: char) -> int {
    if 65 <= c as int <= 90 {
        c as int + 32
    } else {
        c as int
    }
}

/// Two texts are equal up to the case of their ASCII letters.
pub open spec fn ascii_case_eq(a: Seq<char>, b: Seq<char>) -> bool {
    &&& a.len() == b.len()
    &&& forall|i: int| 0 <= i < a.len() ==> ascii_fold(#[trigger] a[i]) == ascii_fold(b[i])
}

/// A header field names the content type: it reads `Content-Type` in any
/// letter case.
pub open spec fn names_content_type(field: Seq<char>) -> bool {
    ascii_case_eq(field, "Content-Type"@)
}

/// The value of the first header at or after `start` whose field names the
/// content type, or `text/plain` where there is none.
pub open spec fn content_type_from(headers: Seq<HeaderView>, start: int) -> Seq<char>
    decreases headers.len() - start,
{
    if start < 0 || start >= headers.len() {
        "text/plain"@
    } else if names_content_type(headers[start].field) {
        headers[start].value
    } else {
        content_type_from(headers, start + 1)
    }
}

/// Calls `tiny_http::HeaderField::equiv` on the header field made of `field`
/// by `tiny_http::HeaderField::from_bytes`. The construction succeeds exactly
/// on ASCII text, and `equiv` then compares the field with `name` ignoring
/// the case of ASCII letters; a field that cannot be constructed matches
/// nothing.
#[verifier::external_body]
fn field_equiv(field: &str, name: &'static str) -> (r: bool)
    ensures
        r == (is_ascii_chars(field@) && ascii_case_eq(field@, name@)),
{
    match tiny_http::HeaderField::from_bytes(field) {
        Ok(header_field) => header_field.equiv(name),
        Err(_) => false,
    }
}

impl IncomingRequest {
    /// Finds the content type: the value of the first header whose field is
    /// `Content-Type` in any letter case, `text/plain` without such a header.
    pub fn content_type(&self) -> (r: String)
        ensures
            r@ == self@.content_type(),
    {
        let mut i: usize = 0;
        while i < self.headers.len()
            invariant
                i <= self.headers.len(),
                content_type_from(self@.headers, 0) == content_type_from(self@.headers, i as int),
            decreases self.headers.len() - i,
        {
            proof {
                lemma_match_is_ascii(self.headers@[i as int].field@);
            }
            if field_equiv(self.headers[i].field.as_str(), "Content-Type") {
                return self.headers[i].value.clone();
            }
            i += 1;
        }
        String::from_str("text/plain")
    }
}

/// The lookup takes the first matching header: where the header at `i` names
/// the content type and none before it does, its value is the content type,
/// whatever follows it.
pub proof fn lemma_content_type_first_match(headers: Seq<HeaderView>, i: int)
    requires
        0 <= i < headers.len(),
        names_content_type(headers[i].field),
        forall|j: int| 0 <= j < i ==> !names_content_type(#[trigger] headers[j].field),
    ensures
        content_type_from(headers, 0) == headers[i].value,
{
    lemma_skip_non_matching(headers, 0, i);
}

/// Without any header that names the content type, the content type is `text/plain`.
pub proof fn lemma_content_type_default(headers: Seq<HeaderView>)
    requires
        forall|j: int| 0 <= j < headers.len() ==> !names_content_type(#[trigger] headers[j].field),
    ensures
        content_type_from(headers, 0) == "text/plain"@,
{
    lemma_skip_non_matching(headers, 0, headers.len() as int);
}

/// The letter case of a field does not matter to the lookup: of two fields
/// that are equal up to ASCII case, both name the content type or neither does.
pub proof fn lemma_content_type_ignores_case(a: Seq<char>, b: Seq<char>)
    requires
        ascii_case_eq(a, b),
    ensures
        names_content_type(a) == names_content_type(b),
{
    let name = "Content-Type"@;
    if names_content_type(a) {
        assert forall|i: int| 0 <= i < b.len() implies ascii_fold(#[trigger] b[i]) == ascii_fold(
            name[i],
        ) by {
            assert(ascii_fold(a[i]) == ascii_fold(b[i]));
        }
    }
    if names_content_type(b) {
        assert forall|i: int| 0 <= i < a.len() implies ascii_fold(#[trigger] a[i]) == ascii_fold(
            name[i],
        ) by {
            assert(ascii_fold(a[i]) == ascii_fold(b[i]));
        }
    }
}

/// A field that names the content type is ASCII, as the name itself is.
proof fn lemma_match_is_ascii(field: Seq<char>)
    ensures
        names_content_type(field) ==> is_ascii_chars(field),
{
    reveal_strlit("Content-Type");
    if names_content_type(field) {
        assert forall|i: int| 0 <= i < field.len() implies 0 <= #[trigger] field[i] as int
            <= 127 by {
            assert(ascii_fold(field[i]) == ascii_fold("Content-Type"@[i]));
        }
    }
}

proof fn lemma_skip_non_matching(headers: Seq<HeaderView>, from: int, to: int)
    requires
        0 <= from <= to <= headers.len(),
        forall|j: int| from <= j < to ==> !names_content_type(#[trigger] headers[j].field),
    ensures
        content_type_from(headers, from) == content_type_from(headers, to),
    decreases to - from,
{
    if from < to {
        lemma_skip_non_matching(headers, from + 1, to);
    }
}

} // verus!
