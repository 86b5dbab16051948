//! HTTP header fields as plain text pairs, with the lookups and updates that
//! the middleware stages need. Field names are compared without regard to
//! ASCII case.

use vstd::prelude::*;
use crate::text::{
    chars_of, eq_ignore_ascii_case, lemma_same_ignoring_case_is_equivalence,
    same_ignoring_ascii_case,
};

verus! {

/// One header field.
#[derive(Clone, Debug)]
pub struct Header {
    pub name: String,
    pub value: String,
}

/// A header field as a pair of texts: name, then value.
pub type HeaderView = (Seq<char>, Seq<char>);

impl View for Header {
    type V = HeaderView;

    open spec fn view(&self) -> HeaderView {
        (self.name@, self.value@)
    }
}

/// The fields of a header list as pairs of texts.
pub open spec fn header_list(headers: Seq<Header>) -> Seq<HeaderView> {
    Seq::new(headers.len(), |i: int| headers[i]@)
}

/// The value of the first field of the list that bears the name.
pub open spec fn first_value(headers: Seq<HeaderView>, name: Seq<char>) -> Option<Seq<char>>
    decreases headers.len(),
{
    if headers.len() == 0 {
        None
    } else if same_ignoring_ascii_case(headers[0].0, name) {
        Some(headers[0].1)
    } else {
        first_value(headers.drop_first(), name)
    }
}

/// The list without the fields that bear the name, the others in their order.
pub open spec fn without(headers: Seq<HeaderView>, name: Seq<char>) -> Seq<HeaderView>
    decreases headers.len(),
{
    if headers.len() == 0 {
        headers
    } else if same_ignoring_ascii_case(headers.last().0, name) {
        without(headers.drop_last(), name)
    } else {
        without(headers.drop_last(), name).push(headers.last())
    }
}

/// The list in which the name has exactly one field, the last, with the given
/// value.
pub open spec fn with_header(
    headers: Seq<HeaderView>,
    name: Seq<char>,
    value: Seq<char>,
) -> Seq<HeaderView> {
    without(headers, name).push((name, value))
}

/// The name of the field that carries credentials.
pub open spec fn credential_name() -> Seq<char> {
    "authorization"@
}

/// The text shown in place of credentials.
pub open spec fn mask() -> Seq<char> {
    "****************************"@
}

/// Whether a field name is that of the credentials field.
pub open spec fn is_credential(name: Seq<char>) -> bool {
    same_ignoring_ascii_case(name, credential_name())
}

/// A field as it may be shown: the value of a credentials field is replaced
/// by the mask.
pub open spec fn redacted_field(field: HeaderView) -> HeaderView {
    if is_credential(field.0) {
        (field.0, mask())
    } else {
        field
    }
}

/// The list as it may be shown: as long as the given list and, field by
/// field, its redaction.
pub open spec fn redacted(headers: Seq<HeaderView>) -> Seq<HeaderView> {
    Seq::new(headers.len(), |i: int| redacted_field(headers[i]))
}

/// Two header lists that differ at most in the values of their credentials
/// fields.
pub open spec fn same_but_credentials(a: Seq<HeaderView>, b: Seq<HeaderView>) -> bool {
    &&& a.len() == b.len()
    &&& forall|i: int| 0 <= i < a.len() ==> (#[trigger] a[i]).0 == b[i].0
    &&& forall|i: int| 0 <= i < a.len() && !is_credential(a[i].0) ==> (#[trigger] a[i]).1 == b[i].1
}

/// Redaction does not depend on credentials: two lists that differ at most in
/// the values of their credentials fields are shown alike.
pub proof fn lemma_redaction_hides_credentials(a: Seq<HeaderView>, b: Seq<HeaderView>)
    requires
        same_but_credentials(a, b),
    ensures
        redacted(a) == redacted(b),
{
    assert forall|i: int| 0 <= i < a.len() implies redacted(a)[i] == redacted(b)[i] by {
        assert(a[i].0 == b[i].0);
        if !is_credential(a[i].0) {
            assert(a[i].1 == b[i].1);
        }
    }
    assert(redacted(a) =~= redacted(b));
}

/// Looking a name up in a list that has one more field at its end: the
/// earlier fields come first.
pub proof fn lemma_first_value_push(headers: Seq<HeaderView>, field: HeaderView, name: Seq<char>)
    ensures
        first_value(headers.push(field), name) == if first_value(headers, name) is Some {
            first_value(headers, name)
        } else if same_ignoring_ascii_case(field.0, name) {
            Some(field.1)
        } else {
            None
        },
    decreases headers.len(),
{
    if headers.len() == 0 {
        assert(headers.push(field).drop_first() =~= headers);
    } else {
        assert(headers.push(field)[0] == headers[0]);
        assert(headers.push(field).drop_first() =~= headers.drop_first().push(field));
        lemma_first_value_push(headers.drop_first(), field, name);
    }
}

/// A list from which a name was taken out holds no value for it.
pub proof fn lemma_without_has_none(headers: Seq<HeaderView>, name: Seq<char>)
    ensures
        first_value(without(headers, name), name) is None,
    decreases headers.len(),
{
    if headers.len() > 0 {
        lemma_without_has_none(headers.drop_last(), name);
        if !same_ignoring_ascii_case(headers.last().0, name) {
            lemma_first_value_push(without(headers.drop_last(), name), headers.last(), name);
        }
    }
}

/// After a field was set, looking its name up gives the value that was set.
pub proof fn lemma_set_then_find(headers: Seq<HeaderView>, name: Seq<char>, value: Seq<char>)
    ensures
        first_value(with_header(headers, name, value), name) == Some(value),
{
    lemma_without_has_none(headers, name);
    lemma_first_value_push(without(headers, name), (name, value), name);
}

/// Looking up the credentials field in a redacted list gives the mask
/// wherever the given list has such a field.
pub proof fn lemma_redacted_lookup_is_masked(headers: Seq<HeaderView>)
    ensures
        first_value(redacted(headers), credential_name()) == if first_value(
            headers,
            credential_name(),
        ) is Some {
            Some(mask())
        } else {
            None
        },
    decreases headers.len(),
{
    if headers.len() > 0 {
        assert(redacted(headers)[0] == redacted_field(headers[0]));
        assert(redacted(headers).drop_first() =~= redacted(headers.drop_first()));
        lemma_redacted_lookup_is_masked(headers.drop_first());
    }
}

/// Looking up any name but that of the credentials field gives the same in
/// two lists that differ at most in the values of their credentials fields.
pub proof fn lemma_lookup_ignores_credentials(
    a: Seq<HeaderView>,
    b: Seq<HeaderView>,
    name: Seq<char>,
)
    requires
        same_but_credentials(a, b),
        !is_credential(name),
    ensures
        first_value(a, name) == first_value(b, name),
    decreases a.len(),
{
    if a.len() > 0 {
        assert(a[0].0 == b[0].0);
        if same_ignoring_ascii_case(a[0].0, name) {
            lemma_same_ignoring_case_is_equivalence(name, a[0].0, credential_name());
            lemma_same_ignoring_case_is_equivalence(a[0].0, name, credential_name());
            assert(!is_credential(a[0].0));
            assert(a[0].1 == b[0].1);
        } else {
            let rest_a = a.drop_first();
            let rest_b = b.drop_first();
            assert forall|i: int| 0 <= i < rest_a.len() implies (#[trigger] rest_a[i]).0
                == rest_b[i].0 by {
                assert(a[i + 1].0 == b[i + 1].0);
            }
            assert forall|i: int| 0 <= i < rest_a.len() && !is_credential(rest_a[i].0) implies (
            #[trigger] rest_a[i]).1 == rest_b[i].1 by {
                assert(a[i + 1].1 == b[i + 1].1);
            }
            lemma_lookup_ignores_credentials(rest_a, rest_b, name);
        }
    }
}

impl Header {
    /// A field with the given name and value.
    pub fn new(name: &str, value: &str) -> (header: Header)
        ensures
            header@ == (name@, value@),
    {
        Header { name: String::from_str(name), value: String::from_str(value) }
    }

    /// A field with the same name and value.
    pub fn duplicate(&self) -> (header: Header)
        ensures
            header@ == self@,
    {
        Header::new(self.name.as_str(), self.value.as_str())
    }

    /// Whether the field bears the name, ASCII case aside.
    pub fn is_named(&self, name: &str) -> (same: bool)
        ensures
            same == same_ignoring_ascii_case(self.name@, name@),
    {
        let own = chars_of(self.name.as_str());
        let other = chars_of(name);
        eq_ignore_ascii_case(&own, &other)
    }
}

/// Looks up the value of the first field with the given name.
pub fn find_header(headers: &Vec<Header>, name: &str) -> (found: Option<String>)
    ensures
        match first_value(header_list(headers@), name@) {
            Some(value) => found matches Some(text) && text@ == value,
            None => found is None,
        },
{
    let ghost all = header_list(headers@);
    let mut i: usize = 0;
    assert(all.skip(0) == all);
    while i < headers.len()
        invariant
            i <= headers.len(),
            all == header_list(headers@),
            first_value(all, name@) == first_value(all.skip(i as int), name@),
        decreases headers.len() - i,
    {
        assert(all.skip(i as int)[0] == headers@[i as int]@);
        assert(all.skip(i as int).drop_first() == all.skip(i + 1));
        if headers[i].is_named(name) {
            return Some(headers[i].value.clone());
        }
        i = i + 1;
    }
    assert(all.skip(i as int).len() == 0);
    None
}

/// Sets a field: every field of that name is taken out, and one with the
/// given value is put at the end.
pub fn set_header(headers: &Vec<Header>, name: &str, value: &str) -> (out: Vec<Header>)
    ensures
        header_list(out@) == with_header(header_list(headers@), name@, value@),
{
    let ghost all = header_list(headers@);
    let mut out: Vec<Header> = Vec::new();
    let mut i: usize = 0;
    assert(header_list(out@) =~= without(all.take(0), name@));
    while i < headers.len()
        invariant
            i <= headers.len(),
            all == header_list(headers@),
            header_list(out@) == without(all.take(i as int), name@),
        decreases headers.len() - i,
    {
        let ghost before = header_list(out@);
        assert(all.take(i + 1).drop_last() == all.take(i as int));
        assert(all.take(i + 1).last() == headers@[i as int]@);
        if !headers[i].is_named(name) {
            out.push(headers[i].duplicate());
            assert(header_list(out@) =~= before.push(headers@[i as int]@));
        }
        i = i + 1;
    }
    assert(all.take(i as int) == all);
    let ghost before = header_list(out@);
    out.push(Header::new(name, value));
    assert(header_list(out@) =~= before.push((name@, value@)));
    out
}

/// The header list as it may be logged: the value of every credentials
/// field is replaced by the mask, all else is kept.
pub fn redact_headers(headers: &Vec<Header>) -> (out: Vec<Header>)
    ensures
        header_list(out@) == redacted(header_list(headers@)),
{
    let mut out: Vec<Header> = Vec::new();
    let mut i: usize = 0;
    while i < headers.len()
        invariant
            i <= headers.len(),
            out.len() == i,
            forall|j: int| 0 <= j < i ==> (#[trigger] out@[j])@ == redacted_field(headers@[j]@),
        decreases headers.len() - i,
    {
        if headers[i].is_named("authorization") {
            out.push(Header::new(headers[i].name.as_str(), "****************************"));
        } else {
            out.push(headers[i].duplicate());
        }
        i = i + 1;
    }
    assert(header_list(out@) =~= redacted(header_list(headers@)));
    out
}

} // verus!
