//! Requests that the library asks its transport to send.

use vstd::prelude::*;
use vstd::string::*;

verus! {

/// A form field name and its value, as text.
pub type FieldModel = (Seq<char>, Seq<char>);

/// The text of a form.
pub open spec fn form_view(f: Seq<(String, String)>) -> Seq<FieldModel> {
    f.map_values(|p: (String, String)| (p.0@, p.1@))
}

/// A form-encoded POST to `url`.
pub struct PostRequest {
    pub url: String,
    pub form: Vec<(String, String)>,
}

/// Appends the field `name` with `value` to `form`.
pub fn push_field(form: &mut Vec<(String, String)>, name: &str, value: String)
    ensures
        form_view(final(form)@) == form_view(old(form)@).push((name@, value@)),
{
    let ghost v = value@;
    form.push((String::from_str(name), value));
    proof {
        assert(form_view(form@) =~= form_view(old(form)@).push((name@, v)));
    }
}

/// A POST to `url` with an empty form.
pub fn bare_post(url: String) -> (r: PostRequest)
    ensures
        r.url@ == url@,
        r.form@.len() == 0,
{
    PostRequest { url, form: Vec::new() }
}

} // verus!
