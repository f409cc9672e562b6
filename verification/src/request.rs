//! The outbound request model: everything a transport needs to issue one
//! call against the remote routing-rule API.

use vstd::prelude::*;
use vstd::string::*;
use crate::text::{has_https_prefix, has_https_scheme, int_dec_chars};

verus! {

/// The HTTP method of a request.
#[derive(Debug, Clone, Copy, PartialEq, Eq, Structural)]
pub enum Method {
    Get,
    Post,
    Put,
    Delete,
}

/// The fixed base every relative path is resolved against.
pub open spec fn base_url() -> Seq<char> {
    "https://api.mailgun.net/v3/"@
}

/// The fixed identifying header value every request carries.
pub open spec fn user_agent_chars() -> Seq<char> {
    "mailgun-routes (routing-rule sync client)"@
}

/// Where a request goes: a path already carrying the `https://` scheme is
/// used verbatim, any other path is resolved against the fixed base.
pub open spec fn resolved_url(path: Seq<char>) -> Seq<char> {
    if has_https_prefix(path) {
        path
    } else {
        base_url() + path
    }
}

/// A fully described request, ready for a transport to send.
#[derive(Debug, PartialEq, Eq)]
pub struct ApiRequest {
    pub method: Method,
    pub url: String,
    /// Basic-auth user name; always the fixed literal `api`.
    pub username: String,
    /// Basic-auth password: the held credential, revealed for this one use.
    pub password: String,
    pub user_agent: String,
    /// A form-encoded body, in order; `None` where the request has no body.
    pub form: Option<Vec<(String, String)>>,
}

/// The request carries basic authentication with user name `api` and the
/// given token, and the fixed identifying header.
pub open spec fn carries_auth(r: ApiRequest, token: Seq<char>) -> bool {
    &&& r.username@ == "api"@
    &&& r.password@ == token
    &&& r.user_agent@ == user_agent_chars()
}

/// The character-level reading of a form body.
pub open spec fn pairs_view(f: Seq<(String, String)>) -> Seq<(Seq<char>, Seq<char>)> {
    f.map_values(|p: (String, String)| (p.0@, p.1@))
}

/// One `action` field per action, in the order given.
pub open spec fn action_pairs(actions: Seq<String>) -> Seq<(Seq<char>, Seq<char>)> {
    actions.map_values(|a: String| ("action"@, a@))
}

/// The form body of a creation call: the three scalar fields, then the
/// actions.
pub open spec fn create_form(
    priority: int,
    description: Seq<char>,
    expression: Seq<char>,
    actions: Seq<String>,
) -> Seq<(Seq<char>, Seq<char>)> {
    seq![
        ("priority"@, int_dec_chars(priority)),
        ("description"@, description),
        ("expression"@, expression),
    ] + action_pairs(actions)
}

/// The form body of an update call: only the priority, then the actions.
pub open spec fn update_form(priority: int, actions: Seq<String>) -> Seq<
    (Seq<char>, Seq<char>),
> {
    seq![("priority"@, int_dec_chars(priority))] + action_pairs(actions)
}

/// Resolves a path to the URL a request will carry.
pub fn resolve_url_text(path: &str) -> (r: String)
    ensures
        r@ == resolved_url(path@),
{
    if has_https_scheme(path) {
        String::from_str(path)
    } else {
        let mut s = String::from_str("https://api.mailgun.net/v3/");
        s.append(path);
        s
    }
}

/// Appends one `action` field per action to the form, preserving order.
pub(crate) fn push_actions(form: &mut Vec<(String, String)>, actions: &Vec<String>)
    ensures
        pairs_view(final(form)@) == pairs_view(old(form)@) + action_pairs(actions@),
{
    let mut i: usize = 0;
    while i < actions.len()
        invariant
            0 <= i <= actions@.len(),
            pairs_view(form@) =~= pairs_view(old(form)@) + action_pairs(
                actions@.take(i as int),
            ),
        decreases actions@.len() - i,
    {
        let ghost before = form@;
        form.push((String::from_str("action"), actions[i].clone()));
        proof {
            assert(pairs_view(form@) =~= pairs_view(before) + seq![
                ("action"@, actions@[i as int]@),
            ]);
            assert(pairs_view(form@) =~= pairs_view(old(form)@) + action_pairs(
                actions@.take(i as int + 1),
            ));
        }
        i += 1;
    }
    proof {
        assert(actions@.take(actions@.len() as int) =~= actions@);
        assert(pairs_view(form@) =~= pairs_view(old(form)@) + action_pairs(actions@));
    }
}

/// Each action stands in the encoded body as its own `action` field, at
/// the position the input gave it: one field per element, never merged,
/// never reordered.
pub proof fn lemma_action_pairs_pointwise(actions: Seq<String>, i: int)
    requires
        0 <= i < actions.len(),
    ensures
        action_pairs(actions).len() == actions.len(),
        action_pairs(actions)[i] == ("action"@, actions[i]@),
{
}

/// A path already carrying the secure scheme resolves to itself.
pub proof fn lemma_absolute_path_verbatim(path: Seq<char>)
    requires
        has_https_prefix(path),
    ensures
        resolved_url(path) == path,
{
}

/// Any other path resolves to the fixed base followed by the path.
pub proof fn lemma_relative_path_prefixed(path: Seq<char>)
    requires
        !has_https_prefix(path),
    ensures
        resolved_url(path) == base_url() + path,
{
}

} // verus!
