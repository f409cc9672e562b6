//! The route client: holds the credential and the dry-run flag, and builds
//! every request the five operations can make.

use vstd::prelude::*;
use vstd::string::*;
use crate::request::{
    ApiRequest, Method, carries_auth, create_form, pairs_view, push_actions, resolve_url_text,
    resolved_url, update_form,
};
use crate::secret::{Credential, credential_chars};
use crate::text::{dec_chars, i32_to_dec, u64_to_dec};

verus! {

/// The path a list call uses: the collection endpoint, with the `skip`
/// query parameter only when an offset was given.
pub open spec fn list_path(skip: Option<u64>) -> Seq<char> {
    match skip {
        None => "routes"@,
        Some(n) => "routes?skip="@ + dec_chars(n as nat),
    }
}

/// The path of one route's resource.
pub open spec fn route_path(id: Seq<char>) -> Seq<char> {
    "routes/"@ + id
}

/// The informational signal a delete emits, naming its target.
pub open spec fn delete_intent(id: Seq<char>) -> Seq<char> {
    "deleting route with ID "@ + id
}

/// The list endpoint resolves inside the fixed base: without an offset the
/// request goes to `.../routes` and carries no `skip` parameter at all;
/// with one it goes to `.../routes?skip=<offset>`.
pub proof fn lemma_list_urls(n: u64)
    ensures
        resolved_url(list_path(None)) == "https://api.mailgun.net/v3/routes"@,
        resolved_url(list_path(Some(n))) == "https://api.mailgun.net/v3/routes?skip="@ + dec_chars(
            n as nat,
        ),
{
    reveal_strlit("https://");
    reveal_strlit("routes");
    reveal_strlit("routes?skip=");
    reveal_strlit("https://api.mailgun.net/v3/");
    reveal_strlit("https://api.mailgun.net/v3/routes");
    reveal_strlit("https://api.mailgun.net/v3/routes?skip=");
    assert("routes"@.len() == 6);
    assert(!crate::text::has_https_prefix("routes"@));
    assert(resolved_url(list_path(None)) =~= "https://api.mailgun.net/v3/routes"@);
    let p = "routes?skip="@ + dec_chars(n as nat);
    assert(p[0] == 'r');
    if crate::text::has_https_prefix(p) {
        assert(p.subrange(0, 8)[0] == 'h');
        assert(false);
    }
    assert(resolved_url(list_path(Some(n))) =~= "https://api.mailgun.net/v3/routes?skip="@
        + dec_chars(n as nat));
}

/// One route's resource resolves inside the fixed base, whatever the id.
pub proof fn lemma_route_url(id: Seq<char>)
    ensures
        resolved_url(route_path(id)) == "https://api.mailgun.net/v3/routes/"@ + id,
{
    reveal_strlit("https://");
    reveal_strlit("routes/");
    reveal_strlit("https://api.mailgun.net/v3/");
    reveal_strlit("https://api.mailgun.net/v3/routes/");
    let p = "routes/"@ + id;
    assert(p[0] == 'r');
    if crate::text::has_https_prefix(p) {
        assert(p.subrange(0, 8)[0] == 'h');
        assert(false);
    }
    assert(resolved_url(route_path(id)) =~= "https://api.mailgun.net/v3/routes/"@ + id);
}

/// What a delete operation hands back: the intent signal, emitted exactly
/// once per call whatever the dry-run flag says, and the request to send,
/// absent in dry-run mode.
#[derive(Debug, PartialEq, Eq)]
pub struct DeletePlan {
    pub intent: String,
    pub request: Option<ApiRequest>,
}

/// A client of the remote routing-rule API.  It owns the credential and
/// the dry-run flag, both immutable after construction, and performs no
/// I/O itself: each operation describes one request for a transport to
/// send.
pub struct RouteClient {
    token: Credential,
    dry_run: bool,
}

impl RouteClient {
    /// The characters of the held credential.
    pub closed spec fn token_chars(self) -> Seq<char> {
        credential_chars(self.token)
    }

    /// Whether mutating operations are being simulated.
    pub closed spec fn is_dry_run(self) -> bool {
        self.dry_run
    }

    /// Stores the credential opaquely and the dry-run flag verbatim; no
    /// I/O happens here.
    pub fn new(token: Credential, dry_run: bool) -> (r: Self)
        ensures
            r.token_chars() == credential_chars(token),
            r.is_dry_run() == dry_run,
    {
        RouteClient { token, dry_run }
    }

    pub fn dry_run(&self) -> (r: bool)
        ensures
            r == self.is_dry_run(),
    {
        self.dry_run
    }

    /// The single choke point every operation passes through: resolves the
    /// path against the fixed base (a path already carrying `https://` is
    /// used verbatim) and attaches basic authentication and the fixed
    /// identifying header.
    pub fn request(&self, method: Method, path: &str) -> (r: ApiRequest)
        ensures
            r.method == method,
            r.url@ == resolved_url(path@),
            carries_auth(r, self.token_chars()),
            r.form is None,
    {
        ApiRequest {
            method,
            url: resolve_url_text(path),
            username: String::from_str("api"),
            password: String::from_str(self.token.reveal_for_use()),
            user_agent: String::from_str("mailgun-routes (routing-rule sync client)"),
            form: None,
        }
    }

    /// The uniform dry-run gate: in dry-run mode the request is withheld,
    /// otherwise it is passed on unchanged.
    fn gated(&self, req: ApiRequest) -> (r: Option<ApiRequest>)
        ensures
            r == (if self.is_dry_run() {
                None::<ApiRequest>
            } else {
                Some(req)
            }),
    {
        if self.dry_run {
            None
        } else {
            Some(req)
        }
    }

    /// One page of the route listing: a GET of the collection endpoint,
    /// with `skip` appended only when present.  Read-only, so no dry-run
    /// gating applies.  The caller drives pagination by repeating the call
    /// with increasing offsets until it has `total_count` items.
    pub fn list_routes_request(&self, skip: Option<u64>) -> (r: ApiRequest)
        ensures
            r.method == Method::Get,
            r.url@ == resolved_url(list_path(skip)),
            carries_auth(r, self.token_chars()),
            r.form is None,
    {
        let path = match skip {
            None => String::from_str("routes"),
            Some(n) => {
                let mut s = String::from_str("routes?skip=");
                let digits = u64_to_dec(n);
                s.append(digits.as_str());
                s
            },
        };
        self.request(Method::Get, path.as_str())
    }

    /// A creation call: a POST of the collection endpoint whose form body
    /// holds the three scalar fields and one `action` field per action, in
    /// order.  In dry-run mode no request is produced and the operation
    /// counts as having succeeded.
    pub fn create_route_request(
        &self,
        priority: i32,
        description: &str,
        expression: &str,
        actions: &Vec<String>,
    ) -> (r: Option<ApiRequest>)
        ensures
            self.is_dry_run() <==> r is None,
            r matches Some(req) ==> {
                &&& req.method == Method::Post
                &&& req.url@ == resolved_url("routes"@)
                &&& carries_auth(req, self.token_chars())
                &&& req.form matches Some(f) && pairs_view(f@) == create_form(
                    priority as int,
                    description@,
                    expression@,
                    actions@,
                )
            },
    {
        let mut req = self.request(Method::Post, "routes");
        let mut form: Vec<(String, String)> = Vec::new();
        form.push((String::from_str("priority"), i32_to_dec(priority)));
        form.push((String::from_str("description"), String::from_str(description)));
        form.push((String::from_str("expression"), String::from_str(expression)));
        proof {
            assert(pairs_view(form@) =~= seq![
                ("priority"@, crate::text::int_dec_chars(priority as int)),
                ("description"@, description@),
                ("expression"@, expression@),
            ]);
        }
        push_actions(&mut form, actions);
        proof {
            assert(pairs_view(form@) =~= create_form(
                priority as int,
                description@,
                expression@,
                actions@,
            ));
        }
        req.form = Some(form);
        self.gated(req)
    }

    /// An update call: a PUT of the route's resource whose form body holds
    /// the priority and one `action` field per action, in order.  Only
    /// priority and actions are mutable this way; description and
    /// expression are not sent.  Dry-run gating as for creation.
    pub fn update_route_request(&self, id: &str, priority: i32, actions: &Vec<String>) -> (r:
        Option<ApiRequest>)
        ensures
            self.is_dry_run() <==> r is None,
            r matches Some(req) ==> {
                &&& req.method == Method::Put
                &&& req.url@ == resolved_url(route_path(id@))
                &&& carries_auth(req, self.token_chars())
                &&& req.form matches Some(f) && pairs_view(f@) == update_form(
                    priority as int,
                    actions@,
                )
            },
    {
        let mut path = String::from_str("routes/");
        path.append(id);
        let mut req = self.request(Method::Put, path.as_str());
        let mut form: Vec<(String, String)> = Vec::new();
        form.push((String::from_str("priority"), i32_to_dec(priority)));
        proof {
            assert(pairs_view(form@) =~= seq![
                ("priority"@, crate::text::int_dec_chars(priority as int)),
            ]);
        }
        push_actions(&mut form, actions);
        proof {
            assert(pairs_view(form@) =~= update_form(priority as int, actions@));
        }
        req.form = Some(form);
        self.gated(req)
    }

    /// A delete call: records the intent signal first, unconditionally, so
    /// that an operator sees it even in dry-run mode; only the DELETE
    /// request itself is withheld there.
    pub fn delete_route_request(&self, id: &str) -> (r: DeletePlan)
        ensures
            r.intent@ == delete_intent(id@),
            self.is_dry_run() <==> r.request is None,
            r.request matches Some(req) ==> {
                &&& req.method == Method::Delete
                &&& req.url@ == resolved_url(route_path(id@))
                &&& carries_auth(req, self.token_chars())
                &&& req.form is None
            },
    {
        let mut intent = String::from_str("deleting route with ID ");
        intent.append(id);
        let mut path = String::from_str("routes/");
        path.append(id);
        let req = self.request(Method::Delete, path.as_str());
        DeletePlan { intent, request: self.gated(req) }
    }
}

} // verus!
