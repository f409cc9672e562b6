use mailgun_routes::client::{DeletePlan, RouteClient};
use mailgun_routes::json::Json;
use mailgun_routes::request::{ApiRequest, Method, resolve_url_text};
use mailgun_routes::response::{ApiError, HttpResponse, list_outcome, mutation_outcome};
use mailgun_routes::routes::{Route, RoutesPage, decode_route, decode_routes_page};
use mailgun_routes::secret::Credential;
use mailgun_routes::text::{i32_to_dec, u64_to_dec};

const USER_AGENT: &str = "mailgun-routes (routing-rule sync client)";

fn client(dry_run: bool) -> RouteClient {
    RouteClient::new(Credential::new(String::from("tok")), dry_run)
}

fn actions() -> Vec<String> {
    vec![
        String::from("forward(\"a@b.com\")"),
        String::from("stop()"),
    ]
}

fn check_auth(req: &ApiRequest) {
    assert_eq!(req.username, "api");
    assert_eq!(req.password, "tok");
    assert_eq!(req.user_agent, USER_AGENT);
}

#[test]
fn dry_run_never_builds_a_mutating_request() {
    let c = client(true);
    assert!(c.create_route_request(1, "d", "e", &actions()).is_none());
    assert!(c.create_route_request(-7, "", "", &Vec::new()).is_none());
    assert!(c.update_route_request("r1", 2, &actions()).is_none());
    let plan = c.delete_route_request("r1");
    assert!(plan.request.is_none());
    // Read-only listing is not gated.
    let req = c.list_routes_request(None);
    assert_eq!(req.method, Method::Get);
}

#[test]
fn delete_emits_intent_once_whatever_the_mode() {
    for dry_run in [true, false] {
        let c = client(dry_run);
        let DeletePlan { intent, request } = c.delete_route_request("abc123");
        assert_eq!(intent, "deleting route with ID abc123");
        assert_eq!(request.is_none(), dry_run);
    }
}

#[test]
fn create_form_holds_one_action_field_per_action_in_order() {
    let c = client(false);
    let req = c.create_route_request(5, "the desc", "expr()", &actions()).unwrap();
    assert_eq!(req.method, Method::Post);
    assert_eq!(req.url, "https://api.mailgun.net/v3/routes");
    check_auth(&req);
    let form = req.form.unwrap();
    let expected: Vec<(String, String)> = vec![
        ("priority".into(), "5".into()),
        ("description".into(), "the desc".into()),
        ("expression".into(), "expr()".into()),
        ("action".into(), "forward(\"a@b.com\")".into()),
        ("action".into(), "stop()".into()),
    ];
    assert_eq!(form, expected);
}

#[test]
fn create_with_no_actions_sends_no_action_field() {
    let c = client(false);
    let req = c.create_route_request(-12, "d", "e", &Vec::new()).unwrap();
    let form = req.form.unwrap();
    let expected: Vec<(String, String)> = vec![
        ("priority".into(), "-12".into()),
        ("description".into(), "d".into()),
        ("expression".into(), "e".into()),
    ];
    assert_eq!(form, expected);
}

#[test]
fn update_form_holds_priority_then_actions() {
    let c = client(false);
    let req = c.update_route_request("r9", 0, &actions()).unwrap();
    assert_eq!(req.method, Method::Put);
    assert_eq!(req.url, "https://api.mailgun.net/v3/routes/r9");
    check_auth(&req);
    let form = req.form.unwrap();
    let expected: Vec<(String, String)> = vec![
        ("priority".into(), "0".into()),
        ("action".into(), "forward(\"a@b.com\")".into()),
        ("action".into(), "stop()".into()),
    ];
    assert_eq!(form, expected);
}

#[test]
fn list_omits_skip_when_absent_and_appends_it_when_present() {
    let c = client(false);
    let req = c.list_routes_request(None);
    assert_eq!(req.url, "https://api.mailgun.net/v3/routes");
    assert!(req.form.is_none());
    let req = c.list_routes_request(Some(20));
    assert_eq!(req.url, "https://api.mailgun.net/v3/routes?skip=20");
    check_auth(&req);
}

#[test]
fn every_operation_carries_basic_auth_and_user_agent() {
    let c = client(false);
    check_auth(&c.list_routes_request(Some(3)));
    check_auth(&c.create_route_request(1, "d", "e", &actions()).unwrap());
    check_auth(&c.update_route_request("r1", 1, &actions()).unwrap());
    check_auth(&c.delete_route_request("r1").request.unwrap());
    check_auth(&c.request(Method::Get, "anything"));
}

#[test]
fn absolute_path_is_used_verbatim_others_are_prefixed() {
    assert_eq!(
        resolve_url_text("https://next.example/page?skip=40"),
        "https://next.example/page?skip=40"
    );
    assert_eq!(
        resolve_url_text("routes/r1"),
        "https://api.mailgun.net/v3/routes/r1"
    );
    // Through the single choke point as well.
    let c = client(false);
    let req = c.request(Method::Get, "https://next.example/page");
    assert_eq!(req.url, "https://next.example/page");
    check_auth(&req);
}

#[test]
fn delete_builds_a_delete_of_the_route_resource() {
    let c = client(false);
    let plan = c.delete_route_request("r42");
    let req = plan.request.unwrap();
    assert_eq!(req.method, Method::Delete);
    assert_eq!(req.url, "https://api.mailgun.net/v3/routes/r42");
    assert!(req.form.is_none());
}

#[test]
fn http_500_is_reported_as_a_status_error() {
    let outcome = Ok(HttpResponse { status: 500, body: String::from("boom") });
    assert_eq!(
        mutation_outcome(outcome),
        Err(ApiError::HttpStatus(500, String::from("boom")))
    );
    let outcome = Ok(HttpResponse { status: 404, body: String::from("gone") });
    assert_eq!(
        mutation_outcome(outcome),
        Err(ApiError::HttpStatus(404, String::from("gone")))
    );
    let outcome = Ok(HttpResponse { status: 200, body: String::new() });
    assert_eq!(mutation_outcome(outcome), Ok(()));
}

#[test]
fn transport_failure_is_reported_as_transport() {
    let r = mutation_outcome(Err(String::from("connection refused")));
    assert_eq!(r, Err(ApiError::Transport(String::from("connection refused"))));
    let r = list_outcome(Err(String::from("dns failure")));
    assert_eq!(r, Err(ApiError::Transport(String::from("dns failure"))));
}

#[test]
fn list_decodes_a_full_page() {
    let body = r#"{"items":[{"id":"r1","priority":-3,"description":"a desc",
        "expression":"match_recipient(\".*\")","actions":["forward(\"a@b.com\")","stop()"]}],
        "total_count":7}"#;
    let page = list_outcome(Ok(HttpResponse { status: 200, body: body.into() })).unwrap();
    assert_eq!(page.total_count, 7);
    assert_eq!(page.items.len(), 1);
    let route = &page.items[0];
    assert_eq!(route.id, "r1");
    assert_eq!(route.priority, -3);
    assert_eq!(route.expression, "match_recipient(\".*\")");
    assert_eq!(route.actions, actions());
    assert_eq!(route.description, Json::Text(String::from("a desc")));
}

#[test]
fn description_is_decoded_permissively() {
    for (desc_text, expected) in [
        ("7", Json::Int(7)),
        ("null", Json::Null),
        ("{\"a\":1}", Json::Obj(vec![(String::from("a"), Json::Int(1))])),
        ("[true]", Json::Arr(vec![Json::Bool(true)])),
        ("2.5", Json::Frac(String::from("2.5"))),
    ] {
        let body = format!(
            r#"{{"items":[{{"id":"r1","priority":1,"description":{desc_text},
                "expression":"e","actions":[]}}],"total_count":1}}"#
        );
        let page = list_outcome(Ok(HttpResponse { status: 200, body })).unwrap();
        assert_eq!(page.items[0].description, expected);
    }
}

#[test]
fn malformed_or_misshapen_bodies_are_decode_errors() {
    for body in [
        "not json at all",
        "[]",
        r#"{"items":[],"total_count":-1}"#,
        r#"{"items":[{"id":"r1"}],"total_count":0}"#,
        r#"{"total_count":0}"#,
        r#"{"items":[]}"#,
    ] {
        let r = list_outcome(Ok(HttpResponse { status: 200, body: body.into() }));
        assert_eq!(r, Err(ApiError::Decode), "body: {body}");
    }
}

#[test]
fn decode_route_requires_every_field_but_accepts_any_description() {
    let full = || {
        vec![
            (String::from("id"), Json::Text(String::from("r1"))),
            (String::from("priority"), Json::Int(4)),
            (String::from("expression"), Json::Text(String::from("e"))),
            (String::from("actions"), Json::Arr(vec![Json::Text(String::from("stop()"))])),
            (String::from("description"), Json::Null),
        ]
    };
    let route = decode_route(Json::Obj(full())).unwrap();
    assert_eq!(
        route,
        Route {
            id: String::from("r1"),
            priority: 4,
            expression: String::from("e"),
            actions: vec![String::from("stop()")],
            description: Json::Null,
        }
    );
    // Each missing field is fatal, whichever it is.
    for skip in 0..5 {
        let mut fields = full();
        fields.remove(skip);
        assert!(decode_route(Json::Obj(fields)).is_none(), "dropped field {skip}");
    }
    // A non-object is not a route.
    assert!(decode_route(Json::Text(String::from("r1"))).is_none());
}

#[test]
fn decode_route_rejects_badly_shaped_fields() {
    let with = |key: &str, value: Json| {
        let mut fields = vec![
            (String::from("id"), Json::Text(String::from("r1"))),
            (String::from("priority"), Json::Int(4)),
            (String::from("expression"), Json::Text(String::from("e"))),
            (String::from("actions"), Json::Arr(Vec::new())),
            (String::from("description"), Json::Null),
        ];
        for f in fields.iter_mut() {
            if f.0 == key {
                f.1 = value;
                break;
            }
        }
        Json::Obj(fields)
    };
    assert!(decode_route(with("id", Json::Int(3))).is_none());
    assert!(decode_route(with("expression", Json::Null)).is_none());
    assert!(decode_route(with("priority", Json::Frac(String::from("2.5")))).is_none());
    assert!(decode_route(with("priority", Json::Int(1_i64 << 40))).is_none());
    assert!(decode_route(with("priority", Json::Int(-(1_i64 << 40)))).is_none());
    assert!(decode_route(with("priority", Json::UInt(u64::MAX))).is_none());
    assert!(decode_route(with("actions", Json::Text(String::from("stop()")))).is_none());
    assert!(decode_route(with("actions", Json::Arr(vec![Json::Int(1)]))).is_none());
    // In-range alternatives still pass.
    assert_eq!(decode_route(with("priority", Json::UInt(9))).unwrap().priority, 9);
    assert_eq!(
        decode_route(with("priority", Json::Int(i32::MIN as i64))).unwrap().priority,
        i32::MIN
    );
}

#[test]
fn decode_keeps_action_order_and_last_duplicate_key() {
    let fields = vec![
        (String::from("id"), Json::Text(String::from("first"))),
        (String::from("priority"), Json::Int(1)),
        (String::from("expression"), Json::Text(String::from("e"))),
        (
            String::from("actions"),
            Json::Arr(vec![
                Json::Text(String::from("forward(\"a@b.com\")")),
                Json::Text(String::from("stop()")),
            ]),
        ),
        (String::from("description"), Json::Null),
        (String::from("id"), Json::Text(String::from("second"))),
        (String::from("unknown"), Json::Bool(true)),
    ];
    let route = decode_route(Json::Obj(fields)).unwrap();
    assert_eq!(route.id, "second");
    assert_eq!(route.actions, actions());
}

#[test]
fn decode_routes_page_counts_and_orders_items() {
    let route_fields = |id: &str| {
        Json::Obj(vec![
            (String::from("id"), Json::Text(String::from(id))),
            (String::from("priority"), Json::Int(0)),
            (String::from("expression"), Json::Text(String::from("e"))),
            (String::from("actions"), Json::Arr(Vec::new())),
            (String::from("description"), Json::Null),
        ])
    };
    let page = decode_routes_page(Json::Obj(vec![
        (String::from("items"), Json::Arr(vec![route_fields("a"), route_fields("b")])),
        (String::from("total_count"), Json::UInt(5)),
    ]))
    .unwrap();
    assert_eq!(page.total_count, 5);
    let ids: Vec<&str> = page.items.iter().map(|r| r.id.as_str()).collect();
    assert_eq!(ids, ["a", "b"]);
    // One bad item poisons the page.
    let page = decode_routes_page(Json::Obj(vec![
        (String::from("items"), Json::Arr(vec![route_fields("a"), Json::Null])),
        (String::from("total_count"), Json::UInt(5)),
    ]));
    assert!(page.is_none());
}

#[test]
fn decimal_rendering_is_exact() {
    assert_eq!(u64_to_dec(0), "0");
    assert_eq!(u64_to_dec(10), "10");
    assert_eq!(u64_to_dec(987654321), "987654321");
    assert_eq!(u64_to_dec(u64::MAX), "18446744073709551615");
    assert_eq!(i32_to_dec(0), "0");
    assert_eq!(i32_to_dec(-1), "-1");
    assert_eq!(i32_to_dec(i32::MIN), "-2147483648");
    assert_eq!(i32_to_dec(i32::MAX), "2147483647");
}

#[test]
fn non_error_statuses_pass_the_gate() {
    for status in [200u16, 204, 302] {
        assert_eq!(
            mutation_outcome(Ok(HttpResponse { status, body: String::new() })),
            Ok(())
        );
    }
    for status in [400u16, 401, 404, 500, 503, 599] {
        let r = mutation_outcome(Ok(HttpResponse { status, body: String::new() }));
        assert_eq!(r, Err(ApiError::HttpStatus(status, String::new())));
    }
}

#[test]
fn a_page_beyond_the_first_can_be_requested_verbatim() {
    // The escape hatch of the request builder: an absolute link from the
    // server is used unmodified, still authenticated.
    let c = client(false);
    let req = c.request(Method::Get, "https://api.mailgun.net/v3/routes?skip=40");
    assert_eq!(req.url, "https://api.mailgun.net/v3/routes?skip=40");
    check_auth(&req);
}

#[test]
fn routes_page_struct_round_trips_through_equality() {
    let page = RoutesPage { items: Vec::new(), total_count: 0 };
    assert_eq!(page, RoutesPage { items: Vec::new(), total_count: 0 });
}
