//! The inbound data model — routes and route pages — and its decoding
//! from parsed JSON.
//!
//! Decoding is permissive exactly where the remote service is loosely
//! typed: a route's `description` is accepted in any JSON shape and kept
//! as it came; every other field must have its expected shape.

use vstd::prelude::*;
use crate::json::{Json, lookup};
use crate::text::str_eq;

verus! {

/// One routing rule as the remote service reports it.
#[derive(Debug, PartialEq, Eq)]
pub struct Route {
    /// Opaque identifier assigned by the remote service.
    pub id: String,
    /// Lower values are matched first by the remote service.
    pub priority: i32,
    /// The matching rule.
    pub expression: String,
    /// Ordered action list; the order is meaningful remotely.
    pub actions: Vec<String>,
    /// Loosely typed on the remote side; kept in whatever shape it came.
    pub description: Json,
}

/// The mathematical reading of a [`Route`].
pub struct RouteModel {
    pub id: Seq<char>,
    pub priority: int,
    pub expression: Seq<char>,
    pub actions: Seq<Seq<char>>,
    pub description: Json,
}

impl View for Route {
    type V = RouteModel;

    open spec fn view(&self) -> RouteModel {
        RouteModel {
            id: self.id@,
            priority: self.priority as int,
            expression: self.expression@,
            actions: self.actions@.map_values(|a: String| a@),
            description: self.description,
        }
    }
}

/// One page of the route listing.
#[derive(Debug, PartialEq, Eq)]
pub struct RoutesPage {
    /// The routes of this page, in the order the service returned them.
    pub items: Vec<Route>,
    /// The server-reported total across all pages, not just this one.
    pub total_count: u64,
}

/// The mathematical reading of a [`RoutesPage`].
pub struct PageModel {
    pub items: Seq<RouteModel>,
    pub total_count: u64,
}

impl View for RoutesPage {
    type V = PageModel;

    open spec fn view(&self) -> PageModel {
        PageModel {
            items: self.items@.map_values(|r: Route| r@),
            total_count: self.total_count,
        }
    }
}

/// The priority a JSON value denotes: an integer that fits `i32`.
pub open spec fn priority_of_json(j: Json) -> Option<int> {
    match j {
        Json::Int(i) => if i32::MIN as int <= i as int && i as int <= i32::MAX as int {
            Some(i as int)
        } else {
            None
        },
        Json::UInt(u) => if u as int <= i32::MAX as int {
            Some(u as int)
        } else {
            None
        },
        _ => None,
    }
}

/// The count a JSON value denotes: a non-negative integer that fits `u64`.
pub open spec fn count_of_json(j: Json) -> Option<u64> {
    match j {
        Json::Int(i) => if i >= 0 {
            Some(i as u64)
        } else {
            None
        },
        Json::UInt(u) => Some(u),
        _ => None,
    }
}

/// The texts of a JSON array whose elements must all be strings.
pub open spec fn texts_of(s: Seq<Json>) -> Option<Seq<Seq<char>>>
    decreases s.len(),
{
    if s.len() == 0 {
        Some(Seq::empty())
    } else {
        match s[0] {
            Json::Text(t) => match texts_of(s.drop_first()) {
                Some(rest) => Some(seq![t@] + rest),
                None => None,
            },
            _ => None,
        }
    }
}

/// The route an object's field list denotes, if every required field is
/// present in its expected shape; `description` may have any shape at all.
pub open spec fn route_of_fields(f: Seq<(String, Json)>) -> Option<RouteModel> {
    match (
        lookup(f, "id"@),
        lookup(f, "priority"@),
        lookup(f, "expression"@),
        lookup(f, "actions"@),
        lookup(f, "description"@),
    ) {
        (
            Some(Json::Text(id)),
            Some(pj),
            Some(Json::Text(expr)),
            Some(Json::Arr(acts)),
            Some(desc),
        ) => match (priority_of_json(pj), texts_of(acts@)) {
            (Some(p), Some(actions)) => Some(
                RouteModel {
                    id: id@,
                    priority: p,
                    expression: expr@,
                    actions,
                    description: desc,
                },
            ),
            _ => None,
        },
        _ => None,
    }
}

/// The route a JSON value denotes: it must be an object.
pub open spec fn route_of_json(j: Json) -> Option<RouteModel> {
    match j {
        Json::Obj(fields) => route_of_fields(fields@),
        _ => None,
    }
}

/// The routes of a JSON array: every element must denote one.
pub open spec fn routes_of(s: Seq<Json>) -> Option<Seq<RouteModel>>
    decreases s.len(),
{
    if s.len() == 0 {
        Some(Seq::empty())
    } else {
        match route_of_json(s[0]) {
            Some(r) => match routes_of(s.drop_first()) {
                Some(rest) => Some(seq![r] + rest),
                None => None,
            },
            None => None,
        }
    }
}

/// A decoded array of routes has one route per element, each decoded from
/// its own element, in the order the array gave them.
pub proof fn lemma_routes_of_pointwise(s: Seq<Json>)
    ensures
        routes_of(s) matches Some(rs) ==> rs.len() == s.len() && forall|i: int|
            0 <= i < s.len() ==> Some(#[trigger] rs[i]) == route_of_json(s[i]),
    decreases s.len(),
{
    if s.len() > 0 {
        lemma_routes_of_pointwise(s.drop_first());
        if let Some(rs) = routes_of(s) {
            assert forall|i: int| 0 <= i < s.len() implies Some(#[trigger] rs[i])
                == route_of_json(s[i]) by {
                if i > 0 {
                    assert(s.drop_first()[i - 1] == s[i]);
                }
            }
        }
    }
}

/// The page a JSON value denotes: an object with `items`, an array of
/// routes, and `total_count`, a non-negative integer.
pub open spec fn page_of_json(j: Json) -> Option<PageModel> {
    match j {
        Json::Obj(fields) => match (lookup(fields@, "items"@), lookup(fields@, "total_count"@)) {
            (Some(Json::Arr(items)), Some(tc)) => match (routes_of(items@), count_of_json(tc)) {
                (Some(rs), Some(n)) => Some(PageModel { items: rs, total_count: n }),
                _ => None,
            },
            _ => None,
        },
        _ => None,
    }
}

/// An option tracks a key while the field list is consumed from the back:
/// either the binding is already in hand, or it is still ahead.
spec fn tracks(
    o: Option<Json>,
    rem: Seq<(String, Json)>,
    orig: Seq<(String, Json)>,
    key: Seq<char>,
) -> bool {
    match o {
        Some(v) => lookup(orig, key) == Some(v),
        None => lookup(orig, key) == lookup(rem, key),
    }
}

fn json_to_priority(j: &Json) -> (r: Option<i32>)
    ensures
        match r {
            Some(p) => priority_of_json(*j) == Some(p as int),
            None => priority_of_json(*j) is None,
        },
{
    match j {
        Json::Int(i) => {
            let i = *i;
            if i32::MIN as i64 <= i && i <= i32::MAX as i64 {
                Some(i as i32)
            } else {
                None
            }
        },
        Json::UInt(u) => {
            let u = *u;
            if u <= i32::MAX as u64 {
                Some(u as i32)
            } else {
                None
            }
        },
        _ => None,
    }
}

fn json_to_count(j: &Json) -> (r: Option<u64>)
    ensures
        match r {
            Some(n) => count_of_json(*j) == Some(n),
            None => count_of_json(*j) is None,
        },
{
    match j {
        Json::Int(i) => {
            let i = *i;
            if i >= 0 {
                Some(i as u64)
            } else {
                None
            }
        },
        Json::UInt(u) => Some(*u),
        _ => None,
    }
}

#[verifier::loop_isolation(false)]
fn decode_texts(items: Vec<Json>) -> (r: Option<Vec<String>>)
    ensures
        r is Some <==> texts_of(items@) is Some,
        r matches Some(v) ==> Some(v@.map_values(|s: String| s@)) == texts_of(items@),
{
    let ghost orig = items@;
    let mut items = items;
    let mut out: Vec<String> = Vec::new();
    proof {
        assert(out@.map_values(|s: String| s@) =~= Seq::<Seq<char>>::empty());
    }
    while items.len() > 0
        invariant
            match texts_of(orig) {
                Some(all) => texts_of(items@) matches Some(rest) && all == out@.map_values(
                    |s: String| s@,
                ) + rest,
                None => texts_of(items@) is None,
            },
        decreases items@.len(),
    {
        let ghost before = items@;
        let ghost out_before = out@;
        let first = items.remove(0);
        proof {
            assert(items@ =~= before.drop_first());
        }
        match first {
            Json::Text(t) => {
                out.push(t);
                proof {
                    let f = |s: String| s@;
                    assert(out@.map_values(f) =~= out_before.map_values(f) + seq![t@]);
                    if let Some(rest) = texts_of(before) {
                        assert(texts_of(before) == Some(seq![t@] + texts_of(items@).unwrap()));
                        assert(out_before.map_values(f) + (seq![t@] + texts_of(items@).unwrap())
                            =~= out@.map_values(f) + texts_of(items@).unwrap());
                    }
                }
            },
            _ => {
                proof {
                    assert(texts_of(before) is None);
                }
                return None;
            },
        }
    }
    proof {
        assert(texts_of(items@) == Some(Seq::<Seq<char>>::empty()));
        if let Some(all) = texts_of(orig) {
            assert(all =~= out@.map_values(|s: String| s@));
        }
    }
    Some(out)
}

/// Decodes one route from a parsed JSON value.  Succeeds exactly when the
/// value is an object whose `id` and `expression` are strings, whose
/// `priority` is an integer fitting `i32`, whose `actions` is an array of
/// strings, and whose `description` is present — in any shape whatever.
/// The last binding of a repeated key wins, as it does in `serde_json`.
#[verifier::loop_isolation(false)]
pub fn decode_route(j: Json) -> (r: Option<Route>)
    ensures
        r is Some <==> route_of_json(j) is Some,
        r matches Some(route) ==> Some(route@) == route_of_json(j),
{
    proof {
        reveal_strlit("id");
        reveal_strlit("priority");
        reveal_strlit("expression");
        reveal_strlit("actions");
        reveal_strlit("description");
    }
    let mut fields = match j {
        Json::Obj(fields) => fields,
        _ => {
            return None;
        },
    };
    let ghost orig = fields@;
    let mut o_id: Option<Json> = None;
    let mut o_priority: Option<Json> = None;
    let mut o_expression: Option<Json> = None;
    let mut o_actions: Option<Json> = None;
    let mut o_description: Option<Json> = None;
    while fields.len() > 0
        invariant
            tracks(o_id, fields@, orig, "id"@),
            tracks(o_priority, fields@, orig, "priority"@),
            tracks(o_expression, fields@, orig, "expression"@),
            tracks(o_actions, fields@, orig, "actions"@),
            tracks(o_description, fields@, orig, "description"@),
        decreases fields@.len(),
    {
        let ghost before = fields@;
        let entry = fields.pop().unwrap();
        let (k, v) = entry;
        proof {
            assert(fields@ =~= before.drop_last());
            assert("id"@.len() == 2);
            assert("priority"@.len() == 8);
            assert("expression"@.len() == 10);
            assert("actions"@.len() == 7);
            assert("description"@.len() == 11);
        }
        if o_id.is_none() && str_eq(k.as_str(), "id") {
            o_id = Some(v);
        } else if o_priority.is_none() && str_eq(k.as_str(), "priority") {
            o_priority = Some(v);
        } else if o_expression.is_none() && str_eq(k.as_str(), "expression") {
            o_expression = Some(v);
        } else if o_actions.is_none() && str_eq(k.as_str(), "actions") {
            o_actions = Some(v);
        } else if o_description.is_none() && str_eq(k.as_str(), "description") {
            o_description = Some(v);
        }
    }
    let id = match o_id {
        Some(Json::Text(s)) => s,
        _ => {
            return None;
        },
    };
    let expression = match o_expression {
        Some(Json::Text(s)) => s,
        _ => {
            return None;
        },
    };
    let priority_json = match o_priority {
        Some(p) => p,
        None => {
            return None;
        },
    };
    let priority = match json_to_priority(&priority_json) {
        Some(p) => p,
        None => {
            return None;
        },
    };
    let action_items = match o_actions {
        Some(Json::Arr(items)) => items,
        _ => {
            return None;
        },
    };
    let actions = match decode_texts(action_items) {
        Some(a) => a,
        None => {
            return None;
        },
    };
    let description = match o_description {
        Some(d) => d,
        None => {
            return None;
        },
    };
    Some(Route { id, priority, expression, actions, description })
}

/// Decodes a page of routes from a parsed JSON value.  Succeeds exactly
/// when the value is an object whose `items` is an array of well-shaped
/// routes and whose `total_count` is a non-negative integer.
#[verifier::loop_isolation(false)]
pub fn decode_routes_page(j: Json) -> (r: Option<RoutesPage>)
    ensures
        r is Some <==> page_of_json(j) is Some,
        r matches Some(page) ==> Some(page@) == page_of_json(j),
{
    proof {
        reveal_strlit("items");
        reveal_strlit("total_count");
    }
    let mut fields = match j {
        Json::Obj(fields) => fields,
        _ => {
            return None;
        },
    };
    let ghost orig = fields@;
    let mut o_items: Option<Json> = None;
    let mut o_count: Option<Json> = None;
    while fields.len() > 0
        invariant
            tracks(o_items, fields@, orig, "items"@),
            tracks(o_count, fields@, orig, "total_count"@),
        decreases fields@.len(),
    {
        let ghost before = fields@;
        let entry = fields.pop().unwrap();
        let (k, v) = entry;
        proof {
            assert(fields@ =~= before.drop_last());
            assert("items"@.len() == 5);
            assert("total_count"@.len() == 11);
        }
        if o_items.is_none() && str_eq(k.as_str(), "items") {
            o_items = Some(v);
        } else if o_count.is_none() && str_eq(k.as_str(), "total_count") {
            o_count = Some(v);
        }
    }
    let item_values = match o_items {
        Some(Json::Arr(items)) => items,
        _ => {
            return None;
        },
    };
    let count_json = match o_count {
        Some(c) => c,
        None => {
            return None;
        },
    };
    let total_count = match json_to_count(&count_json) {
        Some(n) => n,
        None => {
            return None;
        },
    };
    let ghost orig_items = item_values@;
    let mut item_values = item_values;
    let mut items: Vec<Route> = Vec::new();
    proof {
        assert(items@.map_values(|r: Route| r@) =~= Seq::<RouteModel>::empty());
    }
    while item_values.len() > 0
        invariant
            match routes_of(orig_items) {
                Some(all) => routes_of(item_values@) matches Some(rest) && all == items@.map_values(
                    |r: Route| r@,
                ) + rest,
                None => routes_of(item_values@) is None,
            },
        decreases item_values@.len(),
    {
        let ghost before = item_values@;
        let ghost items_before = items@;
        let first = item_values.remove(0);
        proof {
            assert(item_values@ =~= before.drop_first());
        }
        match decode_route(first) {
            Some(route) => {
                let ghost model = route@;
                items.push(route);
                proof {
                    let f = |r: Route| r@;
                    assert(items@.map_values(f) =~= items_before.map_values(f) + seq![model]);
                    if let Some(all) = routes_of(orig_items) {
                        assert(routes_of(before) == Some(
                            seq![model] + routes_of(item_values@).unwrap(),
                        ));
                        assert(items_before.map_values(f) + (seq![model] + routes_of(
                            item_values@,
                        ).unwrap()) =~= items@.map_values(f) + routes_of(item_values@).unwrap());
                    }
                }
            },
            None => {
                proof {
                    assert(routes_of(before) is None);
                }
                return None;
            },
        }
    }
    proof {
        assert(routes_of(item_values@) == Some(Seq::<RouteModel>::empty()));
        if let Some(all) = routes_of(orig_items) {
            assert(all =~= items@.map_values(|r: Route| r@));
        }
    }
    Some(RoutesPage { items, total_count })
}

} // verus!
