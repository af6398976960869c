use vstd::prelude::*;
use vstd::string::*;

verus! {

/// One endpoint of the generated web service, as found by reading its source.
///
/// Every field is text. `is_route_dynamic` is `true` or `false`, spelled
/// out. The two schemas hold the request body and the response as JSON text,
/// as it stands in the schema file: an object, or, where the endpoint has
/// none, the JSON string `"None"` with its quotes.
#[derive(Debug, PartialEq, Eq)]
pub struct Route {
    pub is_route_dynamic: String,
    pub method: String,
    pub request_body: String,
    pub response: String,
    pub route: String,
}

/// A `Route` as plain text values.
pub struct RouteView {
    pub is_route_dynamic: Seq<char>,
    pub method: Seq<char>,
    pub request_body: Seq<char>,
    pub response: Seq<char>,
    pub route: Seq<char>,
}

impl View for Route {
    type V = RouteView;

    open spec fn view(&self) -> RouteView {
        RouteView {
            is_route_dynamic: self.is_route_dynamic@,
            method: self.method@,
            request_body: self.request_body@,
            response: self.response@,
            route: self.route@,
        }
    }
}

impl DeepView for Route {
    type V = RouteView;

    open spec fn deep_view(&self) -> RouteView {
        self@
    }
}

impl Clone for Route {
    fn clone(&self) -> (copy: Route)
        ensures
            copy@ == self@,
    {
        Route {
            is_route_dynamic: self.is_route_dynamic.clone(),
            method: self.method.clone(),
            request_body: self.request_body.clone(),
            response: self.response.clone(),
            route: self.route.clone(),
        }
    }
}

impl RouteView {
    /// Whether the endpoint may be called without being asked to: only a
    /// plain read of a fixed path qualifies, so that a smoke test has no side
    /// effect and needs no parameter.
    pub open spec fn probe_eligible(self) -> bool {
        self.method == "get"@ && self.is_route_dynamic == "false"@
    }
}

impl Route {
    /// Whether this endpoint may be probed automatically.
    pub fn is_probe_eligible(&self) -> (eligible: bool)
        ensures
            eligible == self@.probe_eligible(),
    {
        let get = String::from_str("get");
        let fixed = String::from_str("false");
        self.method == get && self.is_route_dynamic == fixed
    }
}

/// The views of a list of routes, in order.
pub open spec fn routes(items: Seq<Route>) -> Seq<RouteView> {
    Seq::new(items.len(), |i: int| items[i]@)
}

/// The test by which routes are picked for probing.
pub open spec fn probe_eligibility() -> spec_fn(RouteView) -> bool {
    |r: RouteView| r.probe_eligible()
}

/// The routes of `all` that may be probed automatically, in the order in
/// which `all` lists them.
pub open spec fn probe_targets(all: Seq<RouteView>) -> Seq<RouteView> {
    all.filter(probe_eligibility())
}

/// Picks the endpoints to smoke-test: the static `get` routes, and no other.
pub fn select_probe_targets(all: &Vec<Route>) -> (picked: Vec<Route>)
    ensures
        routes(picked@) == probe_targets(routes(all@)),
{
    let mut picked: Vec<Route> = Vec::new();
    let mut i: usize = 0;
    proof {
        assert(routes(all@).take(0) =~= Seq::empty());
        assert(routes(picked@) =~= Seq::empty());
    }
    while i < all.len()
        invariant
            i <= all.len(),
            routes(picked@) == probe_targets(routes(all@).take(i as int)),
        decreases all.len() - i,
    {
        let ghost done = routes(all@).take(i as int);
        let ghost before = routes(picked@);
        proof {
            assert(routes(all@).take(i + 1) =~= done.push(all@[i as int]@));
            done.lemma_filter_push(all@[i as int]@, probe_eligibility());
        }
        if all[i].is_probe_eligible() {
            picked.push(all[i].clone());
            proof {
                assert(routes(picked@) =~= before.push(all@[i as int]@));
            }
        }
        i += 1;
    }
    proof {
        assert(routes(all@).take(all.len() as int) =~= routes(all@));
    }
    picked
}

/// The selection holds exactly the routes that are static and read with
/// `get`: a route is picked if and only if it is listed and is of that kind.
pub proof fn lemma_selection_is_exact(all: Seq<RouteView>, route: RouteView)
    ensures
        probe_targets(all).contains(route) <==> all.contains(route) && route.probe_eligible(),
{
    let picked = probe_targets(all);
    if picked.contains(route) {
        let i = choose|i: int| 0 <= i < picked.len() && picked[i] == route;
        all.lemma_filter_pred(probe_eligibility(), i);
        all.lemma_filter_contains_rev(probe_eligibility(), route);
    }
    if all.contains(route) && route.probe_eligible() {
        let i = choose|i: int| 0 <= i < all.len() && all[i] == route;
        all.lemma_filter_contains(probe_eligibility(), i);
    }
}

/// To select twice is to select once.
pub proof fn lemma_selection_is_idempotent(all: Seq<RouteView>)
    ensures
        probe_targets(probe_targets(all)) == probe_targets(all),
    decreases all.len(),
{
    if all.len() == 0 {
        all.lemma_filter_len(probe_eligibility());
        assert(probe_targets(all) =~= Seq::empty());
    } else {
        let front = all.drop_last();
        let last = all.last();
        assert(all =~= front.push(last));
        lemma_selection_is_idempotent(front);
        front.lemma_filter_push(last, probe_eligibility());
        if last.probe_eligible() {
            probe_targets(front).lemma_filter_push(last, probe_eligibility());
        }
    }
}

/// A route that qualifies is picked as often as it is listed, and one that
/// does not is never picked.
pub proof fn lemma_selection_counts(all: Seq<RouteView>, route: RouteView)
    ensures
        probe_targets(all).to_multiset().count(route) == if route.probe_eligible() {
            all.to_multiset().count(route)
        } else {
            0
        },
    decreases all.len(),
{
    broadcast use vstd::seq_lib::group_to_multiset_ensures;
    broadcast use vstd::multiset::group_multiset_axioms;

    if all.len() == 0 {
        all.lemma_filter_len(probe_eligibility());
        assert(probe_targets(all) =~= all);
        assert(!all.contains(route));
    } else {
        let front = all.drop_last();
        let last = all.last();
        assert(all =~= front.push(last));
        lemma_selection_counts(front, route);
        front.lemma_filter_push(last, probe_eligibility());
        assert(front.push(last).to_multiset() =~= front.to_multiset().insert(last));
        if last.probe_eligible() {
            assert(probe_targets(front).push(last).to_multiset() =~= probe_targets(
                front,
            ).to_multiset().insert(last));
        }
    }
}

/// How often a route is picked depends on how often it is listed, not on
/// where: two lists that hold the same routes equally often, in whatever
/// order, give selections that hold the same routes equally often.
pub proof fn lemma_selection_ignores_order(first: Seq<RouteView>, second: Seq<RouteView>)
    requires
        first.to_multiset() == second.to_multiset(),
    ensures
        probe_targets(first).to_multiset() == probe_targets(second).to_multiset(),
{
    assert forall|route: RouteView|
        probe_targets(first).to_multiset().count(route) == probe_targets(
            second,
        ).to_multiset().count(route) by {
        lemma_selection_counts(first, route);
        lemma_selection_counts(second, route);
    }
    assert(probe_targets(first).to_multiset() =~= probe_targets(second).to_multiset());
}

} // verus!
