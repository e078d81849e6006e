//! A method of obtaining the underlying data of a scope.

use crate::text::{
    lemma_lex_asymmetric, lemma_lex_irreflexive, lemma_lex_total, lemma_lex_transitive, lex_lt,
    text_lt, trim_text, trimmed,
};
use vstd::prelude::*;

verus! {

/// A location (and optional label) from which the data behind a scope can be fetched.
#[derive(Clone, Debug, PartialEq, Eq, Hash, PartialOrd, Ord)]
pub struct AccessRoute {
    pub route: String,
    pub name: Option<String>,
}

/// The plain value of an access route: its route text and optional name text.
pub open spec fn route_view(r: AccessRoute) -> (Seq<char>, Option<Seq<char>>) {
    (r.route@, match r.name {
        Some(n) => Some(n@),
        None => None,
    })
}

impl AccessRoute {
    /// Builds a route with an optional name.
    pub fn new(route: &str, name: Option<&str>) -> (res: Self)
        ensures
            res.route@ == route@,
            res.name matches Some(n) ==> name matches Some(m) && n@ == m@,
            res.name is None <==> name is None,
    {
        let name = match name {
            Some(n) => Some(n.to_owned()),
            None => None,
        };
        AccessRoute { route: route.to_owned(), name }
    }

    /// Builds a route without a name.
    pub fn route_only(route: &str) -> (res: Self)
        ensures
            res.route@ == route@,
            res.name is None,
    {
        AccessRoute { route: route.to_owned(), name: None }
    }

    /// Builds a route with a name.
    pub fn route_and_name(route: &str, name: &str) -> (res: Self)
        ensures
            res.route@ == route@,
            res.name matches Some(n) && n@ == name@,
    {
        AccessRoute { route: route.to_owned(), name: Some(name.to_owned()) }
    }

    /// Removes the leading and trailing whitespace of the route and of the name.
    pub fn trim_values(self) -> (res: Self)
        ensures
            res.route@ == trimmed(self.route@),
            res.name is Some <==> self.name is Some,
            res.name matches Some(n) ==> n@ == trimmed(self.name->0@),
    {
        let name = match &self.name {
            Some(n) => Some(trim_text(n.as_str())),
            None => None,
        };
        AccessRoute { route: trim_text(self.route.as_str()), name }
    }
}

} // verus!

verus! {

/// The plain value of a route after trimming its route and name.
pub open spec fn trimmed_route(r: AccessRoute) -> (Seq<char>, Option<Seq<char>>) {
    (trimmed(r.route@), match r.name {
        Some(n) => Some(trimmed(n@)),
        None => None,
    })
}

/// The routes of `rs` that are kept as valid, in order: each trimmed, those with an empty route
/// dropped, and each later repeat of an earlier kept route dropped.
pub open spec fn valid_route_views(rs: Seq<AccessRoute>) -> Seq<(Seq<char>, Option<Seq<char>>)>
    decreases rs.len(),
{
    if rs.len() == 0 {
        Seq::empty()
    } else {
        let prev = valid_route_views(rs.drop_last());
        let v = trimmed_route(rs.last());
        if v.0.len() > 0 && !prev.contains(v) {
            prev.push(v)
        } else {
            prev
        }
    }
}

/// The plain values of a list of routes.
pub open spec fn routes_view(rs: Seq<AccessRoute>) -> Seq<(Seq<char>, Option<Seq<char>>)> {
    rs.map_values(|r: AccessRoute| route_view(r))
}

/// Whether two optional texts are equal.
pub fn opt_text_eq(a: &Option<String>, b: &Option<String>) -> (res: bool)
    ensures
        res == (match (a, b) {
            (Some(x), Some(y)) => x@ == y@,
            (None, None) => true,
            _ => false,
        }),
{
    match (a, b) {
        (Some(x), Some(y)) => crate::text::str_eq(x.as_str(), y.as_str()),
        (None, None) => true,
        _ => false,
    }
}

/// Whether two routes have the same route and name.
pub fn route_eq(a: &AccessRoute, b: &AccessRoute) -> (res: bool)
    ensures
        res == (route_view(*a) == route_view(*b)),
{
    crate::text::str_eq(a.route.as_str(), b.route.as_str()) && opt_text_eq(&a.name, &b.name)
}

/// Whether two lists hold the same routes in the same order.
pub fn same_routes(a: &Vec<AccessRoute>, b: &Vec<AccessRoute>) -> (res: bool)
    ensures
        res == (routes_view(a@) == routes_view(b@)),
{
    if a.len() != b.len() {
        assert(routes_view(a@).len() != routes_view(b@).len());
        return false;
    }
    let mut i: usize = 0;
    while i < a.len()
        invariant
            i <= a@.len(),
            a@.len() == b@.len(),
            forall|j: int| 0 <= j < i ==> route_view(#[trigger] a@[j]) == route_view(b@[j]),
        decreases a@.len() - i,
    {
        if !route_eq(&a[i], &b[i]) {
            assert(routes_view(a@)[i as int] != routes_view(b@)[i as int]);
            return false;
        }
        i = i + 1;
    }
    assert(routes_view(a@) =~= routes_view(b@));
    true
}

/// An owned copy of a route.
pub fn copy_route(r: &AccessRoute) -> (res: AccessRoute)
    ensures
        res == *r,
{
    AccessRoute { route: r.route.clone(), name: crate::text::copy_opt_string(&r.name) }
}

/// Whether `out` holds a route equal to `r`.
fn contains_route(out: &Vec<AccessRoute>, r: &AccessRoute) -> (res: bool)
    ensures
        res == routes_view(out@).contains(route_view(*r)),
{
    let mut i: usize = 0;
    while i < out.len()
        invariant
            i <= out@.len(),
            forall|j: int| 0 <= j < i ==> route_view(#[trigger] out@[j]) != route_view(*r),
        decreases out@.len() - i,
    {
        if route_eq(&out[i], r) {
            assert(routes_view(out@)[i as int] == route_view(*r));
            return true;
        }
        i = i + 1;
    }
    assert forall|j: int| 0 <= j < routes_view(out@).len() implies routes_view(out@)[j]
        != route_view(*r) by {
        assert(routes_view(out@)[j] == route_view(out@[j]));
    }
    false
}

/// Keeps the valid routes of `access_routes`: each is trimmed, routes left empty are dropped,
/// and a route equal (in route and name) to one already kept is dropped.
pub fn filter_valid_access_routes(access_routes: Vec<AccessRoute>) -> (res: Vec<AccessRoute>)
    ensures
        routes_view(res@) == valid_route_views(access_routes@),
{
    let mut out: Vec<AccessRoute> = Vec::new();
    let mut i: usize = 0;
    while i < access_routes.len()
        invariant
            i <= access_routes@.len(),
            routes_view(out@) == valid_route_views(access_routes@.subrange(0, i as int)),
        decreases access_routes@.len() - i,
    {
        let ghost prefix = access_routes@.subrange(0, i as int);
        let r = copy_route(&access_routes[i]).trim_values();
        assert(route_view(r) == trimmed_route(access_routes@[i as int]));
        let ghost next = access_routes@.subrange(0, i + 1);
        assert(next.drop_last() == prefix);
        assert(next.last() == access_routes@[i as int]);
        if r.route.as_str().is_empty() || contains_route(&out, &r) {
        } else {
            let ghost before = out@;
            out.push(r);
            assert(routes_view(out@) == routes_view(before).push(route_view(r)));
        }
        i = i + 1;
    }
    assert(access_routes@.subrange(0, access_routes@.len() as int) == access_routes@);
    out
}

/// The order of optional names: no name first, then names in code point order.
pub open spec fn opt_text_lt(a: Option<Seq<char>>, b: Option<Seq<char>>) -> bool {
    match (a, b) {
        (None, Some(_)) => true,
        (Some(x), Some(y)) => lex_lt(x, y),
        _ => false,
    }
}

/// The order of routes: by route text, then by name. This is the order `AccessRoute`'s derived
/// `Ord` gives, since `String` compares its UTF-8 bytes, which order as the code points do.
pub open spec fn route_lt(a: (Seq<char>, Option<Seq<char>>), b: (Seq<char>, Option<Seq<char>>)) -> bool {
    lex_lt(a.0, b.0) || (a.0 == b.0 && opt_text_lt(a.1, b.1))
}

/// Whether the routes of `vs` ascend strictly (so none occurs twice).
pub open spec fn routes_ascending(vs: Seq<(Seq<char>, Option<Seq<char>>)>) -> bool {
    forall|i: int, j: int| 0 <= i < j < vs.len() ==> route_lt(#[trigger] vs[i], #[trigger] vs[j])
}

/// The route order is irreflexive, asymmetric and transitive, and orders any two different routes.
pub proof fn lemma_route_order(
    a: (Seq<char>, Option<Seq<char>>),
    b: (Seq<char>, Option<Seq<char>>),
    c: (Seq<char>, Option<Seq<char>>),
)
    ensures
        !route_lt(a, a),
        route_lt(a, b) ==> !route_lt(b, a),
        route_lt(a, b) && route_lt(b, c) ==> route_lt(a, c),
        a != b ==> route_lt(a, b) || route_lt(b, a),
{
    lemma_lex_irreflexive(a.0);
    lemma_lex_asymmetric(a.0, b.0);
    lemma_lex_transitive(a.0, b.0, c.0);
    lemma_lex_total(a.0, b.0);
    match (a.1, b.1, c.1) {
        (Some(x), Some(y), Some(z)) => {
            lemma_lex_irreflexive(x);
            lemma_lex_asymmetric(x, y);
            lemma_lex_transitive(x, y, z);
            lemma_lex_total(x, y);
        },
        (Some(x), Some(y), None) => {
            lemma_lex_irreflexive(x);
            lemma_lex_asymmetric(x, y);
            lemma_lex_total(x, y);
        },
        (Some(x), None, _) => {
            lemma_lex_irreflexive(x);
        },
        _ => {},
    }
}

/// Whether route `a` comes before route `b`.
pub fn route_less(a: &AccessRoute, b: &AccessRoute) -> (res: bool)
    ensures
        res == route_lt(route_view(*a), route_view(*b)),
{
    if text_lt(a.route.as_str(), b.route.as_str()) {
        return true;
    }
    if !crate::text::str_eq(a.route.as_str(), b.route.as_str()) {
        return false;
    }
    match (&a.name, &b.name) {
        (None, Some(_)) => true,
        (Some(x), Some(y)) => text_lt(x.as_str(), y.as_str()),
        _ => false,
    }
}

/// Adds `r` to the ascending routes `out`, in its place, unless it is there already.
fn insert_route_sorted(out: &mut Vec<AccessRoute>, r: AccessRoute)
    requires
        routes_ascending(routes_view(old(out)@)),
    ensures
        routes_ascending(routes_view(final(out)@)),
        forall|x: (Seq<char>, Option<Seq<char>>)|
            routes_view(final(out)@).contains(x) <==> routes_view(old(out)@).contains(x) || x
                == route_view(r),
{
    let ghost before = routes_view(out@);
    let ghost rv = route_view(r);
    let mut i: usize = 0;
    while i < out.len()
        invariant
            i <= out@.len(),
            before == routes_view(out@),
            rv == route_view(r),
            routes_ascending(before),
            forall|j: int| 0 <= j < i ==> route_lt(#[trigger] before[j], rv),
        ensures
            i <= out@.len(),
            forall|j: int| 0 <= j < i ==> route_lt(#[trigger] before[j], rv),
            i < out@.len() ==> !route_lt(before[i as int], rv),
        decreases out@.len() - i,
    {
        assert(before[i as int] == route_view(out@[i as int]));
        if !route_less(&out[i], &r) {
            break;
        }
        i = i + 1;
    }
    if i < out.len() && route_eq(&out[i], &r) {
        assert(before[i as int] == rv);
        return;
    }
    proof {
        if i < before.len() {
            assert(before[i as int] == route_view(out@[i as int]));
            lemma_route_order(before[i as int], rv, rv);
            assert(route_lt(rv, before[i as int]));
        }
    }
    out.insert(i, r);
    let ghost after = routes_view(out@);
    assert(after =~= before.insert(i as int, rv));
    assert forall|a: int, b: int| 0 <= a < b < after.len() implies route_lt(
        #[trigger] after[a],
        #[trigger] after[b],
    ) by {
        if b < i {
        } else if b == i {
        } else if a < i {
            lemma_route_order(after[a], rv, after[b]);
            assert(route_lt(rv, before[i as int]));
            if b - 1 > i {
                assert(route_lt(before[i as int], before[b - 1]));
            }
            lemma_route_order(rv, before[i as int], before[b - 1]);
        } else if a == i {
            if b - 1 > i {
                assert(route_lt(before[i as int], before[b - 1]));
            }
            lemma_route_order(rv, before[i as int], before[b - 1]);
        } else {
        }
    }
    assert forall|x: (Seq<char>, Option<Seq<char>>)|
        after.contains(x) <==> before.contains(x) || x == rv by {
        if after.contains(x) {
            let k = choose|k: int| 0 <= k < after.len() && after[k] == x;
            if k < i {
                assert(before[k] == x);
            } else if k > i {
                assert(before[k - 1] == x);
            }
        }
        if before.contains(x) {
            let k = choose|k: int| 0 <= k < before.len() && before[k] == x;
            if k < i {
                assert(after[k] == x);
            } else {
                assert(after[k + 1] == x);
            }
        }
        if x == rv {
            assert(after[i as int] == x);
        }
    }
}

/// The routes of `first` and of `second`, each once, in ascending order.
pub fn merge_sorted_routes(first: &Vec<AccessRoute>, second: &Vec<AccessRoute>) -> (res: Vec<
    AccessRoute,
>)
    ensures
        routes_ascending(routes_view(res@)),
        forall|x: (Seq<char>, Option<Seq<char>>)|
            routes_view(res@).contains(x) <==> routes_view(first@).contains(x) || routes_view(
                second@,
            ).contains(x),
{
    let mut out: Vec<AccessRoute> = Vec::new();
    let mut i: usize = 0;
    while i < first.len()
        invariant
            i <= first@.len(),
            routes_ascending(routes_view(out@)),
            forall|x: (Seq<char>, Option<Seq<char>>)|
                routes_view(out@).contains(x) <==> exists|j: int|
                    0 <= j < i && route_view(#[trigger] first@[j]) == x,
        decreases first@.len() - i,
    {
        let ghost prior = routes_view(out@);
        insert_route_sorted(&mut out, copy_route(&first[i]));
        assert forall|x: (Seq<char>, Option<Seq<char>>)|
            routes_view(out@).contains(x) <==> exists|j: int|
                0 <= j < i + 1 && route_view(#[trigger] first@[j]) == x by {
            if x == route_view(first@[i as int]) {
            } else if prior.contains(x) {
            }
        }
        i = i + 1;
    }
    let mut k: usize = 0;
    while k < second.len()
        invariant
            k <= second@.len(),
            i == first@.len(),
            routes_ascending(routes_view(out@)),
            forall|x: (Seq<char>, Option<Seq<char>>)|
                routes_view(out@).contains(x) <==> (exists|j: int|
                    0 <= j < i && route_view(#[trigger] first@[j]) == x) || (exists|j: int|
                    0 <= j < k && route_view(#[trigger] second@[j]) == x),
        decreases second@.len() - k,
    {
        let ghost prior = routes_view(out@);
        insert_route_sorted(&mut out, copy_route(&second[k]));
        assert forall|x: (Seq<char>, Option<Seq<char>>)|
            routes_view(out@).contains(x) <==> (exists|j: int|
                0 <= j < i && route_view(#[trigger] first@[j]) == x) || (exists|j: int|
                0 <= j < k + 1 && route_view(#[trigger] second@[j]) == x) by {
            if x == route_view(second@[k as int]) {
            } else if prior.contains(x) {
            }
        }
        k = k + 1;
    }
    assert forall|x: (Seq<char>, Option<Seq<char>>)|
        routes_view(out@).contains(x) <==> routes_view(first@).contains(x) || routes_view(
            second@,
        ).contains(x) by {
        if exists|j: int| 0 <= j < first@.len() && route_view(#[trigger] first@[j]) == x {
            let j = choose|j: int| 0 <= j < first@.len() && route_view(#[trigger] first@[j]) == x;
            assert(routes_view(first@)[j] == x);
        }
        if routes_view(first@).contains(x) {
            let j = choose|j: int| 0 <= j < routes_view(first@).len() && routes_view(first@)[j] == x;
            assert(route_view(first@[j]) == x);
        }
        if exists|j: int| 0 <= j < second@.len() && route_view(#[trigger] second@[j]) == x {
            let j = choose|j: int| 0 <= j < second@.len() && route_view(#[trigger] second@[j]) == x;
            assert(routes_view(second@)[j] == x);
        }
        if routes_view(second@).contains(x) {
            let j = choose|j: int|
                0 <= j < routes_view(second@).len() && routes_view(second@)[j] == x;
            assert(route_view(second@[j]) == x);
        }
    }
    out
}

} // verus!
