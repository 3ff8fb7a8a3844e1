//! The route table and the handlers it holds.
pub mod handler;
pub mod method_router;

use vstd::prelude::*;
use vstd::hash_map::StringHashMap;
use vstd::string::StringExecFns;
use crate::http::method::Method;
use crate::http::request::Request;
use crate::http::request::RequestView;
use crate::http::response::plain;
use crate::http::response::Response;
use crate::http::response::ResponseView;
use crate::http::status::StatusCode;
use crate::http::status::NOT_FOUND;
use crate::middleware::Identity;
use crate::middleware::Middleware;
use crate::middleware::Service;
use crate::router::method_router::Route;

verus! {

/// The key of a route: the name of a method and a path. Keys are compared
/// for exact equality; no pattern is involved.
pub type RouteKey = (Seq<char>, Seq<char>);

/// The key under which a request is looked up: its method and its path.
pub open spec fn key_for(request: RequestView) -> RouteKey {
    (request.head.method, request.head.path)
}

/// Whether `response` is what a table answers to `request`: an answer of
/// the route under the request's method and path, or, where the table has no
/// such route, the 404 response without header fields and with an empty body.
pub open spec fn dispatches(
    table: Map<RouteKey, Route>,
    request: RequestView,
    response: ResponseView,
) -> bool {
    let key = key_for(request);
    if table.contains_key(key) {
        table[key].handles(request, response)
    } else {
        response == plain(NOT_FOUND, Seq::empty())
    }
}

/// The routes of one method, by path.
struct MethodTable {
    method: Method,
    paths: StringHashMap<Route>,
}

/// The route table: at most one route for each key. The routes of a method
/// are kept by path in a hash map, so a lookup is one hash lookup once the
/// method has been found among the few that have routes.
pub struct InnerRouter {
    tables: Vec<MethodTable>,
    keys: Vec<(Method, String)>,
}

/// The key that a method and a path stand for.
pub open spec fn key_of(entry: (Method, String)) -> RouteKey {
    (entry.0@, entry.1@)
}

/// The keys that a list of methods and paths stands for, in its order.
pub open spec fn keys_view(keys: Seq<(Method, String)>) -> Seq<RouteKey> {
    keys.map_values(|entry: (Method, String)| key_of(entry))
}

/// The line that the listing of a table has for `key`.
pub open spec fn line_of(key: RouteKey) -> Seq<char> {
    "method: "@ + key.0 + ",path: "@ + key.1 + "\n"@
}

/// The listing of `keys`: the line of each, in turn.
pub open spec fn lines_of(keys: Seq<RouteKey>) -> Seq<char>
    decreases keys.len(),
{
    if keys.len() == 0 {
        Seq::empty()
    } else {
        lines_of(keys.drop_last()) + line_of(keys.last())
    }
}

/// The order of keys after `key` has been put into a table with the keys
/// `order`: a key that the table has keeps its place, a new one goes to the
/// end.
pub open spec fn order_with(
    table: Map<RouteKey, Route>,
    order: Seq<RouteKey>,
    key: RouteKey,
) -> Seq<RouteKey> {
    if table.contains_key(key) {
        order
    } else {
        order.push(key)
    }
}

/// Whether `keys` lists the keys of `table`: each of them once, and nothing
/// else.
pub open spec fn lists(keys: Seq<(Method, String)>, table: Map<RouteKey, Route>) -> bool {
    &&& forall|i: int| 0 <= i < keys.len() ==> table.contains_key(#[trigger] key_of(keys[i]))
    &&& forall|key: RouteKey| #[trigger]
        table.contains_key(key) ==> exists|i: int| 0 <= i < keys.len() && key_of(keys[i]) == key
    &&& forall|i: int, j: int|
        0 <= i < j < keys.len() ==> #[trigger] key_of(keys[i]) != #[trigger] key_of(keys[j])
}

/// Whether `i` is the place of the routes of the method named `name`.
spec fn holds_method(tables: Seq<MethodTable>, name: Seq<char>, i: int) -> bool {
    0 <= i < tables.len() && tables[i].method@ == name
}

/// Whether `i` is the place of a route for `key`.
spec fn holds_key(tables: Seq<MethodTable>, key: RouteKey, i: int) -> bool {
    holds_method(tables, key.0, i) && tables[i].paths@.contains_key(key.1)
}

/// The table that `tables` stand for.
spec fn table_of(tables: Seq<MethodTable>) -> Map<RouteKey, Route> {
    Map::new(
        |key: RouteKey| exists|i: int| holds_key(tables, key, i),
        |key: RouteKey| tables[choose|i: int| holds_key(tables, key, i)].paths@[key.1],
    )
}

/// No method has two places, and every route may be called.
spec fn well_formed(tables: Seq<MethodTable>) -> bool {
    &&& forall|i: int, j: int|
        0 <= i < tables.len() && 0 <= j < tables.len() && tables[i].method@ == tables[j].method@
            ==> i == j
    &&& forall|i: int, path: Seq<char>|
        0 <= i < tables.len() && #[trigger] tables[i].paths@.contains_key(path)
            ==> tables[i].paths@[path].total()
}

/// In a well-formed table a key has one place, so the route at any place
/// that holds the key is the route of the key.
proof fn lemma_lookup(tables: Seq<MethodTable>, key: RouteKey, i: int)
    requires
        well_formed(tables),
        holds_key(tables, key, i),
    ensures
        table_of(tables).contains_key(key),
        table_of(tables)[key] == tables[i].paths@[key.1],
{
    let j = choose|j: int| holds_key(tables, key, j);
    assert(holds_key(tables, key, j));
    assert(i == j);
}

/// Whether `after` is `before` with `entry` put under `key` at the place `i`:
/// either the place existed and its paths got the entry, or it is new, at
/// the end, and holds the entry alone.
spec fn put_at(
    before: Seq<MethodTable>,
    after: Seq<MethodTable>,
    key: RouteKey,
    entry: Route,
    i: int,
) -> bool {
    &&& 0 <= i <= before.len()
    &&& after.len() == (if i < before.len() {
        before.len()
    } else {
        before.len() + 1
    })
    &&& forall|j: int| 0 <= j < before.len() && j != i ==> after[j] == before[j]
    &&& after[i].method@ == key.0
    &&& if i < before.len() {
        &&& before[i].method@ == key.0
        &&& after[i].paths@ == before[i].paths@.insert(key.1, entry)
    } else {
        &&& forall|j: int| !holds_method(before, key.0, j)
        &&& after[i].paths@ == Map::<Seq<char>, Route>::empty().insert(key.1, entry)
    }
}

/// Putting an entry keeps the table well formed and changes it at the one
/// key.
proof fn lemma_put(
    before: Seq<MethodTable>,
    after: Seq<MethodTable>,
    key: RouteKey,
    entry: Route,
    i: int,
)
    requires
        well_formed(before),
        entry.total(),
        put_at(before, after, key, entry, i),
    ensures
        well_formed(after),
        table_of(after) == table_of(before).insert(key, entry),
{
    assert forall|a: int, b: int|
        0 <= a < after.len() && 0 <= b < after.len() && after[a].method@
            == after[b].method@ implies a == b by {
        if a != i && b != i {
            assert(after[a] == before[a] && after[b] == before[b]);
        } else if a != i {
            assert(after[a] == before[a]);
            assert(holds_method(before, key.0, a));
        } else if b != i {
            assert(after[b] == before[b]);
            assert(holds_method(before, key.0, b));
        }
    }
    assert forall|a: int, path: Seq<char>|
        0 <= a < after.len() && #[trigger] after[a].paths@.contains_key(
            path,
        ) implies after[a].paths@[path].total() by {
        if a != i {
            assert(after[a] == before[a]);
        } else if path != key.1 && i < before.len() {
            assert(before[i].paths@.contains_key(path));
        }
    }
    assert(holds_key(after, key, i));
    lemma_lookup(after, key, i);
    let expected = table_of(before).insert(key, entry);
    assert forall|k: RouteKey| #[trigger] table_of(after).dom().contains(k) implies expected.dom().contains(
        k,
    ) && expected[k] == table_of(after)[k] by {
        let a = choose|a: int| holds_key(after, k, a);
        assert(holds_key(after, k, a));
        lemma_lookup(after, k, a);
        if k != key {
            if a != i {
                assert(after[a] == before[a]);
                assert(holds_key(before, k, a));
            } else {
                assert(k.0 == key.0);
                assert(k.1 != key.1);
                assert(i < before.len());
                assert(before[i].paths@.contains_key(k.1));
                assert(holds_key(before, k, a));
            }
            lemma_lookup(before, k, a);
        }
    }
    assert forall|k: RouteKey| #[trigger] expected.dom().contains(k) implies table_of(after).dom().contains(
        k,
    ) by {
        if k != key {
            let a = choose|a: int| holds_key(before, k, a);
            assert(holds_key(before, k, a));
            if a != i {
                assert(after[a] == before[a]);
            }
            assert(holds_key(after, k, a));
        }
    }
    assert(table_of(after) =~= expected);
}

impl InnerRouter {
    #[verifier::type_invariant]
    spec fn inv(self) -> bool {
        well_formed(self.tables@) && lists(self.keys@, table_of(self.tables@))
    }

    /// The table as a map from keys to routes.
    pub closed spec fn table(&self) -> Map<RouteKey, Route> {
        table_of(self.tables@)
    }

    /// The keys of the table, each of them once, in the order in which they
    /// were first put.
    pub closed spec fn order(&self) -> Seq<RouteKey> {
        keys_view(self.keys@)
    }

    /// A table without routes.
    pub fn new() -> (router: InnerRouter)
        ensures
            router.table() == Map::<RouteKey, Route>::empty(),
            router.order() == Seq::<RouteKey>::empty(),
    {
        let router = InnerRouter { tables: Vec::new(), keys: Vec::new() };
        assert(router.table() =~= Map::<RouteKey, Route>::empty());
        assert(router.order() =~= Seq::<RouteKey>::empty());
        router
    }

    /// The place of the routes of `method`, or the number of places.
    fn find(&self, method: &Method) -> (i: usize)
        ensures
            i <= self.tables@.len(),
            i < self.tables@.len() ==> self.tables@[i as int].method@ == method@,
            i == self.tables@.len() ==> forall|j: int| !holds_method(self.tables@, method@, j),
    {
        let mut i: usize = 0;
        while i < self.tables.len()
            invariant
                i <= self.tables@.len(),
                forall|j: int| 0 <= j < i ==> self.tables@[j].method@ != method@,
            decreases self.tables@.len() - i,
        {
            if self.tables[i].method == *method {
                return i;
            }
            i += 1;
        }
        i
    }

    /// The table with `route` under the key `(method, path)`.
    fn with_route(self, path: &str, route: (Route, Method)) -> (router: InnerRouter)
        requires
            route.0.total(),
        ensures
            router.table() == self.table().insert((route.1@, path@), route.0),
            router.order() == order_with(self.table(), self.order(), (route.1@, path@)),
    {
        proof {
            use_type_invariant(&self);
        }
        let (entry, method) = route;
        let i = self.find(&method);
        let InnerRouter { mut tables, mut keys } = self;
        let ghost before = tables@;
        let ghost key = (method@, path@);
        let present = i < tables.len() && tables[i].paths.contains_key(path);
        proof {
            if present {
                assert(holds_key(before, key, i as int));
            } else {
                assert forall|j: int| !holds_key(before, key, j) by {
                    if holds_key(before, key, j) {
                        assert(holds_method(before, key.0, j));
                        assert(j == i);
                    }
                }
            }
            assert(present == table_of(before).contains_key(key));
        }
        let ghost listed = keys@;
        if !present {
            keys.push((method.clone(), path.to_owned()));
            proof {
                assert(key_of(keys@[listed.len() as int]) == key);
                assert(forall|j: int| 0 <= j < listed.len() ==> keys@[j] == listed[j]);
                assert(keys_view(keys@) =~= keys_view(listed).push(key));
            }
        }
        if i < tables.len() {
            tables[i].paths.insert(path.to_owned(), entry);
            proof {
                assert(tables@.len() == before.len());
                assert(tables@[i as int].method == before[i as int].method);
                assert(tables@[i as int].paths@ == before[i as int].paths@.insert(path@, entry));
                assert(forall|j: int| 0 <= j < before.len() && j != i ==> tables@[j] == before[j]);
                lemma_put(before, tables@, key, entry, i as int);
            }
        } else {
            let mut paths = StringHashMap::new();
            paths.insert(path.to_owned(), entry);
            tables.push(MethodTable { method, paths });
            proof {
                assert(tables@[i as int].paths@ =~= Map::<Seq<char>, Route>::empty().insert(
                    path@,
                    entry,
                ));
                lemma_put(before, tables@, key, entry, i as int);
            }
        }
        proof {
            let table = table_of(tables@);
            assert(table == table_of(before).insert(key, entry));
            assert forall|k: RouteKey| #[trigger] table.contains_key(k) implies exists|j: int|
                0 <= j < keys@.len() && key_of(keys@[j]) == k by {
                if k == key {
                    if present {
                        assert(table_of(before).contains_key(k));
                    } else {
                        assert(key_of(keys@[keys@.len() - 1]) == k);
                    }
                } else {
                    assert(table_of(before).contains_key(k));
                }
            }
        }
        InnerRouter { tables, keys }
    }

    /// The keys of the table, each of them once, in the order in which they
    /// were first put.
    pub fn routes(&self) -> (keys: Vec<(Method, String)>)
        ensures
            keys_view(keys@) == self.order(),
            lists(keys@, self.table()),
    {
        proof {
            use_type_invariant(self);
        }
        let mut keys: Vec<(Method, String)> = Vec::new();
        let mut i: usize = 0;
        while i < self.keys.len()
            invariant
                i <= self.keys.len(),
                keys@.len() == i,
                forall|j: int| 0 <= j < i ==> keys@[j] == self.keys@[j],
            decreases self.keys.len() - i,
        {
            keys.push((self.keys[i].0.clone(), self.keys[i].1.clone()));
            i += 1;
        }
        assert(keys@ =~= self.keys@);
        keys
    }

    /// The listing of the table: for each key, in the order in which the
    /// keys were first put, a line that names its method and its path.
    pub fn listing(&self) -> (text: String)
        ensures
            text@ == lines_of(self.order()),
    {
        let ghost order = self.order();
        let mut text = String::new();
        let mut i: usize = 0;
        assert(order.take(0) =~= Seq::<RouteKey>::empty());
        while i < self.keys.len()
            invariant
                i <= self.keys.len(),
                order == keys_view(self.keys@),
                text@ == lines_of(order.take(i as int)),
            decreases self.keys.len() - i,
        {
            let ghost before = text@;
            let ghost key = order[i as int];
            assert(key == key_of(self.keys@[i as int]));
            text.append("method: ");
            text.append(self.keys[i].0.as_str());
            text.append(",path: ");
            text.append(self.keys[i].1.as_str());
            text.append("\n");
            proof {
                assert(order.take(i + 1).drop_last() =~= order.take(i as int));
                assert(order.take(i + 1).last() == key);
                assert(text@ =~= before + line_of(key));
            }
            i += 1;
        }
        assert(order.take(i as int) =~= order);
        text
    }

    /// Puts `route` under the key `(method, path)`. A route that was there
    /// before is replaced and the key keeps its place; a new key goes to the
    /// end of the order.
    pub fn route(&mut self, path: &str, route: (Route, Method))
        requires
            route.0.total(),
        ensures
            final(self).table() == old(self).table().insert((route.1@, path@), route.0),
            final(self).order() == order_with(
                old(self).table(),
                old(self).order(),
                (route.1@, path@),
            ),
    {
        let mut taken = InnerRouter::new();
        std::mem::swap(self, &mut taken);
        *self = taken.with_route(path, route);
    }

    /// Answers `request`: with the answer of the route under its method and
    /// path if there is one, with an empty 404 response otherwise.
    pub fn handle_request(&self, request: Request) -> (response: Response)
        ensures
            dispatches(self.table(), request@, response@),
    {
        proof {
            use_type_invariant(self);
        }
        let ghost key = key_for(request@);
        let i = self.find(request.method());
        if i < self.tables.len() {
            match self.tables[i].paths.get(request.path()) {
                Some(route) => {
                    proof {
                        assert(holds_key(self.tables@, key, i as int));
                        lemma_lookup(self.tables@, key, i as int);
                    }
                    return route.0.call(request);
                },
                None => {
                    assert forall|j: int| !holds_key(self.tables@, key, j) by {
                        if holds_key(self.tables@, key, j) {
                            assert(j == i);
                        }
                    }
                },
            }
        } else {
            assert forall|j: int| !holds_key(self.tables@, key, j) by {
                assert(!holds_method(self.tables@, key.0, j));
            }
        }
        Response::empty(StatusCode::not_found())
    }
}

/// The router: a route table that is built by chained calls of `route` and
/// then answers requests. It has one owner while it is built; afterwards it
/// is only read, and can be shared by reference.
pub struct Router {
    router: InnerRouter,
}

impl Router {
    /// The table as a map from keys to routes.
    pub closed spec fn table(&self) -> Map<RouteKey, Route> {
        self.router.table()
    }

    /// The keys of the table, each of them once, in the order in which they
    /// were first put.
    pub closed spec fn order(&self) -> Seq<RouteKey> {
        self.router.order()
    }

    /// A router without routes.
    pub fn new() -> (router: Router)
        ensures
            router.table() == Map::<RouteKey, Route>::empty(),
            router.order() == Seq::<RouteKey>::empty(),
    {
        Router { router: InnerRouter::new() }
    }

    /// The router with `route` under the key `(method, path)`. A route that
    /// was there before is replaced and the key keeps its place; a new key
    /// goes to the end of the order.
    pub fn route(self, path: &str, route: (Route, Method)) -> (router: Router)
        requires
            route.0.total(),
        ensures
            router.table() == self.table().insert((route.1@, path@), route.0),
            router.order() == order_with(self.table(), self.order(), (route.1@, path@)),
    {
        let Router { router } = self;
        Router { router: router.with_route(path, route) }
    }

    /// A decorator stack that holds `layer` alone, around this router.
    pub fn layer<L>(self, layer: L) -> (middleware: Middleware<L>)
        ensures
            middleware.layers() == layer,
            middleware.base() == self,
    {
        Middleware::with_layer(layer, self)
    }

    /// An empty decorator stack around this router.
    pub fn middleware(self) -> (middleware: Middleware<Identity>)
        ensures
            middleware.layers() == Identity,
            middleware.base() == self,
    {
        Middleware::new(self)
    }

    /// The router as the service it is.
    pub fn service(self) -> (service: Router)
        ensures
            service == self,
    {
        self
    }

    /// The keys of the table, each of them once, in the order in which they
    /// were first put.
    pub fn routes(&self) -> (keys: Vec<(Method, String)>)
        ensures
            keys_view(keys@) == self.order(),
            lists(keys@, self.table()),
    {
        self.router.routes()
    }

    /// The listing of the table: for each key, in the order in which the
    /// keys were first put, a line that names its method and its path.
    pub fn listing(&self) -> (text: String)
        ensures
            text@ == lines_of(self.order()),
    {
        self.router.listing()
    }

    /// Answers `request`: with the answer of the route under its method and
    /// path if there is one, with an empty 404 response otherwise.
    pub fn dispatch(&self, request: Request) -> (response: Response)
        ensures
            dispatches(self.table(), request@, response@),
    {
        self.router.handle_request(request)
    }
}

impl Default for Router {
    fn default() -> (router: Router)
        ensures
            router.table() == Map::<RouteKey, Route>::empty(),
            router.order() == Seq::<RouteKey>::empty(),
    {
        Router::new()
    }
}

/// A router serves by dispatching, and does not change.
impl Service for Router {
    open spec fn serves(&self, request: RequestView, after: Self, response: ResponseView) -> bool {
        after == *self && dispatches(self.table(), request, response)
    }

    fn call(&mut self, request: Request) -> (response: Response) {
        self.dispatch(request)
    }
}

/// A request whose method and path are those of a registered route is
/// answered by that route and by no other: the answers of the table are
/// exactly the answers of the route.
pub proof fn lemma_registered_route_answers(
    table: Map<RouteKey, Route>,
    key: RouteKey,
    route: Route,
    request: RequestView,
    response: ResponseView,
)
    requires
        key_for(request) == key,
    ensures
        dispatches(table.insert(key, route), request, response) <==> route.handles(
            request,
            response,
        ),
{
}

/// A request whose method and path have no route is answered with the 404
/// response that has no header fields and an empty body, whatever its method
/// is, and with nothing else.
pub proof fn lemma_unregistered_is_not_found(
    table: Map<RouteKey, Route>,
    request: RequestView,
    response: ResponseView,
)
    requires
        !table.contains_key(key_for(request)),
    ensures
        dispatches(table, request, response) <==> response == plain(NOT_FOUND, Seq::empty()),
{
}

/// A route that is registered under the key of another takes its place:
/// the table is the one in which only the later route was registered.
pub proof fn lemma_last_registration_wins(
    table: Map<RouteKey, Route>,
    key: RouteKey,
    earlier: Route,
    later: Route,
)
    ensures
        table.insert(key, earlier).insert(key, later) == table.insert(key, later),
        forall|request: RequestView, response: ResponseView|
            key_for(request) == key ==> (#[trigger] dispatches(
                table.insert(key, earlier).insert(key, later),
                request,
                response,
            ) <==> later.handles(request, response)),
{
    assert(table.insert(key, earlier).insert(key, later) =~= table.insert(key, later));
}

/// A route that is registered under one key changes no answer to a request
/// with another key.
pub proof fn lemma_other_keys_are_untouched(
    table: Map<RouteKey, Route>,
    key: RouteKey,
    route: Route,
    request: RequestView,
    response: ResponseView,
)
    requires
        key_for(request) != key,
    ensures
        dispatches(table.insert(key, route), request, response) <==> dispatches(
            table,
            request,
            response,
        ),
{
}

} // verus!
