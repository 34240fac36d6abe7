//! The handler registry: the routing table that is built once from the
//! handler declarations and read for every task.
//!
//! A task goes to the handler of the first declaration, in the order the
//! declarations were written, whose selector picks it. Declarations that
//! name the same endpoint or the same script share one handler.

use crate::config::{declarations_view, Select, SelectView, TaskWorker, TaskWorkerView};
use crate::data::DynamicTaskMessage;
use crate::endpoint::{is_endpoint, parse_endpoint, parsed_url};
use crate::handler::{Handler, HandlerView};
use crate::script::RuneScript;
use crate::worker::Worker;
use vstd::prelude::*;

verus! {

/// What is wrong with a handler declaration.
#[derive(Clone, Copy, Debug, PartialEq, Eq, Structural)]
pub enum DeclarationFault {
    /// It names neither an endpoint nor a script.
    NoTarget,
    /// It names both an endpoint and a script.
    TwoTargets,
    /// Its endpoint is no absolute URL.
    InvalidEndpoint,
}

/// The first declaration that cannot be used, and why.
#[derive(Clone, Copy, Debug, PartialEq, Eq, Structural)]
pub struct RegistryError {
    /// The position of the declaration, counted from 0.
    pub index: usize,
    pub fault: DeclarationFault,
}

/// One entry of the routing table: a selector and the handler it leads to.
#[derive(Debug, PartialEq)]
pub struct Route {
    pub selector: Select,
    pub handler: Handler,
}

/// The value of a [`Route`].
pub struct RouteView {
    pub selector: SelectView,
    pub handler: HandlerView,
}

impl View for Route {
    type V = RouteView;

    open spec fn view(&self) -> RouteView {
        RouteView { selector: self.selector@, handler: self.handler@ }
    }
}

/// The views of a list of entries, in order.
pub open spec fn routes_view(routes: Seq<Route>) -> Seq<RouteView> {
    Seq::new(routes.len(), |i: int| routes[i]@)
}

/// The handlers that the entries of a table lead to, one for each entry.
pub open spec fn handlers_of(routes: Seq<RouteView>) -> Seq<HandlerView> {
    Seq::new(routes.len(), |i: int| routes[i].handler)
}

/// The handler that a declaration names. A declaration names exactly one
/// target; an endpoint must be a URL and is kept in its normal form.
pub open spec fn resolved(d: TaskWorkerView) -> Result<HandlerView, DeclarationFault> {
    match (d.endpoint, d.pipeline) {
        (Some(endpoint), None) => match parsed_url(endpoint) {
            Some(normal) => Ok(HandlerView::HttpEndpoint(normal)),
            None => Err(DeclarationFault::InvalidEndpoint),
        },
        (None, Some(pipeline)) => Ok(HandlerView::Script(pipeline)),
        (None, None) => Err(DeclarationFault::NoTarget),
        (Some(_), Some(_)) => Err(DeclarationFault::TwoTargets),
    }
}

/// Whether every declaration names a handler.
pub open spec fn all_resolve(ds: Seq<TaskWorkerView>) -> bool {
    forall|i: int| 0 <= i < ds.len() ==> (#[trigger] resolved(ds[i])) is Ok
}

/// The routing table of the declarations: one entry for each, in order.
pub open spec fn routes_of(ds: Seq<TaskWorkerView>) -> Seq<RouteView> {
    Seq::new(
        ds.len(),
        |i: int| RouteView { selector: ds[i].task_selector, handler: resolved(ds[i])->Ok_0 },
    )
}

/// The handlers of a list without repetition, each where it first occurs.
pub open spec fn distinct(handlers: Seq<HandlerView>) -> Seq<HandlerView>
    decreases handlers.len(),
{
    if handlers.len() == 0 {
        Seq::empty()
    } else {
        let before = distinct(handlers.drop_last());
        if before.contains(handlers.last()) {
            before
        } else {
            before.push(handlers.last())
        }
    }
}

/// The handler that a routing table gives for a task type: that of the
/// first entry whose selector picks the type.
pub open spec fn matched(routes: Seq<RouteView>, task_type: Seq<char>) -> Option<HandlerView>
    decreases routes.len(),
{
    if routes.len() == 0 {
        None
    } else if routes.first().selector.selects(task_type) {
        Some(routes.first().handler)
    } else {
        matched(routes.drop_first(), task_type)
    }
}

/// An entry wins over every later one: where entry `i` picks the type and
/// no earlier entry does, the table gives the handler of entry `i`.
pub proof fn lemma_earliest_entry_wins(routes: Seq<RouteView>, task_type: Seq<char>, i: int)
    requires
        0 <= i < routes.len(),
        routes[i].selector.selects(task_type),
        forall|j: int| 0 <= j < i ==> !routes[j].selector.selects(task_type),
    ensures
        matched(routes, task_type) == Some(routes[i].handler),
    decreases i,
{
    if i > 0 {
        let rest = routes.drop_first();
        assert forall|j: int| 0 <= j < i - 1 implies !rest[j].selector.selects(task_type) by {
            assert(rest[j] == routes[j + 1]);
        }
        lemma_earliest_entry_wins(rest, task_type, i - 1);
    }
}

/// A type that no entry picks has no handler.
pub proof fn lemma_unrouted(routes: Seq<RouteView>, task_type: Seq<char>)
    requires
        forall|j: int| 0 <= j < routes.len() ==> !routes[j].selector.selects(task_type),
    ensures
        matched(routes, task_type) is None,
    decreases routes.len(),
{
    if routes.len() > 0 {
        let rest = routes.drop_first();
        assert forall|j: int| 0 <= j < rest.len() implies !rest[j].selector.selects(task_type) by {
            assert(rest[j] == routes[j + 1]);
        }
        lemma_unrouted(rest, task_type);
    }
}

/// A handler that the table gives is that of one of its entries, and the
/// entry picks the type.
pub proof fn lemma_matched_is_an_entry(routes: Seq<RouteView>, task_type: Seq<char>)
    requires
        matched(routes, task_type) is Some,
    ensures
        exists|i: int|
            0 <= i < routes.len() && (#[trigger] routes[i]).selector.selects(task_type)
                && matched(routes, task_type) == Some(routes[i].handler),
    decreases routes.len(),
{
    if routes.first().selector.selects(task_type) {
        assert(routes[0].selector.selects(task_type));
    } else {
        let rest = routes.drop_first();
        lemma_matched_is_an_entry(rest, task_type);
        let i = choose|i: int|
            0 <= i < rest.len() && (#[trigger] rest[i]).selector.selects(task_type) && matched(
                rest,
                task_type,
            ) == Some(rest[i].handler);
        assert(rest[i] == routes[i + 1]);
    }
}

/// Routing goes by the order of the declarations: where declaration `i`
/// selects a type and no earlier declaration does, a task of that type goes
/// to the handler that declaration `i` names, whatever later declarations
/// say.
pub proof fn lemma_earliest_declaration_wins(
    ds: Seq<TaskWorkerView>,
    task_type: Seq<char>,
    i: int,
)
    requires
        0 <= i < ds.len(),
        ds[i].task_selector.selects(task_type),
        forall|j: int| 0 <= j < i ==> !ds[j].task_selector.selects(task_type),
    ensures
        matched(routes_of(ds), task_type) == Some(resolved(ds[i])->Ok_0),
{
    lemma_earliest_entry_wins(routes_of(ds), task_type, i);
}

/// A type that no declaration selects has no handler.
pub proof fn lemma_undeclared_type_is_unrouted(ds: Seq<TaskWorkerView>, task_type: Seq<char>)
    requires
        forall|j: int| 0 <= j < ds.len() ==> !ds[j].task_selector.selects(task_type),
    ensures
        matched(routes_of(ds), task_type) is None,
{
    lemma_unrouted(routes_of(ds), task_type);
}

/// No handler occurs twice among the distinct ones, and they are the
/// handlers of the list.
pub proof fn lemma_distinct(handlers: Seq<HandlerView>)
    ensures
        distinct(handlers).no_duplicates(),
        forall|h: HandlerView| distinct(handlers).contains(h) <==> handlers.contains(h),
    decreases handlers.len(),
{
    if handlers.len() > 0 {
        let init = handlers.drop_last();
        let last = handlers.last();
        lemma_distinct(init);
        let before = distinct(init);
        assert forall|h: HandlerView| distinct(handlers).contains(h) <==> handlers.contains(
            h,
        ) by {
            assert(before.contains(h) <==> init.contains(h));
            if handlers.contains(h) {
                let k = choose|k: int| 0 <= k < handlers.len() && handlers[k] == h;
                if k < handlers.len() - 1 {
                    assert(init[k] == h);
                    if !before.contains(last) {
                        let at = choose|at: int| 0 <= at < before.len() && before[at] == h;
                        assert(before.push(last)[at] == h);
                    }
                } else if !before.contains(last) {
                    assert(before.push(last)[before.len() as int] == last);
                }
            }
            if distinct(handlers).contains(h) && before.contains(h) {
                let k = choose|k: int| 0 <= k < init.len() && init[k] == h;
                assert(handlers[k] == h);
            }
        }
    }
}

/// Every endpoint in a registry is a URL in its normal form.
pub proof fn lemma_endpoints_are_urls(ds: Seq<TaskWorkerView>, i: int)
    requires
        all_resolve(ds),
        0 <= i < ds.len(),
    ensures
        handlers_of(routes_of(ds))[i] matches HandlerView::HttpEndpoint(url) ==> is_endpoint(url),
{
    assert(resolved(ds[i]) is Ok);
}

/// One entry of the table as it is kept: the selector, and where the
/// handler stands among the distinct ones.
#[derive(Debug)]
struct Matcher {
    selector: Select,
    handler: usize,
}

/// The handler registry.
#[derive(Debug)]
pub struct HandlerRepo {
    handlers: Vec<Handler>,
    matchers: Vec<Matcher>,
}

impl HandlerRepo {
    /// Every entry of the table leads to one of the handlers, and the
    /// handlers are those that the entries lead to: each one once, where the
    /// table first leads to it.
    #[verifier::type_invariant]
    spec fn inv(&self) -> bool {
        &&& forall|i: int|
            0 <= i < self.matchers@.len() ==> (#[trigger] self.matchers@[i]).handler
                < self.handlers@.len()
        &&& self.keys() == distinct(handlers_of(self.routes()))
    }

    /// The routing table, in the order of the declarations.
    pub closed spec fn routes(&self) -> Seq<RouteView> {
        Seq::new(
            self.matchers@.len(),
            |i: int|
                RouteView {
                    selector: self.matchers@[i].selector@,
                    handler: self.handlers@[self.matchers@[i].handler as int]@,
                },
        )
    }

    /// The handlers of the registry.
    pub closed spec fn keys(&self) -> Seq<HandlerView> {
        Seq::new(self.handlers@.len(), |i: int| self.handlers@[i]@)
    }

    /// Where among `handlers` the handler `key` stands, if it is there.
    fn position(handlers: &Vec<Handler>, key: &Handler) -> (r: Option<usize>)
        ensures
            match r {
                Some(at) => at < handlers.len() && handlers@[at as int]@ == key@,
                None => forall|k: int| 0 <= k < handlers.len() ==> handlers@[k]@ != key@,
            },
    {
        let mut k: usize = 0;
        while k < handlers.len()
            invariant
                k <= handlers.len(),
                forall|j: int| 0 <= j < k ==> handlers@[j]@ != key@,
            decreases handlers.len() - k,
        {
            if handlers[k].same(key) {
                return Some(k);
            }
            k += 1;
        }
        None
    }

    /// The handler that a declaration names, or what is wrong with the
    /// declaration.
    pub fn resolve(d: &TaskWorker) -> (r: Result<Handler, DeclarationFault>)
        ensures
            match r {
                Ok(h) => resolved(d@) matches Ok(key) && key == h@,
                Err(fault) => resolved(d@) matches Err(why) && why == fault,
            },
    {
        match (&d.endpoint, &d.pipeline) {
            (Some(endpoint), None) => match parse_endpoint(endpoint.as_str()) {
                Some(normal) => Ok(Handler::HttpEndpoint(Worker { endpoint: normal })),
                None => Err(DeclarationFault::InvalidEndpoint),
            },
            (None, Some(pipeline)) => Ok(
                Handler::Script(RuneScript { pipeline: pipeline.clone() }),
            ),
            (None, None) => Err(DeclarationFault::NoTarget),
            (Some(_), Some(_)) => Err(DeclarationFault::TwoTargets),
        }
    }

    /// Builds the registry from the entries of the routing table, in their
    /// order. Entries that lead to the same handler share it.
    pub fn with_routes(routes: Vec<Route>) -> (r: HandlerRepo)
        ensures
            r.routes() == routes_view(routes@),
            r.keys() == distinct(handlers_of(routes_view(routes@))),
    {
        let ghost all = routes@;
        let ghost given = routes_view(routes@);
        let mut handlers: Vec<Handler> = Vec::new();
        let mut matchers: Vec<Matcher> = Vec::new();
        for route in it: routes
            invariant
                it.seq() == all,
                given == routes_view(all),
                matchers.len() == it.index(),
                forall|j: int|
                    0 <= j < matchers.len() ==> {
                        &&& (#[trigger] matchers@[j]).handler < handlers.len()
                        &&& matchers@[j].selector@ == given[j].selector
                        &&& handlers@[matchers@[j].handler as int]@ == given[j].handler
                    },
                Seq::new(handlers@.len(), |k: int| handlers@[k]@) == distinct(
                    handlers_of(given).take(it.index() as int),
                ),
        {
            let ghost i = it.index() as int;
            let Route { selector, handler } = route;
            let ghost before = Seq::new(handlers@.len(), |k: int| handlers@[k]@);
            proof {
                let upto = handlers_of(given).take(i + 1);
                assert(upto.drop_last() =~= handlers_of(given).take(i));
            }
            let slot: usize = match HandlerRepo::position(&handlers, &handler) {
                Some(at) => {
                    assert(before[at as int] == handler@);
                    at
                },
                None => {
                    handlers.push(handler);
                    handlers.len() - 1
                },
            };
            matchers.push(Matcher { selector, handler: slot });
        }
        proof {
            assert(handlers_of(given).take(given.len() as int) =~= handlers_of(given));
            let table = Seq::new(
                matchers@.len(),
                |i: int|
                    RouteView {
                        selector: matchers@[i].selector@,
                        handler: handlers@[matchers@[i].handler as int]@,
                    },
            );
            assert(table =~= given);
        }
        HandlerRepo { handlers, matchers }
    }

    /// Builds the registry from the declarations, in their order. It fails
    /// at the first declaration that names no handler.
    pub fn new(config: &[TaskWorker]) -> (r: Result<HandlerRepo, RegistryError>)
        ensures
            match r {
                Ok(repo) => {
                    &&& all_resolve(declarations_view(config@))
                    &&& repo.routes() == routes_of(declarations_view(config@))
                    &&& repo.keys() == distinct(
                        handlers_of(routes_of(declarations_view(config@))),
                    )
                },
                Err(e) => {
                    &&& e.index < config@.len()
                    &&& resolved(config@[e.index as int]@) matches Err(why) && why == e.fault
                    &&& forall|j: int| 0 <= j < e.index ==> (#[trigger] resolved(config@[j]@)) is Ok
                },
            },
    {
        let ghost ds = declarations_view(config@);
        let mut routes: Vec<Route> = Vec::new();
        let mut i: usize = 0;
        while i < config.len()
            invariant
                i <= config.len(),
                ds == declarations_view(config@),
                routes.len() == i,
                forall|j: int| 0 <= j < i ==> (#[trigger] resolved(ds[j])) is Ok,
                forall|j: int| 0 <= j < i ==> (#[trigger] routes@[j])@ == routes_of(ds)[j],
            decreases config.len() - i,
        {
            let declaration = &config[i];
            let handler = match HandlerRepo::resolve(declaration) {
                Ok(handler) => handler,
                Err(fault) => {
                    assert forall|j: int| 0 <= j < i implies (#[trigger] resolved(
                        config@[j]@,
                    )) is Ok by {
                        assert(resolved(ds[j]) is Ok);
                    }
                    return Err(RegistryError { index: i, fault });
                },
            };
            routes.push(Route { selector: declaration.task_selector.clone(), handler });
            i += 1;
        }
        Ok(HandlerRepo::with_routes(routes))
    }

    /// The handler for a task: that of the first entry of the routing table
    /// whose selector picks the task's type, or `None` where no entry does.
    pub fn match_handler(&self, msg: &DynamicTaskMessage) -> (r: Option<&Handler>)
        ensures
            match r {
                Some(h) => matched(self.routes(), msg@.task_type) == Some(h@),
                None => matched(self.routes(), msg@.task_type) is None,
            },
    {
        proof {
            use_type_invariant(self);
        }
        let ghost routes = self.routes();
        assert(routes.skip(0) =~= routes);
        let mut i: usize = 0;
        while i < self.matchers.len()
            invariant
                i <= self.matchers.len(),
                routes == self.routes(),
                forall|j: int|
                    0 <= j < self.matchers@.len() ==> (#[trigger] self.matchers@[j]).handler
                        < self.handlers@.len(),
                matched(routes, msg@.task_type) == matched(routes.skip(i as int), msg@.task_type),
            decreases self.matchers.len() - i,
        {
            let matcher = &self.matchers[i];
            proof {
                let rest = routes.skip(i as int);
                assert(rest.drop_first() =~= routes.skip(i + 1));
            }
            if matcher.selector.selects(&msg.task_type) {
                return Some(&self.handlers[matcher.handler]);
            }
            i += 1;
        }
        None
    }

    /// The handlers of the registry: those that the entries of the table
    /// lead to, each one once, in the order in which the table first leads
    /// to them.
    pub fn handlers(&self) -> (r: &Vec<Handler>)
        ensures
            Seq::new(r@.len(), |i: int| r@[i]@) == self.keys(),
            self.keys() == distinct(handlers_of(self.routes())),
            self.keys().no_duplicates(),
    {
        proof {
            use_type_invariant(self);
            lemma_distinct(handlers_of(self.routes()));
        }
        &self.handlers
    }
}

} // verus!
