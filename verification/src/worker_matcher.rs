//! Routing to HTTP workers alone: a table from selectors to endpoints.

use crate::config::{declarations_view, Select, TaskWorker, TaskWorkerView};
use crate::data::DynamicTaskMessage;
use crate::endpoint::{parse_endpoint, parsed_url};
use crate::handler::HandlerView;
use crate::handler_repo::{matched, DeclarationFault, RegistryError, RouteView};
use vstd::prelude::*;

verus! {

/// One entry of the table.
#[derive(Debug)]
struct WorkerRoute {
    selector: Select,
    endpoint: String,
}

/// Finds the endpoint of the worker for a task.
#[derive(Debug)]
pub struct WorkerMatcher {
    matchers: Vec<WorkerRoute>,
}

/// The endpoint that a declaration names, in its normal form, or what is
/// wrong with the declaration: it names no endpoint, or one that is no URL.
pub open spec fn worker_endpoint(d: TaskWorkerView) -> Result<Seq<char>, DeclarationFault> {
    match d.endpoint {
        None => Err(DeclarationFault::NoTarget),
        Some(endpoint) => match parsed_url(endpoint) {
            Some(normal) => Ok(normal),
            None => Err(DeclarationFault::InvalidEndpoint),
        },
    }
}

/// Whether every declaration names an endpoint that is a URL.
pub open spec fn all_endpoints_parse(ds: Seq<TaskWorkerView>) -> bool {
    forall|i: int| 0 <= i < ds.len() ==> (#[trigger] worker_endpoint(ds[i])) is Ok
}

/// The table of the declarations: one entry for each, in order, that leads
/// to the endpoint in its normal form.
pub open spec fn worker_routes_of(ds: Seq<TaskWorkerView>) -> Seq<RouteView> {
    Seq::new(
        ds.len(),
        |i: int|
            RouteView {
                selector: ds[i].task_selector,
                handler: HandlerView::HttpEndpoint(worker_endpoint(ds[i])->Ok_0),
            },
    )
}

impl WorkerMatcher {
    /// The table, in the order of the declarations.
    pub closed spec fn routes(&self) -> Seq<RouteView> {
        Seq::new(
            self.matchers@.len(),
            |i: int|
                RouteView {
                    selector: self.matchers@[i].selector@,
                    handler: HandlerView::HttpEndpoint(self.matchers@[i].endpoint@),
                },
        )
    }

    /// The endpoint that a declaration names, or what is wrong with the
    /// declaration.
    pub fn endpoint_of(d: &TaskWorker) -> (r: Result<String, DeclarationFault>)
        ensures
            match r {
                Ok(normal) => worker_endpoint(d@) matches Ok(url) && url == normal@,
                Err(fault) => worker_endpoint(d@) matches Err(why) && why == fault,
            },
    {
        match &d.endpoint {
            None => Err(DeclarationFault::NoTarget),
            Some(text) => match parse_endpoint(text.as_str()) {
                Some(normal) => Ok(normal),
                None => Err(DeclarationFault::InvalidEndpoint),
            },
        }
    }

    /// Builds the table from the declarations, in their order. It fails at
    /// the first declaration that names no endpoint or one that is no URL.
    pub fn new(config: &[TaskWorker]) -> (r: Result<WorkerMatcher, RegistryError>)
        ensures
            match r {
                Ok(matcher) => {
                    &&& all_endpoints_parse(declarations_view(config@))
                    &&& matcher.routes() == worker_routes_of(declarations_view(config@))
                },
                Err(e) => {
                    &&& e.index < config@.len()
                    &&& worker_endpoint(config@[e.index as int]@) matches Err(why) && why
                        == e.fault
                    &&& forall|j: int|
                        0 <= j < e.index ==> (#[trigger] worker_endpoint(config@[j]@)) is Ok
                },
            },
    {
        let ghost ds = declarations_view(config@);
        let mut matchers: Vec<WorkerRoute> = Vec::new();
        let mut i: usize = 0;
        while i < config.len()
            invariant
                i <= config.len(),
                ds == declarations_view(config@),
                matchers.len() == i,
                forall|j: int| 0 <= j < i ==> (#[trigger] worker_endpoint(ds[j])) is Ok,
                forall|j: int|
                    0 <= j < i ==> {
                        &&& (#[trigger] matchers@[j]).selector@ == ds[j].task_selector
                        &&& matchers@[j].endpoint@ == worker_endpoint(ds[j])->Ok_0
                    },
            decreases config.len() - i,
        {
            let declaration = &config[i];
            let endpoint = match WorkerMatcher::endpoint_of(declaration) {
                Ok(normal) => normal,
                Err(fault) => {
                    assert forall|j: int| 0 <= j < i implies (#[trigger] worker_endpoint(
                        config@[j]@,
                    )) is Ok by {
                        assert(worker_endpoint(ds[j]) is Ok);
                    }
                    return Err(RegistryError { index: i, fault });
                },
            };
            matchers.push(WorkerRoute { selector: declaration.task_selector.clone(), endpoint });
            i += 1;
        }
        let matcher = WorkerMatcher { matchers };
        assert(matcher.routes() =~= worker_routes_of(ds));
        Ok(matcher)
    }

    /// The endpoint for a task: that of the first entry whose selector picks
    /// the task's type, or `None` where no entry does.
    pub fn match_worker(&self, msg: &DynamicTaskMessage) -> (r: Option<String>)
        ensures
            match r {
                Some(endpoint) => matched(self.routes(), msg@.task_type) == Some(
                    HandlerView::HttpEndpoint(endpoint@),
                ),
                None => matched(self.routes(), msg@.task_type) is None,
            },
    {
        let ghost routes = self.routes();
        assert(routes.skip(0) =~= routes);
        let mut i: usize = 0;
        while i < self.matchers.len()
            invariant
                i <= self.matchers.len(),
                routes == self.routes(),
                matched(routes, msg@.task_type) == matched(routes.skip(i as int), msg@.task_type),
            decreases self.matchers.len() - i,
        {
            let matcher = &self.matchers[i];
            proof {
                let rest = routes.skip(i as int);
                assert(rest.drop_first() =~= routes.skip(i + 1));
            }
            if matcher.selector.selects(&msg.task_type) {
                return Some(matcher.endpoint.clone());
            }
            i += 1;
        }
        None
    }
}

} // verus!
