//! The script handler: a task is handed to the entry point of a script,
//! which returns follow-on tasks as values of a host type.

use crate::data::{DynamicTaskMessage, TaskMessageView};
use crate::handler::{HandleResult, HandleResultView, HandlerError, WorkerResponse};
use crate::json::{lemma_object_view, members_view, written_json, Json, JsonView};
use vstd::prelude::*;

verus! {

/// A script handler, known by the path of its source.
#[derive(Debug, PartialEq)]
pub struct RuneScript {
    pub pipeline: String,
}

impl View for RuneScript {
    type V = Seq<char>;

    open spec fn view(&self) -> Seq<char> {
        self.pipeline@
    }
}

impl Clone for RuneScript {
    fn clone(&self) -> (r: RuneScript)
        ensures
            r@ == self@,
    {
        RuneScript { pipeline: self.pipeline.clone() }
    }
}

/// A follow-on task as a script builds it: a type and a map from names to
/// values, kept as the list of its entries.
#[derive(Debug, PartialEq)]
pub struct TrampolineTask {
    pub task_type: String,
    pub task: Vec<(String, Json)>,
}

/// The value of a [`TrampolineTask`].
pub struct TrampolineTaskView {
    pub task_type: Seq<char>,
    pub task: Seq<(Seq<char>, JsonView)>,
}

impl View for TrampolineTask {
    type V = TrampolineTaskView;

    open spec fn view(&self) -> TrampolineTaskView {
        TrampolineTaskView { task_type: self.task_type@, task: members_view(self.task@) }
    }
}

/// One run of a script: which script, which function of it, and the two
/// string arguments.
#[derive(Debug, PartialEq)]
pub struct ScriptRun {
    pub pipeline: String,
    pub function: String,
    pub task_type: String,
    pub task_json: String,
}

/// The value of a [`ScriptRun`].
pub struct ScriptRunView {
    pub pipeline: Seq<char>,
    pub function: Seq<char>,
    pub task_type: Seq<char>,
    pub task_json: Seq<char>,
}

impl View for ScriptRun {
    type V = ScriptRunView;

    open spec fn view(&self) -> ScriptRunView {
        ScriptRunView {
            pipeline: self.pipeline@,
            function: self.function@,
            task_type: self.task_type@,
            task_json: self.task_json@,
        }
    }
}

/// What a script is given to work with.
#[derive(Clone, Copy, Debug, PartialEq, Eq, Structural)]
pub enum Capability {
    /// The scripting language's own modules.
    Default,
    /// Making HTTP requests.
    Http,
    /// Reading and writing JSON.
    Json,
    /// Building follow-on tasks.
    Trampoline,
}

/// A field of a host type, as scripts see it.
#[derive(Debug, PartialEq)]
pub struct HostField {
    pub name: String,
    pub readable: bool,
    pub writable: bool,
}

/// A host type that a module makes known to scripts.
#[derive(Debug, PartialEq)]
pub struct HostType {
    pub name: String,
    /// Whether a script can build a value by naming the type and its fields.
    pub constructor: bool,
    pub fields: Vec<HostField>,
}

/// What a module makes known to scripts.
#[derive(Debug, PartialEq)]
pub struct HostModule {
    pub types: Vec<HostType>,
}

/// The value of a [`HostField`].
pub struct HostFieldView {
    pub name: Seq<char>,
    pub readable: bool,
    pub writable: bool,
}

/// The value of a [`HostType`].
pub struct HostTypeView {
    pub name: Seq<char>,
    pub constructor: bool,
    pub fields: Seq<HostFieldView>,
}

impl View for HostField {
    type V = HostFieldView;

    open spec fn view(&self) -> HostFieldView {
        HostFieldView { name: self.name@, readable: self.readable, writable: self.writable }
    }
}

impl View for HostType {
    type V = HostTypeView;

    open spec fn view(&self) -> HostTypeView {
        HostTypeView {
            name: self.name@,
            constructor: self.constructor,
            fields: Seq::new(self.fields@.len(), |i: int| self.fields@[i]@),
        }
    }
}

impl View for HostModule {
    type V = Seq<HostTypeView>;

    open spec fn view(&self) -> Seq<HostTypeView> {
        Seq::new(self.types@.len(), |i: int| self.types@[i]@)
    }
}

/// The name of the function that a script is entered at.
pub open spec fn entry_point() -> Seq<char> {
    "handle"@
}

/// The status that stands for a script that ran to its end.
pub open spec fn script_status() -> u16 {
    200
}

/// The host type of follow-on tasks: both fields can be read and set, and
/// the type can be constructed by name.
pub open spec fn trampoline_type() -> HostTypeView {
    HostTypeView {
        name: "TrampolineTask"@,
        constructor: true,
        fields: seq![
            HostFieldView { name: "type_name"@, readable: true, writable: true },
            HostFieldView { name: "task"@, readable: true, writable: true },
        ],
    }
}

/// The message that a script's task becomes: the same type, and the map as
/// a JSON object.
pub open spec fn message_of(t: TrampolineTaskView) -> TaskMessageView {
    TaskMessageView { task_type: t.task_type, task: JsonView::Object(t.task) }
}

/// The run of the script at `pipeline` on a type and a payload that is
/// written as text.
pub open spec fn run_for(pipeline: Seq<char>, task_type: Seq<char>, task_json: Seq<char>)
    -> ScriptRunView {
    ScriptRunView { pipeline, function: entry_point(), task_type, task_json }
}

/// The run that hands a task to the script at `pipeline`: the arguments are
/// the type and the payload as the writer writes it. There is no run where
/// the writer gives up on the payload.
pub open spec fn entry_for(pipeline: Seq<char>, task: TaskMessageView) -> Option<ScriptRunView> {
    match written_json(task.task) {
        Some(task_json) => Some(run_for(pipeline, task.task_type, task_json)),
        None => None,
    }
}

/// The outcome of a script that returned `tasks`.
pub open spec fn collected(tasks: Seq<TrampolineTaskView>) -> HandleResultView {
    HandleResultView::Continue {
        status: script_status(),
        tasks: Seq::new(tasks.len(), |i: int| message_of(tasks[i])),
    }
}

/// The views of a list of script tasks, in order.
pub open spec fn script_tasks_view(tasks: Seq<TrampolineTask>) -> Seq<TrampolineTaskView> {
    Seq::new(tasks.len(), |i: int| tasks[i]@)
}

impl RuneScript {
    /// What every script is given, in the order in which it is installed.
    pub fn capabilities() -> (r: Vec<Capability>)
        ensures
            r@ == seq![
                Capability::Default,
                Capability::Http,
                Capability::Json,
                Capability::Trampoline,
            ],
    {
        let mut r: Vec<Capability> = Vec::new();
        r.push(Capability::Default);
        r.push(Capability::Http);
        r.push(Capability::Json);
        r.push(Capability::Trampoline);
        r
    }

    /// The module that scripts get follow-on tasks from: it holds the one
    /// host type [`trampoline_type`].
    pub fn trampoline_module() -> (r: HostModule)
        ensures
            r@ == seq![trampoline_type()],
    {
        let mut fields: Vec<HostField> = Vec::new();
        fields.push(HostField { name: "type_name".to_owned(), readable: true, writable: true });
        fields.push(HostField { name: "task".to_owned(), readable: true, writable: true });
        let host_type = HostType { name: "TrampolineTask".to_owned(), constructor: true, fields };
        assert(host_type@.fields =~= trampoline_type().fields);
        let mut types: Vec<HostType> = Vec::new();
        types.push(host_type);
        HostModule { types }
    }

    /// The run of the script on a type and a payload that is already
    /// written as text.
    pub fn run(&self, task_type: String, task_json: String) -> (r: ScriptRun)
        ensures
            r@ == run_for(self@, task_type@, task_json@),
    {
        ScriptRun {
            pipeline: self.pipeline.clone(),
            function: "handle".to_owned(),
            task_type,
            task_json,
        }
    }

    /// The run that hands a task to the script: the arguments are the type
    /// and the payload, written as JSON text. There is a run for every task
    /// whose payload the writer writes, and an error for no other.
    pub fn entry(&self, task: &DynamicTaskMessage) -> (r: Result<ScriptRun, HandlerError>)
        ensures
            match r {
                Ok(run) => entry_for(self@, task@) == Some(run@),
                Err(e) => e == HandlerError::Encode && entry_for(self@, task@) is None,
            },
    {
        match task.task.print() {
            Some(task_json) => Ok(self.run(task.task_type.clone(), task_json)),
            None => Err(HandlerError::Encode),
        }
    }

    /// The message that a script's task becomes.
    pub fn to_message(t: TrampolineTask) -> (r: DynamicTaskMessage)
        ensures
            r@ == message_of(t@),
    {
        proof {
            lemma_object_view(t.task);
        }
        DynamicTaskMessage { task_type: t.task_type, task: Json::Object(t.task) }
    }

    /// The outcome of a run that returned `tasks`.
    pub fn collect(tasks: Vec<TrampolineTask>) -> (r: HandleResult)
        ensures
            r@ == collected(script_tasks_view(tasks@)),
    {
        let ghost given = script_tasks_view(tasks@);
        let ghost all = tasks@;
        let mut messages: Vec<DynamicTaskMessage> = Vec::new();
        for t in it: tasks
            invariant
                it.seq() == all,
                given == script_tasks_view(all),
                messages.len() == it.index(),
                forall|k: int|
                    0 <= k < messages.len() ==> (#[trigger] messages@[k])@ == message_of(given[k]),
        {
            messages.push(RuneScript::to_message(t));
        }
        let response = WorkerResponse { tasks: messages };
        assert(response@ =~= Seq::new(given.len(), |i: int| message_of(given[i])));
        HandleResult::Continue { status: 200, response }
    }
}

} // verus!
