//! The dispatcher's declarative input: the broker to talk to, the topics to
//! consume, and the handler declarations in the order they were written.

use vstd::prelude::*;

verus! {

/// Selects the tasks a handler is responsible for: those of one type.
#[derive(Debug, PartialEq)]
pub struct Select {
    pub task_type: String,
}

/// One handler declaration: a selector and the target it names, an HTTP
/// endpoint or the path of a script.
#[derive(Debug, PartialEq)]
pub struct TaskWorker {
    pub task_selector: Select,
    pub endpoint: Option<String>,
    pub pipeline: Option<String>,
}

/// Broker settings.
#[derive(Debug, PartialEq)]
pub struct Mq {
    pub url: String,
    pub topics: Vec<String>,
}

/// The whole configuration.
#[derive(Debug, PartialEq)]
pub struct Config {
    pub mq: Mq,
    pub handlers: Vec<TaskWorker>,
}

/// The value of a [`Select`].
pub struct SelectView {
    pub task_type: Seq<char>,
}

/// The value of a [`TaskWorker`].
pub struct TaskWorkerView {
    pub task_selector: SelectView,
    pub endpoint: Option<Seq<char>>,
    pub pipeline: Option<Seq<char>>,
}

/// The value of a [`Mq`].
pub struct MqView {
    pub url: Seq<char>,
    pub topics: Seq<Seq<char>>,
}

/// The value of a [`Config`].
pub struct ConfigView {
    pub mq: MqView,
    pub handlers: Seq<TaskWorkerView>,
}

/// The text of an optional string.
pub open spec fn text_of(s: Option<String>) -> Option<Seq<char>> {
    match s {
        Some(s) => Some(s@),
        None => None,
    }
}

/// The views of a list of declarations, in order.
pub open spec fn declarations_view(declarations: Seq<TaskWorker>) -> Seq<TaskWorkerView> {
    Seq::new(declarations.len(), |i: int| declarations[i]@)
}

impl View for Select {
    type V = SelectView;

    open spec fn view(&self) -> SelectView {
        SelectView { task_type: self.task_type@ }
    }
}

impl View for TaskWorker {
    type V = TaskWorkerView;

    open spec fn view(&self) -> TaskWorkerView {
        TaskWorkerView {
            task_selector: self.task_selector@,
            endpoint: text_of(self.endpoint),
            pipeline: text_of(self.pipeline),
        }
    }
}

impl View for Mq {
    type V = MqView;

    open spec fn view(&self) -> MqView {
        MqView {
            url: self.url@,
            topics: Seq::new(self.topics@.len(), |i: int| self.topics@[i]@),
        }
    }
}

impl View for Config {
    type V = ConfigView;

    open spec fn view(&self) -> ConfigView {
        ConfigView { mq: self.mq@, handlers: declarations_view(self.handlers@) }
    }
}

/// A copy of an optional string.
fn clone_text(s: &Option<String>) -> (r: Option<String>)
    ensures
        text_of(r) == text_of(*s),
{
    match s {
        Some(s) => Some(s.clone()),
        None => None,
    }
}

impl Clone for Select {
    fn clone(&self) -> (r: Select)
        ensures
            r@ == self@,
    {
        Select { task_type: self.task_type.clone() }
    }
}

impl Clone for TaskWorker {
    fn clone(&self) -> (r: TaskWorker)
        ensures
            r@ == self@,
    {
        TaskWorker {
            task_selector: self.task_selector.clone(),
            endpoint: clone_text(&self.endpoint),
            pipeline: clone_text(&self.pipeline),
        }
    }
}

impl Clone for Mq {
    fn clone(&self) -> (r: Mq)
        ensures
            r@ == self@,
    {
        let mut topics: Vec<String> = Vec::new();
        let mut i: usize = 0;
        while i < self.topics.len()
            invariant
                i <= self.topics.len(),
                topics.len() == i,
                forall|k: int| 0 <= k < i ==> topics@[k]@ == self.topics@[k]@,
            decreases self.topics.len() - i,
        {
            topics.push(self.topics[i].clone());
            i += 1;
        }
        let r = Mq { url: self.url.clone(), topics };
        assert(r@.topics =~= self@.topics);
        r
    }
}

impl Clone for Config {
    fn clone(&self) -> (r: Config)
        ensures
            r@ == self@,
    {
        let mut handlers: Vec<TaskWorker> = Vec::new();
        let mut i: usize = 0;
        while i < self.handlers.len()
            invariant
                i <= self.handlers.len(),
                handlers.len() == i,
                forall|k: int| 0 <= k < i ==> handlers@[k]@ == self.handlers@[k]@,
            decreases self.handlers.len() - i,
        {
            handlers.push(self.handlers[i].clone());
            i += 1;
        }
        let r = Config { mq: self.mq.clone(), handlers };
        assert(r@.handlers =~= self@.handlers);
        r
    }
}

/// Why a configuration cannot be started from.
#[derive(Clone, Copy, Debug, PartialEq, Eq, Structural)]
pub enum ConfigError {
    /// `mq.topics` names no topic.
    NoTopics,
}

impl SelectView {
    /// Whether the selector picks tasks of the given type.
    pub open spec fn selects(self, task_type: Seq<char>) -> bool {
        self.task_type == task_type
    }
}

impl Select {
    /// Whether the selector picks tasks of the given type.
    pub fn selects(&self, task_type: &String) -> (r: bool)
        ensures
            r == self@.selects(task_type@),
    {
        self.task_type == *task_type
    }
}

impl Config {
    /// Checks what must hold before the broker is contacted: there is at
    /// least one topic to consume.
    pub fn validate(&self) -> (r: Result<(), ConfigError>)
        ensures
            r == if self@.mq.topics.len() == 0 {
                Err::<(), ConfigError>(ConfigError::NoTopics)
            } else {
                Ok(())
            },
    {
        if self.mq.topics.len() == 0 {
            Err(ConfigError::NoTopics)
        } else {
            Ok(())
        }
    }
}

} // verus!
