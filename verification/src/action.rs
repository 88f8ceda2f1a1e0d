//! The action model: an immutable, right-leaning chain of executor actions.
//!
//! Every node carries a typed request and an optional successor. The model of
//! a chain is the sequence of its requests from head to tail, which is never
//! empty.

use vstd::prelude::*;
use crate::text::{clone_opt_text, opt_text};

verus! {

/// The role a script plays around a coding-agent run.
#[derive(Clone, Copy, Debug, PartialEq, Eq, Structural)]
pub enum ScriptContext {
    SetupScript,
    CleanupScript,
    ArchiveScript,
}

/// The interpreter a script is written for.
#[derive(Clone, Copy, Debug, PartialEq, Eq, Structural)]
pub enum ScriptRequestLanguage {
    Bash,
}

/// A request to run one user-supplied script.
#[derive(Debug)]
pub struct ScriptRequest {
    pub script: String,
    pub language: ScriptRequestLanguage,
    pub context: ScriptContext,
    pub working_dir: Option<String>,
}

/// Which coding agent to run, and in which variant.
#[derive(Debug)]
pub struct ExecutorConfig {
    pub executor: String,
    pub variant: Option<String>,
}

/// The first prompt of a coding agent in a workspace.
#[derive(Debug)]
pub struct CodingAgentInitialRequest {
    pub prompt: String,
    pub executor_config: ExecutorConfig,
    pub working_dir: Option<String>,
}

/// A further prompt within an agent session that already exists.
#[derive(Debug)]
pub struct CodingAgentFollowUpRequest {
    pub prompt: String,
    pub session_id: String,
    pub executor_config: ExecutorConfig,
    pub working_dir: Option<String>,
}

/// A request to review the work in a workspace.
#[derive(Debug)]
pub struct ReviewRequest {
    pub prompt: String,
    pub executor_config: ExecutorConfig,
    pub working_dir: Option<String>,
}

/// The typed request of one action node.
#[derive(Debug)]
pub enum ExecutorActionType {
    ScriptRequest(ScriptRequest),
    CodingAgentInitialRequest(CodingAgentInitialRequest),
    CodingAgentFollowUpRequest(CodingAgentFollowUpRequest),
    ReviewRequest(ReviewRequest),
}

/// One node of an action chain.
#[derive(Debug)]
pub struct ExecutorAction {
    pub typ: ExecutorActionType,
    pub next_action: Option<Box<ExecutorAction>>,
}

pub ghost struct ScriptRequestView {
    pub script: Seq<char>,
    pub language: ScriptRequestLanguage,
    pub context: ScriptContext,
    pub working_dir: Option<Seq<char>>,
}

pub ghost struct ExecutorConfigView {
    pub executor: Seq<char>,
    pub variant: Option<Seq<char>>,
}

pub ghost struct CodingAgentInitialRequestView {
    pub prompt: Seq<char>,
    pub executor_config: ExecutorConfigView,
    pub working_dir: Option<Seq<char>>,
}

pub ghost struct CodingAgentFollowUpRequestView {
    pub prompt: Seq<char>,
    pub session_id: Seq<char>,
    pub executor_config: ExecutorConfigView,
    pub working_dir: Option<Seq<char>>,
}

pub ghost struct ReviewRequestView {
    pub prompt: Seq<char>,
    pub executor_config: ExecutorConfigView,
    pub working_dir: Option<Seq<char>>,
}

pub ghost enum ExecutorActionTypeView {
    ScriptRequest(ScriptRequestView),
    CodingAgentInitialRequest(CodingAgentInitialRequestView),
    CodingAgentFollowUpRequest(CodingAgentFollowUpRequestView),
    ReviewRequest(ReviewRequestView),
}

impl ExecutorActionTypeView {
    /// Whether the request runs a script (as opposed to an agent or a review).
    pub open spec fn is_script(self) -> bool {
        self is ScriptRequest
    }

    /// The prompt the request carries; a script carries none.
    pub open spec fn prompt(self) -> Option<Seq<char>> {
        match self {
            ExecutorActionTypeView::ScriptRequest(_) => None,
            ExecutorActionTypeView::CodingAgentInitialRequest(r) => Some(r.prompt),
            ExecutorActionTypeView::CodingAgentFollowUpRequest(r) => Some(r.prompt),
            ExecutorActionTypeView::ReviewRequest(r) => Some(r.prompt),
        }
    }
}

impl View for ScriptRequest {
    type V = ScriptRequestView;

    open spec fn view(&self) -> ScriptRequestView {
        ScriptRequestView {
            script: self.script@,
            language: self.language,
            context: self.context,
            working_dir: opt_text(self.working_dir),
        }
    }
}

impl View for ExecutorConfig {
    type V = ExecutorConfigView;

    open spec fn view(&self) -> ExecutorConfigView {
        ExecutorConfigView { executor: self.executor@, variant: opt_text(self.variant) }
    }
}

impl View for CodingAgentInitialRequest {
    type V = CodingAgentInitialRequestView;

    open spec fn view(&self) -> CodingAgentInitialRequestView {
        CodingAgentInitialRequestView {
            prompt: self.prompt@,
            executor_config: self.executor_config@,
            working_dir: opt_text(self.working_dir),
        }
    }
}

impl View for CodingAgentFollowUpRequest {
    type V = CodingAgentFollowUpRequestView;

    open spec fn view(&self) -> CodingAgentFollowUpRequestView {
        CodingAgentFollowUpRequestView {
            prompt: self.prompt@,
            session_id: self.session_id@,
            executor_config: self.executor_config@,
            working_dir: opt_text(self.working_dir),
        }
    }
}

impl View for ReviewRequest {
    type V = ReviewRequestView;

    open spec fn view(&self) -> ReviewRequestView {
        ReviewRequestView {
            prompt: self.prompt@,
            executor_config: self.executor_config@,
            working_dir: opt_text(self.working_dir),
        }
    }
}

impl View for ExecutorActionType {
    type V = ExecutorActionTypeView;

    open spec fn view(&self) -> ExecutorActionTypeView {
        match self {
            ExecutorActionType::ScriptRequest(r) => ExecutorActionTypeView::ScriptRequest(r@),
            ExecutorActionType::CodingAgentInitialRequest(r) =>
                ExecutorActionTypeView::CodingAgentInitialRequest(r@),
            ExecutorActionType::CodingAgentFollowUpRequest(r) =>
                ExecutorActionTypeView::CodingAgentFollowUpRequest(r@),
            ExecutorActionType::ReviewRequest(r) => ExecutorActionTypeView::ReviewRequest(r@),
        }
    }
}

impl Clone for ScriptRequest {
    fn clone(&self) -> (copy: Self)
        ensures
            copy@ == self@,
    {
        ScriptRequest {
            script: self.script.clone(),
            language: self.language,
            context: self.context,
            working_dir: clone_opt_text(&self.working_dir),
        }
    }
}

impl Clone for ExecutorConfig {
    fn clone(&self) -> (copy: Self)
        ensures
            copy@ == self@,
    {
        ExecutorConfig {
            executor: self.executor.clone(),
            variant: clone_opt_text(&self.variant),
        }
    }
}

impl Clone for CodingAgentInitialRequest {
    fn clone(&self) -> (copy: Self)
        ensures
            copy@ == self@,
    {
        CodingAgentInitialRequest {
            prompt: self.prompt.clone(),
            executor_config: self.executor_config.clone(),
            working_dir: clone_opt_text(&self.working_dir),
        }
    }
}

impl Clone for CodingAgentFollowUpRequest {
    fn clone(&self) -> (copy: Self)
        ensures
            copy@ == self@,
    {
        CodingAgentFollowUpRequest {
            prompt: self.prompt.clone(),
            session_id: self.session_id.clone(),
            executor_config: self.executor_config.clone(),
            working_dir: clone_opt_text(&self.working_dir),
        }
    }
}

impl Clone for ReviewRequest {
    fn clone(&self) -> (copy: Self)
        ensures
            copy@ == self@,
    {
        ReviewRequest {
            prompt: self.prompt.clone(),
            executor_config: self.executor_config.clone(),
            working_dir: clone_opt_text(&self.working_dir),
        }
    }
}

impl Clone for ExecutorActionType {
    fn clone(&self) -> (copy: Self)
        ensures
            copy@ == self@,
    {
        match self {
            ExecutorActionType::ScriptRequest(r) => ExecutorActionType::ScriptRequest(r.clone()),
            ExecutorActionType::CodingAgentInitialRequest(r) =>
                ExecutorActionType::CodingAgentInitialRequest(r.clone()),
            ExecutorActionType::CodingAgentFollowUpRequest(r) =>
                ExecutorActionType::CodingAgentFollowUpRequest(r.clone()),
            ExecutorActionType::ReviewRequest(r) => ExecutorActionType::ReviewRequest(r.clone()),
        }
    }
}

impl ExecutorActionType {
    /// Whether the request runs a script.
    pub fn is_script(&self) -> (yes: bool)
        ensures
            yes == self@.is_script(),
    {
        match self {
            ExecutorActionType::ScriptRequest(_) => true,
            _ => false,
        }
    }

    /// The prompt of an agent or review request; `None` for a script.
    pub fn prompt(&self) -> (prompt: Option<String>)
        ensures
            opt_text(prompt) == self@.prompt(),
    {
        match self {
            ExecutorActionType::ScriptRequest(_) => None,
            ExecutorActionType::CodingAgentInitialRequest(r) => Some(r.prompt.clone()),
            ExecutorActionType::CodingAgentFollowUpRequest(r) => Some(r.prompt.clone()),
            ExecutorActionType::ReviewRequest(r) => Some(r.prompt.clone()),
        }
    }
}

impl View for ExecutorAction {
    type V = Seq<ExecutorActionTypeView>;

    /// The requests of the chain, head first.
    open spec fn view(&self) -> Seq<ExecutorActionTypeView> {
        self.chain()
    }
}

impl ExecutorAction {
    /// The requests of the chain that starts at this node, head first.
    pub open spec fn chain(&self) -> Seq<ExecutorActionTypeView>
        decreases self,
    {
        match self.next_action {
            None => seq![self.typ@],
            Some(next) => seq![self.typ@] + next.chain(),
        }
    }

    /// A chain holds at least its head.
    pub proof fn lemma_chain_nonempty(&self)
        ensures
            self@.len() >= 1,
            self@[0] == self.typ@,
            self.next_action is None <==> self@.len() == 1,
            self.next_action is Some ==> self.next_action.unwrap()@ == self@.drop_first(),
        decreases self,
    {
        match self.next_action {
            None => {},
            Some(next) => {
                next.lemma_chain_nonempty();
                assert((seq![self.typ@] + next.chain()).drop_first() =~= next.chain());
            },
        }
    }

    /// A node with the given request and successor.
    pub fn new(typ: ExecutorActionType, next_action: Option<Box<ExecutorAction>>) -> (action: Self)
        ensures
            action.typ == typ,
            action.next_action == next_action,
            action@ == (match next_action {
                None => seq![typ@],
                Some(next) => seq![typ@] + next@,
            }),
    {
        ExecutorAction { typ, next_action }
    }

    /// The request of this node.
    pub fn typ(&self) -> (typ: &ExecutorActionType)
        ensures
            *typ == self.typ,
            typ@ == self@[0],
    {
        proof {
            self.lemma_chain_nonempty();
        }
        &self.typ
    }

    /// The successor of this node, if the chain goes on.
    pub fn next_action(&self) -> (next: Option<&ExecutorAction>)
        ensures
            next is Some <==> self@.len() > 1,
            next is Some ==> next.unwrap()@ == self@.drop_first(),
            next is Some ==> self.next_action is Some && *next.unwrap() == *self.next_action.unwrap(),
    {
        proof {
            self.lemma_chain_nonempty();
        }
        match &self.next_action {
            Some(next) => Some(&**next),
            None => None,
        }
    }

    /// Attaches `child` behind the last node of the chain.
    pub fn append_action(self, child: ExecutorAction) -> (joined: ExecutorAction)
        ensures
            joined@ == self@ + child@,
        decreases self,
    {
        let ExecutorAction { typ, next_action } = self;
        match next_action {
            None => ExecutorAction { typ, next_action: Some(Box::new(child)) },
            Some(next) => {
                let rest = (*next).append_action(child);
                proof {
                    assert(seq![typ@] + (next@ + child@) =~= (seq![typ@] + next@) + child@);
                }
                ExecutorAction { typ, next_action: Some(Box::new(rest)) }
            },
        }
    }
}

impl Clone for ExecutorAction {
    fn clone(&self) -> (copy: Self)
        ensures
            copy@ == self@,
        decreases self,
    {
        let next_action = match &self.next_action {
            Some(next) => {
                let inner: ExecutorAction = (**next).clone();
                Some(Box::new(inner))
            },
            None => None,
        };
        ExecutorAction { typ: self.typ.clone(), next_action }
    }
}

} // verus!
