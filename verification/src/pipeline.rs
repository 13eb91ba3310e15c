//! The stage-by-stage pipeline that collects the commit-message fields.
//!
//! The pipeline owns the two option lists and the answers gathered so far,
//! and decides, stage by stage, what to ask next. The front end performs
//! each returned action against the terminal, the editor or the
//! version-control lookup, and hands the outcome back as an event. A
//! cancelled menu aborts the run; a failed text prompt, confirmation or
//! editor call ends it with the question that failed; the answered run
//! delivers the assembled record.

use vstd::prelude::*;

verus! {

use crate::budget::budget_fits;
use crate::budget::compute_budget;
use crate::budget::spec_budget;
use crate::longdesc::strip_comment_lines;
use crate::longdesc::strip_comments_spec;

/// The record the pipeline delivers: the five collected fields, and a
/// breaking-changes field that is always empty here, reserved for the
/// caller to fill.
pub struct Inputs {
    pub change_type: String,
    pub scope: String,
    pub description: String,
    pub long_description: String,
    pub breaking_changes: String,
    pub ticket: String,
}

/// The question whose terminal interaction failed, for the caller's
/// error report.
pub enum ErrKind {
    TypeSelectPrompt,
    ScopeSelectPrompt,
    DescriptionPrompt,
    LongConfirmPrompt,
    EditorCall,
    TicketPrompt,
}

/// Where the pipeline stands, with the answers gathered so far.
pub enum Stage {
    SelectType,
    SelectScope { type_idx: usize },
    AskDescription { type_idx: usize, scope_idx: usize },
    ConfirmLong { type_idx: usize, scope_idx: usize, description: String },
    EditLong { type_idx: usize, scope_idx: usize, description: String },
    AskTicket { type_idx: usize, scope_idx: usize, description: String, long_description: String },
    Done,
    Aborted,
    Failed { kind: ErrKind },
}

/// What the front end reports back from one prompt or call.
pub enum Event {
    Selected { index: usize },
    SelectionCancelled,
    SelectionFailed,
    DescriptionEntered { text: String },
    DescriptionFailed,
    LongWanted { yes: bool },
    LongConfirmFailed,
    Edited { text: String },
    EditorFailed,
    TicketEntered { text: String },
    TicketFailed,
}

/// What the front end is to do next.
pub enum Action {
    PromptType,
    PromptScope,
    PromptDescription { budget: usize },
    PromptLongConfirm,
    OpenEditor,
    PromptTicket,
    Abort,
    Fail { kind: ErrKind },
    Deliver { inputs: Inputs },
}

/// The pipeline state: the two option lists and the current stage.
pub struct Pipeline {
    change_types: Vec<String>,
    scopes: Vec<String>,
    stage: Stage,
}

impl Pipeline {
    /// The change-type labels.
    pub closed spec fn types(self) -> Seq<Seq<char>> {
        self.change_types.deep_view()
    }

    /// The scope labels.
    pub closed spec fn scope_names(self) -> Seq<Seq<char>> {
        self.scopes.deep_view()
    }

    /// The current stage.
    pub closed spec fn stage(self) -> Stage {
        self.stage
    }

    /// Indices stored in the stage point into the option lists.
    pub open spec fn stage_wf(self) -> bool {
        match self.stage() {
            Stage::SelectType => true,
            Stage::SelectScope { type_idx } => type_idx < self.types().len(),
            Stage::AskDescription { type_idx, scope_idx } => type_idx < self.types().len()
                && scope_idx < self.scope_names().len(),
            Stage::ConfirmLong { type_idx, scope_idx, .. } => type_idx < self.types().len()
                && scope_idx < self.scope_names().len(),
            Stage::EditLong { type_idx, scope_idx, .. } => type_idx < self.types().len()
                && scope_idx < self.scope_names().len(),
            Stage::AskTicket { type_idx, scope_idx, .. } => type_idx < self.types().len()
                && scope_idx < self.scope_names().len(),
            Stage::Done => true,
            Stage::Aborted => true,
            Stage::Failed { .. } => true,
        }
    }

    /// Non-empty option lists and a well-formed stage.
    pub open spec fn wf(self) -> bool {
        self.types().len() > 0 && self.scope_names().len() > 0 && self.stage_wf()
    }

    /// Which events the current stage takes. A selection index must point
    /// into the list on offer, and a chosen scope must leave a computable,
    /// non-negative budget. The finished, aborted and failed stages take
    /// no further event.
    pub open spec fn event_allowed(self, ev: Event) -> bool {
        match (self.stage(), ev) {
            (Stage::SelectType, Event::Selected { index }) => index < self.types().len(),
            (Stage::SelectType, Event::SelectionCancelled) => true,
            (Stage::SelectType, Event::SelectionFailed) => true,
            (Stage::SelectScope { type_idx }, Event::Selected { index }) => index
                < self.scope_names().len() && budget_fits(
                self.types()[type_idx as int],
                self.scope_names()[index as int],
                index as int,
            ),
            (Stage::SelectScope { .. }, Event::SelectionCancelled) => true,
            (Stage::SelectScope { .. }, Event::SelectionFailed) => true,
            (Stage::AskDescription { .. }, Event::DescriptionEntered { .. }) => true,
            (Stage::AskDescription { .. }, Event::DescriptionFailed) => true,
            (Stage::ConfirmLong { .. }, Event::LongWanted { .. }) => true,
            (Stage::ConfirmLong { .. }, Event::LongConfirmFailed) => true,
            (Stage::EditLong { .. }, Event::Edited { .. }) => true,
            (Stage::EditLong { .. }, Event::EditorFailed) => true,
            (Stage::AskTicket { .. }, Event::TicketEntered { .. }) => true,
            (Stage::AskTicket { .. }, Event::TicketFailed) => true,
            _ => false,
        }
    }

    /// The transition table: what one step does to the stage and which
    /// action it hands the front end, for every allowed event.
    pub open spec fn transition(pre: Pipeline, ev: Event, post: Pipeline, action: Action) -> bool {
        match (pre.stage(), ev) {
            (Stage::SelectType, Event::Selected { index }) => (post.stage() matches
                Stage::SelectScope { type_idx } && type_idx == index) && action is PromptScope,
            (Stage::SelectType, Event::SelectionCancelled) => post.stage() is Aborted
                && action is Abort,
            (Stage::SelectType, Event::SelectionFailed) => (post.stage() matches Stage::Failed {
                kind,
            } && kind is TypeSelectPrompt) && (action matches Action::Fail { kind }
                && kind is TypeSelectPrompt),
            (Stage::SelectScope { type_idx: t }, Event::Selected { index }) => (post.stage()
                matches Stage::AskDescription { type_idx, scope_idx } && type_idx == t && scope_idx
                == index) && (action matches Action::PromptDescription { budget } && budget
                == spec_budget(pre.types()[t as int], pre.scope_names()[index as int], index as int)),
            (Stage::SelectScope { .. }, Event::SelectionCancelled) => post.stage() is Aborted
                && action is Abort,
            (Stage::SelectScope { .. }, Event::SelectionFailed) => (post.stage() matches
                Stage::Failed { kind } && kind is ScopeSelectPrompt) && (action matches
                Action::Fail { kind } && kind is ScopeSelectPrompt),
            (Stage::AskDescription { type_idx: t, scope_idx: s }, Event::DescriptionEntered {
                text,
            }) => (post.stage() matches Stage::ConfirmLong { type_idx, scope_idx, description }
                && type_idx == t && scope_idx == s && description@ == text@)
                && action is PromptLongConfirm,
            (Stage::AskDescription { .. }, Event::DescriptionFailed) => (post.stage() matches
                Stage::Failed { kind } && kind is DescriptionPrompt) && (action matches
                Action::Fail { kind } && kind is DescriptionPrompt),
            (Stage::ConfirmLong { type_idx: t, scope_idx: s, description: d }, Event::LongWanted {
                yes,
            }) => if yes {
                (post.stage() matches Stage::EditLong { type_idx, scope_idx, description }
                    && type_idx == t && scope_idx == s && description@ == d@)
                    && action is OpenEditor
            } else {
                (post.stage() matches Stage::AskTicket {
                    type_idx,
                    scope_idx,
                    description,
                    long_description,
                } && type_idx == t && scope_idx == s && description@ == d@
                    && long_description@ == Seq::<char>::empty()) && action is PromptTicket
            },
            (Stage::ConfirmLong { .. }, Event::LongConfirmFailed) => (post.stage() matches
                Stage::Failed { kind } && kind is LongConfirmPrompt) && (action matches
                Action::Fail { kind } && kind is LongConfirmPrompt),
            (Stage::EditLong { type_idx: t, scope_idx: s, description: d }, Event::Edited {
                text,
            }) => (post.stage() matches Stage::AskTicket {
                type_idx,
                scope_idx,
                description,
                long_description,
            } && type_idx == t && scope_idx == s && description@ == d@
                && long_description@ == strip_comments_spec(text@)) && action is PromptTicket,
            (Stage::EditLong { .. }, Event::EditorFailed) => (post.stage() matches Stage::Failed {
                kind,
            } && kind is EditorCall) && (action matches Action::Fail { kind }
                && kind is EditorCall),
            (
                Stage::AskTicket { type_idx: t, scope_idx: s, description: d, long_description: l },
                Event::TicketEntered { text },
            ) => post.stage() is Done && (action matches Action::Deliver { inputs }
                && inputs.change_type@ == pre.types()[t as int] && inputs.scope@
                == pre.scope_names()[s as int] && inputs.description@ == d@
                && inputs.long_description@ == l@ && inputs.breaking_changes@
                == Seq::<char>::empty() && inputs.ticket@ == text@),
            (Stage::AskTicket { .. }, Event::TicketFailed) => (post.stage() matches Stage::Failed {
                kind,
            } && kind is TicketPrompt) && (action matches Action::Fail { kind }
                && kind is TicketPrompt),
            _ => false,
        }
    }

    /// A fresh pipeline over the two option lists, standing at the type
    /// menu, its first prompt.
    pub fn new(change_types: Vec<String>, scopes: Vec<String>) -> (p: Pipeline)
        requires
            change_types.deep_view().len() > 0,
            scopes.deep_view().len() > 0,
        ensures
            p.types() == change_types.deep_view(),
            p.scope_names() == scopes.deep_view(),
            p.stage() is SelectType,
            p.wf(),
    {
        Pipeline { change_types, scopes, stage: Stage::SelectType }
    }

    /// The change-type labels, for the front end's menu.
    pub fn type_labels(&self) -> (r: &Vec<String>)
        ensures
            r.deep_view() == self.types(),
    {
        &self.change_types
    }

    /// The scope labels, for the front end's menu.
    pub fn scope_labels(&self) -> (r: &Vec<String>)
        ensures
            r.deep_view() == self.scope_names(),
    {
        &self.scopes
    }

    /// A cancelled menu, a failed question or a delivered record ends the
    /// run: such a pipeline takes no further event, so no later stage can
    /// run after it.
    pub proof fn lemma_terminal_stages_take_no_event(self, ev: Event)
        requires
            self.stage() is Done || self.stage() is Aborted || self.stage() matches Stage::Failed {
                ..
            },
        ensures
            !self.event_allowed(ev),
    {
    }

    /// Takes one event and moves one stage on, handing back the pipeline
    /// and the next action for the front end.
    pub fn step(self, ev: Event) -> (r: (Pipeline, Action))
        requires
            self.wf(),
            self.event_allowed(ev),
        ensures
            Pipeline::transition(self, ev, r.0, r.1),
            r.0.types() == self.types(),
            r.0.scope_names() == self.scope_names(),
            r.0.wf(),
    {
        let Pipeline { change_types, scopes, stage } = self;
        match (stage, ev) {
            (Stage::SelectType, Event::Selected { index }) => (
                Pipeline { change_types, scopes, stage: Stage::SelectScope { type_idx: index } },
                Action::PromptScope,
            ),
            (Stage::SelectType, Event::SelectionCancelled) => (
                Pipeline { change_types, scopes, stage: Stage::Aborted },
                Action::Abort,
            ),
            (Stage::SelectType, Event::SelectionFailed) => (
                Pipeline {
                    change_types,
                    scopes,
                    stage: Stage::Failed { kind: ErrKind::TypeSelectPrompt },
                },
                Action::Fail { kind: ErrKind::TypeSelectPrompt },
            ),
            (Stage::SelectScope { type_idx }, Event::Selected { index }) => {
                let budget = compute_budget(
                    change_types[type_idx].as_str(),
                    scopes[index].as_str(),
                    index,
                );
                (
                    Pipeline {
                        change_types,
                        scopes,
                        stage: Stage::AskDescription { type_idx, scope_idx: index },
                    },
                    Action::PromptDescription { budget },
                )
            },
            (Stage::SelectScope { .. }, Event::SelectionCancelled) => (
                Pipeline { change_types, scopes, stage: Stage::Aborted },
                Action::Abort,
            ),
            (Stage::SelectScope { .. }, Event::SelectionFailed) => (
                Pipeline {
                    change_types,
                    scopes,
                    stage: Stage::Failed { kind: ErrKind::ScopeSelectPrompt },
                },
                Action::Fail { kind: ErrKind::ScopeSelectPrompt },
            ),
            (Stage::AskDescription { type_idx, scope_idx }, Event::DescriptionEntered { text }) => (
                Pipeline {
                    change_types,
                    scopes,
                    stage: Stage::ConfirmLong { type_idx, scope_idx, description: text },
                },
                Action::PromptLongConfirm,
            ),
            (Stage::AskDescription { .. }, Event::DescriptionFailed) => (
                Pipeline {
                    change_types,
                    scopes,
                    stage: Stage::Failed { kind: ErrKind::DescriptionPrompt },
                },
                Action::Fail { kind: ErrKind::DescriptionPrompt },
            ),
            (Stage::ConfirmLong { type_idx, scope_idx, description }, Event::LongWanted { yes }) => {
                if yes {
                    (
                        Pipeline {
                            change_types,
                            scopes,
                            stage: Stage::EditLong { type_idx, scope_idx, description },
                        },
                        Action::OpenEditor,
                    )
                } else {
                    (
                        Pipeline {
                            change_types,
                            scopes,
                            stage: Stage::AskTicket {
                                type_idx,
                                scope_idx,
                                description,
                                long_description: String::new(),
                            },
                        },
                        Action::PromptTicket,
                    )
                }
            },
            (Stage::ConfirmLong { .. }, Event::LongConfirmFailed) => (
                Pipeline {
                    change_types,
                    scopes,
                    stage: Stage::Failed { kind: ErrKind::LongConfirmPrompt },
                },
                Action::Fail { kind: ErrKind::LongConfirmPrompt },
            ),
            (Stage::EditLong { type_idx, scope_idx, description }, Event::Edited { text }) => {
                let long_description = strip_comment_lines(text.as_str());
                (
                    Pipeline {
                        change_types,
                        scopes,
                        stage: Stage::AskTicket {
                            type_idx,
                            scope_idx,
                            description,
                            long_description,
                        },
                    },
                    Action::PromptTicket,
                )
            },
            (Stage::EditLong { .. }, Event::EditorFailed) => (
                Pipeline {
                    change_types,
                    scopes,
                    stage: Stage::Failed { kind: ErrKind::EditorCall },
                },
                Action::Fail { kind: ErrKind::EditorCall },
            ),
            (
                Stage::AskTicket { type_idx, scope_idx, description, long_description },
                Event::TicketEntered { text },
            ) => {
                let inputs = Inputs {
                    change_type: change_types[type_idx].clone(),
                    scope: scopes[scope_idx].clone(),
                    description,
                    long_description,
                    breaking_changes: String::new(),
                    ticket: text,
                };
                (
                    Pipeline { change_types, scopes, stage: Stage::Done },
                    Action::Deliver { inputs },
                )
            },
            (Stage::AskTicket { .. }, Event::TicketFailed) => (
                Pipeline {
                    change_types,
                    scopes,
                    stage: Stage::Failed { kind: ErrKind::TicketPrompt },
                },
                Action::Fail { kind: ErrKind::TicketPrompt },
            ),
            _ => {
                proof {
                    assert(false);
                }
                vstd::pervasive::unreached()
            },
        }
    }
}

} // verus!
