//! The prompt orchestrator: a strictly forward, one-pass sequence of
//! prompt steps driven by a [`CommitConfig`], assembling a [`CommitDraft`].
//!
//! The orchestrator itself performs no terminal work. A driver asks it which
//! step is pending, runs the matching prompt, and hands the answer back
//! through [`Orchestrator::submit_selection`] or [`Orchestrator::submit_line`].
//! A rejected line leaves the state unchanged, so the driver re-prompts until
//! the answer is accepted; an input failure simply stops the driver, and no
//! draft is ever produced from a partial run.

use vstd::prelude::*;

use crate::config::CommitConfig;
use crate::emoji::Emoji;
use crate::validate::{
    issue_valid, message_valid, scope_valid, title_valid, validate_issue, validate_message,
    validate_scope, validate_title,
};

verus! {

/// The steps of the commit-draft flow, in their fixed order.
#[derive(Clone, Copy, Debug, PartialEq, Eq, Structural)]
pub enum PromptStep {
    SelectEmoji,
    AskScope,
    AskTitle,
    AskMessage,
    AskIssue,
    Done,
}

/// The assembled output of one completed orchestration run.
pub struct CommitDraft {
    /// The emoji chosen in the selection step.
    pub emoji: Emoji,
    /// The scope, present exactly when the scope prompt was enabled.
    pub scope: Option<String>,
    /// The commit title; never empty.
    pub title: String,
    /// The commit message body; may be empty.
    pub message: String,
    /// The referenced issue, present exactly when the issue prompt was enabled.
    pub issue: Option<String>,
}

/// The step that follows the emoji selection: the scope prompt when it is
/// enabled, else the title prompt.
pub open spec fn step_after_selection(c: CommitConfig) -> PromptStep {
    if c.scope_prompt_enabled {
        PromptStep::AskScope
    } else {
        PromptStep::AskTitle
    }
}

/// The step that follows the message prompt: the issue prompt when it is
/// enabled, else completion.
pub open spec fn step_after_message(c: CommitConfig) -> PromptStep {
    if c.issue_prompt_enabled {
        PromptStep::AskIssue
    } else {
        PromptStep::Done
    }
}

/// Whether a step is answered by a line of free text.
pub open spec fn is_text_step(s: PromptStep) -> bool {
    s == PromptStep::AskScope || s == PromptStep::AskTitle || s == PromptStep::AskMessage
        || s == PromptStep::AskIssue
}

/// Whether a line of text is accepted by the validator of the given step.
pub open spec fn line_accepted(s: PromptStep, line: Seq<char>) -> bool
    recommends
        is_text_step(s),
{
    match s {
        PromptStep::AskScope => scope_valid(line),
        PromptStep::AskTitle => title_valid(line),
        PromptStep::AskMessage => message_valid(line),
        PromptStep::AskIssue => issue_valid(line),
        _ => false,
    }
}

/// One in-progress orchestration run.
pub struct Orchestrator {
    /// The preferences the run was started with; never changed by the run.
    pub config: CommitConfig,
    /// The emoji catalog the selection step chooses from; never changed.
    pub catalog: Vec<Emoji>,
    /// The pending step.
    pub step: PromptStep,
    /// Index of the chosen catalog entry, once the selection step has run.
    pub chosen: Option<usize>,
    /// The accepted scope, once the scope step has run.
    pub scope: Option<String>,
    /// The accepted title, once the title step has run.
    pub title: Option<String>,
    /// The accepted message body, once the message step has run.
    pub message: Option<String>,
    /// The accepted issue reference, once the issue step has run.
    pub issue: Option<String>,
}

impl Orchestrator {
    /// What every reachable orchestrator state satisfies: the catalog is
    /// non-empty, each stored answer passed its validator, answers are
    /// present exactly as far as the run has advanced, and a disabled prompt
    /// is never pending and leaves its field unset.
    pub open spec fn wf(self) -> bool {
        &&& self.catalog@.len() >= 1
        &&& (self.chosen is Some ==> self.chosen->0 < self.catalog@.len())
        &&& (self.chosen is None <==> self.step == PromptStep::SelectEmoji)
        &&& (self.scope is Some ==> scope_valid(self.scope->0@))
        &&& (self.title is Some ==> title_valid(self.title->0@))
        &&& (self.message is Some ==> message_valid(self.message->0@))
        &&& (self.issue is Some ==> issue_valid(self.issue->0@))
        &&& (!self.config.scope_prompt_enabled ==> self.step != PromptStep::AskScope
            && self.scope is None)
        &&& (self.step == PromptStep::AskIssue ==> self.config.issue_prompt_enabled)
        &&& (self.step == PromptStep::SelectEmoji || self.step == PromptStep::AskScope
            ==> self.scope is None && self.title is None && self.message is None
            && self.issue is None)
        &&& (self.step == PromptStep::AskTitle ==> self.title is None && self.message is None
            && self.issue is None)
        &&& (self.step == PromptStep::AskMessage ==> self.title is Some && self.message is None
            && self.issue is None)
        &&& (self.step == PromptStep::AskIssue ==> self.title is Some && self.message is Some
            && self.issue is None)
        &&& (self.step == PromptStep::Done ==> self.title is Some && self.message is Some)
        &&& (self.step == PromptStep::Done ==> (self.issue is Some
            <==> self.config.issue_prompt_enabled))
        &&& (self.step != PromptStep::SelectEmoji && self.step != PromptStep::AskScope
            && self.config.scope_prompt_enabled ==> self.scope is Some)
    }

    /// The state an accepted line moves the run to: the line is stored in the
    /// field of the pending step and the next step becomes pending.
    pub open spec fn after_line(self, line: String) -> Orchestrator
        recommends
            is_text_step(self.step),
    {
        match self.step {
            PromptStep::AskScope => (Orchestrator {
                scope: Some(line),
                step: PromptStep::AskTitle,
                ..self
            }),
            PromptStep::AskTitle => (Orchestrator {
                title: Some(line),
                step: PromptStep::AskMessage,
                ..self
            }),
            PromptStep::AskMessage => (Orchestrator {
                message: Some(line),
                step: step_after_message(self.config),
                ..self
            }),
            PromptStep::AskIssue => (Orchestrator {
                issue: Some(line),
                step: PromptStep::Done,
                ..self
            }),
            _ => self,
        }
    }

    /// Starts a run over a non-empty catalog, at the emoji selection step,
    /// with no answer collected yet.
    pub fn new(config: CommitConfig, catalog: Vec<Emoji>) -> (r: Orchestrator)
        requires
            catalog@.len() >= 1,
        ensures
            r.wf(),
            r.config == config,
            r.catalog == catalog,
            r.step == PromptStep::SelectEmoji,
            r.chosen is None,
            r.scope is None,
            r.title is None,
            r.message is None,
            r.issue is None,
    {
        Orchestrator {
            config,
            catalog,
            step: PromptStep::SelectEmoji,
            chosen: None,
            scope: None,
            title: None,
            message: None,
            issue: None,
        }
    }

    /// The pending step.
    pub fn current_step(&self) -> (s: PromptStep)
        ensures
            s == self.step,
    {
        self.step
    }

    /// How many catalog entries the selection step offers.
    pub fn catalog_len(&self) -> (n: usize)
        ensures
            n == self.catalog@.len(),
    {
        self.catalog.len()
    }

    /// The lines the selection step displays, one per catalog entry, in
    /// catalog order: each entry's glyph, a separating dash, and its
    /// description.
    pub fn display_lines(&self) -> (r: Vec<String>)
        ensures
            r@.len() == self.catalog@.len(),
            forall|i: int|
                0 <= i < r@.len() ==> r@[i]@ == self.catalog@[i].emoji@ + " - "@
                    + self.catalog@[i].description@,
    {
        let mut r: Vec<String> = Vec::new();
        let n = self.catalog.len();
        let mut k: usize = 0;
        while k < n
            invariant
                n == self.catalog@.len(),
                k <= n,
                r@.len() == k,
                forall|i: int|
                    0 <= i < k ==> r@[i]@ == self.catalog@[i].emoji@ + " - "@
                        + self.catalog@[i].description@,
            decreases n - k,
        {
            r.push(self.catalog[k].display_line());
            k += 1;
        }
        r
    }

    /// The pre-selected index of the emoji selection list: always the first
    /// entry, so accepting the default yields the catalog's first emoji.
    pub fn select_default_index(&self) -> (i: usize)
        ensures
            i == 0,
    {
        0
    }

    /// Records the choice of the emoji selection step and advances past it.
    pub fn submit_selection(&mut self, index: usize)
        requires
            old(self).wf(),
            old(self).step == PromptStep::SelectEmoji,
            index < old(self).catalog@.len(),
        ensures
            final(self).wf(),
            *final(self) == (Orchestrator {
                step: step_after_selection(old(self).config),
                chosen: Some(index),
                ..*old(self)
            }),
    {
        self.chosen = Some(index);
        self.step = if self.config.scope_prompt_enabled {
            PromptStep::AskScope
        } else {
            PromptStep::AskTitle
        };
    }

    /// Offers a line of text to the pending text step. The line is accepted
    /// exactly when the step's validator accepts it; an accepted line is
    /// stored and the run advances, a rejected line changes nothing, so the
    /// caller re-prompts.
    pub fn submit_line(&mut self, line: String) -> (accepted: bool)
        requires
            old(self).wf(),
            is_text_step(old(self).step),
        ensures
            final(self).wf(),
            accepted == line_accepted(old(self).step, line@),
            accepted ==> *final(self) == old(self).after_line(line),
            !accepted ==> *final(self) == *old(self),
    {
        match self.step {
            PromptStep::AskScope => {
                if validate_scope(line.as_str()) {
                    self.scope = Some(line);
                    self.step = PromptStep::AskTitle;
                    true
                } else {
                    false
                }
            },
            PromptStep::AskTitle => {
                if validate_title(line.as_str()) {
                    self.title = Some(line);
                    self.step = PromptStep::AskMessage;
                    true
                } else {
                    false
                }
            },
            PromptStep::AskMessage => {
                if validate_message(line.as_str()) {
                    self.message = Some(line);
                    self.step = if self.config.issue_prompt_enabled {
                        PromptStep::AskIssue
                    } else {
                        PromptStep::Done
                    };
                    true
                } else {
                    false
                }
            },
            PromptStep::AskIssue => {
                if validate_issue(line.as_str()) {
                    self.issue = Some(line);
                    self.step = PromptStep::Done;
                    true
                } else {
                    false
                }
            },
            _ => false,
        }
    }

    /// Hands out the assembled draft of a completed run: the chosen catalog
    /// entry unchanged, the accepted answers, a scope present exactly when
    /// the scope prompt was enabled, and an issue present exactly when the
    /// issue prompt was enabled.
    pub fn finish(self) -> (d: CommitDraft)
        requires
            self.wf(),
            self.step == PromptStep::Done,
        ensures
            d.emoji == self.catalog@[self.chosen->0 as int],
            d.scope == self.scope,
            d.title == self.title->0,
            d.message == self.message->0,
            d.issue == self.issue,
            d.scope is Some <==> self.config.scope_prompt_enabled,
            d.scope is Some ==> scope_valid(d.scope->0@),
            title_valid(d.title@),
            message_valid(d.message@),
            d.issue is Some <==> self.config.issue_prompt_enabled,
            d.issue is Some ==> issue_valid(d.issue->0@),
    {
        let Orchestrator { config, mut catalog, chosen, scope, title, message, issue, step } =
            self;
        let index = chosen.unwrap();
        let emoji = catalog.remove(index);
        CommitDraft { emoji, scope, title: title.unwrap(), message: message.unwrap(), issue }
    }
}

/// With the scope prompt disabled, no reachable run state has the scope step
/// pending, and the scope stays unset throughout the run.
pub proof fn lemma_scope_prompt_disabled(o: Orchestrator)
    requires
        o.wf(),
        !o.config.scope_prompt_enabled,
    ensures
        o.step != PromptStep::AskScope,
        o.scope is None,
{
}

/// With the issue prompt enabled, a run reaches completion only once it holds
/// a non-empty, backtick-free issue reference.
pub proof fn lemma_issue_obtained(o: Orchestrator)
    requires
        o.wf(),
        o.config.issue_prompt_enabled,
        o.step == PromptStep::Done,
    ensures
        o.issue is Some,
        issue_valid(o.issue->0@),
{
}

} // verus!
