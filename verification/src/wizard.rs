//! The configuration wizard: a linear sequence of yes/no questions, one per
//! boolean preference, followed by a two-entry selection for the emoji
//! format, producing an updated [`CommitConfig`].
//!
//! Like the orchestrator, the wizard performs no terminal work: a driver runs
//! the matching prompt for the pending step, seeded with the default the
//! wizard reports, and hands the answer back. The updated configuration is
//! handed out only by [`ConfigWizard::finish`], so an aborted run applies
//! nothing.

use vstd::prelude::*;

use crate::config::{emoji_format_default_index, emoji_format_from_index, CommitConfig, EmojiFormat};

verus! {

/// The steps of the settings flow, in their fixed order.
#[derive(Clone, Copy, Debug, PartialEq, Eq, Structural)]
pub enum WizardStep {
    AutoAdd,
    SignedCommit,
    ScopePrompt,
    IssuePrompt,
    FormatChoice,
    Done,
}

/// Whether a step is answered yes or no.
pub open spec fn is_confirm_step(s: WizardStep) -> bool {
    s == WizardStep::AutoAdd || s == WizardStep::SignedCommit || s == WizardStep::ScopePrompt
        || s == WizardStep::IssuePrompt
}

/// The step that follows a yes/no step.
pub open spec fn confirm_step_after(s: WizardStep) -> WizardStep
    recommends
        is_confirm_step(s),
{
    match s {
        WizardStep::AutoAdd => WizardStep::SignedCommit,
        WizardStep::SignedCommit => WizardStep::ScopePrompt,
        WizardStep::ScopePrompt => WizardStep::IssuePrompt,
        WizardStep::IssuePrompt => WizardStep::FormatChoice,
        _ => s,
    }
}

/// The current value of the preference a yes/no step asks about; each
/// question is seeded with it as the default answer.
pub open spec fn confirm_default_of(c: CommitConfig, s: WizardStep) -> bool
    recommends
        is_confirm_step(s),
{
    match s {
        WizardStep::AutoAdd => c.auto_add,
        WizardStep::SignedCommit => c.signed_commit,
        WizardStep::ScopePrompt => c.scope_prompt_enabled,
        WizardStep::IssuePrompt => c.issue_prompt_enabled,
        _ => false,
    }
}

/// The configuration with the preference of the given yes/no step replaced
/// by the answer.
pub open spec fn apply_confirm(c: CommitConfig, s: WizardStep, answer: bool) -> CommitConfig
    recommends
        is_confirm_step(s),
{
    match s {
        WizardStep::AutoAdd => (CommitConfig { auto_add: answer, ..c }),
        WizardStep::SignedCommit => (CommitConfig { signed_commit: answer, ..c }),
        WizardStep::ScopePrompt => (CommitConfig { scope_prompt_enabled: answer, ..c }),
        WizardStep::IssuePrompt => (CommitConfig { issue_prompt_enabled: answer, ..c }),
        _ => c,
    }
}

/// One in-progress settings run.
pub struct ConfigWizard {
    /// The configuration as collected so far; starts as the current one.
    pub config: CommitConfig,
    /// The pending step.
    pub step: WizardStep,
}

impl ConfigWizard {
    /// Starts a settings run from the current configuration, at the first
    /// yes/no question.
    pub fn new(current: CommitConfig) -> (r: ConfigWizard)
        ensures
            r.config == current,
            r.step == WizardStep::AutoAdd,
    {
        ConfigWizard { config: current, step: WizardStep::AutoAdd }
    }

    /// The pending step.
    pub fn current_step(&self) -> (s: WizardStep)
        ensures
            s == self.step,
    {
        self.step
    }

    /// The default answer of the pending yes/no question: the current value
    /// of the preference it asks about.
    pub fn confirm_default(&self) -> (b: bool)
        requires
            is_confirm_step(self.step),
        ensures
            b == confirm_default_of(self.config, self.step),
    {
        match self.step {
            WizardStep::AutoAdd => self.config.auto_add,
            WizardStep::SignedCommit => self.config.signed_commit,
            WizardStep::ScopePrompt => self.config.scope_prompt_enabled,
            WizardStep::IssuePrompt => self.config.issue_prompt_enabled,
            _ => false,
        }
    }

    /// Records the answer of the pending yes/no question and advances.
    pub fn submit_confirm(&mut self, answer: bool)
        requires
            is_confirm_step(old(self).step),
        ensures
            *final(self) == (ConfigWizard {
                config: apply_confirm(old(self).config, old(self).step, answer),
                step: confirm_step_after(old(self).step),
            }),
    {
        match self.step {
            WizardStep::AutoAdd => {
                self.config.auto_add = answer;
                self.step = WizardStep::SignedCommit;
            },
            WizardStep::SignedCommit => {
                self.config.signed_commit = answer;
                self.step = WizardStep::ScopePrompt;
            },
            WizardStep::ScopePrompt => {
                self.config.scope_prompt_enabled = answer;
                self.step = WizardStep::IssuePrompt;
            },
            WizardStep::IssuePrompt => {
                self.config.issue_prompt_enabled = answer;
                self.step = WizardStep::FormatChoice;
            },
            _ => {},
        }
    }

    /// The pre-selected index of the emoji-format selection list: the entry
    /// of the currently configured format, so index zero exactly when it is
    /// the shortcode format.
    pub fn format_default_index(&self) -> (i: usize)
        requires
            self.step == WizardStep::FormatChoice,
        ensures
            i < 2,
            i == 0 <==> self.config.emoji_format == EmojiFormat::CODE,
    {
        emoji_format_default_index(self.config.emoji_format)
    }

    /// Records the choice of the emoji-format selection step — the first
    /// entry stands for the shortcode format, the second for the glyph
    /// format — and completes the run.
    pub fn submit_format_choice(&mut self, index: usize)
        requires
            old(self).step == WizardStep::FormatChoice,
            index < 2,
        ensures
            final(self).step == WizardStep::Done,
            final(self).config == (CommitConfig {
                emoji_format: final(self).config.emoji_format,
                ..old(self).config
            }),
            final(self).config.emoji_format == EmojiFormat::CODE <==> index == 0,
    {
        let f = emoji_format_from_index(index);
        self.config.emoji_format = f;
        self.step = WizardStep::Done;
    }

    /// Hands out the collected configuration of a completed run.
    pub fn finish(self) -> (c: CommitConfig)
        requires
            self.step == WizardStep::Done,
        ensures
            c == self.config,
    {
        self.config
    }
}

} // verus!
