use gitmoji_prompts::config::{CommitConfig, EmojiFormat};
use gitmoji_prompts::emoji::Emoji;
use gitmoji_prompts::orchestrator::{Orchestrator, PromptStep};
use gitmoji_prompts::wizard::{ConfigWizard, WizardStep};

fn bug_catalog() -> Vec<Emoji> {
    vec![Emoji::new(
        ":bug:".to_string(),
        "Fix a bug".to_string(),
        "🐛".to_string(),
        "bug".to_string(),
    )]
}

fn base_config() -> CommitConfig {
    CommitConfig {
        auto_add: false,
        signed_commit: false,
        scope_prompt_enabled: false,
        issue_prompt_enabled: false,
        emoji_format: EmojiFormat::CODE,
    }
}

#[test]
fn default_selection_returns_first_emoji() {
    let catalog = vec![
        Emoji::new(
            ":bug:".to_string(),
            "Fix a bug".to_string(),
            "🐛".to_string(),
            "bug".to_string(),
        ),
        Emoji::new(
            ":sparkles:".to_string(),
            "Introduce new features".to_string(),
            "✨".to_string(),
            "sparkles".to_string(),
        ),
    ];
    let mut o = Orchestrator::new(base_config(), catalog);
    let default = o.select_default_index();
    assert_eq!(default, 0);
    o.submit_selection(default);
    assert!(o.submit_line("Fix crash".to_string()));
    assert!(o.submit_line(String::new()));
    let d = o.finish();
    assert_eq!(d.emoji.code, ":bug:");
    assert_eq!(d.emoji.description, "Fix a bug");
    assert_eq!(d.emoji.emoji, "🐛");
    assert_eq!(d.emoji.name, "bug");
}

#[test]
fn draft_without_scope_or_issue() {
    let mut o = Orchestrator::new(base_config(), bug_catalog());
    assert_eq!(o.current_step(), PromptStep::SelectEmoji);
    o.submit_selection(0);
    assert_eq!(o.current_step(), PromptStep::AskTitle);
    assert!(o.submit_line("Fix crash".to_string()));
    assert_eq!(o.current_step(), PromptStep::AskMessage);
    assert!(o.submit_line("Fixes null deref".to_string()));
    assert_eq!(o.current_step(), PromptStep::Done);
    let d = o.finish();
    assert_eq!(d.emoji.code, ":bug:");
    assert_eq!(d.scope, None);
    assert_eq!(d.title, "Fix crash");
    assert_eq!(d.message, "Fixes null deref");
    assert_eq!(d.issue, None);
}

#[test]
fn empty_title_is_reasked_before_message() {
    let mut o = Orchestrator::new(base_config(), bug_catalog());
    o.submit_selection(0);
    assert_eq!(o.current_step(), PromptStep::AskTitle);
    assert!(!o.submit_line(String::new()));
    assert_eq!(o.current_step(), PromptStep::AskTitle);
    assert!(!o.submit_line("still `bad`".to_string()));
    assert_eq!(o.current_step(), PromptStep::AskTitle);
    assert!(o.submit_line("Fix crash".to_string()));
    assert_eq!(o.current_step(), PromptStep::AskMessage);
}

#[test]
fn scope_and_issue_prompts_when_enabled() {
    let config = CommitConfig {
        scope_prompt_enabled: true,
        issue_prompt_enabled: true,
        ..base_config()
    };
    let mut o = Orchestrator::new(config, bug_catalog());
    o.submit_selection(0);
    assert_eq!(o.current_step(), PromptStep::AskScope);
    assert!(!o.submit_line("bad`scope".to_string()));
    assert_eq!(o.current_step(), PromptStep::AskScope);
    assert!(o.submit_line("parser".to_string()));
    assert!(o.submit_line("Fix crash".to_string()));
    assert!(o.submit_line(String::new()));
    assert_eq!(o.current_step(), PromptStep::AskIssue);
    assert!(!o.submit_line(String::new()));
    assert_eq!(o.current_step(), PromptStep::AskIssue);
    assert!(o.submit_line("#12".to_string()));
    let d = o.finish();
    assert_eq!(d.scope, Some("parser".to_string()));
    assert_eq!(d.title, "Fix crash");
    assert_eq!(d.message, "");
    assert_eq!(d.issue, Some("#12".to_string()));
}

#[test]
fn wizard_updates_every_preference() {
    let current = CommitConfig {
        auto_add: false,
        signed_commit: true,
        scope_prompt_enabled: false,
        issue_prompt_enabled: true,
        emoji_format: EmojiFormat::CODE,
    };
    let mut w = ConfigWizard::new(current);
    assert_eq!(w.current_step(), WizardStep::AutoAdd);
    assert!(!w.confirm_default());
    w.submit_confirm(true);
    assert_eq!(w.current_step(), WizardStep::SignedCommit);
    assert!(w.confirm_default());
    w.submit_confirm(false);
    assert_eq!(w.current_step(), WizardStep::ScopePrompt);
    assert!(!w.confirm_default());
    w.submit_confirm(true);
    assert_eq!(w.current_step(), WizardStep::IssuePrompt);
    assert!(w.confirm_default());
    w.submit_confirm(false);
    assert_eq!(w.current_step(), WizardStep::FormatChoice);
    assert_eq!(w.format_default_index(), 0);
    w.submit_format_choice(1);
    assert_eq!(w.current_step(), WizardStep::Done);
    let c = w.finish();
    assert!(c.auto_add);
    assert!(!c.signed_commit);
    assert!(c.scope_prompt_enabled);
    assert!(!c.issue_prompt_enabled);
    assert_eq!(c.emoji_format, EmojiFormat::EMOJI);
}

#[test]
fn wizard_format_default_tracks_current_format() {
    let mut w = ConfigWizard::new(CommitConfig {
        emoji_format: EmojiFormat::EMOJI,
        ..base_config()
    });
    w.submit_confirm(false);
    w.submit_confirm(false);
    w.submit_confirm(false);
    w.submit_confirm(false);
    assert_eq!(w.format_default_index(), 1);
    w.submit_format_choice(0);
    assert_eq!(w.finish().emoji_format, EmojiFormat::CODE);
}
