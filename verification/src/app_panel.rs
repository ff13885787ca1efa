//! What the keys of the panel lead to, and how the panel goes on once that was carried out.
use vstd::prelude::*;

use crate::activity;
use crate::app;
use crate::app::TerminalApp;
use crate::desk::Desk;
use crate::input::EditorInput;
use crate::notice::NoticeLevel;
use crate::panel;
use crate::panel::{Facts, Field, Panel};
use crate::panel_actions;
use crate::panel_actions::Effect;
use crate::panel_edits;
use crate::panel_edits::{Activation, ChoiceEffect, ChoiceView, EditorEffect, EditorView};
use crate::panel_keys::PanelAction;
use crate::text;

verus! {

/// What a key of the panel asks of the rest of the program.
#[derive(Debug)]
pub enum PanelStep {
    Nothing,
    Choice(ChoiceEffect),
    Editor(EditorEffect),
    Effect(Effect),
    Activation(Activation),
    RestoreTopic,
    NextCandidate,
}

pub ghost enum StepView {
    Nothing,
    Choice(ChoiceView),
    Editor(EditorView),
    Effect(Effect),
    Activation(Activation),
    RestoreTopic,
    NextCandidate,
}

impl View for PanelStep {
    type V = StepView;

    open spec fn view(&self) -> StepView {
        match *self {
            PanelStep::Nothing => StepView::Nothing,
            PanelStep::Choice(effect) => StepView::Choice(effect@),
            PanelStep::Editor(effect) => StepView::Editor(effect@),
            PanelStep::Effect(effect) => StepView::Effect(effect),
            PanelStep::Activation(activation) => StepView::Activation(activation),
            PanelStep::RestoreTopic => StepView::RestoreTopic,
            PanelStep::NextCandidate => StepView::NextCandidate,
        }
    }
}

/// The panel says what went wrong, and is otherwise as it was.
pub open spec fn complains(before: Panel, after: Option<Panel>, problem: Seq<char>) -> bool {
    after matches Some(panel) && panel == (Panel { error: panel.error, ..before })
        && text::opt_view(panel.error) == Some(problem)
}

/// What the text in the panel's editor asks for, if one is open.
pub open spec fn saved_editor(panel: Panel) -> Result<EditorView, Seq<char>> {
    match panel.editor {
        None => Ok(EditorView::Nothing),
        Some((field, line)) => panel_edits::saved_value(field, line.text()),
    }
}

/// The user is told once such a text was saved.
pub open spec fn tells(effect: EditorView) -> bool {
    !(effect is Nothing || effect is External || effect is Search)
}

/// What an action of the panel leads to.
pub open spec fn panel_followed(
    panel: Panel,
    after: Option<Panel>,
    action: PanelAction,
    facts: Facts,
    step: StepView,
) -> bool {
    match action {
        PanelAction::Keep => step is Nothing && after == Some(panel),
        PanelAction::Close => step is Nothing && after is None,
        PanelAction::RestoreTopic => step is RestoreTopic && after == Some(panel),
        PanelAction::NextCandidate => step is NextCandidate && after == Some(panel),
        PanelAction::Choose(index) => match panel_edits::chosen(panel, index, facts) {
            Ok(ChoiceView::Nothing) => step is Nothing && after == Some(
                Panel { choices: None, ..panel },
            ),
            Ok(effect) => step == StepView::Choice(effect) && after == Some(panel),
            Err(problem) => step is Nothing && complains(panel, after, problem),
        },
        PanelAction::SaveEditor => match saved_editor(panel) {
            Ok(effect) => step == StepView::Editor(effect) && after == Some(panel),
            Err(problem) => step is Nothing && complains(panel, after, problem),
        },
        PanelAction::Apply(row) => match panel_actions::row_effect(panel, row, facts) {
            Ok(effect) => {
                &&& step == StepView::Effect(effect)
                &&& after matches Some(changed) && panel_actions::panel_after(
                    panel,
                    changed,
                    row,
                    facts,
                )
            },
            Err(problem) => step is Nothing && complains(panel, after, problem),
        },
        PanelAction::Activate(index) => match panel_edits::activated(panel, index, facts) {
            Ok(activation) => {
                &&& step == StepView::Activation(activation)
                &&& after matches Some(changed) && panel_edits::activation_done(
                    panel,
                    changed,
                    index,
                    facts,
                )
            },
            Err(problem) => step is Nothing && complains(panel, after, problem),
        },
    }
}

impl TerminalApp {
    /// Follows an action of the panel. What it asks for is the answer; a problem stands on the
    /// panel.
    pub fn follow_panel(&mut self, action: PanelAction, facts: &Facts) -> (r: PanelStep)
        requires
            old(self).wf(),
        ensures
            final(self).wf(),
            *final(self) == (TerminalApp { panel: final(self).panel, ..*old(self) }),
            match old(self).panel {
                None => r@ is Nothing && final(self).panel is None,
                Some(panel) => panel_followed(panel, final(self).panel, action, *facts, r@),
            },
    {
        let mut panel: Panel = match self.panel.take() {
            Some(panel) => panel,
            None => {
                return PanelStep::Nothing;
            },
        };
        let mut step: PanelStep = PanelStep::Nothing;
        match action {
            PanelAction::Keep => {},
            PanelAction::Close => {
                return PanelStep::Nothing;
            },
            PanelAction::RestoreTopic => {
                step = PanelStep::RestoreTopic;
            },
            PanelAction::NextCandidate => {
                step = PanelStep::NextCandidate;
            },
            PanelAction::Choose(index) => match panel.select_assistant_choice(index, facts) {
                Ok(ChoiceEffect::Nothing) => {
                    panel.choices = None;
                },
                Ok(effect) => {
                    step = PanelStep::Choice(effect);
                },
                Err(problem) => {
                    panel.error = Some(problem);
                },
            },
            PanelAction::SaveEditor => match panel.save_assistant_editor() {
                Ok(effect) => {
                    step = PanelStep::Editor(effect);
                },
                Err(problem) => {
                    panel.error = Some(problem);
                },
            },
            PanelAction::Apply(row) => match panel.apply_assistant_row(row, facts) {
                Ok(effect) => {
                    step = PanelStep::Effect(effect);
                },
                Err(problem) => {
                    panel.error = Some(problem);
                },
            },
            PanelAction::Activate(index) => match panel.activate_assistant_row(index, facts) {
                Ok(activation) => {
                    step = PanelStep::Activation(activation);
                },
                Err(problem) => {
                    panel.error = Some(problem);
                },
            },
        }
        self.panel = Some(panel);
        step
    }

    /// A choice was carried out, or was not.
    pub fn choice_settled(&mut self, outcome: Result<(), String>)
        requires
            old(self).wf(),
        ensures
            final(self).wf(),
            *final(self) == (TerminalApp {
                panel: match old(self).panel {
                    Some(panel) => Some(
                        match outcome {
                            Ok(_) => Panel { choices: None, ..panel },
                            Err(problem) => Panel { error: Some(problem), ..panel },
                        },
                    ),
                    None => None,
                },
                ..*old(self)
            }),
    {
        if let Some(panel) = &mut self.panel {
            panel.settle_choice(outcome);
        }
    }

    /// What a row asked for was carried out, or was not. Some rows close the panel then.
    pub fn row_settled(&mut self, effect: Effect, outcome: Result<(), String>)
        requires
            old(self).wf(),
        ensures
            final(self).wf(),
            *final(self) == (TerminalApp { panel: final(self).panel, ..*old(self) }),
            match old(self).panel {
                None => final(self).panel is None,
                Some(panel) => if outcome is Ok && panel_actions::effect_closes(effect) {
                    final(self).panel is None
                } else {
                    final(self).panel matches Some(shown) && panel_edits::row_done(
                        panel,
                        shown,
                        effect,
                        outcome,
                    )
                },
            },
    {
        let done: bool = outcome.is_ok();
        if let Some(panel) = &mut self.panel {
            panel.settle_row(effect, outcome);
        }
        if done && effect.closes() {
            self.panel = None;
        }
    }

    /// What using a row of the menu asked for was carried out, or was not. Some rows close the
    /// panel then.
    pub fn activation_settled(&mut self, activation: Activation, outcome: Result<(), String>)
        requires
            old(self).wf(),
        ensures
            final(self).wf(),
            *final(self) == (TerminalApp { panel: final(self).panel, ..*old(self) }),
            match old(self).panel {
                None => final(self).panel is None,
                Some(panel) => match outcome {
                    Ok(_) => match activation {
                        _ if panel_edits::activation_closes(activation) => final(self).panel is None,
                        Activation::Effect(effect) => final(self).panel matches Some(shown)
                            && panel_edits::row_done(panel, shown, effect, outcome),
                        _ => final(self).panel == Some(panel),
                    },
                    Err(problem) => final(self).panel == Some(
                        Panel { error: Some(problem), ..panel },
                    ),
                },
            },
    {
        if outcome.is_ok() && activation.closes() {
            self.panel = None;
            return;
        }
        if let Some(panel) = &mut self.panel {
            match activation {
                Activation::Effect(effect) => {
                    panel.settle_row(effect, outcome);
                },
                _ => {
                    if let Err(problem) = outcome {
                        panel.error = Some(problem);
                    }
                },
            }
        }
    }

    /// An edited text was saved, or was not. The text stays where it was not. Once the seconds of
    /// the history were saved they count from now.
    pub fn editor_settled(&mut self, effect: &EditorEffect, outcome: Result<(), String>, now: u64)
        requires
            old(self).wf(),
            now <= activity::LAST_INSTANT,
        ensures
            final(self).wf(),
            ({
                let settled = TerminalApp {
                    panel: match old(self).panel {
                        Some(panel) => Some(
                            match outcome {
                                Ok(_) => Panel { editor: None, error: None, ..panel },
                                Err(problem) => Panel { error: Some(problem), ..panel },
                            },
                        ),
                        None => None,
                    },
                    desk: if outcome is Ok && effect@ is HistorySeconds {
                        Desk { last_user_activity: now, ..old(self).desk }
                    } else {
                        old(self).desk
                    },
                    ..*old(self)
                };
                if outcome is Ok && tells(effect@) {
                    app::only_said(settled, *final(self), "已保存"@, NoticeLevel::Success, now)
                } else {
                    *final(self) == settled
                }
            }),
    {
        let done: bool = outcome.is_ok();
        if let Some(panel) = &mut self.panel {
            panel.settle_editor(outcome);
        }
        if done {
            if let EditorEffect::HistorySeconds(_) = effect {
                self.desk.last_user_activity = now;
            }
            match effect {
                EditorEffect::Nothing
                | EditorEffect::External { .. }
                | EditorEffect::Search(_) => {},
                _ => {
                    self.say("已保存", NoticeLevel::Success, now);
                },
            }
        }
    }

    /// The topic follows the title of the room again: the editor shows it.
    pub fn topic_restored(&mut self, topic: String)
        requires
            old(self).wf(),
        ensures
            final(self).wf(),
            *final(self) == (TerminalApp { panel: final(self).panel, ..*old(self) }),
            match old(self).panel {
                None => final(self).panel is None,
                Some(panel) => {
                    &&& final(self).panel matches Some(shown)
                    &&& shown == (Panel { editor: shown.editor, ..panel })
                    &&& shown.editor matches Some((field, line))
                    &&& field == Field::Topic
                    &&& line.text() == topic@
                    &&& line.position() == topic@.len()
                },
            },
    {
        if let Some(panel) = &mut self.panel {
            panel.editor = Some((Field::Topic, EditorInput::from_string(topic)));
        }
    }

    /// A save was begun outside: the panel waits for it.
    pub fn save_begun(&mut self, token: u64)
        requires
            old(self).wf(),
        ensures
            final(self).wf(),
            *final(self) == (TerminalApp {
                settings_operation: Some(token),
                panel: match old(self).panel {
                    Some(panel) => Some(
                        Panel { pending_save: Some(token), error: None, ..panel },
                    ),
                    None => None,
                },
                ..*old(self)
            }),
    {
        self.settings_operation = Some(token);
        if let Some(panel) = &mut self.panel {
            panel.await_save(token);
        }
    }
}

/// A problem never loses what was typed: the text in the panel's editor stays.
pub proof fn law_problems_keep_the_text(
    panel: Panel,
    after: Option<Panel>,
    facts: Facts,
    step: StepView,
)
    requires
        panel_followed(panel, after, PanelAction::SaveEditor, facts, step),
    ensures
        after matches Some(shown) && shown.editor == panel.editor,
{
}

/// What a saved line hands on belongs to the field that was edited.
pub open spec fn panel_followed_value(panel: Panel, step: StepView) -> bool {
    match panel.editor {
        Some((field, line)) => panel_edits::saved_value(field, line.text()) == Ok::<
            EditorView,
            Seq<char>,
        >(step->Editor_0),
        None => step->Editor_0 is Nothing,
    }
}

/// What a panel hands on is what its key asked for: the value that was chosen, the line that was
/// edited, the effect of the row; a problem is told in the panel and hands on nothing.
pub proof fn law_the_panel_hands_on_what_was_asked_for(
    panel: Panel,
    after: Option<Panel>,
    action: PanelAction,
    facts: Facts,
    step: StepView,
)
    requires
        panel_followed(panel, after, action, facts, step),
    ensures
        after is None <==> action is Close,
        action is Keep ==> step is Nothing && after == Some(panel),
        step is Choice ==> action is Choose,
        step is Editor ==> action is SaveEditor && panel_followed_value(panel, step),
        step is Effect ==> action is Apply && panel_actions::row_effect(
            panel,
            action->Apply_0,
            facts,
        ) == Ok::<panel_actions::Effect, Seq<char>>(step->Effect_0),
        step is Activation ==> action is Activate && action->Activate_0 < panel::page_rows(
            panel,
            facts,
        ).len(),
        action matches PanelAction::Apply(row) ==> (panel::readonly_text(row, facts) is Some
            ==> step is Nothing && after is Some && after->0.error is Some && after->0.page
            == panel.page && after->0.editor == panel.editor),
{
}

} // verus!
