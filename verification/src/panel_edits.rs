//! Choices, edited texts and pages that the panel is opened at.
use vstd::prelude::*;
use vstd::string::*;

use crate::commands::ExternalField;
use crate::events;
use crate::fields;
use crate::input;
use crate::input::EditorInput;
use crate::panel;
use crate::panel::{
    AssistantSettings, ChoiceTarget, Discovery, Facts, Field, MenuCommand, ObsConfiguration, Page,
    Panel, Row, SettingValue, Source,
};
use crate::panel_actions;
use crate::panel_actions::Effect;
use crate::panel_keys;
use crate::text;

verus! {

/// The place of the option with an identifier that the tool reports.
pub open spec fn option_named(options: Seq<panel::OptionFacts>, id: Seq<char>) -> Option<int>
    decreases options.len(),
{
    if options.len() == 0 {
        None
    } else if options[0].id@ == id {
        Some(0)
    } else {
        match option_named(options.skip(1), id) {
            Some(i) => Some(i + 1),
            None => None,
        }
    }
}

/// The value is the one that the tool has confirmed.
pub open spec fn is_current(target: ChoiceTarget, value: panel::SettingView, facts: Facts) -> bool {
    match target {
        ChoiceTarget::Sending => false,
        ChoiceTarget::Option(id) => match facts.options {
            Some(options) => match option_named(options@, id@) {
                Some(i) => options@[i].current@ == value,
                None => false,
            },
            None => false,
        },
        ChoiceTarget::ToolMode => match facts.tool_mode {
            Some(mode) => value == panel::SettingView::Id(mode.current@),
            None => false,
        },
    }
}

fn find_option(options: &Vec<panel::OptionFacts>, id: &str) -> (r: Option<usize>)
    ensures
        match option_named(options@, id@) {
            Some(i) => r matches Some(at) && at == i && i < options@.len(),
            None => r is None,
        },
{
    let mut i: usize = 0;
    proof {
        assert(options@.skip(0) =~= options@);
    }
    while i < options.len()
        invariant
            i <= options@.len(),
            match option_named(options@.skip(i as int), id@) {
                Some(k) => option_named(options@, id@) == Some(k + i),
                None => option_named(options@, id@) is None,
            },
        decreases options@.len() - i,
    {
        proof {
            assert(options@.skip(i as int).skip(1) =~= options@.skip(i + 1));
        }
        if text::same(options[i].id.as_str(), id) {
            return Some(i);
        }
        i = i + 1;
    }
    None
}

/// The value is the one that the tool has confirmed.
pub fn choice_is_current(target: &ChoiceTarget, value: &SettingValue, facts: &Facts) -> (r: bool)
    ensures
        r == is_current(*target, value@, *facts),
{
    match target {
        ChoiceTarget::Sending => false,
        ChoiceTarget::Option(id) => match &facts.options {
            Some(options) => match find_option(options, id.as_str()) {
                Some(i) => options[i].current.same(value),
                None => false,
            },
            None => false,
        },
        ChoiceTarget::ToolMode => match &facts.tool_mode {
            Some(mode) => value.same(&SettingValue::Id(mode.current.clone())),
            None => false,
        },
    }
}

/// What a choice asks for.
#[derive(Debug)]
pub enum ChoiceEffect {
    Nothing,
    Automatic(bool),
    /// Asks the tool for another value of an option, or for another mode.
    Change { id: Option<String>, value: SettingValue },
}

pub ghost enum ChoiceView {
    Nothing,
    Automatic(bool),
    Change { id: Option<Seq<char>>, value: panel::SettingView },
}

impl View for ChoiceEffect {
    type V = ChoiceView;

    open spec fn view(&self) -> ChoiceView {
        match *self {
            ChoiceEffect::Nothing => ChoiceView::Nothing,
            ChoiceEffect::Automatic(allow) => ChoiceView::Automatic(allow),
            ChoiceEffect::Change { id, value } => ChoiceView::Change {
                id: text::opt_view(id),
                value: value@,
            },
        }
    }
}

/// What choosing a value asks for, or why it does nothing. A value that is current already asks
/// for nothing.
pub open spec fn chosen(panel: Panel, index: usize, facts: Facts) -> Result<
    ChoiceView,
    Seq<char>,
> {
    match panel.choices {
        None => Err("选项已关闭"@),
        Some(choices) => if index >= choices.values@.len() {
            Err("选项已刷新"@)
        } else {
            let value = choices.values@[index as int].value@;
            match choices.target {
                ChoiceTarget::Sending => {
                    let allow = value == panel::SettingView::Bool(true);
                    if allow != facts.sending_enabled || allow != facts.settings.automatic {
                        Ok(ChoiceView::Automatic(allow))
                    } else {
                        Ok(ChoiceView::Nothing)
                    }
                },
                ChoiceTarget::Option(id) => if is_current(choices.target, value, facts) {
                    Ok(ChoiceView::Nothing)
                } else {
                    Ok(ChoiceView::Change { id: Some(id@), value })
                },
                ChoiceTarget::ToolMode => if is_current(choices.target, value, facts) {
                    Ok(ChoiceView::Nothing)
                } else {
                    Ok(ChoiceView::Change { id: None, value })
                },
            }
        },
    }
}

/// Choosing automatic sending is the only choice that asks for the permission to send.
pub proof fn law_only_the_sending_choice_permits(panel: Panel, index: usize, facts: Facts)
    requires
        chosen(panel, index, facts) matches Ok(ChoiceView::Automatic(true)),
    ensures
        panel.choices matches Some(choices) && choices.target is Sending
            && choices.values@[index as int].value@ == panel::SettingView::Bool(true),
{
}

/// The panel once what a row asked for was carried out, or was not.
pub open spec fn row_done(
    before: Panel,
    after: Panel,
    effect: Effect,
    outcome: Result<(), String>,
) -> bool {
    match outcome {
        Ok(_) => if (effect matches Effect::Save { back: true, .. }) || effect is SelectTheme {
            panel_keys::went_back(before, after)
        } else {
            after == before
        },
        Err(problem) => after == (Panel { error: Some(problem), ..before }),
    }
}

impl Panel {
    /// Chooses a value of the open list.
    pub fn select_assistant_choice(&self, index: usize, facts: &Facts) -> (r: Result<
        ChoiceEffect,
        String,
    >)
        ensures
            match chosen(*self, index, *facts) {
                Ok(effect) => r matches Ok(said) && said@ == effect,
                Err(problem) => r matches Err(said) && said@ == problem,
            },
    {
        match &self.choices {
            None => Err("选项已关闭".to_owned()),
            Some(choices) => {
                if index >= choices.values.len() {
                    return Err("选项已刷新".to_owned());
                }
                let value: &SettingValue = &choices.values[index].value;
                match &choices.target {
                    ChoiceTarget::Sending => {
                        let allow: bool = match value {
                            SettingValue::Bool(on) => *on,
                            SettingValue::Id(_) => false,
                        };
                        if allow != facts.sending_enabled || allow != facts.settings.automatic {
                            Ok(ChoiceEffect::Automatic(allow))
                        } else {
                            Ok(ChoiceEffect::Nothing)
                        }
                    },
                    ChoiceTarget::Option(id) => if choice_is_current(
                        &choices.target,
                        value,
                        facts,
                    ) {
                        Ok(ChoiceEffect::Nothing)
                    } else {
                        Ok(ChoiceEffect::Change { id: Some(id.clone()), value: value.copy() })
                    },
                    ChoiceTarget::ToolMode => if choice_is_current(
                        &choices.target,
                        value,
                        facts,
                    ) {
                        Ok(ChoiceEffect::Nothing)
                    } else {
                        Ok(ChoiceEffect::Change { id: None, value: value.copy() })
                    },
                }
            },
        }
    }

    /// Closes the list of choices once the choice was carried out, else keeps it and says why.
    pub fn settle_choice(&mut self, outcome: Result<(), String>)
        requires
            old(self).wf(),
        ensures
            final(self).wf(),
            *final(self) == match outcome {
                Ok(_) => (Panel { choices: None, ..*old(self) }),
                Err(problem) => (Panel { error: Some(problem), ..*old(self) }),
            },
    {
        match outcome {
            Ok(_) => {
                self.choices = None;
            },
            Err(problem) => {
                self.error = Some(problem);
            },
        }
    }

    /// Goes on once what a row asked for was carried out, else says why it was not.
    pub fn settle_row(&mut self, effect: Effect, outcome: Result<(), String>)
        requires
            old(self).wf(),
        ensures
            final(self).wf(),
            row_done(*old(self), *final(self), effect, outcome),
    {
        match outcome {
            Ok(_) => {
                let leaves: bool = match effect {
                    Effect::Save { back, .. } => back,
                    Effect::SelectTheme(_) => true,
                    _ => false,
                };
                if leaves {
                    self.back();
                }
            },
            Err(problem) => {
                self.error = Some(problem);
            },
        }
    }
}

/// What saving an edited text asks for.
#[derive(Debug)]
pub enum EditorEffect {
    Nothing,
    External { field: ExternalField, value: String },
    Search(String),
    HistorySeconds(u32),
    Workspace(String),
    Topic(String),
    Binary(String),
    Profile(String),
    Prompt(String),
    Name(String),
    Preferences(String),
    Skills(Vec<String>),
    BlockedWords(Vec<String>),
}

pub ghost enum EditorView {
    Nothing,
    External { field: ExternalField, value: Seq<char> },
    Search(Seq<char>),
    HistorySeconds(u32),
    Workspace(Seq<char>),
    Topic(Seq<char>),
    Binary(Seq<char>),
    Profile(Seq<char>),
    Prompt(Seq<char>),
    Name(Seq<char>),
    Preferences(Seq<char>),
    Skills(Seq<Seq<char>>),
    BlockedWords(Seq<Seq<char>>),
}

impl View for EditorEffect {
    type V = EditorView;

    open spec fn view(&self) -> EditorView {
        match *self {
            EditorEffect::Nothing => EditorView::Nothing,
            EditorEffect::External { field, value } => EditorView::External {
                field,
                value: value@,
            },
            EditorEffect::Search(query) => EditorView::Search(query@),
            EditorEffect::HistorySeconds(seconds) => EditorView::HistorySeconds(seconds),
            EditorEffect::Workspace(path) => EditorView::Workspace(path@),
            EditorEffect::Topic(topic) => EditorView::Topic(topic@),
            EditorEffect::Binary(path) => EditorView::Binary(path@),
            EditorEffect::Profile(profile) => EditorView::Profile(profile@),
            EditorEffect::Prompt(path) => EditorView::Prompt(path@),
            EditorEffect::Name(name) => EditorView::Name(name@),
            EditorEffect::Preferences(value) => EditorView::Preferences(value@),
            EditorEffect::Skills(skills) => EditorView::Skills(text::views(skills@)),
            EditorEffect::BlockedWords(words) => EditorView::BlockedWords(text::views(words@)),
        }
    }
}

/// What saving a text in a field asks for, or why it is refused.
pub open spec fn saved_value(field: Field, value: Seq<char>) -> Result<EditorView, Seq<char>> {
    match field {
        Field::External(field) => Ok(EditorView::External { field, value }),
        Field::ArchiveSearch => if text::trimmed(value).len() == 0 {
            Err("请输入搜索关键词"@)
        } else {
            Ok(EditorView::Search(text::trimmed(value)))
        },
        Field::HistorySeconds => match fields::seconds_of(text::trimmed(value)) {
            Some(seconds) => Ok(EditorView::HistorySeconds(seconds)),
            None => Err("请输入非负整数秒数"@),
        },
        Field::Workspace => Ok(EditorView::Workspace(text::trimmed(value))),
        Field::Topic => Ok(EditorView::Topic(value)),
        Field::Binary => Ok(EditorView::Binary(text::trimmed(value))),
        Field::Profile => Ok(EditorView::Profile(text::trimmed(value))),
        Field::Prompt => Ok(EditorView::Prompt(text::trimmed(value))),
        Field::Name => Ok(EditorView::Name(value)),
        Field::Preferences => Ok(EditorView::Preferences(value)),
        Field::Skills => Ok(EditorView::Skills(fields::entries_of(value))),
        Field::BlockedWords => Ok(EditorView::BlockedWords(fields::entries_of(value))),
    }
}

/// The panel after a save that was started outside. One that the panel does not wait for changes
/// nothing, and a text that was not saved stays.
pub open spec fn save_finished(
    before: Panel,
    after: Panel,
    token: u64,
    outcome: Result<Option<ObsConfiguration>, String>,
) -> bool {
    if before.pending_save != Some(token) {
        after == before
    } else {
        match outcome {
            Ok(configuration) => after == (Panel {
                pending_save: None,
                editor: None,
                error: None,
                obs_configuration: if configuration is Some {
                    configuration
                } else {
                    before.obs_configuration
                },
                ..before
            }),
            Err(problem) => {
                &&& after == (Panel { pending_save: None, error: after.error, ..before })
                &&& text::opt_view(after.error) == Some(
                    "保存失败："@ + problem@ + "（内容保留）"@,
                )
            },
        }
    }
}

/// The panel after a text was pasted, unless it was too long.
pub open spec fn paste_taken(before: Panel, after: Panel, clip: Seq<char>) -> bool {
    &&& after == (Panel { editor: after.editor, ..before })
    &&& match (before.editor, after.editor) {
        (Some((field, line)), Some((field_after, line_after))) => {
            &&& field_after == field
            &&& line_after.text() == input::inserted(
                line.text(),
                line.position(),
                input::pasted(events::sanitized(clip), true),
            )
            &&& line_after.position() == line.position() + input::pasted(
                events::sanitized(clip),
                true,
            ).len()
        },
        _ => false,
    }
}

impl Panel {
    /// What the text that is edited asks for when it is saved.
    pub fn save_assistant_editor(&self) -> (r: Result<EditorEffect, String>)
        ensures
            match self.editor {
                None => r matches Ok(EditorEffect::Nothing),
                Some((field, line)) => match saved_value(field, line.text()) {
                    Ok(effect) => r matches Ok(said) && said@ == effect,
                    Err(problem) => r matches Err(said) && said@ == problem,
                },
            },
    {
        match &self.editor {
            None => Ok(EditorEffect::Nothing),
            Some((field, line)) => {
                let value: &str = line.as_str();
                match *field {
                    Field::External(field) => Ok(
                        EditorEffect::External { field, value: value.to_owned() },
                    ),
                    Field::ArchiveSearch => {
                        let query: String = text::trim(value);
                        if query.as_str().is_empty() {
                            Err("请输入搜索关键词".to_owned())
                        } else {
                            Ok(EditorEffect::Search(query))
                        }
                    },
                    Field::HistorySeconds => match fields::parse_seconds(
                        text::trim(value).as_str(),
                    ) {
                        Some(seconds) => Ok(EditorEffect::HistorySeconds(seconds)),
                        None => Err("请输入非负整数秒数".to_owned()),
                    },
                    Field::Workspace => Ok(EditorEffect::Workspace(text::trim(value))),
                    Field::Topic => Ok(EditorEffect::Topic(value.to_owned())),
                    Field::Binary => Ok(EditorEffect::Binary(text::trim(value))),
                    Field::Profile => Ok(EditorEffect::Profile(text::trim(value))),
                    Field::Prompt => Ok(EditorEffect::Prompt(text::trim(value))),
                    Field::Name => Ok(EditorEffect::Name(value.to_owned())),
                    Field::Preferences => Ok(EditorEffect::Preferences(value.to_owned())),
                    Field::Skills => Ok(EditorEffect::Skills(fields::split_list(value))),
                    Field::BlockedWords => Ok(
                        EditorEffect::BlockedWords(fields::split_list(value)),
                    ),
                }
            },
        }
    }

    /// Waits for a save that was started outside.
    pub fn await_save(&mut self, token: u64)
        requires
            old(self).wf(),
        ensures
            final(self).wf(),
            *final(self) == (Panel { pending_save: Some(token), error: None, ..*old(self) }),
    {
        self.pending_save = Some(token);
        self.error = None;
    }

    /// Closes the editor once its text was saved. A text that was not saved stays.
    pub fn settle_editor(&mut self, outcome: Result<(), String>)
        requires
            old(self).wf(),
        ensures
            final(self).wf(),
            *final(self) == match outcome {
                Ok(_) => (Panel { editor: None, error: None, ..*old(self) }),
                Err(problem) => (Panel { error: Some(problem), ..*old(self) }),
            },
    {
        match outcome {
            Ok(_) => {
                self.editor = None;
                self.error = None;
            },
            Err(problem) => {
                self.error = Some(problem);
            },
        }
    }

    /// Takes the outcome of a save that was started outside. One that the panel does not wait for
    /// changes nothing, and a text that was not saved stays.
    pub fn finish_save(
        &mut self,
        token: u64,
        outcome: Result<Option<ObsConfiguration>, String>,
    )
        requires
            old(self).wf(),
        ensures
            final(self).wf(),
            save_finished(*old(self), *final(self), token, outcome),
    {
        let awaited: bool = match self.pending_save {
            Some(pending) => pending == token,
            None => false,
        };
        if !awaited {
            return;
        }
        self.pending_save = None;
        match outcome {
            Ok(configuration) => {
                self.editor = None;
                self.error = None;
                if configuration.is_some() {
                    self.obs_configuration = configuration;
                }
            },
            Err(problem) => {
                self.error = Some(
                    text::add3("保存失败：", problem.as_str(), "（内容保留）"),
                );
            },
        }
    }

    /// Pastes into the text that is edited. The answer says that the text was too long for that.
    pub fn paste_assistant(&mut self, clip: &str) -> (r: bool)
        requires
            old(self).wf(),
        ensures
            final(self).wf(),
            r == (takes_paste(*old(self)) && clip.spec_bytes().len() > PASTE_LIMIT),
            !takes_paste(*old(self)) || r ==> *final(self) == *old(self),
            takes_paste(*old(self)) && !r ==> paste_taken(*old(self), *final(self), clip@),
    {
        if self.choices.is_some() || self.pending_save.is_some() {
            return false;
        }
        match &mut self.editor {
            None => false,
            Some((_, line)) => {
                if text::byte_len(clip) > PASTE_LIMIT {
                    return true;
                }
                let clean: String = events::sanitize_input(clip.to_owned());
                line.insert_paste(clean.as_str(), true);
                false
            },
        }
    }
}

/// The bytes that one paste may hold.
pub const PASTE_LIMIT: usize = 4096;

/// The panel takes pasted text.
pub open spec fn takes_paste(panel: Panel) -> bool {
    panel.choices is None && panel.pending_save is None && panel.editor is Some
}

/// The settings after a text was saved into them, where it belongs there.
pub open spec fn edited_settings(
    before: AssistantSettings,
    after: AssistantSettings,
    effect: EditorView,
) -> bool {
    match effect {
        EditorView::Binary(path) => {
            &&& after == (AssistantSettings { binary: after.binary, ..before })
            &&& after.binary@ == path
        },
        EditorView::Profile(profile) => {
            &&& after == (AssistantSettings { source: after.source, ..before })
            &&& after.source matches Source::OmpProfile(value) && value@ == profile
        },
        EditorView::Prompt(path) => {
            &&& after == (AssistantSettings { source: after.source, ..before })
            &&& after.source matches Source::NativePrompt(value) && value@ == path
        },
        EditorView::Name(name) => {
            &&& after == (AssistantSettings { name: after.name, ..before })
            &&& after.name@ == name
        },
        EditorView::Preferences(value) => {
            &&& after == (AssistantSettings { preferences: after.preferences, ..before })
            &&& after.preferences@ == value
        },
        EditorView::Skills(skills) => {
            &&& after == (AssistantSettings { skills: after.skills, ..before })
            &&& text::views(after.skills@) == skills
        },
        EditorView::BlockedWords(words) => {
            &&& after == (AssistantSettings { blocked_words: after.blocked_words, ..before })
            &&& text::views(after.blocked_words@) == words
        },
        _ => after == before,
    }
}

/// The text goes into the assistant's settings, and asks for a new context.
pub open spec fn is_setting(effect: EditorView) -> bool {
    effect is Binary || effect is Profile || effect is Prompt || effect is Name
        || effect is Preferences || effect is Skills || effect is BlockedWords
}

impl AssistantSettings {
    /// Takes a saved text in. The answer says that the text belongs to these settings.
    pub fn take_edit(&mut self, effect: EditorEffect) -> (r: bool)
        ensures
            r == is_setting(effect@),
            edited_settings(*old(self), *final(self), effect@),
    {
        match effect {
            EditorEffect::Binary(path) => {
                self.binary = path;
                true
            },
            EditorEffect::Profile(profile) => {
                self.source = Source::OmpProfile(profile);
                true
            },
            EditorEffect::Prompt(path) => {
                self.source = Source::NativePrompt(path);
                true
            },
            EditorEffect::Name(name) => {
                self.name = name;
                true
            },
            EditorEffect::Preferences(value) => {
                self.preferences = value;
                true
            },
            EditorEffect::Skills(skills) => {
                self.skills = skills;
                true
            },
            EditorEffect::BlockedWords(words) => {
                self.blocked_words = words;
                true
            },
            _ => false,
        }
    }
}

/// What using a row of the menu asks for.
#[derive(Clone, Copy, Debug, PartialEq, Eq, Structural)]
pub enum Activation {
    /// The diagnostics page was opened.
    Diagnostics,
    Run(MenuCommand),
    /// Begins to sign the main account in.
    Login,
    /// For `Effect::PrepareAssistantLogin` the sign-in of the assistant's account begins after the
    /// effect, and ends that of the main account.
    Effect(Effect),
}

pub open spec fn activation_closes(activation: Activation) -> bool {
    match activation {
        Activation::Run(command) => command is Help || command is Quit,
        Activation::Effect(effect) => panel_actions::effect_closes(effect),
        _ => false,
    }
}

impl Activation {
    /// The panel closes afterwards.
    pub fn closes(self) -> (r: bool)
        ensures
            r == activation_closes(self),
    {
        match self {
            Activation::Run(command) => matches!(command, MenuCommand::Help | MenuCommand::Quit),
            Activation::Effect(effect) => effect.closes(),
            _ => false,
        }
    }
}

/// What using a row of the menu asks for, or why it does nothing.
pub open spec fn activated(panel: Panel, index: usize, facts: Facts) -> Result<
    Activation,
    Seq<char>,
> {
    let rows = panel::page_rows(panel, facts);
    if index >= rows.len() {
        Err("菜单已变化，请重新操作"@)
    } else {
        match rows[index as int] {
            Row::Command(MenuCommand::Diag) => Ok(Activation::Diagnostics),
            Row::Command(command) => Ok(Activation::Run(command)),
            row => match panel_actions::row_effect(panel, row, facts) {
                Ok(effect) => if row is Login {
                    Ok(Activation::Login)
                } else {
                    Ok(Activation::Effect(effect))
                },
                Err(problem) => Err(problem),
            },
        }
    }
}

/// The panel after a row of the menu was used.
pub open spec fn activation_done(before: Panel, after: Panel, index: usize, facts: Facts) -> bool {
    match activated(before, index, facts) {
        Ok(Activation::Diagnostics) => panel_actions::went_to(before, after, Page::Diagnostics),
        Ok(Activation::Run(_)) => after == before,
        Ok(_) => panel_actions::panel_after(
            before,
            after,
            panel::page_rows(before, facts)[index as int],
            facts,
        ),
        Err(_) => after == before,
    }
}

impl Panel {
    /// Uses a row of the menu.
    pub fn activate_assistant_row(&mut self, index: usize, facts: &Facts) -> (r: Result<
        Activation,
        String,
    >)
        requires
            old(self).wf(),
        ensures
            final(self).wf(),
            match activated(*old(self), index, *facts) {
                Ok(activation) => {
                    &&& r == Ok::<Activation, String>(activation)
                    &&& activation_done(*old(self), *final(self), index, *facts)
                },
                Err(problem) => {
                    &&& r matches Err(said) && said@ == problem
                    &&& *final(self) == *old(self)
                },
            },
    {
        let rows: Vec<Row> = self.rows(facts);
        if index >= rows.len() {
            return Err("菜单已变化，请重新操作".to_owned());
        }
        let row: Row = rows[index];
        if let Row::Command(command) = row {
            if matches!(command, MenuCommand::Diag) {
                self.navigate(Page::Diagnostics);
                return Ok(Activation::Diagnostics);
            }
            return Ok(Activation::Run(command));
        }
        match self.apply_assistant_row(row, facts) {
            Ok(effect) => if matches!(row, Row::Login) {
                Ok(Activation::Login)
            } else {
                Ok(Activation::Effect(effect))
            },
            Err(problem) => Err(problem),
        }
    }

    /// A panel that stands at the settings.
    pub fn open_settings() -> (r: Self)
        ensures
            r.wf(),
            r.page == Page::Settings,
            r.row == 1,
            is_fresh(r),
    {
        let mut panel: Panel = Panel::new();
        panel.page = Page::Settings;
        panel.row = 1;
        panel
    }

    /// A panel that stands at a page, with nothing to go back to.
    pub fn open_direct(page: Page) -> (r: Self)
        ensures
            r.wf(),
            r.page == page,
            r.row == 0,
            is_fresh(r),
    {
        let mut panel: Panel = Panel::new();
        panel.page = page;
        panel
    }

    /// A panel that tells about the program.
    pub fn open_about() -> (r: Self)
        ensures
            r.wf(),
            r.page == Page::About,
            r.row == 0,
            r.expanded,
            is_fresh(Panel { expanded: false, ..r }),
    {
        let mut panel: Panel = Panel::open_direct(Page::About);
        panel.expanded = true;
        panel
    }

    /// A panel that asks what to look for in the archive.
    pub fn open_archive_search() -> (r: Self)
        ensures
            r.wf(),
            r.page == Page::Settings,
            r.row == 1,
            is_fresh(Panel { editor: None, ..r }),
            r.editor matches Some((field, line)) && field == Field::ArchiveSearch && line.text().len()
                == 0,
    {
        let mut panel: Panel = Panel::open_settings();
        panel.editor = Some((Field::ArchiveSearch, EditorInput::new()));
        panel
    }
}

/// The panel was just opened: Esc closes it, and nothing is edited, chosen, unfolded or found.
pub open spec fn is_fresh(panel: Panel) -> bool {
    &&& panel.history@.len() == 0
    &&& panel.editor is None
    &&& panel.choices is None
    &&& panel.pending_save is None
    &&& panel.error is None
    &&& panel.scroll == 0
    &&& panel.list_offset == 0
    &&& !panel.expanded
    &&& !panel.thanks_expanded
    &&& panel.advanced_group is None
    &&& panel.discovered@.len() == 0
    &&& panel.obs_configuration is None
    &&& panel.menu_height == 5
}

/// A page that was opened directly closes at once: no page stands behind it.
pub proof fn law_direct_pages_close_at_once(
    panel: Panel,
    key: crate::keys::KeyEvent,
    facts: Facts,
)
    requires
        is_fresh(panel),
        key.code == crate::keys::KeyCode::Esc,
    ensures
        panel_keys::key_action(panel, key, facts) == panel_keys::PanelAction::Close,
{
}

pub open spec fn section_page(section: Seq<char>) -> Option<Page> {
    if section == "account"@ {
        Some(Page::Account)
    } else if section == "obs"@ {
        Some(Page::Obs)
    } else if section == "ai"@ {
        Some(Page::AiSettings)
    } else if section == "system"@ {
        Some(Page::System)
    } else if section == "reading"@ {
        Some(Page::Reading)
    } else {
        None
    }
}

/// The page of a settings section.
pub fn open_settings_section(section: &str) -> (r: Option<Page>)
    ensures
        r == section_page(section@),
{
    if text::same(section, "account") {
        Some(Page::Account)
    } else if text::same(section, "obs") {
        Some(Page::Obs)
    } else if text::same(section, "ai") {
        Some(Page::AiSettings)
    } else if text::same(section, "system") {
        Some(Page::System)
    } else if text::same(section, "reading") {
        Some(Page::Reading)
    } else {
        None
    }
}

/// A display setting that a command changes.
#[derive(Clone, Copy, Debug, PartialEq, Eq, Structural)]
pub enum Display {
    Names(bool),
    Times(bool),
    Chat(bool),
}

pub open spec fn display_of(setting: Seq<char>, value: Seq<char>) -> Option<Display> {
    if setting == "names"@ && (value == "on"@ || value == "off"@) {
        Some(Display::Names(value == "on"@))
    } else if setting == "time"@ && (value == "on"@ || value == "off"@) {
        Some(Display::Times(value == "on"@))
    } else if setting == "layout"@ && (value == "chat"@ || value == "list"@) {
        Some(Display::Chat(value == "chat"@))
    } else {
        None
    }
}

/// The display setting that a command names, if any.
pub fn configure_display(setting: &str, value: &str) -> (r: Option<Display>)
    ensures
        r == display_of(setting@, value@),
{
    let on: bool = text::same(value, "on");
    let chat: bool = text::same(value, "chat");
    if text::same(setting, "names") && (on || text::same(value, "off")) {
        Some(Display::Names(on))
    } else if text::same(setting, "time") && (on || text::same(value, "off")) {
        Some(Display::Times(on))
    } else if text::same(setting, "layout") && (chat || text::same(value, "list")) {
        Some(Display::Chat(chat))
    } else {
        None
    }
}

/// The first step of starting the assistant.
#[derive(Clone, Copy, Debug, PartialEq, Eq, Structural)]
pub enum StartStep {
    /// It runs already, and nothing asks for a new context.
    Running,
    /// No tool was chosen yet: look for one.
    Discover { rebuild: bool },
    /// A tool was chosen: see whether its program is there.
    CheckProgram { rebuild: bool },
}

pub open spec fn start_step(rebuild: bool, facts: Facts) -> StartStep {
    let rebuild = rebuild || facts.needs_rebuild;
    if facts.running && !rebuild {
        StartStep::Running
    } else if !facts.saved_settings {
        StartStep::Discover { rebuild }
    } else {
        StartStep::CheckProgram { rebuild }
    }
}

/// The first step of starting the assistant.
pub fn start_assistant(rebuild: bool, facts: &Facts) -> (r: StartStep)
    ensures
        r == start_step(rebuild, *facts),
{
    let rebuild: bool = rebuild || facts.needs_rebuild;
    if facts.running && !rebuild {
        StartStep::Running
    } else if !facts.saved_settings {
        StartStep::Discover { rebuild }
    } else {
        StartStep::CheckProgram { rebuild }
    }
}

/// How many tools have a program.
pub open spec fn available(found: Seq<Discovery>) -> nat
    decreases found.len(),
{
    if found.len() == 0 {
        0
    } else {
        available(found.drop_last()) + if found.last().program is Some {
            1nat
        } else {
            0
        }
    }
}

/// The last tool with a program: the only one, where there is one.
pub open spec fn last_available(found: Seq<Discovery>) -> int
    decreases found.len(),
{
    if found.len() == 0 {
        0
    } else if found.last().program is Some {
        found.len() - 1
    } else {
        last_available(found.drop_last())
    }
}

/// Which tool is used where none was chosen.
#[derive(Clone, Copy, Debug, PartialEq, Eq, Structural)]
pub enum ToolChoice {
    NoneFound,
    SeveralFound,
    /// The only tool that was found, by its place.
    Only(usize),
    /// A program was named already.
    Named,
}

pub open spec fn tool_choice(found: Seq<Discovery>, settings: AssistantSettings) -> ToolChoice {
    if available(found) == 0 {
        ToolChoice::NoneFound
    } else if available(found) > 1 {
        ToolChoice::SeveralFound
    } else if settings.binary@.len() == 0 {
        ToolChoice::Only(last_available(found) as usize)
    } else {
        ToolChoice::Named
    }
}

/// Which tool is used where none was chosen: the only one, and never one of several.
pub fn choose_tool(found: &Vec<Discovery>, settings: &AssistantSettings) -> (r: ToolChoice)
    ensures
        r == tool_choice(found@, *settings),
        r matches ToolChoice::Only(i) ==> i < found@.len() && found@[i as int].program is Some,
{
    let mut count: usize = 0;
    let mut last: usize = 0;
    let mut i: usize = 0;
    proof {
        assert(found@.take(0) =~= Seq::empty());
    }
    while i < found.len()
        invariant
            i <= found@.len(),
            count <= i,
            count == available(found@.take(i as int)),
            last == last_available(found@.take(i as int)),
            count > 0 ==> last < i && found@[last as int].program is Some,
        decreases found@.len() - i,
    {
        proof {
            assert(found@.take(i + 1).drop_last() =~= found@.take(i as int));
        }
        if found[i].program.is_some() {
            count = count + 1;
            last = i;
        }
        i = i + 1;
    }
    proof {
        assert(found@.take(i as int) =~= found@);
    }
    if count == 0 {
        ToolChoice::NoneFound
    } else if count > 1 {
        ToolChoice::SeveralFound
    } else if settings.binary.as_str().is_empty() {
        ToolChoice::Only(last)
    } else {
        ToolChoice::Named
    }
}

impl ToolChoice {
    /// What the page that asks for a tool says.
    pub fn question(self) -> (r: Option<&'static str>)
        ensures
            match self {
                ToolChoice::NoneFound => r matches Some(said) && said@
                    == "未发现可用 AI 工具；可安装适配器或指定 ACP 程序"@,
                ToolChoice::SeveralFound => r matches Some(said) && said@
                    == "发现多个 AI 工具，请明确选择"@,
                _ => r is None,
            },
    {
        match self {
            ToolChoice::NoneFound => Some(
                "未发现可用 AI 工具；可安装适配器或指定 ACP 程序",
            ),
            ToolChoice::SeveralFound => Some("发现多个 AI 工具，请明确选择"),
            _ => None,
        }
    }
}

/// A choice sets the value that stands at its place, for what the choices are about.
pub proof fn law_the_chosen_value_is_set(panel: Panel, index: usize, facts: Facts)
    requires
        panel.choices is Some,
        index < panel.choices->0.values@.len(),
    ensures
        ({
            let choices = panel.choices->0;
            let value = choices.values@[index as int].value@;
            let r = chosen(panel, index, facts);
            &&& r is Ok
            &&& r->Ok_0 is Change ==> r->Ok_0->value == value && !(choices.target is Sending)
            &&& r->Ok_0 is Change && choices.target is Option ==> r->Ok_0->id == Some(
                choices.target->Option_0@,
            )
            &&& r->Ok_0 is Change && choices.target is ToolMode ==> r->Ok_0->id is None
            &&& choices.target is Sending && value == panel::SettingView::Bool(false) && (
            facts.sending_enabled || facts.settings.automatic) ==> r->Ok_0 == ChoiceView::Automatic(
                false,
            )
            &&& choices.target is Sending && value == panel::SettingView::Bool(true)
                && !facts.sending_enabled ==> r->Ok_0 == ChoiceView::Automatic(true)
        }),
{
}

/// Saving a field hands on its own value: as it was typed, or without the white space around it;
/// seconds must be a number, and a search must look for something.
pub proof fn law_a_field_saves_its_own_value(field: Field, value: Seq<char>)
    ensures
        field is External ==> saved_value(field, value) == Ok::<EditorView, Seq<char>>(
            EditorView::External { field: field->External_0, value },
        ),
        field == Field::Topic ==> saved_value(field, value) == Ok::<EditorView, Seq<char>>(
            EditorView::Topic(value),
        ),
        field == Field::Name ==> saved_value(field, value) == Ok::<EditorView, Seq<char>>(
            EditorView::Name(value),
        ),
        field == Field::Preferences ==> saved_value(field, value) == Ok::<EditorView, Seq<char>>(
            EditorView::Preferences(value),
        ),
        field == Field::Workspace ==> saved_value(field, value) == Ok::<EditorView, Seq<char>>(
            EditorView::Workspace(text::trimmed(value)),
        ),
        field == Field::Binary ==> saved_value(field, value) == Ok::<EditorView, Seq<char>>(
            EditorView::Binary(text::trimmed(value)),
        ),
        field == Field::Profile ==> saved_value(field, value) == Ok::<EditorView, Seq<char>>(
            EditorView::Profile(text::trimmed(value)),
        ),
        field == Field::Prompt ==> saved_value(field, value) == Ok::<EditorView, Seq<char>>(
            EditorView::Prompt(text::trimmed(value)),
        ),
        field == Field::ArchiveSearch ==> (saved_value(field, value) is Err <==> text::trimmed(
            value,
        ).len() == 0),
        field == Field::ArchiveSearch && text::trimmed(value).len() > 0 ==> saved_value(field, value)
            == Ok::<EditorView, Seq<char>>(EditorView::Search(text::trimmed(value))),
        field == Field::HistorySeconds ==> (saved_value(field, value) is Ok <==> fields::seconds_of(
            text::trimmed(value),
        ) is Some),
{
}

/// A list that is shown and saved again unchanged is the same list, provided its entries hold no
/// separators and no white space at their ends.
pub proof fn law_an_unchanged_list_saves_itself(entries: Seq<Seq<char>>)
    requires
        forall|i: int|
            0 <= i < entries.len() ==> {
                let entry = #[trigger] entries[i];
                &&& entry.len() > 0
                &&& !text::is_whitespace(entry[0])
                &&& !text::is_whitespace(entry.last())
                &&& forall|j: int|
                    0 <= j < entry.len() ==> entry[j] != ',' && entry[j] != '，' && entry[j] != ';'
                        && entry[j] != '；' && entry[j] != '\n'
            },
    ensures
        saved_value(Field::BlockedWords, text::joined(entries, "，"@)) == Ok::<
            EditorView,
            Seq<char>,
        >(EditorView::BlockedWords(entries)),
        saved_value(Field::Skills, text::joined(entries, "，"@)) == Ok::<EditorView, Seq<char>>(
            EditorView::Skills(entries),
        ),
{
    lemma_entries_read_back(entries);
}

proof fn lemma_entries_read_back(entries: Seq<Seq<char>>)
    requires
        forall|i: int|
            0 <= i < entries.len() ==> {
                let entry = #[trigger] entries[i];
                &&& entry.len() > 0
                &&& !text::is_whitespace(entry[0])
                &&& !text::is_whitespace(entry.last())
                &&& forall|j: int|
                    0 <= j < entry.len() ==> entry[j] != ',' && entry[j] != '，' && entry[j] != ';'
                        && entry[j] != '；' && entry[j] != '\n'
            },
    ensures
        fields::entries_of(text::joined(entries, "，"@)) == entries,
    decreases entries.len(),
{
    reveal_strlit("，");
    assert("，"@ =~= seq!['，']);
    let none = Seq::<char>::empty();
    if entries.len() == 0 {
        fields::law_entries_are_read_off(none, ',', none);
        assert(text::is_blank(none));
        text::law_trimming_finds_the_text_between(none, none, none);
        assert(none + none + none =~= none);
        assert(fields::entries_of(none) =~= entries);
    } else {
        let first = entries[0];
        let rest = entries.skip(1);
        assert forall|i: int| 0 <= i < rest.len() implies {
            let entry = #[trigger] rest[i];
            &&& entry.len() > 0
            &&& !text::is_whitespace(entry[0])
            &&& !text::is_whitespace(entry.last())
            &&& forall|j: int|
                0 <= j < entry.len() ==> entry[j] != ',' && entry[j] != '，' && entry[j] != ';'
                    && entry[j] != '；' && entry[j] != '\n'
        } by {
            assert(rest[i] == entries[i + 1]);
        }
        lemma_entries_read_back(rest);
        assert(text::is_blank(none));
        text::law_trimming_finds_the_text_between(none, first, none);
        assert(none + first + none =~= first);
        let others = text::joined(rest, "，"@);
        fields::law_entries_are_read_off(first, '，', others);
        if entries.len() > 1 {
            text::law_joining_puts_the_separator_between(entries, "，"@);
            assert(seq![first] + rest =~= entries);
        } else {
            assert(seq![first] =~= entries);
        }
    }
}

/// The end of another save changes nothing; where a save fails, what was typed stays and the
/// failure is told.
pub proof fn law_a_failed_save_keeps_what_was_typed(
    before: Panel,
    after: Panel,
    token: u64,
    outcome: Result<Option<ObsConfiguration>, String>,
)
    requires
        save_finished(before, after, token, outcome),
    ensures
        before.pending_save != Some(token) ==> after == before,
        before.pending_save == Some(token) ==> after.pending_save is None,
        before.pending_save == Some(token) && outcome is Err ==> after.editor == before.editor
            && after.error is Some,
        before.pending_save == Some(token) && outcome is Ok ==> after.editor is None && after.error
            is None,
        before.pending_save == Some(token) && outcome is Ok && outcome->Ok_0 is Some
            ==> after.obs_configuration == outcome->Ok_0,
{
}

/// Each word for a setting of the display sets just that, on or off, and no other word does.
pub proof fn law_display_words_set_what_they_say(setting: Seq<char>, value: Seq<char>)
    ensures
        display_of(setting, value) == Some(Display::Names(true)) <==> setting == "names"@ && value
            == "on"@,
        display_of(setting, value) == Some(Display::Names(false)) <==> setting == "names"@ && value
            == "off"@,
        display_of(setting, value) == Some(Display::Times(true)) <==> setting == "time"@ && value
            == "on"@,
        display_of(setting, value) == Some(Display::Times(false)) <==> setting == "time"@ && value
            == "off"@,
        display_of(setting, value) == Some(Display::Chat(true)) <==> setting == "layout"@ && value
            == "chat"@,
        display_of(setting, value) == Some(Display::Chat(false)) <==> setting == "layout"@ && value
            == "list"@,
{
    reveal_strlit("names");
    reveal_strlit("time");
    reveal_strlit("layout");
    reveal_strlit("on");
    reveal_strlit("off");
    reveal_strlit("chat");
    reveal_strlit("list");
    assert("names"@.len() == 5 && "time"@.len() == 4 && "layout"@.len() == 6);
    assert("on"@.len() == 2 && "off"@.len() == 3);
    assert("chat"@[0] == 'c' && "list"@[0] == 'l');
}

/// Each name of a part of the settings opens that part, and no other name opens any.
pub proof fn law_sections_open_their_page(section: Seq<char>)
    ensures
        section_page(section) == Some(Page::Account) <==> section == "account"@,
        section_page(section) == Some(Page::Obs) <==> section == "obs"@,
        section_page(section) == Some(Page::AiSettings) <==> section == "ai"@,
        section_page(section) == Some(Page::System) <==> section == "system"@,
        section_page(section) == Some(Page::Reading) <==> section == "reading"@,
{
    reveal_strlit("account");
    reveal_strlit("obs");
    reveal_strlit("ai");
    reveal_strlit("system");
    reveal_strlit("reading");
    assert("account"@[0] == 'a' && "reading"@[0] == 'r');
    assert("obs"@.len() == 3 && "ai"@.len() == 2 && "system"@.len() == 6);
}

/// A tool is taken by itself exactly where it is the only one that was found and none is named.
pub proof fn law_the_only_tool_is_taken(found: Seq<Discovery>, settings: AssistantSettings)
    ensures
        tool_choice(found, settings) is NoneFound <==> forall|i: int|
            0 <= i < found.len() ==> (#[trigger] found[i]).program is None,
        tool_choice(found, settings) is Only ==> settings.binary@.len() == 0,
        tool_choice(found, settings) is Only && found.len() <= usize::MAX ==> ({
            let at = tool_choice(found, settings)->Only_0 as int;
            &&& at < found.len()
            &&& found[at].program is Some
            &&& forall|i: int|
                0 <= i < found.len() && i != at ==> (#[trigger] found[i]).program is None
        }),
        tool_choice(found, settings) is Named ==> settings.binary@.len() > 0,
        (exists|i: int, j: int|
            0 <= i < j < found.len() && (#[trigger] found[i]).program is Some && (
            #[trigger] found[j]).program is Some) ==> tool_choice(found, settings) is SeveralFound,
{
    lemma_available(found);
    if exists|i: int, j: int|
        0 <= i < j < found.len() && (#[trigger] found[i]).program is Some && (
        #[trigger] found[j]).program is Some {
        let (i, j) = choose|i: int, j: int|
            0 <= i < j < found.len() && (#[trigger] found[i]).program is Some && (
            #[trigger] found[j]).program is Some;
        if available(found) == 1 {
            assert(i == last_available(found));
            assert(j == last_available(found));
        }
    }
}

proof fn lemma_available(found: Seq<Discovery>)
    ensures
        available(found) == 0 <==> forall|i: int|
            0 <= i < found.len() ==> (#[trigger] found[i]).program is None,
        available(found) > 0 ==> 0 <= last_available(found) < found.len() && found[last_available(
            found,
        )].program is Some,
        available(found) == 1 ==> forall|i: int|
            0 <= i < found.len() && i != last_available(found) ==> (#[trigger] found[i]).program
                is None,
    decreases found.len(),
{
    if found.len() > 0 {
        let rest = found.drop_last();
        lemma_available(rest);
        assert(found[found.len() - 1] == found.last());
        if available(rest) == 0 {
            assert forall|i: int| 0 <= i < found.len() - 1 implies (#[trigger] found[i]).program
                is None by {
                assert(rest[i].program is None);
            }
        } else {
            assert(rest[last_available(rest)] == found[last_available(rest)]);
        }
        if available(found) == 1 && found.last().program is None {
            assert forall|i: int|
                0 <= i < found.len() && i != last_available(found) implies (
            #[trigger] found[i]).program is None by {
                if i < rest.len() {
                    assert(rest[i].program is None);
                }
            }
        }
        if available(found) == 0 {
            assert forall|i: int| 0 <= i < found.len() implies (#[trigger] found[i]).program
                is None by {
                if i < rest.len() {
                    assert(rest[i].program is None);
                }
            }
        }
    }
}

/// Starting an assistant that runs and needs nothing new only tells so; otherwise the tool is
/// looked for first where none was ever saved.
pub proof fn law_a_running_assistant_is_not_started_again(rebuild: bool, facts: Facts)
    ensures
        start_step(rebuild, facts) is Running <==> facts.running && !rebuild
            && !facts.needs_rebuild,
        start_step(rebuild, facts) is Discover <==> !(facts.running && !rebuild
            && !facts.needs_rebuild) && !facts.saved_settings,
        start_step(rebuild, facts) matches StartStep::CheckProgram { rebuild: anew } ==> anew == (
        rebuild || facts.needs_rebuild),
{
}

/// Activating a row does what that row does; a row that is no longer there does nothing.
pub proof fn law_the_selected_row_is_activated(panel: Panel, index: usize, facts: Facts)
    ensures
        ({
            let rows = panel::page_rows(panel, facts);
            let r = activated(panel, index, facts);
            &&& index >= rows.len() ==> r is Err
            &&& index < rows.len() && rows[index as int] is Command && rows[index as int]->Command_0
                != MenuCommand::Diag ==> r == Ok::<Activation, Seq<char>>(
                Activation::Run(rows[index as int]->Command_0),
            )
            &&& r matches Ok(Activation::Effect(effect)) ==> panel_actions::row_effect(
                panel,
                rows[index as int],
                facts,
            ) == Ok::<panel_actions::Effect, Seq<char>>(effect)
            &&& r matches Ok(Activation::Run(command)) ==> rows[index as int] == Row::Command(
                command,
            )
        }),
{
}

/// What was edited is the one setting that changes, to what was saved.
pub proof fn law_an_edit_changes_its_own_setting(
    before: AssistantSettings,
    after: AssistantSettings,
    effect: EditorView,
)
    requires
        edited_settings(before, after, effect),
    ensures
        effect is Name ==> after.name@ == effect->Name_0,
        !(effect is Name) ==> after.name == before.name,
        effect is Preferences ==> after.preferences@ == effect->Preferences_0,
        !(effect is Preferences) ==> after.preferences == before.preferences,
        effect is Binary ==> after.binary@ == effect->Binary_0,
        !(effect is Binary) ==> after.binary == before.binary,
        effect is BlockedWords ==> text::views(after.blocked_words@) == effect->BlockedWords_0,
        !(effect is BlockedWords) ==> after.blocked_words == before.blocked_words,
        effect is Skills ==> text::views(after.skills@) == effect->Skills_0,
        !(effect is Skills) ==> after.skills == before.skills,
        !(effect is Profile || effect is Prompt) ==> after.source == before.source,
        effect is Profile ==> after.source is OmpProfile,
        effect is Prompt ==> after.source is NativePrompt,
        after.automatic == before.automatic,
        after.switches == before.switches,
        after.host == before.host,
{
}

} // verus!
