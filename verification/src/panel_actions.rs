//! What the rows of the panel do, and what the texts and choices made there change.
use vstd::prelude::*;
use vstd::string::*;

use crate::commands::ExternalField;
use crate::input::EditorInput;
use crate::panel;
use crate::panel::{
    Action, AssistantSettings, Choice, ChoiceTarget, Choices, Discovery, Facts, Field, Page, Panel,
    PersonaKind, PresetFacts, ReplyActivity, Row, SettingValue, Source, Switch, Switches,
};
use crate::panel_keys;
use crate::text;

verus! {

/// A change of the assistant's settings that a row makes.
#[derive(Clone, Copy, Debug, PartialEq, Eq, Structural)]
pub enum Change {
    /// The settings stay, but are written down.
    Confirm,
    Preset(usize),
    Host(usize),
    Persona,
    Activity(ReplyActivity),
    WebSearch,
    Toggle(Switch),
    DefaultSource,
}

/// What a row asks of the rest of the program.
#[derive(Clone, Copy, Debug, PartialEq, Eq, Structural)]
pub enum Effect {
    Nothing,
    /// Saves changed settings. Some changes ask for a new context, and some go back a page once
    /// they are saved.
    Save { change: Change, rebuild: bool, back: bool },
    ChatLayout(bool),
    ShowNames(bool),
    ShowTimes(bool),
    SelectTheme(usize),
    ReloadThemes,
    Discover,
    SignOutMain,
    ReuseMain,
    SignOutIndependent,
    PrepareAssistantLogin,
    CancelAssistantLogin,
    OverrideActivity(ReplyActivity),
    RestoreTopic,
    ConnectOptions,
    Pause,
    Start { visible: bool, rebuild: bool },
    NextCandidate,
    EditReview,
    DiscardReview,
    ApproveReview,
    ReviewAll { approve: bool },
    Stop,
    RepairHistory,
}

/// The panel closes once the effect has happened.
pub open spec fn effect_closes(effect: Effect) -> bool {
    effect is DiscardReview || effect is ApproveReview || effect is ReviewAll || effect is Stop
}

impl Effect {
    pub fn closes(self) -> (r: bool)
        ensures
            r == effect_closes(self),
    {
        match self {
            Effect::DiscardReview
            | Effect::ApproveReview
            | Effect::ReviewAll { .. }
            | Effect::Stop => true,
            _ => false,
        }
    }
}

/// The switches that a preset sets; those on what the assistant may read stay.
pub open spec fn preset_switches(switches: Switches, preset: PresetFacts) -> Switches {
    Switches {
        use_profile: switches.use_profile,
        use_project: switches.use_project,
        thank_gifts: preset.thank_gifts,
        thank_likes: preset.thank_likes,
        thank_follows: preset.thank_follows,
        thank_shares: preset.thank_shares,
        mention_sender: preset.mention_sender,
        repair_blocked: preset.repair_blocked,
        host_priority: preset.host_priority,
        muted_support: preset.muted_support,
    }
}

/// A preset would change something.
pub open spec fn preset_differs(settings: AssistantSettings, preset: PresetFacts) -> bool {
    !(settings.reply_activity == preset.reply_activity && settings.web_search == preset.web_search
        && settings.switches == preset_switches(settings.switches, preset))
}

/// The settings with those of a preset.
pub open spec fn with_preset(settings: AssistantSettings, preset: PresetFacts) -> AssistantSettings {
    AssistantSettings {
        reply_activity: preset.reply_activity,
        web_search: preset.web_search,
        switches: preset_switches(settings.switches, preset),
        ..settings
    }
}

/// The switches with one turned over.
pub open spec fn toggled(switches: Switches, switch: Switch) -> Switches {
    match switch {
        Switch::UseProfile => Switches { use_profile: !switches.use_profile, ..switches },
        Switch::UseProject => Switches { use_project: !switches.use_project, ..switches },
        Switch::ThankGifts => Switches { thank_gifts: !switches.thank_gifts, ..switches },
        Switch::ThankLikes => Switches { thank_likes: !switches.thank_likes, ..switches },
        Switch::ThankFollows => Switches { thank_follows: !switches.thank_follows, ..switches },
        Switch::ThankShares => Switches { thank_shares: !switches.thank_shares, ..switches },
        Switch::MentionSender => Switches { mention_sender: !switches.mention_sender, ..switches },
        Switch::RepairBlocked => Switches { repair_blocked: !switches.repair_blocked, ..switches },
        Switch::HostPriority => Switches { host_priority: !switches.host_priority, ..switches },
        Switch::MutedSupport => Switches { muted_support: !switches.muted_support, ..switches },
    }
}

pub open spec fn other_persona(persona: PersonaKind) -> PersonaKind {
    match persona {
        PersonaKind::Assistant => PersonaKind::Broadcaster,
        PersonaKind::Broadcaster => PersonaKind::Assistant,
    }
}

/// The program that was found for a host, or nothing.
pub open spec fn program_found(discovered: Seq<Discovery>, host: usize) -> Seq<char>
    decreases discovered.len(),
{
    if discovered.len() == 0 {
        Seq::empty()
    } else if discovered[0].host == host {
        match discovered[0].program {
            Some(program) => program@,
            None => Seq::empty(),
        }
    } else {
        program_found(discovered.skip(1), host)
    }
}

/// The program that was found for a host, or nothing.
pub fn program_of(discovered: &Vec<Discovery>, host: usize) -> (r: String)
    ensures
        r@ == program_found(discovered@, host),
{
    let mut i: usize = 0;
    proof {
        assert(discovered@.skip(0) =~= discovered@);
    }
    while i < discovered.len()
        invariant
            i <= discovered@.len(),
            program_found(discovered@, host) == program_found(discovered@.skip(i as int), host),
        decreases discovered@.len() - i,
    {
        proof {
            assert(discovered@.skip(i as int).skip(1) =~= discovered@.skip(i + 1));
        }
        if discovered[i].host == host {
            return match &discovered[i].program {
                Some(program) => program.clone(),
                None => String::new(),
            };
        }
        i = i + 1;
    }
    String::new()
}

pub fn take_preset(switches: Switches, preset: &PresetFacts) -> (r: Switches)
    ensures
        r == preset_switches(switches, *preset),
{
    Switches {
        use_profile: switches.use_profile,
        use_project: switches.use_project,
        thank_gifts: preset.thank_gifts,
        thank_likes: preset.thank_likes,
        thank_follows: preset.thank_follows,
        thank_shares: preset.thank_shares,
        mention_sender: preset.mention_sender,
        repair_blocked: preset.repair_blocked,
        host_priority: preset.host_priority,
        muted_support: preset.muted_support,
    }
}

fn toggle(switches: Switches, switch: Switch) -> (r: Switches)
    ensures
        r == toggled(switches, switch),
{
    match switch {
        Switch::UseProfile => Switches { use_profile: !switches.use_profile, ..switches },
        Switch::UseProject => Switches { use_project: !switches.use_project, ..switches },
        Switch::ThankGifts => Switches { thank_gifts: !switches.thank_gifts, ..switches },
        Switch::ThankLikes => Switches { thank_likes: !switches.thank_likes, ..switches },
        Switch::ThankFollows => Switches { thank_follows: !switches.thank_follows, ..switches },
        Switch::ThankShares => Switches { thank_shares: !switches.thank_shares, ..switches },
        Switch::MentionSender => Switches { mention_sender: !switches.mention_sender, ..switches },
        Switch::RepairBlocked => Switches { repair_blocked: !switches.repair_blocked, ..switches },
        Switch::HostPriority => Switches { host_priority: !switches.host_priority, ..switches },
        Switch::MutedSupport => Switches { muted_support: !switches.muted_support, ..switches },
    }
}

/// The settings after a change. A tool that is chosen brings its program from those that were
/// found.
pub open spec fn changed(
    before: AssistantSettings,
    after: AssistantSettings,
    change: Change,
    presets: Seq<PresetFacts>,
    found: Seq<Discovery>,
) -> bool {
    match change {
        Change::Confirm => after == before,
        Change::Preset(i) => after == with_preset(before, presets[i as int]),
        Change::Host(host) => {
            &&& after == (AssistantSettings {
                host,
                binary: after.binary,
                source: Source::Default,
                ..before
            })
            &&& after.binary@ == program_found(found, host)
        },
        Change::Persona => after == (AssistantSettings {
            persona: other_persona(before.persona),
            ..before
        }),
        Change::Activity(activity) => after == (AssistantSettings {
            reply_activity: activity,
            ..before
        }),
        Change::WebSearch => after == (AssistantSettings {
            web_search: !before.web_search,
            ..before
        }),
        Change::Toggle(switch) => after == (AssistantSettings {
            switches: toggled(before.switches, switch),
            ..before
        }),
        Change::DefaultSource => after == (AssistantSettings { source: Source::Default, ..before }),
    }
}

impl AssistantSettings {
    fn preset_changes(&self, preset: &PresetFacts) -> (r: bool)
        ensures
            r == preset_differs(*self, *preset),
    {
        !(self.reply_activity == preset.reply_activity && self.web_search == preset.web_search
            && self.switches == take_preset(self.switches, preset))
    }

    /// Makes a change. A tool that is chosen brings its program from those that were found.
    pub fn change(&mut self, change: Change, presets: &Vec<PresetFacts>, found: &Vec<Discovery>)
        requires
            change matches Change::Preset(i) ==> i < presets@.len(),
        ensures
            changed(*old(self), *final(self), change, presets@, found@),
    {
        match change {
            Change::Confirm => {},
            Change::Preset(i) => {
                self.reply_activity = presets[i].reply_activity;
                self.web_search = presets[i].web_search;
                self.switches = take_preset(self.switches, &presets[i]);
            },
            Change::Host(host) => {
                self.host = host;
                self.binary = program_of(found, host);
                self.source = Source::Default;
            },
            Change::Persona => {
                self.persona = match self.persona {
                    PersonaKind::Assistant => PersonaKind::Broadcaster,
                    PersonaKind::Broadcaster => PersonaKind::Assistant,
                };
            },
            Change::Activity(activity) => {
                self.reply_activity = activity;
            },
            Change::WebSearch => {
                self.web_search = !self.web_search;
            },
            Change::Toggle(switch) => {
                self.switches = toggle(self.switches, switch);
            },
            Change::DefaultSource => {
                self.source = Source::Default;
            },
        }
    }
}

/// Turning a switch over twice leaves the switches as they were.
pub proof fn law_toggling_twice_changes_nothing(switches: Switches, switch: Switch)
    ensures
        toggled(toggled(switches, switch), switch) == switches,
        panel::switch_on(toggled(switches, switch), switch) != panel::switch_on(switches, switch),
{
}

/// A preset changes its ten settings only: not the tool, the account, the permission to send, nor
/// what the assistant is told of itself. Chosen again, it changes nothing.
pub proof fn law_presets_change_only_their_settings(
    settings: AssistantSettings,
    preset: PresetFacts,
)
    ensures
        with_preset(settings, preset).host == settings.host,
        with_preset(settings, preset).binary == settings.binary,
        with_preset(settings, preset).source == settings.source,
        with_preset(settings, preset).name == settings.name,
        with_preset(settings, preset).preferences == settings.preferences,
        with_preset(settings, preset).skills == settings.skills,
        with_preset(settings, preset).blocked_words == settings.blocked_words,
        with_preset(settings, preset).persona == settings.persona,
        with_preset(settings, preset).automatic == settings.automatic,
        with_preset(settings, preset).resume_on_start == settings.resume_on_start,
        with_preset(settings, preset).switches.use_profile == settings.switches.use_profile,
        with_preset(settings, preset).switches.use_project == settings.switches.use_project,
        !preset_differs(with_preset(settings, preset), preset),
        !preset_differs(settings, preset) ==> with_preset(settings, preset) == settings,
{
}

/// The value of a setting outside the program, as far as it is known here.
pub open spec fn external_value(field: ExternalField, panel: Panel, facts: Facts) -> Seq<char> {
    match field {
        ExternalField::RoomTitle => match facts.room {
            Some(room) => room.title@,
            None => Seq::empty(),
        },
        ExternalField::RoomCover => Seq::empty(),
        ExternalField::ObsHost => match panel.obs_configuration {
            Some(configuration) => configuration.host@,
            None => Seq::empty(),
        },
        ExternalField::ObsPort => match panel.obs_configuration {
            Some(configuration) => text::decimal_digits(configuration.port as nat),
            None => Seq::empty(),
        },
        ExternalField::ObsMicrophone => match panel.obs_configuration {
            Some(configuration) => configuration.microphone_input_name@,
            None => Seq::empty(),
        },
        ExternalField::ObsScene => match facts.obs {
            Some(obs) => obs.current_scene@,
            None => Seq::empty(),
        },
    }
}

pub fn external_setting_value(field: ExternalField, panel: &Panel, facts: &Facts) -> (r: String)
    ensures
        r@ == external_value(field, *panel, *facts),
{
    match field {
        ExternalField::RoomTitle => match &facts.room {
            Some(room) => room.title.clone(),
            None => String::new(),
        },
        ExternalField::RoomCover => String::new(),
        ExternalField::ObsHost => match &panel.obs_configuration {
            Some(configuration) => configuration.host.clone(),
            None => String::new(),
        },
        ExternalField::ObsPort => match &panel.obs_configuration {
            Some(configuration) => text::decimal(configuration.port as u64),
            None => String::new(),
        },
        ExternalField::ObsMicrophone => match &panel.obs_configuration {
            Some(configuration) => configuration.microphone_input_name.clone(),
            None => String::new(),
        },
        ExternalField::ObsScene => match &facts.obs {
            Some(obs) => obs.current_scene.clone(),
            None => String::new(),
        },
    }
}

/// The text that a field is edited from, or why it cannot be had.
pub open spec fn edit_value(field: Field, panel: Panel, facts: Facts) -> Result<
    Seq<char>,
    Seq<char>,
> {
    let s = facts.settings;
    match field {
        Field::ArchiveSearch => Ok(Seq::empty()),
        Field::External(field) => Ok(external_value(field, panel, facts)),
        Field::Binary => Ok(s.binary@),
        Field::HistorySeconds => Ok(text::decimal_digits(facts.history_idle_seconds as nat)),
        Field::Workspace => match facts.workspace {
            Ok(path) => Ok(path@),
            Err(problem) => Err(problem@),
        },
        Field::Skills => Ok(text::joined(text::views(s.skills@), "，"@)),
        Field::Name => Ok(s.name@),
        Field::Preferences => Ok(s.preferences@),
        Field::BlockedWords => Ok(text::joined(text::views(s.blocked_words@), "，"@)),
        Field::Topic => match facts.topic_override {
            Some(topic) => Ok(topic@),
            None => Ok(facts.topic@),
        },
        Field::Profile => match s.source {
            Source::OmpProfile(profile) => Ok(profile@),
            _ => Ok(Seq::empty()),
        },
        Field::Prompt => match s.source {
            Source::NativePrompt(path) => Ok(path@),
            _ => Ok(Seq::empty()),
        },
    }
}

fn field_value(field: Field, panel: &Panel, facts: &Facts) -> (r: Result<String, String>)
    ensures
        r is Ok == edit_value(field, *panel, *facts) is Ok,
        r matches Ok(value) ==> value@ == edit_value(field, *panel, *facts)->Ok_0,
        r matches Err(problem) ==> problem@ == edit_value(field, *panel, *facts)->Err_0,
{
    let s: &AssistantSettings = &facts.settings;
    match field {
        Field::ArchiveSearch => Ok(String::new()),
        Field::External(field) => Ok(external_setting_value(field, panel, facts)),
        Field::Binary => Ok(s.binary.clone()),
        Field::HistorySeconds => Ok(text::decimal(facts.history_idle_seconds as u64)),
        Field::Workspace => match &facts.workspace {
            Ok(path) => Ok(path.clone()),
            Err(problem) => Err(problem.clone()),
        },
        Field::Skills => Ok(text::join(&s.skills, "，")),
        Field::Name => Ok(s.name.clone()),
        Field::Preferences => Ok(s.preferences.clone()),
        Field::BlockedWords => Ok(text::join(&s.blocked_words, "，")),
        Field::Topic => match &facts.topic_override {
            Some(topic) => Ok(topic.clone()),
            None => Ok(facts.topic.clone()),
        },
        Field::Profile => match &s.source {
            Source::OmpProfile(profile) => Ok(profile.clone()),
            _ => Ok(String::new()),
        },
        Field::Prompt => match &s.source {
            Source::NativePrompt(path) => Ok(path.clone()),
            _ => Ok(String::new()),
        },
    }
}

/// The activity that a choice of a scene, or of the default, replaces.
pub open spec fn current_activity(scene: bool, facts: Facts) -> ReplyActivity {
    if scene {
        facts.effective_activity
    } else {
        facts.settings.reply_activity
    }
}

pub open spec fn activity_index(activity: ReplyActivity) -> usize {
    match activity {
        ReplyActivity::Cautious => 0,
        ReplyActivity::Balanced => 1,
        ReplyActivity::Active => 2,
    }
}

/// The options that a row offers, or why there are none.
pub open spec fn offered_option(index: usize, facts: Facts) -> Result<Seq<Choice>, Seq<char>> {
    match facts.options {
        Some(options) => if index >= options@.len() {
            Err("选项已刷新"@)
        } else if options@[index as int].unsupported {
            Err("未知选项类型"@)
        } else if options@[index as int].choices@.len() == 0 {
            Err("未提供可选值"@)
        } else {
            Ok(options@[index as int].choices@)
        },
        None => match facts.tool_mode {
            None => Err("未报告可选项"@),
            Some(mode) => if mode.choices@.len() == 0 {
                Err("未提供可选值"@)
            } else {
                Ok(mode.choices@)
            },
        },
    }
}

/// The value that an option row shows as its current one.
pub open spec fn option_value(index: usize, facts: Facts) -> panel::SettingView {
    match facts.options {
        Some(options) => options@[index as int].current@,
        None => panel::SettingView::Id(facts.tool_mode->0.current@),
    }
}

/// The place of a value among choices, or the first one.
pub open spec fn place_of(choices: Seq<Choice>, value: panel::SettingView) -> int
    decreases choices.len(),
{
    if exists|i: int| 0 <= i < choices.len() && #[trigger] choices[i].value@ == value {
        first_place(choices, value)
    } else {
        0
    }
}

/// The place of the first choice with a value.
pub open spec fn first_place(choices: Seq<Choice>, value: panel::SettingView) -> int
    decreases choices.len(),
{
    if choices.len() == 0 || choices[0].value@ == value {
        0
    } else {
        1 + first_place(choices.skip(1), value)
    }
}

/// What a row asks of the rest of the program, or why it does nothing.
pub open spec fn row_effect(panel: Panel, row: Row, facts: Facts) -> Result<Effect, Seq<char>> {
    let s = facts.settings;
    if panel::readonly_text(row, facts) is Some {
        Err("只读："@ + panel::readonly_text(row, facts)->0)
    } else {
        match row {
            Row::Command(_) => Err("指令须经统一执行入口"@),
            Row::Preset(i) => if i < facts.presets@.len() && preset_differs(
                s,
                facts.presets@[i as int],
            ) {
                Ok(Effect::Save { change: Change::Preset(i), rebuild: false, back: true })
            } else {
                Ok(Effect::Nothing)
            },
            Row::Page(page) => if page == Page::Agents && panel.discovered@.len() == 0 {
                Ok(Effect::Discover)
            } else {
                Ok(Effect::Nothing)
            },
            Row::Host(host) => if host == s.host && s.binary@.len() > 0 {
                if facts.saved_settings {
                    Ok(Effect::Nothing)
                } else {
                    Ok(Effect::Save { change: Change::Confirm, rebuild: true, back: true })
                }
            } else {
                Ok(Effect::Save { change: Change::Host(host), rebuild: true, back: true })
            },
            Row::Edit(field) => match edit_value(field, panel, facts) {
                Ok(_) => Ok(Effect::Nothing),
                Err(problem) => Err(problem),
            },
            Row::Layout => Ok(Effect::ChatLayout(!facts.layout_chat)),
            Row::Usernames => Ok(Effect::ShowNames(!facts.show_name)),
            Row::Timestamps => Ok(Effect::ShowTimes(!facts.show_time)),
            Row::Theme(i) => if i >= facts.themes@.len() {
                Err("主题列表已刷新"@)
            } else if facts.themes@[i as int].id@ != facts.selected_theme@ {
                Ok(Effect::SelectTheme(i))
            } else {
                Ok(Effect::Nothing)
            },
            Row::ReloadThemes => Ok(Effect::ReloadThemes),
            Row::Logout => Ok(Effect::SignOutMain),
            Row::ReuseMain => Ok(Effect::ReuseMain),
            Row::SignOutIndependent => Ok(Effect::SignOutIndependent),
            Row::AssistantLogin => Ok(Effect::PrepareAssistantLogin),
            Row::CancelAssistantLogin => Ok(Effect::CancelAssistantLogin),
            Row::Activity { activity, scene } => if activity == current_activity(scene, facts) {
                Ok(Effect::Nothing)
            } else if scene {
                Ok(Effect::OverrideActivity(activity))
            } else {
                Ok(Effect::Save { change: Change::Activity(activity), rebuild: false, back: true })
            },
            Row::Persona => Ok(
                Effect::Save { change: Change::Persona, rebuild: false, back: false },
            ),
            Row::RestoreTopic => Ok(Effect::RestoreTopic),
            Row::WebSearch => Ok(
                Effect::Save { change: Change::WebSearch, rebuild: true, back: false },
            ),
            Row::Switch(switch) => Ok(
                Effect::Save { change: Change::Toggle(switch), rebuild: false, back: false },
            ),
            Row::DefaultSource => if s.source is Default {
                Ok(Effect::Nothing)
            } else {
                Ok(Effect::Save { change: Change::DefaultSource, rebuild: true, back: false })
            },
            Row::ConnectOptions => Ok(Effect::ConnectOptions),
            Row::Option(i) => match offered_option(i, facts) {
                Ok(_) => Ok(Effect::Nothing),
                Err(problem) => Err(problem),
            },
            Row::Action(Action::Run) => if facts.running || facts.resume_pending {
                Ok(Effect::Pause)
            } else {
                Ok(Effect::Start { visible: false, rebuild: false })
            },
            Row::Action(Action::Review) => Ok(Effect::Nothing),
            Row::Action(Action::NextCandidate) => Ok(Effect::NextCandidate),
            Row::Action(Action::EditCandidate) => Ok(Effect::EditReview),
            Row::Action(Action::DiscardCandidate) => Ok(Effect::DiscardReview),
            Row::Action(Action::ApproveCandidate) => Ok(Effect::ApproveReview),
            Row::Action(Action::ApproveAllCandidates) => Ok(Effect::ReviewAll { approve: true }),
            Row::Action(Action::DiscardAllCandidates) => Ok(Effect::ReviewAll { approve: false }),
            Row::Visible => Ok(Effect::Start { visible: true, rebuild: true }),
            Row::Context => Ok(Effect::Start { visible: false, rebuild: true }),
            Row::Stop => Ok(Effect::Stop),
            Row::RepairHistory => Ok(Effect::RepairHistory),
            _ => Ok(Effect::Nothing),
        }
    }
}

/// The panel after it went to a page.
pub open spec fn went_to(before: Panel, after: Panel, page: Page) -> bool {
    &&& after.history@ == before.history@.push(before.place())
    &&& after == (Panel { error: None, history: after.history, ..before }).at(
        before.entry_of(page),
    )
}

/// The row that a page is entered at: the current choice of a range, else the first row, or the
/// next usable one where that cannot be used.
pub open spec fn entry_row(there: Panel, page: Page, facts: Facts) -> int {
    let rows = panel::page_rows(there, facts);
    match page {
        Page::ReplyRange { scene } => activity_index(current_activity(scene, facts)) as int,
        _ => if rows.len() > 0 && panel::readonly_text(rows[0], facts) is Some {
            panel_keys::selection_moved(rows, facts, 0, true)
        } else {
            0
        },
    }
}

/// The panel after a row opened a page.
pub open spec fn entered(before: Panel, after: Panel, page: Page, facts: Facts) -> bool {
    &&& after.history@ == before.history@.push(before.place())
    &&& ({
        let there = (Panel { error: None, history: after.history, ..before }).at(
            before.entry_of(page),
        );
        after == (Panel { row: entry_row(there, page, facts) as usize, ..there })
    })
}

/// The list of choices is open on the panel, which is otherwise as before.
pub open spec fn offers(
    before: Panel,
    after: Panel,
    target: ChoiceTarget,
    values: Seq<Choice>,
    selected: int,
) -> bool {
    &&& after == (Panel { choices: after.choices, ..before })
    &&& after.choices matches Some(choices) && choices.target == target && choices.values@
        == values && choices.selected == selected
}

/// The two ways of sending, as choices.
pub open spec fn sending_choices(values: Seq<Choice>) -> bool {
    &&& values.len() == 2
    &&& values[0].value@ == panel::SettingView::Bool(false) && values[0].name@ == "逐条发送"@
    &&& values[1].value@ == panel::SettingView::Bool(true) && values[1].name@ == "自动发送"@
}

/// The panel after a row that was used. A row whose change is still to be saved leaves the page
/// only after that.
pub open spec fn panel_after(before: Panel, after: Panel, row: Row, facts: Facts) -> bool {
    let s = facts.settings;
    match row {
        Row::ToggleThanks => {
            let there = Panel { thanks_expanded: !before.thanks_expanded, ..before };
            after == (Panel {
                row: panel_keys::held_to(
                    before.row as int,
                    panel::page_rows(there, facts).len() as int,
                ) as usize,
                ..there
            })
        },
        Row::AdvancedGroup(group) => {
            let open: Option<u8> = if before.advanced_group == Some(group) {
                None
            } else {
                Some(group)
            };
            let there = Panel { advanced_group: open, ..before };
            after == (Panel {
                row: fold_row(panel::page_rows(there, facts), group) as usize,
                ..there
            })
        },
        Row::Page(page) => entered(before, after, page, facts),
        Row::ReplyActivity => entered(before, after, Page::ReplyRange { scene: false }, facts),
        Row::Preset(i) => if row_effect(before, row, facts) == Ok::<Effect, Seq<char>>(
            Effect::Nothing,
        ) {
            panel_keys::went_back(before, after)
        } else {
            after == before
        },
        Row::Host(_) | Row::Theme(_) => if row_effect(before, row, facts) == Ok::<
            Effect,
            Seq<char>,
        >(Effect::Nothing) {
            panel_keys::went_back(before, after)
        } else {
            after == before
        },
        Row::Activity { activity, scene } => if scene || activity == current_activity(
            scene,
            facts,
        ) {
            panel_keys::went_back(before, after)
        } else {
            after == before
        },
        Row::Edit(field) => {
            &&& after == (Panel { editor: after.editor, ..before })
            &&& after.editor matches Some((edited, line)) && edited == field && line.wf()
                && line.text() == edit_value(field, before, facts)->Ok_0 && line.position()
                == line.text().len()
        },
        Row::Permission => {
            &&& after == (Panel { choices: after.choices, ..before })
            &&& after.choices matches Some(choices) && choices.target is Sending
                && sending_choices(choices.values@) && choices.selected == (if s.automatic {
                1int
            } else {
                0
            })
        },
        Row::Option(i) => {
            let target = match facts.options {
                Some(options) => ChoiceTarget::Option(options@[i as int].id),
                None => ChoiceTarget::ToolMode,
            };
            let values = offered_option(i, facts)->Ok_0;
            offers(before, after, target, values, place_of(values, option_value(i, facts)))
        },
        Row::Action(Action::Review) => went_to(before, after, Page::Candidates),
        Row::Action(Action::NextCandidate) => after == (Panel { scroll: 0, ..before }),
        _ => after == before,
    }
}

/// The place of a fold's heading, or the first row.
pub open spec fn fold_row(rows: Seq<Row>, group: u8) -> int
    decreases rows.len(),
{
    if rows.contains(Row::AdvancedGroup(group)) {
        heading_place(rows, group)
    } else {
        0
    }
}

/// The place of the first heading of a fold.
pub open spec fn heading_place(rows: Seq<Row>, group: u8) -> int
    decreases rows.len(),
{
    if rows.len() == 0 || rows[0] == Row::AdvancedGroup(group) {
        0
    } else {
        1 + heading_place(rows.skip(1), group)
    }
}

proof fn lemma_heading_place(rows: Seq<Row>, group: u8, n: int)
    requires
        0 <= n < rows.len(),
        rows[n] == Row::AdvancedGroup(group),
        forall|i: int| 0 <= i < n ==> rows[i] != Row::AdvancedGroup(group),
    ensures
        heading_place(rows, group) == n,
    decreases n,
{
    if n > 0 {
        lemma_heading_place(rows.skip(1), group, n - 1);
    }
}

fn find_heading(rows: &Vec<Row>, group: u8) -> (r: usize)
    ensures
        r == fold_row(rows@, group),
{
    let mut i: usize = 0;
    while i < rows.len()
        invariant
            i <= rows@.len(),
            forall|k: int| 0 <= k < i ==> rows@[k] != Row::AdvancedGroup(group),
        decreases rows@.len() - i,
    {
        if let Row::AdvancedGroup(found) = rows[i] {
            if found == group {
                proof {
                    lemma_heading_place(rows@, group, i as int);
                    assert(rows@.contains(rows@[i as int]));
                }
                return i;
            }
        }
        i = i + 1;
    }
    0
}

pub proof fn lemma_first_place(choices: Seq<Choice>, value: panel::SettingView, n: int)
    requires
        0 <= n < choices.len(),
        choices[n].value@ == value,
        forall|i: int| 0 <= i < n ==> (#[trigger] choices[i]).value@ != value,
    ensures
        first_place(choices, value) == n,
    decreases n,
{
    if n > 0 {
        assert forall|i: int| 0 <= i < n - 1 implies (#[trigger] choices.skip(1)[i]).value@
            != value by {
            assert(choices[i + 1].value@ != value);
        }
        lemma_first_place(choices.skip(1), value, n - 1);
    }
}

fn find_value(choices: &Vec<Choice>, value: &SettingValue) -> (r: usize)
    ensures
        r == place_of(choices@, value@),
        choices@.len() > 0 ==> r < choices@.len(),
{
    let mut i: usize = 0;
    while i < choices.len()
        invariant
            i <= choices@.len(),
            forall|k: int| 0 <= k < i ==> (#[trigger] choices@[k]).value@ != value@,
        decreases choices@.len() - i,
    {
        if choices[i].value.same(value) {
            proof {
                lemma_first_place(choices@, value@, i as int);
                assert(choices@[i as int].value@ == value@);
            }
            return i;
        }
        i = i + 1;
    }
    0
}

fn copy_choices(choices: &Vec<Choice>) -> (r: Vec<Choice>)
    ensures
        r@ == choices@,
{
    let mut out: Vec<Choice> = Vec::new();
    let mut i: usize = 0;
    while i < choices.len()
        invariant
            i <= choices@.len(),
            out@ == choices@.take(i as int),
        decreases choices@.len() - i,
    {
        out.push(choices[i].copy());
        i = i + 1;
        proof {
            assert(choices@.take(i as int) =~= choices@.take(i - 1).push(choices@[i - 1]));
        }
    }
    proof {
        assert(choices@.take(i as int) =~= choices@);
    }
    out
}

impl Panel {
    fn enter(&mut self, page: Page, facts: &Facts)
        requires
            old(self).wf(),
        ensures
            final(self).wf(),
            entered(*old(self), *final(self), page, *facts),
    {
        self.navigate(page);
        let ghost there = *self;
        if let Page::ReplyRange { scene } = page {
            let current: ReplyActivity = if scene {
                facts.effective_activity
            } else {
                facts.settings.reply_activity
            };
            self.row = match current {
                ReplyActivity::Cautious => 0,
                ReplyActivity::Balanced => 1,
                ReplyActivity::Active => 2,
            };
            return;
        }
        let rows: Vec<Row> = self.rows(facts);
        if rows.len() > 0 && panel::readonly_reason(rows[0], facts).is_some() {
            self.move_assistant_selection(true, facts);
        }
    }

    fn open_option(&mut self, index: usize, facts: &Facts) -> (r: Result<Effect, String>)
        requires
            old(self).wf(),
        ensures
            final(self).wf(),
            match offered_option(index, *facts) {
                Ok(values) => {
                    &&& r == Ok::<Effect, String>(Effect::Nothing)
                    &&& panel_after(*old(self), *final(self), Row::Option(index), *facts)
                },
                Err(problem) => {
                    &&& r matches Err(said) && said@ == problem
                    &&& *final(self) == *old(self)
                },
            },
    {
        match &facts.options {
            Some(options) => {
                if index >= options.len() {
                    return Err("选项已刷新".to_owned());
                }
                if options[index].unsupported {
                    return Err("未知选项类型".to_owned());
                }
                if options[index].choices.len() == 0 {
                    return Err("未提供可选值".to_owned());
                }
                let values: Vec<Choice> = copy_choices(&options[index].choices);
                let selected: usize = find_value(&values, &options[index].current);
                self.choices = Some(
                    Choices {
                        target: ChoiceTarget::Option(options[index].id.clone()),
                        values,
                        selected,
                    },
                );
                Ok(Effect::Nothing)
            },
            None => match &facts.tool_mode {
                None => Err("未报告可选项".to_owned()),
                Some(mode) => {
                    if mode.choices.len() == 0 {
                        return Err("未提供可选值".to_owned());
                    }
                    let values: Vec<Choice> = copy_choices(&mode.choices);
                    let current: SettingValue = SettingValue::Id(mode.current.clone());
                    let selected: usize = find_value(&values, &current);
                    self.choices = Some(
                        Choices { target: ChoiceTarget::ToolMode, values, selected },
                    );
                    Ok(Effect::Nothing)
                },
            },
        }
    }

    fn open_sending(&mut self, facts: &Facts)
        requires
            old(self).wf(),
        ensures
            final(self).wf(),
            panel_after(*old(self), *final(self), Row::Permission, *facts),
    {
        let off: Choice = Choice {
            value: SettingValue::Bool(false),
            name: "逐条发送".to_owned(),
        };
        let on: Choice = Choice { value: SettingValue::Bool(true), name: "自动发送".to_owned() };
        let values: Vec<Choice> = vec![off, on];
        self.choices = Some(
            Choices {
                target: ChoiceTarget::Sending,
                values,
                selected: if facts.settings.automatic {
                    1
                } else {
                    0
                },
            },
        );
    }

    /// Uses a row: changes the panel and says what the rest of the program is to do.
    #[verifier::rlimit(60)]
    pub fn apply_assistant_row(&mut self, row: Row, facts: &Facts) -> (r: Result<Effect, String>)
        requires
            old(self).wf(),
        ensures
            final(self).wf(),
            match row_effect(*old(self), row, *facts) {
                Ok(effect) => {
                    &&& r == Ok::<Effect, String>(effect)
                    &&& panel_after(*old(self), *final(self), row, *facts)
                },
                Err(problem) => {
                    &&& r matches Err(said) && said@ == problem
                    &&& *final(self) == *old(self)
                },
            },
    {
        if let Some(reason) = panel::readonly_reason(row, facts) {
            return Err(text::add2("只读：", reason.as_str()));
        }
        let s: &AssistantSettings = &facts.settings;
        match row {
            Row::ToggleThanks => {
                self.thanks_expanded = !self.thanks_expanded;
                let count: usize = self.rows(facts).len();
                if self.row >= count {
                    self.row = if count == 0 {
                        0
                    } else {
                        count - 1
                    };
                }
                Ok(Effect::Nothing)
            },
            Row::AdvancedGroup(group) => {
                let open: bool = match self.advanced_group {
                    Some(open) => open == group,
                    None => false,
                };
                self.advanced_group = if open {
                    None
                } else {
                    Some(group)
                };
                let rows: Vec<Row> = self.rows(facts);
                self.row = find_heading(&rows, group);
                Ok(Effect::Nothing)
            },
            Row::Command(_) => Err("指令须经统一执行入口".to_owned()),
            Row::Preset(i) => {
                if i < facts.presets.len() && s.preset_changes(&facts.presets[i]) {
                    Ok(Effect::Save { change: Change::Preset(i), rebuild: false, back: true })
                } else {
                    self.back();
                    Ok(Effect::Nothing)
                }
            },
            Row::Page(page) => {
                let discover: bool = matches!(page, Page::Agents) && self.discovered.len() == 0;
                self.enter(page, facts);
                if discover {
                    Ok(Effect::Discover)
                } else {
                    Ok(Effect::Nothing)
                }
            },
            Row::Host(host) => {
                if host == s.host && !s.binary.as_str().is_empty() {
                    if facts.saved_settings {
                        self.back();
                        Ok(Effect::Nothing)
                    } else {
                        Ok(Effect::Save { change: Change::Confirm, rebuild: true, back: true })
                    }
                } else {
                    Ok(Effect::Save { change: Change::Host(host), rebuild: true, back: true })
                }
            },
            Row::Edit(field) => match field_value(field, self, facts) {
                Ok(value) => {
                    self.editor = Some((field, EditorInput::from_string(value)));
                    Ok(Effect::Nothing)
                },
                Err(problem) => Err(problem),
            },
            Row::Layout => Ok(Effect::ChatLayout(!facts.layout_chat)),
            Row::Usernames => Ok(Effect::ShowNames(!facts.show_name)),
            Row::Timestamps => Ok(Effect::ShowTimes(!facts.show_time)),
            Row::Theme(i) => {
                if i >= facts.themes.len() {
                    return Err("主题列表已刷新".to_owned());
                }
                if text::same(facts.themes[i].id.as_str(), facts.selected_theme.as_str()) {
                    self.back();
                    Ok(Effect::Nothing)
                } else {
                    Ok(Effect::SelectTheme(i))
                }
            },
            Row::ReloadThemes => Ok(Effect::ReloadThemes),
            Row::Logout => Ok(Effect::SignOutMain),
            Row::ReuseMain => Ok(Effect::ReuseMain),
            Row::SignOutIndependent => Ok(Effect::SignOutIndependent),
            Row::AssistantLogin => Ok(Effect::PrepareAssistantLogin),
            Row::CancelAssistantLogin => Ok(Effect::CancelAssistantLogin),
            Row::Permission => {
                self.open_sending(facts);
                Ok(Effect::Nothing)
            },
            Row::ReplyActivity => {
                self.enter(Page::ReplyRange { scene: false }, facts);
                Ok(Effect::Nothing)
            },
            Row::Activity { activity, scene } => {
                let current: ReplyActivity = if scene {
                    facts.effective_activity
                } else {
                    s.reply_activity
                };
                if activity == current {
                    self.back();
                    Ok(Effect::Nothing)
                } else if scene {
                    self.back();
                    Ok(Effect::OverrideActivity(activity))
                } else {
                    Ok(
                        Effect::Save {
                            change: Change::Activity(activity),
                            rebuild: false,
                            back: true,
                        },
                    )
                }
            },
            Row::Persona => Ok(
                Effect::Save { change: Change::Persona, rebuild: false, back: false },
            ),
            Row::RestoreTopic => Ok(Effect::RestoreTopic),
            Row::WebSearch => Ok(
                Effect::Save { change: Change::WebSearch, rebuild: true, back: false },
            ),
            Row::Switch(switch) => Ok(
                Effect::Save { change: Change::Toggle(switch), rebuild: false, back: false },
            ),
            Row::DefaultSource => match &s.source {
                Source::Default => Ok(Effect::Nothing),
                _ => Ok(
                    Effect::Save { change: Change::DefaultSource, rebuild: true, back: false },
                ),
            },
            Row::ConnectOptions => Ok(Effect::ConnectOptions),
            Row::Option(index) => self.open_option(index, facts),
            Row::Action(Action::Run) => if facts.running || facts.resume_pending {
                Ok(Effect::Pause)
            } else {
                Ok(Effect::Start { visible: false, rebuild: false })
            },
            Row::Action(Action::Review) => {
                self.navigate(Page::Candidates);
                Ok(Effect::Nothing)
            },
            Row::Action(Action::NextCandidate) => {
                self.scroll = 0;
                Ok(Effect::NextCandidate)
            },
            Row::Action(Action::EditCandidate) => Ok(Effect::EditReview),
            Row::Action(Action::DiscardCandidate) => Ok(Effect::DiscardReview),
            Row::Action(Action::ApproveCandidate) => Ok(Effect::ApproveReview),
            Row::Action(Action::ApproveAllCandidates) => Ok(Effect::ReviewAll { approve: true }),
            Row::Action(Action::DiscardAllCandidates) => Ok(Effect::ReviewAll { approve: false }),
            Row::Visible => Ok(Effect::Start { visible: true, rebuild: true }),
            Row::Context => Ok(Effect::Start { visible: false, rebuild: true }),
            Row::Stop => Ok(Effect::Stop),
            Row::RepairHistory => Ok(Effect::RepairHistory),
            Row::Group(_) | Row::DynamicStrategy | Row::Login => Ok(Effect::Nothing),
        }
    }
}

/// A row that only tells something, or that is locked, does nothing at all.
pub proof fn law_locked_rows_do_nothing(panel: Panel, row: Row, facts: Facts)
    requires
        panel::readonly_text(row, facts) is Some,
    ensures
        row_effect(panel, row, facts) is Err,
{
}

/// No change that a row makes touches the permission to send by itself, nor who the assistant
/// says it is.
pub proof fn law_no_row_permits_sending(
    before: AssistantSettings,
    after: AssistantSettings,
    change: Change,
    presets: Seq<PresetFacts>,
    found: Seq<Discovery>,
)
    requires
        changed(before, after, change, presets, found),
    ensures
        after.automatic == before.automatic,
        after.resume_on_start == before.resume_on_start,
        after.name == before.name,
{
}

/// Switching one setting switches it and leaves the nine others.
pub proof fn law_a_switch_switches_itself(switches: Switches, switch: Switch)
    ensures
        ({
            let after = toggled(switches, switch);
            &&& after.use_profile == (switches.use_profile != (switch == Switch::UseProfile))
            &&& after.use_project == (switches.use_project != (switch == Switch::UseProject))
            &&& after.thank_gifts == (switches.thank_gifts != (switch == Switch::ThankGifts))
            &&& after.thank_likes == (switches.thank_likes != (switch == Switch::ThankLikes))
            &&& after.thank_follows == (switches.thank_follows != (switch == Switch::ThankFollows))
            &&& after.thank_shares == (switches.thank_shares != (switch == Switch::ThankShares))
            &&& after.mention_sender == (switches.mention_sender != (switch
                == Switch::MentionSender))
            &&& after.repair_blocked == (switches.repair_blocked != (switch
                == Switch::RepairBlocked))
            &&& after.host_priority == (switches.host_priority != (switch == Switch::HostPriority))
            &&& after.muted_support == (switches.muted_support != (switch == Switch::MutedSupport))
        }),
{
}

/// A change changes its own setting, to its own value, and no other.
pub proof fn law_a_change_changes_its_own_setting(
    before: AssistantSettings,
    after: AssistantSettings,
    change: Change,
    presets: Seq<PresetFacts>,
    found: Seq<Discovery>,
)
    requires
        changed(before, after, change, presets, found),
    ensures
        change is Toggle ==> panel::switch_on(after.switches, change->Toggle_0) != panel::switch_on(
            before.switches,
            change->Toggle_0,
        ),
        change is WebSearch <==> after.web_search != before.web_search && !(change is Preset),
        change is Persona <==> after.persona != before.persona,
        change is Activity ==> after.reply_activity == change->Activity_0,
        change is Host ==> after.host == change->Host_0 && after.source is Default,
        change is Preset ==> after.reply_activity == presets[change->Preset_0 as int].reply_activity
            && after.web_search == presets[change->Preset_0 as int].web_search
            && after.switches.thank_gifts == presets[change->Preset_0 as int].thank_gifts
            && after.switches.mention_sender == presets[change->Preset_0 as int].mention_sender,
        change is DefaultSource ==> after.source is Default && after.host == before.host,
        !(change is Toggle || change is Preset) ==> after.switches == before.switches,
        !(change is Host) ==> after.host == before.host && after.binary == before.binary,
        !(change is Activity || change is Preset) ==> after.reply_activity == before.reply_activity,
        change is Confirm ==> after == before,
{
}

/// A row that can be used does what it is named for.
pub proof fn law_rows_do_what_they_are_named_for(panel: Panel, row: Row, facts: Facts)
    requires
        panel::readonly_text(row, facts) is None,
    ensures
        ({
            let effect = row_effect(panel, row, facts);
            &&& row is Layout ==> effect == Ok::<Effect, Seq<char>>(
                Effect::ChatLayout(!facts.layout_chat),
            )
            &&& row is Usernames ==> effect == Ok::<Effect, Seq<char>>(
                Effect::ShowNames(!facts.show_name),
            )
            &&& row is Timestamps ==> effect == Ok::<Effect, Seq<char>>(
                Effect::ShowTimes(!facts.show_time),
            )
            &&& row == Row::Action(Action::Run) ==> effect == Ok::<Effect, Seq<char>>(
                if facts.running || facts.resume_pending {
                    Effect::Pause
                } else {
                    Effect::Start { visible: false, rebuild: false }
                },
            )
            &&& row is Stop <==> effect == Ok::<Effect, Seq<char>>(Effect::Stop)
            &&& row is Logout <==> effect == Ok::<Effect, Seq<char>>(Effect::SignOutMain)
            &&& row is ReuseMain <==> effect == Ok::<Effect, Seq<char>>(Effect::ReuseMain)
            &&& row is SignOutIndependent <==> effect == Ok::<Effect, Seq<char>>(
                Effect::SignOutIndependent,
            )
            &&& row is AssistantLogin <==> effect == Ok::<Effect, Seq<char>>(
                Effect::PrepareAssistantLogin,
            )
            &&& row is CancelAssistantLogin <==> effect == Ok::<Effect, Seq<char>>(
                Effect::CancelAssistantLogin,
            )
            &&& row == Row::Action(Action::ApproveCandidate) <==> effect == Ok::<Effect, Seq<char>>(
                Effect::ApproveReview,
            )
            &&& row == Row::Action(Action::DiscardCandidate) <==> effect == Ok::<Effect, Seq<char>>(
                Effect::DiscardReview,
            )
            &&& row == Row::Action(Action::EditCandidate) <==> effect == Ok::<Effect, Seq<char>>(
                Effect::EditReview,
            )
            &&& row == Row::Action(Action::ApproveAllCandidates) <==> effect == Ok::<
                Effect,
                Seq<char>,
            >(Effect::ReviewAll { approve: true })
            &&& row == Row::Action(Action::DiscardAllCandidates) <==> effect == Ok::<
                Effect,
                Seq<char>,
            >(Effect::ReviewAll { approve: false })
            &&& row is Visible ==> effect == Ok::<Effect, Seq<char>>(
                Effect::Start { visible: true, rebuild: true },
            )
            &&& row is Context ==> effect == Ok::<Effect, Seq<char>>(
                Effect::Start { visible: false, rebuild: true },
            )
            &&& row is RepairHistory <==> effect == Ok::<Effect, Seq<char>>(Effect::RepairHistory)
            &&& row is Switch ==> effect == Ok::<Effect, Seq<char>>(
                Effect::Save {
                    change: Change::Toggle(row->Switch_0),
                    rebuild: false,
                    back: false,
                },
            )
            &&& row is Theme && row->Theme_0 < facts.themes@.len() ==> effect == Ok::<
                Effect,
                Seq<char>,
            >(
                if facts.themes@[row->Theme_0 as int].id@ == facts.selected_theme@ {
                    Effect::Nothing
                } else {
                    Effect::SelectTheme(row->Theme_0)
                },
            )
        }),
{
}

/// A row that leads to a page opens that page at its top and remembers where it came from.
pub proof fn law_a_page_opens_its_own_page(before: Panel, after: Panel, page: Page, facts: Facts)
    requires
        panel_after(before, after, Row::Page(page), facts),
    ensures
        after.page == page,
        after.history@ == before.history@.push(before.place()),
        after.scroll == 0,
        after.error is None,
        after.editor == before.editor,
{
}

/// Editing a field begins with its present value, all of it before the cursor.
pub proof fn law_editing_begins_with_the_present_value(
    before: Panel,
    after: Panel,
    field: Field,
    facts: Facts,
)
    requires
        panel_after(before, after, Row::Edit(field), facts),
    ensures
        after.editor is Some,
        after.editor matches Some((edited, line)) ==> {
            &&& edited == field
            &&& line.position() == line.text().len()
            &&& field == Field::Name ==> line.text() == facts.settings.name@
            &&& field == Field::Preferences ==> line.text() == facts.settings.preferences@
            &&& field == Field::Binary ==> line.text() == facts.settings.binary@
            &&& field == Field::HistorySeconds ==> text::number_read(line.text())
                == facts.history_idle_seconds
            &&& field == Field::ArchiveSearch ==> line.text().len() == 0
            &&& field == Field::Topic && facts.topic_override is Some ==> line.text()
                == facts.topic_override->0@
            &&& field == Field::Topic && facts.topic_override is None ==> line.text()
                == facts.topic@
        },
        after.page == before.page,
{
    text::law_a_written_number_reads_back(facts.history_idle_seconds as nat);
}

/// The choice how replies are sent stands on the present one.
pub proof fn law_the_present_way_of_sending_is_chosen(before: Panel, after: Panel, facts: Facts)
    requires
        panel_after(before, after, Row::Permission, facts),
    ensures
        after.choices is Some,
        after.choices->0.target is Sending,
        after.choices->0.values@.len() == 2,
        after.choices->0.values@[after.choices->0.selected as int].value@
            == panel::SettingView::Bool(facts.settings.automatic),
{
}

/// An option stands on its present value where that is offered.
pub proof fn law_the_present_value_is_chosen(
    choices: Seq<Choice>,
    value: panel::SettingView,
    k: int,
)
    requires
        0 <= k < choices.len(),
        choices[k].value@ == value,
    ensures
        0 <= place_of(choices, value) <= k,
        choices[place_of(choices, value)].value@ == value,
{
    lemma_choice_place(choices, value, k);
}

proof fn lemma_choice_place(choices: Seq<Choice>, value: panel::SettingView, k: int)
    requires
        0 <= k < choices.len(),
        choices[k].value@ == value,
    ensures
        0 <= first_place(choices, value) <= k,
        choices[first_place(choices, value)].value@ == value,
    decreases choices.len(),
{
    if choices[0].value@ != value {
        let rest = choices.skip(1);
        assert(rest[k - 1] == choices[k]);
        lemma_choice_place(rest, value, k - 1);
    }
}

/// A page that was gone to is left to where one came from.
pub proof fn law_going_back_returns(before: Panel, there: Panel, again: Panel, page: Page)
    requires
        went_to(before, there, page),
        panel_keys::went_back(there, again),
    ensures
        there.page == page,
        again.place() == before.place(),
        again.history@ == before.history@,
{
    assert(there.history@.drop_last() =~= before.history@);
}

/// On entering a page the range in force is selected, and elsewhere the first row that can be used.
pub proof fn law_entering_selects_what_can_be_used(there: Panel, page: Page, facts: Facts)
    ensures
        page matches Page::ReplyRange { scene } ==> entry_row(there, page, facts)
            == match current_activity(scene, facts) {
            ReplyActivity::Cautious => 0int,
            ReplyActivity::Balanced => 1,
            ReplyActivity::Active => 2,
        },
        !(page is ReplyRange) && panel::page_rows(there, facts).len() > 0 && panel::readonly_text(
            panel::page_rows(there, facts)[0],
            facts,
        ) is None ==> entry_row(there, page, facts) == 0,
        !(page is ReplyRange) && panel::page_rows(there, facts).len() > 1 && panel::readonly_text(
            panel::page_rows(there, facts)[0],
            facts,
        ) is Some && panel::readonly_text(panel::page_rows(there, facts)[1], facts) is None
            ==> entry_row(there, page, facts) == 1,
{
    let rows = panel::page_rows(there, facts);
    if rows.len() > 1 && panel::readonly_text(rows[1], facts) is None {
        panel_keys::law_the_selection_goes_to_the_nearest_row(rows, facts, 0, 1);
    }
}

} // verus!
