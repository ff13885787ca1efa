//! What the panel reads of the program, gathered from the program itself and from the services
//! around it.
use vstd::prelude::*;
use vstd::string::*;

use crate::app::TerminalApp;
use crate::domain::RoomSnapshot;
use crate::panel::{
    AssistantSettings, Facts, HostFacts, ModeFacts, ObsFacts, OptionFacts, PresetFacts,
    ReplyActivity, ThemeFacts, WorkspaceStatus,
};
use crate::review;
use crate::review::Reply;
use crate::text;

verus! {

/// What the services around the program report.
pub struct Services {
    /// The session reaches nothing outside the machine.
    pub local: bool,
    pub settings: AssistantSettings,
    pub saved_settings: bool,
    pub has_context: bool,
    pub in_flight: bool,
    pub needs_rebuild: bool,
    pub setting_pending: bool,
    pub configuring: bool,
    pub repairing: bool,
    pub repair_result: Option<String>,
    pub connected: bool,
    pub has_session: bool,
    pub options: Option<Vec<OptionFacts>>,
    pub tool_mode: Option<ModeFacts>,
    pub themes: Vec<ThemeFacts>,
    pub theme_name: String,
    pub selected_theme: String,
    pub hosts: Vec<HostFacts>,
    pub presets: Vec<PresetFacts>,
    pub effective_activity: ReplyActivity,
    pub activity_labels: (String, String, String),
    pub persona_labels: (String, String),
    pub source_description: String,
    pub topic: String,
    pub topic_override: Option<String>,
    pub strategy_label: String,
    pub workspace: Result<String, String>,
    pub workspace_status: WorkspaceStatus,
    pub workspace_note: String,
    pub history_idle_seconds: u32,
}

fn copy_room(room: &Option<RoomSnapshot>) -> (r: Option<RoomSnapshot>)
    ensures
        r == *room,
{
    match room {
        Some(room) => Some(
            RoomSnapshot {
                room_id: room.room_id.clone(),
                broadcaster_id: room.broadcaster_id.clone(),
                broadcaster_name: room.broadcaster_name.clone(),
                title: room.title.clone(),
                area: room.area.clone(),
                live_started_at: room.live_started_at,
                live_status: room.live_status,
            },
        ),
        None => None,
    }
}

fn copy_obs(obs: &Option<ObsFacts>) -> (r: Option<ObsFacts>)
    ensures
        r == *obs,
{
    match obs {
        Some(obs) => Some(
            ObsFacts {
                current_scene: obs.current_scene.clone(),
                stream: obs.stream.clone(),
                microphone: obs.microphone.clone(),
            },
        ),
        None => None,
    }
}

fn copy_text(text: &Option<String>) -> (r: Option<String>)
    ensures
        r == *text,
{
    match text {
        Some(text) => Some(text.clone()),
        None => None,
    }
}

/// The facts are those of the program and of the services: its accounts and what they may do, its
/// room and its broadcasting software, the replies that wait, and what it shows.
pub open spec fn gathered(
    app: TerminalApp,
    services: Services,
    candidates: Seq<Reply>,
    facts: Facts,
) -> bool {
    let accounts = app.automation.accounts;
    &&& facts == (Facts {
        local: services.local,
        account_status: app.account_status,
        assistant_label: facts.assistant_label,
        login_pending: accounts.pending is Some,
        has_independent: accounts.independent_user(app.account_status) is Some,
        room: app.stream.status.room,
        room_id: app.stream.feed.session.room_id,
        obs: app.stream.status.obs,
        obs_error: app.stream.status.obs_error,
        settings: AssistantSettings {
            automatic: app.automation.automatic,
            resume_on_start: app.automation.resume_on_start,
            ..services.settings
        },
        saved_settings: services.saved_settings,
        running: app.automation.running,
        resume_pending: app.automation.resume_pending,
        has_context: services.has_context,
        in_flight: services.in_flight,
        needs_rebuild: services.needs_rebuild,
        setting_pending: services.setting_pending,
        configuring: services.configuring,
        repairing: services.repairing,
        repair_result: services.repair_result,
        connected: services.connected,
        has_session: services.has_session,
        options: services.options,
        tool_mode: services.tool_mode,
        sending_enabled: app.automation.sending,
        candidates: facts.candidates,
        approval_problem: facts.approval_problem,
        themes: services.themes,
        theme_name: services.theme_name,
        selected_theme: services.selected_theme,
        hosts: services.hosts,
        presets: services.presets,
        effective_activity: services.effective_activity,
        activity_labels: services.activity_labels,
        persona_labels: services.persona_labels,
        source_description: services.source_description,
        topic: services.topic,
        topic_override: services.topic_override,
        strategy_label: services.strategy_label,
        workspace: services.workspace,
        workspace_status: services.workspace_status,
        workspace_note: services.workspace_note,
        profile_summary: facts.profile_summary,
        history_idle_seconds: services.history_idle_seconds,
        layout_chat: app.layout_chat,
        show_name: app.show_name,
        show_time: app.show_time,
    })
    &&& facts.assistant_label@ == accounts.label_text(app.account_status)
    &&& facts.candidates == candidates.len()
    &&& text::opt_view(facts.approval_problem) == match review::review_check(
        app.review.frame,
        true,
        candidates,
        app.identity_generation(),
    ) {
        Ok(_) => None,
        Err(problem) => Some(review::review_problem_text(problem)),
    }
    &&& facts.profile_summary@ == app.profile.summary_text(services.settings.switches.use_profile)
}

impl TerminalApp {
    /// Gathers what the panel reads.
    pub fn facts(&self, services: Services, candidates: &Vec<Reply>) -> (r: Facts)
        ensures
            gathered(*self, services, candidates@, r),
    {
        let accounts = &self.automation.accounts;
        let mut settings: AssistantSettings = services.settings;
        let profile_summary: String = self.profile.profile_summary(settings.switches.use_profile);
        settings.automatic = self.automation.automatic;
        settings.resume_on_start = self.automation.resume_on_start;
        let room: Option<RoomSnapshot> = copy_room(&self.stream.status.room);
        let obs: Option<ObsFacts> = copy_obs(&self.stream.status.obs);
        let obs_error: Option<String> = copy_text(&self.stream.status.obs_error);
        let has_independent: bool = accounts.independent_user_id(&self.account_status).is_some();
        let approval_problem: Option<String> = match self.reviewed_reply(true, candidates) {
            Ok(_) => None,
            Err(problem) => Some(problem),
        };
        Facts {
            local: services.local,
            account_status: self.account_status.copy(),
            assistant_label: accounts.label(&self.account_status),
            login_pending: accounts.login_pending(),
            has_independent,
            room,
            room_id: self.stream.feed.session.room_id.clone(),
            obs,
            obs_error,
            settings,
            saved_settings: services.saved_settings,
            running: self.automation.running,
            resume_pending: self.automation.resume_pending,
            has_context: services.has_context,
            in_flight: services.in_flight,
            needs_rebuild: services.needs_rebuild,
            setting_pending: services.setting_pending,
            configuring: services.configuring,
            repairing: services.repairing,
            repair_result: services.repair_result,
            connected: services.connected,
            has_session: services.has_session,
            options: services.options,
            tool_mode: services.tool_mode,
            sending_enabled: self.automation.sending,
            candidates: candidates.len(),
            approval_problem,
            themes: services.themes,
            theme_name: services.theme_name,
            selected_theme: services.selected_theme,
            hosts: services.hosts,
            presets: services.presets,
            effective_activity: services.effective_activity,
            activity_labels: services.activity_labels,
            persona_labels: services.persona_labels,
            source_description: services.source_description,
            topic: services.topic,
            topic_override: services.topic_override,
            strategy_label: services.strategy_label,
            workspace: services.workspace,
            workspace_status: services.workspace_status,
            workspace_note: services.workspace_note,
            profile_summary,
            history_idle_seconds: services.history_idle_seconds,
            layout_chat: self.layout_chat,
            show_name: self.show_name,
            show_time: self.show_time,
        }
    }

    /// Whether the mouse belongs to the program: only while something lies over the messages, so
    /// that their text can be marked otherwise.
    pub fn captures_mouse(&self) -> (r: bool)
        ensures
            r == (self.desk.stop_flow is Some || self.desk.login_qr is Some || self.desk.secret_mode
                || self.review.edit is Some || self.desk.help is Some || self.panel is Some
                || self.desk.search is Some || crate::desk::slashed(self.desk.input.text())),
    {
        self.desk.stop_flow.is_some() || self.desk.login_qr.is_some() || self.desk.secret_mode
            || self.review.edit.is_some() || self.desk.help.is_some() || self.panel.is_some()
            || self.desk.search.is_some() || self.desk.is_slashed()
    }
}

} // verus!
