//! The permission to send automatically, and what the assistant learns of the room.
use vstd::prelude::*;
use vstd::string::*;

use crate::accounts;
use crate::accounts::{AssistantAccounts, Problem, SendIdentity};
use crate::domain::{AccountStatus, RoomLiveStatus, RoomSnapshot};
use crate::text;

verus! {

/// What is known of the scene that the assistant works in.
#[derive(Debug)]
pub struct Scene {
    /// The session reaches nothing outside the machine.
    pub local: bool,
    pub active: bool,
    pub session: String,
}

/// The credential behind the sending account: whether it could be read, and whom it is of.
pub struct Cached {
    pub readable: bool,
    pub status: Result<AccountStatus, String>,
}

/// What came of the writes that a change of the permission asks for.
pub struct Writes {
    /// Telling the sender of replies.
    pub permission: Result<(), String>,
    /// Saving the assistant's settings.
    pub settings: Result<(), String>,
    /// Writing down a permission that was given.
    pub grant: Result<(), String>,
    /// Removing a permission that was written down.
    pub cleared: Result<(), String>,
    /// Saving that the assistant is off.
    pub disabled: Result<(), String>,
}

/// Whether the assistant runs, and what it may do by itself.
pub struct Automation {
    pub accounts: AssistantAccounts,
    /// The assistant is set to send by itself.
    pub automatic: bool,
    /// The assistant is to go on when the program starts again.
    pub resume_on_start: bool,
    /// Replies are sent without asking, in this scene.
    pub sending: bool,
    pub running: bool,
    pub resume_pending: bool,
}

/// The remembered permission after it was taken back, where that could be saved.
pub open spec fn forgotten(accounts: AssistantAccounts, cleared: Result<(), String>) -> AssistantAccounts {
    if accounts.selection.remembered_automatic is None || cleared is Ok {
        AssistantAccounts { selection: accounts.selection.without_grant(), ..accounts }
    } else {
        accounts
    }
}

/// Taking the remembered permission back failed.
pub open spec fn forget_failed(accounts: AssistantAccounts, cleared: Result<(), String>) -> bool {
    accounts.selection.remembered_automatic is Some && cleared is Err
}

/// The assistant after it was paused: it neither runs nor sends, and does not come back by itself,
/// as far as that could be saved. How it is set to send stays.
pub open spec fn paused(before: Automation, writes: Writes) -> Automation {
    Automation {
        accounts: forgotten(before.accounts, writes.cleared),
        automatic: before.automatic,
        resume_on_start: before.resume_on_start && writes.disabled is Err,
        sending: false,
        running: false,
        resume_pending: false,
    }
}

/// What is said of a permission that was refused, with what else failed.
pub open spec fn refusal_text(
    reason: Seq<char>,
    accounts: AssistantAccounts,
    writes: Writes,
) -> Seq<char> {
    let first = match writes.disabled {
        Ok(_) => reason,
        Err(error) => reason + "；保存助手停用状态失败："@ + error@,
    };
    if forget_failed(accounts, writes.cleared) {
        first + "；清除自动发送授权失败："@ + writes.cleared->Err_0@
    } else {
        first
    }
}

/// What stands against automatic sending.
pub open spec fn identity_problem(
    accounts: AssistantAccounts,
    local: bool,
    room_id: Seq<char>,
    main: AccountStatus,
    cached: Cached,
) -> Option<Seq<char>> {
    if local {
        None
    } else {
        accounts.grant_problem(room_id, main, cached.readable, cached.status)
    }
}

/// The assistant after the permission was asked for.
pub open spec fn allowed(
    before: Automation,
    after: Automation,
    r: Result<(), String>,
    scene: Scene,
    room_id: Seq<char>,
    main: AccountStatus,
    cached: Cached,
    writes: Writes,
) -> bool {
    let problem = identity_problem(before.accounts, scene.local, room_id, main, cached);
    let set = Automation { automatic: true, resume_on_start: true, ..before };
    if !scene.active {
        &&& r matches Err(said) && said@ == "当前场次已结束"@
        &&& after == before
    } else if problem is Some {
        &&& r matches Err(said) && said@ == refusal_text(problem->0, before.accounts, writes)
        &&& after == paused(before, writes)
    } else if writes.settings is Err {
        &&& r matches Err(said) && said == writes.settings->Err_0
        &&& after == before
    } else if !scene.local && writes.grant is Err {
        &&& r matches Err(said) && said@ == refusal_text(
            writes.grant->Err_0@,
            before.accounts,
            writes,
        )
        &&& after == paused(set, writes)
    } else {
        &&& after == (Automation {
            accounts: after.accounts,
            sending: before.sending || writes.permission is Ok,
            ..set
        })
        &&& match writes.permission {
            Ok(_) => r is Ok,
            Err(error) => r matches Err(said) && said == error,
        }
        &&& if scene.local {
            after.accounts == before.accounts
        } else {
            let grant = after.accounts.selection.remembered_automatic;
            &&& grant matches Some(grant) && grant.room_id@ == room_id && Some(grant.user_id@)
                == before.accounts.sender(main).user()
            &&& after.accounts == (AssistantAccounts {
                selection: accounts::Selection {
                    remembered_automatic: grant,
                    ..before.accounts.selection
                },
                ..before.accounts
            })
        }
    }
}

/// The assistant after the permission was taken back.
pub open spec fn revoked(
    before: Automation,
    after: Automation,
    r: Result<(), String>,
    writes: Writes,
) -> bool {
    if writes.permission is Err {
        &&& r matches Err(said) && said == writes.permission->Err_0
        &&& after == before
    } else {
        &&& after == (Automation {
            accounts: forgotten(before.accounts, writes.cleared),
            sending: false,
            automatic: before.automatic && writes.settings is Err,
            ..before
        })
        &&& if writes.settings is Err {
            r matches Err(said) && said == writes.settings->Err_0
        } else if forget_failed(before.accounts, writes.cleared) {
            r matches Err(said) && said@ == writes.cleared->Err_0@
        } else {
            r is Ok
        }
    }
}

fn copy_write(write: &Result<(), String>) -> (r: Result<(), String>)
    ensures
        r == *write,
{
    match write {
        Ok(done) => Ok(*done),
        Err(error) => Err(error.clone()),
    }
}

/// Sending is taken up again where nothing has changed since and the permission was written.
pub open spec fn taken_up(
    before: Automation,
    after: Automation,
    r: Result<(), String>,
    scene: Scene,
    session: Seq<char>,
    generation: u64,
    room_id: Seq<char>,
    main: AccountStatus,
    readable: bool,
    permission: Result<(), String>,
) -> bool {
    let problem = before.restore_problem(
        scene,
        session,
        generation,
        room_id,
        main,
        readable,
    );
    match problem {
        Some(said) => {
            &&& r matches Err(error) && error@ == said
            &&& after == before
        },
        None => match permission {
            Ok(_) => {
                &&& r is Ok
                &&& after == (Automation { sending: true, ..before })
            },
            Err(error) => {
                &&& r matches Err(said) && said == error
                &&& after == before
            },
        },
    }
}

impl Automation {
    /// Stops the assistant and takes the permission back. The answer is what is to be told.
    fn reject(&mut self, reason: String, writes: &Writes) -> (r: String)
        ensures
            *final(self) == paused(*old(self), *writes),
            r@ == refusal_text(reason@, old(self).accounts, *writes),
    {
        self.resume_pending = false;
        self.running = false;
        self.sending = false;
        let mut message: String = reason;
        match &writes.disabled {
            Ok(_) => {
                self.resume_on_start = false;
            },
            Err(error) => {
                message.append("；保存助手停用状态失败：");
                message.append(error.as_str());
            },
        }
        if let Err(problem) = self.accounts.forget_automatic(copy_write(&writes.cleared)) {
            message.append("；清除自动发送授权失败：");
            message.append(problem.message().as_str());
        }
        message
    }

    /// Gives the permission to send automatically, or takes it back.
    pub fn set_automatic_permission(
        &mut self,
        enabled: bool,
        scene: &Scene,
        room_id: &str,
        main: &AccountStatus,
        cached: &Cached,
        writes: &Writes,
    ) -> (r: Result<(), String>)
        ensures
            enabled ==> allowed(
                *old(self),
                *final(self),
                r,
                *scene,
                room_id@,
                *main,
                *cached,
                *writes,
            ),
            !enabled ==> revoked(*old(self), *final(self), r, *writes),
    {
        if !enabled {
            if let Err(error) = &writes.permission {
                return Err(error.clone());
            }
            self.sending = false;
            let saved: Result<(), String> = copy_write(&writes.settings);
            if saved.is_ok() {
                self.automatic = false;
            }
            let forgot: Result<(), Problem> = self.accounts.forget_automatic(
                copy_write(&writes.cleared),
            );
            if let Err(error) = saved {
                return Err(error);
            }
            return match forgot {
                Ok(_) => Ok(()),
                Err(problem) => Err(problem.message()),
            };
        }
        if !scene.active {
            return Err("当前场次已结束".to_owned());
        }
        if !scene.local {
            if let Err(problem) = self.accounts.validate_automatic_identity(
                room_id,
                main,
                cached.readable,
                &cached.status,
            ) {
                return Err(self.reject(problem.message(), writes));
            }
        }
        if let Err(error) = &writes.settings {
            return Err(error.clone());
        }
        self.automatic = true;
        self.resume_on_start = true;
        if !scene.local {
            if let Err(problem) = self.accounts.remember_automatic(
                room_id,
                main,
                cached.readable,
                &cached.status,
                copy_write(&writes.grant),
            ) {
                return Err(self.reject(problem.message(), writes));
            }
        }
        match &writes.permission {
            Ok(_) => {
                self.sending = true;
                Ok(())
            },
            Err(error) => Err(error.clone()),
        }
    }

    /// What stands against going on to send automatically after a restart.
    pub open spec fn restore_problem(
        self,
        scene: Scene,
        session: Seq<char>,
        generation: u64,
        room_id: Seq<char>,
        main: AccountStatus,
        readable: bool,
    ) -> Option<Seq<char>> {
        if scene.local || !scene.active || scene.session@ != session
            || self.accounts.gate.generation != generation || !self.automatic
            || !self.resume_on_start || !self.accounts.permits(room_id, main) {
            Some("房间、发送身份或自动设置已改变，未恢复自动发送"@)
        } else if self.accounts.gate.unavailable || self.accounts.sender_credential() is None
            || !readable {
            Some("当前发送身份已不可用"@)
        } else {
            None
        }
    }

    /// Goes on to send automatically after a restart, where nothing has changed since.
    pub fn restore_automatic(
        &mut self,
        scene: &Scene,
        session: &str,
        generation: u64,
        room_id: &str,
        main: &AccountStatus,
        readable: bool,
        permission: &Result<(), String>,
    ) -> (r: Result<(), String>)
        ensures
            taken_up(
                *old(self),
                *final(self),
                r,
                *scene,
                session@,
                generation,
                room_id@,
                *main,
                readable,
                *permission,
            ),
    {
        if scene.local || !scene.active || !text::same(scene.session.as_str(), session)
            || self.accounts.generation() != generation || !self.automatic
            || !self.resume_on_start || !self.accounts.automatic_matches(room_id, main) {
            return Err("房间、发送身份或自动设置已改变，未恢复自动发送".to_owned());
        }
        let identity: SendIdentity = self.accounts.send_identity(main, readable);
        if !identity.valid(&self.accounts.gate) || identity.account().is_none() {
            return Err("当前发送身份已不可用".to_owned());
        }
        match permission {
            Ok(_) => {
                self.sending = true;
                Ok(())
            },
            Err(error) => Err(error.clone()),
        }
    }

    /// At the start of the program, a permission that was remembered for another room or account
    /// is dropped. The answer is what is to be told, where that failed.
    pub fn forget_elsewhere(&mut self, room_id: &str, main: &AccountStatus, saved: Result<(), String>)
        -> (r: Option<String>)
        ensures
            ({
                let accounts = old(self).accounts;
                let elsewhere = accounts.selection.remembered_automatic is Some
                    && !accounts.permits(room_id@, *main);
                if elsewhere {
                    &&& *final(self) == (Automation {
                        accounts: forgotten(accounts, saved),
                        ..*old(self)
                    })
                    &&& text::opt_view(r) == match saved {
                        Ok(_) => None,
                        Err(error) => Some(
                            "房间或账号不匹配，未恢复自动发送；清除旧授权失败："@ + error@,
                        ),
                    }
                } else {
                    *final(self) == *old(self) && r is None
                }
            }),
    {
        if !self.accounts.has_automatic_grant() || self.accounts.automatic_matches(room_id, main) {
            return None;
        }
        match self.accounts.forget_automatic(saved) {
            Ok(_) => None,
            Err(problem) => Some(
                text::add2(
                    "房间或账号不匹配，未恢复自动发送；清除旧授权失败：",
                    problem.message().as_str(),
                ),
            ),
        }
    }

    /// Pauses the assistant. The answer is what is to be told, where something failed.
    pub fn pause_assistant(&mut self, writes: &Writes) -> (r: Option<String>)
        ensures
            *final(self) == paused(*old(self), *writes),
            match writes.disabled {
                Err(error) => r matches Some(said) && said@
                    == "助手已暂停；未能清除下次续用提醒："@ + error@,
                Ok(_) => if forget_failed(old(self).accounts, writes.cleared) {
                    r matches Some(said) && said@ == "助手已暂停；未能清除下次续用提醒："@
                        + writes.cleared->Err_0@
                } else {
                    r is None
                },
            },
    {
        self.resume_pending = false;
        self.running = false;
        self.sending = false;
        let forgot: Result<(), Problem> = self.accounts.forget_automatic(
            copy_write(&writes.cleared),
        );
        match &writes.disabled {
            Ok(_) => {
                self.resume_on_start = false;
                match forgot {
                    Ok(_) => None,
                    Err(problem) => Some(
                        text::add2(
                            "助手已暂停；未能清除下次续用提醒：",
                            problem.message().as_str(),
                        ),
                    ),
                }
            },
            Err(error) => Some(
                text::add2(
                    "助手已暂停；未能清除下次续用提醒：",
                    error.as_str(),
                ),
            ),
        }
    }
}

/// Pausing always takes the permission to send away, whatever could be saved, and leaves the
/// chosen way of sending as it is.
pub proof fn law_pausing_revokes(before: Automation, writes: Writes)
    ensures
        !paused(before, writes).sending,
        !paused(before, writes).running,
        paused(before, writes).automatic == before.automatic,
        writes.cleared is Ok ==> paused(
            before,
            writes,
        ).accounts.selection.remembered_automatic is None,
{
}

/// A permission that could not be given leaves nothing sending that did not send before, and
/// changes the settings only after the sending account was verified.
pub proof fn law_a_refused_permission_sends_nothing(
    before: Automation,
    after: Automation,
    r: Result<(), String>,
    scene: Scene,
    room_id: Seq<char>,
    main: AccountStatus,
    cached: Cached,
    writes: Writes,
)
    requires
        allowed(before, after, r, scene, room_id, main, cached, writes),
        r is Err,
    ensures
        after.sending ==> before.sending,
        identity_problem(before.accounts, scene.local, room_id, main, cached) is Some
            ==> after.automatic == before.automatic,
{
}

/// After a permission was taken back, a restart does not send by itself.
pub proof fn law_a_revoked_permission_is_not_restored(
    before: Automation,
    after: Automation,
    r: Result<(), String>,
    writes: Writes,
    scene: Scene,
    session: Seq<char>,
    generation: u64,
    room_id: Seq<char>,
    main: AccountStatus,
    readable: bool,
)
    requires
        revoked(before, after, r, writes),
        r is Ok,
    ensures
        !after.sending,
        after.restore_problem(scene, session, generation, room_id, main, readable) is Some,
{
}

/// A local session never leaves a permission behind.
pub proof fn law_local_permissions_are_not_remembered(
    before: Automation,
    after: Automation,
    r: Result<(), String>,
    scene: Scene,
    room_id: Seq<char>,
    main: AccountStatus,
    cached: Cached,
    writes: Writes,
)
    requires
        allowed(before, after, r, scene, room_id, main, cached, writes),
        scene.local,
        before.accounts.selection.remembered_automatic is None,
    ensures
        after.accounts.selection.remembered_automatic is None,
{
}

/// A permission holds for the room and the account that it was given for: with the assistant's
/// settings and accounts unchanged it is restored in that room, and in no other.
pub proof fn law_a_permission_is_restored_in_its_room(
    before: Automation,
    after: Automation,
    scene: Scene,
    room_id: Seq<char>,
    main: AccountStatus,
    cached: Cached,
    writes: Writes,
    other: Seq<char>,
)
    requires
        allowed(before, after, Ok(()), scene, room_id, main, cached, writes),
        !scene.local,
        scene.active,
        before.accounts.selection.mode == accounts::Mode::Independent
            ==> before.accounts.independent is Some,
    ensures
        after.restore_problem(
            scene,
            scene.session@,
            after.accounts.gate.generation,
            room_id,
            main,
            cached.readable,
        ) is None,
        other != room_id ==> after.restore_problem(
            scene,
            scene.session@,
            after.accounts.gate.generation,
            other,
            main,
            cached.readable,
        ) is Some,
{
}

/// What the broadcaster says of themselves in public.
#[derive(Debug)]
pub struct PublicProfile {
    pub source_url: String,
    pub description: String,
}

/// What is known of the broadcaster's profile.
#[derive(Debug)]
pub struct ProfileState {
    pub room_id: String,
    pub user_id: String,
    pub value: Option<PublicProfile>,
    pub error: Option<String>,
    pub checked_at: Option<u64>,
    pub pending: bool,
}

/// The milliseconds that a profile is trusted, and that a failure is not repeated.
pub const PROFILE_AGE: u64 = 900000;

pub const PROFILE_RETRY: u64 = 60000;

/// The profile is of this room and broadcaster.
pub open spec fn is_profile_of(profile: ProfileState, room: RoomSnapshot) -> bool {
    profile.user_id@ == room.broadcaster_id@ && profile.room_id@ == room.room_id@
}

/// When the profile was looked up, and whether that is too long ago.
pub open spec fn is_stale(profile: ProfileState, now: u64) -> bool {
    match profile.checked_at {
        None => true,
        Some(at) => now - at >= if profile.error is Some {
            PROFILE_RETRY
        } else {
            PROFILE_AGE
        },
    }
}

/// What the assistant is told of the room.
#[derive(Debug)]
pub struct RoomContext {
    pub room_id: String,
    pub broadcaster_id: String,
    pub title: String,
    pub area: String,
    pub broadcaster_name: String,
    pub profile: Option<String>,
    pub profile_source: Option<String>,
}

impl ProfileState {
    pub fn new() -> (r: Self)
        ensures
            r.room_id@.len() == 0,
            r.user_id@.len() == 0,
            r.value is None,
            r.error is None,
            r.checked_at is None,
            !r.pending,
    {
        ProfileState {
            room_id: String::new(),
            user_id: String::new(),
            value: None,
            error: None,
            checked_at: None,
            pending: false,
        }
    }

    /// The profile after an answer was taken in.
    pub open spec fn replied(
        self,
        result: Result<Option<PublicProfile>, String>,
        now: u64,
    ) -> ProfileState {
        ProfileState {
            pending: false,
            checked_at: Some(now),
            value: match result {
                Ok(value) => value,
                Err(_) => None,
            },
            error: match result {
                Ok(_) => None,
                Err(error) => Some(error),
            },
            ..self
        }
    }

    /// The profile of another room or broadcaster is forgotten, and what the assistant is told is
    /// what is known of the room now.
    pub open spec fn synced(
        self,
        after: ProfileState,
        room: Option<RoomSnapshot>,
        told: Option<RoomContext>,
    ) -> bool {
        match room {
            None => told is None && after == self,
            Some(room) => {
                &&& after == if is_profile_of(self, room) {
                    self
                } else {
                    ProfileState {
                        room_id: room.room_id,
                        user_id: room.broadcaster_id,
                        value: None,
                        error: None,
                        checked_at: None,
                        pending: false,
                    }
                }
                &&& told == Some(
                    RoomContext {
                        room_id: room.room_id,
                        broadcaster_id: room.broadcaster_id,
                        title: room.title,
                        area: room.area,
                        broadcaster_name: room.broadcaster_name,
                        profile: match after.value {
                            Some(value) => Some(value.description),
                            None => None,
                        },
                        profile_source: match after.value {
                            Some(value) => Some(value.source_url),
                            None => None,
                        },
                    },
                )
            },
        }
    }

    /// Forgets the profile of another room or broadcaster, and says what the assistant is told.
    pub fn sync_assistant_room(&mut self, room: &Option<RoomSnapshot>) -> (r: Option<RoomContext>)
        ensures
            old(self).synced(*final(self), *room, r),
    {
        match room {
            None => None,
            Some(room) => {
                if !(text::same(self.user_id.as_str(), room.broadcaster_id.as_str())
                    && text::same(self.room_id.as_str(), room.room_id.as_str())) {
                    self.room_id = room.room_id.clone();
                    self.user_id = room.broadcaster_id.clone();
                    self.value = None;
                    self.error = None;
                    self.checked_at = None;
                    self.pending = false;
                }
                Some(
                    RoomContext {
                        room_id: room.room_id.clone(),
                        broadcaster_id: room.broadcaster_id.clone(),
                        title: room.title.clone(),
                        area: room.area.clone(),
                        broadcaster_name: room.broadcaster_name.clone(),
                        profile: match &self.value {
                            Some(value) => Some(value.description.clone()),
                            None => None,
                        },
                        profile_source: match &self.value {
                            Some(value) => Some(value.source_url.clone()),
                            None => None,
                        },
                    },
                )
            },
        }
    }

    /// Says whether the profile is to be looked up now: only for an assistant that uses it and is
    /// in use, and not more often than needed.
    pub fn refresh_assistant_profile(
        &mut self,
        local: bool,
        used: bool,
        in_use: bool,
        room_known: bool,
        now: u64,
    ) -> (r: bool)
        ensures
            r == (!local && used && !old(self).pending && in_use && room_known && is_stale(
                *old(self),
                now,
            )),
            *final(self) == (ProfileState { pending: old(self).pending || r, ..*old(self) }),
    {
        if local || !used || self.pending || !in_use || !room_known {
            return false;
        }
        let age: u64 = if self.error.is_some() {
            PROFILE_RETRY
        } else {
            PROFILE_AGE
        };
        if let Some(at) = self.checked_at {
            if now < at || now - at < age {
                return false;
            }
        }
        self.pending = true;
        true
    }

    /// Takes the answer in, unless it is of another room by now. The answer says whether it was.
    pub fn answered(
        &mut self,
        room: &Option<RoomSnapshot>,
        room_id: &str,
        user_id: &str,
        result: Result<Option<PublicProfile>, String>,
        now: u64,
    ) -> (r: bool)
        ensures
            r == (match *room {
                Some(room) => room.room_id@ == room_id@ && room.broadcaster_id@ == user_id@,
                None => false,
            }),
            !r ==> *final(self) == *old(self),
            r ==> *final(self) == old(self).replied(result, now),
    {
        let wanted: bool = match room {
            Some(room) => text::same(room.room_id.as_str(), room_id) && text::same(
                room.broadcaster_id.as_str(),
                user_id,
            ),
            None => false,
        };
        if !wanted {
            return false;
        }
        self.pending = false;
        self.checked_at = Some(now);
        match result {
            Ok(value) => {
                self.value = value;
                self.error = None;
            },
            Err(error) => {
                self.value = None;
                self.error = Some(error);
            },
        }
        true
    }

    pub open spec fn summary_text(self, used: bool) -> Seq<char> {
        if !used {
            "已关闭引用"@
        } else {
            match self.value {
                Some(value) => "来源 "@ + value.source_url@ + " · "@ + value.description@,
                None => if self.error is Some {
                    "暂不可用，不影响启动"@
                } else if self.pending {
                    "获取中，不影响启动"@
                } else if self.checked_at is Some {
                    "主页未填写公开简介"@
                } else {
                    "尚未获取，不影响启动"@
                },
            }
        }
    }

    /// What the panel says of the profile.
    pub fn profile_summary(&self, used: bool) -> (r: String)
        ensures
            r@ == self.summary_text(used),
    {
        if !used {
            return "已关闭引用".to_owned();
        }
        match &self.value {
            Some(value) => {
                let mut out: String = text::add3("来源 ", value.source_url.as_str(), " · ");
                out.append(value.description.as_str());
                out
            },
            None => if self.error.is_some() {
                "暂不可用，不影响启动".to_owned()
            } else if self.pending {
                "获取中，不影响启动".to_owned()
            } else if self.checked_at.is_some() {
                "主页未填写公开简介".to_owned()
            } else {
                "尚未获取，不影响启动".to_owned()
            },
        }
    }
}

/// The broadcast that is on: its room and when it began.
#[derive(Debug)]
pub struct LiveScope {
    pub room_id: String,
    pub started_at: Option<i64>,
}

pub open spec fn same_scope(a: LiveScope, b: LiveScope) -> bool {
    a.room_id@ == b.room_id@ && a.started_at == b.started_at
}

/// What a look at the room asks for.
#[derive(Clone, Copy, Debug, PartialEq, Eq, Structural)]
pub struct SceneStep {
    pub new_session: bool,
    pub end: bool,
    pub available: bool,
}

/// The broadcast that is on, if one is.
pub open spec fn live_scope(room: Option<RoomSnapshot>) -> Option<LiveScope> {
    match room {
        Some(room) => if room.live_status == RoomLiveStatus::Live {
            Some(LiveScope { room_id: room.room_id, started_at: room.live_started_at })
        } else {
            None
        },
        None => None,
    }
}

/// What a look at the room asks for: a scene begins with a broadcast, and anew with another one,
/// and ends when the broadcast is over. Replies go out only while it is on and connected.
pub open spec fn scene_step(
    before: Option<LiveScope>,
    room: Option<RoomSnapshot>,
    active: bool,
    connection: Seq<char>,
    quitting: bool,
) -> SceneStep {
    let now = live_scope(room);
    SceneStep {
        new_session: now is Some && (!active || (before is Some && !same_scope(
            before->0,
            now->0,
        ))),
        end: now is None && before is Some,
        available: now is Some && text::has_prefix(connection, "已连接"@) && !quitting,
    }
}

/// Follows the broadcast of the room.
pub fn advance_scene(
    scope: &mut Option<LiveScope>,
    room: &Option<RoomSnapshot>,
    active: bool,
    connection: &str,
    quitting: bool,
) -> (r: SceneStep)
    ensures
        r == scene_step(*old(scope), *room, active, connection@, quitting),
        *final(scope) == live_scope(*room),
{
    let now: Option<LiveScope> = match room {
        Some(room) => if room.is_live() {
            Some(LiveScope { room_id: room.room_id.clone(), started_at: room.live_started_at })
        } else {
            None
        },
        None => None,
    };
    let live: bool = now.is_some();
    let changed: bool = match (&*scope, &now) {
        (Some(before), Some(now)) => !(text::same(
            before.room_id.as_str(),
            now.room_id.as_str(),
        ) && before.started_at == now.started_at),
        _ => false,
    };
    let step: SceneStep = SceneStep {
        new_session: live && (!active || changed),
        end: !live && scope.is_some(),
        available: live && text::starts_with(connection, "已连接") && !quitting,
    };
    *scope = now;
    step
}

/// A broadcast that goes on is one scene: looking at it again begins nothing and ends nothing.
pub proof fn law_a_running_broadcast_is_one_scene(
    room: Option<RoomSnapshot>,
    connection: Seq<char>,
    quitting: bool,
)
    ensures
        !scene_step(live_scope(room), room, true, connection, quitting).new_session,
        !scene_step(live_scope(room), room, true, connection, quitting).end,
{
}

/// Sending by itself is allowed exactly where the session is on, the identity has no problem and
/// all that belongs to it was written; then the assistant sends, and outside a local session the
/// permission is remembered for this room and for the account that sends.
pub proof fn law_what_allowing_takes(
    before: Automation,
    after: Automation,
    r: Result<(), String>,
    scene: Scene,
    room_id: Seq<char>,
    main: AccountStatus,
    cached: Cached,
    writes: Writes,
)
    requires
        allowed(before, after, r, scene, room_id, main, cached, writes),
    ensures
        r is Ok <==> {
            &&& scene.active
            &&& scene.local || before.accounts.grant_problem(
                room_id,
                main,
                cached.readable,
                cached.status,
            ) is None
            &&& writes.settings is Ok
            &&& scene.local || writes.grant is Ok
            &&& writes.permission is Ok
        },
        r is Ok ==> after.sending && after.automatic && after.resume_on_start,
        r is Ok && !scene.local ==> {
            let grant = after.accounts.selection.remembered_automatic;
            &&& grant is Some
            &&& grant->0.room_id@ == room_id
            &&& Some(grant->0.user_id@) == after.accounts.sender(main).user()
        },
        !scene.active ==> after == before,
{
}

/// Taking the permission back ends sending, unless the permission itself could not be written:
/// then nothing changes and the failure is told.
pub proof fn law_taking_back_ends_sending(
    before: Automation,
    after: Automation,
    r: Result<(), String>,
    writes: Writes,
)
    requires
        revoked(before, after, r, writes),
    ensures
        writes.permission is Ok ==> !after.sending,
        writes.permission is Ok && writes.settings is Ok ==> !after.automatic,
        writes.permission is Ok && writes.cleared is Ok
            ==> after.accounts.selection.remembered_automatic is None,
        writes.permission is Err ==> after == before && r is Err,
        r is Ok <==> writes.permission is Ok && writes.settings is Ok && (writes.cleared is Ok
            || before.accounts.selection.remembered_automatic is None),
        after.running == before.running,
{
}

/// Sending is taken up again exactly where nothing has changed since: the same session and
/// generation, a permission that counts for this room, the settings for it on, and an account that
/// can be used.
pub proof fn law_what_taking_up_again_takes(
    automation: Automation,
    scene: Scene,
    session: Seq<char>,
    generation: u64,
    room_id: Seq<char>,
    main: AccountStatus,
    readable: bool,
)
    ensures
        automation.restore_problem(scene, session, generation, room_id, main, readable) is None
            <==> {
            &&& !scene.local
            &&& scene.active
            &&& scene.session@ == session
            &&& automation.accounts.gate.generation == generation
            &&& automation.automatic
            &&& automation.resume_on_start
            &&& automation.accounts.permits(room_id, main)
            &&& automation.accounts.sender_credential() is Some
            &&& readable
        },
{
}

/// Pausing keeps the settings, and forgets that sending is to be resumed where that could be
/// written.
pub proof fn law_pausing_is_remembered(before: Automation, writes: Writes)
    ensures
        writes.disabled is Ok ==> !paused(before, writes).resume_on_start,
        writes.disabled is Err ==> paused(before, writes).resume_on_start == before.resume_on_start,
        !paused(before, writes).resume_pending,
        paused(before, writes).accounts.selection.mode == before.accounts.selection.mode,
        paused(before, writes).accounts.gate == before.accounts.gate,
{
}

/// A profile that was fetched is asked for again after a quarter of an hour, one that could not be
/// fetched after a minute.
pub proof fn law_profiles_age(
    profile: ProfileState,
    result: Result<Option<PublicProfile>, String>,
    fetched: u64,
    now: u64,
)
    ensures
        is_stale(profile.replied(result, fetched), now) <==> now - fetched >= (if result is Ok {
            900000int
        } else {
            60000int
        }),
        !profile.replied(result, fetched).pending,
        result is Ok ==> profile.replied(result, fetched).value == result->Ok_0,
        result is Err ==> profile.replied(result, fetched).value is None,
        profile.replied(result, fetched).room_id == profile.room_id,
{
}

/// What is known of one room and its host is not told of another.
pub proof fn law_profiles_stay_with_their_host(
    before: ProfileState,
    after: ProfileState,
    room: RoomSnapshot,
    told: Option<RoomContext>,
)
    requires
        before.synced(after, Some(room), told),
    ensures
        after.room_id@ == room.room_id@,
        after.user_id@ == room.broadcaster_id@,
        before.room_id@ != room.room_id@ || before.user_id@ != room.broadcaster_id@ ==> after.value
            is None && after.checked_at is None && !after.pending,
        before.room_id@ == room.room_id@ && before.user_id@ == room.broadcaster_id@ ==> after
            == before,
        told is Some,
        told->0.title == room.title,
        told->0.room_id == room.room_id,
        told->0.broadcaster_name == room.broadcaster_name,
        told->0.profile is Some <==> after.value is Some,
        after.value is Some ==> told->0.profile == Some(after.value->0.description),
{
}

/// A scene begins where a broadcast is on and none was active or another one was; it ends where one
/// was on and none is; and it is available where one is on, the room is connected and nobody is
/// leaving.
pub proof fn law_scenes_follow_the_broadcast(
    before: Option<LiveScope>,
    room: RoomSnapshot,
    active: bool,
    connection: Seq<char>,
    quitting: bool,
)
    ensures
        ({
            let step = scene_step(before, Some(room), active, connection, quitting);
            let live = room.live_status == RoomLiveStatus::Live;
            &&& step.end <==> !live && before is Some
            &&& step.new_session <==> live && (!active || (before is Some && (before->0.room_id@
                != room.room_id@ || before->0.started_at != room.live_started_at)))
            &&& step.available <==> live && !quitting && text::has_prefix(connection, "已连接"@)
            &&& quitting ==> !step.available
        }),
        scene_step(before, None, active, connection, quitting).end <==> before is Some,
        !scene_step(before, None, active, connection, quitting).new_session,
        !scene_step(before, None, active, connection, quitting).available,
{
}

/// Sending begins again exactly where nothing stands against it and the permission was written;
/// otherwise nothing changes and the reason is told.
pub proof fn law_taking_up_again_sends_or_changes_nothing(
    before: Automation,
    after: Automation,
    r: Result<(), String>,
    scene: Scene,
    session: Seq<char>,
    generation: u64,
    room_id: Seq<char>,
    main: AccountStatus,
    readable: bool,
    permission: Result<(), String>,
)
    requires
        taken_up(
            before,
            after,
            r,
            scene,
            session,
            generation,
            room_id,
            main,
            readable,
            permission,
        ),
    ensures
        r is Ok ==> after.sending && before.accounts.permits(room_id, main) && scene.active
            && !scene.local && permission is Ok,
        r is Err ==> after == before,
        r is Ok <==> permission is Ok && before.restore_problem(
            scene,
            session,
            generation,
            room_id,
            main,
            readable,
        ) is None,
        after.accounts == before.accounts,
        after.automatic == before.automatic,
{
}

} // verus!
