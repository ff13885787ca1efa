//! The writes that give the permission to send automatically or take it back, one after the other.
use vstd::prelude::*;
use vstd::string::*;

use crate::app::TerminalApp;
use crate::automation;
use crate::automation::{Automation, Cached, Scene, Writes};
use crate::domain::AccountStatus;

verus! {

/// What is asked for, and what decides about it.
#[derive(Clone, Copy, Debug, PartialEq, Eq, Structural)]
pub struct Request {
    pub enabled: bool,
    /// The session reaches nothing outside the machine.
    pub local: bool,
    /// The scene goes on.
    pub active: bool,
    /// The sending account may send automatically in this room.
    pub valid: bool,
    /// A permission is written down.
    pub remembered: bool,
}

/// One write.
#[derive(Clone, Copy, Debug, PartialEq, Eq, Structural)]
pub enum PermissionWrite {
    /// The assistant's runner is stopped, and may not send.
    Halt,
    /// The assistant's settings are saved: how it sends, and whether it goes on after a restart.
    Settings,
    /// The permission is written down.
    Grant,
    /// The sender of replies is told that it may send without asking.
    Permit,
    /// The sender of replies is told that it may not send without asking.
    Revoke,
    /// It is saved that the assistant is off.
    Disable,
    /// The permission that was written down is removed.
    Clear,
}

/// What came of the writes that were made.
#[derive(Debug)]
pub struct Written {
    pub halted: bool,
    pub settings: Option<Result<(), String>>,
    pub grant: Option<Result<(), String>>,
    pub permission: Option<Result<(), String>>,
    pub disabled: Option<Result<(), String>>,
    pub cleared: Option<Result<(), String>>,
}

/// A write was made and went through.
pub open spec fn went_through(write: Option<Result<(), String>>) -> bool {
    write is Some && write->0 is Ok
}

/// The next write of a refusal: the assistant is stopped and does not come back by itself.
pub open spec fn refusal_write(request: Request, written: Written) -> Option<PermissionWrite> {
    if !written.halted {
        Some(PermissionWrite::Halt)
    } else if written.disabled is None {
        Some(PermissionWrite::Disable)
    } else if request.remembered && written.cleared is None {
        Some(PermissionWrite::Clear)
    } else {
        None
    }
}

/// The next write, if there is one left to make.
pub open spec fn write_after(request: Request, written: Written) -> Option<PermissionWrite> {
    if !request.enabled {
        if written.permission is None {
            Some(PermissionWrite::Revoke)
        } else if !went_through(written.permission) {
            None
        } else if written.settings is None {
            Some(PermissionWrite::Settings)
        } else if request.remembered && written.cleared is None {
            Some(PermissionWrite::Clear)
        } else {
            None
        }
    } else if !request.active {
        None
    } else if !request.local && !request.valid {
        refusal_write(request, written)
    } else if written.settings is None {
        Some(PermissionWrite::Settings)
    } else if !went_through(written.settings) {
        None
    } else if !request.local && written.grant is None {
        Some(PermissionWrite::Grant)
    } else if !request.local && !went_through(written.grant) {
        refusal_write(request, written)
    } else if written.permission is None {
        Some(PermissionWrite::Permit)
    } else {
        None
    }
}

/// What came of the writes after one more.
pub open spec fn noted(
    written: Written,
    write: PermissionWrite,
    outcome: Result<(), String>,
) -> Written {
    match write {
        PermissionWrite::Halt => Written { halted: true, ..written },
        PermissionWrite::Settings => Written { settings: Some(outcome), ..written },
        PermissionWrite::Grant => Written { grant: Some(outcome), ..written },
        PermissionWrite::Permit | PermissionWrite::Revoke => Written {
            permission: Some(outcome),
            ..written
        },
        PermissionWrite::Disable => Written { disabled: Some(outcome), ..written },
        PermissionWrite::Clear => Written { cleared: Some(outcome), ..written },
    }
}

pub open spec fn one_if(condition: bool) -> nat {
    if condition {
        1
    } else {
        0
    }
}

/// How many writes have not been made.
pub open spec fn unwritten(written: Written) -> nat {
    one_if(!written.halted) + one_if(written.settings is None) + one_if(written.grant is None)
        + one_if(written.permission is None) + one_if(written.disabled is None) + one_if(
        written.cleared is None,
    )
}

/// The sender of replies is told that it may send without asking only in a scene that goes on,
/// after the settings were saved and, outside a local session, for a sending account that may
/// send in this room and with the permission written down.
pub proof fn law_the_permission_comes_last(request: Request, written: Written)
    requires
        write_after(request, written) == Some(PermissionWrite::Permit),
    ensures
        request.enabled && request.active,
        went_through(written.settings),
        request.local || (request.valid && went_through(written.grant)),
{
}

/// Each write is made at most once, so that the writes come to an end.
pub proof fn law_the_writes_end(
    request: Request,
    written: Written,
    outcome: Result<(), String>,
)
    requires
        write_after(request, written) is Some,
    ensures
        unwritten(noted(written, write_after(request, written)->0, outcome)) < unwritten(written),
{
}

/// What decides about a request.
pub open spec fn request_of(
    automation: Automation,
    enabled: bool,
    scene: Scene,
    room_id: Seq<char>,
    main: AccountStatus,
    cached: Cached,
) -> Request {
    Request {
        enabled,
        local: scene.local,
        active: scene.active,
        valid: automation::identity_problem(
            automation.accounts,
            scene.local,
            room_id,
            main,
            cached,
        ) is None,
        remembered: automation.accounts.selection.remembered_automatic is Some,
    }
}

pub open spec fn made(write: Option<Result<(), String>>) -> Result<(), String> {
    match write {
        Some(outcome) => outcome,
        None => Ok(()),
    }
}

/// Replies come to be sent without asking only where their sender was told so, after the writes
/// in their order.
pub proof fn law_sending_follows_the_writes(
    before: Automation,
    after: Automation,
    r: Result<(), String>,
    scene: Scene,
    room_id: Seq<char>,
    main: AccountStatus,
    cached: Cached,
    written: Written,
    writes: Writes,
)
    requires
        write_after(request_of(before, true, scene, room_id, main, cached), written) is None,
        settled(written, writes),
        automation::allowed(before, after, r, scene, room_id, main, cached, writes),
        after.sending,
        !before.sending,
    ensures
        r is Ok,
        went_through(written.permission),
        went_through(written.settings),
        scene.local || went_through(written.grant),
{
}

/// The outcomes of the writes; those that were not made count as made.
pub open spec fn settled(written: Written, writes: Writes) -> bool {
    &&& writes.permission == made(written.permission)
    &&& writes.settings == made(written.settings)
    &&& writes.grant == made(written.grant)
    &&& writes.cleared == made(written.cleared)
    &&& writes.disabled == made(written.disabled)
}

fn outcome_of(write: Option<Result<(), String>>) -> (r: Result<(), String>)
    ensures
        r == made(write),
{
    match write {
        Some(outcome) => outcome,
        None => Ok(()),
    }
}

fn is_done(write: &Option<Result<(), String>>) -> (r: bool)
    ensures
        r == went_through(*write),
{
    match write {
        Some(outcome) => outcome.is_ok(),
        None => false,
    }
}

impl Written {
    pub fn new() -> (r: Self)
        ensures
            r == (Written {
                halted: false,
                settings: None,
                grant: None,
                permission: None,
                disabled: None,
                cleared: None,
            }),
    {
        Written {
            halted: false,
            settings: None,
            grant: None,
            permission: None,
            disabled: None,
            cleared: None,
        }
    }

    fn next_of_refusal(&self, request: Request) -> (r: Option<PermissionWrite>)
        ensures
            r == refusal_write(request, *self),
    {
        if !self.halted {
            Some(PermissionWrite::Halt)
        } else if self.disabled.is_none() {
            Some(PermissionWrite::Disable)
        } else if request.remembered && self.cleared.is_none() {
            Some(PermissionWrite::Clear)
        } else {
            None
        }
    }

    /// The next write, if there is one left to make.
    pub fn next(&self, request: Request) -> (r: Option<PermissionWrite>)
        ensures
            r == write_after(request, *self),
    {
        if !request.enabled {
            return if self.permission.is_none() {
                Some(PermissionWrite::Revoke)
            } else if !is_done(&self.permission) {
                None
            } else if self.settings.is_none() {
                Some(PermissionWrite::Settings)
            } else if request.remembered && self.cleared.is_none() {
                Some(PermissionWrite::Clear)
            } else {
                None
            };
        }
        if !request.active {
            return None;
        }
        if !request.local && !request.valid {
            return self.next_of_refusal(request);
        }
        if self.settings.is_none() {
            return Some(PermissionWrite::Settings);
        }
        if !is_done(&self.settings) {
            return None;
        }
        if !request.local {
            if self.grant.is_none() {
                return Some(PermissionWrite::Grant);
            }
            if !is_done(&self.grant) {
                return self.next_of_refusal(request);
            }
        }
        if self.permission.is_none() {
            Some(PermissionWrite::Permit)
        } else {
            None
        }
    }

    /// Notes what came of a write.
    pub fn note(&mut self, write: PermissionWrite, outcome: Result<(), String>)
        ensures
            *final(self) == noted(*old(self), write, outcome),
    {
        match write {
            PermissionWrite::Halt => {
                self.halted = true;
            },
            PermissionWrite::Settings => {
                self.settings = Some(outcome);
            },
            PermissionWrite::Grant => {
                self.grant = Some(outcome);
            },
            PermissionWrite::Permit | PermissionWrite::Revoke => {
                self.permission = Some(outcome);
            },
            PermissionWrite::Disable => {
                self.disabled = Some(outcome);
            },
            PermissionWrite::Clear => {
                self.cleared = Some(outcome);
            },
        }
    }

    /// The outcomes, once the writes are made.
    pub fn settle(self) -> (r: Writes)
        ensures
            settled(self, r),
    {
        Writes {
            permission: outcome_of(self.permission),
            settings: outcome_of(self.settings),
            grant: outcome_of(self.grant),
            cleared: outcome_of(self.cleared),
            disabled: outcome_of(self.disabled),
        }
    }
}

impl TerminalApp {
    /// What decides about giving the permission to send automatically, or taking it back.
    pub fn permission_request(&self, enabled: bool, scene: &Scene, cached: &Cached) -> (r: Request)
        ensures
            r == request_of(
                self.automation,
                enabled,
                *scene,
                self.stream.feed.session.room_id@,
                self.account_status,
                *cached,
            ),
    {
        let valid: bool = scene.local || self.automation.accounts.validate_automatic_identity(
            self.stream.feed.session.room_id.as_str(),
            &self.account_status,
            cached.readable,
            &cached.status,
        ).is_ok();
        Request {
            enabled,
            local: scene.local,
            active: scene.active,
            valid,
            remembered: self.automation.accounts.has_automatic_grant(),
        }
    }
}

/// Taking a permission back writes that first and never writes one; giving one never takes one
/// back.
pub proof fn law_taking_back_comes_first(request: Request, written: Written)
    ensures
        !request.enabled && written.permission is None ==> write_after(request, written) == Some(
            PermissionWrite::Revoke,
        ),
        !request.enabled ==> write_after(request, written) != Some(PermissionWrite::Permit)
            && write_after(request, written) != Some(PermissionWrite::Grant),
        request.enabled ==> write_after(request, written) != Some(PermissionWrite::Revoke),
        request.enabled && !request.active ==> write_after(request, written) is None,
{
}

/// Where the identity may not send, or its permission could not be remembered, the assistant is
/// halted before anything else, then disabled, and what was remembered is cleared.
pub proof fn law_a_refusal_halts_first(request: Request, written: Written)
    requires
        request.enabled,
        request.active,
        !request.local,
        !request.valid,
    ensures
        !written.halted ==> write_after(request, written) == Some(PermissionWrite::Halt),
        write_after(request, written) is None ==> written.halted && written.disabled is Some && (
        request.remembered ==> written.cleared is Some),
        write_after(request, written) != Some(PermissionWrite::Settings) && write_after(
            request,
            written,
        ) != Some(PermissionWrite::Permit),
{
}

/// Each outcome is noted for the write that was made, and for no other.
pub proof fn law_outcomes_are_noted_where_they_belong(
    written: Written,
    write: PermissionWrite,
    outcome: Result<(), String>,
)
    ensures
        ({
            let after = noted(written, write, outcome);
            &&& after.halted == (written.halted || write == PermissionWrite::Halt)
            &&& after.settings == (if write == PermissionWrite::Settings {
                Some(outcome)
            } else {
                written.settings
            })
            &&& after.grant == (if write == PermissionWrite::Grant {
                Some(outcome)
            } else {
                written.grant
            })
            &&& after.permission == (if write == PermissionWrite::Permit || write
                == PermissionWrite::Revoke {
                Some(outcome)
            } else {
                written.permission
            })
            &&& after.disabled == (if write == PermissionWrite::Disable {
                Some(outcome)
            } else {
                written.disabled
            })
            &&& after.cleared == (if write == PermissionWrite::Clear {
                Some(outcome)
            } else {
                written.cleared
            })
        }),
{
}

} // verus!
