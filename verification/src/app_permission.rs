//! Giving the permission to send automatically, as the user sees it.
use vstd::prelude::*;

use crate::activity;
use crate::app;
use crate::app::TerminalApp;
use crate::app_commands;
use crate::automation;
use crate::automation::{Cached, Scene, Writes};
use crate::notice::NoticeLevel;
use crate::panel::{Page, Panel};

verus! {

/// The account stands against the permission: the assistant was stopped.
pub open spec fn is_rejected(
    before: TerminalApp,
    enabled: bool,
    scene: Scene,
    cached: Cached,
    writes: Writes,
) -> bool {
    enabled && scene.active && (automation::identity_problem(
        before.automation.accounts,
        scene.local,
        before.stream.feed.session.room_id@,
        before.account_status,
        cached,
    ) is Some || (!scene.local && writes.settings is Ok && writes.grant is Err))
}

impl TerminalApp {
    /// Gives the permission to send automatically, or takes it back. Where the account stands
    /// against it, the page of the accounts opens and the board says why.
    pub fn set_automatic_permission(
        &mut self,
        enabled: bool,
        scene: &Scene,
        cached: &Cached,
        writes: &Writes,
        now: u64,
    ) -> (r: Result<(), String>)
        requires
            old(self).wf(),
            now <= activity::LAST_INSTANT,
        ensures
            final(self).wf(),
            enabled ==> automation::allowed(
                old(self).automation,
                final(self).automation,
                r,
                *scene,
                old(self).stream.feed.session.room_id@,
                old(self).account_status,
                *cached,
                *writes,
            ),
            !enabled ==> automation::revoked(
                old(self).automation,
                final(self).automation,
                r,
                *writes,
            ),
            if is_rejected(*old(self), enabled, *scene, *cached, *writes) {
                let decided = TerminalApp {
                    automation: final(self).automation,
                    panel: final(self).panel,
                    ..*old(self)
                };
                &&& r matches Err(said) && app::only_said(
                    decided,
                    *final(self),
                    said@,
                    NoticeLevel::Error,
                    now,
                )
                &&& if app_commands::may_open(*old(self)) {
                    app_commands::opened(
                        TerminalApp { automation: final(self).automation, ..*old(self) },
                        decided,
                        Page::Account,
                        0,
                    )
                } else {
                    final(self).panel == old(self).panel
                }
            } else {
                *final(self) == (TerminalApp {
                    automation: final(self).automation,
                    ..*old(self)
                })
            },
    {
        let rejected: bool = enabled && scene.active && !scene.local
            && (self.automation.accounts.validate_automatic_identity(
            self.stream.feed.session.room_id.as_str(),
            &self.account_status,
            cached.readable,
            &cached.status,
        ).is_err() || (writes.settings.is_ok() && writes.grant.is_err()));
        let done: Result<(), String> = self.automation.set_automatic_permission(
            enabled,
            scene,
            self.stream.feed.session.room_id.as_str(),
            &self.account_status,
            cached,
            writes,
        );
        if rejected {
            if self.can_open() {
                self.panel = Some(Panel::open_direct(Page::Account));
            }
            if let Err(message) = &done {
                self.stream.board.say(message.as_str(), NoticeLevel::Error, now);
            }
        }
        done
    }
}

} // verus!
