//! What the scheduler loop has to know before its first tick.

use vstd::prelude::*;

verus! {

/// What has been found out so far of the things the loop cannot run
/// without. The loop waits, and asks again, until all of them are known.
#[derive(Debug, Clone, Copy, PartialEq, Eq, Structural)]
pub struct Prerequisites {
    /// The channel in which races are announced.
    pub scheduling_channel: Option<u64>,
    /// The channel in which active races are confirmed and nagged about.
    pub active_channel: Option<u64>,
    /// The emoji that confirms.
    pub confirm_reaction: Option<u64>,
    /// The role of those who showed interest and have not confirmed.
    pub unconfirmed_role: Option<u64>,
    /// The role of those who confirmed.
    pub confirmed_role: Option<u64>,
}

/// Everything the loop cannot run without.
#[derive(Debug, Clone, Copy, PartialEq, Eq, Structural)]
pub struct Bearings {
    pub scheduling_channel: u64,
    pub active_channel: u64,
    pub confirm_reaction: u64,
    pub unconfirmed_role: u64,
    pub confirmed_role: u64,
}

impl Prerequisites {
    /// Nothing is known yet.
    pub fn unknown() -> (nothing: Prerequisites)
        ensures
            nothing == (Prerequisites {
                scheduling_channel: None,
                active_channel: None,
                confirm_reaction: None,
                unconfirmed_role: None,
                confirmed_role: None,
            }),
    {
        Prerequisites {
            scheduling_channel: None,
            active_channel: None,
            confirm_reaction: None,
            unconfirmed_role: None,
            confirmed_role: None,
        }
    }

    pub open spec fn complete(self) -> bool {
        &&& self.scheduling_channel is Some
        &&& self.active_channel is Some
        &&& self.confirm_reaction is Some
        &&& self.unconfirmed_role is Some
        &&& self.confirmed_role is Some
    }

    /// The bearings, once all of them are known. While one is missing the
    /// loop must not start.
    pub fn resolve(&self) -> (bearings: Option<Bearings>)
        ensures
            bearings is Some <==> self.complete(),
            bearings matches Some(b) ==> {
                &&& self.scheduling_channel == Some(b.scheduling_channel)
                &&& self.active_channel == Some(b.active_channel)
                &&& self.confirm_reaction == Some(b.confirm_reaction)
                &&& self.unconfirmed_role == Some(b.unconfirmed_role)
                &&& self.confirmed_role == Some(b.confirmed_role)
            },
    {
        match (
            self.scheduling_channel,
            self.active_channel,
            self.confirm_reaction,
            self.unconfirmed_role,
            self.confirmed_role,
        ) {
            (
                Some(scheduling_channel),
                Some(active_channel),
                Some(confirm_reaction),
                Some(unconfirmed_role),
                Some(confirmed_role),
            ) => Some(
                Bearings {
                    scheduling_channel,
                    active_channel,
                    confirm_reaction,
                    unconfirmed_role,
                    confirmed_role,
                },
            ),
            _ => None,
        }
    }
}

} // verus!
