//! Who may do what in the channels that the assistant creates.

use vstd::prelude::*;

verus! {

/// Whom a rule on a channel is for.
#[derive(Debug, Clone, Copy, PartialEq, Eq, Structural)]
pub enum Grantee {
    /// Every member of the guild.
    Everyone,
    /// The members who have this role.
    Role(u64),
    /// This member.
    Member(u64),
}

/// One rule on who may see a channel.
#[derive(Debug, Clone, Copy, PartialEq, Eq, Structural)]
pub struct Visibility {
    pub grantee: Grantee,
    pub may_view: bool,
}

/// Who may see the channel of a ticket: nobody but the staff and the
/// member who opened it.
pub fn ticket_visibility(staff_role: u64, owner: u64) -> (list: Vec<Visibility>)
    ensures
        list@ == seq![
            (Visibility { grantee: Grantee::Everyone, may_view: false }),
            (Visibility { grantee: Grantee::Role(staff_role), may_view: true }),
            (Visibility { grantee: Grantee::Member(owner), may_view: true }),
        ],
{
    let mut list: Vec<Visibility> = Vec::new();
    list.push(Visibility { grantee: Grantee::Everyone, may_view: false });
    list.push(Visibility { grantee: Grantee::Role(staff_role), may_view: true });
    list.push(Visibility { grantee: Grantee::Member(owner), may_view: true });
    assert(list@ =~= seq![
        (Visibility { grantee: Grantee::Everyone, may_view: false }),
        (Visibility { grantee: Grantee::Role(staff_role), may_view: true }),
        (Visibility { grantee: Grantee::Member(owner), may_view: true }),
    ]);
    list
}

/// What someone may do in a voice room.
#[derive(Debug, Clone, Copy, PartialEq, Eq, Structural)]
pub enum RoomAccess {
    /// Join the room, speak and be heard.
    Join,
    /// Manage the room and mute, deafen and move those in it.
    Control,
    /// Everything.
    Administer,
}

/// One rule on what someone may do in a voice room.
#[derive(Debug, Clone, Copy, PartialEq, Eq, Structural)]
pub struct RoomGrant {
    pub grantee: Grantee,
    pub access: RoomAccess,
}

/// The rule that gives `owner` control of their room.
pub fn owner_grant(owner: u64) -> (grant: RoomGrant)
    ensures
        grant == (RoomGrant { grantee: Grantee::Member(owner), access: RoomAccess::Control }),
{
    RoomGrant { grantee: Grantee::Member(owner), access: RoomAccess::Control }
}

/// The rules of a room created for `owner`: everybody may join, the owner
/// controls the room, and the assistant, the member `assistant`, may do
/// everything.
pub fn room_grants(owner: u64, assistant: u64) -> (list: Vec<RoomGrant>)
    ensures
        list@ == seq![
            (RoomGrant { grantee: Grantee::Everyone, access: RoomAccess::Join }),
            (RoomGrant { grantee: Grantee::Member(owner), access: RoomAccess::Control }),
            (RoomGrant { grantee: Grantee::Member(assistant), access: RoomAccess::Administer }),
        ],
{
    let mut list: Vec<RoomGrant> = Vec::new();
    list.push(RoomGrant { grantee: Grantee::Everyone, access: RoomAccess::Join });
    list.push(owner_grant(owner));
    list.push(RoomGrant { grantee: Grantee::Member(assistant), access: RoomAccess::Administer });
    assert(list@ =~= seq![
        (RoomGrant { grantee: Grantee::Everyone, access: RoomAccess::Join }),
        (RoomGrant { grantee: Grantee::Member(owner), access: RoomAccess::Control }),
        (RoomGrant { grantee: Grantee::Member(assistant), access: RoomAccess::Administer }),
    ]);
    list
}

} // verus!
