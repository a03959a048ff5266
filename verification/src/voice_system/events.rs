//! What the voice flow does when someone moves between rooms and when a
//! room disappears.

use vstd::prelude::*;
use vstd::std_specs::hash::group_hash_axioms;
use vstd::string::*;
use crate::config::contains_id;
use crate::voice_system::structs::{Occupant, VoiceStore};

verus! {

/// The first occupant who is no bot.
pub open spec fn first_human(occupants: Seq<Occupant>) -> Option<u64>
    decreases occupants.len(),
{
    if occupants.len() == 0 {
        None
    } else {
        match first_human(occupants.drop_last()) {
            Some(user) => Some(user),
            None => if occupants.last().is_bot {
                None
            } else {
                Some(occupants.last().user_id)
            },
        }
    }
}

/// The first human, if there is one, is a human among the occupants; and
/// there is none only where every occupant is a bot.
pub proof fn lemma_first_human(occupants: Seq<Occupant>)
    ensures
        match first_human(occupants) {
            Some(user) => exists|i: int|
                0 <= i < occupants.len() && !(#[trigger] occupants[i]).is_bot && occupants[i].user_id
                    == user,
            None => forall|i: int| 0 <= i < occupants.len() ==> (#[trigger] occupants[i]).is_bot,
        },
    decreases occupants.len(),
{
    if occupants.len() > 0 {
        let head = occupants.drop_last();
        lemma_first_human(head);
        match first_human(head) {
            Some(user) => {
                let i = choose|i: int|
                    0 <= i < head.len() && !(#[trigger] head[i]).is_bot && head[i].user_id == user;
                assert(occupants[i] == head[i]);
            },
            None => {
                if occupants.last().is_bot {
                    assert forall|i: int| 0 <= i < occupants.len() implies (
                    #[trigger] occupants[i]).is_bot by {
                        if i < head.len() {
                            assert(occupants[i] == head[i]);
                        }
                    }
                } else {
                    assert(occupants[occupants.len() - 1] == occupants.last());
                }
            },
        }
    }
}

/// Finds the first occupant who is no bot.
pub fn find_human(occupants: &Vec<Occupant>) -> (found: Option<u64>)
    ensures
        found == first_human(occupants@),
{
    let mut i: usize = 0;
    proof {
        assert(occupants@.take(0) =~= Seq::<Occupant>::empty());
    }
    while i < occupants.len()
        invariant
            i <= occupants@.len(),
            first_human(occupants@.take(i as int)) is None,
        decreases occupants@.len() - i,
    {
        proof {
            let longer = occupants@.take(i as int + 1);
            assert(longer.drop_last() =~= occupants@.take(i as int));
            assert(longer.last() == occupants@[i as int]);
        }
        if !occupants[i].is_bot {
            proof {
                lemma_found_stays(occupants@, i as int + 1);
            }
            return Some(occupants[i].user_id);
        }
        i = i + 1;
    }
    proof {
        assert(occupants@.take(i as int) =~= occupants@);
    }
    None
}

/// A human found among the first occupants is the first human of all.
proof fn lemma_found_stays(occupants: Seq<Occupant>, n: int)
    requires
        0 <= n <= occupants.len(),
        first_human(occupants.take(n)) is Some,
    ensures
        first_human(occupants) == first_human(occupants.take(n)),
    decreases occupants.len() - n,
{
    if n < occupants.len() {
        let longer = occupants.take(n + 1);
        assert(longer.drop_last() =~= occupants.take(n));
        lemma_found_stays(occupants, n + 1);
    } else {
        assert(occupants.take(n) =~= occupants);
    }
}

/// What a move between rooms calls for.
#[derive(Debug, Clone, Copy, PartialEq, Eq, Structural)]
pub struct VoicePlan {
    /// The user joined a trigger room: create a room for them, then report
    /// it with `create_voice_channel`.
    pub provision: bool,
    /// The user left this room of the store: look who is still in it, then
    /// report it with `vacate`.
    pub inspect: Option<u64>,
}

/// Reads a move of a user from `old_channel` to `new_channel`.
///
/// A room is to be created where the new room is a trigger room. The old
/// room is to be inspected where the store holds it; a room that the store
/// does not hold is never touched.
pub fn handle_voice_update(
    store: &VoiceStore,
    triggers: &Vec<u64>,
    old_channel: Option<u64>,
    new_channel: Option<u64>,
) -> (plan: VoicePlan)
    ensures
        plan.provision == (new_channel matches Some(joined) && triggers@.contains(joined)),
        plan.inspect == (match old_channel {
            Some(left) if store@.contains_key(left) => Some(left),
            _ => None,
        }),
{
    proof {
        broadcast use group_hash_axioms;
    }
    let provision = match new_channel {
        Some(joined) => contains_id(triggers, joined),
        None => false,
    };
    let inspect = match old_channel {
        Some(left) => if store.channels.contains_key(&left) {
            Some(left)
        } else {
            None
        },
        None => None,
    };
    VoicePlan { provision, inspect }
}

/// Records that `channel` was created for `owner`.
pub fn create_voice_channel(store: &mut VoiceStore, channel: u64, owner: u64)
    ensures
        final(store)@ == old(store)@.insert(channel, owner),
{
    proof {
        broadcast use group_hash_axioms;
    }
    store.channels.insert(channel, owner);
}

/// Forgets `channel` and gives its last owner. `None`, and nothing
/// changed, where the store does not hold it.
pub fn delete_voice_channel(store: &mut VoiceStore, channel: u64) -> (owner: Option<u64>)
    ensures
        final(store)@ == old(store)@.remove(channel),
        owner == (if old(store)@.contains_key(channel) {
            Some(old(store)@[channel])
        } else {
            None
        }),
{
    proof {
        broadcast use group_hash_axioms;
    }
    let owner = store.channels.remove(&channel);
    proof {
        if !old(store)@.contains_key(channel) {
            assert(store@ =~= old(store)@);
        }
    }
    owner
}

/// Makes `new_owner` the owner of `channel`, where the store holds it.
pub fn transfer_ownership(store: &mut VoiceStore, channel: u64, new_owner: u64) -> (done: bool)
    ensures
        done == old(store)@.contains_key(channel),
        final(store)@ == (if done {
            old(store)@.insert(channel, new_owner)
        } else {
            old(store)@
        }),
{
    proof {
        broadcast use group_hash_axioms;
    }
    if store.channels.contains_key(&channel) {
        store.channels.insert(channel, new_owner);
        true
    } else {
        false
    }
}

/// Reconciles the store with the deletion of `channel` by someone else:
/// forgets it and gives its last owner, where the store held it.
pub fn handle_channel_delete(store: &mut VoiceStore, channel: u64) -> (owner: Option<u64>)
    ensures
        final(store)@ == old(store)@.remove(channel),
        owner == (if old(store)@.contains_key(channel) {
            Some(old(store)@[channel])
        } else {
            None
        }),
{
    delete_voice_channel(store, channel)
}

/// What became of a room that someone left.
#[derive(Debug, Clone, Copy, PartialEq, Eq, Structural)]
pub enum VacateAction {
    /// The store does not hold the room: it is left alone.
    Untracked,
    /// Nobody is left: the room was forgotten and is to be deleted.
    Delete { owner: u64 },
    /// The owner left: the room now belongs to this occupant, who is to be
    /// given control of it.
    Transfer { new_owner: u64 },
    /// Somebody else left: nothing to do.
    Keep,
}

/// The store and the action after `departed` left `channel`, where
/// `occupants` are those still in it.
pub open spec fn after_vacate(
    store: Map<u64, u64>,
    channel: u64,
    departed: u64,
    occupants: Seq<Occupant>,
) -> (Map<u64, u64>, VacateAction) {
    if !store.contains_key(channel) {
        (store, VacateAction::Untracked)
    } else {
        match first_human(occupants) {
            None => (store.remove(channel), VacateAction::Delete { owner: store[channel] }),
            Some(heir) => if store[channel] == departed {
                (store.insert(channel, heir), VacateAction::Transfer { new_owner: heir })
            } else {
                (store, VacateAction::Keep)
            },
        }
    }
}

/// Settles `channel` after `departed` left it; `occupants` are those still
/// in it, bots included.
///
/// A room of the store with no human left is forgotten, to be deleted. A
/// room whose owner left passes to the first human still in it. A room
/// that the store does not hold is left alone.
pub fn vacate(store: &mut VoiceStore, channel: u64, departed: u64, occupants: &Vec<Occupant>) -> (action:
    VacateAction)
    ensures
        (final(store)@, action) == after_vacate(old(store)@, channel, departed, occupants@),
{
    proof {
        broadcast use group_hash_axioms;
    }
    let owner = match store.channels.get(&channel) {
        Some(owner) => *owner,
        None => {
            return VacateAction::Untracked;
        },
    };
    match find_human(occupants) {
        None => {
            delete_voice_channel(store, channel);
            VacateAction::Delete { owner }
        },
        Some(heir) => {
            if owner == departed {
                transfer_ownership(store, channel, heir);
                VacateAction::Transfer { new_owner: heir }
            } else {
                VacateAction::Keep
            }
        },
    }
}

/// A room created for someone who joined a trigger room is one more room
/// of the store, owned by them; the other rooms keep their owners.
pub proof fn lemma_provision_adds_one(store: Map<u64, u64>, channel: u64, owner: u64)
    requires
        store.dom().finite(),
        !store.contains_key(channel),
    ensures
        store.insert(channel, owner).dom().len() == store.dom().len() + 1,
        store.insert(channel, owner)[channel] == owner,
        forall|other: u64|
            store.contains_key(other) ==> #[trigger] store.insert(channel, owner)[other]
                == store[other],
{
}

/// A room that the store does not hold is never deleted or handed over,
/// whoever left it and whoever is in it.
pub proof fn lemma_untracked_is_left_alone(
    store: Map<u64, u64>,
    channel: u64,
    departed: u64,
    occupants: Seq<Occupant>,
)
    requires
        !store.contains_key(channel),
    ensures
        after_vacate(store, channel, departed, occupants) == (store, VacateAction::Untracked),
{
}

/// When the owner of a room leaves and humans remain, the room passes to
/// one of them; when the last human leaves, the room is forgotten.
pub proof fn lemma_vacate_outcomes(
    store: Map<u64, u64>,
    channel: u64,
    departed: u64,
    occupants: Seq<Occupant>,
)
    requires
        store.contains_key(channel),
    ensures
        (exists|i: int| 0 <= i < occupants.len() && !(#[trigger] occupants[i]).is_bot)
            && store[channel] == departed ==> {
            &&& after_vacate(store, channel, departed, occupants).1 matches VacateAction::Transfer {
                new_owner,
            }
            &&& after_vacate(store, channel, departed, occupants).0 == store.insert(
                channel,
                new_owner,
            )
            &&& exists|i: int|
                0 <= i < occupants.len() && !(#[trigger] occupants[i]).is_bot && occupants[i].user_id
                    == new_owner
        },
        (forall|i: int| 0 <= i < occupants.len() ==> (#[trigger] occupants[i]).is_bot) ==> {
            &&& after_vacate(store, channel, departed, occupants).1 == (VacateAction::Delete {
                owner: store[channel],
            })
            &&& !after_vacate(store, channel, departed, occupants).0.contains_key(channel)
        },
{
    lemma_first_human(occupants);
}

/// Something that happened on the platform, as far as voice rooms care.
#[derive(Debug, Clone, Copy, PartialEq, Eq, Structural)]
pub enum VoiceEvent {
    /// Someone moved from one room to another; either may be no room.
    StateUpdate { old_channel: Option<u64>, new_channel: Option<u64> },
    /// A channel was deleted.
    ChannelDelete { channel: u64 },
    /// Anything else.
    Other,
}

/// What the voice flow asks for after an event.
#[derive(Debug, Clone, Copy, PartialEq, Eq, Structural)]
pub enum VoiceAction {
    /// The event is none of this flow.
    Nothing,
    /// Someone moved: this is what the move calls for.
    Plan(VoicePlan),
    /// A channel was deleted: the store forgot it, and this was its owner
    /// where the store held it.
    Forgotten { owner: Option<u64> },
}

/// Hands an event to the voice flow: moves go to `handle_voice_update`,
/// deletions to `handle_channel_delete`.
pub fn handle_event(store: &mut VoiceStore, triggers: &Vec<u64>, event: VoiceEvent) -> (action:
    VoiceAction)
    ensures
        match event {
            VoiceEvent::StateUpdate { old_channel, new_channel } => {
                &&& final(store)@ == old(store)@
                &&& action matches VoiceAction::Plan(plan)
                &&& plan.provision == (new_channel matches Some(joined) && triggers@.contains(
                    joined,
                ))
                &&& plan.inspect == (match old_channel {
                    Some(left) if old(store)@.contains_key(left) => Some(left),
                    _ => None,
                })
            },
            VoiceEvent::ChannelDelete { channel } => {
                &&& final(store)@ == old(store)@.remove(channel)
                &&& action == (VoiceAction::Forgotten {
                    owner: if old(store)@.contains_key(channel) {
                        Some(old(store)@[channel])
                    } else {
                        None
                    },
                })
            },
            VoiceEvent::Other => final(store)@ == old(store)@ && action == VoiceAction::Nothing,
        },
{
    match event {
        VoiceEvent::StateUpdate { old_channel, new_channel } => VoiceAction::Plan(
            handle_voice_update(store, triggers, old_channel, new_channel),
        ),
        VoiceEvent::ChannelDelete { channel } => VoiceAction::Forgotten {
            owner: handle_channel_delete(store, channel),
        },
        VoiceEvent::Other => VoiceAction::Nothing,
    }
}

/// The name of the room created for a member.
pub fn room_name(member: &str) -> (name: String)
    ensures
        name@ == "🔉〢"@ + member@,
{
    let mut name = String::new();
    name.append("🔉〢");
    name.append(member);
    assert(name@ =~= "🔉〢"@ + member@);
    name
}

} // verus!