use vector_bot::giveaway_system::events::{
    handle_event as giveaway_event, FormField, GiveawayAction, GiveawayEvent, ModalOutcome,
    PressOutcome,
};
use vector_bot::giveaway_system::store::{EntryOutcome, GiveawayStore};
use vector_bot::giveaway_system::structs::GiveawayPlan;
use vector_bot::ticket_system::desk::TicketDesk;
use vector_bot::ticket_system::events::{
    handle_event as ticket_event, ComponentAction, DmAction, TicketAction, TicketEvent,
};
use vector_bot::ticket_system::structs::TicketState;
use vector_bot::voice_system::events::{
    create_voice_channel, handle_event as voice_event, VoiceAction, VoiceEvent, VoicePlan,
};
use vector_bot::voice_system::structs::VoiceStore;

#[test]
fn the_desk_hears_only_direct_messages_of_people() {
    let mut desk = TicketDesk::new();
    let by_bot = TicketEvent::Message { author_is_bot: true, in_guild: false, user: 5 };
    let in_guild = TicketEvent::Message { author_is_bot: false, in_guild: true, user: 5 };
    let direct = TicketEvent::Message { author_is_bot: false, in_guild: false, user: 5 };
    assert!(matches!(ticket_event(&mut desk, &by_bot, 1), TicketAction::Nothing));
    assert!(matches!(ticket_event(&mut desk, &in_guild, 1), TicketAction::Nothing));
    assert!(matches!(ticket_event(&mut desk, &TicketEvent::Other, 1), TicketAction::Nothing));
    assert!(desk.conversation(5).is_none());
    assert!(matches!(
        ticket_event(&mut desk, &direct, 1),
        TicketAction::Dm(DmAction::AskLanguage)
    ));
    assert!(matches!(desk.conversation(5), Some(TicketState::ChoosingLanguage)));
}

#[test]
fn the_desk_hears_presses() {
    let mut desk = TicketDesk::new();
    desk.handle_dm(5, 0);
    let press = TicketEvent::Component {
        user: 5,
        custom_id: String::from("lang_fr"),
        values: Vec::new(),
    };
    assert!(matches!(
        ticket_event(&mut desk, &press, 1),
        TicketAction::Component(ComponentAction::AskCategory { language }) if language == "FR"
    ));
}

#[test]
fn giveaways_hear_presses_and_forms() {
    let mut store = GiveawayStore::new();
    let plan = GiveawayPlan {
        title: String::from("t"),
        description: String::from("d"),
        reward: String::from("r"),
        winner_count: 1,
        end_time: 10,
    };
    store.register(100, 7, 1, plan).unwrap();
    let press = GiveawayEvent::Component {
        custom_id: String::from("giveaway_join"),
        channel: 7,
        message: 100,
        user: 5,
    };
    assert!(matches!(
        giveaway_event(&mut store, &press, 0),
        GiveawayAction::Press(PressOutcome::Entry(EntryOutcome::Joined { count: 1 }))
    ));
    let busy = GiveawayEvent::Modal {
        custom_id: String::from("giveaway_create_modal"),
        channel: 7,
        fields: vec![FormField { id: String::from("duration"), value: Some(String::from("1m")) }],
    };
    assert!(matches!(
        giveaway_event(&mut store, &busy, 1000),
        GiveawayAction::Form(ModalOutcome::ChannelBusy)
    ));
    let unreadable = GiveawayEvent::Modal {
        custom_id: String::from("giveaway_create_modal"),
        channel: 7,
        fields: vec![FormField { id: String::from("duration"), value: Some(String::from("x")) }],
    };
    assert!(matches!(
        giveaway_event(&mut store, &unreadable, 1000),
        GiveawayAction::Form(ModalOutcome::BadDuration)
    ));
    let form = GiveawayEvent::Modal {
        custom_id: String::from("giveaway_create_modal"),
        channel: 8,
        fields: vec![FormField { id: String::from("duration"), value: Some(String::from("1m")) }],
    };
    match giveaway_event(&mut store, &form, 1000) {
        GiveawayAction::Form(ModalOutcome::Announce(plan)) => {
            assert_eq!(plan.end_time, 1060);
            assert_eq!(plan.winner_count, 1);
            assert_eq!(plan.title, "");
        },
        other => panic!("unexpected action {:?}", other),
    }
    assert!(matches!(
        giveaway_event(&mut store, &GiveawayEvent::Other, 0),
        GiveawayAction::Nothing
    ));
    assert_eq!(store.len(), 1);
}

#[test]
fn voice_rooms_hear_moves_and_deletions() {
    let mut store = VoiceStore::new();
    create_voice_channel(&mut store, 500, 7);
    let triggers = vec![10];
    let moved = VoiceEvent::StateUpdate { old_channel: Some(500), new_channel: Some(10) };
    assert_eq!(
        voice_event(&mut store, &triggers, moved),
        VoiceAction::Plan(VoicePlan { provision: true, inspect: Some(500) })
    );
    assert_eq!(store.channels.len(), 1);
    assert_eq!(
        voice_event(&mut store, &triggers, VoiceEvent::ChannelDelete { channel: 500 }),
        VoiceAction::Forgotten { owner: Some(7) }
    );
    assert_eq!(
        voice_event(&mut store, &triggers, VoiceEvent::ChannelDelete { channel: 500 }),
        VoiceAction::Forgotten { owner: None }
    );
    assert_eq!(voice_event(&mut store, &triggers, VoiceEvent::Other), VoiceAction::Nothing);
    assert!(store.channels.is_empty());
}
