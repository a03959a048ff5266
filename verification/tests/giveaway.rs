use vector_bot::giveaway_system::draw::{draw, winners_to_draw};
use vector_bot::giveaway_system::events::{
    check_giveaways, handle_component, handle_modal, read_field, FormField, ModalOutcome,
    PressOutcome,
};
use vector_bot::giveaway_system::store::{
    all_distinct, EntryOutcome, GiveawayStore, RegisterError,
};
use vector_bot::giveaway_system::structs::{
    settle, GiveawayPlan, GiveawayRecord, GiveawayStatus, Verdict,
};

fn plan(winner_count: i32, end_time: i64) -> GiveawayPlan {
    GiveawayPlan {
        title: String::from("Nitro"),
        description: String::from("A month of it"),
        reward: String::from("1 month"),
        winner_count,
        end_time,
    }
}

fn field(id: &str, value: Option<&str>) -> FormField {
    FormField { id: String::from(id), value: value.map(String::from) }
}

fn form(duration: &str, winners: &str) -> Vec<FormField> {
    vec![
        field("title", Some("Nitro")),
        field("description", Some("A month of it")),
        field("duration", Some(duration)),
        field("reward", Some("1 month")),
        field("winners", Some(winners)),
    ]
}

#[test]
fn a_new_store_is_empty() {
    let store = GiveawayStore::new();
    assert_eq!(store.len(), 0);
    assert!(store.record(0).is_none());
    assert!(!store.has_active(1));
}

#[test]
fn registering_keeps_the_plan_and_starts_active() {
    let mut store = GiveawayStore::new();
    assert_eq!(store.register(100, 7, 42, plan(2, 1000)), Ok(()));
    assert_eq!(store.len(), 1);
    let record = store.record(0).unwrap();
    assert_eq!(record.message_id, 100);
    assert_eq!(record.channel_id, 7);
    assert_eq!(record.host_id, 42);
    assert_eq!(record.title, "Nitro");
    assert_eq!(record.description, "A month of it");
    assert_eq!(record.reward, "1 month");
    assert_eq!(record.winner_count, 2);
    assert_eq!(record.end_time, 1000);
    assert_eq!(record.status, GiveawayStatus::Active);
    assert!(record.participants.is_empty());
    assert!(store.has_active(7));
    assert_eq!(store.find_message(100), Some(0));
    assert_eq!(store.find_active_in(7), Some(0));
}

#[test]
fn a_channel_takes_one_active_giveaway() {
    let mut store = GiveawayStore::new();
    assert_eq!(store.register(100, 7, 42, plan(1, 1000)), Ok(()));
    assert_eq!(store.register(101, 7, 43, plan(1, 2000)), Err(RegisterError::ChannelBusy));
    assert_eq!(store.len(), 1);
    assert_eq!(store.register(101, 8, 43, plan(1, 2000)), Ok(()));
    assert_eq!(store.len(), 2);
}

#[test]
fn a_message_announces_one_giveaway() {
    let mut store = GiveawayStore::new();
    assert_eq!(store.register(100, 7, 42, plan(1, 1000)), Ok(()));
    assert_eq!(store.register(100, 8, 42, plan(1, 1000)), Err(RegisterError::DuplicateMessage));
    assert_eq!(store.len(), 1);
}

#[test]
fn a_channel_is_free_again_once_its_giveaway_ended() {
    let mut store = GiveawayStore::new();
    assert_eq!(store.register(100, 7, 42, plan(1, 1000)), Ok(()));
    let resolutions = store.sweep(1000);
    assert_eq!(resolutions.len(), 1);
    assert!(!store.has_active(7));
    assert_eq!(store.register(101, 7, 42, plan(1, 3000)), Ok(()));
    assert_eq!(store.len(), 2);
}

#[test]
fn pressing_entry_twice_restores_the_entrants() {
    let mut store = GiveawayStore::new();
    store.register(100, 7, 42, plan(1, 1000)).unwrap();
    assert_eq!(store.toggle_entry(100, 1), EntryOutcome::Joined { count: 1 });
    assert_eq!(store.toggle_entry(100, 2), EntryOutcome::Joined { count: 2 });
    let before: Vec<i64> = store.record(0).unwrap().participants.clone();
    assert_eq!(store.toggle_entry(100, 3), EntryOutcome::Joined { count: 3 });
    assert_eq!(store.toggle_entry(100, 3), EntryOutcome::Left { count: 2 });
    assert_eq!(store.record(0).unwrap().participants, before);
    assert_eq!(store.toggle_entry(100, 1), EntryOutcome::Left { count: 1 });
    assert_eq!(store.toggle_entry(100, 1), EntryOutcome::Joined { count: 2 });
    let mut after: Vec<i64> = store.record(0).unwrap().participants.clone();
    after.sort();
    assert_eq!(after, vec![1, 2]);
}

#[test]
fn entry_is_closed_for_unknown_and_ended_giveaways() {
    let mut store = GiveawayStore::new();
    assert_eq!(store.toggle_entry(100, 1), EntryOutcome::Closed);
    store.register(100, 7, 42, plan(1, 1000)).unwrap();
    assert_eq!(store.toggle_entry(100, 1), EntryOutcome::Joined { count: 1 });
    store.sweep(1000);
    assert_eq!(store.toggle_entry(100, 2), EntryOutcome::Closed);
    assert_eq!(store.toggle_entry(100, 1), EntryOutcome::Closed);
    assert_eq!(store.record(0).unwrap().participants, vec![1]);
}

#[test]
fn deleting_discards_the_active_giveaway_and_its_entrants() {
    let mut store = GiveawayStore::new();
    store.register(100, 7, 42, plan(1, 1000)).unwrap();
    store.register(200, 8, 43, plan(1, 1000)).unwrap();
    store.toggle_entry(100, 1);
    let deleted = store.delete_active(7).unwrap();
    assert_eq!(deleted.message_id, 100);
    assert_eq!(deleted.host_id, 42);
    assert_eq!(deleted.title, "Nitro");
    assert_eq!(deleted.participants, vec![1]);
    assert_eq!(store.len(), 1);
    assert_eq!(store.record(0).unwrap().message_id, 200);
    assert!(store.delete_active(7).is_none());
    assert_eq!(store.len(), 1);
    assert_eq!(store.toggle_entry(100, 1), EntryOutcome::Closed);
}

#[test]
fn the_sweep_ends_what_is_due_and_nothing_else() {
    let mut store = GiveawayStore::new();
    store.register(100, 7, 42, plan(1, 1000)).unwrap();
    store.register(200, 8, 42, plan(1, 1001)).unwrap();
    store.register(300, 9, 42, plan(1, 999)).unwrap();
    let resolutions = store.sweep(1000);
    assert_eq!(resolutions.len(), 2);
    assert_eq!(resolutions[0].message_id, 100);
    assert_eq!(resolutions[1].message_id, 300);
    assert_eq!(store.record(0).unwrap().status, GiveawayStatus::Ended);
    assert_eq!(store.record(1).unwrap().status, GiveawayStatus::Active);
    assert_eq!(store.record(2).unwrap().status, GiveawayStatus::Ended);
}

#[test]
fn a_second_sweep_draws_nothing_again() {
    let mut store = GiveawayStore::new();
    store.register(100, 7, 42, plan(1, 1000)).unwrap();
    store.toggle_entry(100, 1);
    assert_eq!(check_giveaways(&mut store, 1000).len(), 1);
    assert_eq!(check_giveaways(&mut store, 1000).len(), 0);
    assert_eq!(check_giveaways(&mut store, 5000).len(), 0);
    assert_eq!(store.record(0).unwrap().status, GiveawayStatus::Ended);
}

#[test]
fn an_empty_giveaway_ends_without_a_draw() {
    let mut store = GiveawayStore::new();
    store.register(100, 7, 42, plan(3, 1000)).unwrap();
    let resolutions = store.sweep(2000);
    assert_eq!(resolutions.len(), 1);
    assert_eq!(resolutions[0].participant_count, 0);
    assert!(matches!(resolutions[0].verdict, Verdict::NoParticipant));
    assert_eq!(resolutions[0].title, "Nitro");
    assert_eq!(resolutions[0].reward, "1 month");
    assert_eq!(resolutions[0].channel_id, 7);
    assert_eq!(resolutions[0].winner_count, 3);
    assert_eq!(resolutions[0].end_time, 1000);
}

#[test]
fn the_sweep_draws_as_many_distinct_entrants_as_asked() {
    let mut store = GiveawayStore::new();
    store.register(100, 7, 42, plan(3, 1000)).unwrap();
    for user in 1..=10 {
        store.toggle_entry(100, user);
    }
    let resolutions = store.sweep(1000);
    assert_eq!(resolutions[0].participant_count, 10);
    match &resolutions[0].verdict {
        Verdict::Winners(winners) => {
            assert_eq!(winners.len(), 3);
            let mut sorted = winners.clone();
            sorted.sort();
            sorted.dedup();
            assert_eq!(sorted.len(), 3);
            assert!(winners.iter().all(|w| (1..=10).contains(w)));
        },
        Verdict::NoParticipant => panic!("ten had entered"),
    }
}

#[test]
fn the_sweep_draws_everybody_where_fewer_entered() {
    let mut store = GiveawayStore::new();
    store.register(100, 7, 42, plan(5, 1000)).unwrap();
    store.toggle_entry(100, 11);
    store.toggle_entry(100, 12);
    let resolutions = store.sweep(1000);
    match &resolutions[0].verdict {
        Verdict::Winners(winners) => {
            let mut sorted = winners.clone();
            sorted.sort();
            assert_eq!(sorted, vec![11, 12]);
        },
        Verdict::NoParticipant => panic!("two had entered"),
    }
}

#[test]
fn the_number_to_draw_is_capped_by_the_pool() {
    assert_eq!(winners_to_draw(10, 3), 3);
    assert_eq!(winners_to_draw(10, 10), 10);
    assert_eq!(winners_to_draw(10, 11), 10);
    assert_eq!(winners_to_draw(10, 0), 0);
    assert_eq!(winners_to_draw(10, -1), 10);
    assert_eq!(winners_to_draw(0, 4), 0);
    assert_eq!(winners_to_draw(3, i32::MAX), 3);
    assert_eq!(winners_to_draw(3, i32::MIN), 3);
}

#[test]
fn a_draw_picks_distinct_items_of_the_pool() {
    let pool: Vec<i64> = (100..150).collect();
    for asked in [0, 1, 7, 49, 50, 51, -2] {
        let winners = draw(&pool, asked);
        assert_eq!(winners.len(), winners_to_draw(pool.len(), asked));
        let mut sorted = winners.clone();
        sorted.sort();
        sorted.dedup();
        assert_eq!(sorted.len(), winners.len());
        assert!(winners.iter().all(|w| pool.contains(w)));
    }
}

#[test]
fn a_draw_does_not_hand_the_pool_back() {
    let pool: Vec<i64> = (0..1000).collect();
    let winners = draw(&pool, 5);
    assert_eq!(winners.len(), 5);
    assert_ne!(winners, pool);
}

#[test]
fn settling_keeps_the_picks_as_they_are() {
    let record = GiveawayRecord {
        message_id: 1,
        channel_id: 2,
        host_id: 3,
        title: String::from("t"),
        description: String::from("d"),
        reward: String::from("r"),
        winner_count: 2,
        end_time: 9,
        status: GiveawayStatus::Active,
        participants: vec![5, 6, 7],
    };
    let resolution = settle(&record, vec![7, 5]);
    assert_eq!(resolution.participant_count, 3);
    assert!(matches!(&resolution.verdict, Verdict::Winners(w) if *w == vec![7, 5]));
    let nobody = GiveawayRecord { participants: vec![], ..record };
    let resolution = settle(&nobody, vec![]);
    assert!(matches!(resolution.verdict, Verdict::NoParticipant));
}

#[test]
fn the_creation_control_opens_the_form_in_a_free_channel() {
    let mut store = GiveawayStore::new();
    assert!(matches!(
        handle_component(&mut store, "giveaway_create_btn", 7, 0, 1),
        PressOutcome::OpenForm
    ));
    store.register(100, 7, 42, plan(1, 1000)).unwrap();
    assert!(matches!(
        handle_component(&mut store, "giveaway_create_btn", 7, 0, 1),
        PressOutcome::ChannelBusy
    ));
    assert!(matches!(
        handle_component(&mut store, "giveaway_create_btn", 8, 0, 1),
        PressOutcome::OpenForm
    ));
    assert_eq!(store.len(), 1);
}

#[test]
fn the_deletion_control_removes_the_channels_giveaway() {
    let mut store = GiveawayStore::new();
    assert!(matches!(
        handle_component(&mut store, "giveaway_delete_btn", 7, 0, 1),
        PressOutcome::NothingToDelete
    ));
    store.register(100, 7, 42, plan(1, 1000)).unwrap();
    match handle_component(&mut store, "giveaway_delete_btn", 7, 0, 1) {
        PressOutcome::Deleted(record) => {
            assert_eq!(record.message_id, 100);
            assert_eq!(record.host_id, 42);
        },
        other => panic!("unexpected outcome {:?}", other),
    }
    assert_eq!(store.len(), 0);
}

#[test]
fn the_entry_control_toggles_and_other_controls_are_ignored() {
    let mut store = GiveawayStore::new();
    store.register(100, 7, 42, plan(1, 1000)).unwrap();
    assert!(matches!(
        handle_component(&mut store, "giveaway_join", 7, 100, 5),
        PressOutcome::Entry(EntryOutcome::Joined { count: 1 })
    ));
    assert!(matches!(
        handle_component(&mut store, "giveaway_join", 7, 100, 5),
        PressOutcome::Entry(EntryOutcome::Left { count: 0 })
    ));
    assert!(matches!(
        handle_component(&mut store, "giveaway_join", 7, 999, 5),
        PressOutcome::Entry(EntryOutcome::Closed)
    ));
    assert!(matches!(handle_component(&mut store, "lang_fr", 7, 100, 5), PressOutcome::Ignored));
    assert!(matches!(handle_component(&mut store, "", 7, 100, 5), PressOutcome::Ignored));
    assert!(store.record(0).unwrap().participants.is_empty());
}

#[test]
fn the_form_is_read_into_a_plan() {
    match handle_modal(&GiveawayStore::new(), "giveaway_create_modal", 7, &form("2h,30m", "3"), 1_000_000) {
        ModalOutcome::Announce(plan) => {
            assert_eq!(plan.title, "Nitro");
            assert_eq!(plan.description, "A month of it");
            assert_eq!(plan.reward, "1 month");
            assert_eq!(plan.winner_count, 3);
            assert_eq!(plan.end_time, 1_009_000);
        },
        other => panic!("unexpected outcome {:?}", other),
    }
}

#[test]
fn the_winner_count_defaults_to_one() {
    for winners in ["", "many", "1.5", " 2"] {
        match handle_modal(&GiveawayStore::new(), "giveaway_create_modal", 7, &form("1j", winners), 0) {
            ModalOutcome::Announce(plan) => assert_eq!(plan.winner_count, 1),
            other => panic!("unexpected outcome {:?}", other),
        }
    }
    match handle_modal(&GiveawayStore::new(), "giveaway_create_modal", 7, &form("1j", "-4"), 0) {
        ModalOutcome::Announce(plan) => assert_eq!(plan.winner_count, -4),
        other => panic!("unexpected outcome {:?}", other),
    }
}

#[test]
fn a_bad_duration_rejects_the_form() {
    assert!(matches!(
        handle_modal(&GiveawayStore::new(), "giveaway_create_modal", 7, &form("", "1"), 0),
        ModalOutcome::BadDuration
    ));
    assert!(matches!(
        handle_modal(&GiveawayStore::new(), "giveaway_create_modal", 7, &form("soon", "1"), 0),
        ModalOutcome::BadDuration
    ));
    assert!(matches!(
        handle_modal(&GiveawayStore::new(), "giveaway_create_modal", 7, &form("1s", "1"), i64::MAX),
        ModalOutcome::BadDuration
    ));
    assert!(matches!(
        handle_modal(&GiveawayStore::new(), "giveaway_create_modal", 7, &form("1s", "1"), i64::MAX - 1),
        ModalOutcome::Announce(_)
    ));
}

#[test]
fn another_form_is_ignored() {
    assert!(matches!(handle_modal(&GiveawayStore::new(), "feedback", 7, &form("1j", "1"), 0), ModalOutcome::Ignored));
}

#[test]
fn the_last_field_of_a_name_wins_and_missing_fields_are_empty() {
    let fields = vec![
        field("title", Some("first")),
        field("reward", None),
        field("title", Some("second")),
    ];
    assert_eq!(read_field(&fields, "title"), "second");
    assert_eq!(read_field(&fields, "reward"), "");
    assert_eq!(read_field(&fields, "duration"), "");
    assert_eq!(read_field(&Vec::new(), "title"), "");
}

#[test]
fn statuses_are_read_back_from_their_keys() {
    assert_eq!(GiveawayStatus::Active.storage_key(), "active");
    assert_eq!(GiveawayStatus::Ended.storage_key(), "ended");
    assert_eq!(GiveawayStatus::from_key("active"), Some(GiveawayStatus::Active));
    assert_eq!(GiveawayStatus::from_key("ended"), Some(GiveawayStatus::Ended));
    assert_eq!(GiveawayStatus::from_key("Active"), None);
    assert_eq!(GiveawayStatus::from_key(""), None);
}

fn stored(message_id: i64, channel_id: i64, status: GiveawayStatus, participants: Vec<i64>) -> GiveawayRecord {
    GiveawayRecord {
        message_id,
        channel_id,
        host_id: 1,
        title: String::from("t"),
        description: String::from("d"),
        reward: String::from("r"),
        winner_count: 1,
        end_time: 50,
        status,
        participants,
    }
}

#[test]
fn a_store_is_restored_from_what_was_stored() {
    let mut store = GiveawayStore::new();
    assert_eq!(store.restore(stored(100, 7, GiveawayStatus::Ended, vec![1, 2])), Ok(()));
    assert_eq!(store.restore(stored(101, 7, GiveawayStatus::Active, vec![3])), Ok(()));
    assert_eq!(store.restore(stored(102, 7, GiveawayStatus::Ended, vec![])), Ok(()));
    assert_eq!(
        store.restore(stored(103, 7, GiveawayStatus::Active, vec![])),
        Err(RegisterError::ChannelBusy)
    );
    assert_eq!(
        store.restore(stored(100, 8, GiveawayStatus::Active, vec![])),
        Err(RegisterError::DuplicateMessage)
    );
    assert_eq!(
        store.restore(stored(104, 8, GiveawayStatus::Active, vec![4, 5, 4])),
        Err(RegisterError::RepeatedEntrant)
    );
    assert_eq!(store.len(), 3);
    assert_eq!(store.toggle_entry(101, 3), EntryOutcome::Left { count: 0 });
    assert_eq!(store.toggle_entry(100, 9), EntryOutcome::Closed);
}

#[test]
fn repeats_in_a_list_are_found() {
    assert!(all_distinct(&Vec::new()));
    assert!(all_distinct(&vec![1]));
    assert!(all_distinct(&vec![1, 2, 3]));
    assert!(!all_distinct(&vec![1, 2, 1]));
    assert!(!all_distinct(&vec![2, 2]));
    assert!(!all_distinct(&vec![1, 2, 3, 3]));
}

#[test]
fn a_good_form_is_refused_in_a_busy_channel_and_a_bad_one_for_its_duration() {
    let mut store = GiveawayStore::new();
    store.register(100, 7, 42, plan(1, 1000)).unwrap();
    assert!(matches!(
        handle_modal(&store, "giveaway_create_modal", 7, &form("1j", "1"), 0),
        ModalOutcome::ChannelBusy
    ));
    assert!(matches!(
        handle_modal(&store, "giveaway_create_modal", 7, &form("", "1"), 0),
        ModalOutcome::BadDuration
    ));
    assert!(matches!(
        handle_modal(&store, "giveaway_create_modal", 7, &form("soon", "1"), 0),
        ModalOutcome::BadDuration
    ));
    assert!(matches!(
        handle_modal(&store, "giveaway_create_modal", 7, &form("1s", "1"), i64::MAX),
        ModalOutcome::BadDuration
    ));
    assert!(matches!(
        handle_modal(&store, "giveaway_create_modal", 7, &form("1s", "1"), i64::MAX - 1),
        ModalOutcome::ChannelBusy
    ));
    assert!(matches!(
        handle_modal(&store, "giveaway_create_modal", 8, &form("1j", "1"), 0),
        ModalOutcome::Announce(_)
    ));
    assert!(matches!(handle_modal(&store, "other", 7, &form("1j", "1"), 0), ModalOutcome::Ignored));
    store.sweep(1000);
    assert!(matches!(
        handle_modal(&store, "giveaway_create_modal", 7, &form("1h30m", "2"), 1000),
        ModalOutcome::Announce(plan) if plan.end_time == 6400 && plan.winner_count == 2
    ));
}
