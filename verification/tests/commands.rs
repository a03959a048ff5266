use vector_bot::commands::giveaway::giveaway;
use vector_bot::commands::info::{mebibytes, uptime, Uptime};
use vector_bot::commands::moderation::{
    blticket, clear, unblticket, BarOutcome, UnbarOutcome, CLEAR_LIMIT,
};
use vector_bot::commands::profile::{profil, Standing};
use vector_bot::commands::ticket::{close, rename, rep};
use vector_bot::commands::CommandError;
use vector_bot::config::{contains_id, Categories, Channels, Config, Roles};
use vector_bot::ticket_system::desk::TicketDesk;
use vector_bot::ticket_system::events::DmAction;
use vector_bot::ticket_system::structs::TicketCategory;

const STAFF: u64 = 1000;
const CLIENT: u64 = 2000;

fn config() -> Config {
    Config {
        roles: Roles { staff_role_id: STAFF, client_role_id: CLIENT },
        channels: Channels {
            log_channel_id: 1,
            jtc_channel_ids: vec![10, 11],
            voice_log_channel_id: 2,
            giveaway_log_channel_id: 3,
        },
        categories: Categories {
            partnership: 21,
            recruitment: 22,
            support: 23,
            other: 24,
            voice_category_id: 25,
        },
    }
}

fn desk_with_ticket(user: i64, channel: i64) -> TicketDesk {
    let mut desk = TicketDesk::new();
    desk.handle_dm(user, 0);
    desk.handle_component(user, "lang_fr", &Vec::new());
    desk.handle_component(user, "category_select", &vec![String::from("cat_support")]);
    desk.handle_dm(user, 0);
    desk.ticket_opened(user, channel, String::from("hello"), 0);
    desk
}

#[test]
fn each_category_has_its_container() {
    let categories = config().categories;
    assert_eq!(categories.container_of(TicketCategory::Partnership), 21);
    assert_eq!(categories.container_of(TicketCategory::Recruitment), 22);
    assert_eq!(categories.container_of(TicketCategory::Support), 23);
    assert_eq!(categories.container_of(TicketCategory::Other), 24);
}

#[test]
fn roles_and_trigger_channels_are_looked_up() {
    let config = config();
    assert!(config.is_staff(&vec![5, STAFF]));
    assert!(!config.is_staff(&vec![5, CLIENT]));
    assert!(!config.is_staff(&Vec::new()));
    assert!(config.is_client(&vec![CLIENT]));
    assert!(!config.is_client(&vec![STAFF]));
    assert!(config.is_trigger_channel(10));
    assert!(config.is_trigger_channel(11));
    assert!(!config.is_trigger_channel(12));
    assert!(contains_id(&vec![1, 2, 3], 3));
    assert!(!contains_id(&vec![1, 2, 3], 4));
}

#[test]
fn the_giveaway_panel_is_for_staff() {
    assert_eq!(giveaway(&config(), &vec![STAFF]), Ok(()));
    assert_eq!(giveaway(&config(), &vec![CLIENT]), Err(CommandError::PermissionDenied));
}

#[test]
fn clearing_takes_one_to_ninety_nine_messages() {
    let config = config();
    let staff = vec![STAFF];
    assert_eq!(CLEAR_LIMIT, 99);
    assert_eq!(clear(&config, &staff, 1), Ok(1));
    assert_eq!(clear(&config, &staff, 99), Ok(99));
    assert_eq!(clear(&config, &staff, 0), Err(CommandError::Validation));
    assert_eq!(clear(&config, &staff, 100), Err(CommandError::Validation));
    assert_eq!(clear(&config, &staff, u64::MAX), Err(CommandError::Validation));
    assert_eq!(clear(&config, &vec![CLIENT], 5), Err(CommandError::PermissionDenied));
    assert_eq!(clear(&config, &Vec::new(), 500), Err(CommandError::PermissionDenied));
}

#[test]
fn only_staff_bar_and_unbar() {
    let config = config();
    let mut desk = TicketDesk::new();
    assert_eq!(
        blticket(&mut desk, &config, &vec![CLIENT], 5, String::from("spam"), 9, 100),
        BarOutcome::Denied
    );
    assert!(!desk.is_blacklisted(5));
    assert_eq!(
        blticket(&mut desk, &config, &vec![STAFF], 5, String::from("spam"), 9, 100),
        BarOutcome::Added
    );
    assert!(desk.is_blacklisted(5));
    assert_eq!(
        blticket(&mut desk, &config, &vec![STAFF], 5, String::from("again"), 9, 101),
        BarOutcome::AlreadyBarred
    );
    assert!(matches!(desk.handle_dm(5, 200), DmAction::Refuse { reason } if reason == "spam"));
    assert_eq!(unblticket(&mut desk, &config, &vec![CLIENT], 5), UnbarOutcome::Denied);
    assert!(desk.is_blacklisted(5));
    assert_eq!(unblticket(&mut desk, &config, &vec![STAFF], 5), UnbarOutcome::Removed);
    assert!(!desk.is_blacklisted(5));
    assert_eq!(unblticket(&mut desk, &config, &vec![STAFF], 5), UnbarOutcome::WasNotBarred);
}

#[test]
fn the_profile_tells_the_standing() {
    let config = config();
    let mut desk = TicketDesk::new();
    desk.bar(5, String::from("spam"), 9, 100);
    assert_eq!(
        profil(&desk, &config, &vec![STAFF], 5),
        Standing { is_staff: true, is_client: false, is_blacklisted: true }
    );
    assert_eq!(
        profil(&desk, &config, &vec![CLIENT, 3], 6),
        Standing { is_staff: false, is_client: true, is_blacklisted: false }
    );
}

#[test]
fn a_reply_goes_to_the_user_of_the_ticket() {
    let desk = desk_with_ticket(5, 900);
    assert_eq!(rep(&desk, 900), Ok(5));
    assert_eq!(rep(&desk, 901), Err(CommandError::NotFound));
}

#[test]
fn only_staff_close_and_only_tickets() {
    let config = config();
    let mut desk = desk_with_ticket(5, 900);
    assert_eq!(
        close(&mut desk, &config, &vec![CLIENT], 900).err(),
        Some(CommandError::PermissionDenied)
    );
    assert_eq!(desk.ticket_count(), 1);
    assert_eq!(
        close(&mut desk, &config, &vec![STAFF], 901).err(),
        Some(CommandError::NotFound)
    );
    let closed = close(&mut desk, &config, &vec![STAFF], 900).unwrap();
    assert_eq!(closed.user_id, 5);
    assert_eq!(closed.channel_id, 900);
    assert_eq!(closed.category, "Support");
    assert_eq!(desk.ticket_count(), 0);
    assert_eq!(
        close(&mut desk, &config, &vec![STAFF], 900).err(),
        Some(CommandError::NotFound)
    );
    assert_eq!(rep(&desk, 900), Err(CommandError::NotFound));
}

#[test]
fn only_ticket_channels_are_renamed() {
    let desk = desk_with_ticket(5, 900);
    assert_eq!(rename(&desk, 900), Ok(()));
    assert_eq!(rename(&desk, 901), Err(CommandError::NotFound));
}

#[test]
fn uptime_is_split_into_days_hours_minutes_seconds() {
    assert_eq!(uptime(0), Uptime { days: 0, hours: 0, minutes: 0, seconds: 0 });
    assert_eq!(uptime(59), Uptime { days: 0, hours: 0, minutes: 0, seconds: 59 });
    assert_eq!(uptime(3661), Uptime { days: 0, hours: 1, minutes: 1, seconds: 1 });
    assert_eq!(uptime(86399), Uptime { days: 0, hours: 23, minutes: 59, seconds: 59 });
    assert_eq!(uptime(90061), Uptime { days: 1, hours: 1, minutes: 1, seconds: 1 });
    let long = uptime(u64::MAX);
    assert_eq!(
        long.days * 86400 + long.hours * 3600 + long.minutes * 60 + long.seconds,
        u64::MAX
    );
}

#[test]
fn memory_is_given_in_whole_mebibytes() {
    assert_eq!(mebibytes(0), 0);
    assert_eq!(mebibytes(1048575), 0);
    assert_eq!(mebibytes(1048576), 1);
    assert_eq!(mebibytes(5 * 1048576 + 7), 5);
}
