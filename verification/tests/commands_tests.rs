use homebot::commands::minecraft::link;
use homebot::commands::room::add::{self, AddPlan};
use homebot::commands::room::create::{self, CreatePlan, MarkerLookup};
use homebot::commands::room::forceadd::{self, ForceAddPlan};
use homebot::commands::room::remove::{self, RemoveStep};
use homebot::commands::room::rename::{self, RenamePlan};
use homebot::commands::room::{
    self as room, ChannelLookup, GrantStep, OverwriteTarget, RoomCommand, TargetStep, READ_MESSAGES,
};
use homebot::commands::{
    self as commands, id_option, may_target, sudo_check, Command, OptionKind,
};
use homebot::commands::minecraft::{self as mc, MinecraftCommand};
use homebot::commands::room::list::list;
use homebot::embed::{Embed, ERROR_COLOUR, HELP_COLOUR, SUCCESS_COLOUR};
use homebot::minecraft::codes::VerificationCodes;
use homebot::minecraft::{redeem, verification_code, LinkOutcome};

const NO_ROOMS: &str =
    "**Error**: You don't have any rooms! Try leaving the server and rejoining or consulting this with a mod";

fn says(e: &Embed, colour: u32, text: &str) -> bool {
    e.title.is_none() && e.colour == colour && e.description.as_deref() == Some(text) && e.fields.is_empty()
}

fn error_says(e: &Embed, text: &str) -> bool {
    says(e, ERROR_COLOUR, text)
}

#[test]
fn dispatch_on_command_names() {
    assert!(matches!(commands::execute(Some("help")), Command::Help));
    assert!(matches!(commands::execute(Some("room")), Command::Room));
    assert!(matches!(commands::execute(Some("minecraft")), Command::Ignore));
    assert!(matches!(commands::execute(None), Command::Ignore));
    assert!(matches!(room::execute(Some("add")), RoomCommand::Add));
    assert!(matches!(room::execute(Some("create")), RoomCommand::Create));
    assert!(matches!(room::execute(Some("remove")), RoomCommand::Remove));
    assert!(matches!(room::execute(Some("rename")), RoomCommand::Ignore));
    assert!(matches!(room::execute(None), RoomCommand::Ignore));
    assert!(matches!(mc::execute(Some("link")), MinecraftCommand::Link));
    assert!(matches!(mc::execute(Some("unlink")), MinecraftCommand::Ignore));
}

#[test]
fn help_lists_the_room_subcommands() {
    let e = commands::help_embed();
    assert_eq!(e.title.as_deref(), Some("List of commands & subcommands"));
    assert_eq!(e.colour, HELP_COLOUR);
    assert_eq!(e.fields.len(), 1);
    assert_eq!(e.fields[0].name, "Room");
    assert_eq!(e.fields[0].value, "Usage: ``/room <subcommand>``\n\n``add``\n``create``\n``remove``");
    assert!(e.fields[0].inline);
}

#[test]
fn registered_commands() {
    let cs = commands::register_commands();
    assert_eq!(cs.len(), 2);
    assert_eq!(cs[0].name, "help");
    assert_eq!(cs[0].description, "Lists commands for using this bot");
    let r = &cs[1];
    assert_eq!(r.name, "room");
    let names: Vec<&str> = r.options.iter().map(|o| o.name.as_str()).collect();
    assert_eq!(names, vec!["add", "remove", "create"]);
    assert!(matches!(r.options[2].options[1].kind, OptionKind::Text));
    assert_eq!(r.options[2].options[1].name, "room_name");
    let m = mc::register();
    assert_eq!(m.name, "minecraft");
    assert_eq!(m.options[0].options[0].name, "username");
    assert!(m.options[0].options[0].required);
}

#[test]
fn shared_checks() {
    assert!(sudo_check(&vec![1, 2], 2));
    assert!(!sudo_check(&vec![], 2));
    assert_eq!(id_option(Some("123")), Some(123));
    assert_eq!(id_option(Some("<@123>")), None);
    assert_eq!(id_option(None), None);
    assert!(may_target(3, 1, 2));
    assert!(!may_target(1, 1, 2));
    assert!(!may_target(2, 1, 2));
    assert!(error_says(&commands::stop_embed(), "**Error**: Stop ;-;"));
    assert!(error_says(&homebot::commands::me::set::set(), "**Error**: Command still a WIP"));
    assert!(error_says(&list(), "**Error**: Command still a WIP"));
}

#[test]
fn add_without_rooms() {
    match add::execute(None, Some("5"), None) {
        AddPlan::Reply(e) => assert!(error_says(&e, NO_ROOMS)),
        _ => panic!(),
    }
}

#[test]
fn add_plans() {
    let one = vec![10];
    let two = vec![10, 11];
    assert!(matches!(add::execute(Some(&one), Some("x"), None), AddPlan::Stop));
    assert!(matches!(add::execute(Some(&one), None, None), AddPlan::Stop));
    assert!(matches!(add::execute(Some(&one), Some("5"), None), AddPlan::Proceed { target: 5, room: None }));
    assert!(matches!(add::execute(Some(&two), Some("5"), Some("11")), AddPlan::Proceed { target: 5, room: Some(11) }));
    assert!(matches!(add::execute(Some(&two), Some("5"), Some("1x")), AddPlan::Stop));
    match add::execute(Some(&two), Some("5"), Some("12")) {
        AddPlan::Reply(e) => assert!(error_says(&e, "**Error**: That channel is not one of your rooms!")),
        _ => panic!(),
    }
    match add::execute(Some(&two), Some("5"), None) {
        AddPlan::Reply(e) => assert!(error_says(&e, "**Error**: Since you have multiple rooms, you have to specify a room!")),
        _ => panic!(),
    }
    assert_eq!(add::pick_room(&two, None), 10);
    assert_eq!(add::pick_room(&two, Some(11)), 11);
}

#[test]
fn add_grant_steps() {
    let guild = ChannelLookup::Guild { member_overwrites: vec![5] };
    match add::after_lookup(5, &guild) {
        GrantStep::Reply(e) => assert!(error_says(&e, "**Error**: That user is already in your room!")),
        _ => panic!(),
    }
    assert!(matches!(add::after_lookup(6, &guild), GrantStep::Grant));
    match add::after_lookup(6, &ChannelLookup::NotGuild) {
        GrantStep::Reply(e) => assert!(error_says(&e, "**Error**: Expected a guild channel")),
        _ => panic!(),
    }
    match add::after_lookup(6, &ChannelLookup::Failed("Unknown Channel".to_string())) {
        GrantStep::Reply(e) => assert!(error_says(&e, "**Error**: Failed to get channel: Unknown Channel")),
        _ => panic!(),
    }
    assert!(says(&add::after_grant(Ok(())), SUCCESS_COLOUR, "Added user to room :3"));
    assert!(error_says(&add::after_grant(Err("Missing Access".to_string())), "**Error**: Failed to add user to channel: Missing Access"));
    let o = room::member_access(9);
    assert_eq!((o.allow, o.deny), (READ_MESSAGES, 0));
    assert!(matches!(o.target, OverwriteTarget::Member(9)));
}

#[test]
fn forceadd_steps() {
    assert!(matches!(forceadd::execute(false, Some("1"), Some("2")), ForceAddPlan::Stop));
    assert!(matches!(forceadd::execute(true, Some("1"), Some("2")), ForceAddPlan::Proceed { channel: 1, target: 2 }));
    assert!(matches!(forceadd::execute(true, Some("1"), None), ForceAddPlan::Stop));
    assert!(matches!(forceadd::execute(true, Some("a"), Some("2")), ForceAddPlan::Stop));
    match forceadd::after_lookup(2, &ChannelLookup::Guild { member_overwrites: vec![2] }) {
        GrantStep::Reply(e) => assert!(error_says(&e, "**Error**: That user is already in the channel!")),
        _ => panic!(),
    }
    assert!(says(&forceadd::after_grant(Ok(())), SUCCESS_COLOUR, "Added user to channel :3"));
}

#[test]
fn create_steps() {
    assert!(matches!(create::execute(false, Some("1"), Some("x")), CreatePlan::Stop));
    assert!(matches!(create::execute(true, Some("x"), Some("x")), CreatePlan::Stop));
    assert!(matches!(create::execute(true, Some("1"), None), CreatePlan::Stop));
    match create::execute(true, Some("1"), Some("bunni")) {
        CreatePlan::Create { owner, room_name } => {
            assert_eq!(owner, 1);
            assert_eq!(room_name, "bunni");
        }
        _ => panic!(),
    }
    let req = create::create_room(1, "bunni", MarkerLookup::Position(5)).ok().unwrap();
    assert_eq!(req.name, "°•°♡bunni’s-room♡°•°");
    assert_eq!(req.kind, 0);
    assert_eq!(req.position, 4);
    assert_eq!(req.parent_id, "813785080421548103");
    assert!(matches!(req.permission_overwrites[0].target, OverwriteTarget::Role(806947535825403904)));
    assert_eq!(req.permission_overwrites[0].deny, READ_MESSAGES);
    assert!(matches!(req.permission_overwrites[1].target, OverwriteTarget::Member(1)));
    match create::create_room(1, "b", MarkerLookup::NoPosition) {
        Err(e) => assert!(error_says(&e, "**Error**: Marker channel of unknown type! Could not get it's position")),
        Ok(_) => panic!(),
    }
    match create::create_room(1, "b", MarkerLookup::Failed("gone".to_string())) {
        Err(e) => assert!(error_says(&e, "**Error**: Failed to get marker channel: gone")),
        Ok(_) => panic!(),
    }
    assert_eq!(create::after_create(Ok(77)).ok(), Some(77));
    match create::after_create(Err("nope".to_string())) {
        Err(e) => assert!(error_says(&e, "**Error**: Failed to create channel for room: nope")),
        Ok(_) => panic!(),
    }
    assert!(create::after_record(Ok(())).is_ok());
    match create::after_record(Err(())) {
        Err(e) => assert!(error_says(&e, "**Error**: Database error. Report this to the mods")),
        Ok(_) => panic!(),
    }
    assert!(says(&create::creation_reply(Ok(())), SUCCESS_COLOUR, "Created room :3"));
    let e = create::creation_reply(Err(homebot::embed::error_str("x")));
    assert!(error_says(&e, "x"));
}

#[test]
fn remove_steps() {
    assert!(error_says(&remove::execute(None).unwrap(), NO_ROOMS));
    assert!(remove::execute(Some(&vec![1])).is_none());
    assert_eq!(remove::room_of(&vec![4, 5]), 4);
    assert!(matches!(remove::after_role_check(Ok(true)), RemoveStep::Revoke));
    match remove::after_role_check(Ok(false)) {
        RemoveStep::Reply(e) => assert!(error_says(&e, "That user is not added to your room!")),
        _ => panic!(),
    }
    match remove::after_role_check(Err("x".to_string())) {
        RemoveStep::Reply(e) => assert!(error_says(&e, "**Error**: Failed to check if user already has role: x")),
        _ => panic!(),
    }
    assert!(says(&remove::after_revoke(Ok(())), SUCCESS_COLOUR, "Removed user from room ;-;"));
    assert!(error_says(&remove::after_revoke(Err("y".to_string())), "**Error**: Failed to remove role from user: y"));
    assert!(error_says(&remove::after_user_lookup_failed("z"), "**Error**: Failed to get user object: z"));
}

#[test]
fn rename_steps() {
    let rooms = vec![30];
    match rename::execute(None, Some("a"), 30) {
        RenamePlan::Reply(e) => assert!(error_says(&e, NO_ROOMS)),
        _ => panic!(),
    }
    assert!(matches!(rename::execute(Some(&rooms), None, 30), RenamePlan::Stop));
    match rename::execute(Some(&rooms), Some("My Room!"), 30) {
        RenamePlan::Rename { name } => assert_eq!(name, "MyRoom"),
        _ => panic!(),
    }
    match rename::execute(Some(&rooms), Some("My Room!"), 31) {
        RenamePlan::Reply(e) => assert!(error_says(&e, "**Error**: You aren't in a room that you own!")),
        _ => panic!(),
    }
    let too_long = "é".repeat(84);
    for name in ["!!!", too_long.as_str()] {
        match rename::execute(Some(&rooms), Some(name), 30) {
            RenamePlan::Reply(e) => assert!(error_says(&e, "**Error**: Room name has to be between 1 and 83 characters long!")),
            _ => panic!(),
        }
    }
    assert!(matches!(rename::execute(Some(&rooms), Some(&"é".repeat(83)), 30), RenamePlan::Rename { .. }));
    assert!(rename::fits_room_name(&"é".repeat(42)));
    assert!(rename::fits_room_name(&"a".repeat(83)));
    assert!(!rename::fits_room_name(&"a".repeat(84)));
    assert!(says(&rename::after_edit(Ok(())), SUCCESS_COLOUR, "Changed room name :3"));
    assert!(error_says(&rename::after_edit(Err("q".to_string())), "**Error**: Failed to edit channel name: q"));
}

#[test]
fn link_hands_out_a_joinable_code() {
    let code = link::new_code();
    assert_eq!(code.chars().count(), 10);
    assert!(code.chars().all(|c| c.is_ascii_alphanumeric()));
    let mut codes = VerificationCodes::new();
    codes.issue("OLDCODE".to_string(), 3, "old".to_string());
    let e = link::execute(&mut codes, 3, "Notch".to_string(), code.clone());
    assert_eq!(e.colour, SUCCESS_COLOUR);
    let text = e.description.clone().unwrap();
    assert_eq!(text, format!("Join the server ``{}.homebot.freemyip.com`` to continue", code));
    assert_eq!(e.fields[0].name, "Minecraft username");
    assert_eq!(e.fields[0].value, "Notch");
    assert!(e.fields[0].inline);
    assert_eq!(codes.len(), 1);
    let address = format!("{}.homebot.freemyip.com", code);
    let outcome = redeem(&mut codes, &verification_code(&address), &"Notch".to_string());
    assert!(matches!(outcome, LinkOutcome::Linked { user: 3 }));
}

#[test]
fn targets_of_add_and_remove() {
    let rooms = vec![30u64, 31];
    assert!(matches!(add::target_step(5, 9, 7, &rooms, None), TargetStep::LookUp { room: 30 }));
    assert!(matches!(add::target_step(5, 9, 7, &rooms, Some(31)), TargetStep::LookUp { room: 31 }));
    for target in [9u64, 7] {
        match add::target_step(target, 9, 7, &rooms, None) {
            TargetStep::Reply(e) => assert!(error_says(&e, "**Error**: Stop ;-;")),
            _ => panic!(),
        }
        match remove::target_step(target, 9, 7, &rooms) {
            TargetStep::Reply(e) => assert!(error_says(&e, "**Error**: Stop ;-;")),
            _ => panic!(),
        }
    }
    assert!(matches!(remove::target_step(5, 9, 7, &rooms), TargetStep::LookUp { room: 30 }));
}

#[test]
fn code_is_the_drawn_bytes() {
    assert_eq!(link::code_from_draws(&b"aZ09xQ7kLm".to_vec()), "aZ09xQ7kLm");
    assert_eq!(link::code_from_draws(&Vec::new()), "");
}
