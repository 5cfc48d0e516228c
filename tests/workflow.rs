use quest_server::api::{get_avatar, get_user, register, ServerError};
use quest_server::avatars::key_for;
use quest_server::command::{classify_message, Incoming};
use quest_server::dialogue::{Event, PhotoSize, RegisterDialogueState, Registry, Reply};
use quest_server::records::{RegisterUser, StoreError};

const BOT: &str = "questbot";

fn hash_of(c: char) -> String {
    std::iter::repeat(c).take(64).collect()
}

fn command(text: &str) -> Event {
    match classify_message(text, BOT) {
        Incoming::Command(c) => Event::Command(c),
        _ => panic!("not a command: {}", text),
    }
}

fn text(t: &str) -> Event {
    Event::Text(t.to_string())
}

fn stage(reg: &mut Registry, c: char) -> u128 {
    register(reg, RegisterUser { card_hash: hash_of(c) }).unwrap().id
}

fn photo(id: &str, width: u32, height: u32) -> PhotoSize {
    PhotoSize { file_id: id.to_string(), width, height }
}

fn kind(e: &ServerError) -> &'static str {
    e.variant_name()
}

#[test]
fn end_to_end_registration() {
    let mut reg = Registry::new();
    let hash = hash_of('a');
    let staged = register(&mut reg, RegisterUser { card_hash: hash.clone() }).unwrap();
    assert_eq!(staged.card_hash, hash);
    let u1 = staged.id;

    assert!(matches!(reg.handle(7, command("/register aaaaaaaa")), Reply::AskUsername));
    match reg.session(7) {
        RegisterDialogueState::GetUsername { id, card_hash } => {
            assert_eq!(id, u1);
            assert_eq!(card_hash, hash);
        }
        _ => panic!("expected GetUsername"),
    }
    assert_eq!(reg.stager_len(), 0);

    match reg.handle(7, text("alice")) {
        Reply::AskAvatar(name) => assert_eq!(name, "alice"),
        _ => panic!("expected AskAvatar"),
    }
    assert!(matches!(reg.session(7), RegisterDialogueState::GetAvatar { .. }));

    let sizes = vec![photo("small", 90, 90), photo("large", 800, 800), photo("medium", 320, 320)];
    match reg.handle(7, Event::Photo(sizes)) {
        Reply::Download(file) => assert_eq!(file, "large"),
        _ => panic!("expected Download"),
    }

    let bytes: Vec<u8> = vec![0x89, b'P', b'N', b'G', 1, 2, 3];
    match reg.handle(7, Event::AvatarReady(bytes.clone())) {
        Reply::Registered(user) => {
            assert_eq!(user.card_hash, hash);
            assert_eq!(user.id, u1);
            assert_eq!(user.username, "alice");
            assert_eq!(user.telegram_chat_id, 7);
        }
        _ => panic!("expected Registered"),
    }
    assert!(matches!(reg.session(7), RegisterDialogueState::StartRegister));

    let mut expected_key = hash.clone();
    expected_key.push_str(".png");
    assert_eq!(key_for(&hash), expected_key);

    let user = get_user(&reg, &hash).unwrap();
    assert_eq!(user.id, u1);
    assert_eq!(user.username, "alice");
    assert_eq!(get_avatar(&reg, u1).unwrap(), bytes);
}

#[test]
fn short_hash_is_invalid_format_not_not_found() {
    let mut reg = Registry::new();
    stage(&mut reg, 'b');
    let short = "bbbbbbbbbb".to_string();
    let e = get_user(&reg, &short).unwrap_err();
    assert_eq!(kind(&e), "INVALID_FORMAT");
    assert_eq!(e.status_code(), 400);
    let unknown = hash_of('z');
    let e = get_user(&reg, &unknown).unwrap_err();
    assert_eq!(kind(&e), "NOT_FOUND");
    assert_eq!(e.status_code(), 404);
}

#[test]
fn token_of_wrong_length_changes_nothing() {
    let mut reg = Registry::new();
    stage(&mut reg, 'c');
    for t in ["/register", "/register ccc", "/register ccccccccc", "/register cccccccc c"] {
        assert!(matches!(reg.handle(3, command(t)), Reply::InvalidToken), "{}", t);
        assert!(matches!(reg.session(3), RegisterDialogueState::StartRegister));
        assert_eq!(reg.stager_len(), 1);
    }
}

#[test]
fn staged_record_is_claimed_once() {
    let mut reg = Registry::new();
    stage(&mut reg, 'd');
    assert!(matches!(reg.handle(1, command("/register dddddddd")), Reply::AskUsername));
    assert!(matches!(reg.handle(2, command("/register dddddddd")), Reply::UnknownToken));
    assert!(matches!(reg.session(1), RegisterDialogueState::GetUsername { .. }));
    assert!(matches!(reg.session(2), RegisterDialogueState::StartRegister));
}

#[test]
fn same_username_is_registered_once() {
    let mut reg = Registry::new();
    stage(&mut reg, 'e');
    stage(&mut reg, 'f');
    reg.handle(1, command("/register eeeeeeee"));
    reg.handle(2, command("/register ffffffff"));
    assert!(matches!(reg.handle(1, text("bob")), Reply::AskAvatar(_)));
    assert!(matches!(reg.handle(2, text("bob")), Reply::AskAvatar(_)));
    assert!(matches!(reg.handle(1, Event::AvatarReady(vec![1])), Reply::Registered(_)));
    assert!(matches!(
        reg.handle(2, Event::AvatarReady(vec![2])),
        Reply::RegistrationFailed(StoreError::DuplicateUsername)
    ));
    assert!(matches!(reg.session(2), RegisterDialogueState::GetUsername { .. }));
    assert_eq!(reg.users_len(), 1);
    let e = get_user(&reg, &hash_of('f')).unwrap_err();
    assert_eq!(kind(&e), "NOT_FOUND");
    assert!(matches!(reg.handle(2, text("bob")), Reply::UsernameTaken(_)));
    assert!(matches!(reg.handle(2, text("carol")), Reply::AskAvatar(_)));
    assert!(matches!(reg.handle(2, Event::AvatarReady(vec![2])), Reply::Registered(_)));
    assert_eq!(reg.users_len(), 2);
}

#[test]
fn avatar_bytes_round_trip() {
    let mut reg = Registry::new();
    let id = stage(&mut reg, 'g');
    reg.handle(5, command("/register gggggggg"));
    reg.handle(5, text("gina"));
    let bytes: Vec<u8> = (0..=255u8).collect();
    assert!(matches!(reg.handle(5, Event::AvatarReady(bytes.clone())), Reply::Registered(_)));
    assert_eq!(get_avatar(&reg, id).unwrap(), bytes);
    let e = get_avatar(&reg, id.wrapping_add(1)).unwrap_err();
    assert_eq!(kind(&e), "NOT_FOUND");
}

#[test]
fn cancel_discards_the_session() {
    let mut reg = Registry::new();
    stage(&mut reg, 'h');
    let second = stage(&mut reg, 'i');
    reg.handle(4, command("/register hhhhhhhh"));
    reg.handle(4, text("henry"));
    assert!(matches!(reg.session(4), RegisterDialogueState::GetAvatar { .. }));
    assert!(matches!(reg.handle(4, command("/cancel")), Reply::Cancelled));
    assert!(matches!(reg.session(4), RegisterDialogueState::StartRegister));
    assert!(matches!(reg.handle(4, command("/register iiiiiiii")), Reply::AskUsername));
    match reg.session(4) {
        RegisterDialogueState::GetUsername { id, card_hash } => {
            assert_eq!(id, second);
            assert_eq!(card_hash, hash_of('i'));
        }
        _ => panic!("expected GetUsername"),
    }
    assert!(matches!(reg.handle(4, command("/cancel")), Reply::Cancelled));
    assert!(matches!(reg.session(4), RegisterDialogueState::StartRegister));
    assert_eq!(reg.users_len(), 0);
}

#[test]
fn commands_outside_their_state_are_ignored() {
    let mut reg = Registry::new();
    stage(&mut reg, 'j');
    assert!(matches!(reg.handle(8, command("/start")), Reply::Info));
    assert!(matches!(reg.handle(8, command("/help")), Reply::Help));
    assert!(matches!(reg.handle(8, text("hello")), Reply::Ignored));
    assert!(matches!(reg.handle(8, Event::UseProfilePhoto), Reply::Ignored));
    assert!(matches!(reg.handle(8, Event::AvatarReady(vec![1])), Reply::Ignored));
    reg.handle(8, command("/register jjjjjjjj"));
    assert!(matches!(reg.handle(8, command("/start")), Reply::Ignored));
    assert!(matches!(reg.handle(8, command("/register jjjjjjjj")), Reply::Ignored));
    assert!(matches!(reg.handle(8, Event::Photo(vec![photo("x", 1, 1)])), Reply::AskUsernameText));
    assert!(matches!(reg.session(8), RegisterDialogueState::GetUsername { .. }));
    reg.handle(8, text("jo"));
    assert!(matches!(reg.handle(8, text("again")), Reply::AskPhoto));
    assert!(matches!(reg.handle(8, Event::Photo(vec![])), Reply::AskPhoto));
    assert!(matches!(reg.handle(8, Event::UseProfilePhoto), Reply::FetchProfilePhoto));
    assert!(matches!(reg.handle(8, Event::ProfilePhotoMissing), Reply::NoProfilePhoto));
    assert!(matches!(reg.handle(8, Event::AvatarFailed), Reply::AvatarFailed));
    assert!(matches!(reg.handle(8, command("/createquest a b")), Reply::Quest));
    assert!(matches!(reg.session(8), RegisterDialogueState::GetAvatar { .. }));
}

#[test]
fn unknown_token_keeps_the_start() {
    let mut reg = Registry::new();
    stage(&mut reg, 'k');
    assert!(matches!(reg.handle(9, command("/register kkkkkkkx")), Reply::UnknownToken));
    assert!(matches!(reg.session(9), RegisterDialogueState::StartRegister));
    assert_eq!(reg.stager_len(), 1);
}

#[test]
fn staging_twice_is_a_conflict() {
    let mut reg = Registry::new();
    stage(&mut reg, 'l');
    let e = register(&mut reg, RegisterUser { card_hash: hash_of('l') }).unwrap_err();
    assert_eq!(kind(&e), "CONFLICT");
    assert_eq!(e.status_code(), 409);
    let e = register(&mut reg, RegisterUser { card_hash: "short".to_string() }).unwrap_err();
    assert_eq!(kind(&e), "INVALID_FORMAT");
    assert_eq!(reg.stager_len(), 1);
}

#[test]
fn fresh_ids_differ() {
    let mut reg = Registry::new();
    let a = stage(&mut reg, 'm');
    let b = stage(&mut reg, 'n');
    assert_ne!(a, b);
}

#[test]
fn registered_card_cannot_register_again() {
    let mut reg = Registry::new();
    stage(&mut reg, 'o');
    reg.handle(1, command("/register oooooooo"));
    reg.handle(1, text("olga"));
    reg.handle(1, Event::AvatarReady(vec![1]));
    stage(&mut reg, 'o');
    reg.handle(2, command("/register oooooooo"));
    reg.handle(2, text("oscar"));
    assert!(matches!(
        reg.handle(2, Event::AvatarReady(vec![2])),
        Reply::RegistrationFailed(StoreError::DuplicateHash)
    ));
    assert!(matches!(reg.session(2), RegisterDialogueState::GetAvatar { .. }));
    let user = get_user(&reg, &hash_of('o')).unwrap();
    assert_eq!(user.username, "olga");
}
