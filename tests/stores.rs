use quest_server::api::{confirm_register, register, ServerError};
use quest_server::avatars::{key_for, AvatarStore};
use quest_server::dialogue::{best_photo_index, Event, PhotoSize, Registry, Reply};
use quest_server::command::Command;
use quest_server::records::{ConfirmUserRegister, RegisterUser, StoreError};
use quest_server::stager::Stager;
use quest_server::users::UserStore;

fn hash_of(c: char) -> String {
    std::iter::repeat(c).take(64).collect()
}

#[test]
fn stager_claims_first_match_and_removes_it() {
    let mut s = Stager::new();
    assert!(s.register("abcdefgh-one".to_string(), 1).is_ok());
    assert!(s.register("abcdefgh-two".to_string(), 2).is_ok());
    assert!(matches!(s.register("abcdefgh-one".to_string(), 3), Err(StoreError::DuplicateHash)));
    assert!(matches!(s.register("other".to_string(), 2), Err(StoreError::DuplicateId)));
    let first = s.consume("abcdefgh").unwrap();
    assert_eq!(first.id, 1);
    assert_eq!(first.card_hash, "abcdefgh-one");
    let second = s.consume("abcdefgh").unwrap();
    assert_eq!(second.id, 2);
    assert!(s.consume("abcdefgh").is_none());
    assert_eq!(s.len(), 0);
}

#[test]
fn stager_prefix_is_exact() {
    let mut s = Stager::new();
    assert!(s.register("ABCDEFGH".to_string(), 1).is_ok());
    assert!(s.consume("abcdefgh").is_none());
    assert!(s.consume("ABCDEFGHI").is_none());
    assert_eq!(s.find_by_id(1).unwrap().card_hash, "ABCDEFGH");
    assert!(s.find_by_id(9).is_none());
    assert!(s.consume("").is_some());
}

#[test]
fn user_store_uniqueness() {
    let mut u = UserStore::new();
    assert!(u.finalize("h1".to_string(), 1, "ann".to_string(), 10).is_ok());
    assert!(matches!(u.finalize("h1".to_string(), 2, "bea".to_string(), 11), Err(StoreError::DuplicateHash)));
    assert!(matches!(u.finalize("h2".to_string(), 2, "ann".to_string(), 11), Err(StoreError::DuplicateUsername)));
    assert!(matches!(u.finalize("h2".to_string(), 1, "bea".to_string(), 11), Err(StoreError::DuplicateId)));
    assert!(u.finalize("h2".to_string(), 2, "bea".to_string(), 11).is_ok());
    assert_eq!(u.len(), 2);
    assert!(u.is_username_used(&"ann".to_string()));
    assert!(!u.is_username_used(&"Ann".to_string()));
    assert_eq!(u.find_by_id(2).unwrap().username, "bea");
    assert_eq!(u.find_by_hash(&"h1".to_string()).unwrap().telegram_chat_id, 10);
    assert_eq!(u.find_by_username(&"bea".to_string()).unwrap().card_hash, "h2");
    assert!(u.find_by_username(&"cid".to_string()).is_none());
}

#[test]
fn avatar_store_replaces() {
    let mut a = AvatarStore::new();
    let key = key_for(&"abc".to_string());
    assert_eq!(key, "abc.png");
    assert!(a.get(&key).is_none());
    a.put(key.clone(), vec![1, 2, 3]);
    a.put("other.png".to_string(), vec![9]);
    assert_eq!(a.get(&key).unwrap(), vec![1, 2, 3]);
    a.put(key.clone(), vec![4]);
    assert_eq!(a.get(&key).unwrap(), vec![4]);
    assert_eq!(a.get(&"other.png".to_string()).unwrap(), vec![9]);
}

#[test]
fn best_photo_is_the_largest_and_first_among_equals() {
    let p = |id: &str, w: u32, h: u32| PhotoSize { file_id: id.to_string(), width: w, height: h };
    assert_eq!(best_photo_index(&vec![p("a", 10, 10), p("b", 100, 50), p("c", 50, 100), p("d", 20, 20)]), 1);
    assert_eq!(best_photo_index(&vec![p("a", 5, 5)]), 0);
    assert_eq!(best_photo_index(&vec![p("a", u32::MAX, u32::MAX), p("b", u32::MAX, 1)]), 0);
}

#[test]
fn quests_are_handed_out_and_acknowledged() {
    let mut reg = Registry::new();
    assert!(reg.create_quest("dragon".to_string(), "alice".to_string()).is_none());
    assert_eq!(reg.tasks_len(), 0);
    let staged = register(&mut reg, RegisterUser { card_hash: hash_of('q') }).unwrap();
    let done = confirm_register(
        &mut reg,
        ConfirmUserRegister { user_id: staged.id, telegram_chat_id: 42, username: "alice".to_string() },
    )
    .unwrap();
    assert_eq!(done.user_hash, hash_of('q'));
    assert_eq!(done.user_id, staged.id);
    assert_eq!(done.telegram_chat_id, 42);
    let task = reg.create_quest("dragon".to_string(), "alice".to_string()).unwrap();
    assert_eq!(task.assigned_to, hash_of('q'));
    assert_eq!(task.quest_name, "dragon");
    let other = reg.create_quest_with_id("troll".to_string(), "alice".to_string(), 77).unwrap();
    assert_eq!(other.id, 77);
    assert_eq!(reg.tasks_len(), 2);
    assert!(reg.acknowledge(task.id));
    assert_eq!(reg.tasks_len(), 1);
    assert!(!reg.acknowledge(task.id));
    assert!(reg.acknowledge(77));
    assert_eq!(reg.tasks_len(), 0);
    assert!(matches!(reg.handle(1, Event::Command(Command::Acknowledge { quest_id: 77 })), Reply::Quest));
}

#[test]
fn confirm_register_errors() {
    let mut reg = Registry::new();
    let e: ServerError = confirm_register(
        &mut reg,
        ConfirmUserRegister { user_id: 5, telegram_chat_id: 1, username: "x".to_string() },
    )
    .unwrap_err();
    assert_eq!(e.variant_name(), "NOT_FOUND");
    let staged = register(&mut reg, RegisterUser { card_hash: hash_of('r') }).unwrap();
    let ok = ConfirmUserRegister { user_id: staged.id, telegram_chat_id: 1, username: "x".to_string() };
    assert!(confirm_register(&mut reg, ok).is_ok());
    let again = ConfirmUserRegister { user_id: staged.id, telegram_chat_id: 1, username: "y".to_string() };
    let e = confirm_register(&mut reg, again).unwrap_err();
    assert_eq!(e.variant_name(), "CONFLICT");
    assert_eq!(e.value(), "the card or the username is already registered");
    assert_eq!(e.status_code(), 409);
}
