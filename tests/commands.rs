use quest_server::command::{classify_message, parse_command, Command, CommandError, Incoming};

const BOT: &str = "QuestBot";

#[test]
fn plain_commands() {
    assert!(matches!(parse_command("/help", BOT), Ok(Command::Help)));
    assert!(matches!(parse_command("/start", BOT), Ok(Command::Start)));
    assert!(matches!(parse_command("/cancel", BOT), Ok(Command::Cancel)));
}

#[test]
fn command_names_ignore_case() {
    assert!(matches!(parse_command("/HELP", BOT), Ok(Command::Help)));
    assert!(matches!(parse_command("/Start", BOT), Ok(Command::Start)));
    match parse_command("/ReGiStEr abcdefgh", BOT) {
        Ok(Command::Register(t)) => assert_eq!(t, "abcdefgh"),
        _ => panic!("expected Register"),
    }
}

#[test]
fn register_takes_the_rest_of_the_line() {
    match parse_command("/register abcd efgh", BOT) {
        Ok(Command::Register(t)) => assert_eq!(t, "abcd efgh"),
        _ => panic!("expected Register"),
    }
    match parse_command("/register", BOT) {
        Ok(Command::Register(t)) => assert_eq!(t, ""),
        _ => panic!("expected Register"),
    }
}

#[test]
fn bot_mention() {
    assert!(matches!(parse_command("/start@questbot", BOT), Ok(Command::Start)));
    match parse_command("/start@otherbot", BOT) {
        Err(CommandError::WrongBotName(n)) => assert_eq!(n, "otherbot"),
        _ => panic!("expected WrongBotName"),
    }
    match parse_command("/register@QUESTBOT 12345678", BOT) {
        Ok(Command::Register(t)) => assert_eq!(t, "12345678"),
        _ => panic!("expected Register"),
    }
}

#[test]
fn acknowledge_reads_a_uuid() {
    match parse_command("/acknowledge 67e55044-10b1-426f-9247-bb680e5fe0c8", BOT) {
        Ok(Command::Acknowledge { quest_id }) => {
            assert_eq!(quest_id, 0x67e55044_10b1_426f_9247_bb680e5fe0c8u128)
        }
        _ => panic!("expected Acknowledge"),
    }
    match parse_command("/acknowledge 67e5504410b1426f9247bb680e5fe0c8", BOT) {
        Ok(Command::Acknowledge { quest_id }) => {
            assert_eq!(quest_id, 0x67e55044_10b1_426f_9247_bb680e5fe0c8u128)
        }
        _ => panic!("expected Acknowledge"),
    }
    assert!(matches!(parse_command("/acknowledge nonsense", BOT), Err(CommandError::IncorrectFormat)));
    assert!(matches!(parse_command("/acknowledge", BOT), Err(CommandError::IncorrectFormat)));
}

#[test]
fn createquest_takes_two_words() {
    match parse_command("/createquest dragon alice", BOT) {
        Ok(Command::CreateQuest { name, assign_to }) => {
            assert_eq!(name, "dragon");
            assert_eq!(assign_to, "alice");
        }
        _ => panic!("expected CreateQuest"),
    }
    assert!(matches!(
        parse_command("/createquest dragon", BOT),
        Err(CommandError::TooFewArguments { expected: 2, found: 1 })
    ));
    assert!(matches!(
        parse_command("/createquest", BOT),
        Err(CommandError::TooFewArguments { expected: 2, found: 1 })
    ));
    assert!(matches!(
        parse_command("/createquest dragon alice bob", BOT),
        Err(CommandError::TooManyArguments { expected: 2, found: 3 })
    ));
}

#[test]
fn unknown_command() {
    match parse_command("/dance now", BOT) {
        Err(CommandError::UnknownCommand(c)) => assert_eq!(c, "/dance"),
        _ => panic!("expected UnknownCommand"),
    }
    match parse_command("help", BOT) {
        Err(CommandError::UnknownCommand(c)) => assert_eq!(c, "help"),
        _ => panic!("expected UnknownCommand"),
    }
}

#[test]
fn messages_are_sorted() {
    match classify_message("alice", BOT) {
        Incoming::Text(t) => assert_eq!(t, "alice"),
        _ => panic!("expected Text"),
    }
    assert!(matches!(classify_message("/cancel", BOT), Incoming::Command(Command::Cancel)));
    assert!(matches!(classify_message("/nothing", BOT), Incoming::Invalid(CommandError::UnknownCommand(_))));
    match classify_message("", BOT) {
        Incoming::Text(t) => assert_eq!(t, ""),
        _ => panic!("expected Text"),
    }
    match classify_message("héllo wörld", BOT) {
        Incoming::Text(t) => assert_eq!(t, "héllo wörld"),
        _ => panic!("expected Text"),
    }
}
