use tg_bot_service::{handle_command, BotConfig, BotError, Command, InboundMessage, UserInfo};
use tg_bot_service::error::outcome_exit_code;
use tg_bot_service::handler::{complete_send, display_name, handle_start};

fn message(from: Option<UserInfo>, chat_id: i64, text: &str) -> InboundMessage {
    InboundMessage { from, chat_id, text: text.to_string() }
}

fn sender(first_name: &str, last_name: Option<&str>) -> Option<UserInfo> {
    Some(UserInfo {
        first_name: first_name.to_string(),
        last_name: last_name.map(|n| n.to_string()),
    })
}

#[test]
fn test_start_message_not_empty() {
    assert!(!Command::start_message().is_empty());
}

#[test]
fn test_command_parsing() {
    // Test parsing the /start command
    let parsed = Command::parse("/start", "test_bot");
    assert!(parsed.is_some());
}

#[test]
fn test_valid_token_format() {
    let result = BotConfig::validate_token("123456789:ABCdefGHIjklMNOpqrsTUVwxyz");
    assert!(result.is_ok());
}

#[test]
fn test_invalid_token_format() {
    let result = BotConfig::validate_token("invalid");
    assert!(result.is_err());
}

#[test]
fn test_parse_canonical_name_round_trips() {
    for command in Command::all() {
        let text = format!("/{}", command.name());
        assert_eq!(Command::parse(&text, "test_bot"), Some(command));
    }
}

#[test]
fn test_parse_accepts_mention_and_arguments() {
    assert_eq!(Command::parse("/start@test_bot", "test_bot"), Some(Command::Start));
    assert_eq!(Command::parse("/start extra args", "test_bot"), Some(Command::Start));
    assert_eq!(Command::parse("/start@test_bot now", "test_bot"), Some(Command::Start));
}

#[test]
fn test_parse_rejects_non_commands() {
    assert_eq!(Command::parse("", "test_bot"), None);
    assert_eq!(Command::parse("hello there", "test_bot"), None);
    assert_eq!(Command::parse("start", "test_bot"), None);
    assert_eq!(Command::parse("/unknown", "test_bot"), None);
    assert_eq!(Command::parse("/", "test_bot"), None);
    assert_eq!(Command::parse("/Start", "test_bot"), None);
    assert_eq!(Command::parse(" /start", "test_bot"), None);
}

#[test]
fn test_parse_rejects_foreign_mention() {
    assert_eq!(Command::parse("/start@other_bot", "test_bot"), None);
}

#[test]
fn test_token_rejected_when_short_even_with_separator() {
    let result = BotConfig::validate_token("12:abc");
    assert!(matches!(result, Err(BotError::Config(_))));
}

#[test]
fn test_token_rejected_when_long_but_missing_separator() {
    let result = BotConfig::validate_token("123456789ABCdefGHIjklMNOpqrsTUVwxyz");
    assert!(matches!(result, Err(BotError::Config(_))));
}

#[test]
fn test_config_from_values_uses_token_and_log_level() {
    let config = BotConfig::from_values(
        Some("123456789:ABCdefGHIjklMNOpqrsTUVwxyz".to_string()),
        Some("debug".to_string()),
    )
    .unwrap();
    assert_eq!(config.token(), "123456789:ABCdefGHIjklMNOpqrsTUVwxyz");
    assert_eq!(config.log_level(), "debug");
}

#[test]
fn test_config_log_level_defaults_to_info() {
    let token = "123456789:ABCdefGHIjklMNOpqrsTUVwxyz".to_string();
    let absent = BotConfig::from_values(Some(token.clone()), None).unwrap();
    assert_eq!(absent.log_level(), "info");
    let empty = BotConfig::from_values(Some(token), Some(String::new())).unwrap();
    assert_eq!(empty.log_level(), "info");
}

#[test]
fn test_config_missing_token_is_config_error() {
    let result = BotConfig::from_values(None, None);
    assert!(matches!(result, Err(BotError::Config(_))));
}

#[test]
fn test_config_invalid_token_is_config_error() {
    let result = BotConfig::from_values(Some("invalid".to_string()), None);
    assert!(matches!(result, Err(BotError::Config(_))));
}

#[test]
fn test_display_name_first_name_only() {
    let msg = message(sender("Ada", None), 1, "/start");
    assert_eq!(display_name(&msg), "Ada");
}

#[test]
fn test_display_name_first_and_last_name() {
    let msg = message(sender("Ada", Some("Lovelace")), 1, "/start");
    assert_eq!(display_name(&msg), "Ada Lovelace");
}

#[test]
fn test_display_name_unknown_without_sender() {
    let msg = message(None, 1, "/start");
    assert_eq!(display_name(&msg), "Unknown");
}

#[test]
fn test_handle_start_always_replies_hello_world() {
    let senders = vec![
        sender("Ada", None),
        sender("Ada", Some("Lovelace")),
        None,
    ];
    for from in senders {
        let msg = message(from, 7, "/start");
        let action = handle_start(&msg);
        assert_eq!(action.reply.text, "Hello World");
        assert_eq!(action.reply.chat_id, 7);
    }
}

#[test]
fn test_dispatch_routes_every_variant() {
    for command in Command::all() {
        let msg = message(sender("Ada", None), 3, "/start");
        let action = handle_command(command, &msg);
        assert!(!action.reply.text.is_empty());
        assert_eq!(action.reply.chat_id, 3);
    }
}

#[test]
fn test_bot_commands_registration_table() {
    let table = Command::bot_commands();
    assert_eq!(table.len(), 1);
    assert_eq!(table[0].0, "start");
    assert_eq!(table[0].1, "Start interaction with the bot");
}

#[test]
fn test_exit_codes_per_error_kind() {
    assert_eq!(BotError::Config("x".to_string()).exit_code(), 1);
    assert_eq!(BotError::Telegram("x".to_string()).exit_code(), 2);
    assert_eq!(BotError::Internal("x".to_string()).exit_code(), 2);
    assert_eq!(outcome_exit_code(&Ok(())), 0);
}

#[test]
fn test_error_messages_keep_the_cause() {
    assert_eq!(
        BotError::Config("token missing".to_string()).message(),
        "Configuration error: token missing"
    );
    assert_eq!(
        BotError::Telegram("connection reset".to_string()).message(),
        "Telegram API error: connection reset"
    );
    assert_eq!(
        BotError::Internal("bug".to_string()).message(),
        "Internal error: bug"
    );
}

#[test]
fn test_complete_send_wraps_transport_failure() {
    assert!(complete_send(Ok(())).is_ok());
    let outcome = complete_send(Err("connection reset".to_string()));
    match outcome {
        Err(BotError::Telegram(cause)) => assert_eq!(cause, "connection reset"),
        _ => panic!("transport failure must surface as a Telegram error"),
    }
}

#[test]
fn test_missing_credential_aborts_with_exit_code_one() {
    // No credential in the environment: load fails with a Config error and
    // the process exits with code 1 before any reply is produced.
    let loaded = BotConfig::from_values(None, Some("info".to_string()));
    assert!(matches!(loaded, Err(BotError::Config(_))));
    let outcome: Result<(), BotError> = Err(loaded.unwrap_err());
    assert_eq!(outcome_exit_code(&outcome), 1);
}

#[test]
fn test_start_update_end_to_end() {
    // Valid config, inbound "/start" from chat 42: exactly one reply
    // "Hello World" to chat 42, and the run stays at exit code 0.
    let config = BotConfig::from_values(
        Some("123456789:ABCdefGHIjklMNOpqrsTUVwxyz".to_string()),
        None,
    )
    .unwrap();
    assert_eq!(config.log_level(), "info");

    let msg = message(sender("Ada", None), 42, "/start");
    let parsed = Command::parse(&msg.text, "test_bot").unwrap();
    let action = handle_command(parsed, &msg);
    assert_eq!(action.reply.chat_id, 42);
    assert_eq!(action.reply.text, "Hello World");

    let outcome = complete_send(Ok(()));
    assert_eq!(outcome_exit_code(&outcome), 0);
}
