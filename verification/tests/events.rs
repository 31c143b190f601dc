use hypermarket::events::{EventLogger, MarketEvent, OracleEvent};
use hypermarket::types::Address;

#[test]
fn test_event_logger() {
    let logger = EventLogger::new(true, false, None);

    // Test market event
    let market_event = MarketEvent::TokensMinted {
        market_id: "test_market".to_string(),
        user: Address::zero(),
        amount: 100,
        timestamp: 1234567890,
    };
    let lines = logger.market_event_lines(&format!("{:?}", market_event));
    assert_eq!(lines.len(), 1);
    assert!(lines[0].starts_with("Market Event: TokensMinted"));

    // Test oracle event
    let oracle_event = OracleEvent::OutcomeSubmitted {
        market_id: "test_market".to_string(),
        oracle: Address::zero(),
        outcome: true,
        timestamp: 1234567890,
    };
    let lines = logger.oracle_event_lines(&format!("{:?}", oracle_event));
    assert_eq!(lines.len(), 1);
    assert!(lines[0].starts_with("Oracle Event: OutcomeSubmitted"));
}

#[test]
fn logger_keeps_its_switches() {
    let logger = EventLogger::new(false, true, Some("events.log".to_string()));
    assert!(!logger.log_to_console);
    assert!(logger.log_to_file);
    assert_eq!(logger.log_file_path, Some("events.log".to_string()));
}

#[test]
fn console_and_file_lines_in_order() {
    let logger = EventLogger::new(true, true, Some("events.log".to_string()));
    assert_eq!(
        logger.market_event_lines("E"),
        vec![
            "Market Event: E".to_string(),
            "Would log market event to file: events.log".to_string()
        ]
    );
    assert_eq!(
        logger.oracle_event_lines("E"),
        vec![
            "Oracle Event: E".to_string(),
            "Would log oracle event to file: events.log".to_string()
        ]
    );
}

#[test]
fn file_switch_without_path_writes_nothing() {
    let logger = EventLogger::new(false, true, None);
    assert!(logger.market_event_lines("E").is_empty());
    assert!(logger.oracle_event_lines("E").is_empty());
}

#[test]
fn path_without_file_switch_writes_nothing() {
    let logger = EventLogger::new(false, false, Some("events.log".to_string()));
    assert!(logger.market_event_lines("E").is_empty());
}
