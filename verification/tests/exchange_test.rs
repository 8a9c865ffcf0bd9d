use scalper_trader_bot::adapters::binance::{BinanceAdapter, BinanceConfig};
use scalper_trader_bot::adapters::interactive_brokers::{InteractiveBrokersAdapter, InteractiveBrokersConfig};
use scalper_trader_bot::adapters::tbank::{TBankAdapter, TBankConfig};
use scalper_trader_bot::exchange::{ExchangeError, ExchangeInfo, InstrumentInfo};
use scalper_trader_bot::types::{Currency, Decimal};

#[test]
fn test_is_retryable() {
    assert!(ExchangeError::ConnectionFailed("test".to_string()).is_retryable());
    assert!(ExchangeError::Timeout.is_retryable());
    assert!(ExchangeError::RateLimitExceeded { retry_after_ms: 1000 }.is_retryable());
    assert!(!ExchangeError::OrderRejected("test".to_string()).is_retryable());
}

#[test]
fn test_is_auth_error() {
    assert!(ExchangeError::AuthenticationFailed("test".to_string()).is_auth_error());
    assert!(!ExchangeError::ConnectionFailed("test".to_string()).is_auth_error());
}

#[test]
fn test_is_insufficient_resources() {
    assert!(ExchangeError::InsufficientFunds { required: "100".to_string(), available: "50".to_string() }
        .is_insufficient_resources());
    assert!(ExchangeError::InsufficientPosition { required: "10".to_string(), available: "5".to_string() }
        .is_insufficient_resources());
    assert!(!ExchangeError::Timeout.is_insufficient_resources());
}

#[test]
fn test_exchange_info() {
    let info = ExchangeInfo {
        name: "Test Exchange".to_string(),
        id: "test".to_string(),
        connected: false,
        instruments: vec![],
    };

    assert_eq!(info.name, "Test Exchange");
    assert_eq!(info.id, "test");
    assert!(!info.connected);
}

#[test]
fn test_instrument_info() {
    let info = InstrumentInfo {
        symbol: "AAPL".to_string(),
        name: "Apple Inc.".to_string(),
        currency: Currency::usd(),
        min_quantity: Decimal::from_i64(1),
        quantity_step: Decimal::from_i64(1),
        price_step: Decimal::new(1, 2),
        lot_size: 1,
        trading_enabled: true,
    };

    assert_eq!(info.symbol, "AAPL");
    assert!(info.trading_enabled);
}

#[test]
fn binance_test_config_creation() {
    let config = BinanceConfig::new("api-key", "api-secret");
    assert_eq!(config.api_key, "api-key");
    assert_eq!(config.api_secret, "api-secret");
    assert!(!config.testnet);
}

#[test]
fn test_testnet_config() {
    let config = BinanceConfig::testnet("api-key", "api-secret");
    assert!(config.testnet);
}

#[test]
fn binance_test_adapter_creation() {
    let config = BinanceConfig::new("api-key", "api-secret");
    let adapter = BinanceAdapter::new(config);
    assert_eq!(adapter.info().id, "binance");
    assert!(!adapter.is_connected());
}

#[test]
fn binance_test_disconnect() {
    let config = BinanceConfig::new("api-key", "api-secret");
    let mut adapter = BinanceAdapter::new(config);
    adapter.disconnect().unwrap();
    assert!(!adapter.is_connected());
}

#[test]
fn interactive_brokers_test_config_creation() {
    let config = InteractiveBrokersConfig::new("localhost", 7496, 1);
    assert_eq!(config.host, "localhost");
    assert_eq!(config.port, 7496);
    assert_eq!(config.client_id, 1);
}

#[test]
fn test_tws_local_config() {
    let config = InteractiveBrokersConfig::tws_local(1);
    assert_eq!(config.host, "127.0.0.1");
    assert_eq!(config.port, 7496);
}

#[test]
fn test_gateway_local_config() {
    let config = InteractiveBrokersConfig::gateway_local(1);
    assert_eq!(config.port, 4001);
}

#[test]
fn test_paper_config() {
    let config = InteractiveBrokersConfig::tws_paper(1);
    assert_eq!(config.port, 7497);
}

#[test]
fn interactive_brokers_test_adapter_creation() {
    let config = InteractiveBrokersConfig::tws_local(1);
    let adapter = InteractiveBrokersAdapter::new(config);
    assert_eq!(adapter.info().id, "ibkr");
    assert!(!adapter.is_connected());
}

#[test]
fn interactive_brokers_test_disconnect() {
    let config = InteractiveBrokersConfig::tws_local(1);
    let mut adapter = InteractiveBrokersAdapter::new(config);
    adapter.disconnect().unwrap();
    assert!(!adapter.is_connected());
}

#[test]
fn tbank_test_config_creation() {
    let config = TBankConfig::new("test-token", "test-account");
    assert_eq!(config.token, "test-token");
    assert_eq!(config.account_id, "test-account");
    assert!(!config.sandbox);
}

#[test]
fn test_sandbox_config() {
    let config = TBankConfig::sandbox("test-token", "test-account");
    assert!(config.sandbox);
}

#[test]
fn tbank_test_adapter_creation() {
    let config = TBankConfig::new("test-token", "test-account");
    let adapter = TBankAdapter::new(config);
    assert_eq!(adapter.info().id, "tbank");
    assert!(!adapter.is_connected());
}

#[test]
fn tbank_test_disconnect() {
    let config = TBankConfig::new("test-token", "test-account");
    let mut adapter = TBankAdapter::new(config);
    adapter.disconnect().unwrap();
    assert!(!adapter.is_connected());
}
