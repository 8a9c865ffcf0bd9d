//! Errors that an exchange reports.
use vstd::prelude::*;
use crate::types::order::OrderId;

verus! {

/// Errors that can occur when working with an exchange.
#[derive(Debug)]
pub enum ExchangeError {
    /// Connecting to the exchange failed.
    ConnectionFailed(String),
    /// Authentication with the exchange failed.
    AuthenticationFailed(String),
    /// The instrument is unknown.
    InstrumentNotFound(String),
    /// The exchange refused the order.
    OrderRejected(String),
    /// The order is unknown.
    OrderNotFound(OrderId),
    /// Not enough cash for the order.
    InsufficientFunds { required: String, available: String },
    /// Not enough of the instrument to sell.
    InsufficientPosition { required: String, available: String },
    /// The market is closed.
    MarketClosed,
    /// Outside the allowed trading hours.
    OutsideTradingHours,
    /// Too many requests.
    RateLimitExceeded { retry_after_ms: u64 },
    /// A network failure.
    NetworkError(String),
    /// No answer in time.
    Timeout,
    /// The request is malformed.
    InvalidRequest(String),
    /// The exchange failed internally.
    InternalError(String),
    /// An error code of the exchange's interface.
    ApiError { code: i32, message: String },
    /// The client is not configured for this.
    ConfigurationError(String),
}

/// `r` reports an unknown instrument (or currency) by its name.
pub open spec fn instrument_not_found<T>(r: Result<T, ExchangeError>, name: Seq<char>) -> bool {
    &&& r is Err
    &&& r->Err_0 matches ExchangeError::InstrumentNotFound(s)
    &&& s@ == name
}

/// `r` reports an unknown order by its identifier.
pub open spec fn order_not_found<T>(r: Result<T, ExchangeError>, id: Seq<char>) -> bool {
    &&& r is Err
    &&& r->Err_0 matches ExchangeError::OrderNotFound(o)
    &&& o@ == id
}

/// `r` reports a refused order with the message.
pub open spec fn order_rejected<T>(r: Result<T, ExchangeError>, message: Seq<char>) -> bool {
    &&& r is Err
    &&& r->Err_0 matches ExchangeError::OrderRejected(s)
    &&& s@ == message
}

/// Transient errors, after which the operation may be retried.
pub open spec fn retryable(e: ExchangeError) -> bool {
    e is ConnectionFailed || e is NetworkError || e is Timeout || e is RateLimitExceeded
}

impl ExchangeError {
    /// Whether the operation may be retried (connection, network, timeout or
    /// rate-limit errors).
    pub fn is_retryable(&self) -> (r: bool)
        ensures
            r == retryable(*self),
    {
        match self {
            ExchangeError::ConnectionFailed(_) | ExchangeError::NetworkError(_) | ExchangeError::Timeout
            | ExchangeError::RateLimitExceeded { .. } => true,
            _ => false,
        }
    }

    /// Whether authentication failed.
    pub fn is_auth_error(&self) -> (r: bool)
        ensures
            r == (*self is AuthenticationFailed),
    {
        match self {
            ExchangeError::AuthenticationFailed(_) => true,
            _ => false,
        }
    }

    /// Whether funds or holdings were short.
    pub fn is_insufficient_resources(&self) -> (r: bool)
        ensures
            r == (*self is InsufficientFunds || *self is InsufficientPosition),
    {
        match self {
            ExchangeError::InsufficientFunds { .. } | ExchangeError::InsufficientPosition { .. } => true,
            _ => false,
        }
    }
}

} // verus!
