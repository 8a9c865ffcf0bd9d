//! Adapters for real exchanges and brokers. They are placeholders: they
//! track their connection state and refuse market data and trading.

pub mod binance;
pub mod interactive_brokers;
pub mod tbank;

use vstd::prelude::*;
use crate::exchange::error::ExchangeError;
use crate::exchange::info::InstrumentView;
use crate::text::owned;

pub use binance::BinanceAdapter;
pub use interactive_brokers::InteractiveBrokersAdapter;
pub use tbank::TBankAdapter;

verus! {

/// The content of an adapter: its exchange information and connection state.
pub struct AdapterView {
    pub name: Seq<char>,
    pub id: Seq<char>,
    pub info_connected: bool,
    pub instruments: Seq<InstrumentView>,
    pub connected: bool,
}

/// `r` reports that there is no connection.
pub open spec fn not_connected<T>(r: Result<T, ExchangeError>) -> bool {
    &&& r is Err
    &&& r->Err_0 matches ExchangeError::ConnectionFailed(s)
    &&& s@ == "Not connected"@
}

/// `r` reports a missing configuration with the message.
pub open spec fn configuration_error<T>(r: Result<T, ExchangeError>, message: Seq<char>) -> bool {
    &&& r is Err
    &&& r->Err_0 matches ExchangeError::ConfigurationError(s)
    &&& s@ == message
}

/// The error for a request made without a connection.
pub(crate) fn connection_failed() -> (r: ExchangeError)
    ensures
        not_connected(Err::<(), ExchangeError>(r)),
{
    ExchangeError::ConnectionFailed(owned("Not connected"))
}

} // verus!
