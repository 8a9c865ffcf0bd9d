//! Adapter for Interactive Brokers TWS/Gateway: a placeholder that refuses market data and
//! trading.
use vstd::prelude::*;
use crate::adapters::{AdapterView, not_connected, configuration_error, connection_failed};
use crate::exchange::error::{ExchangeError, instrument_not_found, order_not_found};
use crate::exchange::info::{ExchangeInfo, InstrumentInfo, instruments_view, clone_instruments};
use crate::text::{owned, concat};
use crate::types::money::{Currency, Money};
use crate::types::order::{Order, OrderId};
use crate::types::order_book::OrderBook;
use crate::types::position::Position;
use crate::types::trade::Trade;

verus! {

/// Settings of the Interactive Brokers adapter.
#[derive(Debug)]
pub struct InteractiveBrokersConfig {
    /// Host of TWS or the Gateway.
    pub host: String,
    /// Port of TWS or the Gateway.
    pub port: u16,
    /// Client identifier of the connection.
    pub client_id: i32,
}

impl Clone for InteractiveBrokersConfig {
    fn clone(&self) -> (r: Self)
        ensures
            r == *self,
    {
        InteractiveBrokersConfig { host: self.host.clone(), port: self.port, client_id: self.client_id }
    }
}

impl InteractiveBrokersConfig {
    /// Settings for a host and port.
    pub fn new(host: &str, port: u16, client_id: i32) -> (r: InteractiveBrokersConfig)
        ensures
            r.host@ == host@,
            r.port == port,
            r.client_id == client_id,
    {
        InteractiveBrokersConfig { host: owned(host), port, client_id }
    }

    /// TWS on this machine (port 7496).
    pub fn tws_local(client_id: i32) -> (r: InteractiveBrokersConfig)
        ensures
            r.host@ == "127.0.0.1"@,
            r.port == 7496,
            r.client_id == client_id,
    {
        InteractiveBrokersConfig { host: owned("127.0.0.1"), port: 7496, client_id }
    }

    /// IB Gateway on this machine (port 4001).
    pub fn gateway_local(client_id: i32) -> (r: InteractiveBrokersConfig)
        ensures
            r.host@ == "127.0.0.1"@,
            r.port == 4001,
            r.client_id == client_id,
    {
        InteractiveBrokersConfig { host: owned("127.0.0.1"), port: 4001, client_id }
    }

    /// Paper trading through TWS on this machine (port 7497).
    pub fn tws_paper(client_id: i32) -> (r: InteractiveBrokersConfig)
        ensures
            r.host@ == "127.0.0.1"@,
            r.port == 7497,
            r.client_id == client_id,
    {
        InteractiveBrokersConfig { host: owned("127.0.0.1"), port: 7497, client_id }
    }
}

/// Adapter for Interactive Brokers TWS/Gateway.
#[derive(Debug)]
pub struct InteractiveBrokersAdapter {
    config: InteractiveBrokersConfig,
    info: ExchangeInfo,
    connected: bool,
}

impl View for InteractiveBrokersAdapter {
    type V = AdapterView;

    closed spec fn view(&self) -> AdapterView {
        AdapterView {
            name: self.info.name@,
            id: self.info.id@,
            info_connected: self.info.connected,
            instruments: instruments_view(self.info.instruments@),
            connected: self.connected,
        }
    }
}

impl InteractiveBrokersAdapter {
    /// A disconnected adapter with no instruments.
    pub fn new(config: InteractiveBrokersConfig) -> (r: InteractiveBrokersAdapter)
        ensures
            r@.name == ("Interactive Brokers"@),
            r@.id == "ibkr"@,
            !r@.info_connected,
            r@.instruments.len() == 0,
            !r@.connected,
            r.config_spec() == config,
    {
        let name = owned("Interactive Brokers");
        let r = InteractiveBrokersAdapter {
            config,
            info: ExchangeInfo { name, id: owned("ibkr"), connected: false, instruments: Vec::new() },
            connected: false,
        };
        assert(instruments_view(r.info.instruments@) =~= Seq::empty());
        r
    }

    /// The settings.
    pub closed spec fn config_spec(&self) -> InteractiveBrokersConfig {
        self.config
    }

    /// The settings.
    pub fn config(&self) -> (r: &InteractiveBrokersConfig)
        ensures
            *r == self.config_spec(),
    {
        &self.config
    }

    /// Information about the exchange.
    pub fn info(&self) -> (r: &ExchangeInfo)
        ensures
            r.name@ == self@.name,
            r.id@ == self@.id,
            r.connected == self@.info_connected,
            instruments_view(r.instruments@) == self@.instruments,
    {
        &self.info
    }

    /// Connecting is not implemented: always a configuration error.
    pub fn connect(&mut self) -> (r: Result<(), ExchangeError>)
        ensures
            configuration_error(r, "Interactive Brokers adapter not yet implemented. Please use the simulator for testing."@),
            final(self)@ == old(self)@,
    {
        Err(ExchangeError::ConfigurationError(owned("Interactive Brokers adapter not yet implemented. Please use the simulator for testing.")))
    }

    /// Closes the connection.
    pub fn disconnect(&mut self) -> (r: Result<(), ExchangeError>)
        ensures
            r is Ok,
            final(self)@ == (AdapterView { connected: false, info_connected: false, ..old(self)@ }),
    {
        self.connected = false;
        self.info.connected = false;
        Ok(())
    }

    /// Whether the connection is open.
    pub fn is_connected(&self) -> (r: bool)
        ensures
            r == self@.connected,
    {
        self.connected
    }

    /// Order books are not available.
    pub fn get_order_book(&self, instrument: &str) -> (r: Result<OrderBook, ExchangeError>)
        ensures
            !self@.connected ==> not_connected(r),
            self@.connected ==> configuration_error(
                r,
                "Order book fetching for "@ + instrument@ + " not yet implemented"@,
            ),
    {
        if !self.connected {
            return Err(connection_failed());
        }
        let start = concat("Order book fetching for ", instrument);
        Err(ExchangeError::ConfigurationError(concat(start.as_str(), " not yet implemented")))
    }

    /// No instrument is known.
    pub fn get_instrument_info(&self, instrument: &str) -> (r: Result<InstrumentInfo, ExchangeError>)
        ensures
            !self@.connected ==> not_connected(r),
            self@.connected ==> instrument_not_found(r, instrument@),
    {
        if !self.connected {
            return Err(connection_failed());
        }
        Err(ExchangeError::InstrumentNotFound(owned(instrument)))
    }

    /// The recorded instruments.
    pub fn list_instruments(&self) -> (r: Result<Vec<InstrumentInfo>, ExchangeError>)
        ensures
            !self@.connected ==> not_connected(r),
            self@.connected ==> r is Ok && instruments_view(r->Ok_0@) == self@.instruments,
    {
        if !self.connected {
            return Err(connection_failed());
        }
        Ok(clone_instruments(&self.info.instruments))
    }

    /// Order submission is not implemented.
    pub fn submit_order(&mut self, order: Order) -> (r: Result<Order, ExchangeError>)
        ensures
            final(self)@ == old(self)@,
            !old(self)@.connected ==> not_connected(r),
            old(self)@.connected ==> configuration_error(r, "Order submission not yet implemented"@),
    {
        if !self.connected {
            return Err(connection_failed());
        }
        Err(ExchangeError::ConfigurationError(owned("Order submission not yet implemented")))
    }

    /// No order is known.
    pub fn cancel_order(&mut self, order_id: &OrderId) -> (r: Result<(), ExchangeError>)
        ensures
            final(self)@ == old(self)@,
            !old(self)@.connected ==> not_connected(r),
            old(self)@.connected ==> order_not_found(r, order_id@),
    {
        if !self.connected {
            return Err(connection_failed());
        }
        Err(ExchangeError::OrderNotFound(order_id.clone()))
    }

    /// No order is known.
    pub fn get_order(&self, order_id: &OrderId) -> (r: Result<Order, ExchangeError>)
        ensures
            !self@.connected ==> not_connected(r),
            self@.connected ==> order_not_found(r, order_id@),
    {
        if !self.connected {
            return Err(connection_failed());
        }
        Err(ExchangeError::OrderNotFound(order_id.clone()))
    }

    /// No orders.
    pub fn list_active_orders(&self) -> (r: Result<Vec<Order>, ExchangeError>)
        ensures
            !self@.connected ==> not_connected(r),
            self@.connected ==> r is Ok && r->Ok_0@.len() == 0,
    {
        if !self.connected {
            return Err(connection_failed());
        }
        Ok(Vec::new())
    }

    /// No orders.
    pub fn list_orders_for_instrument(&self, instrument: &str) -> (r: Result<Vec<Order>, ExchangeError>)
        ensures
            !self@.connected ==> not_connected(r),
            self@.connected ==> r is Ok && r->Ok_0@.len() == 0,
    {
        if !self.connected {
            return Err(connection_failed());
        }
        Ok(Vec::new())
    }

    /// No positions.
    pub fn get_positions(&self) -> (r: Result<Vec<Position>, ExchangeError>)
        ensures
            !self@.connected ==> not_connected(r),
            self@.connected ==> r is Ok && r->Ok_0@.len() == 0,
    {
        if !self.connected {
            return Err(connection_failed());
        }
        Ok(Vec::new())
    }

    /// No position is known.
    pub fn get_position(&self, instrument: &str) -> (r: Result<Position, ExchangeError>)
        ensures
            !self@.connected ==> not_connected(r),
            self@.connected ==> instrument_not_found(r, instrument@),
    {
        if !self.connected {
            return Err(connection_failed());
        }
        Err(ExchangeError::InstrumentNotFound(owned(instrument)))
    }

    /// No balance is known.
    pub fn get_balance(&self, currency: &Currency) -> (r: Result<Money, ExchangeError>)
        ensures
            !self@.connected ==> not_connected(r),
            self@.connected ==> instrument_not_found(r, currency@),
    {
        if !self.connected {
            return Err(connection_failed());
        }
        Err(ExchangeError::InstrumentNotFound(owned(currency.code())))
    }

    /// No balances.
    pub fn get_balances(&self) -> (r: Result<Vec<Money>, ExchangeError>)
        ensures
            !self@.connected ==> not_connected(r),
            self@.connected ==> r is Ok && r->Ok_0@.len() == 0,
    {
        if !self.connected {
            return Err(connection_failed());
        }
        Ok(Vec::new())
    }

    /// No trades.
    pub fn get_trades(&self, limit: usize) -> (r: Result<Vec<Trade>, ExchangeError>)
        ensures
            !self@.connected ==> not_connected(r),
            self@.connected ==> r is Ok && r->Ok_0@.len() == 0,
    {
        if !self.connected {
            return Err(connection_failed());
        }
        Ok(Vec::new())
    }

    /// No trades.
    pub fn get_trades_for_instrument(&self, instrument: &str, limit: usize) -> (r: Result<Vec<Trade>, ExchangeError>)
        ensures
            !self@.connected ==> not_connected(r),
            self@.connected ==> r is Ok && r->Ok_0@.len() == 0,
    {
        if !self.connected {
            return Err(connection_failed());
        }
        Ok(Vec::new())
    }

    /// The exchange name.
    pub fn name(&self) -> (r: &str)
        ensures
            r@ == self@.name,
    {
        self.info.name.as_str()
    }

    /// The exchange identifier.
    pub fn id(&self) -> (r: &str)
        ensures
            r@ == self@.id,
    {
        self.info.id.as_str()
    }
}

} // verus!
