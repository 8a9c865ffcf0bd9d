//! Information about exchanges and their instruments.
use vstd::prelude::*;
use crate::types::decimal::{Decimal, DecimalView};
use crate::types::money::Currency;

verus! {

/// A tradeable instrument.
#[derive(Debug)]
pub struct InstrumentInfo {
    /// Symbol or ticker.
    pub symbol: String,
    /// Human-readable name.
    pub name: String,
    /// Currency of its prices.
    pub currency: Currency,
    /// Smallest order quantity.
    pub min_quantity: Decimal,
    /// Step of order quantities.
    pub quantity_step: Decimal,
    /// Step of prices (tick size).
    pub price_step: Decimal,
    /// Units per lot.
    pub lot_size: u64,
    /// Whether trading is enabled.
    pub trading_enabled: bool,
}

/// The content of an [`InstrumentInfo`].
pub struct InstrumentView {
    pub symbol: Seq<char>,
    pub name: Seq<char>,
    pub currency: Seq<char>,
    pub min_quantity: DecimalView,
    pub quantity_step: DecimalView,
    pub price_step: DecimalView,
    pub lot_size: u64,
    pub trading_enabled: bool,
}

impl View for InstrumentInfo {
    type V = InstrumentView;

    open spec fn view(&self) -> InstrumentView {
        InstrumentView {
            symbol: self.symbol@,
            name: self.name@,
            currency: self.currency@,
            min_quantity: self.min_quantity@,
            quantity_step: self.quantity_step@,
            price_step: self.price_step@,
            lot_size: self.lot_size,
            trading_enabled: self.trading_enabled,
        }
    }
}

/// The views of a sequence of instrument records.
pub open spec fn instruments_view(s: Seq<InstrumentInfo>) -> Seq<InstrumentView> {
    s.map_values(|i: InstrumentInfo| i@)
}

impl Clone for InstrumentInfo {
    fn clone(&self) -> (r: Self)
        ensures
            r == *self,
    {
        InstrumentInfo {
            symbol: self.symbol.clone(),
            name: self.name.clone(),
            currency: self.currency.clone(),
            min_quantity: self.min_quantity,
            quantity_step: self.quantity_step,
            price_step: self.price_step,
            lot_size: self.lot_size,
            trading_enabled: self.trading_enabled,
        }
    }
}

/// Copies of instrument records, in their order.
pub fn clone_instruments(v: &Vec<InstrumentInfo>) -> (r: Vec<InstrumentInfo>)
    ensures
        r@ == v@,
{
    let mut out: Vec<InstrumentInfo> = Vec::new();
    let mut i: usize = 0;
    while i < v.len()
        invariant
            i <= v@.len(),
            out@ == v@.take(i as int),
        decreases v@.len() - i,
    {
        out.push(v[i].clone());
        assert(out@ =~= v@.take(i as int + 1));
        i = i + 1;
    }
    assert(v@.take(v@.len() as int) =~= v@);
    out
}

/// An exchange.
#[derive(Debug)]
pub struct ExchangeInfo {
    /// Name of the exchange.
    pub name: String,
    /// Identifier of the exchange.
    pub id: String,
    /// Whether a connection is open.
    pub connected: bool,
    /// The instruments traded.
    pub instruments: Vec<InstrumentInfo>,
}

impl Clone for ExchangeInfo {
    fn clone(&self) -> (r: Self)
        ensures
            r.name == self.name,
            r.id == self.id,
            r.connected == self.connected,
            r.instruments@ == self.instruments@,
    {
        ExchangeInfo {
            name: self.name.clone(),
            id: self.id.clone(),
            connected: self.connected,
            instruments: clone_instruments(&self.instruments),
        }
    }
}

} // verus!
