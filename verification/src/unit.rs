//! Units of commerce: currencies and prices.
use vstd::prelude::*;

verus! {

/// A currency in which a combination may be priced.
#[derive(Clone, Copy, Debug, PartialEq, Eq, Structural, PartialOrd, Ord, Hash)]
pub enum Currency {
    USD,
    EUR,
    JPY,
    GBP,
    KRW,
    CNY,
}

impl Currency {
    /// The position of the currency in the declaration order; distinct
    /// currencies have distinct codes.
    pub open spec fn spec_code(self) -> u8 {
        match self {
            Currency::USD => 0u8,
            Currency::EUR => 1u8,
            Currency::JPY => 2u8,
            Currency::GBP => 3u8,
            Currency::KRW => 4u8,
            Currency::CNY => 5u8,
        }
    }

    /// The key under which a price in this currency is stored.
    pub fn code(self) -> (code: u8)
        ensures
            code == self.spec_code(),
    {
        match self {
            Currency::USD => 0u8,
            Currency::EUR => 1u8,
            Currency::JPY => 2u8,
            Currency::GBP => 3u8,
            Currency::KRW => 4u8,
            Currency::CNY => 5u8,
        }
    }

    /// The currency with the given code; none where no currency has it.
    pub fn from_code(code: u8) -> (currency: Option<Currency>)
        ensures
            code < 6 ==> currency is Some && currency->0.spec_code() == code,
            code >= 6 ==> currency is None,
    {
        if code == 0 {
            Some(Currency::USD)
        } else if code == 1 {
            Some(Currency::EUR)
        } else if code == 2 {
            Some(Currency::JPY)
        } else if code == 3 {
            Some(Currency::GBP)
        } else if code == 4 {
            Some(Currency::KRW)
        } else if code == 5 {
            Some(Currency::CNY)
        } else {
            None
        }
    }

    /// Two currencies with the same code are the same currency.
    pub proof fn lemma_code_injective(a: Currency, b: Currency)
        ensures
            a.spec_code() == b.spec_code() <==> a == b,
    {
    }
}

/// An amount of money, kept as the bit pattern of its binary floating-point
/// value so that it is carried through the engine unchanged.
#[derive(Clone, Copy, Debug, PartialEq, Eq, Structural, Hash)]
pub struct Price {
    pub bits: u64,
}

impl Price {
    pub fn from_bits(bits: u64) -> (price: Price)
        ensures
            price.bits == bits,
    {
        Price { bits }
    }

    pub fn to_bits(self) -> (bits: u64)
        ensures
            bits == self.bits,
    {
        self.bits
    }
}

} // verus!
