use vstd::prelude::*;
use crate::error::AccountError;

verus! {

/// The largest number of decimal places a currency, price, quantity or
/// fee rate may carry.
pub const MAX_PRECISION: u8 = 9;

/// A denomination: its code and the number of decimal places of its
/// smallest unit.
#[derive(Debug, PartialEq, Eq)]
pub struct Currency {
    pub code: String,
    pub precision: u8,
}

impl View for Currency {
    type V = (Seq<char>, u8);

    open spec fn view(&self) -> (Seq<char>, u8) {
        (self.code@, self.precision)
    }
}

impl Currency {
    pub open spec fn wf(&self) -> bool {
        self.precision <= MAX_PRECISION
    }

    /// Builds a currency from its code and precision.
    pub fn new(code: &str, precision: u8) -> (r: Option<Currency>)
        ensures
            r.is_some() <==> precision <= MAX_PRECISION,
            r.is_some() ==> r.unwrap()@ == (code@, precision),
    {
        if precision <= MAX_PRECISION {
            Some(Currency { code: code.to_owned(), precision })
        } else {
            None
        }
    }

    /// Whether two currencies denote the same denomination.
    pub fn same_as(&self, other: &Currency) -> (r: bool)
        ensures
            r == (self@ == other@),
    {
        self.precision == other.precision && self.code == other.code
    }

    /// United States dollar, two decimal places.
    pub fn usd() -> (r: Currency)
        ensures
            r@ == ("USD"@, 2u8),
            r.wf(),
    {
        Currency { code: "USD".to_owned(), precision: 2 }
    }

    /// Tether, eight decimal places.
    pub fn usdt() -> (r: Currency)
        ensures
            r@ == ("USDT"@, 8u8),
            r.wf(),
    {
        Currency { code: "USDT".to_owned(), precision: 8 }
    }

    /// Bitcoin, eight decimal places.
    pub fn btc() -> (r: Currency)
        ensures
            r@ == ("BTC"@, 8u8),
            r.wf(),
    {
        Currency { code: "BTC".to_owned(), precision: 8 }
    }

    /// Ether, eight decimal places.
    pub fn eth() -> (r: Currency)
        ensures
            r@ == ("ETH"@, 8u8),
            r.wf(),
    {
        Currency { code: "ETH".to_owned(), precision: 8 }
    }
}

/// A catalogue of currencies, at most one per code, read by code.
pub struct CurrencyRegistry {
    entries: Vec<Currency>,
}

/// Whether no code appears twice among `e`.
pub open spec fn codes_unique(e: Seq<Currency>) -> bool {
    forall|i: int, j: int| 0 <= i < j < e.len() ==> #[trigger] e[i].code@ != #[trigger] e[j].code@
}

impl CurrencyRegistry {
    /// The currencies registered, in order of registration.
    pub closed spec fn entries(&self) -> Seq<Currency> {
        self.entries@
    }

    pub open spec fn wf(&self) -> bool {
        codes_unique(self.entries())
    }

    /// An empty registry.
    pub fn new() -> (r: CurrencyRegistry)
        ensures
            r.wf(),
            r.entries() == Seq::<Currency>::empty(),
    {
        CurrencyRegistry { entries: Vec::new() }
    }

    /// A registry seeded with the well-known currencies USD, USDT, BTC and
    /// ETH.
    pub fn with_defaults() -> (r: CurrencyRegistry)
        ensures
            r.wf(),
            r.entries().len() == 4,
            r.entries()[0]@ == ("USD"@, 2u8),
            r.entries()[1]@ == ("USDT"@, 8u8),
            r.entries()[2]@ == ("BTC"@, 8u8),
            r.entries()[3]@ == ("ETH"@, 8u8),
    {
        let mut entries: Vec<Currency> = Vec::new();
        entries.push(Currency::usd());
        entries.push(Currency::usdt());
        entries.push(Currency::btc());
        entries.push(Currency::eth());
        proof {
            reveal_strlit("USD");
            reveal_strlit("USDT");
            reveal_strlit("BTC");
            reveal_strlit("ETH");
            let e = entries@;
            assert("USD"@.len() != "USDT"@.len());
            assert("USD"@[0] != "BTC"@[0] && "USD"@[0] != "ETH"@[0]);
            assert("USDT"@[0] != "BTC"@[0] && "USDT"@[0] != "ETH"@[0]);
            assert("BTC"@[0] != "ETH"@[0]);
        }
        CurrencyRegistry { entries }
    }

    /// Adds `currency`. Fails with `CurrencyMismatch`, leaving the registry
    /// as it was, when its code is registered already.
    pub fn register(&mut self, currency: Currency) -> (r: Result<(), AccountError>)
        requires
            old(self).wf(),
        ensures
            final(self).wf(),
            (exists|i: int| 0 <= i < old(self).entries().len() && #[trigger] old(self).entries()[i].code@ == currency.code@)
                ==> r == Err::<(), AccountError>(AccountError::CurrencyMismatch) && final(self).entries() == old(self).entries(),
            !(exists|i: int| 0 <= i < old(self).entries().len() && #[trigger] old(self).entries()[i].code@ == currency.code@)
                ==> r.is_ok() && final(self).entries() == old(self).entries().push(currency),
    {
        match self.lookup(&currency.code) {
            Ok(_) => Err(AccountError::CurrencyMismatch),
            Err(_) => {
                self.entries.push(currency);
                Ok(())
            },
        }
    }

    /// The currency registered under `code`. Fails with `UnknownCurrency`
    /// when there is none.
    pub fn lookup(&self, code: &String) -> (r: Result<Currency, AccountError>)
        ensures
            match r {
                Ok(c) => exists|i: int| 0 <= i < self.entries().len() && #[trigger] self.entries()[i] == c && c.code@ == code@,
                Err(e) => e == AccountError::UnknownCurrency && forall|i: int|
                    0 <= i < self.entries().len() ==> #[trigger] self.entries()[i].code@ != code@,
            },
    {
        let mut i: usize = 0;
        while i < self.entries.len()
            invariant
                i <= self.entries@.len(),
                forall|j: int| 0 <= j < i ==> #[trigger] self.entries@[j].code@ != code@,
            decreases self.entries.len() - i,
        {
            if self.entries[i].code == *code {
                let c = self.entries[i].clone();
                assert(self.entries()[i as int] == c);
                return Ok(c);
            }
            i = i + 1;
        }
        Err(AccountError::UnknownCurrency)
    }
}

impl Clone for Currency {
    fn clone(&self) -> (r: Currency)
        ensures
            r == *self,
    {
        Currency { code: self.code.clone(), precision: self.precision }
    }
}

} // verus!
