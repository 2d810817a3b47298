//! The keys of the contract's instance storage.

use vstd::prelude::*;
use crate::host::is_symbol;

verus! {

/// A key of the instance storage.
#[derive(Copy, Clone, Debug, PartialEq, Eq, Structural)]
pub enum DataKey {
    /// Who locked the funds.
    Sender,
    /// Who may claim the funds.
    Recipient,
    /// The token contract that holds the funds.
    Token,
    /// How much is locked.
    Amount,
    /// When the funds can be claimed.
    UnlockTime,
    /// Whether the funds have been claimed.
    Claimed,
}

impl DataKey {
    /// The symbol under which the entry is stored.
    pub open spec fn text(self) -> Seq<char> {
        match self {
            DataKey::Sender => "Sender"@,
            DataKey::Recipient => "Recipient"@,
            DataKey::Token => "Token"@,
            DataKey::Amount => "Amount"@,
            DataKey::UnlockTime => "UnlockTime"@,
            DataKey::Claimed => "Claimed"@,
        }
    }

    /// The symbol under which the entry is stored.
    pub fn symbol(self) -> (symbol: &'static str)
        ensures
            symbol@ == self.text(),
            is_symbol(symbol@),
    {
        proof {
            lemma_key_is_symbol(self);
        }
        match self {
            DataKey::Sender => "Sender",
            DataKey::Recipient => "Recipient",
            DataKey::Token => "Token",
            DataKey::Amount => "Amount",
            DataKey::UnlockTime => "UnlockTime",
            DataKey::Claimed => "Claimed",
        }
    }
}

proof fn lemma_key_is_symbol(key: DataKey)
    ensures
        is_symbol(key.text()),
{
    reveal_strlit("Sender");
    reveal_strlit("Recipient");
    reveal_strlit("Token");
    reveal_strlit("Amount");
    reveal_strlit("UnlockTime");
    reveal_strlit("Claimed");
}

/// No two keys share a symbol, so no entry hides another.
pub proof fn keys_are_distinct(a: DataKey, b: DataKey)
    ensures
        a.text() == b.text() <==> a == b,
{
    reveal_strlit("Sender");
    reveal_strlit("Recipient");
    reveal_strlit("Token");
    reveal_strlit("Amount");
    reveal_strlit("UnlockTime");
    reveal_strlit("Claimed");
    if a.text() == b.text() {
        assert(a.text().len() == b.text().len());
        assert(a.text()[0] == b.text()[0]);
    }
}

} // verus!
