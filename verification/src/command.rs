//! The commands that a caller can give, by the word that names each.

use vstd::prelude::*;
use vstd::string::StringSliceAdditionalSpecFns;
use vstd::utf8::{decode_utf8, encode_utf8, encode_utf8_decode_utf8};

verus! {

/// What a caller asks for.
#[derive(Clone, Copy, Debug, PartialEq, Eq, Structural)]
pub enum Command {
    ListMarkets,
    ListPositions,
    OpenLong,
    OpenShort,
    OpenLimit,
    ClosePosition,
    TakeProfit,
    StopLoss,
    UpdateOrder,
    CancelOrder,
    Swap,
    DepositCollateral,
    WithdrawCollateral,
    SetupWallet,
    CreateLimitOrder,
}

/// The command that a word names, if it names one.
pub open spec fn command_of(word: Seq<char>) -> Option<Command> {
    if word == "list_markets"@ {
        Some(Command::ListMarkets)
    } else if word == "list_positions"@ {
        Some(Command::ListPositions)
    } else if word == "open_long"@ {
        Some(Command::OpenLong)
    } else if word == "open_short"@ {
        Some(Command::OpenShort)
    } else if word == "open_limit"@ {
        Some(Command::OpenLimit)
    } else if word == "close_position"@ {
        Some(Command::ClosePosition)
    } else if word == "take_profit"@ {
        Some(Command::TakeProfit)
    } else if word == "stop_loss"@ {
        Some(Command::StopLoss)
    } else if word == "update_order"@ {
        Some(Command::UpdateOrder)
    } else if word == "cancel_order"@ {
        Some(Command::CancelOrder)
    } else if word == "swap"@ {
        Some(Command::Swap)
    } else if word == "deposit_collateral"@ {
        Some(Command::DepositCollateral)
    } else if word == "withdraw_collateral"@ {
        Some(Command::WithdrawCollateral)
    } else if word == "setup_wallet"@ {
        Some(Command::SetupWallet)
    } else if word == "create_limit_order"@ {
        Some(Command::CreateLimitOrder)
    } else {
        None
    }
}

/// How many words a command line must hold for the command, the program's
/// name and the command's own word included.
pub open spec fn words_needed(command: Command) -> usize {
    match command {
        Command::ListMarkets | Command::ListPositions => 2,
        Command::CancelOrder | Command::SetupWallet | Command::CreateLimitOrder => 3,
        Command::OpenLong | Command::OpenShort | Command::ClosePosition | Command::UpdateOrder
        | Command::DepositCollateral | Command::WithdrawCollateral => 5,
        Command::TakeProfit | Command::StopLoss | Command::Swap => 6,
        Command::OpenLimit => 7,
    }
}

/// Whether two texts are the same.
pub fn same_text(a: &str, b: &str) -> (r: bool)
    ensures
        r == (a@ == b@),
{
    let x = a.as_bytes();
    let y = b.as_bytes();
    proof {
        // Texts with the same bytes are the same text.
        encode_utf8_decode_utf8(a@);
        encode_utf8_decode_utf8(b@);
    }
    if x.len() != y.len() {
        return false;
    }
    let mut i: usize = 0;
    while i < x.len()
        invariant
            i <= x.len(),
            x.len() == y.len(),
            x@ == encode_utf8(a@),
            y@ == encode_utf8(b@),
            decode_utf8(x@) == a@,
            decode_utf8(y@) == b@,
            forall|j: int| 0 <= j < i ==> x@[j] == y@[j],
        decreases x.len() - i,
    {
        if x[i] != y[i] {
            return false;
        }
        i = i + 1;
    }
    assert(x@ =~= y@);
    true
}

impl Command {
    /// The command that `word` names, or `None` for any other word.
    pub fn parse(word: &str) -> (r: Option<Command>)
        ensures
            r == command_of(word@),
    {
        if same_text(word, "list_markets") {
            Some(Command::ListMarkets)
        } else if same_text(word, "list_positions") {
            Some(Command::ListPositions)
        } else if same_text(word, "open_long") {
            Some(Command::OpenLong)
        } else if same_text(word, "open_short") {
            Some(Command::OpenShort)
        } else if same_text(word, "open_limit") {
            Some(Command::OpenLimit)
        } else if same_text(word, "close_position") {
            Some(Command::ClosePosition)
        } else if same_text(word, "take_profit") {
            Some(Command::TakeProfit)
        } else if same_text(word, "stop_loss") {
            Some(Command::StopLoss)
        } else if same_text(word, "update_order") {
            Some(Command::UpdateOrder)
        } else if same_text(word, "cancel_order") {
            Some(Command::CancelOrder)
        } else if same_text(word, "swap") {
            Some(Command::Swap)
        } else if same_text(word, "deposit_collateral") {
            Some(Command::DepositCollateral)
        } else if same_text(word, "withdraw_collateral") {
            Some(Command::WithdrawCollateral)
        } else if same_text(word, "setup_wallet") {
            Some(Command::SetupWallet)
        } else if same_text(word, "create_limit_order") {
            Some(Command::CreateLimitOrder)
        } else {
            None
        }
    }

    /// How many words the command line must hold for this command.
    pub fn words_needed(&self) -> (n: usize)
        ensures
            n == words_needed(*self),
    {
        match self {
            Command::ListMarkets | Command::ListPositions => 2,
            Command::CancelOrder | Command::SetupWallet | Command::CreateLimitOrder => 3,
            Command::OpenLong | Command::OpenShort | Command::ClosePosition | Command::UpdateOrder
            | Command::DepositCollateral | Command::WithdrawCollateral => 5,
            Command::TakeProfit | Command::StopLoss | Command::Swap => 6,
            Command::OpenLimit => 7,
        }
    }

    /// Whether a command line of `words` words is long enough for this command.
    pub fn accepts(&self, words: usize) -> (ok: bool)
        ensures
            ok == (words >= words_needed(*self)),
    {
        words >= self.words_needed()
    }
}

} // verus!
