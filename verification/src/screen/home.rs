//! The home screen: balance, transaction history, and the fee-bump form.

use vstd::prelude::*;

use crate::client::RemoteError;
use crate::types::{
    all_digits, dec_val, is_fee_rate_input, fee_rate_from_str, valid_fee_rate, FeeRate,
};

verus! {

/// UI-local state of the home screen.
pub struct State {
    /// The transaction a fee bump is being typed for, if any.
    pub txid: Option<String>,
    /// How many history rows to request.
    pub transactions_limit: usize,
    /// The fee-bump form's fee-rate field.
    pub fee_rate: String,
    /// The screen's local error line.
    pub error: Option<String>,
}

impl Default for State {
    fn default() -> (d: State)
        ensures
            d.txid is None,
            d.transactions_limit == 10,
            d.fee_rate@.len() == 0,
            d.error is None,
    {
        State { txid: None, transactions_limit: 10, fee_rate: String::new(), error: None }
    }
}

pub enum Message {
    SpacePress { slabel: String },
    /// The history list was scrolled; the offset comes in thousandths of
    /// the scrollable height.
    TxsListScrolled { permille: u32, count: usize },
    BumpFeePress { txid: String },
    FeeRateInput(String),
    BumpFeeSubmit,
    BumpFeeResult(Result<(), RemoteError>),
}

#[derive(Debug, PartialEq, Eq)]
pub enum Action {
    Nothing,
    ShowSpace { slabel: String },
    GetTransactions,
    BumpFee { txid: String, fee_rate: FeeRate },
}

/// The enlarged history window after scrolling near the end of the list.
pub open spec fn scrolled_limit(limit: usize, permille: u32, count: usize) -> int {
    if limit + permille * count / 1000 > usize::MAX {
        usize::MAX as int
    } else {
        limit + permille * count / 1000
    }
}

/// Exactly how one message changes the screen and which action it
/// yields.
pub open spec fn update_rel(pre: State, message: Message, post: State, a: Action) -> bool {
    &&& post.transactions_limit == (match message {
                Message::TxsListScrolled { permille, count } => if permille > 800 && count
                    >= pre.transactions_limit {
                    scrolled_limit(pre.transactions_limit, permille, count)
                } else {
                    pre.transactions_limit as int
                },
                _ => pre.transactions_limit as int,
            })
    &&& post.txid == (match message {
                Message::BumpFeePress { txid } => Some(txid),
                Message::BumpFeeResult(Ok(())) => None::<String>,
                _ => pre.txid,
            })
    &&& post.fee_rate@ == (match message {
                Message::FeeRateInput(s) => if all_digits(s@) {
                    s@
                } else {
                    pre.fee_rate@
                },
                _ => pre.fee_rate@,
            })
    &&& post.error == (match message {
                Message::BumpFeeResult(Err(RemoteError::Business { code, message: m })) => Some(m),
                _ => None::<String>,
            })
    &&& match message {
                Message::SpacePress { slabel } => a == (Action::ShowSpace { slabel }),
                Message::TxsListScrolled { permille, count } => a == (if permille > 800 && count
                    >= pre.transactions_limit {
                    Action::GetTransactions
                } else {
                    Action::Nothing
                }),
                Message::BumpFeeSubmit => (match pre.txid {
                    Some(t) => if pre.fee_rate@.len() > 0 && valid_fee_rate(
                        pre.fee_rate@,
                    ) {
                        a matches Action::BumpFee { txid, fee_rate } && txid == t
                            && fee_rate.spec_sat_per_vb() == dec_val(pre.fee_rate@)
                    } else {
                        a == Action::Nothing
                    },
                    None => a == Action::Nothing,
                }),
                Message::BumpFeeResult(Ok(())) => a == Action::GetTransactions,
                _ => a == Action::Nothing,
            }
}

impl State {
    pub fn set_error(&mut self, error: String)
        ensures
            final(self).error == Some(error),
            final(self).txid == old(self).txid,
            final(self).transactions_limit == old(self).transactions_limit,
            final(self).fee_rate == old(self).fee_rate,
    {
        self.error = Some(error);
    }

    pub fn reset_inputs(&mut self)
        ensures
            final(self).fee_rate@ == Seq::<char>::empty(),
            final(self).txid == old(self).txid,
            final(self).transactions_limit == old(self).transactions_limit,
            final(self).error == old(self).error,
    {
        self.fee_rate = String::new();
    }

    /// Clears the transient inputs of the screen; cached remote data is
    /// untouched, since none lives here.
    pub fn reset(&mut self)
        ensures
            final(self).txid is None,
            final(self).fee_rate@ == Seq::<char>::empty(),
            final(self).transactions_limit == old(self).transactions_limit,
            final(self).error == old(self).error,
    {
        self.txid = None;
        self.reset_inputs();
    }

    pub fn get_transactions_limit(&self) -> (r: usize)
        ensures
            r == self.transactions_limit,
    {
        self.transactions_limit
    }

    pub fn update(&mut self, message: Message) -> (a: Action)
        ensures
            update_rel(*old(self), message, *final(self), a),
    {
        self.error = None;
        match message {
            Message::SpacePress { slabel } => Action::ShowSpace { slabel },
            Message::TxsListScrolled { permille, count } => {
                if permille > 800 && count >= self.transactions_limit {
                    let p: u128 = permille as u128;
                    let c: u128 = count as u128;
                    proof {
                        assert(p * c <= 0xffff_ffffu128 * 0xffff_ffff_ffff_ffffu128)
                            by (nonlinear_arith)
                            requires
                                p <= 0xffff_ffffu128,
                                c <= 0xffff_ffff_ffff_ffffu128,
                        ;
                    }
                    let inc: u128 = p * c / 1000;
                    let widened: u128 = self.transactions_limit as u128 + inc;
                    self.transactions_limit = if widened > usize::MAX as u128 {
                        usize::MAX
                    } else {
                        widened as usize
                    };
                    Action::GetTransactions
                } else {
                    Action::Nothing
                }
            }
            Message::BumpFeePress { txid } => {
                self.txid = Some(txid);
                Action::Nothing
            }
            Message::FeeRateInput(fee_rate) => {
                if is_fee_rate_input(fee_rate.as_str()) {
                    self.fee_rate = fee_rate;
                }
                Action::Nothing
            }
            Message::BumpFeeSubmit => {
                let parsed = fee_rate_from_str(self.fee_rate.as_str());
                match (&self.txid, parsed) {
                    (Some(t), Some(Some(f))) => Action::BumpFee { txid: t.clone(), fee_rate: f },
                    _ => Action::Nothing,
                }
            }
            Message::BumpFeeResult(result) => {
                match result {
                    Ok(()) => {
                        self.txid = None;
                        Action::GetTransactions
                    }
                    Err(e) => {
                        match e {
                            RemoteError::Business { code: _, message: m } => {
                                self.error = Some(m);
                            }
                            RemoteError::System { message: _ } => {}
                        }
                        Action::Nothing
                    }
                }
            }
        }
    }
}

} // verus!
