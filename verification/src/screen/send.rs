//! The send screen: coins or a space to a recipient.

use vstd::prelude::*;

use crate::client::RemoteError;
use crate::types::{
    all_digits, amount_from_str, dec_val, fee_rate_from_str, is_amount_input, is_recipient_input,
    is_fee_rate_input, recipient_from_str, valid_amount, valid_fee_rate, valid_recipient, AddressKind,
    Amount, FeeRate,
};

verus! {

/// UI-local state of the send screen.
pub struct State {
    /// Whether coins or a space are being sent.
    pub asset_kind: AddressKind,
    pub recipient: String,
    pub amount: String,
    /// The owned space chosen for sending, if any.
    pub slabel: Option<String>,
    pub fee_rate: String,
    pub error: Option<String>,
}

impl Default for State {
    fn default() -> (d: State)
        ensures
            d.asset_kind is Coin,
            d.recipient@.len() == 0,
            d.amount@.len() == 0,
            d.slabel is None,
            d.fee_rate@.len() == 0,
            d.error is None,
    {
        State {
            asset_kind: AddressKind::Coin,
            recipient: String::new(),
            amount: String::new(),
            slabel: None,
            fee_rate: String::new(),
            error: None,
        }
    }
}

pub enum Message {
    TabPress(AddressKind),
    RecipientInput(String),
    AmountInput(String),
    SLabelSelect(String),
    FeeRateInput(String),
    SendCoinsSubmit,
    SendSpaceSubmit,
    ClientResult(Result<(), RemoteError>),
}

#[derive(Debug, PartialEq, Eq)]
pub enum Action {
    Nothing,
    SendCoins { recipient: String, amount: Amount, fee_rate: Option<FeeRate> },
    SendSpace { recipient: String, slabel: String, fee_rate: Option<FeeRate> },
    ShowTransactions,
}

/// All fields of the coin form parse, so submission is enabled.
pub open spec fn coins_form_complete(s: State) -> bool {
    valid_recipient(s.recipient@) && valid_amount(s.amount@) && valid_fee_rate(s.fee_rate@)
}

/// All fields of the space form parse, so submission is enabled.
pub open spec fn space_form_complete(s: State) -> bool {
    valid_recipient(s.recipient@) && s.slabel is Some && valid_fee_rate(s.fee_rate@)
}

/// Exactly how one message changes the screen and which action it
/// yields.
pub open spec fn update_rel(pre: State, message: Message, post: State, a: Action) -> bool {
    &&& post.error == (match message {
                Message::ClientResult(Err(RemoteError::Business { code, message: m })) => Some(m),
                _ => None::<String>,
            })
    &&& post.asset_kind == (match message {
                Message::TabPress(k) => k,
                _ => pre.asset_kind,
            })
    &&& post.recipient@ == (match message {
                Message::RecipientInput(s) => if crate::types::recipient_input_chars(s@) {
                    s@
                } else {
                    pre.recipient@
                },
                Message::ClientResult(Ok(())) => Seq::<char>::empty(),
                _ => pre.recipient@,
            })
    &&& post.amount@ == (match message {
                Message::AmountInput(s) => if all_digits(s@) {
                    s@
                } else {
                    pre.amount@
                },
                Message::TabPress(k) => Seq::<char>::empty(),
                Message::ClientResult(Ok(())) => Seq::<char>::empty(),
                _ => pre.amount@,
            })
    &&& post.slabel == (match message {
                Message::SLabelSelect(l) => Some(l),
                Message::TabPress(k) => None::<String>,
                Message::ClientResult(Ok(())) => None::<String>,
                _ => pre.slabel,
            })
    &&& post.fee_rate@ == (match message {
                Message::FeeRateInput(s) => if all_digits(s@) {
                    s@
                } else {
                    pre.fee_rate@
                },
                Message::ClientResult(Ok(())) => Seq::<char>::empty(),
                _ => pre.fee_rate@,
            })
    &&& match message {
                Message::SendCoinsSubmit => if coins_form_complete(pre) {
                    a matches Action::SendCoins { recipient, amount, fee_rate } && recipient@
                        == pre.recipient@ && amount.spec_sats() == dec_val(pre.amount@)
                        && crate::types::fee_rate_opt_matches(pre.fee_rate@, fee_rate)
                } else {
                    a == Action::Nothing
                },
                Message::SendSpaceSubmit => if space_form_complete(pre) {
                    a matches Action::SendSpace { recipient, slabel, fee_rate } && recipient@
                        == pre.recipient@ && Some(slabel) == pre.slabel
                        && crate::types::fee_rate_opt_matches(pre.fee_rate@, fee_rate)
                } else {
                    a == Action::Nothing
                },
                Message::ClientResult(Ok(())) => a == Action::ShowTransactions,
                _ => a == Action::Nothing,
            }
}

impl State {
    pub fn set_error(&mut self, message: String)
        ensures
            final(self).error == Some(message),
            final(self).asset_kind == old(self).asset_kind,
            final(self).recipient == old(self).recipient,
            final(self).amount == old(self).amount,
            final(self).slabel == old(self).slabel,
            final(self).fee_rate == old(self).fee_rate,
    {
        self.error = Some(message);
    }

    /// Clears the transient inputs of the screen.
    pub fn reset_inputs(&mut self)
        ensures
            final(self).recipient@ == Seq::<char>::empty(),
            final(self).amount@ == Seq::<char>::empty(),
            final(self).slabel is None,
            final(self).fee_rate@ == Seq::<char>::empty(),
            final(self).asset_kind == old(self).asset_kind,
            final(self).error == old(self).error,
    {
        self.recipient = String::new();
        self.amount = String::new();
        self.slabel = None;
        self.fee_rate = String::new();
    }

    pub fn update(&mut self, message: Message) -> (a: Action)
        ensures
            update_rel(*old(self), message, *final(self), a),
    {
        self.error = None;
        match message {
            Message::TabPress(asset_kind) => {
                self.asset_kind = asset_kind;
                self.amount = String::new();
                self.slabel = None;
                Action::Nothing
            }
            Message::RecipientInput(recipient) => {
                if is_recipient_input(recipient.as_str()) {
                    self.recipient = recipient;
                }
                Action::Nothing
            }
            Message::AmountInput(amount) => {
                if is_amount_input(amount.as_str()) {
                    self.amount = amount;
                }
                Action::Nothing
            }
            Message::SLabelSelect(slabel) => {
                self.slabel = Some(slabel);
                Action::Nothing
            }
            Message::FeeRateInput(fee_rate) => {
                if is_fee_rate_input(fee_rate.as_str()) {
                    self.fee_rate = fee_rate;
                }
                Action::Nothing
            }
            Message::SendCoinsSubmit => {
                let recipient = recipient_from_str(self.recipient.as_str());
                let amount = amount_from_str(self.amount.as_str());
                let fee_rate = fee_rate_from_str(self.fee_rate.as_str());
                match (recipient, amount, fee_rate) {
                    (Some(recipient), Some(amount), Some(fee_rate)) => Action::SendCoins {
                        recipient,
                        amount,
                        fee_rate,
                    },
                    _ => Action::Nothing,
                }
            }
            Message::SendSpaceSubmit => {
                let recipient = recipient_from_str(self.recipient.as_str());
                let fee_rate = fee_rate_from_str(self.fee_rate.as_str());
                match (recipient, &self.slabel, fee_rate) {
                    (Some(recipient), Some(slabel), Some(fee_rate)) => Action::SendSpace {
                        recipient,
                        slabel: slabel.clone(),
                        fee_rate,
                    },
                    _ => Action::Nothing,
                }
            }
            Message::ClientResult(result) => {
                match result {
                    Ok(()) => {
                        self.reset_inputs();
                        Action::ShowTransactions
                    }
                    Err(e) => {
                        match e {
                            RemoteError::Business { code: _, message: m } => {
                                self.error = Some(m);
                            }
                            RemoteError::System { message: _ } => {}
                        }
                        Action::Nothing
                    }
                }
            }
        }
    }
}

} // verus!
