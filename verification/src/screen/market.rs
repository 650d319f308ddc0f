//! The market screen: buying a listed space and putting an owned one up
//! for sale.

use vstd::prelude::*;

use crate::client::RemoteError;
use crate::types::{
    all_digits, amount_from_str, dec_val, fee_rate_from_str, fee_rate_opt_matches, is_amount_input,
    is_fee_rate_input, is_valid_listing, parses_as_listing, valid_amount, valid_fee_rate, Amount,
    FeeRate,
};

verus! {

/// UI-local state of the market screen.
pub struct State {
    /// The pasted listing under consideration for a buy.
    pub listing: String,
    /// The owned space chosen for a sale.
    pub slabel: Option<String>,
    /// The asked price of the sale.
    pub price: String,
    pub fee_rate: String,
    /// The listing produced by the last successful sale, kept for copying.
    pub last_listing: Option<String>,
    pub error: Option<String>,
}

impl Default for State {
    fn default() -> (d: State)
        ensures
            d.listing@.len() == 0,
            d.slabel is None,
            d.price@.len() == 0,
            d.fee_rate@.len() == 0,
            d.last_listing is None,
            d.error is None,
    {
        State {
            listing: String::new(),
            slabel: None,
            price: String::new(),
            fee_rate: String::new(),
            last_listing: None,
            error: None,
        }
    }
}

pub enum Message {
    ListingInput(String),
    SLabelSelect(String),
    PriceInput(String),
    FeeRateInput(String),
    BuySubmit,
    SellSubmit,
    BuyResult(Result<(), RemoteError>),
    SellResult(Result<String, RemoteError>),
    CopyListingPress,
}

#[derive(Debug, PartialEq, Eq)]
pub enum Action {
    Nothing,
    Buy { listing: String, fee_rate: Option<FeeRate> },
    Sell { slabel: String, price: Amount },
    WriteClipboard(String),
    ShowTransactions,
}

/// Exactly how one message changes the screen and which action it
/// yields.
pub open spec fn update_rel(pre: State, message: Message, post: State, a: Action) -> bool {
    &&& post.error == (match message {
                Message::BuyResult(Err(RemoteError::Business { code, message: m })) => Some(m),
                Message::SellResult(Err(RemoteError::Business { code, message: m })) => Some(m),
                _ => None::<String>,
            })
    &&& post.listing@ == (match message {
                Message::ListingInput(s) => s@,
                _ => pre.listing@,
            })
    &&& post.slabel == (match message {
                Message::SLabelSelect(l) => Some(l),
                _ => pre.slabel,
            })
    &&& post.price@ == (match message {
                Message::PriceInput(s) => if all_digits(s@) {
                    s@
                } else {
                    pre.price@
                },
                _ => pre.price@,
            })
    &&& post.fee_rate@ == (match message {
                Message::FeeRateInput(s) => if all_digits(s@) {
                    s@
                } else {
                    pre.fee_rate@
                },
                _ => pre.fee_rate@,
            })
    &&& post.last_listing == (match message {
                Message::SellResult(Ok(l)) => Some(l),
                _ => pre.last_listing,
            })
    &&& match message {
                Message::BuySubmit => if parses_as_listing(pre.listing@) && valid_fee_rate(
                    pre.fee_rate@,
                ) {
                    a matches Action::Buy { listing, fee_rate } && listing == pre.listing
                        && fee_rate_opt_matches(pre.fee_rate@, fee_rate)
                } else {
                    a == Action::Nothing
                },
                Message::SellSubmit => (match pre.slabel {
                    Some(l) => if valid_amount(pre.price@) {
                        a matches Action::Sell { slabel, price } && slabel == l
                            && price.spec_sats() == dec_val(pre.price@)
                    } else {
                        a == Action::Nothing
                    },
                    None => a == Action::Nothing,
                }),
                Message::BuyResult(Ok(())) => a == Action::ShowTransactions,
                Message::CopyListingPress => a == (match pre.last_listing {
                    Some(l) => Action::WriteClipboard(l),
                    None => Action::Nothing,
                }),
                _ => a == Action::Nothing,
            }
}

impl State {
    pub fn set_error(&mut self, error: String)
        ensures
            final(self).error == Some(error),
            final(self).listing == old(self).listing,
            final(self).slabel == old(self).slabel,
            final(self).price == old(self).price,
            final(self).fee_rate == old(self).fee_rate,
            final(self).last_listing == old(self).last_listing,
    {
        self.error = Some(error);
    }

    /// Clears the transient inputs of the screen.
    pub fn reset_inputs(&mut self)
        ensures
            final(self).listing@ == Seq::<char>::empty(),
            final(self).slabel is None,
            final(self).price@ == Seq::<char>::empty(),
            final(self).fee_rate@ == Seq::<char>::empty(),
            final(self).last_listing == old(self).last_listing,
            final(self).error == old(self).error,
    {
        self.listing = String::new();
        self.slabel = None;
        self.price = String::new();
        self.fee_rate = String::new();
    }

    pub fn update(&mut self, message: Message) -> (a: Action)
        ensures
            update_rel(*old(self), message, *final(self), a),
    {
        self.error = None;
        match message {
            Message::ListingInput(listing) => {
                self.listing = listing;
                Action::Nothing
            }
            Message::SLabelSelect(slabel) => {
                self.slabel = Some(slabel);
                Action::Nothing
            }
            Message::PriceInput(price) => {
                if is_amount_input(price.as_str()) {
                    self.price = price;
                }
                Action::Nothing
            }
            Message::FeeRateInput(fee_rate) => {
                if is_fee_rate_input(fee_rate.as_str()) {
                    self.fee_rate = fee_rate;
                }
                Action::Nothing
            }
            Message::BuySubmit => {
                let fee_rate = fee_rate_from_str(self.fee_rate.as_str());
                if is_valid_listing(self.listing.as_str()) {
                    match fee_rate {
                        Some(fee_rate) => Action::Buy { listing: self.listing.clone(), fee_rate },
                        None => Action::Nothing,
                    }
                } else {
                    Action::Nothing
                }
            }
            Message::SellSubmit => {
                let price = amount_from_str(self.price.as_str());
                match (&self.slabel, price) {
                    (Some(slabel), Some(price)) => Action::Sell { slabel: slabel.clone(), price },
                    _ => Action::Nothing,
                }
            }
            Message::BuyResult(result) => {
                match result {
                    Ok(()) => Action::ShowTransactions,
                    Err(e) => {
                        match e {
                            RemoteError::Business { code: _, message: m } => {
                                self.error = Some(m);
                            }
                            RemoteError::System { message: _ } => {}
                        }
                        Action::Nothing
                    }
                }
            }
            Message::SellResult(result) => {
                match result {
                    Ok(listing) => {
                        self.last_listing = Some(listing);
                        Action::Nothing
                    }
                    Err(e) => {
                        match e {
                            RemoteError::Business { code: _, message: m } => {
                                self.error = Some(m);
                            }
                            RemoteError::System { message: _ } => {}
                        }
                        Action::Nothing
                    }
                }
            }
            Message::CopyListingPress => {
                match &self.last_listing {
                    Some(l) => Action::WriteClipboard(l.clone()),
                    None => Action::Nothing,
                }
            }
        }
    }
}

} // verus!
