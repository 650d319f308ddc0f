//! The sign screen: signing a loaded event file with an owned space.

use vstd::prelude::*;

verus! {

/// UI-local state of the sign screen.
pub struct State {
    /// The owned space chosen to sign with.
    pub slabel: Option<String>,
    /// The loaded event: the file's path and its contents.
    pub event: Option<(String, String)>,
    pub error: Option<String>,
}

impl Default for State {
    fn default() -> (d: State)
        ensures
            d.slabel is None,
            d.event is None,
            d.error is None,
    {
        State { slabel: None, event: None, error: None }
    }
}

pub enum Message {
    SLabelSelect(String),
    FilePickPress,
    /// The host finished the file dialog: no file, or a path with the
    /// parsed event text, or a local failure to read or parse.
    EventFileLoaded(Result<Option<(String, String)>, String>),
    SignSubmit,
    EventFileSaved(Result<(), String>),
}

#[derive(Debug, PartialEq, Eq)]
pub enum Action {
    Nothing,
    FilePick,
    Sign { slabel: String, event: String },
}

/// Exactly how one message changes the screen and which action it
/// yields.
pub open spec fn update_rel(pre: State, message: Message, post: State, a: Action) -> bool {
    &&& post.error == (match message {
                Message::EventFileLoaded(Err(m)) => Some(m),
                Message::EventFileSaved(Err(m)) => Some(m),
                _ => None::<String>,
            })
    &&& post.slabel == (match message {
                Message::SLabelSelect(l) => Some(l),
                _ => pre.slabel,
            })
    &&& post.event == (match message {
                Message::EventFileLoaded(Ok(Some(loaded))) => Some(loaded),
                Message::EventFileSaved(Ok(())) => None::<(String, String)>,
                _ => pre.event,
            })
    &&& match message {
                Message::FilePickPress => a == Action::FilePick,
                Message::SignSubmit => (match (pre.slabel, pre.event) {
                    (Some(l), Some(e)) => a matches Action::Sign { slabel, event } && slabel == l
                        && event == e.1,
                    _ => a == Action::Nothing,
                }),
                _ => a == Action::Nothing,
            }
}

impl State {
    pub fn set_error(&mut self, error: String)
        ensures
            final(self).error == Some(error),
            final(self).slabel == old(self).slabel,
            final(self).event == old(self).event,
    {
        self.error = Some(error);
    }

    /// Clears the transient inputs of the screen.
    pub fn reset_inputs(&mut self)
        ensures
            final(self).slabel is None,
            final(self).event is None,
            final(self).error == old(self).error,
    {
        self.slabel = None;
        self.event = None;
    }

    pub fn update(&mut self, message: Message) -> (a: Action)
        ensures
            update_rel(*old(self), message, *final(self), a),
    {
        self.error = None;
        match message {
            Message::SLabelSelect(slabel) => {
                self.slabel = Some(slabel);
                Action::Nothing
            }
            Message::FilePickPress => Action::FilePick,
            Message::EventFileLoaded(result) => {
                match result {
                    Ok(loaded) => {
                        match loaded {
                            Some(loaded) => {
                                self.event = Some(loaded);
                            }
                            None => {}
                        }
                    }
                    Err(m) => {
                        self.error = Some(m);
                    }
                }
                Action::Nothing
            }
            Message::SignSubmit => {
                match (&self.slabel, &self.event) {
                    (Some(slabel), Some(event)) => Action::Sign {
                        slabel: slabel.clone(),
                        event: event.1.clone(),
                    },
                    _ => Action::Nothing,
                }
            }
            Message::EventFileSaved(result) => {
                match result {
                    Ok(()) => {
                        self.event = None;
                    }
                    Err(m) => {
                        self.error = Some(m);
                    }
                }
                Action::Nothing
            }
        }
    }
}

} // verus!
