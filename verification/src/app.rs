//! The application's two-phase lifecycle: setup until an endpoint and a
//! wallet are bound, then the main page; an explicit backend reset leads
//! back to setup.  The update step owns the state and hands back the
//! commands for the host to perform.

use vstd::prelude::*;

use crate::client::Command;
use crate::config::Config;
use crate::pages::{main, setup};

verus! {

/// Which phase the application is in.
pub enum State {
    Setup(setup::State),
    Main(main::State),
}

/// A message for whichever phase it belongs to.
pub enum Message {
    Setup(setup::Message),
    Main(main::Message),
}

impl State {
    pub open spec fn wf(self) -> bool {
        match self {
            State::Setup(_) => true,
            State::Main(ms) => ms.wf(),
        }
    }
}

/// Exactly how one lifecycle step behaves: each phase's reducer runs on
/// its own messages; a `Return` from setup persists the configuration and
/// enters the main page, a `Return` from the main page goes back to
/// setup; a message for the other phase is dropped.
pub open spec fn update_rel(pre: State, message: Message, post: State, cmds: Seq<Command>) -> bool {
    match (pre, message) {
        (State::Setup(s), Message::Setup(m)) => exists|s2: setup::State, act: setup::Action|
            {
                &&& #[trigger] setup::update_rel(s, m, s2, act)
                &&& match act {
                    setup::Action::Return(config) => {
                        &&& post matches State::Main(ms) && main::spec_init(ms, config)
                        &&& main::cmd_specs(cmds) =~= seq![
                            main::CmdSpec::SaveConfig(config),
                            main::CmdSpec::GetServerInfo,
                            main::CmdSpec::ListWallets,
                        ]
                    },
                    setup::Action::Task(v) => post == State::Setup(s2) && cmds == v@,
                }
            },
        (State::Main(ms), Message::Main(m)) => exists|m2: main::State, act: main::Action|
            {
                &&& #[trigger] main::update_rel(ms, m, m2, act)
                &&& match act {
                    main::Action::Return(config) => {
                        &&& post matches State::Setup(ss) && setup::spec_init(ss, config)
                        &&& cmds =~= Seq::empty()
                    },
                    main::Action::Task(v) => post == State::Main(m2) && cmds == v@,
                }
            },
        _ => post == pre && cmds =~= Seq::empty(),
    }
}

impl State {
    /// Starts the application on the setup page; a configuration read
    /// from disk is connected to at once, and the resulting message is
    /// fed back through `update`.
    pub fn run(config: Config, config_existing: bool) -> (r: (State, Option<Message>))
        ensures
            r.0.wf(),
            (r.0 matches State::Setup(s) && setup::spec_init(s, config)),
            config_existing ==> r.1 == Some(Message::Setup(setup::Message::Connect)),
            !config_existing ==> r.1 is None,
    {
        let (state, msg) = setup::State::run(config, config_existing);
        match msg {
            Some(m) => (State::Setup(state), Some(Message::Setup(m))),
            None => (State::Setup(state), None),
        }
    }

    /// One lifecycle step.
    pub fn update(self, message: Message) -> (r: (State, Vec<Command>))
        requires
            self.wf(),
        ensures
            r.0.wf(),
            update_rel(self, message, r.0, r.1@),
    {
        match (self, message) {
            (State::Setup(mut s), Message::Setup(m)) => {
                let ghost gm = m;
                let act = s.update(m);
                let ghost g_act = act;
                let ghost g_s2 = s;
                match act {
                    setup::Action::Return(config) => {
                        let cfg_copy = config.snapshot();
                        let (ms, mut boot) = main::State::run(config);
                        let mut cmds = vec![Command::SaveConfig { config: cfg_copy }];
                        let ghost first = cmds@;
                        let ghost second = boot@;
                        cmds.append(&mut boot);
                        proof {
                            assert(cmds@ == first + second);
                            main::lemma_cmd_specs_concat(first, second);
                            assert(main::cmd_specs(cmds@) =~= seq![
                                main::CmdSpec::SaveConfig(ms.config),
                                main::CmdSpec::GetServerInfo,
                                main::CmdSpec::ListWallets,
                            ]);
                        }
                        (State::Main(ms), cmds)
                    }
                    setup::Action::Task(v) => (State::Setup(s), v),
                }
            }
            (State::Main(mut ms), Message::Main(m)) => {
                let ghost gm = m;
                let act = ms.update(m);
                let ghost g_act = act;
                let ghost g_m2 = ms;
                match act {
                    main::Action::Return(config) => {
                        let (ss, _ignored) = setup::State::run(config, false);
                        (State::Setup(ss), Vec::new())
                    }
                    main::Action::Task(v) => (State::Main(ms), v),
                }
            }
            (other, _) => (other, Vec::new()),
        }
    }
}

} // verus!
