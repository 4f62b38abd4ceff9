//! Waiting for answers: a client forgets what was kept for the answer's
//! message type, sends its request, and then looks for the answer up to 50
//! times, a tenth of a second apart. The sleeping between two looks is the
//! caller's part.

use crate::command::{Command, Frame, MessageType};
use crate::commands::frame_of;
use crate::error::ZigateError;
use crate::responses::{Response, VersionList};
use crate::zigate::{Zigate, ZigateState};
use vstd::prelude::*;

verus! {

broadcast use vstd::std_specs::hash::group_hash_axioms;

/// How often a client looks for an awaited answer before it gives up.
pub const POLLS: u8 = 50;

/// The budget of one wait: how many looks are left.
#[derive(Clone, Copy, Debug, PartialEq, Eq, Structural)]
pub struct Wait {
    pub polls_left: u8,
}

impl Wait {
    /// The budget of a wait that has not begun: 50 looks.
    pub open spec fn fresh() -> Wait {
        Wait { polls_left: POLLS }
    }

    /// Whether the next look is the last: if it finds nothing, the wait
    /// times out.
    pub open spec fn at_last_look(self) -> bool {
        self.polls_left <= 1
    }

    /// The budget after a look that found nothing.
    pub open spec fn spent(self) -> Wait {
        if self.polls_left > 1 {
            Wait { polls_left: (self.polls_left - 1) as u8 }
        } else {
            Wait { polls_left: 0 }
        }
    }

    /// The budget after `looks` looks that found nothing.
    pub open spec fn after(self, looks: nat) -> Wait
        decreases looks,
    {
        if looks == 0 {
            self
        } else {
            self.after((looks - 1) as nat).spent()
        }
    }

    /// The budget of a wait that has not begun: 50 looks.
    pub fn new() -> (wait: Wait)
        ensures
            wait == Wait::fresh(),
    {
        Wait { polls_left: POLLS }
    }

    /// Spends one look that found nothing. The wait goes on while looks are
    /// left and times out with the last.
    fn spend(&mut self) -> (r: Result<(), ZigateError>)
        ensures
            *final(self) == old(self).spent(),
            match r {
                Ok(_) => !old(self).at_last_look(),
                Err(e) => old(self).at_last_look() && e == ZigateError::Timeout,
            },
    {
        if self.polls_left > 1 {
            self.polls_left = self.polls_left - 1;
            Ok(())
        } else {
            self.polls_left = 0;
            Err(ZigateError::Timeout)
        }
    }
}

/// A wait is bounded. A wait that has not begun goes on through 49 looks
/// that find nothing, with one look fewer left after each, and times out
/// with the 50th.
pub proof fn lemma_wait_is_bounded(looks: nat)
    ensures
        looks < 49 ==> !Wait::fresh().after(looks).at_last_look(),
        looks <= 49 ==> Wait::fresh().after(looks).polls_left == 50 - looks,
        looks >= 49 ==> Wait::fresh().after(looks).at_last_look(),
    decreases looks,
{
    if looks > 0 {
        lemma_wait_is_bounded((looks - 1) as nat);
    }
}

/// The digit for a number below 10.
pub open spec fn digit(d: nat) -> char {
    (('0' as u8) + d) as u8 as char
}

/// A number in decimal, without leading zeros.
pub open spec fn decimal(n: nat) -> Seq<char>
    decreases n,
{
    if n < 10 {
        seq![digit(n)]
    } else {
        decimal(n / 10).push(digit(n % 10))
    }
}

/// The firmware version as text: major and installer version in decimal
/// with a dot between them.
pub open spec fn version_text(v: VersionList) -> Seq<char> {
    decimal(v.major as nat) + seq!['.'] + decimal(v.installer as nat)
}

/// `format!` of `std`, with two unsigned integers as `{}` and a dot between
/// them: each is written in decimal without leading zeros.
#[verifier::external_body]
fn format_version(major: u16, installer: u16) -> (text: String)
    ensures
        text@ == decimal(major as nat) + seq!['.'] + decimal(installer as nat),
{
    format!("{}.{}", major, installer)
}

/// What a client does first when it wants the firmware version.
#[derive(Debug)]
pub enum VersionStep {
    /// The version is known: nothing is sent.
    Known(String),
    /// The version is not known: this command asks the module for it.
    Ask(Command),
}

impl ZigateState {
    /// The state after a client forgot what was kept for a message type.
    pub open spec fn forgotten(self, msg_type: u16) -> ZigateState {
        ZigateState {
            last_resp: self.last_resp.remove(msg_type),
            last_status: self.last_status.remove(msg_type),
            ..self
        }
    }

    /// The state after a client took the latest frame of a message type.
    pub open spec fn taken(self, msg_type: u16) -> ZigateState {
        ZigateState { last_resp: self.last_resp.remove(msg_type), ..self }
    }

    /// What is kept for a message type: the latest frame of the type, or
    /// else the latest acknowledgement for it, if there is either.
    pub open spec fn kept(self, msg_type: u16) -> Option<Frame> {
        if self.last_resp.contains_key(msg_type) {
            Some(self.last_resp[msg_type])
        } else if self.last_status.contains_key(msg_type) {
            Some(self.last_status[msg_type])
        } else {
            None
        }
    }
}

impl Zigate {
    /// Forgets the latest frame and the latest acknowledgement kept for a
    /// message type, so that an answer seen afterwards is a new one. Hands
    /// back the frame, or else the acknowledgement, if one was kept.
    pub fn remove_last_response(&mut self, msg_type: &MessageType) -> (last: Option<Command>)
        ensures
            final(self)@ == old(self)@.forgotten(msg_type.spec_code()),
            old(self)@.wf() ==> final(self)@.wf(),
            match old(self)@.kept(msg_type.spec_code()) {
                Some(f) => last is Some && last->Some_0@ == f,
                None => last is None,
            },
    {
        let key = msg_type.code();
        let last_status = self.last_status.remove(&key);
        let last_resp = self.last_resp.remove(&key);
        assert(self@.last_resp =~= old(self)@.last_resp.remove(key));
        assert(self@.last_status =~= old(self)@.last_status.remove(key));
        match last_resp {
            Some(last_resp) => Some(last_resp),
            None => last_status,
        }
    }

    /// Looks once for the latest frame of a message type. A frame that is
    /// there is taken and handed over. Where none is there, the wait goes
    /// on (`Ok(None)`: look again after a tenth of a second) while looks are
    /// left, and times out with the last.
    pub fn wait_for_response(&mut self, msg_type: &MessageType, wait: &mut Wait) -> (r: Result<
        Option<Command>,
        ZigateError,
    >)
        ensures
            old(self)@.wf() ==> final(self)@.wf(),
            match r {
                Ok(Some(cmd)) => {
                    &&& old(self)@.last_resp.contains_key(msg_type.spec_code())
                    &&& cmd@ == old(self)@.last_resp[msg_type.spec_code()]
                    &&& final(self)@ == old(self)@.taken(msg_type.spec_code())
                    &&& *final(wait) == *old(wait)
                },
                Ok(None) => {
                    &&& !old(self)@.last_resp.contains_key(msg_type.spec_code())
                    &&& final(self)@ == old(self)@
                    &&& !old(wait).at_last_look()
                    &&& *final(wait) == old(wait).spent()
                },
                Err(e) => {
                    &&& e == ZigateError::Timeout
                    &&& !old(self)@.last_resp.contains_key(msg_type.spec_code())
                    &&& final(self)@ == old(self)@
                    &&& old(wait).at_last_look()
                    &&& *final(wait) == old(wait).spent()
                },
            },
    {
        let key = msg_type.code();
        match self.last_resp.remove(&key) {
            Some(cmd) => {
                assert(self@.last_resp =~= old(self)@.last_resp.remove(key));
                Ok(Some(cmd))
            },
            None => {
                assert(self@.last_resp =~= old(self)@.last_resp);
                wait.spend()?;
                Ok(None)
            },
        }
    }

    /// Looks once whether the discovery still awaits answers. `Ok(true)`
    /// where it awaits none. Where it does, the wait goes on (`Ok(false)`:
    /// look again after a tenth of a second) while looks are left; with the
    /// last it times out, and the answers still awaited are given up.
    pub fn wait_for_responses(&mut self, wait: &mut Wait) -> (r: Result<bool, ZigateError>)
        ensures
            old(self)@.wf() ==> final(self)@.wf(),
            match r {
                Ok(done) => {
                    &&& final(self)@ == old(self)@
                    &&& done == (old(self).exp_resp == 0)
                    &&& done ==> *final(wait) == *old(wait)
                    &&& !done ==> !old(wait).at_last_look() && *final(wait) == old(wait).spent()
                },
                Err(e) => {
                    &&& e == ZigateError::Timeout
                    &&& old(self).exp_resp != 0
                    &&& final(self)@ == (ZigateState { exp_resp: 0, ..old(self)@ })
                    &&& old(wait).at_last_look()
                    &&& *final(wait) == old(wait).spent()
                },
            },
    {
        if self.exp_resp == 0 {
            return Ok(true);
        }
        match wait.spend() {
            Ok(_) => Ok(false),
            Err(e) => {
                self.exp_resp = 0;
                Err(e)
            },
        }
    }

    /// The first step of asking for the firmware version. Where the version
    /// is known, it is handed over and nothing is to be sent. Where it is
    /// not, what was kept for the answer's message type is forgotten and the
    /// command that asks for the version is handed over.
    pub fn begin_get_version(&mut self) -> (step: VersionStep)
        ensures
            old(self)@.wf() ==> final(self)@.wf(),
            match old(self)@.version {
                Some(text) => {
                    &&& step matches VersionStep::Known(known) && known@ == text
                    &&& final(self)@ == old(self)@
                },
                None => {
                    &&& step matches VersionStep::Ask(cmd) && cmd@ == frame_of(
                        MessageType::GetVersion,
                        Seq::empty(),
                    )
                    &&& final(self)@ == old(self)@.forgotten(MessageType::VersionList.spec_code())
                },
            },
    {
        if let Some(version) = &self.version {
            return VersionStep::Known(version.clone());
        }
        self.remove_last_response(&MessageType::VersionList);
        VersionStep::Ask(crate::commands::get_version())
    }

    /// The last step of asking for the firmware version: what the wait for
    /// the answer brought is turned into the version text, which is kept for
    /// later calls. No answer is a timeout; an answer that cannot be decoded
    /// is a decode failure; either leaves the state as it is.
    pub fn get_version(&mut self, answer: Option<Command>) -> (r: Result<String, ZigateError>)
        ensures
            old(self)@.wf() ==> final(self)@.wf(),
            match answer {
                None => {
                    &&& r == Err::<String, ZigateError>(ZigateError::Timeout)
                    &&& final(self)@ == old(self)@
                },
                Some(cmd) => match VersionList::parse(cmd@) {
                    Some(v) => {
                        &&& r is Ok && r->Ok_0@ == version_text(v)
                        &&& final(self)@ == (ZigateState {
                            version: Some(version_text(v)),
                            ..old(self)@
                        })
                    },
                    None => {
                        &&& r == Err::<String, ZigateError>(ZigateError::DecodeFailure)
                        &&& final(self)@ == old(self)@
                    },
                },
            },
    {
        match answer {
            Some(cmd) => {
                let version_list = VersionList::from_command(&cmd)?;
                let version = format_version(version_list.major, version_list.installer);
                self.version = Some(version.clone());
                Ok(version)
            },
            None => Err(ZigateError::Timeout),
        }
    }
}

} // verus!
