//! The sub-actions that a route accepts, as closed sets of variants.

use vstd::prelude::*;
use crate::text::same_text;

verus! {

/// What may be asked of the service manager for one service.
#[derive(Debug, Clone, Copy, PartialEq, Eq, Structural)]
pub enum ServiceAction {
    Start,
    Stop,
    Restart,
}

impl ServiceAction {
    /// The word that stands for this action in a route and on the command
    /// line.
    pub open spec fn word(self) -> Seq<char> {
        match self {
            ServiceAction::Start => "start"@,
            ServiceAction::Stop => "stop"@,
            ServiceAction::Restart => "restart"@,
        }
    }

    /// The action that `text` stands for, if it is one of the three words.
    pub open spec fn parse_spec(text: Seq<char>) -> Option<ServiceAction> {
        if text == "start"@ {
            Some(ServiceAction::Start)
        } else if text == "stop"@ {
            Some(ServiceAction::Stop)
        } else if text == "restart"@ {
            Some(ServiceAction::Restart)
        } else {
            None
        }
    }

    /// The action that `text` stands for, if it is one of the three words.
    pub fn parse(text: &str) -> (r: Option<ServiceAction>)
        ensures
            r == ServiceAction::parse_spec(text@),
    {
        if same_text(text, "start") {
            Some(ServiceAction::Start)
        } else if same_text(text, "stop") {
            Some(ServiceAction::Stop)
        } else if same_text(text, "restart") {
            Some(ServiceAction::Restart)
        } else {
            None
        }
    }

    /// The word that stands for this action.
    pub fn as_str(self) -> (r: &'static str)
        ensures
            r@ == self.word(),
    {
        match self {
            ServiceAction::Start => "start",
            ServiceAction::Stop => "stop",
            ServiceAction::Restart => "restart",
        }
    }

    /// A text is read as an action exactly when it is that action's word.
    pub proof fn lemma_parse_word(text: Seq<char>, action: ServiceAction)
        ensures
            ServiceAction::parse_spec(text) == Some(action) <==> text == action.word(),
    {
        reveal_strlit("start");
        reveal_strlit("stop");
        reveal_strlit("restart");
        assert("start"@.len() == 5 && "stop"@.len() == 4 && "restart"@.len() == 7);
    }
}

/// What may be asked of the NAT switch.
#[derive(Debug, Clone, Copy, PartialEq, Eq, Structural)]
pub enum NatAction {
    On,
    Off,
}

impl NatAction {
    /// The word that stands for this action in a route and on the command
    /// line.
    pub open spec fn word(self) -> Seq<char> {
        match self {
            NatAction::On => "on"@,
            NatAction::Off => "off"@,
        }
    }

    /// The action that `text` stands for, if it is one of the two words.
    pub open spec fn parse_spec(text: Seq<char>) -> Option<NatAction> {
        if text == "on"@ {
            Some(NatAction::On)
        } else if text == "off"@ {
            Some(NatAction::Off)
        } else {
            None
        }
    }

    /// The action that `text` stands for, if it is one of the two words.
    pub fn parse(text: &str) -> (r: Option<NatAction>)
        ensures
            r == NatAction::parse_spec(text@),
    {
        if same_text(text, "on") {
            Some(NatAction::On)
        } else if same_text(text, "off") {
            Some(NatAction::Off)
        } else {
            None
        }
    }

    /// The word that stands for this action.
    pub fn as_str(self) -> (r: &'static str)
        ensures
            r@ == self.word(),
    {
        match self {
            NatAction::On => "on",
            NatAction::Off => "off",
        }
    }

    /// The action that switches NAT on or off, as `on` says.
    pub fn from_switch(on: bool) -> (r: NatAction)
        ensures
            r == if on { NatAction::On } else { NatAction::Off },
    {
        if on {
            NatAction::On
        } else {
            NatAction::Off
        }
    }

    /// A text is read as an action exactly when it is that action's word.
    pub proof fn lemma_parse_word(text: Seq<char>, action: NatAction)
        ensures
            NatAction::parse_spec(text) == Some(action) <==> text == action.word(),
    {
        reveal_strlit("on");
        reveal_strlit("off");
        assert("on"@.len() == 2 && "off"@.len() == 3);
    }
}

} // verus!
