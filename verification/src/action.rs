//! The administrative commands.

use vstd::prelude::*;
use vstd::string::StringExecFns;

verus! {

/// An administrative command on a registered service.
#[derive(Clone, Copy, Debug, PartialEq, Eq, Structural)]
pub enum ControlAction {
    Install,
    Uninstall,
    Start,
    Stop,
    Restart,
}

/// The action that the token `token` names, if it names one.
pub open spec fn action_named(token: Seq<char>) -> Option<ControlAction> {
    if token == "install"@ {
        Some(ControlAction::Install)
    } else if token == "uninstall"@ {
        Some(ControlAction::Uninstall)
    } else if token == "start"@ {
        Some(ControlAction::Start)
    } else if token == "stop"@ {
        Some(ControlAction::Stop)
    } else if token == "restart"@ {
        Some(ControlAction::Restart)
    } else {
        None
    }
}

/// The message for a token that names no action.
pub open spec fn invalid_option(token: Seq<char>) -> Seq<char> {
    "invalid option "@ + token + " for ControlAction"@
}

/// The name of `action`, as it is shown.
pub open spec fn action_name(action: ControlAction) -> Seq<char> {
    match action {
        ControlAction::Install => "Install"@,
        ControlAction::Uninstall => "Uninstall"@,
        ControlAction::Start => "Start"@,
        ControlAction::Stop => "Stop"@,
        ControlAction::Restart => "Restart"@,
    }
}

/// Whether `token` is the word `word`.
fn is_word(token: &str, word: &str) -> (same: bool)
    ensures
        same == (token@ == word@),
{
    token.to_owned() == word.to_owned()
}

impl ControlAction {
    /// Reads an action from a command token. The five tokens are
    /// `install`, `uninstall`, `start`, `stop` and `restart`; anything else
    /// is refused with a message that quotes it.
    pub fn parse(token: &str) -> (result: Result<ControlAction, String>)
        ensures
            match result {
                Ok(action) => action_named(token@) == Some(action),
                Err(message) => action_named(token@) is None && message@ == invalid_option(
                    token@,
                ),
            },
    {
        if is_word(token, "install") {
            Ok(ControlAction::Install)
        } else if is_word(token, "uninstall") {
            Ok(ControlAction::Uninstall)
        } else if is_word(token, "start") {
            Ok(ControlAction::Start)
        } else if is_word(token, "stop") {
            Ok(ControlAction::Stop)
        } else if is_word(token, "restart") {
            Ok(ControlAction::Restart)
        } else {
            let mut message = String::from_str("invalid option ");
            message.append(token);
            message.append(" for ControlAction");
            Err(message)
        }
    }

    /// The name of the action, as it is shown.
    pub fn name(&self) -> (name: &'static str)
        ensures
            name@ == action_name(*self),
    {
        match self {
            ControlAction::Install => "Install",
            ControlAction::Uninstall => "Uninstall",
            ControlAction::Start => "Start",
            ControlAction::Stop => "Stop",
            ControlAction::Restart => "Restart",
        }
    }
}

impl std::str::FromStr for ControlAction {
    type Err = String;

    /// Reads an action from a command token, as [`ControlAction::parse`]
    /// does.
    fn from_str(s: &str) -> (result: Result<ControlAction, String>)
        ensures
            match result {
                Ok(action) => action_named(s@) == Some(action),
                Err(message) => action_named(s@) is None && message@ == invalid_option(s@),
            },
    {
        ControlAction::parse(s)
    }
}

/// The five tokens name five different actions, and each action's token is
/// its name in lower case.
pub proof fn tokens_name_their_actions()
    ensures
        action_named("install"@) == Some(ControlAction::Install),
        action_named("uninstall"@) == Some(ControlAction::Uninstall),
        action_named("start"@) == Some(ControlAction::Start),
        action_named("stop"@) == Some(ControlAction::Stop),
        action_named("restart"@) == Some(ControlAction::Restart),
{
    reveal_strlit("install");
    reveal_strlit("uninstall");
    reveal_strlit("start");
    reveal_strlit("stop");
    reveal_strlit("restart");
    assert("uninstall"@.len() != "install"@.len());
    assert("start"@[2] != "install"@[2]);
    assert("start"@[1] != "uninstall"@[1]);
    assert("stop"@.len() != "install"@.len());
    assert("stop"@.len() != "uninstall"@.len());
    assert("stop"@.len() != "start"@.len());
    assert("restart"@[0] != "install"@[0]);
    assert("restart"@.len() != "uninstall"@.len());
    assert("restart"@.len() != "start"@.len());
    assert("restart"@.len() != "stop"@.len());
}

} // verus!
