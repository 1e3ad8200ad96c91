//! The ban command: one target argument, an optional reason, and the
//! argument checks its two executors make. The ban itself is the
//! banned-player table's decision.

use vstd::prelude::*;

verus! {

use crate::commands::tree::{
    CommandTree, Node, ArgConsumer, Executor, CommandError, ConsumedArgs, argument,
};

/// Builds the ban command: named `ban`, one `player` argument run by the
/// no-reason executor, and under it a `reason` argument run by the
/// with-reason executor.
pub fn init_command_tree() -> (r: CommandTree)
    ensures
        r.names@.len() == 1 && r.names@[0]@ == "ban"@,
        r.description@ == "bans a player"@,
        r.executors@.len() == 0,
        r.children@.len() == 1,
        ({
            let target = r.children@[0];
            &&& target.name@ == "player"@
            &&& target.consumer == ArgConsumer::Players
            &&& target.executors@ =~= seq![Executor::BanNoReason]
            &&& target.children@.len() == 1
            &&& target.children@[0].name@ == "reason"@
            &&& target.children@[0].consumer == ArgConsumer::Msg
            &&& target.children@[0].executors@ =~= seq![Executor::BanReason]
            &&& target.children@[0].children@.len() == 0
        }),
{
    let mut names: Vec<String> = Vec::new();
    names.push("ban".to_owned());
    let r = CommandTree::new(names, "bans a player").with_child(
        argument("player", ArgConsumer::Players).execute(Executor::BanNoReason).with_child(
            argument("reason", ArgConsumer::Msg).execute(Executor::BanReason),
        ),
    );
    proof {
        assert(r.names@[0]@ == "ban"@);
    }
    r
}

/// What a ban invocation asks for once its arguments check out: the first
/// matched target, and the reason if one was given.
#[derive(Debug, Clone)]
pub struct BanInvocation {
    pub target: String,
    pub reason: Option<String>,
}

/// The no-reason executor's argument check: the target list must have
/// been consumed and be non-empty; the first target is banned with no
/// reason.
pub fn check_no_reason_args(args: &ConsumedArgs) -> (r: Result<BanInvocation, CommandError>)
    ensures
        match r {
            Ok(inv) => (args.players matches Some(targets) && targets@.len() > 0 && inv.target@
                == targets@[0]@ && inv.reason is None),
            Err(e) => (args.players matches Some(t) ==> t@.len() == 0) && (e
                matches CommandError::InvalidConsumption(name) && (name matches Some(n) && n@
                == "player"@)),
        },
{
    match &args.players {
        Some(targets) => {
            if targets.len() > 0 {
                let target = clone_string(&targets[0]);
                Ok(BanInvocation { target, reason: None })
            } else {
                Err(CommandError::InvalidConsumption(Some("player".to_owned())))
            }
        },
        None => Err(CommandError::InvalidConsumption(Some("player".to_owned()))),
    }
}

/// The with-reason executor's argument check: the target list and the
/// message must both have been consumed; the first target is banned with
/// the message as the reason.
pub fn check_reason_args(args: &ConsumedArgs) -> (r: Result<BanInvocation, CommandError>)
    ensures
        match r {
            Ok(inv) => (args.players matches Some(targets) && targets@.len() > 0 && inv.target@
                == targets@[0]@) && (args.msg matches Some(m) && (inv.reason matches Some(given)
                && given@ == m@)),
            Err(e) => e matches CommandError::InvalidConsumption(name) && (name matches Some(n) && (
            n@ == "player"@ || n@ == "reason"@)),
        },
{
    match &args.players {
        Some(targets) => {
            if targets.len() == 0 {
                return Err(CommandError::InvalidConsumption(Some("player".to_owned())));
            }
            match &args.msg {
                Some(message) => {
                    let target = clone_string(&targets[0]);
                    let reason = clone_string(message);
                    Ok(BanInvocation { target, reason: Some(reason) })
                },
                None => Err(CommandError::InvalidConsumption(Some("reason".to_owned()))),
            }
        },
        None => Err(CommandError::InvalidConsumption(Some("player".to_owned()))),
    }
}

/// A copy of a string with the same characters.
pub fn clone_string(s: &String) -> (r: String)
    ensures
        r@ == s@,
{
    s.as_str().to_owned()
}

} // verus!
