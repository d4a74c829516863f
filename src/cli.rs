//! Command-line views and the result of one command.

use vstd::prelude::*;
use crate::network::opt_str;

verus! {

/// The configuration context of a command-line session.
#[derive(Clone, Copy, Debug, PartialEq, Eq, Structural)]
pub enum CliView {
    UserView,
    SystemView,
    InterfaceView,
    BgpView,
    PoolView,
    ZoneView,
    AaaView,
    AclView,
    SecurityPolicyView,
    SecurityRuleView,
}

/// Session state that a caller keeps between commands.
#[derive(Clone, Debug)]
pub struct CliState {
    pub view: CliView,
    pub current_interface_id: Option<String>,
    pub current_pool_name: Option<String>,
    pub bgp_view: Option<String>,
}

/// Outcome of one command.
#[derive(Clone, Debug, Default)]
pub struct CommandResult {
    pub success: bool,
    pub output: String,
    pub new_view: Option<CliView>,
    /// The new host name, when the command changed it.
    pub new_hostname: Option<String>,
}

/// Mathematical form of a `CommandResult`.
pub struct Reply {
    pub success: bool,
    pub output: Seq<char>,
    pub new_view: Option<CliView>,
    pub new_hostname: Option<Seq<char>>,
}

impl View for CommandResult {
    type V = Reply;

    open spec fn view(&self) -> Reply {
        Reply {
            success: self.success,
            output: self.output@,
            new_view: self.new_view,
            new_hostname: opt_str(self.new_hostname),
        }
    }
}

/// The reply of a command that worked, with no change of view.
pub open spec fn ok(out: Seq<char>) -> Reply {
    Reply { success: true, output: out, new_view: None, new_hostname: None }
}

/// The reply of a command that failed.
pub open spec fn fail(out: Seq<char>) -> Reply {
    Reply { success: false, output: out, new_view: None, new_hostname: None }
}

/// The reply of a command that worked and moves the session to view `v`.
pub open spec fn ok_to(out: Seq<char>, v: CliView) -> Reply {
    Reply { success: true, output: out, new_view: Some(v), new_hostname: None }
}

/// The optional reply of a handler, in mathematical form.
pub open spec fn opt_reply(r: Option<CommandResult>) -> Option<Reply> {
    match r {
        Some(x) => Some(x@),
        None => None,
    }
}

impl CommandResult {
    /// A result that worked, with output.
    pub fn success(output: String) -> (r: Self)
        ensures
            r@ == ok(output@),
    {
        CommandResult { success: true, output, new_view: None, new_hostname: None }
    }

    /// A result that failed, with the error message.
    pub fn error(output: String) -> (r: Self)
        ensures
            r@ == fail(output@),
    {
        CommandResult { success: false, output, new_view: None, new_hostname: None }
    }
}

/// A successful result whose output is the literal `s`.
pub fn ok_lit(s: &str) -> (r: CommandResult)
    ensures
        r@ == ok(s@),
{
    CommandResult::success(String::from_str(s))
}

/// A failed result whose output is the literal `s`.
pub fn fail_lit(s: &str) -> (r: CommandResult)
    ensures
        r@ == fail(s@),
{
    CommandResult::error(String::from_str(s))
}

} // verus!
