//! The corrective action and the two ways of delivering it to the window
//! manager: as one request on its control socket, or as the arguments of its
//! control utility.

use vstd::prelude::*;
use vstd::string::StringExecFns;

verus! {

/// An order to move one window to a workspace without changing what the
/// user sees.
#[derive(Clone, Debug, PartialEq, Eq)]
pub struct MoveSilently {
    /// Name of the workspace the window goes to.
    pub workspace: String,
    /// Address of the window, without the leading `0x`.
    pub address: String,
}

/// The mathematical value of a [`MoveSilently`].
pub struct MoveView {
    pub workspace: Seq<char>,
    pub address: Seq<char>,
}

impl View for MoveSilently {
    type V = MoveView;

    open spec fn view(&self) -> MoveView {
        MoveView { workspace: self.workspace@, address: self.address@ }
    }
}

/// How an order reaches the window manager.
#[derive(Clone, Copy, Debug, PartialEq, Eq, Structural)]
pub enum Delivery {
    /// Connect to the control socket, write one request, close.
    ControlSocket,
    /// Run the control utility and discard whatever it reports.
    ExternalCommand,
}

/// The dispatcher and its one argument, as a single line of text.
pub open spec fn command_text(order: MoveView) -> Seq<char> {
    "movetoworkspacesilent name:"@ + order.workspace + ",address:0x"@ + order.address
}

/// The dispatcher's argument alone.
pub open spec fn target_text(order: MoveView) -> Seq<char> {
    "name:"@ + order.workspace + ",address:0x"@ + order.address
}

/// What is written to the control socket.
pub open spec fn socket_request_text(order: MoveView) -> Seq<char> {
    "/dispatch movetoworkspacesilent name:"@ + order.workspace + ",address:0x"@ + order.address
}

/// Path of the socket that the window manager instance `signature` keeps
/// under `runtime_dir`; `file` is the socket's file name with its leading
/// slash.
pub open spec fn socket_path(runtime_dir: Seq<char>, signature: Seq<char>, file: Seq<char>) -> Seq<
    char,
> {
    runtime_dir + "/hypr/"@ + signature + file
}

/// Appends the workspace and the address to a text that ends in `name:`.
fn finish_target(head: String, order: &MoveSilently) -> (text: String)
    ensures
        text@ == head@ + order.workspace@ + ",address:0x"@ + order.address@,
{
    let mut text = head;
    text.append(order.workspace.as_str());
    text.append(",address:0x");
    text.append(order.address.as_str());
    text
}

impl MoveSilently {
    /// The order as text: `movetoworkspacesilent name:<workspace>,address:0x<address>`.
    pub fn command(&self) -> (text: String)
        ensures
            text@ == command_text(self@),
    {
        finish_target(String::from_str("movetoworkspacesilent name:"), self)
    }

    /// The request for the control socket: the order's text behind
    /// `/dispatch `.
    pub fn socket_request(&self) -> (text: String)
        ensures
            text@ == socket_request_text(self@),
    {
        finish_target(String::from_str("/dispatch movetoworkspacesilent name:"), self)
    }

    /// The three arguments for the control utility: `dispatch`, the
    /// dispatcher's name, and its argument.
    pub fn utility_arguments(&self) -> (arguments: Vec<String>)
        ensures
            arguments@.len() == 3,
            arguments@[0]@ == "dispatch"@,
            arguments@[1]@ == "movetoworkspacesilent"@,
            arguments@[2]@ == target_text(self@),
    {
        let mut arguments: Vec<String> = Vec::new();
        arguments.push(String::from_str("dispatch"));
        arguments.push(String::from_str("movetoworkspacesilent"));
        arguments.push(finish_target(String::from_str("name:"), self));
        arguments
    }
}

impl Delivery {
    /// Whether the daemon stops when an order cannot be delivered. It does
    /// on the control socket, where a failed connection means the window
    /// manager is gone; the utility's failures are ignored.
    pub fn failure_is_fatal(self) -> (fatal: bool)
        ensures
            fatal == (self == Delivery::ControlSocket),
    {
        match self {
            Delivery::ControlSocket => true,
            Delivery::ExternalCommand => false,
        }
    }
}

/// Path of a socket of the window manager.
fn build_socket_path(runtime_dir: &str, signature: &str, file: &str) -> (path: String)
    ensures
        path@ == socket_path(runtime_dir@, signature@, file@),
{
    let mut path = String::from_str(runtime_dir);
    path.append("/hypr/");
    path.append(signature);
    path.append(file);
    path
}

/// Path of the control socket: `<runtime_dir>/hypr/<signature>/.socket.sock`.
pub fn control_socket_path(runtime_dir: &str, signature: &str) -> (path: String)
    ensures
        path@ == socket_path(runtime_dir@, signature@, "/.socket.sock"@),
{
    build_socket_path(runtime_dir, signature, "/.socket.sock")
}

/// Path of the event socket: `<runtime_dir>/hypr/<signature>/.socket2.sock`.
pub fn event_socket_path(runtime_dir: &str, signature: &str) -> (path: String)
    ensures
        path@ == socket_path(runtime_dir@, signature@, "/.socket2.sock"@),
{
    build_socket_path(runtime_dir, signature, "/.socket2.sock")
}

} // verus!
