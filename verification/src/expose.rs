//! Exposing a local TCP service to peers: what is shown to the user, how
//! the serving loop reacts to its events, and where connections go.

use vstd::prelude::*;
use vstd::string::*;

use crate::text::{decimal, u64_to_decimal};

verus! {

/// When the sharing information is shown.
#[derive(Debug, Clone, Copy, PartialEq, Eq)]
pub enum InfoMode {
    /// Once, when the service starts.
    Startup,
    /// On the first ctrl+c, before the user confirms the exit.
    OnExit,
}

/// One line of the sharing information.
#[derive(Debug, PartialEq, Eq)]
pub enum InfoLine {
    /// An empty line.
    Blank,
    /// "Malai: Sharing port <port>".
    SharingPort { port: u16 },
    /// "Run <command>", the command being highlighted.
    Run { command: String },
    /// "to connect to it from any machine."
    ConnectHint,
    /// "Press ctrl+c again to exit."
    PressCtrlCAgain,
}

/// The command that connects to the shared port from another machine.
pub open spec fn bridge_command(id52: Seq<char>) -> Seq<char> {
    "malai tcp-bridge "@ + id52 + " <some-port>"@
}

/// The bridge command holds the whole id52, unchanged, between the fixed
/// words "malai tcp-bridge " (17 characters) and " <some-port>" (12).
pub proof fn lemma_bridge_command_holds_whole_id(id52: Seq<char>)
    ensures
        bridge_command(id52).len() == id52.len() + 29,
        bridge_command(id52).subrange(0, 17) == "malai tcp-bridge "@,
        bridge_command(id52).subrange(17, 17 + id52.len() as int) == id52,
        bridge_command(id52).subrange(17 + id52.len() as int, id52.len() as int + 29) == " <some-port>"@,
{
    reveal_strlit("malai tcp-bridge ");
    reveal_strlit(" <some-port>");
    let c: Seq<char> = bridge_command(id52);
    assert(c.subrange(0, 17) =~= "malai tcp-bridge "@);
    assert(c.subrange(17, 17 + id52.len() as int) =~= id52);
    assert(c.subrange(17 + id52.len() as int, id52.len() as int + 29) =~= " <some-port>"@);
}

impl InfoMode {
    /// The lines to show: on start-up the shared port first; on exit a blank
    /// line first and the ctrl+c hint last; in both the bridge command and
    /// the connection hint.
    pub fn lines(&self, port: u16, id52: &str) -> (lines: Vec<InfoLine>)
        ensures
            *self == InfoMode::Startup ==> {
                &&& lines@.len() == 3
                &&& lines@[0] == InfoLine::SharingPort { port }
                &&& lines@[1] matches InfoLine::Run { command } && command@ == bridge_command(id52@)
                    && command@ == "malai tcp-bridge "@ + id52@ + " <some-port>"@
                &&& lines@[2] == InfoLine::ConnectHint
            },
            *self == InfoMode::OnExit ==> {
                &&& lines@.len() == 4
                &&& lines@[0] == InfoLine::Blank
                &&& lines@[1] matches InfoLine::Run { command } && command@ == bridge_command(id52@)
                    && command@ == "malai tcp-bridge "@ + id52@ + " <some-port>"@
                &&& lines@[2] == InfoLine::ConnectHint
                &&& lines@[3] == InfoLine::PressCtrlCAgain
            },
    {
        let mut lines: Vec<InfoLine> = Vec::new();
        let on_exit: bool = match self {
            InfoMode::OnExit => true,
            InfoMode::Startup => false,
        };
        if on_exit {
            lines.push(InfoLine::Blank);
        } else {
            lines.push(InfoLine::SharingPort { port });
        }
        let mut command: String = String::from_str("malai tcp-bridge ");
        command.append(id52);
        command.append(" <some-port>");
        lines.push(InfoLine::Run { command });
        lines.push(InfoLine::ConnectHint);
        if on_exit {
            lines.push(InfoLine::PressCtrlCAgain);
        }
        lines
    }
}

/// What wakes the serving loop up.
#[derive(Debug, Clone, Copy, PartialEq, Eq)]
pub enum ServeEvent {
    /// The user asked for the sharing information (first ctrl+c).
    ShowInfo,
    /// Shut-down was requested.
    Cancelled,
    /// A peer connects.
    Incoming,
    /// The endpoint accepts no more connections.
    EndpointClosed,
}

/// What the serving loop does next.
#[derive(Debug, Clone, Copy, PartialEq, Eq)]
pub enum ServeAction {
    /// Show the exit information and go on serving.
    ShowExitInfo,
    /// Handle the connection in a task of its own and go on serving.
    SpawnHandler,
    /// Leave the loop and close the endpoint.
    Stop,
}

/// The serving loop's reaction to an event: it stops on shut-down and when
/// the endpoint is closed, and otherwise goes on.
pub fn on_serve_event(event: ServeEvent) -> (action: ServeAction)
    ensures
        event == ServeEvent::ShowInfo ==> action == ServeAction::ShowExitInfo,
        event == ServeEvent::Incoming ==> action == ServeAction::SpawnHandler,
        event == ServeEvent::Cancelled || event == ServeEvent::EndpointClosed ==> action
            == ServeAction::Stop,
{
    match event {
        ServeEvent::ShowInfo => ServeAction::ShowExitInfo,
        ServeEvent::Incoming => ServeAction::SpawnHandler,
        ServeEvent::Cancelled => ServeAction::Stop,
        ServeEvent::EndpointClosed => ServeAction::Stop,
    }
}

/// The address of the exposed service: "<host>:<port>".
pub fn tcp_target(host: &str, port: u16) -> (s: String)
    ensures
        s@ == host@ + ":"@ + decimal(port as nat),
{
    let mut s: String = String::from_str(host);
    s.append(":");
    let digits: String = u64_to_decimal(port as u64);
    s.append(digits.as_str());
    s
}

/// The acknowledgement line sent to a peer: the acknowledgement word and a
/// newline.
pub fn ack_line(ack: &str) -> (s: String)
    ensures
        s@ == ack@ + "\n"@,
{
    let mut s: String = String::from_str(ack);
    s.append("\n");
    s
}

} // verus!
