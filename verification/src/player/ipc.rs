//! The client side of mpv's JSON IPC socket.
use vstd::prelude::*;
use crate::text::{concat, owned};

verus! {

pub struct IpcClient {
    pub socket_path: String,
}

impl IpcClient {
    pub fn new(socket_path: &str) -> (r: IpcClient)
        ensures
            r.socket_path@ == socket_path@,
    {
        IpcClient { socket_path: owned(socket_path) }
    }

    /// A command as it is written to the socket: one line.
    pub fn command_line(command: &str) -> (r: String)
        ensures
            r@ == command@ + "\n"@,
    {
        concat(command, "\n")
    }

    /// The error of a failed connection to the socket.
    pub fn connect_error(&self, error: &str) -> (r: String)
        ensures
            r@ == "Failed to connect to "@ + self.socket_path@ + ": "@ + error@,
    {
        let mut s = concat("Failed to connect to ", self.socket_path.as_str());
        s.push_str(": ");
        s.push_str(error);
        s
    }
}

} // verus!
