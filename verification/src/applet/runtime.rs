//! What the host's control task is asked to do, and what it reports.

use crate::applet::interface::{Applet, AppletInfo, AppletPosition, AppletRequest};
use vstd::prelude::*;

verus! {

/// A command to the host's control task.
#[derive(Debug, Clone)]
pub enum RuntimeRequest {
    /// Start the applet that `info` describes, and place it at `order` within
    /// `position`.
    Launch { info: AppletInfo, order: u32, position: AppletPosition },
}

/// What the host's control task reports to the rest of the host. `S` is the
/// handle through which commands reach the control task, `H` what the host
/// keeps for each applet besides its record.
#[derive(Debug, Clone)]
pub enum RuntimeMessage<S, H> {
    /// The control task runs and takes commands through the handle.
    Ready(S),
    /// An applet was launched.
    New(Applet<H>),
    /// The applet with this process id sent a request.
    Request(AppletRequest, u32),
    /// The applet with this process id is gone.
    Shutdown(u32),
}

} // verus!
