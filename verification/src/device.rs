//! The device-control call as the device side serves it: a carried action
//! comes in, goes to the action sink, and is acknowledged as it came.

use crate::action::action_of;
use crate::action::Action;
use crate::action::ProtoAction;
use crate::sink::offered;
use crate::sink::ActionService;
use vstd::prelude::*;

verus! {

/// What serving one call asks for: the line to write and flush on the
/// command channel, if any, and the acknowledgement to return once that
/// write has succeeded. A write that fails is reported to the caller in
/// place of the acknowledgement, and is not retried.
#[derive(Debug)]
pub struct Served {
    pub line: Option<String>,
    pub reply: ProtoAction,
}

/// The failure of a call: the write to the command channel did not go
/// through. It says nothing of why, and nothing is tried again.
#[derive(Copy, Clone, Debug, PartialEq, Eq, Structural)]
pub enum DispatchError {
    WriteFailed,
}

impl Served {
    /// The answer to the caller once the line, if there was one, has been
    /// written: the acknowledgement, unless there was a line and writing it
    /// failed.
    pub fn conclude(&self, written: bool) -> (answer: Result<ProtoAction, DispatchError>)
        ensures
            answer == if self.line is Some && !written {
                Err::<ProtoAction, DispatchError>(DispatchError::WriteFailed)
            } else {
                Ok::<ProtoAction, DispatchError>(self.reply)
            },
    {
        if self.line.is_some() && !written {
            Err(DispatchError::WriteFailed)
        } else {
            Ok(self.reply)
        }
    }
}

/// The server side of the device-control call.
pub struct GrpcDeviceServer {
    pub action_service: ActionService,
}

impl GrpcDeviceServer {
    /// A server in front of `action_service`.
    pub fn new(action_service: ActionService) -> (server: Self)
        ensures
            server.action_service == action_service,
    {
        GrpcDeviceServer { action_service }
    }

    /// Serves one call at the present reading of the sink's clock: what
    /// [`GrpcDeviceServer::do_action_at`] does at that reading.
    pub fn do_action(&mut self, request: ProtoAction) -> (served: Served)
        ensures
            served.reply == request,
            exists|now: u64| #[trigger]
                offered(
                    old(self).action_service@,
                    action_of(request),
                    now,
                    final(self).action_service@,
                    served.line,
                ),
            old(self).action_service@ is None ==> served.line is Some,
    {
        let action: Action = Action::from(request);
        let line = self.action_service.send_action(action);
        proof {
            let now = choose|now: u64|
                offered(old(self).action_service@, action, now, self.action_service@, line);
            assert(offered(
                old(self).action_service@,
                action_of(request),
                now,
                self.action_service@,
                line,
            ));
        }
        Served { line, reply: request }
    }

    /// Serves one call at `now`: the action that `request` carries is
    /// offered to the sink, and the acknowledgement is the request itself,
    /// whether or not the sink's cooldown let the action through.
    pub fn do_action_at(&mut self, request: ProtoAction, now: u64) -> (served: Served)
        ensures
            served.reply == request,
            offered(
                old(self).action_service@,
                action_of(request),
                now,
                final(self).action_service@,
                served.line,
            ),
    {
        let action: Action = Action::from(request);
        let line = self.action_service.send_action_at(action, now);
        Served { line, reply: request }
    }
}

} // verus!
