use vstd::prelude::*;

use crate::clock::now_millis;
use crate::device::DeviceInfo;
use crate::discovery_service::{live_roster, registered_at, touched_at, DiscoveryService};
use crate::ids::fresh_uuid;
use crate::message::FileTransferMessage;

verus! {

/// How often a session probes its peer for liveness.
pub const HEARTBEAT_INTERVAL_MILLIS: i64 = 5000;

/// A session that has heard no liveness signal for longer than this is
/// closed.
pub const CLIENT_TIMEOUT_MILLIS: i64 = 10000;

/// How often a session refreshes its own presence and pushes the roster.
pub const DISCOVERY_INTERVAL_MILLIS: i64 = 10000;

/// The life of one real-time connection, from upgrade to termination.
#[derive(Clone, Copy, PartialEq, Eq, Structural, Debug)]
pub enum SessionState {
    Connecting,
    Active,
    Closing,
    Closed,
}

/// One inbound frame as the session logic sees it. The transport frames the
/// bytes, and the caller parses a text frame's payload before handing it
/// in; a text that parses as no known message keeps `parsed` empty.
pub enum WsFrame {
    Ping(Vec<u8>),
    Pong(Vec<u8>),
    Text { raw: String, parsed: Option<FileTransferMessage> },
    Close,
    Unsupported,
}

/// What the session asks the transport to do after one inbound frame.
pub enum SessionAction {
    Ignore,
    ReplyPong(Vec<u8>),
    Send(FileTransferMessage),
    EchoText(String),
    CloseConnection,
    Stop,
}

/// What the heartbeat timer decides on one tick.
#[derive(Clone, Copy, PartialEq, Eq, Structural, Debug)]
pub enum HeartbeatStep {
    SendPing,
    Disconnect,
}

/// One real-time session: its generated identifier, the name the device
/// announced, the stamp of the last liveness signal, and where in its life
/// the connection stands. It holds only its identifier into the shared
/// registry, never a copy it treats as authoritative.
pub struct FileTransferWs {
    pub id: String,
    pub device_name: String,
    pub hb: i64,
    pub state: SessionState,
}

impl FileTransferWs {
    /// Opens a session for a named device: a fresh identifier, a liveness
    /// stamp taken from the clock, and the connecting state. The device is
    /// registered once the session becomes active.
    pub fn new(device_name: String) -> (r: Self)
        ensures
            r.device_name == device_name,
            r.state is Connecting,
            r.hb >= 0,
            r.id@.len() == 36,
    {
        let raw = now_millis();
        let hb: i64 = if raw < 0 {
            0
        } else {
            raw
        };
        FileTransferWs { id: fresh_uuid(), device_name, hb, state: SessionState::Connecting }
    }

    /// Entering the active state: the device is registered in the shared
    /// registry under the session's identifier, stamped with the clock.
    /// The caller then starts the heartbeat and broadcast timers.
    pub fn started(&mut self, registry: &mut DiscoveryService)
        requires
            old(self).state is Connecting,
            old(registry).wf(),
        ensures
            final(registry).wf(),
            final(self).state is Active,
            final(self).id == old(self).id,
            final(self).device_name == old(self).device_name,
            final(self).hb == old(self).hb,
            exists|t: i64|
                registered_at(
                    old(registry)@,
                    final(registry)@,
                    old(self).id@,
                    old(self).device_name@,
                    t,
                ),
    {
        registry.register_device(self.id.clone(), self.device_name.clone());
        self.state = SessionState::Active;
    }

    /// One heartbeat tick: a session that has heard no liveness signal for
    /// longer than the client timeout is deregistered and moved towards
    /// closing; otherwise a liveness probe is sent and nothing changes.
    pub fn heartbeat(&mut self, registry: &mut DiscoveryService, now: i64) -> (r: HeartbeatStep)
        requires
            old(self).state is Active,
            old(self).hb >= 0,
            now >= 0,
            old(registry).wf(),
        ensures
            final(registry).wf(),
            final(self).id == old(self).id,
            final(self).device_name == old(self).device_name,
            final(self).hb == old(self).hb,
            now - old(self).hb > CLIENT_TIMEOUT_MILLIS as int ==> {
                &&& final(self).state is Closing
                &&& final(registry)@ == old(registry)@.remove(old(self).id@)
                &&& r == HeartbeatStep::Disconnect
            },
            now - old(self).hb <= CLIENT_TIMEOUT_MILLIS as int ==> {
                &&& *final(self) == *old(self)
                &&& *final(registry) == *old(registry)
                &&& r == HeartbeatStep::SendPing
            },
    {
        if now - self.hb > CLIENT_TIMEOUT_MILLIS {
            registry.remove_device(self.id.as_str());
            self.state = SessionState::Closing;
            HeartbeatStep::Disconnect
        } else {
            HeartbeatStep::SendPing
        }
    }

    /// One broadcast tick: the session refreshes its own presence stamp and
    /// assembles the roster push — the devices live at `now`, carried in a
    /// roster message stamped with the same time.
    pub fn start_discovery(&self, registry: &mut DiscoveryService, now: i64) -> (r:
        FileTransferMessage)
        requires
            now >= 0,
            old(registry).wf(),
        ensures
            final(registry).wf(),
            touched_at(old(registry)@, final(registry)@, self.id@, now),
            (r matches FileTransferMessage::DeviceList { devices, timestamp }
                && timestamp == now
                && live_roster(devices@, final(registry)@, now as int)),
    {
        registry.update_device_timestamp_at(self.id.as_str(), now);
        let devices = registry.get_nearby_devices_at(now);
        FileTransferMessage::DeviceList { devices, timestamp: now }
    }

    /// One inbound frame. A liveness signal resets the last-signal stamp; a
    /// discovery query is answered with the live roster at once; any other
    /// recognized message is echoed back verbatim, and an unparseable text
    /// is dropped; a close or an unsupported frame moves the session
    /// towards closing, a close deregistering the device itself.
    pub fn handle(&mut self, frame: WsFrame, registry: &mut DiscoveryService, now: i64) -> (r:
        SessionAction)
        requires
            old(self).state is Active,
            now >= 0,
            old(registry).wf(),
        ensures
            final(registry).wf(),
            final(self).id == old(self).id,
            final(self).device_name == old(self).device_name,
            match frame {
                WsFrame::Ping(p) => {
                    &&& final(self).hb == now
                    &&& final(self).state is Active
                    &&& *final(registry) == *old(registry)
                    &&& r == SessionAction::ReplyPong(p)
                },
                WsFrame::Pong(_) => {
                    &&& final(self).hb == now
                    &&& final(self).state is Active
                    &&& *final(registry) == *old(registry)
                    &&& r is Ignore
                },
                WsFrame::Text { raw, parsed } => {
                    &&& *final(self) == *old(self)
                    &&& *final(registry) == *old(registry)
                    &&& match parsed {
                        Some(m) => {
                            if m is DeviceDiscovery {
                                (r matches SessionAction::Send(reply)
                                    && reply matches FileTransferMessage::DeviceList {
                                        devices,
                                        timestamp,
                                    }
                                    && timestamp == now
                                    && live_roster(devices@, old(registry)@, now as int))
                            } else {
                                r == SessionAction::EchoText(raw)
                            }
                        },
                        None => r is Ignore,
                    }
                },
                WsFrame::Close => {
                    &&& final(self).state is Closing
                    &&& final(registry)@ == old(registry)@.remove(old(self).id@)
                    &&& r is CloseConnection
                },
                WsFrame::Unsupported => {
                    &&& final(self).state is Closing
                    &&& *final(registry) == *old(registry)
                    &&& r is Stop
                },
            },
    {
        match frame {
            WsFrame::Ping(p) => {
                self.hb = now;
                SessionAction::ReplyPong(p)
            },
            WsFrame::Pong(_) => {
                self.hb = now;
                SessionAction::Ignore
            },
            WsFrame::Text { raw, parsed } => {
                match parsed {
                    Some(m) => {
                        match m {
                            FileTransferMessage::DeviceDiscovery { .. } => {
                                let devices = registry.get_nearby_devices_at(now);
                                SessionAction::Send(
                                    FileTransferMessage::DeviceList { devices, timestamp: now },
                                )
                            },
                            _ => SessionAction::EchoText(raw),
                        }
                    },
                    None => SessionAction::Ignore,
                }
            },
            WsFrame::Close => {
                registry.remove_device(self.id.as_str());
                self.state = SessionState::Closing;
                SessionAction::CloseConnection
            },
            WsFrame::Unsupported => {
                self.state = SessionState::Closing;
                SessionAction::Stop
            },
        }
    }

    /// The end of the session's life, on every path: the device is
    /// deregistered — removing an identifier already gone changes nothing,
    /// so racing close paths deregister once — and the session is closed.
    pub fn stopped(&mut self, registry: &mut DiscoveryService)
        requires
            old(registry).wf(),
        ensures
            final(registry).wf(),
            final(registry)@ == old(registry)@.remove(old(self).id@),
            final(self).state is Closed,
            final(self).id == old(self).id,
            final(self).device_name == old(self).device_name,
            final(self).hb == old(self).hb,
    {
        registry.remove_device(self.id.as_str());
        self.state = SessionState::Closed;
    }
}

/// The timeout law, composed over a whole closing path: a session that
/// times out is deregistered, and however many racing paths deregister it
/// afterwards, the device stays absent from the registry.
pub proof fn lemma_timeout_deregisters(m: Map<Seq<char>, DeviceInfo>, id: Seq<char>)
    ensures
        !m.remove(id).contains_key(id),
        m.remove(id).remove(id) == m.remove(id),
{
    assert(m.remove(id).remove(id) =~= m.remove(id));
}

} // verus!
