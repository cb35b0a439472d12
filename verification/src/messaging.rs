//! The messaging session: composing messages over an established secure
//! channel, the 64 KiB message limit, and the queue of received messages,
//! with the notification raised when a peer refuses an authorization.
//!
//! Serialising messages to bytes, encrypting them and putting them on a
//! channel happens outside; this module decides what is sent and what is
//! queued.

use vstd::prelude::*;
use vstd::string::StringExecFns;
use crate::audit::{decimal_chars, numbered};
use crate::performance_monitor::{
    preset_config, recommendation_texts, PerformanceError, PerformanceMetrics, PerformanceMonitor, PerformancePreset,
};
use crate::protocol::{ProtocolEngine, ProtocolError, ProtocolState};

verus! {

#[derive(Debug, Clone, Copy, PartialEq, Eq, Structural)]
pub enum MessagePriority {
    Low,
    Normal,
    High,
    Critical,
}

/// What a message says.
#[derive(Debug)]
pub enum MessageType {
    Text(String),
    AuthorizationRequest { requested_permissions: Vec<String> },
    AuthorizationResponse { granted: bool, reason: Option<String> },
    StatusUpdate { status: String, details: String },
    /// A command with its parameters as name and value pairs.
    Command { command: String, parameters: Vec<(String, String)> },
    Notification { title: String, body: String },
}

/// A message between devices.
#[derive(Debug)]
pub struct Message {
    pub id: String,
    pub sender_fingerprint: [u8; 32],
    pub content: Vec<u8>,
    pub message_type: MessageType,
    /// Milliseconds since the epoch.
    pub timestamp_ms: u64,
    pub priority: MessagePriority,
    pub ttl_seconds: u32,
}

#[derive(Debug, Clone, Copy, PartialEq, Eq, Structural)]
pub enum MessagingError {
    MessageTooLarge,
    InvalidFormat,
    PermissionDenied,
    RateLimitExceeded,
    ConnectionNotEstablished,
    MessageExpired,
}

/// Largest serialized message, in bytes.
pub const MAX_MESSAGE_BYTES: usize = 65536;

/// States in which messages can be exchanged.
pub open spec fn connected_state(s: ProtocolState) -> bool {
    s == ProtocolState::Connected || s == ProtocolState::SecureChannelEstablished
        || s == ProtocolState::LongRangeSecureChannel
}

/// A new message of the given kind, made now: named `msg_` and the time,
/// from an unset fingerprint, with its content carried in its kind.
pub open spec fn is_new_message(m: Message, message_type: MessageType, priority: MessagePriority, ttl_seconds: u32, now_ms: u64) -> bool {
    &&& m.id@ == "msg_"@ + decimal_chars(now_ms as nat)
    &&& m.sender_fingerprint@ == Seq::new(32, |i: int| 0u8)
    &&& m.content@.len() == 0
    &&& m.message_type == message_type
    &&& m.timestamp_ms == now_ms
    &&& m.priority == priority
    &&& m.ttl_seconds == ttl_seconds
}

/// A new message of the given kind.
pub fn create_message(message_type: MessageType, priority: MessagePriority, ttl_seconds: u32, now_ms: u64) -> (r: Message)
    ensures
        is_new_message(r, message_type, priority, ttl_seconds, now_ms),
{
    let r = Message {
        id: numbered("msg_", now_ms),
        sender_fingerprint: [0u8; 32],
        content: Vec::new(),
        message_type,
        timestamp_ms: now_ms,
        priority,
        ttl_seconds,
    };
    assert(r.sender_fingerprint@ =~= Seq::new(32, |i: int| 0u8));
    r
}

/// Body of the notification about a refused authorization.
pub open spec fn rejection_body(reason: Option<String>) -> Seq<char> {
    "Peer device rejected authorization request. Reason: "@ + match reason {
        Some(r) => r@,
        None => "No reason provided"@,
    }
}

/// The notification queued when a peer refuses an authorization: critical,
/// kept for a day.
pub open spec fn is_rejection_notice(m: Message, reason: Option<String>, now_ms: u64) -> bool {
    &&& m.id@ == "msg_"@ + decimal_chars(now_ms as nat)
    &&& m.sender_fingerprint@ == Seq::new(32, |i: int| 0u8)
    &&& m.content@.len() == 0
    &&& m.message_type matches MessageType::Notification { title, body } && title@ == "Authorization Rejected"@
        && body@ == rejection_body(reason)
    &&& m.timestamp_ms == now_ms
    &&& m.priority == MessagePriority::Critical
    &&& m.ttl_seconds == 86400
}

/// A messaging session over a protocol engine: the queue of received
/// messages, the time of the last activity, and the performance monitor
/// once one is set up.
pub struct RgibberLink {
    protocol: ProtocolEngine,
    message_queue: Vec<Message>,
    last_activity_ms: u64,
    performance_monitor: Option<PerformanceMonitor>,
}

impl RgibberLink {
    pub closed spec fn engine(&self) -> ProtocolEngine {
        self.protocol
    }

    pub closed spec fn queue(&self) -> Seq<Message> {
        self.message_queue@
    }

    pub closed spec fn last_activity(&self) -> u64 {
        self.last_activity_ms
    }

    pub closed spec fn monitor(&self) -> Option<PerformanceMonitor> {
        self.performance_monitor
    }

    /// A session with a fresh protocol engine and an empty queue.
    pub fn new(now_ms: u64) -> (r: Self)
        ensures
            r.engine().state() == ProtocolState::Idle,
            r.queue().len() == 0,
            r.last_activity() == now_ms,
            r.monitor() is None,
    {
        RgibberLink {
            protocol: ProtocolEngine::new(now_ms),
            message_queue: Vec::new(),
            last_activity_ms: now_ms,
            performance_monitor: None,
        }
    }

    pub fn get_state(&self) -> (r: ProtocolState)
        ensures
            r == self.engine().state(),
    {
        self.protocol.get_state_value()
    }

    /// Starts the handshake as the sender: from idle the nonce goes out on
    /// the audio path and the session then waits for the peer's QR code.
    pub fn initiate_handshake(&mut self) -> (r: Result<(), ProtocolError>)
        ensures
            old(self).engine().state() != ProtocolState::Idle ==> r == Err::<(), ProtocolError>(
                ProtocolError::InvalidState,
            ) && final(self).engine().state() == old(self).engine().state(),
            old(self).engine().state() == ProtocolState::Idle ==> r is Ok && final(self).engine().state()
                == ProtocolState::WaitingForQr,
            final(self).engine().session() == old(self).engine().session(),
            final(self).engine().secret() == old(self).engine().secret(),
            final(self).queue() == old(self).queue(),
            final(self).last_activity() == old(self).last_activity(),
    {
        self.protocol.initiate_handshake()?;
        self.protocol.nonce_sent()
    }

    /// Receives the sender's acknowledgement.
    pub fn receive_ack(&mut self) -> (r: Result<(), ProtocolError>)
        ensures
            old(self).engine().state() == ProtocolState::WaitingForQr ==> r is Ok && final(self).engine().state()
                == ProtocolState::Connected,
            old(self).engine().state() != ProtocolState::WaitingForQr ==> r == Err::<(), ProtocolError>(
                ProtocolError::InvalidState,
            ) && final(self).engine().state() == old(self).engine().state(),
            final(self).queue() == old(self).queue(),
            final(self).last_activity() == old(self).last_activity(),
    {
        self.protocol.receive_ack()
    }

    pub fn get_shared_secret(&self) -> (r: Option<[u8; 32]>)
        ensures
            r matches Some(k) ==> self.engine().secret() == Some(k@),
            r is None ==> self.engine().secret() is None,
    {
        self.protocol.get_shared_secret()
    }

    /// Messages can only be exchanged over an established channel.
    pub fn check_connection(&self) -> (r: Result<(), MessagingError>)
        ensures
            r is Ok <==> connected_state(self.engine().state()),
            r is Err ==> r == Err::<(), MessagingError>(MessagingError::ConnectionNotEstablished),
    {
        let state = self.protocol.get_state();
        match state {
            ProtocolState::Connected | ProtocolState::SecureChannelEstablished | ProtocolState::LongRangeSecureChannel => Ok(()),
            _ => Err(MessagingError::ConnectionNotEstablished),
        }
    }

    /// A text message to send: normal priority, valid five minutes.
    pub fn send_text_message(&self, content: &str, now_ms: u64) -> (r: Result<Message, MessagingError>)
        ensures
            !connected_state(self.engine().state()) ==> r == Err::<Message, MessagingError>(
                MessagingError::ConnectionNotEstablished,
            ),
            connected_state(self.engine().state()) ==> (r matches Ok(m) && m.message_type matches MessageType::Text(t)
                && t@ == content@ && is_new_message(m, m.message_type, MessagePriority::Normal, 300, now_ms)),
    {
        self.check_connection()?;
        Ok(create_message(MessageType::Text(content.to_owned()), MessagePriority::Normal, 300, now_ms))
    }

    /// A request for permissions: high priority, valid a minute.
    pub fn request_authorization(&self, permissions: Vec<String>, now_ms: u64) -> (r: Result<Message, MessagingError>)
        ensures
            !connected_state(self.engine().state()) ==> r == Err::<Message, MessagingError>(
                MessagingError::ConnectionNotEstablished,
            ),
            connected_state(self.engine().state()) ==> (r matches Ok(m) && is_new_message(
                m,
                MessageType::AuthorizationRequest { requested_permissions: permissions },
                MessagePriority::High,
                60,
                now_ms,
            )),
    {
        self.check_connection()?;
        Ok(create_message(
            MessageType::AuthorizationRequest { requested_permissions: permissions },
            MessagePriority::High,
            60,
            now_ms,
        ))
    }

    /// An answer to an authorization request: high priority, valid a minute.
    pub fn respond_to_authorization(&self, granted: bool, reason: Option<String>, now_ms: u64) -> (r: Result<Message, MessagingError>)
        ensures
            !connected_state(self.engine().state()) ==> r == Err::<Message, MessagingError>(
                MessagingError::ConnectionNotEstablished,
            ),
            connected_state(self.engine().state()) ==> (r matches Ok(m) && is_new_message(
                m,
                MessageType::AuthorizationResponse { granted, reason },
                MessagePriority::High,
                60,
                now_ms,
            )),
    {
        self.check_connection()?;
        Ok(create_message(MessageType::AuthorizationResponse { granted, reason }, MessagePriority::High, 60, now_ms))
    }

    /// A status update: normal priority, valid an hour.
    pub fn send_status_update(&self, status: &str, details: &str, now_ms: u64) -> (r: Result<Message, MessagingError>)
        ensures
            !connected_state(self.engine().state()) ==> r == Err::<Message, MessagingError>(
                MessagingError::ConnectionNotEstablished,
            ),
            connected_state(self.engine().state()) ==> (r matches Ok(m)
                && m.message_type matches MessageType::StatusUpdate { status: s, details: d }
                && s@ == status@ && d@ == details@
                && is_new_message(m, m.message_type, MessagePriority::Normal, 3600, now_ms)),
    {
        self.check_connection()?;
        Ok(create_message(
            MessageType::StatusUpdate { status: status.to_owned(), details: details.to_owned() },
            MessagePriority::Normal,
            3600,
            now_ms,
        ))
    }

    /// A command: high priority, valid five minutes.
    pub fn send_command(&self, command: &str, parameters: Vec<(String, String)>, now_ms: u64) -> (r: Result<Message, MessagingError>)
        ensures
            !connected_state(self.engine().state()) ==> r == Err::<Message, MessagingError>(
                MessagingError::ConnectionNotEstablished,
            ),
            connected_state(self.engine().state()) ==> (r matches Ok(m)
                && m.message_type matches MessageType::Command { command: c, parameters: p }
                && c@ == command@ && p == parameters
                && is_new_message(m, m.message_type, MessagePriority::High, 300, now_ms)),
    {
        self.check_connection()?;
        Ok(create_message(
            MessageType::Command { command: command.to_owned(), parameters },
            MessagePriority::High,
            300,
            now_ms,
        ))
    }

    /// A notification: high priority, valid an hour.
    pub fn send_notification(&self, title: &str, body: &str, now_ms: u64) -> (r: Result<Message, MessagingError>)
        ensures
            !connected_state(self.engine().state()) ==> r == Err::<Message, MessagingError>(
                MessagingError::ConnectionNotEstablished,
            ),
            connected_state(self.engine().state()) ==> (r matches Ok(m)
                && m.message_type matches MessageType::Notification { title: t, body: b }
                && t@ == title@ && b@ == body@
                && is_new_message(m, m.message_type, MessagePriority::High, 3600, now_ms)),
    {
        self.check_connection()?;
        Ok(create_message(
            MessageType::Notification { title: title.to_owned(), body: body.to_owned() },
            MessagePriority::High,
            3600,
            now_ms,
        ))
    }

    /// Completes sending a message once it is serialized: refuses one over
    /// 64 KiB, and otherwise records the activity and returns the message's
    /// identifier.
    pub fn complete_send(&mut self, message: &Message, serialized_len: usize, now_ms: u64) -> (r: Result<String, MessagingError>)
        ensures
            serialized_len > MAX_MESSAGE_BYTES ==> r == Err::<String, MessagingError>(MessagingError::MessageTooLarge)
                && final(self).last_activity() == old(self).last_activity(),
            serialized_len <= MAX_MESSAGE_BYTES ==> r == Ok::<String, MessagingError>(message.id)
                && final(self).last_activity() == now_ms,
            final(self).queue() == old(self).queue(),
            final(self).engine() == old(self).engine(),
    {
        if serialized_len > MAX_MESSAGE_BYTES {
            return Err(MessagingError::MessageTooLarge);
        }
        self.last_activity_ms = now_ms;
        Ok(message.id.clone())
    }

    /// Queues a received message. A refused authorization is preceded in
    /// the queue by a notification about it.
    pub fn process_incoming_message(&mut self, message: Message, now_ms: u64) -> (r: Result<(), MessagingError>)
        ensures
            r is Ok,
            final(self).last_activity() == now_ms,
            final(self).engine() == old(self).engine(),
            message.message_type matches MessageType::AuthorizationResponse { granted, reason } ==> !granted ==> {
                &&& final(self).queue().len() == old(self).queue().len() + 2
                &&& final(self).queue().subrange(0, old(self).queue().len() as int) == old(self).queue()
                &&& is_rejection_notice(final(self).queue()[old(self).queue().len() as int], reason, now_ms)
                &&& final(self).queue().last() == message
            },
            !(message.message_type matches MessageType::AuthorizationResponse { granted, .. } && !granted)
                ==> final(self).queue() == old(self).queue().push(message),
    {
        self.last_activity_ms = now_ms;
        let rejection: Option<Message> = match &message.message_type {
            MessageType::AuthorizationResponse { granted: false, reason } => {
                let mut body = String::new();
                body.append("Peer device rejected authorization request. Reason: ");
                match reason {
                    Some(text) => body.append(text.as_str()),
                    None => body.append("No reason provided"),
                }
                let notice = create_message(
                    MessageType::Notification { title: "Authorization Rejected".to_owned(), body },
                    MessagePriority::Critical,
                    86400,
                    now_ms,
                );
                Some(notice)
            },
            _ => None,
        };
        match rejection {
            Some(notice) => {
                self.message_queue.push(notice);
            },
            None => {},
        }
        self.message_queue.push(message);
        Ok(())
    }

    /// Takes the queued messages, oldest first, leaving the queue empty.
    pub fn get_pending_messages(&mut self) -> (r: Vec<Message>)
        ensures
            r@ == old(self).queue(),
            final(self).queue().len() == 0,
            final(self).last_activity() == old(self).last_activity(),
            final(self).engine() == old(self).engine(),
    {
        let mut out: Vec<Message> = Vec::new();
        std::mem::swap(&mut out, &mut self.message_queue);
        out
    }

    pub fn has_pending_messages(&self) -> (r: bool)
        ensures
            r == (self.queue().len() > 0),
    {
        self.message_queue.len() > 0
    }

    pub fn get_last_activity(&self) -> (r: u64)
        ensures
            r == self.last_activity(),
    {
        self.last_activity_ms
    }

    /// Sets up performance monitoring with a history of a thousand samples.
    pub fn initialize_performance_monitor(&mut self)
        ensures
            final(self).monitor() matches Some(m) && m.history().len() == 0 && m.max_history() == 1000 && !m.active(),
            final(self).queue() == old(self).queue(),
            final(self).engine() == old(self).engine(),
    {
        self.performance_monitor = Some(PerformanceMonitor::new(1000));
    }

    /// Starts monitoring; refused before a monitor is set up.
    pub fn start_performance_monitoring(&mut self) -> (r: Result<(), PerformanceError>)
        ensures
            old(self).monitor() is None ==> r == Err::<(), PerformanceError>(PerformanceError::InvalidMetrics)
                && final(self).monitor() is None,
            old(self).monitor() matches Some(m) ==> r is Ok && (final(self).monitor() matches Some(nm) && nm.active()
                && nm.history() == m.history() && nm.config() == m.config() && nm.max_history() == m.max_history()),
            final(self).queue() == old(self).queue(),
            final(self).engine() == old(self).engine(),
    {
        match self.performance_monitor.take() {
            None => Err(PerformanceError::InvalidMetrics),
            Some(mut m) => {
                let r = m.start_monitoring();
                self.performance_monitor = Some(m);
                r
            },
        }
    }

    /// Stops monitoring, if a monitor is set up.
    pub fn stop_performance_monitoring(&mut self)
        ensures
            old(self).monitor() is None ==> final(self).monitor() is None,
            old(self).monitor() matches Some(m) ==> (final(self).monitor() matches Some(nm) && !nm.active()
                && nm.history() == m.history() && nm.config() == m.config() && nm.max_history() == m.max_history()),
            final(self).queue() == old(self).queue(),
            final(self).engine() == old(self).engine(),
    {
        match self.performance_monitor.take() {
            None => {},
            Some(mut m) => {
                m.stop_monitoring();
                self.performance_monitor = Some(m);
            },
        }
    }

    /// The newest performance sample, if any.
    pub fn get_performance_metrics(&self) -> (r: Option<PerformanceMetrics>)
        ensures
            r == match self.monitor() {
                None => None,
                Some(m) => if m.history().len() == 0 { None } else { Some(m.history().last()) },
            },
    {
        match &self.performance_monitor {
            None => None,
            Some(m) => m.get_current_metrics(),
        }
    }

    /// Applies a preset to the monitor; refused before a monitor is set up.
    pub fn apply_performance_preset(&mut self, preset: PerformancePreset) -> (r: Result<(), PerformanceError>)
        ensures
            old(self).monitor() is None ==> r == Err::<(), PerformanceError>(PerformanceError::InvalidMetrics)
                && final(self).monitor() is None,
            old(self).monitor() matches Some(m) ==> (final(self).monitor() matches Some(nm) && nm.config() == preset_config(preset)
                && (m.laser() is None ==> r is Ok)),
            final(self).queue() == old(self).queue(),
            final(self).engine() == old(self).engine(),
    {
        match self.performance_monitor.take() {
            None => Err(PerformanceError::InvalidMetrics),
            Some(mut m) => {
                let r = m.apply_preset(preset);
                self.performance_monitor = Some(m);
                r
            },
        }
    }

    /// Recommendations for the newest sample; none without a monitor or sample.
    pub fn get_performance_recommendations(&self) -> (r: Vec<String>)
        ensures
            match self.monitor() {
                None => r@.len() == 0,
                Some(m) => {
                    &&& m.history().len() == 0 ==> r@.len() == 0
                    &&& m.history().len() > 0 ==> r@.map_values(|x: String| x@) == recommendation_texts(m.history().last())
                },
            },
    {
        match &self.performance_monitor {
            None => Vec::new(),
            Some(m) => m.get_recommendations(),
        }
    }
}

} // verus!
