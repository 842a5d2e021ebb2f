//! The protocol-subscription ingester: its configuration, the plan for the
//! one subscription it creates (fixed parameters, one monitored item per
//! configured remote variable), the translation of a data-change
//! notification into a message event, and the session state machine that the
//! control loop follows.
//!
//! The network session itself — connecting, creating the subscription on the
//! wire, awaiting notifications — is the caller's business: the caller
//! performs each [`IngestAction`], feeds the resulting [`IngestEvent`] back
//! into [`OPCUA::step`], and publishes forwarded notifications through the
//! module's context.

use vstd::prelude::*;

verus! {

use vstd::string::StringExecFns;

use crate::event_bus::{Event, EventBus, EventKind};
use crate::module::ModuleCtx;

/// The ingester's configuration: the endpoint to connect to and the remote
/// variables to monitor, each addressed by the shared namespace index and
/// its own key. Immutable at runtime.
#[derive(Clone, Debug)]
pub struct Config {
    pub url: String,
    pub namespace: u16,
    pub variables: Vec<String>,
}

/// The address of one monitored remote variable.
#[derive(Clone, Debug)]
pub struct NodeKey {
    pub namespace: u16,
    pub identifier: String,
}

/// The fixed parameters of the one subscription the ingester creates.
#[derive(Clone, Copy, Debug, PartialEq, Eq, Structural)]
pub struct SubscriptionParams {
    pub publishing_interval_ms: u64,
    pub keep_alive_count: u32,
    pub lifetime_count: u32,
    pub priority: u8,
    pub publishing_enabled: bool,
    /// Ask the server for both client and server timestamps.
    pub client_and_server_timestamps: bool,
}

/// One data-change notification, reduced to what the translation reads: the
/// new value and the status code, each already rendered as text by the
/// session layer, either possibly absent.
#[derive(Clone, Debug)]
pub struct DataValue {
    pub value: Option<String>,
    pub status: Option<String>,
}

/// The text a notification is owed: its value if present, else its status
/// prefixed `Error: `, else a fixed placeholder.
pub open spec fn data_value_text(dv: DataValue) -> Seq<char> {
    match dv.value {
        Some(v) => v@,
        None => match dv.status {
            Some(s) => "Error: "@ + s@,
            None => "No value or status"@,
        },
    }
}

/// The session lifecycle.
#[derive(Clone, Copy, Debug, PartialEq, Eq, Structural)]
pub enum IngestState {
    Disconnected,
    Connecting,
    Connected,
    Subscribed,
    Running,
    Disconnecting,
}

/// What the session layer reports to the control loop.
#[derive(Clone, Debug)]
pub enum IngestEvent {
    Start,
    ConnectSucceeded,
    ConnectFailed(String),
    SubscriptionCreated,
    SubscriptionFailed(String),
    ItemsRegistered,
    ItemsFailed(String),
    DataChange(DataValue),
    CancelRequested,
    LoopFinished,
}

/// What the control loop does next.
#[derive(Clone, Debug)]
pub enum IngestAction {
    /// Resolve and connect to the configured endpoint (anonymous identity,
    /// no transport security) and spawn the background protocol loop.
    Connect,
    /// Create the one subscription, with [`OPCUA::subscription_params`].
    CreateSubscription,
    /// Register one monitored item per configured variable, per
    /// [`OPCUA::monitored_items`].
    RegisterItems,
    /// Publish the notification as a message event.
    ForwardNotification(DataValue),
    /// Publish the failure as a message event, then disconnect orderly; no
    /// automatic retry.
    ReportAndDisconnect(String),
    /// Disconnect the session orderly.
    Disconnect,
    /// Fatal: surface the connection failure to the supervising runtime.
    FailModule(String),
    /// The control loop terminates.
    Finish,
    /// Nothing to do.
    Idle,
}

/// The session state machine. Connection failure is fatal; a subscription or
/// registration failure is reported in-stream and followed by an orderly
/// disconnect; notifications are forwarded only while running; cancellation
/// triggers a disconnect; the loop ends once the background task finishes.
pub open spec fn spec_step(s: IngestState, e: IngestEvent) -> (IngestState, IngestAction) {
    match e {
        IngestEvent::Start => if s is Disconnected {
            (IngestState::Connecting, IngestAction::Connect)
        } else {
            (s, IngestAction::Idle)
        },
        IngestEvent::ConnectSucceeded => if s is Connecting {
            (IngestState::Connected, IngestAction::CreateSubscription)
        } else {
            (s, IngestAction::Idle)
        },
        IngestEvent::ConnectFailed(msg) => if s is Connecting {
            (IngestState::Disconnected, IngestAction::FailModule(msg))
        } else {
            (s, IngestAction::Idle)
        },
        IngestEvent::SubscriptionCreated => if s is Connected {
            (IngestState::Subscribed, IngestAction::RegisterItems)
        } else {
            (s, IngestAction::Idle)
        },
        IngestEvent::SubscriptionFailed(msg) => if s is Connected {
            (IngestState::Disconnecting, IngestAction::ReportAndDisconnect(msg))
        } else {
            (s, IngestAction::Idle)
        },
        IngestEvent::ItemsRegistered => if s is Subscribed {
            (IngestState::Running, IngestAction::Idle)
        } else {
            (s, IngestAction::Idle)
        },
        IngestEvent::ItemsFailed(msg) => if s is Subscribed {
            (IngestState::Disconnecting, IngestAction::ReportAndDisconnect(msg))
        } else {
            (s, IngestAction::Idle)
        },
        IngestEvent::DataChange(dv) => if s is Running {
            (IngestState::Running, IngestAction::ForwardNotification(dv))
        } else {
            (s, IngestAction::Idle)
        },
        IngestEvent::CancelRequested => if s is Disconnected || s is Disconnecting {
            (s, IngestAction::Idle)
        } else {
            (IngestState::Disconnecting, IngestAction::Disconnect)
        },
        IngestEvent::LoopFinished => if s is Disconnected {
            (s, IngestAction::Idle)
        } else {
            (IngestState::Disconnected, IngestAction::Finish)
        },
    }
}

/// The protocol ingester: its context and configuration. The client and the
/// live session stay with the caller.
pub struct OPCUA {
    pub ctx: ModuleCtx,
    pub config: Config,
}

impl OPCUA {
    pub open spec fn wf(&self) -> bool {
        self.ctx.wf()
    }

    pub fn new(ctx: ModuleCtx, config: Config) -> (m: OPCUA)
        requires
            ctx.wf(),
        ensures
            m.wf(),
            m.ctx == ctx,
            m.config == config,
    {
        OPCUA { ctx, config }
    }

    /// The fixed subscription parameters: publish every second, keep-alive
    /// count 10, lifetime count 30, priority 0, publishing enabled, both
    /// timestamps returned.
    pub fn subscription_params() -> (p: SubscriptionParams)
        ensures
            p == (SubscriptionParams {
                publishing_interval_ms: 1000,
                keep_alive_count: 10,
                lifetime_count: 30,
                priority: 0,
                publishing_enabled: true,
                client_and_server_timestamps: true,
            }),
    {
        SubscriptionParams {
            publishing_interval_ms: 1000,
            keep_alive_count: 10,
            lifetime_count: 30,
            priority: 0,
            publishing_enabled: true,
            client_and_server_timestamps: true,
        }
    }

    /// One monitored item per configured variable, in configuration order,
    /// each keyed by the shared namespace and the variable's own key.
    pub fn monitored_items(&self) -> (items: Vec<NodeKey>)
        ensures
            items@.len() == self.config.variables@.len(),
            forall|k: int|
                0 <= k < items@.len() ==> (#[trigger] items@[k]).namespace == self.config.namespace
                    && items@[k].identifier@ == self.config.variables@[k]@,
    {
        let n = self.config.variables.len();
        let mut items: Vec<NodeKey> = Vec::new();
        let mut k: usize = 0;
        while k < n
            invariant
                n == self.config.variables@.len(),
                k <= n,
                items@.len() == k,
                forall|j: int|
                    0 <= j < k ==> (#[trigger] items@[j]).namespace == self.config.namespace
                        && items@[j].identifier@ == self.config.variables@[j]@,
            decreases n - k,
        {
            items.push(
                NodeKey {
                    namespace: self.config.namespace,
                    identifier: self.config.variables[k].clone(),
                },
            );
            k = k + 1;
        }
        items
    }

    /// Render a notification as text: the value if present, else the status
    /// as `Error: <status>`, else a fixed placeholder.
    pub fn data_value_to_string(data_value: &DataValue) -> (r: String)
        ensures
            r@ == data_value_text(*data_value),
    {
        match &data_value.value {
            Some(v) => v.clone(),
            None => match &data_value.status {
                Some(s) => String::from_str("Error: ").concat(s.as_str()),
                None => String::from_str("No value or status"),
            },
        }
    }

    /// Forward one data-change notification: publish its rendered text as a
    /// message event under this module's name. Never a reading, never a
    /// failure. Returns the published text.
    pub fn forward_notification(&self, bus: &mut EventBus, data_value: &DataValue) -> (text:
        String)
        requires
            self.wf(),
            old(bus).wf(),
            old(bus)@.total() < usize::MAX,
        ensures
            text@ == data_value_text(*data_value),
            final(bus).wf(),
            final(bus)@ == old(bus)@.publish(
                Event { module: self.ctx.name, inner: EventKind::Message(text) },
            ),
    {
        let text = Self::data_value_to_string(data_value);
        self.ctx.send_message(bus, text.clone());
        text
    }

    /// One step of the session state machine, exactly [`spec_step`].
    pub fn step(state: IngestState, event: IngestEvent) -> (r: (IngestState, IngestAction))
        ensures
            r == spec_step(state, event),
    {
        match event {
            IngestEvent::Start => match state {
                IngestState::Disconnected => (IngestState::Connecting, IngestAction::Connect),
                _ => (state, IngestAction::Idle),
            },
            IngestEvent::ConnectSucceeded => match state {
                IngestState::Connecting => (
                    IngestState::Connected,
                    IngestAction::CreateSubscription,
                ),
                _ => (state, IngestAction::Idle),
            },
            IngestEvent::ConnectFailed(msg) => match state {
                IngestState::Connecting => (
                    IngestState::Disconnected,
                    IngestAction::FailModule(msg),
                ),
                _ => (state, IngestAction::Idle),
            },
            IngestEvent::SubscriptionCreated => match state {
                IngestState::Connected => (IngestState::Subscribed, IngestAction::RegisterItems),
                _ => (state, IngestAction::Idle),
            },
            IngestEvent::SubscriptionFailed(msg) => match state {
                IngestState::Connected => (
                    IngestState::Disconnecting,
                    IngestAction::ReportAndDisconnect(msg),
                ),
                _ => (state, IngestAction::Idle),
            },
            IngestEvent::ItemsRegistered => match state {
                IngestState::Subscribed => (IngestState::Running, IngestAction::Idle),
                _ => (state, IngestAction::Idle),
            },
            IngestEvent::ItemsFailed(msg) => match state {
                IngestState::Subscribed => (
                    IngestState::Disconnecting,
                    IngestAction::ReportAndDisconnect(msg),
                ),
                _ => (state, IngestAction::Idle),
            },
            IngestEvent::DataChange(dv) => match state {
                IngestState::Running => (
                    IngestState::Running,
                    IngestAction::ForwardNotification(dv),
                ),
                _ => (state, IngestAction::Idle),
            },
            IngestEvent::CancelRequested => match state {
                IngestState::Disconnected => (state, IngestAction::Idle),
                IngestState::Disconnecting => (state, IngestAction::Idle),
                _ => (IngestState::Disconnecting, IngestAction::Disconnect),
            },
            IngestEvent::LoopFinished => match state {
                IngestState::Disconnected => (state, IngestAction::Idle),
                _ => (IngestState::Disconnected, IngestAction::Finish),
            },
        }
    }
}

/// A subscription is created only by the one transition out of `Connecting`,
/// and `Connecting` is entered only from `Disconnected` by `Start`: one
/// connection attempt creates at most one subscription.
pub proof fn lemma_subscription_created_once(s: IngestState, e: IngestEvent)
    ensures
        spec_step(s, e).1 is CreateSubscription ==> s is Connecting && e is ConnectSucceeded,
        spec_step(s, e).0 is Connecting ==> (s is Connecting || (s is Disconnected
            && e is Start)),
{
}

/// The ingester never emits a reading: every action that publishes carries
/// message text only.
pub proof fn lemma_no_reading_action(s: IngestState, e: IngestEvent)
    ensures
        !(spec_step(s, e).1 is ForwardNotification) || (s is Running && e is DataChange),
{
}

} // verus!
