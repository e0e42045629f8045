//! The communication fan-out layer: named channels connect the agent loop
//! to its integrations, merged into one inbound drain and one outbound
//! broadcast. The pipes themselves are bounded multi-producer channels of
//! the async runtime; their buffers are shared with concurrently running
//! integration tasks, so nothing is assumed about what a drain yields.

use vstd::prelude::*;
use vstd::string::StringExecFns;

use crate::message::ChatMessage;

verus! {

/// The sending half of an async-runtime bounded channel.
#[verifier::external_type_specification]
#[verifier::external_body]
#[verifier::reject_recursive_types(T)]
pub struct ExSender<T>(tokio::sync::mpsc::Sender<T>);

/// The receiving half of an async-runtime bounded channel.
#[verifier::external_type_specification]
#[verifier::external_body]
#[verifier::reject_recursive_types(T)]
pub struct ExReceiver<T>(tokio::sync::mpsc::Receiver<T>);

/// What one non-blocking send attempt came to.
pub enum SendOutcome {
    /// The message was placed in the channel's buffer.
    Sent,
    /// The buffer was full; the message comes back untouched.
    Full(ChatMessage),
    /// The receiving half is gone; the message comes back untouched.
    Closed(ChatMessage),
}

/// What one non-blocking receive attempt came to.
pub enum RecvOutcome {
    /// A buffered message.
    Received(ChatMessage),
    /// Nothing buffered right now; more may yet arrive.
    Empty,
    /// Every sending half is gone and the buffer is drained for good.
    Disconnected,
}

/// How a channel operation failed.
#[derive(Debug, Clone, Copy, PartialEq, Eq, Structural)]
pub enum CommunicationsError {
    /// The channel reported end of stream: its other half is gone.
    EndOfStream,
    /// The far end of the channel is gone.
    ChannelClosed,
    /// The channel's buffer is full; sending would have meant waiting.
    ChannelFull,
}

impl CommunicationsError {
    /// A short description of the failure.
    pub fn describe(&self) -> (r: &'static str)
        ensures
            r@ == self.spec_describe(),
    {
        match self {
            CommunicationsError::EndOfStream => "Channel closed: end of stream",
            CommunicationsError::ChannelClosed => "Channel closed: failed to send",
            CommunicationsError::ChannelFull => "Channel full: failed to send without waiting",
        }
    }

    /// The description of each failure, for use in contracts.
    pub open spec fn spec_describe(self) -> Seq<char> {
        match self {
            CommunicationsError::EndOfStream => "Channel closed: end of stream"@,
            CommunicationsError::ChannelClosed => "Channel closed: failed to send"@,
            CommunicationsError::ChannelFull => "Channel full: failed to send without waiting"@,
        }
    }
}

/// The largest capacity a channel may be created with. The runtime's
/// semaphore refuses more permits than an eighth of the address space; this
/// stays comfortably below that on every machine.
pub const MAX_CHANNEL_CAPACITY: usize = 0x1000_0000;

/// Relies on tokio::sync::mpsc::channel: creates a bounded channel. It
/// panics on a zero capacity and on a capacity beyond what its semaphore
/// accepts (more than an eighth of `usize`), so both are required away.
#[verifier::external_body]
fn new_raw_channel(capacity: usize) -> (tokio::sync::mpsc::Sender<ChatMessage>, tokio::sync::mpsc::Receiver<ChatMessage>)
    requires
        1 <= capacity <= MAX_CHANNEL_CAPACITY,
{
    tokio::sync::mpsc::channel(capacity)
}

/// Relies on Sender::try_send: a rejected message comes back unchanged
/// inside the error. Whether a send succeeds depends on the channel's
/// shared buffer, so nothing more is promised.
#[verifier::external_body]
fn try_send_raw(tx: &tokio::sync::mpsc::Sender<ChatMessage>, message: ChatMessage) -> (r:
    SendOutcome)
    ensures
        r matches SendOutcome::Full(m) ==> m == message,
        r matches SendOutcome::Closed(m) ==> m == message,
{
    match tx.try_send(message) {
        Ok(()) => SendOutcome::Sent,
        Err(tokio::sync::mpsc::error::TrySendError::Full(m)) => SendOutcome::Full(m),
        Err(tokio::sync::mpsc::error::TrySendError::Closed(m)) => SendOutcome::Closed(m),
    }
}

/// Relies on Receiver::try_recv: yields one buffered message without
/// waiting, or reports the channel empty or disconnected. What is buffered
/// depends on concurrently running senders, so nothing is promised of the
/// outcome.
#[verifier::external_body]
fn try_recv_raw(rx: &mut tokio::sync::mpsc::Receiver<ChatMessage>) -> (r: RecvOutcome) {
    match rx.try_recv() {
        Ok(m) => RecvOutcome::Received(m),
        Err(tokio::sync::mpsc::error::TryRecvError::Empty) => RecvOutcome::Empty,
        Err(tokio::sync::mpsc::error::TryRecvError::Disconnected) => RecvOutcome::Disconnected,
    }
}

/// Every channel a router creates holds this many messages at most.
pub const CHANNEL_CAPACITY: usize = 64;

/// The sending half of a named one-way pipe.
pub struct OneWayChannelSender {
    name: String,
    tx: tokio::sync::mpsc::Sender<ChatMessage>,
}

/// The receiving half of a named one-way pipe.
pub struct OneWayChannelReceiver {
    name: String,
    rx: tokio::sync::mpsc::Receiver<ChatMessage>,
}

/// One side of a two-way connection: a sender and a receiver under one
/// logical name.
pub struct TwoWayChannel {
    name: String,
    sender: OneWayChannelSender,
    receiver: OneWayChannelReceiver,
}

impl View for OneWayChannelSender {
    type V = Seq<char>;

    /// A sender is modelled by its name; its buffer is shared state.
    closed spec fn view(&self) -> Seq<char> {
        self.name@
    }
}

impl View for OneWayChannelReceiver {
    type V = Seq<char>;

    /// A receiver is modelled by its name; its buffer is shared state.
    closed spec fn view(&self) -> Seq<char> {
        self.name@
    }
}

impl View for TwoWayChannel {
    type V = Seq<char>;

    /// A two-way channel is modelled by its name.
    closed spec fn view(&self) -> Seq<char> {
        self.name@
    }
}

/// Opens one pipe: a sender and a receiver moving messages from the former
/// to the latter, named after the pipe's two ends.
fn open_channel(name: &str) -> (r: (OneWayChannelSender, OneWayChannelReceiver))
    ensures
        r.0@ == name@ + "_receiver"@,
        r.1@ == name@ + "_sender"@,
{
    let (tx, rx) = new_raw_channel(CHANNEL_CAPACITY);
    let mut sender_name = String::from_str(name);
    sender_name.append("_receiver");
    let mut receiver_name = String::from_str(name);
    receiver_name.append("_sender");
    (
        OneWayChannelSender { name: sender_name, tx },
        OneWayChannelReceiver { name: receiver_name, rx },
    )
}

impl OneWayChannelSender {
    /// The name of this half.
    pub fn get_name(&self) -> (r: &str)
        ensures
            r@ == self@,
    {
        self.name.as_str()
    }

    /// Hands a message to the channel without waiting. Delivery depends on
    /// the shared buffer and the far end, so only the failure report is
    /// stated: a full or closed channel is an error, never a wait.
    pub fn send_message(&self, message: ChatMessage) -> (r: Result<(), CommunicationsError>)
        ensures
            r matches Err(e) ==> (e == CommunicationsError::ChannelFull || e
                == CommunicationsError::ChannelClosed),
    {
        match try_send_raw(&self.tx, message) {
            SendOutcome::Sent => Ok(()),
            SendOutcome::Full(_) => Err(CommunicationsError::ChannelFull),
            SendOutcome::Closed(_) => Err(CommunicationsError::ChannelClosed),
        }
    }
}

impl OneWayChannelReceiver {
    /// The name of this half.
    pub fn get_name(&self) -> (r: &str)
        ensures
            r@ == self@,
    {
        self.name.as_str()
    }

    /// Pulls the messages buffered right now, in the order the channel
    /// holds them, without waiting. One call takes at most the channel's
    /// capacity, which covers everything that was buffered when the drain
    /// began; anything sent meanwhile waits for the next drain. A
    /// drained-and-disconnected channel is reported as end of stream.
    pub fn receive_messages(&mut self) -> (r: Result<Vec<ChatMessage>, CommunicationsError>)
        ensures
            final(self)@ == old(self)@,
            r matches Err(e) ==> e == CommunicationsError::EndOfStream,
            r matches Ok(v) ==> v@.len() <= CHANNEL_CAPACITY,
    {
        let mut messages: Vec<ChatMessage> = Vec::new();
        let mut budget: usize = CHANNEL_CAPACITY;
        while budget > 0
            invariant
                self@ == old(self)@,
                messages@.len() + budget == CHANNEL_CAPACITY,
            decreases budget,
        {
            match try_recv_raw(&mut self.rx) {
                RecvOutcome::Received(message) => messages.push(message),
                RecvOutcome::Empty => {
                    return Ok(messages);
                }
                RecvOutcome::Disconnected => {
                    return Err(CommunicationsError::EndOfStream);
                }
            }
            budget = budget - 1;
        }
        Ok(messages)
    }

    /// Gives up the wrapper and hands out the raw receiving half, for an
    /// integration that wants to await messages on its own.
    pub fn into_receiver(self) -> tokio::sync::mpsc::Receiver<ChatMessage> {
        let OneWayChannelReceiver { name: _, rx } = self;
        rx
    }
}

impl TwoWayChannel {
    /// The name of this side of the connection.
    pub fn get_name(&self) -> (r: &str)
        ensures
            r@ == self@,
    {
        self.name.as_str()
    }

    /// Hands a message to the far side without waiting.
    pub fn send_message(&self, message: ChatMessage) -> (r: Result<(), CommunicationsError>)
        ensures
            r matches Err(e) ==> (e == CommunicationsError::ChannelFull || e
                == CommunicationsError::ChannelClosed),
    {
        self.sender.send_message(message)
    }

    /// Pulls the messages the far side has buffered, without waiting; at
    /// most the channel's capacity per call.
    pub fn receive_messages(&mut self) -> (r: Result<Vec<ChatMessage>, CommunicationsError>)
        ensures
            final(self)@ == old(self)@,
            r matches Err(e) ==> e == CommunicationsError::EndOfStream,
            r matches Ok(v) ==> v@.len() <= CHANNEL_CAPACITY,
    {
        self.receiver.receive_messages()
    }

    /// Takes the connection apart into its raw sending half and raw
    /// receiving half, for an integration task that awaits on its own.
    pub fn into_parts(self) -> (tokio::sync::mpsc::Sender<ChatMessage>, tokio::sync::mpsc::Receiver<ChatMessage>) {
        let TwoWayChannel { name: _, sender, receiver } = self;
        let OneWayChannelSender { name: _, tx } = sender;
        (tx, receiver.into_receiver())
    }
}

/// The mathematical model of a router: the names of its channels, by kind,
/// in registration order.
pub ghost struct CommunicationManagerView {
    pub two_way: Seq<Seq<char>>,
    pub incoming: Seq<Seq<char>>,
    pub outgoing: Seq<Seq<char>>,
}

/// Owns the agent-facing end of every registered channel and merges them
/// into one inbound stream and one outbound sink.
pub struct CommunicationManager {
    two_way_channels: Vec<TwoWayChannel>,
    incoming_channels: Vec<OneWayChannelReceiver>,
    outgoing_channels: Vec<OneWayChannelSender>,
}

impl View for CommunicationManager {
    type V = CommunicationManagerView;

    closed spec fn view(&self) -> CommunicationManagerView {
        CommunicationManagerView {
            two_way: Seq::new(self.two_way_channels@.len(), |i: int| self.two_way_channels@[i]@),
            incoming: Seq::new(
                self.incoming_channels@.len(),
                |i: int| self.incoming_channels@[i]@,
            ),
            outgoing: Seq::new(
                self.outgoing_channels@.len(),
                |i: int| self.outgoing_channels@[i]@,
            ),
        }
    }
}

impl CommunicationManager {
    /// Creates a router with no channels registered.
    pub fn new() -> (r: Self)
        ensures
            r@.two_way.len() == 0,
            r@.incoming.len() == 0,
            r@.outgoing.len() == 0,
    {
        let r = CommunicationManager {
            two_way_channels: Vec::new(),
            incoming_channels: Vec::new(),
            outgoing_channels: Vec::new(),
        };
        proof {
            assert(r@.two_way =~= Seq::<Seq<char>>::empty());
            assert(r@.incoming =~= Seq::<Seq<char>>::empty());
            assert(r@.outgoing =~= Seq::<Seq<char>>::empty());
        }
        r
    }

    /// Creates a two-way connection under `name`: the router keeps the
    /// internal side and the external side is returned, to be handed to an
    /// integration task. Neither side ever sees the other's endpoints.
    pub fn open_two_way_channel(&mut self, name: &str) -> (r: TwoWayChannel)
        ensures
            final(self)@.two_way == old(self)@.two_way.push(name@ + "_internal"@),
            final(self)@.incoming == old(self)@.incoming,
            final(self)@.outgoing == old(self)@.outgoing,
            r@ == name@ + "_external"@,
    {
        let mut to_agent_name = String::from_str(name);
        to_agent_name.append("_to_agent");
        let mut to_external_name = String::from_str(name);
        to_external_name.append("_to_external");
        let (to_agent, agent) = open_channel(to_agent_name.as_str());
        let (to_external, external) = open_channel(to_external_name.as_str());

        let mut internal_name = String::from_str(name);
        internal_name.append("_internal");
        let mut external_name = String::from_str(name);
        external_name.append("_external");

        self.two_way_channels.push(
            TwoWayChannel { name: internal_name, sender: to_external, receiver: agent },
        );
        proof {
            assert(final(self)@.two_way =~= old(self)@.two_way.push(name@ + "_internal"@));
            assert(final(self)@.incoming =~= old(self)@.incoming);
            assert(final(self)@.outgoing =~= old(self)@.outgoing);
        }

        TwoWayChannel { name: external_name, sender: to_agent, receiver: external }
    }

    /// Registers an inbound-only channel under `name` and returns the
    /// sending half for the integration that produces messages.
    pub fn open_incoming_channel(&mut self, name: &str) -> (r: OneWayChannelSender)
        ensures
            final(self)@.incoming == old(self)@.incoming.push(name@ + "_sender"@),
            final(self)@.two_way == old(self)@.two_way,
            final(self)@.outgoing == old(self)@.outgoing,
            r@ == name@ + "_receiver"@,
    {
        let (to_agent, agent) = open_channel(name);
        self.incoming_channels.push(agent);
        proof {
            assert(final(self)@.incoming =~= old(self)@.incoming.push(name@ + "_sender"@));
            assert(final(self)@.two_way =~= old(self)@.two_way);
            assert(final(self)@.outgoing =~= old(self)@.outgoing);
        }
        to_agent
    }

    /// Registers an outbound-only channel under `name` and returns the
    /// receiving half for the integration that consumes messages.
    pub fn open_outgoing_channel(&mut self, name: &str) -> (r: OneWayChannelReceiver)
        ensures
            final(self)@.outgoing == old(self)@.outgoing.push(name@ + "_receiver"@),
            final(self)@.two_way == old(self)@.two_way,
            final(self)@.incoming == old(self)@.incoming,
            r@ == name@ + "_sender"@,
    {
        let (to_external, external) = open_channel(name);
        self.outgoing_channels.push(to_external);
        proof {
            assert(final(self)@.outgoing =~= old(self)@.outgoing.push(name@ + "_receiver"@));
            assert(final(self)@.two_way =~= old(self)@.two_way);
            assert(final(self)@.incoming =~= old(self)@.incoming);
        }
        external
    }

    /// Drains every inbound-capable channel without waiting: first the
    /// two-way channels, then the inbound-only ones, in registration order;
    /// messages of one channel stay contiguous and in channel order. A
    /// channel that reports end of stream is skipped, never fatal. No
    /// channel is registered or dropped by a drain; a router without an
    /// inbound-capable channel yields nothing, and each channel contributes
    /// at most its capacity per drain.
    pub fn receive_messages(&mut self) -> (r: Vec<ChatMessage>)
        ensures
            final(self)@ == old(self)@,
            r@.len() <= (old(self)@.two_way.len() + old(self)@.incoming.len())
                * CHANNEL_CAPACITY,
            old(self)@.two_way.len() == 0 && old(self)@.incoming.len() == 0 ==> r@.len() == 0,
    {
        let mut messages: Vec<ChatMessage> = Vec::new();

        let mut i: usize = 0;
        while i < self.two_way_channels.len()
            invariant
                i <= self.two_way_channels@.len(),
                self@ == old(self)@,
                messages@.len() <= i * CHANNEL_CAPACITY,
            decreases self.two_way_channels@.len() - i,
        {
            let ghost before = self.two_way_channels@;
            let channel = &mut self.two_way_channels[i];
            match channel.receive_messages() {
                Ok(mut msg_list) => messages.append(&mut msg_list),
                Err(_) => (),
            }
            proof {
                assert forall|j: int|
                    0 <= j < self.two_way_channels@.len() implies self.two_way_channels@[j]@
                    == before[j]@ by {}
                assert(Seq::new(
                    self.two_way_channels@.len(),
                    |j: int| self.two_way_channels@[j]@,
                ) =~= Seq::new(before.len(), |j: int| before[j]@));
            }
            i = i + 1;
        }

        let mut k: usize = 0;
        while k < self.incoming_channels.len()
            invariant
                k <= self.incoming_channels@.len(),
                self@ == old(self)@,
                messages@.len() <= (self.two_way_channels@.len() + k) * CHANNEL_CAPACITY,
            decreases self.incoming_channels@.len() - k,
        {
            let ghost before = self.incoming_channels@;
            let channel = &mut self.incoming_channels[k];
            match channel.receive_messages() {
                Ok(mut msg_list) => messages.append(&mut msg_list),
                Err(_) => (),
            }
            proof {
                assert forall|j: int|
                    0 <= j < self.incoming_channels@.len() implies self.incoming_channels@[j]@
                    == before[j]@ by {}
                assert(Seq::new(
                    self.incoming_channels@.len(),
                    |j: int| self.incoming_channels@[j]@,
                ) =~= Seq::new(before.len(), |j: int| before[j]@));
            }
            k = k + 1;
        }

        messages
    }

    /// Pushes a copy of the message to every outbound-capable channel: the
    /// two-way channels, then the outbound-only ones. A channel that cannot
    /// take it is skipped; one failure never keeps the message from the
    /// remaining channels. The names of the channels that refused are
    /// collected and returned, never propagated as an error.
    pub fn send_message(&self, message: &ChatMessage) -> (failures: Vec<String>)
        ensures
            failures@.len() <= self@.two_way.len() + self@.outgoing.len(),
            forall|x: int|
                0 <= x < failures@.len() ==> self.is_outbound_name(failures@[x]@),
            picked_in_order(failures.deep_view(), self@.two_way + self@.outgoing),
    {
        let ghost names: Seq<Seq<char>> = self@.two_way + self@.outgoing;
        let mut failures: Vec<String> = Vec::new();
        let ghost mut picked_at: Seq<int> = Seq::empty();

        let mut i: usize = 0;
        while i < self.two_way_channels.len()
            invariant
                i <= self.two_way_channels@.len(),
                names == self@.two_way + self@.outgoing,
                failures@.len() <= i,
                picked_at.len() == failures@.len(),
                forall|x: int|
                    0 <= x < picked_at.len() ==> 0 <= picked_at[x] < i && failures@[x]@
                        == names[picked_at[x]],
                forall|x: int, y: int|
                    0 <= x < y < picked_at.len() ==> picked_at[x] < picked_at[y],
            decreases self.two_way_channels@.len() - i,
        {
            if self.two_way_channels[i].send_message(message.clone()).is_err() {
                failures.push(self.two_way_channels[i].name.clone());
                proof {
                    picked_at = picked_at.push(i as int);
                    assert(names[i as int] == self@.two_way[i as int]);
                    assert(failures@[failures@.len() - 1]@ == names[i as int]);
                }
            }
            i = i + 1;
        }

        let mut k: usize = 0;
        while k < self.outgoing_channels.len()
            invariant
                k <= self.outgoing_channels@.len(),
                names == self@.two_way + self@.outgoing,
                failures@.len() <= self.two_way_channels@.len() + k,
                picked_at.len() == failures@.len(),
                forall|x: int|
                    0 <= x < picked_at.len() ==> 0 <= picked_at[x]
                        < self.two_way_channels@.len() + k && failures@[x]@
                        == names[picked_at[x]],
                forall|x: int, y: int|
                    0 <= x < y < picked_at.len() ==> picked_at[x] < picked_at[y],
            decreases self.outgoing_channels@.len() - k,
        {
            if self.outgoing_channels[k].send_message(message.clone()).is_err() {
                failures.push(self.outgoing_channels[k].name.clone());
                proof {
                    picked_at = picked_at.push(self.two_way_channels@.len() + k as int);
                    let ghost pos: int = self.two_way_channels@.len() + k as int;
                    assert(names[pos] == self@.outgoing[k as int]);
                    assert(failures@[failures@.len() - 1]@ == names[pos]);
                }
            }
            k = k + 1;
        }

        proof {
            assert forall|x: int|
                0 <= x < picked_at.len() implies 0 <= picked_at[x] < names.len()
                && failures.deep_view()[x] == names[picked_at[x]] by {
                assert(failures.deep_view()[x] == failures@[x]@);
            }
            assert(is_pick_map(picked_at, failures.deep_view(), names));
            assert forall|x: int|
                0 <= x < failures@.len() implies self.is_outbound_name(failures@[x]@) by {
                if picked_at[x] < self@.two_way.len() {
                    assert(failures@[x]@ == self@.two_way[picked_at[x]]);
                } else {
                    assert(failures@[x]@ == self@.outgoing[picked_at[x] - self@.two_way.len()]);
                }
            }
        }
        failures
    }

    /// Whether `name` names an outbound-capable channel of this router.
    pub open spec fn is_outbound_name(self, name: Seq<char>) -> bool {
        (exists|j: int| 0 <= j < self@.two_way.len() && name == self@.two_way[j]) || (exists|
            j: int,
        | 0 <= j < self@.outgoing.len() && name == self@.outgoing[j])
    }
}

/// Whether `at` maps each picked name to its own position in `names`, in
/// strictly increasing order.
pub open spec fn is_pick_map(at: Seq<int>, picked: Seq<Seq<char>>, names: Seq<Seq<char>>) -> bool {
    &&& at.len() == picked.len()
    &&& forall|x: int| 0 <= x < at.len() ==> 0 <= at[x] < names.len() && picked[x] == names[at[x]]
    &&& forall|x: int, y: int| 0 <= x < y < at.len() ==> at[x] < at[y]
}

/// Whether `picked` lists some of `names`: each position contributes at
/// most once, and the picks keep the order of `names`.
pub open spec fn picked_in_order(picked: Seq<Seq<char>>, names: Seq<Seq<char>>) -> bool {
    exists|at: Seq<int>| is_pick_map(at, picked, names)
}

impl Default for CommunicationManager {
    /// The default router has no channels.
    fn default() -> (r: Self)
        ensures
            r@.two_way.len() == 0,
            r@.incoming.len() == 0,
            r@.outgoing.len() == 0,
    {
        Self::new()
    }
}

} // verus!
