use vstd::prelude::*;
use vstd::string::StringSliceAdditionalSpecFns;
use crate::channel::{random_id, Channel};
use crate::ids::{all_ids, ids_of, parse_uuids, split_fields};
use crate::role::{role_of, AttachError, ClientRole};

verus! {

/// What the transport hands over from a client's connection.
pub enum Frame {
    /// A text message.
    Text(String),
    /// The client closed the connection.
    Close,
    /// A frame that is neither text nor close.
    Other,
    /// The connection failed.
    Broken,
}

/// What a publisher's engine does with one inbound frame.
#[derive(Debug)]
pub enum PublisherStep {
    /// Publish this text on every bound channel.
    Publish(String),
    /// Drop the frame with a warning and read on.
    Ignore,
    /// End the session.
    Stop,
}

/// What one of a subscriber's cursors yields.
pub enum BusEvent {
    /// The next message on the channel.
    Message(String),
    /// The cursor fell behind and skipped this many messages.
    Lagged(u64),
    /// The bus is shut down for good.
    Closed,
}

/// What a subscriber's forwarder does with one cursor event.
#[derive(Debug)]
pub enum ForwardStep {
    /// Send this text on the connection.
    Send(String),
    /// Report the skip and read on from the new position.
    Overrun(u64),
    /// This forwarder ends.
    Stop,
}

/// Where a client's engine stands.
#[derive(Debug, Clone, Copy, PartialEq, Eq, Structural)]
pub enum EngineState {
    Attached,
    Running,
    Terminated,
}

/// The decisions of one attached client, apart from its connection.
pub struct Session {
    id: u128,
    role: ClientRole,
    state: EngineState,
}

/// The role and channel ids that an attach request asks for, checked in that
/// order: a missing or unknown role, then a missing or unreadable id list.
pub open spec fn attach_outcome(role: Option<Seq<u8>>, channels: Option<Seq<u8>>) -> Result<
    (ClientRole, Seq<u128>),
    AttachError,
> {
    match role {
        None => Err(AttachError::MissingRole),
        Some(r) => match role_of(r) {
            None => Err(AttachError::InvalidRole),
            Some(cr) => match channels {
                None => Err(AttachError::MissingChannels),
                Some(c) => if all_ids(split_fields(c)) {
                    Ok((cr, ids_of(split_fields(c))))
                } else {
                    Err(AttachError::UnparsableChannels)
                },
            },
        },
    }
}

/// A forwarder's step for one cursor event.
pub open spec fn forward_of(event: BusEvent) -> ForwardStep {
    match event {
        BusEvent::Message(m) => ForwardStep::Send(m),
        BusEvent::Lagged(n) => ForwardStep::Overrun(n),
        BusEvent::Closed => ForwardStep::Stop,
    }
}

/// The texts of the messages among `events`, in order.
pub open spec fn messages_of(events: Seq<BusEvent>) -> Seq<Seq<char>>
    decreases events.len(),
{
    if events.len() == 0 {
        Seq::empty()
    } else {
        let head = messages_of(events.drop_last());
        match events.last() {
            BusEvent::Message(m) => head.push(m@),
            _ => head,
        }
    }
}

/// The texts that `steps` send on the connection, in order.
pub open spec fn sent_by(steps: Seq<ForwardStep>) -> Seq<Seq<char>>
    decreases steps.len(),
{
    if steps.len() == 0 {
        Seq::empty()
    } else {
        let head = sent_by(steps.drop_last());
        match steps.last() {
            ForwardStep::Send(m) => head.push(m@),
            _ => head,
        }
    }
}

/// A forwarder sends each message its cursor yields exactly once, in the order
/// the cursor yields them, and sends nothing else: no message is lost,
/// repeated or reordered between the bus and the connection.
pub proof fn lemma_forwarding_is_faithful(events: Seq<BusEvent>)
    ensures
        sent_by(events.map_values(|e: BusEvent| forward_of(e))) == messages_of(events),
    decreases events.len(),
{
    if events.len() > 0 {
        lemma_forwarding_is_faithful(events.drop_last());
        assert(events.map_values(|e: BusEvent| forward_of(e)).drop_last()
            =~= events.drop_last().map_values(|e: BusEvent| forward_of(e)));
    }
}

/// Checks an attach request before any connection is upgraded.
pub fn check_attach(role: Option<&str>, channels: Option<&str>) -> (r: Result<
    (ClientRole, Vec<u128>),
    AttachError,
>)
    ensures
        match r {
            Ok((cr, ids)) => attach_outcome(
                match role { Some(s) => Some(s.spec_bytes()), None => None },
                match channels { Some(s) => Some(s.spec_bytes()), None => None },
            ) == Ok::<(ClientRole, Seq<u128>), AttachError>((cr, ids@)),
            Err(e) => attach_outcome(
                match role { Some(s) => Some(s.spec_bytes()), None => None },
                match channels { Some(s) => Some(s.spec_bytes()), None => None },
            ) == Err::<(ClientRole, Seq<u128>), AttachError>(e),
        },
{
    let cr = match role {
        None => {
            return Err(AttachError::MissingRole);
        },
        Some(s) => match ClientRole::parse(s) {
            Ok(cr) => cr,
            Err(_) => {
                return Err(AttachError::InvalidRole);
            },
        },
    };
    match channels {
        None => Err(AttachError::MissingChannels),
        Some(c) => match parse_uuids(c) {
            Some(ids) => Ok((cr, ids)),
            None => Err(AttachError::UnparsableChannels),
        },
    }
}

/// Publishes `text` on each channel in turn, whatever became of the others,
/// and reports each outcome at the channel's position: how many cursors were
/// attached, or `None` when there were none.
pub fn publish_all(channels: &mut Vec<Channel>, text: &String) -> (r: Vec<Option<usize>>)
    ensures
        r@.len() == old(channels)@.len(),
        final(channels)@.len() == old(channels)@.len(),
        forall|i: int| 0 <= i < r@.len() ==> (#[trigger] r@[i] matches Some(n) ==> n >= 1),
        forall|i: int|
            0 <= i < final(channels)@.len() ==> {
                &&& (#[trigger] final(channels)@[i]).sent_spec() == old(channels)@[i].sent_spec().push(
                    text@,
                )
                &&& final(channels)@[i].id_spec() == old(channels)@[i].id_spec()
                &&& final(channels)@[i].name_spec() == old(channels)@[i].name_spec()
                &&& final(channels)@[i].size_spec() == old(channels)@[i].size_spec()
            },
{
    let mut out: Vec<Option<usize>> = Vec::new();
    let mut i: usize = 0;
    while i < channels.len()
        invariant
            0 <= i <= channels@.len(),
            channels@.len() == old(channels)@.len(),
            out@.len() == i,
            forall|k: int| 0 <= k < out@.len() ==> (#[trigger] out@[k] matches Some(n) ==> n >= 1),
            forall|k: int|
                0 <= k < i ==> {
                    &&& (#[trigger] channels@[k]).sent_spec() == old(channels)@[k].sent_spec().push(
                        text@,
                    )
                    &&& channels@[k].id_spec() == old(channels)@[k].id_spec()
                    &&& channels@[k].name_spec() == old(channels)@[k].name_spec()
                    &&& channels@[k].size_spec() == old(channels)@[k].size_spec()
                },
            forall|k: int| i <= k < channels@.len() ==> #[trigger] channels@[k] == old(channels)@[k],
        decreases channels@.len() - i,
    {
        let outcome = channels[i].publish(text.clone());
        out.push(outcome);
        i = i + 1;
    }
    out
}

impl Session {
    pub closed spec fn id_spec(&self) -> u128 {
        self.id
    }

    pub closed spec fn role_spec(&self) -> ClientRole {
        self.role
    }

    pub closed spec fn state_spec(&self) -> EngineState {
        self.state
    }

    /// A session for a client just attached in `role`, with a fresh random id.
    pub fn new(role: ClientRole) -> (r: Session)
        ensures
            r.role_spec() == role,
            r.state_spec() == EngineState::Attached,
    {
        Session { id: random_id(), role, state: EngineState::Attached }
    }

    pub fn get_id(&self) -> (r: u128)
        ensures
            r == self.id_spec(),
    {
        self.id
    }

    pub fn get_role(&self) -> (r: ClientRole)
        ensures
            r == self.role_spec(),
    {
        self.role
    }

    pub fn get_state(&self) -> (r: EngineState)
        ensures
            r == self.state_spec(),
    {
        self.state
    }

    /// The engine starts running once the connection is up.
    pub fn start(&mut self)
        requires
            old(self).state_spec() == EngineState::Attached,
        ensures
            final(self).state_spec() == EngineState::Running,
            final(self).role_spec() == old(self).role_spec(),
            final(self).id_spec() == old(self).id_spec(),
    {
        self.state = EngineState::Running;
    }

    /// A publisher's reaction to one inbound frame: text is published, a close
    /// or a broken connection ends the session, anything else is dropped.
    pub fn on_frame(&mut self, frame: Frame) -> (r: PublisherStep)
        requires
            old(self).state_spec() == EngineState::Running,
        ensures
            final(self).role_spec() == old(self).role_spec(),
            final(self).id_spec() == old(self).id_spec(),
            match frame {
                Frame::Text(t) => r matches PublisherStep::Publish(p) && p@ == t@
                    && final(self).state_spec() == EngineState::Running,
                Frame::Other => r is Ignore && final(self).state_spec() == EngineState::Running,
                Frame::Close => r is Stop && final(self).state_spec() == EngineState::Terminated,
                Frame::Broken => r is Stop && final(self).state_spec() == EngineState::Terminated,
            },
    {
        match frame {
            Frame::Text(t) => PublisherStep::Publish(t),
            Frame::Other => PublisherStep::Ignore,
            Frame::Close => {
                self.state = EngineState::Terminated;
                PublisherStep::Stop
            },
            Frame::Broken => {
                self.state = EngineState::Terminated;
                PublisherStep::Stop
            },
        }
    }

    /// A subscriber forwarder's reaction to one cursor event: each message is
    /// sent once, as it came; a skip is reported and reading goes on; a closed
    /// bus ends that forwarder.
    pub fn on_bus_event(&self, event: BusEvent) -> (r: ForwardStep)
        ensures
            r == forward_of(event),
    {
        match event {
            BusEvent::Message(m) => ForwardStep::Send(m),
            BusEvent::Lagged(n) => ForwardStep::Overrun(n),
            BusEvent::Closed => ForwardStep::Stop,
        }
    }

    /// After a send on the connection: a failed send ends the whole session,
    /// and with it every forwarder; a delivered one changes nothing.
    pub fn on_send_result(&mut self, delivered: bool)
        ensures
            final(self).role_spec() == old(self).role_spec(),
            final(self).id_spec() == old(self).id_spec(),
            final(self).state_spec() == if delivered {
                old(self).state_spec()
            } else {
                EngineState::Terminated
            },
    {
        if !delivered {
            self.state = EngineState::Terminated;
        }
    }

    /// Whether the session has ended.
    pub fn is_terminated(&self) -> (r: bool)
        ensures
            r == (self.state_spec() == EngineState::Terminated),
    {
        match self.state {
            EngineState::Terminated => true,
            _ => false,
        }
    }
}

} // verus!
