//! The ARP resolver: from an interface and a target IPv4 address to the
//! target's hardware address.
//!
//! The resolver neither opens a channel nor waits. It is a transition
//! function: the driver performs the `Action` it is handed, reports what
//! came of it as an `Event`, and gets the next `Action`.

use vstd::prelude::*;
use crate::addr::{Ipv4Addr, MacAddr};
use crate::arp::{lemma_parse_wire, lemma_wire_len, ArpPacket};
use crate::error::Error;
use crate::ethernet::{
    lemma_frame_round_trip,
    payload,
    spec_frame,
    spec_payload,
    EthernetHeader,
    ETHERTYPE_ARP,
};
use crate::interface::{
    first_ipv4,
    has_name,
    is_first_named,
    position_by_name,
    spec_first_ipv4,
    IpNetwork,
    NetworkInterface,
};
use crate::probe::ProbeOutcome;

verus! {

/// What one resolution holds while it runs: who asks, and for whom.
#[derive(Clone, Copy, Debug, PartialEq, Eq, Structural)]
pub struct ArpExchange {
    pub source_ip: Ipv4Addr,
    pub source_mac: MacAddr,
    pub target_ip: Ipv4Addr,
}

impl ArpExchange {
    /// The header of the frame that carries the request: to every station,
    /// from the resolver, ethertype ARP.
    pub open spec fn spec_header(&self) -> EthernetHeader {
        EthernetHeader {
            destination: MacAddr::spec_broadcast(),
            source: self.source_mac,
            ethertype: ETHERTYPE_ARP,
        }
    }

    /// The request of this exchange.
    pub open spec fn spec_request(&self) -> ArpPacket {
        ArpPacket::spec_request(self.source_mac, self.source_ip, self.target_ip)
    }

    /// The 42 octets that are broadcast: the header, then the request.
    pub open spec fn spec_request_frame(&self) -> Seq<u8> {
        spec_frame(self.spec_header(), self.spec_request().wire())
    }

    /// Whether `reply` answers this exchange: it speaks for the address that
    /// was asked for, and it is addressed to the resolver's own hardware
    /// address. Its other fields do not count.
    pub open spec fn answers(&self, reply: ArpPacket) -> bool {
        reply.sender_proto_addr == self.target_ip && reply.target_hw_addr == self.source_mac
    }

    /// The hardware address that an inbound frame settles the exchange with.
    /// A frame too short for a header and an ARP packet settles nothing, and
    /// neither does a packet that does not answer the exchange.
    pub open spec fn spec_accept(&self, frame: Seq<u8>) -> Option<MacAddr> {
        match spec_payload(frame) {
            None => None,
            Some(rest) => match ArpPacket::spec_parse(rest) {
                None => None,
                Some(reply) => if self.answers(reply) {
                    Some(reply.sender_hw_addr)
                } else {
                    None
                },
            },
        }
    }

    /// Builds the frame of `spec_request_frame`.
    pub fn request_frame(&self) -> (frame: Vec<u8>)
        ensures
            frame@ == self.spec_request_frame(),
    {
        let header = EthernetHeader {
            destination: MacAddr::broadcast(),
            source: self.source_mac,
            ethertype: ETHERTYPE_ARP,
        };
        let request = ArpPacket::request(self.source_mac, self.source_ip, self.target_ip);
        let mut frame: Vec<u8> = Vec::new();
        header.write(&mut frame);
        request.write(&mut frame);
        assert(frame@ =~= self.spec_request_frame());
        frame
    }

    /// Judges one inbound frame as `spec_accept` says.
    pub fn accept(&self, frame: &[u8]) -> (mac: Option<MacAddr>)
        ensures
            mac == self.spec_accept(frame@),
    {
        match payload(frame) {
            None => None,
            Some(rest) => match ArpPacket::parse(rest) {
                None => None,
                Some(reply) => {
                    if reply.sender_proto_addr == self.target_ip && reply.target_hw_addr
                        == self.source_mac {
                        Some(reply.sender_hw_addr)
                    } else {
                        None
                    }
                },
            },
        }
    }
}

/// How a resolution starts, once the interface is known.
#[derive(Clone, Copy, Debug, PartialEq, Eq, Structural)]
pub enum Begin {
    /// The target is the interface's own address: the answer is its own
    /// hardware address, and nothing goes on the wire.
    Resolved(MacAddr),
    /// The target is another host: a request has to be broadcast.
    Exchange(ArpExchange),
}

/// How a resolution on an interface with hardware address `mac` and bound
/// addresses `ips` starts. The source address is the first IPv4 address
/// bound; a missing IPv4 address is reported before a missing hardware
/// address.
pub open spec fn spec_begin(
    mac: Option<MacAddr>,
    ips: Seq<IpNetwork>,
    target_ip: Ipv4Addr,
) -> Result<Begin, Error> {
    match spec_first_ipv4(ips) {
        None => Err(Error::NoIpv4Address),
        Some(source_ip) => match mac {
            None => Err(Error::NoHardwareAddress),
            Some(source_mac) => if source_ip == target_ip {
                Ok(Begin::Resolved(source_mac))
            } else {
                Ok(Begin::Exchange(ArpExchange { source_ip, source_mac, target_ip }))
            },
        },
    }
}

/// Starts a resolution on `interface` as `spec_begin` says.
pub fn begin(interface: &NetworkInterface, target_ip: Ipv4Addr) -> (r: Result<Begin, Error>)
    ensures
        r == spec_begin(interface.mac, interface.ips@, target_ip),
{
    let source_ip = match first_ipv4(&interface.ips) {
        None => { return Err(Error::NoIpv4Address); },
        Some(ip) => ip,
    };
    let source_mac = match interface.mac {
        None => { return Err(Error::NoHardwareAddress); },
        Some(mac) => mac,
    };
    if source_ip == target_ip {
        Ok(Begin::Resolved(source_mac))
    } else {
        Ok(Begin::Exchange(ArpExchange { source_ip, source_mac, target_ip }))
    }
}

/// One resolution to make: the interface to ask on and the address to ask for.
#[derive(Clone, Debug)]
pub struct ArpCall {
    pub interface: NetworkInterface,
    pub target_ip: Ipv4Addr,
}

impl ArpCall {
    pub fn new(interface: NetworkInterface, target_ip: Ipv4Addr) -> (call: ArpCall)
        ensures
            call.interface == interface,
            call.target_ip == target_ip,
    {
        ArpCall { interface, target_ip }
    }

    /// How this resolution starts.
    pub open spec fn spec_begin(&self) -> Result<Begin, Error> {
        spec_begin(self.interface.mac, self.interface.ips@, self.target_ip)
    }

    /// Starts the resolution: an answer at once, an exchange to run, or the
    /// reason why the interface cannot be asked on.
    pub fn begin(&self) -> (r: Result<Begin, Error>)
        ensures
            r == self.spec_begin(),
    {
        begin(&self.interface, self.target_ip)
    }
}

/// Where a resolution stands.
#[derive(Clone, Copy, Debug, PartialEq, Eq, Structural)]
pub enum State {
    /// A liveness probe to the target is under way.
    Probing(Ipv4Addr),
    /// The chosen interface and the host's interfaces are being read.
    Choosing(Ipv4Addr),
    /// A link-layer channel on the interface is being opened.
    Opening(ArpExchange),
    /// The request has been handed over for transmission.
    Sending(ArpExchange),
    /// The request is out; frames are awaited.
    Listening(ArpExchange),
    /// The resolution has ended, with an answer or a failure.
    Finished,
}

/// What the driver reports back.
#[derive(Clone, Debug)]
pub enum Event {
    /// The liveness probe ended.
    Probed(ProbeOutcome),
    /// The name of the chosen interface, if one is chosen, and the host's
    /// interfaces as they are now.
    Interfaces { chosen: Option<String>, all: Vec<NetworkInterface> },
    /// The channel is open.
    ChannelOpened,
    /// The channel could not be opened, or is of a kind that carries no
    /// Ethernet frames.
    ChannelFailed,
    /// The frame was written to the channel.
    Sent,
    /// The channel refused the frame.
    SendFailed,
    /// A frame came in.
    Frame(Vec<u8>),
    /// Reading from the channel failed.
    ReceiveFailed,
    /// The wait that the driver set for a reply is over.
    TimedOut,
}

/// What the driver is to do next.
#[derive(Clone, Debug)]
pub enum Action {
    /// Send one echo request to the address and report how it ended.
    Probe(Ipv4Addr),
    /// Report the chosen interface and the host's interfaces.
    ReadInterfaces,
    /// Open a channel on the interface at this position of the list reported.
    OpenChannel(usize),
    /// Write these octets to the channel, once.
    Transmit(Vec<u8>),
    /// Wait for the next frame.
    Receive,
    /// Stop: the target's hardware address is this.
    Done(MacAddr),
    /// Stop: the resolution failed.
    Fail(Error),
}

/// An `Action` with its frame as a sequence of octets.
pub enum ActionView {
    Probe(Ipv4Addr),
    ReadInterfaces,
    OpenChannel(usize),
    Transmit(Seq<u8>),
    Receive,
    Done(MacAddr),
    Fail(Error),
}

impl View for Action {
    type V = ActionView;

    open spec fn view(&self) -> ActionView {
        match self {
            Action::Probe(ip) => ActionView::Probe(*ip),
            Action::ReadInterfaces => ActionView::ReadInterfaces,
            Action::OpenChannel(i) => ActionView::OpenChannel(*i),
            Action::Transmit(frame) => ActionView::Transmit(frame@),
            Action::Receive => ActionView::Receive,
            Action::Done(mac) => ActionView::Done(*mac),
            Action::Fail(e) => ActionView::Fail(*e),
        }
    }
}

/// The position of the chosen interface among `all`: the first one that
/// bears the chosen name. With nothing chosen, or no interface of that name,
/// there is none.
pub open spec fn spec_select(chosen: Option<String>, all: Seq<NetworkInterface>) -> Result<
    usize,
    Error,
> {
    match chosen {
        None => Err(Error::NoInterfaceChosen),
        Some(name) => if has_name(all, name@) {
            Ok((choose|i: int| is_first_named(all, name@, i)) as usize)
        } else {
            Err(Error::InterfaceNotFound)
        },
    }
}

/// Only one position is that of the first interface of a given name.
pub proof fn lemma_first_named_at(all: Seq<NetworkInterface>, name: String, i: int)
    requires
        is_first_named(all, name@, i),
    ensures
        has_name(all, name@),
        (choose|k: int| is_first_named(all, name@, k)) == i,
{
    let k = choose|k: int| is_first_named(all, name@, k);
    assert(is_first_named(all, name@, k));
    if k < i {
        assert(all[k].name@ != name@);
    }
    if i < k {
        assert(all[i].name@ != name@);
    }
}

/// Finds the chosen interface among `all` as `spec_select` says.
pub fn select(chosen: &Option<String>, all: &Vec<NetworkInterface>) -> (r: Result<usize, Error>)
    ensures
        r == spec_select(*chosen, all@),
        r is Ok ==> r->Ok_0 < all@.len(),
{
    match chosen {
        None => Err(Error::NoInterfaceChosen),
        Some(name) => match position_by_name(all, name) {
            None => Err(Error::InterfaceNotFound),
            Some(i) => {
                proof {
                    lemma_first_named_at(all@, *name, i as int);
                }
                Ok(i)
            },
        },
    }
}

/// What follows once the interfaces are known: the failure to find the
/// chosen one or to start on it, the answer where the target is the
/// interface's own address, or the channel to open.
pub open spec fn spec_choose(
    target_ip: Ipv4Addr,
    chosen: Option<String>,
    all: Seq<NetworkInterface>,
) -> (State, ActionView) {
    match spec_select(chosen, all) {
        Err(e) => (State::Finished, ActionView::Fail(e)),
        Ok(i) => match spec_begin(all[i as int].mac, all[i as int].ips@, target_ip) {
            Err(e) => (State::Finished, ActionView::Fail(e)),
            Ok(Begin::Resolved(mac)) => (State::Finished, ActionView::Done(mac)),
            Ok(Begin::Exchange(exchange)) => (State::Opening(exchange), ActionView::OpenChannel(i)),
        },
    }
}

/// The resolver's transition function.
///
/// A probe that got a reply leads on to the interfaces, any other outcome
/// ends the resolution. An open channel gets the request, once. After that
/// every frame is judged by `ArpExchange::spec_accept`: the first one
/// accepted ends the resolution with its sender's hardware address, every
/// other one is skipped. A failure of the channel ends it, and so does the
/// end of the wait, which is the driver's to set: the resolver itself never
/// gives up listening. An event that the state does not await ends it with
/// `Error::OutOfSequence`.
pub open spec fn spec_step(state: State, event: Event) -> (State, ActionView) {
    match (state, event) {
        (State::Probing(target_ip), Event::Probed(outcome)) => if outcome
            == ProbeOutcome::Replied {
            (State::Choosing(target_ip), ActionView::ReadInterfaces)
        } else {
            (State::Finished, ActionView::Fail(Error::TargetOffline))
        },
        (State::Choosing(target_ip), Event::Interfaces { chosen, all }) => spec_choose(
            target_ip,
            chosen,
            all@,
        ),
        (State::Opening(exchange), Event::ChannelOpened) => (
            State::Sending(exchange),
            ActionView::Transmit(exchange.spec_request_frame()),
        ),
        (State::Opening(_), Event::ChannelFailed) => (
            State::Finished,
            ActionView::Fail(Error::Channel),
        ),
        (State::Sending(exchange), Event::Sent) => (
            State::Listening(exchange),
            ActionView::Receive,
        ),
        (State::Sending(_), Event::SendFailed) => (
            State::Finished,
            ActionView::Fail(Error::Channel),
        ),
        (State::Listening(exchange), Event::Frame(frame)) => match exchange.spec_accept(frame@) {
            Some(mac) => (State::Finished, ActionView::Done(mac)),
            None => (State::Listening(exchange), ActionView::Receive),
        },
        (State::Listening(_), Event::ReceiveFailed) => (
            State::Finished,
            ActionView::Fail(Error::Receive),
        ),
        (State::Listening(_), Event::TimedOut) => (
            State::Finished,
            ActionView::Fail(Error::NoReply),
        ),
        _ => (State::Finished, ActionView::Fail(Error::OutOfSequence)),
    }
}

/// Begins the resolution of `target_ip`: the first thing to do is to probe it.
pub fn start(target_ip: Ipv4Addr) -> (r: (State, Action))
    ensures
        r.0 == State::Probing(target_ip),
        r.1@ == ActionView::Probe(target_ip),
{
    (State::Probing(target_ip), Action::Probe(target_ip))
}

/// Begins the resolution of `target_ip` without a probe: the first thing to
/// do is to read the interfaces.
pub fn start_unprobed(target_ip: Ipv4Addr) -> (r: (State, Action))
    ensures
        r.0 == State::Choosing(target_ip),
        r.1@ == ActionView::ReadInterfaces,
{
    (State::Choosing(target_ip), Action::ReadInterfaces)
}

/// Takes the resolution one step further, as `spec_step` says.
pub fn step(state: State, event: &Event) -> (r: (State, Action))
    ensures
        r.0 == spec_step(state, *event).0,
        r.1@ == spec_step(state, *event).1,
{
    match state {
        State::Probing(target_ip) => match event {
            Event::Probed(outcome) => match outcome {
                ProbeOutcome::Replied => (State::Choosing(target_ip), Action::ReadInterfaces),
                _ => (State::Finished, Action::Fail(Error::TargetOffline)),
            },
            _ => (State::Finished, Action::Fail(Error::OutOfSequence)),
        },
        State::Choosing(target_ip) => match event {
            Event::Interfaces { chosen, all } => match select(chosen, all) {
                Err(e) => (State::Finished, Action::Fail(e)),
                Ok(i) => match begin(&all[i], target_ip) {
                    Err(e) => (State::Finished, Action::Fail(e)),
                    Ok(Begin::Resolved(mac)) => (State::Finished, Action::Done(mac)),
                    Ok(Begin::Exchange(exchange)) => (
                        State::Opening(exchange),
                        Action::OpenChannel(i),
                    ),
                },
            },
            _ => (State::Finished, Action::Fail(Error::OutOfSequence)),
        },
        State::Opening(exchange) => match event {
            Event::ChannelOpened => (
                State::Sending(exchange),
                Action::Transmit(exchange.request_frame()),
            ),
            Event::ChannelFailed => (State::Finished, Action::Fail(Error::Channel)),
            _ => (State::Finished, Action::Fail(Error::OutOfSequence)),
        },
        State::Sending(exchange) => match event {
            Event::Sent => (State::Listening(exchange), Action::Receive),
            Event::SendFailed => (State::Finished, Action::Fail(Error::Channel)),
            _ => (State::Finished, Action::Fail(Error::OutOfSequence)),
        },
        State::Listening(exchange) => match event {
            Event::Frame(frame) => match exchange.accept(frame.as_slice()) {
                Some(mac) => (State::Finished, Action::Done(mac)),
                None => (State::Listening(exchange), Action::Receive),
            },
            Event::ReceiveFailed => (State::Finished, Action::Fail(Error::Receive)),
            Event::TimedOut => (State::Finished, Action::Fail(Error::NoReply)),
            _ => (State::Finished, Action::Fail(Error::OutOfSequence)),
        },
        State::Finished => (State::Finished, Action::Fail(Error::OutOfSequence)),
    }
}

/// The actions that a run of the resolver yields: one for each event, each
/// taken in the state that the one before left.
pub open spec fn spec_run(state: State, events: Seq<Event>) -> Seq<ActionView>
    decreases events.len(),
{
    if events.len() == 0 {
        Seq::empty()
    } else {
        let r = spec_step(state, events[0]);
        seq![r.1] + spec_run(r.0, events.drop_first())
    }
}

/// The state in which a run ends.
pub open spec fn spec_run_state(state: State, events: Seq<Event>) -> State
    decreases events.len(),
{
    if events.len() == 0 {
        state
    } else {
        spec_run_state(spec_step(state, events[0]).0, events.drop_first())
    }
}

/// The actions of `actions` with their frames as sequences of octets.
pub open spec fn actions_view(actions: Seq<Action>) -> Seq<ActionView> {
    actions.map_values(|a: Action| a@)
}

/// Replays a recorded sequence of events from `state`: the state in which
/// the run ends, and the action that each event led to.
pub fn run(state: State, events: &Vec<Event>) -> (r: (State, Vec<Action>))
    ensures
        r.0 == spec_run_state(state, events@),
        actions_view(r.1@) == spec_run(state, events@),
{
    let mut current = state;
    let mut actions: Vec<Action> = Vec::new();
    let mut i: usize = 0;
    assert(events@.skip(0) =~= events@);
    while i < events.len()
        invariant
            i <= events@.len(),
            spec_run_state(current, events@.skip(i as int)) == spec_run_state(state, events@),
            actions_view(actions@) + spec_run(current, events@.skip(i as int)) =~= spec_run(
                state,
                events@,
            ),
        decreases events@.len() - i,
    {
        let ghost rest = events@.skip(i as int);
        let ghost before = actions@;
        let next = step(current, &events[i]);
        proof {
            assert(rest[0] == events@[i as int]);
            assert(rest.drop_first() =~= events@.skip(i + 1));
        }
        current = next.0;
        actions.push(next.1);
        proof {
            assert(actions_view(actions@) =~= actions_view(before) + seq![next.1@]);
        }
        i += 1;
    }
    (current, actions)
}

/// How many of `actions` put a frame on the wire.
pub open spec fn transmissions(actions: Seq<ActionView>) -> nat
    decreases actions.len(),
{
    if actions.len() == 0 {
        0
    } else {
        transmissions(actions.drop_first()) + if actions[0] is Transmit {
            1nat
        } else {
            0nat
        }
    }
}

/// Whether a resolution in `state` has its request still to send.
pub open spec fn request_pending(state: State) -> bool {
    state is Probing || state is Choosing || state is Opening
}

/// A run yields one action for each event.
pub proof fn lemma_run_len(state: State, events: Seq<Event>)
    ensures
        spec_run(state, events).len() == events.len(),
    decreases events.len(),
{
    if events.len() > 0 {
        lemma_run_len(spec_step(state, events[0]).0, events.drop_first());
    }
}

/// The request goes out once. Whatever is reported to the resolver, and in
/// whatever order, a run transmits at most one frame, and none at all once
/// the request is out or the resolution has ended.
pub proof fn lemma_transmits_at_most_once(state: State, events: Seq<Event>)
    ensures
        transmissions(spec_run(state, events)) <= 1,
        !request_pending(state) ==> transmissions(spec_run(state, events)) == 0,
    decreases events.len(),
{
    if events.len() > 0 {
        let first = spec_step(state, events[0]);
        let rest = spec_run(first.0, events.drop_first());
        let run = spec_run(state, events);
        lemma_transmits_at_most_once(first.0, events.drop_first());
        assert(run.drop_first() =~= rest);
        assert(run[0] == first.1);
        assert(first.1 is Transmit ==> state is Opening && first.0 is Sending);
        assert(!request_pending(state) ==> !request_pending(first.0));
    }
}

/// Self-resolution. On an interface with a hardware address, a target that
/// is the interface's own address (the first IPv4 address bound to it)
/// resolves to that hardware address at once, with no exchange.
pub proof fn lemma_self_resolution(mac: MacAddr, ips: Seq<IpNetwork>, own_ip: Ipv4Addr)
    requires
        spec_first_ipv4(ips) == Some(own_ip),
    ensures
        spec_begin(Some(mac), ips, own_ip) == Ok::<Begin, Error>(Begin::Resolved(mac)),
{
}

/// Self-resolution sends no frame. Where the chosen interface has a
/// hardware address and the target is its own address, the resolver answers
/// with that hardware address as soon as it is told the interfaces, and
/// whatever is reported to it afterwards, the whole run transmits nothing.
pub proof fn lemma_self_resolution_is_silent(
    own_ip: Ipv4Addr,
    chosen: Option<String>,
    all: Vec<NetworkInterface>,
    later: Seq<Event>,
)
    requires
        spec_select(chosen, all@) is Ok,
        all@[spec_select(chosen, all@)->Ok_0 as int].mac is Some,
        spec_first_ipv4(all@[spec_select(chosen, all@)->Ok_0 as int].ips@) == Some(own_ip),
    ensures
        spec_run(State::Choosing(own_ip), seq![Event::Interfaces { chosen, all }] + later)[0]
            == ActionView::Done(all@[spec_select(chosen, all@)->Ok_0 as int].mac->Some_0),
        transmissions(
            spec_run(State::Choosing(own_ip), seq![Event::Interfaces { chosen, all }] + later),
        ) == 0,
{
    let events = seq![Event::Interfaces { chosen, all }] + later;
    let run = spec_run(State::Choosing(own_ip), events);
    let first = spec_step(State::Choosing(own_ip), events[0]);
    let rest = spec_run(first.0, events.drop_first());
    assert(events[0] == Event::Interfaces { chosen, all });
    assert(events.drop_first() =~= later);
    assert(first.0 == State::Finished);
    assert(run.drop_first() =~= rest);
    assert(run[0] == first.1);
    lemma_transmits_at_most_once(State::Finished, later);
}

/// An exchange is only ever set up for another host: it carries the
/// interface's hardware address and its first IPv4 address as the source,
/// and a target that differs from that source.
pub proof fn lemma_exchange_is_for_another_host(
    mac: Option<MacAddr>,
    ips: Seq<IpNetwork>,
    target_ip: Ipv4Addr,
)
    requires
        spec_begin(mac, ips, target_ip) is Ok,
        spec_begin(mac, ips, target_ip)->Ok_0 is Exchange,
    ensures
        spec_begin(mac, ips, target_ip)->Ok_0->Exchange_0.target_ip == target_ip,
        spec_begin(mac, ips, target_ip)->Ok_0->Exchange_0.source_ip != target_ip,
        mac == Some(spec_begin(mac, ips, target_ip)->Ok_0->Exchange_0.source_mac),
        spec_first_ipv4(ips) == Some(spec_begin(mac, ips, target_ip)->Ok_0->Exchange_0.source_ip),
{
}

/// The frame that is broadcast is 42 octets long; its header names every
/// station as destination, the resolver as source and ARP as ethertype; and
/// what it carries parses back to the request, field for field.
pub proof fn lemma_request_frame(exchange: ArpExchange)
    ensures
        exchange.spec_request_frame().len() == 42,
        EthernetHeader::spec_parse(exchange.spec_request_frame()) == Some(exchange.spec_header()),
        spec_payload(exchange.spec_request_frame()) == Some(exchange.spec_request().wire()),
        ArpPacket::spec_parse(exchange.spec_request().wire()) == Some(exchange.spec_request()),
{
    lemma_frame_round_trip(exchange.spec_header(), exchange.spec_request().wire());
    lemma_wire_len(exchange.spec_request());
    lemma_parse_wire(exchange.spec_request());
}

/// Acceptance needs both conditions. A frame that carries the ARP packet
/// `reply`, under any header and with anything after the packet, settles
/// the exchange if and only if the reply's sender protocol address is the
/// target asked for and its target hardware address is the resolver's own;
/// it then settles it with the reply's sender hardware address. A reply
/// that meets one condition only is passed over.
pub proof fn lemma_accept_needs_both(
    exchange: ArpExchange,
    header: EthernetHeader,
    reply: ArpPacket,
    trailer: Seq<u8>,
)
    ensures
        reply.sender_proto_addr == exchange.target_ip && reply.target_hw_addr
            == exchange.source_mac ==> exchange.spec_accept(
            spec_frame(header, reply.wire() + trailer),
        ) == Some(reply.sender_hw_addr),
        reply.sender_proto_addr != exchange.target_ip || reply.target_hw_addr
            != exchange.source_mac ==> exchange.spec_accept(
            spec_frame(header, reply.wire() + trailer),
        ) is None,
{
    lemma_frame_round_trip(header, reply.wire() + trailer);
    lemma_parse_wire(reply);
    lemma_wire_len(reply);
    let rest = reply.wire() + trailer;
    assert(rest.len() >= 28);
    assert forall|i: int| 0 <= i < 28 implies rest[i] == reply.wire()[i] by {
    }
    assert(ArpPacket::spec_parse(rest) == ArpPacket::spec_parse(reply.wire()));
}

/// A frame too short to hold a header and an ARP packet settles nothing.
pub proof fn lemma_short_frame_is_skipped(exchange: ArpExchange, frame: Seq<u8>)
    requires
        frame.len() < 42,
    ensures
        exchange.spec_accept(frame) is None,
{
}

/// The resolver does not take its own request for an answer: where an
/// exchange is under way the target differs from the source, so the request,
/// heard back from the segment, is passed over.
pub proof fn lemma_own_request_is_skipped(exchange: ArpExchange)
    requires
        exchange.source_ip != exchange.target_ip,
    ensures
        exchange.spec_accept(exchange.spec_request_frame()) is None,
{
    lemma_request_frame(exchange);
}

} // verus!
