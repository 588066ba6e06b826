//! Network interfaces as a snapshot of plain values, and the lookups on them.

use vstd::prelude::*;
use crate::addr::{Ipv4Addr, MacAddr};
use crate::error::Error;
use crate::text::{ipv4_network_text, mac_text, render_ipv4_network};

verus! {

/// An IPv4 address bound to an interface, with the length of its network
/// prefix, which is at most 32.
#[derive(Clone, Copy, Debug, PartialEq, Eq, Structural)]
pub struct Ipv4Network {
    addr: Ipv4Addr,
    prefix: u8,
}

impl Ipv4Network {
    #[verifier::type_invariant]
    spec fn prefix_fits(self) -> bool {
        self.prefix <= 32
    }

    /// The address.
    pub closed spec fn spec_addr(self) -> Ipv4Addr {
        self.addr
    }

    /// The length of the network prefix.
    pub closed spec fn spec_prefix(self) -> u8 {
        self.prefix
    }

    /// The network of `addr` with a prefix of `prefix` bits; none where
    /// `prefix` is more than 32.
    pub fn new(addr: Ipv4Addr, prefix: u8) -> (net: Option<Ipv4Network>)
        ensures
            net is Some <==> prefix <= 32,
            net is Some ==> net->Some_0.spec_addr() == addr && net->Some_0.spec_prefix() == prefix,
    {
        if prefix <= 32 {
            Some(Ipv4Network { addr, prefix })
        } else {
            None
        }
    }

    #[verifier::when_used_as_spec(spec_addr)]
    pub fn addr(self) -> (a: Ipv4Addr)
        ensures
            a == self.spec_addr(),
    {
        self.addr
    }

    #[verifier::when_used_as_spec(spec_prefix)]
    pub fn prefix(self) -> (p: u8)
        ensures
            p == self.spec_prefix(),
            p <= 32,
    {
        proof {
            use_type_invariant(&self);
        }
        self.prefix
    }

    /// The network in text: the address in dotted decimal notation, a
    /// slash, the length of the prefix.
    pub fn to_text(self) -> (text: String)
        ensures
            text@ == ipv4_network_text(self.spec_addr(), self.spec_prefix()),
    {
        proof {
            use_type_invariant(&self);
        }
        render_ipv4_network(self.addr, self.prefix)
    }
}

/// An IPv6 address bound to an interface, as a 128-bit number, with the
/// length of its network prefix.
#[derive(Clone, Copy, Debug, PartialEq, Eq, Structural)]
pub struct Ipv6Network {
    pub addr: u128,
    pub prefix: u8,
}

/// An address bound to an interface.
#[derive(Clone, Copy, Debug, PartialEq, Eq, Structural)]
pub enum IpNetwork {
    V4(Ipv4Network),
    V6(Ipv6Network),
}

/// One interface of the host as it was when the host was asked.
#[derive(Clone, Debug)]
pub struct NetworkInterface {
    /// The name by which the operator chooses it.
    pub name: String,
    /// Its hardware address; loopback and virtual interfaces have none.
    pub mac: Option<MacAddr>,
    /// The addresses bound to it, in the order the host reports them.
    pub ips: Vec<IpNetwork>,
    /// Whether it is administratively up.
    pub up: bool,
    /// Whether it is a loopback interface.
    pub loopback: bool,
}

/// Whether `ips[i]` is an IPv4 address and none before it is.
pub open spec fn is_first_ipv4(ips: Seq<IpNetwork>, i: int) -> bool {
    &&& 0 <= i < ips.len()
    &&& ips[i] is V4
    &&& forall|j: int| 0 <= j < i ==> ips[j] is V6
}

/// The first IPv4 address among `ips`, if there is any.
pub open spec fn spec_first_ipv4(ips: Seq<IpNetwork>) -> Option<Ipv4Addr> {
    if exists|i: int| is_first_ipv4(ips, i) {
        Some(ips[choose|i: int| is_first_ipv4(ips, i)]->V4_0.spec_addr())
    } else {
        None
    }
}

/// Where `ips[i]` is the first IPv4 entry, its address is the first IPv4 address.
pub proof fn lemma_first_ipv4_at(ips: Seq<IpNetwork>, i: int)
    requires
        is_first_ipv4(ips, i),
    ensures
        spec_first_ipv4(ips) == Some(ips[i]->V4_0.spec_addr()),
{
    let k = choose|k: int| is_first_ipv4(ips, k);
    assert(is_first_ipv4(ips, k));
    assert(k == i) by {
        if k < i {
            assert(ips[k] is V6);
        }
        if i < k {
            assert(ips[i] is V6);
        }
    }
}

/// The first IPv4 address among `ips`.
pub fn first_ipv4(ips: &Vec<IpNetwork>) -> (found: Option<Ipv4Addr>)
    ensures
        found == spec_first_ipv4(ips@),
{
    let mut i: usize = 0;
    while i < ips.len()
        invariant
            i <= ips@.len(),
            forall|j: int| 0 <= j < i ==> ips@[j] is V6,
        decreases ips@.len() - i,
    {
        match ips[i] {
            IpNetwork::V4(net) => {
                proof {
                    lemma_first_ipv4_at(ips@, i as int);
                }
                return Some(net.addr());
            },
            IpNetwork::V6(_) => {},
        }
        i += 1;
    }
    assert(forall|k: int| !is_first_ipv4(ips@, k));
    None
}

/// Whether `all[i]` bears `name` and no interface before it does.
pub open spec fn is_first_named(all: Seq<NetworkInterface>, name: Seq<char>, i: int) -> bool {
    &&& 0 <= i < all.len()
    &&& all[i].name@ == name
    &&& forall|j: int| 0 <= j < i ==> all[j].name@ != name
}

/// Whether some interface among `all` bears `name`.
pub open spec fn has_name(all: Seq<NetworkInterface>, name: Seq<char>) -> bool {
    exists|i: int| 0 <= i < all.len() && #[trigger] all[i].name@ == name
}

/// The position among `all` of the first interface called `name`.
pub fn position_by_name(all: &Vec<NetworkInterface>, name: &String) -> (found: Option<usize>)
    ensures
        found is Some <==> has_name(all@, name@),
        found is Some ==> is_first_named(all@, name@, found->Some_0 as int),
{
    let mut i: usize = 0;
    while i < all.len()
        invariant
            i <= all@.len(),
            forall|j: int| 0 <= j < i ==> all@[j].name@ != name@,
        decreases all@.len() - i,
    {
        if all[i].name == *name {
            return Some(i);
        }
        i += 1;
    }
    None
}

/// The first interface among `all` that is called `name`; where none is,
/// `Error::InterfaceNotFound`.
pub fn resolve_by_name<'a>(all: &'a Vec<NetworkInterface>, name: &String) -> (found: Result<
    &'a NetworkInterface,
    Error,
>)
    ensures
        found is Ok <==> has_name(all@, name@),
        found is Err ==> found->Err_0 == Error::InterfaceNotFound,
        found is Ok ==> exists|i: int|
            is_first_named(all@, name@, i) && *found->Ok_0 == all@[i],
{
    match position_by_name(all, name) {
        Some(i) => Ok(&all[i]),
        None => Err(Error::InterfaceNotFound),
    }
}

/// One line of the list from which the operator chooses an interface.
#[derive(Clone, Debug)]
pub struct InterfaceInfo {
    pub name: String,
    /// The hardware address in the usual notation, or `none`.
    pub mac: String,
    /// The IPv4 addresses bound, each with its prefix length.
    pub ips: Vec<String>,
    /// Whether this is the interface now chosen.
    pub chosen: bool,
}

/// An `InterfaceInfo` with its texts as sequences of characters.
pub struct InterfaceInfoView {
    pub name: Seq<char>,
    pub mac: Seq<char>,
    pub ips: Seq<Seq<char>>,
    pub chosen: bool,
}

/// The texts of `texts` as sequences of characters.
pub open spec fn texts_view(texts: Seq<String>) -> Seq<Seq<char>> {
    texts.map_values(|t: String| t@)
}

impl View for InterfaceInfo {
    type V = InterfaceInfoView;

    open spec fn view(&self) -> InterfaceInfoView {
        InterfaceInfoView {
            name: self.name@,
            mac: self.mac@,
            ips: texts_view(self.ips@),
            chosen: self.chosen,
        }
    }
}

/// The lines of `infos` with their texts as sequences of characters.
pub open spec fn infos_view(infos: Seq<InterfaceInfo>) -> Seq<InterfaceInfoView> {
    infos.map_values(|info: InterfaceInfo| info@)
}

/// How a hardware address is shown in the list: in the usual notation, or
/// as `none` where the interface has no such address.
pub open spec fn spec_mac_label(mac: Option<MacAddr>) -> Seq<char> {
    match mac {
        Some(m) => mac_text(m),
        None => "none"@,
    }
}

/// The text of a bound address if it is an IPv4 address, else nothing.
pub open spec fn spec_ipv4_entry() -> spec_fn(IpNetwork) -> Option<Seq<char>> {
    |net: IpNetwork|
        match net {
            IpNetwork::V4(v4) => Some(ipv4_network_text(v4.spec_addr(), v4.spec_prefix())),
            IpNetwork::V6(_) => None,
        }
}

/// The IPv4 addresses among `ips` in text, in their order.
pub open spec fn spec_ipv4_texts(ips: Seq<IpNetwork>) -> Seq<Seq<char>> {
    ips.filter_map(spec_ipv4_entry())
}

/// Whether `name` is the name of the interface chosen.
pub open spec fn spec_is_chosen(chosen: Option<String>, name: Seq<char>) -> bool {
    chosen is Some && chosen->Some_0@ == name
}

/// The line of the list for an interface, if the interface belongs in the
/// list: it is up, it is no loopback interface, and it has an IPv4 address.
pub open spec fn spec_info_entry(chosen: Option<String>) -> spec_fn(NetworkInterface) -> Option<
    InterfaceInfoView,
> {
    |iface: NetworkInterface|
        if iface.up && !iface.loopback && spec_ipv4_texts(iface.ips@).len() > 0 {
            Some(
                InterfaceInfoView {
                    name: iface.name@,
                    mac: spec_mac_label(iface.mac),
                    ips: spec_ipv4_texts(iface.ips@),
                    chosen: spec_is_chosen(chosen, iface.name@),
                },
            )
        } else {
            None
        }
}

/// The list from which the operator chooses: one line for each interface
/// that belongs in it, in the order of enumeration.
pub open spec fn spec_candidates(all: Seq<NetworkInterface>, chosen: Option<String>) -> Seq<
    InterfaceInfoView,
> {
    all.filter_map(spec_info_entry(chosen))
}

/// The text under which a hardware address, or the lack of one, is listed.
pub fn mac_label(mac: &Option<MacAddr>) -> (text: String)
    ensures
        text@ == spec_mac_label(*mac),
{
    match mac {
        Some(m) => m.to_text(),
        None => "none".to_owned(),
    }
}

/// The IPv4 addresses among `ips` in text, in their order.
pub fn ipv4_texts(ips: &Vec<IpNetwork>) -> (texts: Vec<String>)
    ensures
        texts_view(texts@) == spec_ipv4_texts(ips@),
{
    let mut texts: Vec<String> = Vec::new();
    let mut i: usize = 0;
    assert(ips@.take(0).filter_map(spec_ipv4_entry()) =~= Seq::empty());
    while i < ips.len()
        invariant
            i <= ips@.len(),
            texts_view(texts@) =~= ips@.take(i as int).filter_map(spec_ipv4_entry()),
        decreases ips@.len() - i,
    {
        proof {
            ips@.lemma_filter_map_take_succ(spec_ipv4_entry(), i as int);
        }
        match ips[i] {
            IpNetwork::V4(v4) => {
                let text = v4.to_text();
                let ghost before = texts@;
                texts.push(text);
                assert(texts_view(texts@) =~= texts_view(before) + seq![text@]);
            },
            IpNetwork::V6(_) => {},
        }
        i += 1;
    }
    assert(ips@.take(i as int) =~= ips@);
    texts
}

/// Whether `chosen` names an interface and that name is `name`.
pub fn is_chosen(chosen: &Option<String>, name: &String) -> (b: bool)
    ensures
        b == spec_is_chosen(*chosen, name@),
{
    match chosen {
        Some(c) => *c == *name,
        None => false,
    }
}

/// The list from which the operator chooses an interface: the interfaces
/// that are up, are no loopback interfaces and have an IPv4 address, each
/// with its hardware address and IPv4 addresses in text and with a mark on
/// the one now chosen.
pub fn candidates(all: &Vec<NetworkInterface>, chosen: &Option<String>) -> (list: Vec<
    InterfaceInfo,
>)
    ensures
        infos_view(list@) == spec_candidates(all@, *chosen),
{
    let mut list: Vec<InterfaceInfo> = Vec::new();
    let mut i: usize = 0;
    assert(all@.take(0).filter_map(spec_info_entry(*chosen)) =~= Seq::empty());
    while i < all.len()
        invariant
            i <= all@.len(),
            infos_view(list@) =~= all@.take(i as int).filter_map(spec_info_entry(*chosen)),
        decreases all@.len() - i,
    {
        proof {
            all@.lemma_filter_map_take_succ(spec_info_entry(*chosen), i as int);
        }
        let iface = &all[i];
        if iface.up && !iface.loopback {
            let ips = ipv4_texts(&iface.ips);
            if ips.len() > 0 {
                let info = InterfaceInfo {
                    name: iface.name.clone(),
                    mac: mac_label(&iface.mac),
                    ips,
                    chosen: is_chosen(chosen, &iface.name),
                };
                let ghost before = list@;
                list.push(info);
                assert(infos_view(list@) =~= infos_view(before) + seq![info@]);
            }
        }
        i += 1;
    }
    assert(all@.take(i as int) =~= all@);
    list
}

} // verus!
