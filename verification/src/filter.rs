//! The deny-list filter: its configuration, its construction, and the
//! decision that it takes for each note.

use crate::message::Action;
use crate::message::Decision;
use crate::message::InputMessage;
use crate::message::NoteFilter;
use crate::message::OutputMessage;
use crate::net::address_of_text;
use crate::net::network_of_text;
use crate::net::parse_address;
use crate::net::parse_network;
use crate::net::Address;
use crate::net::Network;
use vstd::prelude::*;

verus! {

/// The deny lists as they are configured: exact public keys, exact source
/// addresses, and CIDR ranges as texts. A list that is absent blocks nothing.
#[derive(Clone, Debug)]
pub struct BlacklistConfig {
    pub pubkeys: Option<Vec<String>>,
    pub ips: Option<Vec<String>>,
    pub cidrs: Option<Vec<String>>,
}

/// The deny lists in force. They are fixed once the filter is built.
#[derive(Clone, Debug)]
pub struct Blacklist {
    pubkeys: Option<Vec<String>>,
    ips: Option<Vec<String>>,
    cidrs: Option<Vec<Network>>,
}

/// The texts that a list of strings holds, in order.
pub open spec fn texts(list: Seq<String>) -> Seq<Seq<char>> {
    list.map_values(|s: String| s@)
}

/// The entries of a configured list; an absent list has none.
pub open spec fn entries(list: Option<Vec<String>>) -> Seq<Seq<char>> {
    match list {
        Some(v) => texts(v@),
        None => Seq::empty(),
    }
}

/// The ranges among `parsed`, in order, with every `None` left out.
pub open spec fn present(parsed: Seq<Option<Network>>) -> Seq<Network>
    decreases parsed.len(),
{
    if parsed.len() == 0 {
        Seq::empty()
    } else {
        let rest = present(parsed.drop_last());
        match parsed.last() {
            Some(n) => rest.push(n),
            None => rest,
        }
    }
}

/// What each text reads as: a range, or `None`.
pub open spec fn readings(list: Seq<Seq<char>>) -> Seq<Option<Network>> {
    list.map_values(|t: Seq<char>| network_of_text(t))
}

/// The ranges that the texts of a list denote, in order; a text that
/// denotes none is passed over.
pub open spec fn valid_networks(list: Seq<Seq<char>>) -> Seq<Network> {
    present(readings(list))
}

/// The reason given with every rejection.
pub open spec fn reject_reason() -> Seq<char> {
    "blocked: pubkey/ip is blacklisted"@
}

/// The answer that rejects the note `id`.
pub open spec fn rejection(id: Seq<char>) -> Decision {
    Decision { id, action: Action::Reject, msg: Some(reject_reason()) }
}

/// The answer that accepts the note `id`; it gives no reason.
pub open spec fn acceptance(id: Seq<char>) -> Decision {
    Decision { id, action: Action::Accept, msg: None }
}

/// Whether `item` is one of the strings of `list`.
pub fn list_contains(list: &Vec<String>, item: &String) -> (r: bool)
    ensures
        r == texts(list@).contains(item@),
{
    let mut i: usize = 0;
    while i < list.len()
        invariant
            i <= list.len(),
            forall|j: int| 0 <= j < i ==> texts(list@)[j] != item@,
        decreases list.len() - i,
    {
        if list[i] == *item {
            assert(texts(list@)[i as int] == item@);
            return true;
        }
        i += 1;
    }
    false
}

/// Reads each text of `list` as a range.
pub fn read_networks(list: &Vec<String>) -> (r: Vec<Option<Network>>)
    ensures
        r@ == readings(texts(list@)),
{
    let mut out: Vec<Option<Network>> = Vec::new();
    let mut i: usize = 0;
    while i < list.len()
        invariant
            i <= list.len(),
            out@.len() == i,
            forall|j: int| 0 <= j < i ==> out@[j] == network_of_text(#[trigger] list@[j]@),
        decreases list.len() - i,
    {
        out.push(parse_network(list[i].as_str()));
        i += 1;
    }
    assert(out@ =~= readings(texts(list@)));
    out
}

/// Keeps the ranges among `parsed`, in order, and drops every `None`.
pub fn keep_valid(parsed: &Vec<Option<Network>>) -> (r: Vec<Network>)
    ensures
        r@ == present(parsed@),
{
    let mut out: Vec<Network> = Vec::new();
    let mut i: usize = 0;
    assert(parsed@.take(0) =~= Seq::empty());
    while i < parsed.len()
        invariant
            i <= parsed.len(),
            out@ == present(parsed@.take(i as int)),
        decreases parsed.len() - i,
    {
        proof {
            let next = parsed@.take(i + 1);
            assert(next.drop_last() =~= parsed@.take(i as int));
            assert(next.last() == parsed@[i as int]);
        }
        match parsed[i] {
            Some(n) => {
                out.push(n);
            },
            None => {},
        }
        i += 1;
    }
    assert(parsed@.take(parsed@.len() as int) =~= parsed@);
    out
}

impl Default for BlacklistConfig {
    /// The configuration with every list absent.
    fn default() -> (r: BlacklistConfig)
        ensures
            r.pubkeys is None,
            r.ips is None,
            r.cidrs is None,
    {
        BlacklistConfig { pubkeys: None, ips: None, cidrs: None }
    }
}

impl Default for Blacklist {
    /// The filter that blocks nothing.
    fn default() -> (r: Blacklist)
        ensures
            r.pubkeys() == Seq::<Seq<char>>::empty(),
            r.ips() == Seq::<Seq<char>>::empty(),
            r.cidrs() == Seq::<Network>::empty(),
    {
        Blacklist { pubkeys: None, ips: None, cidrs: None }
    }
}

impl Blacklist {
    /// The public keys that are blocked.
    pub closed spec fn pubkeys(&self) -> Seq<Seq<char>> {
        entries(self.pubkeys)
    }

    /// The source addresses that are blocked as literal texts.
    pub closed spec fn ips(&self) -> Seq<Seq<char>> {
        entries(self.ips)
    }

    /// The ranges that are blocked.
    pub closed spec fn cidrs(&self) -> Seq<Network> {
        match self.cidrs {
            Some(v) => v@,
            None => Seq::empty(),
        }
    }

    /// The filter holds exactly what `config` lists: the keys and the
    /// literal addresses as they stand, and of the range texts those that
    /// denote a range.
    pub open spec fn loaded_from(&self, config: BlacklistConfig) -> bool {
        &&& self.pubkeys() == entries(config.pubkeys)
        &&& self.ips() == entries(config.ips)
        &&& self.cidrs() == valid_networks(entries(config.cidrs))
    }

    /// Whether some blocked range holds `addr`.
    pub open spec fn blocks_range(&self, addr: Address) -> bool {
        exists|i: int| 0 <= i < self.cidrs().len() && (#[trigger] self.cidrs()[i]).covers(addr)
    }

    /// Whether a source address is blocked, given what its text reads as:
    /// the text is listed, or it reads as an address in a blocked range.
    pub open spec fn blocks_address(&self, ip: Seq<char>, parsed: Option<Address>) -> bool {
        self.ips().contains(ip) || match parsed {
            Some(addr) => self.blocks_range(addr),
            None => false,
        }
    }

    /// Whether the source address `ip` is blocked.
    pub open spec fn blocks_ip(&self, ip: Seq<char>) -> bool {
        self.blocks_address(ip, address_of_text(ip))
    }

    /// The answer for a note, given what its source address reads as: a
    /// rejection where its author's key or its source address is blocked,
    /// an acceptance otherwise.
    pub open spec fn decision_given(&self, msg: &InputMessage, parsed: Option<Address>) -> Decision {
        if self.pubkeys().contains(msg.event.pubkey@) || self.blocks_address(
            msg.source_info@,
            parsed,
        ) {
            rejection(msg.event.id@)
        } else {
            acceptance(msg.event.id@)
        }
    }

    /// The answer for a note.
    pub open spec fn decision(&self, msg: &InputMessage) -> Decision {
        self.decision_given(msg, address_of_text(msg.source_info@))
    }

    /// The filter with the given lists.
    pub fn new(
        pubkeys: Option<Vec<String>>,
        ips: Option<Vec<String>>,
        cidrs: Option<Vec<Network>>,
    ) -> (r: Blacklist)
        ensures
            r.pubkeys() == entries(pubkeys),
            r.ips() == entries(ips),
            r.cidrs() == match cidrs {
                Some(v) => v@,
                None => Seq::empty(),
            },
    {
        Blacklist { pubkeys, ips, cidrs }
    }

    /// Builds the filter that `config` describes. A range text that does not
    /// denote a range is left out, and the others keep their order.
    pub fn from_config(config: BlacklistConfig) -> (r: Blacklist)
        ensures
            r.loaded_from(config),
    {
        let cidrs = match &config.cidrs {
            Some(list) => {
                let parsed = read_networks(list);
                Some(keep_valid(&parsed))
            },
            None => None,
        };
        Blacklist { pubkeys: config.pubkeys, ips: config.ips, cidrs }
    }

    /// Whether some blocked range holds `addr`.
    pub fn is_range_blocked(&self, addr: &Address) -> (r: bool)
        ensures
            r == self.blocks_range(*addr),
    {
        match &self.cidrs {
            Some(list) => {
                let mut i: usize = 0;
                while i < list.len()
                    invariant
                        i <= list.len(),
                        self.cidrs() == list@,
                        forall|j: int| 0 <= j < i ==> !(#[trigger] list@[j]).covers(*addr),
                    decreases list.len() - i,
                {
                    if list[i].contains(addr) {
                        return true;
                    }
                    i += 1;
                }
                false
            },
            None => false,
        }
    }

    /// Whether the source address `ip` is blocked, given what it reads as.
    pub fn is_address_blocked(&self, ip: &str, parsed: Option<Address>) -> (r: bool)
        ensures
            r == self.blocks_address(ip@, parsed),
    {
        if let Some(ips) = &self.ips {
            let literal: String = ip.to_owned();
            if list_contains(ips, &literal) {
                return true;
            }
        }
        match parsed {
            Some(addr) => self.is_range_blocked(&addr),
            None => false,
        }
    }

    /// Whether the source address `ip` is blocked: it is listed as it
    /// stands, or it denotes an address that a blocked range holds.
    pub fn is_ip_blocked(&self, ip: &str) -> (r: bool)
        ensures
            r == self.blocks_ip(ip@),
    {
        self.is_address_blocked(ip, parse_address(ip))
    }

    /// The answer for `msg`, given what its source address reads as.
    pub fn decide(&self, msg: &InputMessage, parsed: Option<Address>) -> (out: OutputMessage)
        ensures
            out@ == self.decision_given(msg, parsed),
    {
        let blocked_key = match &self.pubkeys {
            Some(pubkeys) => list_contains(pubkeys, &msg.event.pubkey),
            None => false,
        };
        if blocked_key || self.is_address_blocked(msg.source_info.as_str(), parsed) {
            let reason: String = "blocked: pubkey/ip is blacklisted".to_owned();
            OutputMessage::new(msg.event.id.clone(), Action::Reject, Some(reason))
        } else {
            OutputMessage::new(msg.event.id.clone(), Action::Accept, None)
        }
    }
}

impl NoteFilter for Blacklist {
    /// Rejects the note if its author's key or its source address is
    /// blocked, with the one reason that every rejection carries; accepts it
    /// otherwise. The filter itself is left as it was, so that asking again
    /// about the same note gives the same answer.
    fn filter_note(&mut self, msg: &InputMessage) -> (out: OutputMessage)
        ensures
            *final(self) == *old(self),
            out@ == old(self).decision(msg),
            old(self).pubkeys().contains(msg.event.pubkey@) ==> out@ == rejection(msg.event.id@),
            old(self).ips().contains(msg.source_info@) ==> out@ == rejection(msg.event.id@),
            old(self).blocks_ip(msg.source_info@) ==> out@ == rejection(msg.event.id@),
            !old(self).pubkeys().contains(msg.event.pubkey@) && !old(self).blocks_ip(
                msg.source_info@,
            ) ==> out@ == acceptance(msg.event.id@),
    {
        let parsed = parse_address(msg.source_info.as_str());
        self.decide(msg, parsed)
    }

    fn name(&self) -> (r: &'static str)
        ensures
            r@ == "blacklist"@,
    {
        "blacklist"
    }
}

} // verus!
