//! What holds of every filter that is built from a configuration.

use crate::filter::acceptance;
use crate::filter::entries;
use crate::filter::present;
use crate::filter::readings;
use crate::filter::rejection;
use crate::filter::valid_networks;
use crate::filter::Blacklist;
use crate::filter::BlacklistConfig;
use crate::message::InputMessage;
use crate::net::address_of_text;
use crate::net::network_of_text;
use crate::net::Address;
use crate::net::Network;
use vstd::prelude::*;
use vstd::seq_lib::to_multiset_contains;

verus! {

/// A range is kept exactly when it stands among the readings.
pub proof fn lemma_present_contains(parsed: Seq<Option<Network>>, n: Network)
    ensures
        present(parsed).contains(n) <==> parsed.contains(Some(n)),
    decreases parsed.len(),
{
    if parsed.len() > 0 {
        let init = parsed.drop_last();
        let rest = present(init);
        lemma_present_contains(init, n);
        if present(parsed).contains(n) {
            let i = choose|i: int| 0 <= i < present(parsed).len() && present(parsed)[i] == n;
            if i < rest.len() {
                assert(rest[i] == n);
                let k = choose|k: int| 0 <= k < init.len() && init[k] == Some(n);
                assert(parsed[k] == Some(n));
            } else {
                assert(parsed[parsed.len() - 1] == Some(n));
            }
        }
        if parsed.contains(Some(n)) {
            let k = choose|k: int| 0 <= k < parsed.len() && parsed[k] == Some(n);
            if k < init.len() {
                assert(init[k] == Some(n));
                let i = choose|i: int| 0 <= i < rest.len() && rest[i] == n;
                assert(present(parsed)[i] == n);
            } else {
                assert(present(parsed)[rest.len() as int] == n);
            }
        }
    }
}

/// A range is in force exactly when some text of the list denotes it,
/// wherever in the list that text stands.
pub proof fn lemma_valid_networks_contains(list: Seq<Seq<char>>, n: Network)
    ensures
        valid_networks(list).contains(n) <==> exists|i: int|
            0 <= i < list.len() && network_of_text(#[trigger] list[i]) == Some(n),
{
    let parsed = readings(list);
    lemma_present_contains(parsed, n);
    if parsed.contains(Some(n)) {
        let i = choose|i: int| 0 <= i < parsed.len() && parsed[i] == Some(n);
        assert(network_of_text(list[i]) == Some(n));
    }
    if exists|i: int| 0 <= i < list.len() && network_of_text(#[trigger] list[i]) == Some(n) {
        let i = choose|i: int| 0 <= i < list.len() && network_of_text(#[trigger] list[i]) == Some(n);
        assert(parsed[i] == Some(n));
    }
}

/// A note whose author's key is listed is rejected, with the one reason
/// that every rejection carries.
pub proof fn lemma_listed_pubkey_is_rejected(
    config: BlacklistConfig,
    filter: Blacklist,
    msg: InputMessage,
)
    requires
        filter.loaded_from(config),
        entries(config.pubkeys).contains(msg.event.pubkey@),
    ensures
        filter.decision(&msg) == rejection(msg.event.id@),
{
}

/// A note whose source address is listed, text for text, is rejected.
pub proof fn lemma_listed_address_is_rejected(
    config: BlacklistConfig,
    filter: Blacklist,
    msg: InputMessage,
)
    requires
        filter.loaded_from(config),
        entries(config.ips).contains(msg.source_info@),
    ensures
        filter.decision(&msg) == rejection(msg.event.id@),
{
}

/// A note is rejected when its source address denotes an address that lies
/// in the range which some text of the configured ranges denotes.
pub proof fn lemma_address_in_listed_range_is_rejected(
    config: BlacklistConfig,
    filter: Blacklist,
    msg: InputMessage,
    i: int,
    range: Network,
    addr: Address,
)
    requires
        filter.loaded_from(config),
        0 <= i < entries(config.cidrs).len(),
        network_of_text(entries(config.cidrs)[i]) == Some(range),
        address_of_text(msg.source_info@) == Some(addr),
        range.covers(addr),
    ensures
        filter.decision(&msg) == rejection(msg.event.id@),
{
    lemma_valid_networks_contains(entries(config.cidrs), range);
    let k = choose|k: int| 0 <= k < filter.cidrs().len() && filter.cidrs()[k] == range;
    assert(filter.cidrs()[k].covers(addr));
}

/// A note is accepted, and no reason given, when its author's key is not
/// listed, its source address is not listed text for text, and its source
/// address denotes no address, or one that lies in none of the ranges which
/// the configured texts denote.
pub proof fn lemma_unlisted_is_accepted(
    config: BlacklistConfig,
    filter: Blacklist,
    msg: InputMessage,
)
    requires
        filter.loaded_from(config),
        !entries(config.pubkeys).contains(msg.event.pubkey@),
        !entries(config.ips).contains(msg.source_info@),
        address_of_text(msg.source_info@) matches Some(addr) ==> forall|i: int, range: Network|
            0 <= i < entries(config.cidrs).len() && network_of_text(
                #[trigger] entries(config.cidrs)[i],
            ) == Some(range) ==> !#[trigger] range.covers(addr),
    ensures
        filter.decision(&msg) == acceptance(msg.event.id@),
        filter.decision(&msg).msg is None,
{
    if let Some(addr) = address_of_text(msg.source_info@) {
        if filter.blocks_range(addr) {
            let k = choose|k: int|
                0 <= k < filter.cidrs().len() && (#[trigger] filter.cidrs()[k]).covers(addr);
            let range = filter.cidrs()[k];
            lemma_valid_networks_contains(entries(config.cidrs), range);
            assert(false);
        }
    }
}

/// If every text of `from` stands somewhere in `to`, an address that a
/// range of `from` holds is held by a range of `to`.
proof fn lemma_blocks_range_carries_over(
    from: Seq<Seq<char>>,
    to: Seq<Seq<char>>,
    a: Blacklist,
    b: Blacklist,
    addr: Address,
)
    requires
        forall|t: Seq<char>| from.contains(t) ==> to.contains(t),
        a.cidrs() == valid_networks(from),
        b.cidrs() == valid_networks(to),
        a.blocks_range(addr),
    ensures
        b.blocks_range(addr),
{
    let k = choose|k: int| 0 <= k < a.cidrs().len() && (#[trigger] a.cidrs()[k]).covers(addr);
    let range = a.cidrs()[k];
    lemma_valid_networks_contains(from, range);
    let i = choose|i: int| 0 <= i < from.len() && network_of_text(#[trigger] from[i]) == Some(range);
    assert(from.contains(from[i]));
    let j = choose|j: int| 0 <= j < to.len() && to[j] == from[i];
    lemma_valid_networks_contains(to, range);
    let m = choose|m: int| 0 <= m < b.cidrs().len() && b.cidrs()[m] == range;
    assert(b.cidrs()[m].covers(addr));
}

/// The order of the entries within each configured list does not matter:
/// two configurations whose lists hold the same entries as often, in
/// whatever order, give filters that answer every note alike. A range text
/// that denotes no range is passed over wherever it stands.
pub proof fn lemma_order_does_not_matter(
    first: BlacklistConfig,
    second: BlacklistConfig,
    a: Blacklist,
    b: Blacklist,
    msg: InputMessage,
)
    requires
        a.loaded_from(first),
        b.loaded_from(second),
        entries(first.pubkeys).to_multiset() == entries(second.pubkeys).to_multiset(),
        entries(first.ips).to_multiset() == entries(second.ips).to_multiset(),
        entries(first.cidrs).to_multiset() == entries(second.cidrs).to_multiset(),
    ensures
        a.decision(&msg) == b.decision(&msg),
{
    to_multiset_contains(entries(first.pubkeys), msg.event.pubkey@);
    to_multiset_contains(entries(second.pubkeys), msg.event.pubkey@);
    to_multiset_contains(entries(first.ips), msg.source_info@);
    to_multiset_contains(entries(second.ips), msg.source_info@);
    let from = entries(first.cidrs);
    let to = entries(second.cidrs);
    assert forall|t: Seq<char>| from.contains(t) <==> to.contains(t) by {
        to_multiset_contains(from, t);
        to_multiset_contains(to, t);
    }
    if let Some(addr) = address_of_text(msg.source_info@) {
        if a.blocks_range(addr) {
            lemma_blocks_range_carries_over(from, to, a, b, addr);
        }
        if b.blocks_range(addr) {
            lemma_blocks_range_carries_over(to, from, b, a, addr);
        }
    }
}

/// A filter built from a configuration without lists accepts every note.
pub proof fn lemma_empty_config_accepts(config: BlacklistConfig, filter: Blacklist, msg: InputMessage)
    requires
        filter.loaded_from(config),
        config.pubkeys is None,
        config.ips is None,
        config.cidrs is None,
    ensures
        filter.decision(&msg) == acceptance(msg.event.id@),
{
}

} // verus!
