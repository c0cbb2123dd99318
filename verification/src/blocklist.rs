//! DNS-based reputation checking: classifying raw DNSBL answers into
//! semantic reasons, building the query names, and aggregating
//! per-provider outcomes into a reputation record.
//!
//! Issuing the DNS queries is a capability the caller injects; the
//! checker states what holds of its result whatever the network did.

use vstd::prelude::*;
use crate::ip::{IpAddress, spec_ip_text, reversed_label};
use crate::models::{
    BlacklistReason, BlocklistEntry, BlocklistEntryV, BlocklistReason, BlocklistRecord,
};
use crate::seqs::{
    spec_concat_map, lemma_concat_map_take, lemma_concat_map_all_empty, lemma_concat_map_skip_empty,
};
use crate::text::str_eq;

verus! {

/// The fixed table mapping a provider's zone and its raw answer to a
/// semantic reason; pairs outside the table are `Unknown`.
pub open spec fn spec_classify(provider: Seq<char>, response: Seq<char>) -> BlocklistReason {
    if provider == "zen.spamhaus.org"@ {
        if response == "127.0.0.2"@ {
            BlocklistReason::SpamSource
        } else if response == "127.0.0.3"@ {
            BlocklistReason::SpamSupport
        } else if response == "127.0.0.4"@ {
            BlocklistReason::ExploitedOrMalicious
        } else if response == "127.0.0.10"@ {
            BlocklistReason::DynamicResidential
        } else {
            BlocklistReason::Unknown
        }
    } else if provider == "bl.spamcop.net"@ {
        if response == "127.0.0.2"@ {
            BlocklistReason::SpamSource
        } else if response == "127.0.0.4"@ {
            BlocklistReason::ExploitedOrMalicious
        } else {
            BlocklistReason::Unknown
        }
    } else if provider == "b.barracudacentral.org"@ {
        if response == "127.0.0.2"@ {
            BlocklistReason::SpamSource
        } else if response == "127.0.0.10"@ {
            BlocklistReason::DynamicResidential
        } else {
            BlocklistReason::Unknown
        }
    } else {
        BlocklistReason::Unknown
    }
}

impl BlocklistReason {
    /// Classifies a provider's raw answer through the fixed table.
    pub fn from(provider: &str, response: &str) -> (r: BlocklistReason)
        ensures
            r == spec_classify(provider@, response@),
    {
        if str_eq(provider, "zen.spamhaus.org") {
            if str_eq(response, "127.0.0.2") {
                BlocklistReason::SpamSource
            } else if str_eq(response, "127.0.0.3") {
                BlocklistReason::SpamSupport
            } else if str_eq(response, "127.0.0.4") {
                BlocklistReason::ExploitedOrMalicious
            } else if str_eq(response, "127.0.0.10") {
                BlocklistReason::DynamicResidential
            } else {
                BlocklistReason::Unknown
            }
        } else if str_eq(provider, "bl.spamcop.net") {
            if str_eq(response, "127.0.0.2") {
                BlocklistReason::SpamSource
            } else if str_eq(response, "127.0.0.4") {
                BlocklistReason::ExploitedOrMalicious
            } else {
                BlocklistReason::Unknown
            }
        } else if str_eq(provider, "b.barracudacentral.org") {
            if str_eq(response, "127.0.0.2") {
                BlocklistReason::SpamSource
            } else if str_eq(response, "127.0.0.10") {
                BlocklistReason::DynamicResidential
            } else {
                BlocklistReason::Unknown
            }
        } else {
            BlocklistReason::Unknown
        }
    }
}

/// Renames a classification into the older blacklist reason.
pub open spec fn spec_as_blacklist_reason(r: BlocklistReason) -> BlacklistReason {
    match r {
        BlocklistReason::SpamSource => BlacklistReason::SpamSource,
        BlocklistReason::SpamSupport => BlacklistReason::SpamSupport,
        BlocklistReason::ExploitedOrMalicious => BlacklistReason::ExploitedOrMalicious,
        BlocklistReason::DynamicResidential => BlacklistReason::DynamicResidential,
        BlocklistReason::Unknown => BlacklistReason::Unknown,
    }
}

impl BlacklistReason {
    /// Classifies a provider's raw answer through the same fixed table
    /// as `BlocklistReason::from`.
    pub fn from(provider: &str, response: &str) -> (r: BlacklistReason)
        ensures
            r == spec_as_blacklist_reason(spec_classify(provider@, response@)),
    {
        match BlocklistReason::from(provider, response) {
            BlocklistReason::SpamSource => BlacklistReason::SpamSource,
            BlocklistReason::SpamSupport => BlacklistReason::SpamSupport,
            BlocklistReason::ExploitedOrMalicious => BlacklistReason::ExploitedOrMalicious,
            BlocklistReason::DynamicResidential => BlacklistReason::DynamicResidential,
            BlocklistReason::Unknown => BlacklistReason::Unknown,
        }
    }
}

/// The zones of the configured reputation providers, in the order their
/// answers are reported.
pub open spec fn spec_blocklist_zones() -> Seq<Seq<char>> {
    seq!["zen.spamhaus.org"@, "bl.spamcop.net"@, "b.barracudacentral.org"@]
}

/// The configured provider zones.
pub fn blocklist_zones() -> (r: Vec<String>)
    ensures
        r.deep_view() == spec_blocklist_zones(),
{
    let mut v: Vec<String> = Vec::new();
    v.push("zen.spamhaus.org".to_owned());
    v.push("bl.spamcop.net".to_owned());
    v.push("b.barracudacentral.org".to_owned());
    proof {
        assert(v.deep_view() =~= spec_blocklist_zones());
    }
    v
}

/// The DNSBL query name for one zone: the reversed-octet label, a dot,
/// and the zone.
pub open spec fn spec_query_name(label: Seq<char>, zone: Seq<char>) -> Seq<char> {
    label + "."@ + zone
}

/// Builds the query name of every zone.
pub fn build_queries(label: &str, zones: &Vec<String>) -> (r: Vec<String>)
    ensures
        r.deep_view() == zones.deep_view().map_values(
            |z: Seq<char>| spec_query_name(label@, z),
        ),
{
    let ghost goal = zones.deep_view().map_values(|z: Seq<char>| spec_query_name(label@, z));
    let mut r: Vec<String> = Vec::new();
    let mut i: usize = 0;
    while i < zones.len()
        invariant
            i <= zones@.len(),
            goal == zones.deep_view().map_values(|z: Seq<char>| spec_query_name(label@, z)),
            goal.len() == zones@.len(),
            r@.len() == i as int,
            r.deep_view() =~~= goal.take(i as int),
        decreases zones@.len() - i,
    {
        let mut q = label.to_owned();
        q.append(".");
        q.append(zones[i].as_str());
        r.push(q);
        i = i + 1;
        proof {
            let gi = i as int - 1;
            assert(zones.deep_view()[gi] == zones@[gi]@);
            assert(r@[gi]@ =~= spec_query_name(label@, zones.deep_view()[gi]));
            assert(r.deep_view() =~~= goal.take(i as int));
        }
    }
    proof {
        assert(goal.take(goal.len() as int) =~= goal);
    }
    r
}

/// A DNS lookup capability: resolves each query name to the first
/// address of its answer, or to nothing on timeout, error or an empty
/// answer. Implementations dispatch the queries concurrently, bound each
/// by a per-provider timeout, and return the outcomes in query order;
/// nothing is assumed about the outcomes themselves.
pub trait DnsblLookup {
    /// Resolves every query, reporting outcomes in query order.
    fn lookup_all(&self, queries: &Vec<String>) -> Vec<Option<String>>;
}

/// The entry one provider outcome contributes: nothing without an
/// answer, nothing when the answer classifies as `Unknown`, and one
/// entry otherwise.
pub open spec fn spec_outcome_entry(p: (Seq<char>, Option<Seq<char>>)) -> Seq<BlocklistEntryV> {
    match p.1 {
        None => Seq::empty(),
        Some(ans) => {
            if spec_classify(p.0, ans) == BlocklistReason::Unknown {
                Seq::empty()
            } else {
                seq![BlocklistEntryV { dnsbl: p.0, reason: spec_classify(p.0, ans) }]
            }
        },
    }
}

/// The outcome contribution as a function value.
pub open spec fn outcome_entry_fn() -> spec_fn((Seq<char>, Option<Seq<char>>)) -> Seq<
    BlocklistEntryV,
> {
    |p: (Seq<char>, Option<Seq<char>>)| spec_outcome_entry(p)
}

/// Pairs every zone with its answer; zones beyond the answers get none.
pub open spec fn spec_zone_outcomes(zones: Seq<Seq<char>>, answers: Seq<Option<Seq<char>>>) -> Seq<
    (Seq<char>, Option<Seq<char>>),
> {
    Seq::new(
        zones.len(),
        |i: int|
            (
                zones[i],
                if 0 <= i < answers.len() {
                    answers[i]
                } else {
                    None
                },
            ),
    )
}

/// The entry list a zone list and an answer list produce: each zone's
/// contribution in configuration order, unknown classifications and
/// missing answers excluded.
pub open spec fn spec_entries(zones: Seq<Seq<char>>, answers: Seq<Option<Seq<char>>>) -> Seq<
    BlocklistEntryV,
> {
    spec_concat_map(spec_zone_outcomes(zones, answers), outcome_entry_fn())
}

/// Builds the entry list from the zones and their answers.
fn collect_entries(zones: &Vec<String>, answers: &Vec<Option<String>>) -> (entries: Vec<
    BlocklistEntry,
>)
    ensures
        entries.deep_view() == spec_entries(zones.deep_view(), answers.deep_view()),
{
    let ghost pairs = spec_zone_outcomes(zones.deep_view(), answers.deep_view());
    let mut entries: Vec<BlocklistEntry> = Vec::new();
    let mut i: usize = 0;
    while i < zones.len()
        invariant
            i <= zones@.len(),
            pairs == spec_zone_outcomes(zones.deep_view(), answers.deep_view()),
            pairs.len() == zones@.len(),
            entries.deep_view() == spec_concat_map(pairs.take(i as int), outcome_entry_fn()),
        decreases zones@.len() - i,
    {
        if i < answers.len() {
            match &answers[i] {
                Some(ans) => {
                    let reason = BlocklistReason::from(zones[i].as_str(), ans.as_str());
                    if !matches!(reason, BlocklistReason::Unknown) {
                        entries.push(BlocklistEntry { dnsbl: zones[i].clone(), reason });
                    }
                },
                None => (),
            }
        }
        i = i + 1;
        proof {
            lemma_concat_map_take(pairs, outcome_entry_fn(), i as int);
            assert(entries.deep_view() =~= spec_concat_map(
                pairs.take(i as int),
                outcome_entry_fn(),
            ));
        }
    }
    proof {
        assert(pairs.take(pairs.len() as int) =~= pairs);
    }
    entries
}

/// Checks an address against the given provider zones. An address that
/// is not IPv4 yields no entries and issues no query at all. For IPv4,
/// one query per zone is dispatched through the capability; whatever
/// answers come back, the result is their aggregation in zone order.
pub fn check_zones<R: DnsblLookup>(ip: &IpAddress, zones: &Vec<String>, resolver: &R) -> (entries:
    Vec<BlocklistEntry>)
    ensures
        ip@ is V6 ==> entries.deep_view() == Seq::<BlocklistEntryV>::empty(),
        ip@ is V4 ==> exists |answers: Seq<Option<Seq<char>>>|
            entries.deep_view() == spec_entries(zones.deep_view(), answers),
        forall |i: int|
            0 <= i < entries@.len() ==> (#[trigger] entries@[i]).reason
                != BlocklistReason::Unknown,
{
    match ip {
        IpAddress::V6 { .. } => {
            let entries: Vec<BlocklistEntry> = Vec::new();
            proof {
                assert(entries.deep_view() =~= Seq::<BlocklistEntryV>::empty());
            }
            entries
        },
        IpAddress::V4 { a, b, c, d } => {
            let label = reversed_label(*a, *b, *c, *d);
            let queries = build_queries(label.as_str(), zones);
            let answers = resolver.lookup_all(&queries);
            let entries = collect_entries(zones, &answers);
            proof {
                let w = answers.deep_view();
                assert(entries.deep_view() == spec_entries(zones.deep_view(), w));
                lemma_entries_no_unknown(zones.deep_view(), w);
                assert(entries.deep_view().len() == entries@.len());
                assert forall |i: int| 0 <= i < entries@.len() implies (#[trigger] entries@[
                    i]).reason != BlocklistReason::Unknown by {
                    assert(entries.deep_view()[i] == entries@[i].deep_view());
                    assert(spec_entries(zones.deep_view(), w)[i].reason
                        != BlocklistReason::Unknown);
                }
            }
            entries
        },
    }
}

/// Checks an address against the configured provider zones.
pub fn check_blocklists<R: DnsblLookup>(ip: &IpAddress, resolver: &R) -> (entries: Vec<
    BlocklistEntry,
>)
    ensures
        ip@ is V6 ==> entries.deep_view() == Seq::<BlocklistEntryV>::empty(),
        ip@ is V4 ==> exists |answers: Seq<Option<Seq<char>>>|
            entries.deep_view() == spec_entries(spec_blocklist_zones(), answers),
        forall |i: int|
            0 <= i < entries@.len() ==> (#[trigger] entries@[i]).reason
                != BlocklistReason::Unknown,
{
    let zones = blocklist_zones();
    check_zones(ip, &zones, resolver)
}

/// Builds the reputation record of an address: the address's text, the
/// entries the providers' answers produced, and whether any provider
/// listed it. The checker never fails: total provider failure yields an
/// unflagged record with no entries.
pub fn get_blocklist<R: DnsblLookup>(ip: &IpAddress, resolver: &R) -> (r: BlocklistRecord)
    ensures
        r@.ip == spec_ip_text(ip@),
        r@.blocked == (r@.listed_in.len() > 0),
        ip@ is V6 ==> r@.listed_in == Seq::<BlocklistEntryV>::empty(),
        ip@ is V4 ==> exists |answers: Seq<Option<Seq<char>>>|
            r@.listed_in == spec_entries(spec_blocklist_zones(), answers),
        forall |i: int|
            0 <= i < r@.listed_in.len() ==> (#[trigger] r@.listed_in[i]).reason
                != BlocklistReason::Unknown,
{
    let listed_in = check_blocklists(ip, resolver);
    let blocked = listed_in.len() > 0;
    BlocklistRecord { ip: ip.to_text(), blocked, listed_in }
}

/// No entry ever carries the `Unknown` reason: a provider whose answer
/// does not classify contributes nothing.
pub proof fn lemma_entries_no_unknown(zones: Seq<Seq<char>>, answers: Seq<Option<Seq<char>>>)
    ensures
        forall |i: int|
            0 <= i < spec_entries(zones, answers).len() ==> #[trigger] spec_entries(
                zones,
                answers,
            )[i].reason != BlocklistReason::Unknown,
{
    lemma_concat_entries_no_unknown(spec_zone_outcomes(zones, answers));
}

proof fn lemma_concat_entries_no_unknown(pairs: Seq<(Seq<char>, Option<Seq<char>>)>)
    ensures
        forall |i: int|
            0 <= i < spec_concat_map(pairs, outcome_entry_fn()).len() ==> #[trigger]
                spec_concat_map(pairs, outcome_entry_fn())[i].reason != BlocklistReason::Unknown,
    decreases pairs.len(),
{
    if pairs.len() > 0 {
        lemma_concat_entries_no_unknown(pairs.drop_first());
        assert(forall |i: int|
            0 <= i < spec_outcome_entry(pairs[0]).len() ==> #[trigger] spec_outcome_entry(
                pairs[0],
            )[i].reason != BlocklistReason::Unknown);
    }
}

/// When every provider's answer is missing or classifies as `Unknown`,
/// the entry list is empty: unmapped answers are dropped entirely, so
/// the record stays unflagged even though every provider returned a
/// non-empty raw answer.
pub proof fn lemma_entries_all_unmapped(zones: Seq<Seq<char>>, answers: Seq<Option<Seq<char>>>)
    requires
        forall |i: int|
            0 <= i < zones.len() && 0 <= i < answers.len() && answers[i] is Some ==> spec_classify(
                #[trigger] zones[i],
                answers[i]->0,
            ) == BlocklistReason::Unknown,
    ensures
        spec_entries(zones, answers) == Seq::<BlocklistEntryV>::empty(),
{
    let pairs = spec_zone_outcomes(zones, answers);
    assert forall |i: int| 0 <= i < pairs.len() implies outcome_entry_fn()(
        #[trigger] pairs[i],
    ).len() == 0 by {
        assert(pairs[i].0 == zones[i]);
        if 0 <= i < answers.len() && answers[i] is Some {
            assert(spec_classify(zones[i], answers[i]->0) == BlocklistReason::Unknown);
        }
    }
    lemma_concat_map_all_empty(pairs, outcome_entry_fn());
    assert(spec_entries(zones, answers) =~= Seq::<BlocklistEntryV>::empty());
}

/// A provider whose query produced no answer — a timeout, a resolution
/// error, or an empty answer set — contributes nothing, and the other
/// providers' entries are exactly those of the configuration without
/// it: one slow or failing provider does not disturb the rest.
pub proof fn lemma_entries_failed_provider(
    zones: Seq<Seq<char>>,
    answers: Seq<Option<Seq<char>>>,
    k: int,
)
    requires
        answers.len() == zones.len(),
        0 <= k < zones.len(),
        answers[k] is None,
    ensures
        spec_entries(zones, answers) == spec_entries(zones.remove(k), answers.remove(k)),
{
    let pairs = spec_zone_outcomes(zones, answers);
    let pairs2 = spec_zone_outcomes(zones.remove(k), answers.remove(k));
    assert(pairs2 =~= pairs.remove(k));
    assert(outcome_entry_fn()(pairs[k]).len() == 0);
    lemma_concat_map_skip_empty(pairs, outcome_entry_fn(), k);
}

/// Appending one provider to the configuration appends exactly that
/// provider's contribution to the entry list: the gathered order is the
/// configuration order, whatever order the answers arrived in.
pub proof fn lemma_entries_config_order(
    zones: Seq<Seq<char>>,
    answers: Seq<Option<Seq<char>>>,
    z: Seq<char>,
    a: Option<Seq<char>>,
)
    requires
        answers.len() == zones.len(),
    ensures
        spec_entries(zones.push(z), answers.push(a)) == spec_entries(zones, answers)
            + spec_outcome_entry((z, a)),
{
    let pairs = spec_zone_outcomes(zones, answers);
    let pairs2 = spec_zone_outcomes(zones.push(z), answers.push(a));
    assert(pairs2 =~= pairs.push((z, a)));
    lemma_concat_map_take(pairs2, outcome_entry_fn(), pairs2.len() as int);
    assert(pairs2.take(pairs2.len() as int) =~= pairs2);
    assert(pairs2.take(pairs2.len() - 1) =~= pairs);
}

} // verus!
