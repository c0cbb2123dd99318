//! Response records the service hands to the encoder, with their
//! mathematical views and the projections the wire formats use: a plain
//! text rendering and a flattened row form.

use vstd::prelude::*;
use crate::seqs::{spec_concat_map, lemma_concat_map_take};
use crate::text::{append_dec_u64, dec_of};

verus! {

/// Renders a value as human-readable plain text.
pub trait ToPlainText {
    /// The exact text the plain rendering produces.
    spec fn plain_view(&self) -> Seq<char>;

    /// Produces the plain-text rendering.
    fn to_plain_text(&self) -> (r: String)
        ensures
            r@ == self.plain_view(),
    ;
}

/// Projects a value onto zero or more flat records for CSV output.
pub trait ToCsv<T: DeepView> {
    /// The abstract rows the projection produces.
    spec fn csv_rows(&self) -> Seq<T::V>;

    /// Produces the flattened records.
    fn to_csv_entries(&self) -> (r: Vec<T>)
        ensures
            r.deep_view() == self.csv_rows(),
    ;
}

// ---------------------------------------------------------------------
// Simple one-value responses
// ---------------------------------------------------------------------

/// A response consisting of one textual value.
pub struct SimpleResponse {
    pub value: String,
}

/// The abstract form of a `SimpleResponse`.
pub struct SimpleResponseV {
    pub value: Seq<char>,
}

impl View for SimpleResponse {
    type V = SimpleResponseV;

    open spec fn view(&self) -> SimpleResponseV {
        SimpleResponseV { value: self.value@ }
    }
}

impl DeepView for SimpleResponse {
    type V = SimpleResponseV;

    open spec fn deep_view(&self) -> SimpleResponseV {
        self@
    }
}

impl ToPlainText for SimpleResponse {
    open spec fn plain_view(&self) -> Seq<char> {
        self.value@
    }

    fn to_plain_text(&self) -> (r: String) {
        self.value.clone()
    }
}

impl ToCsv<SimpleResponse> for SimpleResponse {
    open spec fn csv_rows(&self) -> Seq<SimpleResponseV> {
        seq![self@]
    }

    fn to_csv_entries(&self) -> (r: Vec<SimpleResponse>) {
        let mut v: Vec<SimpleResponse> = Vec::new();
        v.push(SimpleResponse { value: self.value.clone() });
        proof {
            assert(v.deep_view() =~= self.csv_rows());
        }
        v
    }
}

// ---------------------------------------------------------------------
// ASN records
// ---------------------------------------------------------------------

/// An autonomous-system record: organization name and system number.
pub struct AsnRecord {
    pub aso: Option<String>,
    pub asn: Option<u32>,
}

/// The abstract form of an `AsnRecord`.
pub struct AsnRecordV {
    pub aso: Option<Seq<char>>,
    pub asn: Option<u32>,
}

impl View for AsnRecord {
    type V = AsnRecordV;

    open spec fn view(&self) -> AsnRecordV {
        AsnRecordV {
            aso: match self.aso {
                Some(s) => Some(s@),
                None => None,
            },
            asn: self.asn,
        }
    }
}

impl DeepView for AsnRecord {
    type V = AsnRecordV;

    open spec fn deep_view(&self) -> AsnRecordV {
        self@
    }
}

impl AsnRecord {
    /// A field-wise copy.
    pub fn duplicate(&self) -> (r: AsnRecord)
        ensures
            r@ == self@,
    {
        AsnRecord {
            aso: match &self.aso {
                Some(s) => Some(s.clone()),
                None => None,
            },
            asn: self.asn,
        }
    }
}

/// The plain-text rendering of an ASN record.
pub open spec fn spec_asn_plain(v: AsnRecordV) -> Seq<char> {
    "ASN: "@ + dec_of(match v.asn {
        Some(n) => n as nat,
        None => 0,
    }) + "\nOrganization: "@ + match v.aso {
        Some(s) => s,
        None => Seq::empty(),
    }
}

impl ToPlainText for AsnRecord {
    open spec fn plain_view(&self) -> Seq<char> {
        spec_asn_plain(self@)
    }

    fn to_plain_text(&self) -> (r: String) {
        let mut out = "ASN: ".to_owned();
        let n: u32 = match self.asn {
            Some(n) => n,
            None => 0,
        };
        append_dec_u64(&mut out, n as u64);
        out.append("\nOrganization: ");
        match &self.aso {
            Some(s) => out.append(s.as_str()),
            None => (),
        }
        proof {
            assert(out@ =~= self.plain_view());
        }
        out
    }
}

impl ToCsv<AsnRecord> for AsnRecord {
    open spec fn csv_rows(&self) -> Seq<AsnRecordV> {
        seq![self@]
    }

    fn to_csv_entries(&self) -> (r: Vec<AsnRecord>) {
        let mut v: Vec<AsnRecord> = Vec::new();
        v.push(self.duplicate());
        proof {
            assert(v.deep_view() =~= self.csv_rows());
        }
        v
    }
}

// ---------------------------------------------------------------------
// Reputation (blocklist) records
// ---------------------------------------------------------------------

/// The semantic reason a reputation list gave for listing an address.
#[derive(Clone, Copy, Debug, PartialEq, Eq, Structural)]
pub enum BlocklistReason {
    SpamSource,
    SpamSupport,
    ExploitedOrMalicious,
    DynamicResidential,
    Unknown,
}

/// The name of a reason, as it appears on the wire.
pub open spec fn spec_blocklist_reason_name(r: BlocklistReason) -> Seq<char> {
    match r {
        BlocklistReason::SpamSource => "SpamSource"@,
        BlocklistReason::SpamSupport => "SpamSupport"@,
        BlocklistReason::ExploitedOrMalicious => "ExploitedOrMalicious"@,
        BlocklistReason::DynamicResidential => "DynamicResidential"@,
        BlocklistReason::Unknown => "Unknown"@,
    }
}

impl BlocklistReason {
    /// The reason's name.
    pub fn name(&self) -> (r: &'static str)
        ensures
            r@ == spec_blocklist_reason_name(*self),
    {
        match self {
            BlocklistReason::SpamSource => "SpamSource",
            BlocklistReason::SpamSupport => "SpamSupport",
            BlocklistReason::ExploitedOrMalicious => "ExploitedOrMalicious",
            BlocklistReason::DynamicResidential => "DynamicResidential",
            BlocklistReason::Unknown => "Unknown",
        }
    }
}

/// One reputation listing: the list's zone and the classified reason.
pub struct BlocklistEntry {
    pub dnsbl: String,
    pub reason: BlocklistReason,
}

/// The abstract form of a `BlocklistEntry`.
pub struct BlocklistEntryV {
    pub dnsbl: Seq<char>,
    pub reason: BlocklistReason,
}

impl View for BlocklistEntry {
    type V = BlocklistEntryV;

    open spec fn view(&self) -> BlocklistEntryV {
        BlocklistEntryV { dnsbl: self.dnsbl@, reason: self.reason }
    }
}

impl DeepView for BlocklistEntry {
    type V = BlocklistEntryV;

    open spec fn deep_view(&self) -> BlocklistEntryV {
        self@
    }
}

/// A reputation record: the queried address, whether it is listed, and
/// the listings in provider-configuration order.
pub struct BlocklistRecord {
    pub ip: String,
    pub blocked: bool,
    pub listed_in: Vec<BlocklistEntry>,
}

/// The abstract form of a `BlocklistRecord`.
pub struct BlocklistRecordV {
    pub ip: Seq<char>,
    pub blocked: bool,
    pub listed_in: Seq<BlocklistEntryV>,
}

impl View for BlocklistRecord {
    type V = BlocklistRecordV;

    open spec fn view(&self) -> BlocklistRecordV {
        BlocklistRecordV {
            ip: self.ip@,
            blocked: self.blocked,
            listed_in: self.listed_in.deep_view(),
        }
    }
}

impl DeepView for BlocklistRecord {
    type V = BlocklistRecordV;

    open spec fn deep_view(&self) -> BlocklistRecordV {
        self@
    }
}

/// One line of the plain rendering's list block.
pub open spec fn spec_list_line(e: BlocklistEntryV) -> Seq<char> {
    "\n - "@ + e.dnsbl + " ("@ + spec_blocklist_reason_name(e.reason) + ")"@
}

/// The list-line rendering as a function value, shared by definition and
/// proofs.
pub open spec fn list_line_fn() -> spec_fn(BlocklistEntryV) -> Seq<char> {
    |e: BlocklistEntryV| spec_list_line(e)
}

/// The list block of the plain rendering, one line per entry.
pub open spec fn spec_list_block(entries: Seq<BlocklistEntryV>) -> Seq<char> {
    spec_concat_map(entries, list_line_fn())
}

/// The plain-text rendering of a reputation record.
pub open spec fn spec_blocklist_plain(v: BlocklistRecordV) -> Seq<char> {
    "IP: "@ + v.ip + "\nBlocked: "@ + (if v.blocked { "yes"@ } else { "no"@ })
        + if v.blocked && v.listed_in.len() > 0 {
            "\nLists:"@ + spec_list_block(v.listed_in)
        } else {
            Seq::empty()
        }
}

impl ToPlainText for BlocklistRecord {
    open spec fn plain_view(&self) -> Seq<char> {
        spec_blocklist_plain(self@)
    }

    fn to_plain_text(&self) -> (r: String) {
        let mut out = "IP: ".to_owned();
        out.append(self.ip.as_str());
        out.append("\nBlocked: ");
        out.append(if self.blocked { "yes" } else { "no" });
        if self.blocked && self.listed_in.len() > 0 {
            out.append("\nLists:");
            let ghost head = out@;
            let mut i: usize = 0;
            while i < self.listed_in.len()
                invariant
                    i <= self.listed_in@.len(),
                    out@ == head + spec_list_block(self@.listed_in.take(i as int)),
                decreases self.listed_in@.len() - i,
            {
                let e = &self.listed_in[i];
                out.append("\n - ");
                out.append(e.dnsbl.as_str());
                out.append(" (");
                out.append(e.reason.name());
                out.append(")");
                i = i + 1;
                proof {
                    lemma_concat_map_take(self@.listed_in, list_line_fn(), i as int);
                    assert(out@ =~= head + spec_list_block(self@.listed_in.take(i as int)));
                }
            }
            proof {
                assert(self@.listed_in.take(self.listed_in@.len() as int) =~= self@.listed_in);
                assert(out@ =~= self.plain_view());
            }
        } else {
            proof {
                assert(out@ =~= self.plain_view());
            }
        }
        out
    }
}

/// One flattened CSV row of a reputation record.
pub struct BlocklistCsvEntry {
    pub ip: String,
    pub dnsbl: String,
    pub reason: BlocklistReason,
}

/// The abstract form of a `BlocklistCsvEntry`.
pub struct BlocklistCsvEntryV {
    pub ip: Seq<char>,
    pub dnsbl: Seq<char>,
    pub reason: BlocklistReason,
}

impl View for BlocklistCsvEntry {
    type V = BlocklistCsvEntryV;

    open spec fn view(&self) -> BlocklistCsvEntryV {
        BlocklistCsvEntryV { ip: self.ip@, dnsbl: self.dnsbl@, reason: self.reason }
    }
}

impl DeepView for BlocklistCsvEntry {
    type V = BlocklistCsvEntryV;

    open spec fn deep_view(&self) -> BlocklistCsvEntryV {
        self@
    }
}

/// The row one entry contributes: nothing when its reason is unknown.
pub open spec fn spec_blocklist_row(ip: Seq<char>, e: BlocklistEntryV) -> Seq<BlocklistCsvEntryV> {
    if e.reason == BlocklistReason::Unknown {
        Seq::empty()
    } else {
        seq![BlocklistCsvEntryV { ip: ip, dnsbl: e.dnsbl, reason: e.reason }]
    }
}

/// The row rendering as a function value, shared by definition and
/// proofs.
pub open spec fn blocklist_row_fn(ip: Seq<char>) -> spec_fn(BlocklistEntryV) -> Seq<
    BlocklistCsvEntryV,
> {
    |e: BlocklistEntryV| spec_blocklist_row(ip, e)
}

/// The flattened rows of a reputation record: one per entry whose reason
/// is known, carrying the record's address.
pub open spec fn spec_blocklist_csv_rows(ip: Seq<char>, entries: Seq<BlocklistEntryV>) -> Seq<
    BlocklistCsvEntryV,
> {
    spec_concat_map(entries, blocklist_row_fn(ip))
}

impl ToCsv<BlocklistCsvEntry> for BlocklistRecord {
    open spec fn csv_rows(&self) -> Seq<BlocklistCsvEntryV> {
        spec_blocklist_csv_rows(self.ip@, self@.listed_in)
    }

    fn to_csv_entries(&self) -> (r: Vec<BlocklistCsvEntry>) {
        let mut v: Vec<BlocklistCsvEntry> = Vec::new();
        let mut i: usize = 0;
        while i < self.listed_in.len()
            invariant
                i <= self.listed_in@.len(),
                v.deep_view() == spec_blocklist_csv_rows(
                    self.ip@,
                    self@.listed_in.take(i as int),
                ),
            decreases self.listed_in@.len() - i,
        {
            let e = &self.listed_in[i];
            if !matches!(e.reason, BlocklistReason::Unknown) {
                v.push(
                    BlocklistCsvEntry {
                        ip: self.ip.clone(),
                        dnsbl: e.dnsbl.clone(),
                        reason: e.reason,
                    },
                );
            }
            i = i + 1;
            proof {
                lemma_concat_map_take(self@.listed_in, blocklist_row_fn(self.ip@), i as int);
                assert(v.deep_view() =~= spec_blocklist_csv_rows(
                    self.ip@,
                    self@.listed_in.take(i as int),
                ));
            }
        }
        proof {
            assert(self@.listed_in.take(self.listed_in@.len() as int) =~= self@.listed_in);
        }
        v
    }
}

// ---------------------------------------------------------------------
// The combined response
// ---------------------------------------------------------------------

/// Everything the service knows about an address, in one record.
pub struct AllResponse {
    pub ip: String,
    pub reverse_dns: String,
    pub country: String,
    pub country_code: String,
    pub region: String,
    pub city: String,
    pub asn: AsnRecord,
    pub blocklist: BlocklistRecord,
}

/// The abstract form of an `AllResponse`.
pub struct AllResponseV {
    pub ip: Seq<char>,
    pub reverse_dns: Seq<char>,
    pub country: Seq<char>,
    pub country_code: Seq<char>,
    pub region: Seq<char>,
    pub city: Seq<char>,
    pub asn: AsnRecordV,
    pub blocklist: BlocklistRecordV,
}

impl View for AllResponse {
    type V = AllResponseV;

    open spec fn view(&self) -> AllResponseV {
        AllResponseV {
            ip: self.ip@,
            reverse_dns: self.reverse_dns@,
            country: self.country@,
            country_code: self.country_code@,
            region: self.region@,
            city: self.city@,
            asn: self.asn@,
            blocklist: self.blocklist@,
        }
    }
}

impl DeepView for AllResponse {
    type V = AllResponseV;

    open spec fn deep_view(&self) -> AllResponseV {
        self@
    }
}

/// The plain-text rendering of the combined record.
pub open spec fn spec_all_plain(v: AllResponseV) -> Seq<char> {
    "IP: "@ + v.ip + "\nHostname: "@ + v.reverse_dns + "\nCountry: "@ + v.country + " ("@
        + v.country_code + ")\nRegion: "@ + v.region + "\nCity: "@ + v.city + "\nASN: "@
        + spec_asn_plain(v.asn) + "\nBlocklist: "@ + spec_blocklist_plain(v.blocklist)
}

impl ToPlainText for AllResponse {
    open spec fn plain_view(&self) -> Seq<char> {
        spec_all_plain(self@)
    }

    fn to_plain_text(&self) -> (r: String) {
        let mut out = "IP: ".to_owned();
        out.append(self.ip.as_str());
        out.append("\nHostname: ");
        out.append(self.reverse_dns.as_str());
        out.append("\nCountry: ");
        out.append(self.country.as_str());
        out.append(" (");
        out.append(self.country_code.as_str());
        out.append(")\nRegion: ");
        out.append(self.region.as_str());
        out.append("\nCity: ");
        out.append(self.city.as_str());
        out.append("\nASN: ");
        let asn_text = self.asn.to_plain_text();
        out.append(asn_text.as_str());
        out.append("\nBlocklist: ");
        let bl_text = self.blocklist.to_plain_text();
        out.append(bl_text.as_str());
        proof {
            assert(out@ =~= self.plain_view());
        }
        out
    }
}

/// One flattened CSV row of the combined record.
pub struct CsvInfoEntry {
    pub ip: String,
    pub reverse_dns: String,
    pub country: String,
    pub country_code: String,
    pub region: String,
    pub city: String,
    pub asn: u32,
    pub aso: String,
    pub blocked: bool,
    pub blocklist_listed_in: String,
}

/// The abstract form of a `CsvInfoEntry`.
pub struct CsvInfoEntryV {
    pub ip: Seq<char>,
    pub reverse_dns: Seq<char>,
    pub country: Seq<char>,
    pub country_code: Seq<char>,
    pub region: Seq<char>,
    pub city: Seq<char>,
    pub asn: u32,
    pub aso: Seq<char>,
    pub blocked: bool,
    pub blocklist_listed_in: Seq<char>,
}

impl View for CsvInfoEntry {
    type V = CsvInfoEntryV;

    open spec fn view(&self) -> CsvInfoEntryV {
        CsvInfoEntryV {
            ip: self.ip@,
            reverse_dns: self.reverse_dns@,
            country: self.country@,
            country_code: self.country_code@,
            region: self.region@,
            city: self.city@,
            asn: self.asn,
            aso: self.aso@,
            blocked: self.blocked,
            blocklist_listed_in: self.blocklist_listed_in@,
        }
    }
}

impl DeepView for CsvInfoEntry {
    type V = CsvInfoEntryV;

    open spec fn deep_view(&self) -> CsvInfoEntryV {
        self@
    }
}

/// The label of one entry in the joined listing column.
pub open spec fn spec_entry_label(e: BlocklistEntryV) -> Seq<char> {
    e.dnsbl + " ("@ + spec_blocklist_reason_name(e.reason) + ")"@
}

/// A label preceded by the `:` separator, as a function value.
pub open spec fn sep_label_fn() -> spec_fn(BlocklistEntryV) -> Seq<char> {
    |e: BlocklistEntryV| ":"@ + spec_entry_label(e)
}

/// All entry labels joined with `:`.
pub open spec fn spec_entry_labels_joined(entries: Seq<BlocklistEntryV>) -> Seq<char> {
    if entries.len() == 0 {
        Seq::empty()
    } else {
        spec_entry_label(entries[0]) + spec_concat_map(entries.drop_first(), sep_label_fn())
    }
}

/// Joins the labels of all entries with `:`.
pub fn join_entry_labels(entries: &Vec<BlocklistEntry>) -> (r: String)
    ensures
        r@ == spec_entry_labels_joined(entries.deep_view()),
{
    let ghost model = entries.deep_view();
    let mut out = String::new();
    let mut i: usize = 0;
    while i < entries.len()
        invariant
            i <= entries@.len(),
            model == entries.deep_view(),
            model.len() == entries@.len(),
            out@ == spec_entry_labels_joined(model.take(i as int)),
        decreases entries@.len() - i,
    {
        let e = &entries[i];
        if i > 0 {
            out.append(":");
        }
        out.append(e.dnsbl.as_str());
        out.append(" (");
        out.append(e.reason.name());
        out.append(")");
        i = i + 1;
        proof {
            assert(model.take(i as int)[0] == model[0]);
            if i == 1 {
                assert(model.take(1).drop_first() =~= Seq::<BlocklistEntryV>::empty());
                assert(out@ =~= spec_entry_labels_joined(model.take(1))) by {
                    reveal_with_fuel(spec_concat_map, 1);
                    assert(spec_concat_map(
                        Seq::<BlocklistEntryV>::empty(),
                        sep_label_fn(),
                    ) =~= Seq::<char>::empty());
                }
            } else {
                lemma_concat_map_take(model.drop_first(), sep_label_fn(), i - 1);
                assert(model.take(i as int).drop_first() =~= model.drop_first().take(i - 1));
                assert(model.take(i as int - 1).drop_first() =~= model.drop_first().take(i - 2));
                assert(model.drop_first()[i - 2] == model[i - 1]);
                assert(out@ =~= spec_entry_labels_joined(model.take(i as int)));
            }
        }
    }
    proof {
        assert(model.take(model.len() as int) =~= model);
    }
    out
}

impl ToCsv<CsvInfoEntry> for AllResponse {
    open spec fn csv_rows(&self) -> Seq<CsvInfoEntryV> {
        seq![
            CsvInfoEntryV {
                ip: self.ip@,
                reverse_dns: self.reverse_dns@,
                country: self.country@,
                country_code: self.country_code@,
                region: self.region@,
                city: self.city@,
                asn: match self@.asn.asn {
                    Some(n) => n,
                    None => 0,
                },
                aso: match self@.asn.aso {
                    Some(s) => s,
                    None => Seq::empty(),
                },
                blocked: self.blocklist.blocked,
                blocklist_listed_in: spec_entry_labels_joined(self@.blocklist.listed_in),
            },
        ]
    }

    fn to_csv_entries(&self) -> (r: Vec<CsvInfoEntry>) {
        let aso = match &self.asn.aso {
            Some(s) => s.clone(),
            None => String::new(),
        };
        let mut v: Vec<CsvInfoEntry> = Vec::new();
        v.push(
            CsvInfoEntry {
                ip: self.ip.clone(),
                reverse_dns: self.reverse_dns.clone(),
                country: self.country.clone(),
                country_code: self.country_code.clone(),
                region: self.region.clone(),
                city: self.city.clone(),
                asn: match self.asn.asn {
                    Some(n) => n,
                    None => 0,
                },
                aso,
                blocked: self.blocklist.blocked,
                blocklist_listed_in: join_entry_labels(&self.blocklist.listed_in),
            },
        );
        proof {
            assert(v.deep_view() =~= self.csv_rows());
        }
        v
    }
}

// ---------------------------------------------------------------------
// Legacy blacklist records
// ---------------------------------------------------------------------

/// The reason a blacklist gave for listing an address; the older name of
/// `BlocklistReason`, kept for the blacklist record family.
#[derive(Clone, Copy, Debug, PartialEq, Eq, Structural)]
pub enum BlacklistReason {
    SpamSource,
    SpamSupport,
    ExploitedOrMalicious,
    DynamicResidential,
    Unknown,
}

/// The name of a blacklist reason, as it appears on the wire.
pub open spec fn spec_blacklist_reason_name(r: BlacklistReason) -> Seq<char> {
    match r {
        BlacklistReason::SpamSource => "SpamSource"@,
        BlacklistReason::SpamSupport => "SpamSupport"@,
        BlacklistReason::ExploitedOrMalicious => "ExploitedOrMalicious"@,
        BlacklistReason::DynamicResidential => "DynamicResidential"@,
        BlacklistReason::Unknown => "Unknown"@,
    }
}

impl BlacklistReason {
    /// The reason's name.
    pub fn name(&self) -> (r: &'static str)
        ensures
            r@ == spec_blacklist_reason_name(*self),
    {
        match self {
            BlacklistReason::SpamSource => "SpamSource",
            BlacklistReason::SpamSupport => "SpamSupport",
            BlacklistReason::ExploitedOrMalicious => "ExploitedOrMalicious",
            BlacklistReason::DynamicResidential => "DynamicResidential",
            BlacklistReason::Unknown => "Unknown",
        }
    }
}

/// One blacklist listing.
pub struct BlacklistEntry {
    pub dnsbl: String,
    pub reason: BlacklistReason,
}

/// The abstract form of a `BlacklistEntry`.
pub struct BlacklistEntryV {
    pub dnsbl: Seq<char>,
    pub reason: BlacklistReason,
}

impl View for BlacklistEntry {
    type V = BlacklistEntryV;

    open spec fn view(&self) -> BlacklistEntryV {
        BlacklistEntryV { dnsbl: self.dnsbl@, reason: self.reason }
    }
}

impl DeepView for BlacklistEntry {
    type V = BlacklistEntryV;

    open spec fn deep_view(&self) -> BlacklistEntryV {
        self@
    }
}

/// A blacklist record, the older shape of the reputation record.
pub struct BlacklistRecord {
    pub ip: String,
    pub blacklisted: bool,
    pub listed_in: Vec<BlacklistEntry>,
}

/// The abstract form of a `BlacklistRecord`.
pub struct BlacklistRecordV {
    pub ip: Seq<char>,
    pub blacklisted: bool,
    pub listed_in: Seq<BlacklistEntryV>,
}

impl View for BlacklistRecord {
    type V = BlacklistRecordV;

    open spec fn view(&self) -> BlacklistRecordV {
        BlacklistRecordV {
            ip: self.ip@,
            blacklisted: self.blacklisted,
            listed_in: self.listed_in.deep_view(),
        }
    }
}

impl DeepView for BlacklistRecord {
    type V = BlacklistRecordV;

    open spec fn deep_view(&self) -> BlacklistRecordV {
        self@
    }
}

/// One line of the blacklist plain rendering's list block.
pub open spec fn spec_blacklist_line(e: BlacklistEntryV) -> Seq<char> {
    "\n - "@ + e.dnsbl + " ("@ + spec_blacklist_reason_name(e.reason) + ")"@
}

/// The blacklist list-line rendering as a function value.
pub open spec fn blacklist_line_fn() -> spec_fn(BlacklistEntryV) -> Seq<char> {
    |e: BlacklistEntryV| spec_blacklist_line(e)
}

/// The plain-text rendering of a blacklist record.
pub open spec fn spec_blacklist_plain(v: BlacklistRecordV) -> Seq<char> {
    "IP: "@ + v.ip + "\nBlacklisted: "@ + (if v.blacklisted { "yes"@ } else { "no"@ })
        + if v.blacklisted && v.listed_in.len() > 0 {
            "\nLists:"@ + spec_concat_map(v.listed_in, blacklist_line_fn())
        } else {
            Seq::empty()
        }
}

impl ToPlainText for BlacklistRecord {
    open spec fn plain_view(&self) -> Seq<char> {
        spec_blacklist_plain(self@)
    }

    fn to_plain_text(&self) -> (r: String) {
        let mut out = "IP: ".to_owned();
        out.append(self.ip.as_str());
        out.append("\nBlacklisted: ");
        out.append(if self.blacklisted { "yes" } else { "no" });
        if self.blacklisted && self.listed_in.len() > 0 {
            out.append("\nLists:");
            let ghost head = out@;
            let mut i: usize = 0;
            while i < self.listed_in.len()
                invariant
                    i <= self.listed_in@.len(),
                    out@ == head + spec_concat_map(
                        self@.listed_in.take(i as int),
                        blacklist_line_fn(),
                    ),
                decreases self.listed_in@.len() - i,
            {
                let e = &self.listed_in[i];
                out.append("\n - ");
                out.append(e.dnsbl.as_str());
                out.append(" (");
                out.append(e.reason.name());
                out.append(")");
                i = i + 1;
                proof {
                    lemma_concat_map_take(self@.listed_in, blacklist_line_fn(), i as int);
                    assert(out@ =~= head + spec_concat_map(
                        self@.listed_in.take(i as int),
                        blacklist_line_fn(),
                    ));
                }
            }
            proof {
                assert(self@.listed_in.take(self.listed_in@.len() as int) =~= self@.listed_in);
                assert(out@ =~= self.plain_view());
            }
        } else {
            proof {
                assert(out@ =~= self.plain_view());
            }
        }
        out
    }
}

/// One flattened CSV row of a blacklist record.
pub struct CsvBlacklistEntry {
    pub ip: String,
    pub dnsbl: String,
    pub reason: BlacklistReason,
}

/// The abstract form of a `CsvBlacklistEntry`.
pub struct CsvBlacklistEntryV {
    pub ip: Seq<char>,
    pub dnsbl: Seq<char>,
    pub reason: BlacklistReason,
}

impl View for CsvBlacklistEntry {
    type V = CsvBlacklistEntryV;

    open spec fn view(&self) -> CsvBlacklistEntryV {
        CsvBlacklistEntryV { ip: self.ip@, dnsbl: self.dnsbl@, reason: self.reason }
    }
}

impl DeepView for CsvBlacklistEntry {
    type V = CsvBlacklistEntryV;

    open spec fn deep_view(&self) -> CsvBlacklistEntryV {
        self@
    }
}

/// The row one blacklist entry contributes: nothing when its reason is
/// unknown.
pub open spec fn spec_blacklist_row(ip: Seq<char>, e: BlacklistEntryV) -> Seq<CsvBlacklistEntryV> {
    if e.reason == BlacklistReason::Unknown {
        Seq::empty()
    } else {
        seq![CsvBlacklistEntryV { ip: ip, dnsbl: e.dnsbl, reason: e.reason }]
    }
}

/// The blacklist row rendering as a function value.
pub open spec fn blacklist_row_fn(ip: Seq<char>) -> spec_fn(BlacklistEntryV) -> Seq<
    CsvBlacklistEntryV,
> {
    |e: BlacklistEntryV| spec_blacklist_row(ip, e)
}

impl ToCsv<CsvBlacklistEntry> for BlacklistRecord {
    open spec fn csv_rows(&self) -> Seq<CsvBlacklistEntryV> {
        spec_concat_map(self@.listed_in, blacklist_row_fn(self.ip@))
    }

    fn to_csv_entries(&self) -> (r: Vec<CsvBlacklistEntry>) {
        let mut v: Vec<CsvBlacklistEntry> = Vec::new();
        let mut i: usize = 0;
        while i < self.listed_in.len()
            invariant
                i <= self.listed_in@.len(),
                v.deep_view() == spec_concat_map(
                    self@.listed_in.take(i as int),
                    blacklist_row_fn(self.ip@),
                ),
            decreases self.listed_in@.len() - i,
        {
            let e = &self.listed_in[i];
            if !matches!(e.reason, BlacklistReason::Unknown) {
                v.push(
                    CsvBlacklistEntry {
                        ip: self.ip.clone(),
                        dnsbl: e.dnsbl.clone(),
                        reason: e.reason,
                    },
                );
            }
            i = i + 1;
            proof {
                lemma_concat_map_take(self@.listed_in, blacklist_row_fn(self.ip@), i as int);
                assert(v.deep_view() =~= spec_concat_map(
                    self@.listed_in.take(i as int),
                    blacklist_row_fn(self.ip@),
                ));
            }
        }
        proof {
            assert(self@.listed_in.take(self.listed_in@.len() as int) =~= self@.listed_in);
        }
        v
    }
}

} // verus!
