//! The data that the DNS agent renders into zone files, with the padding
//! that lines up the columns of each resource record.

use vstd::prelude::*;

use crate::models::{DNSRecord, DNSZone};
use crate::text::{byte_len, decimal, ilog10, lemma_decimal_len, lemma_log10_i32, log10, space_run, spaces};

verus! {

/// A JSON value, carried through unchanged.
#[verifier::external_type_specification]
#[verifier::external_body]
pub struct ExJsonValue(serde_json::Value);

/// The width of the key, ttl and record type columns of a zone file.
pub const COLUMN_WIDTH: usize = 16;

impl DNSRecord {
    /// The record's fields fit the zone-file columns: the key takes at most
    /// `COLUMN_WIDTH` bytes and the ttl is positive (its logarithm is defined).
    pub open spec fn fits_columns(self) -> bool {
        &&& byte_len(self.key@) <= COLUMN_WIDTH
        &&& self.ttl > 0
    }

    /// Whether the record fits the zone-file columns.
    pub fn check_fits_columns(&self) -> (r: bool)
        ensures
            r == self.fits_columns(),
            r <==> (byte_len(self.key@) <= COLUMN_WIDTH && self.ttl > 0),
    {
        self.key.as_str().as_bytes().len() <= COLUMN_WIDTH && self.ttl > 0
    }
}

/// A DNS record with the padding that follows its key, its ttl and its type.
#[derive(Debug, PartialEq)]
pub struct RecordWithSpacing {
    pub record: DNSRecord,
    pub key_ttl_spacing: String,
    pub ttl_in_spacing: String,
    pub recordtype_value_spacing: String,
}

impl RecordWithSpacing {
    /// `self` is `record` with the padding of each column: the key padded to
    /// `COLUMN_WIDTH` bytes, `COLUMN_WIDTH - log10(ttl)` spaces after the ttl,
    /// and the record type's name padded to `COLUMN_WIDTH` characters.
    pub open spec fn spaces_out(self, record: DNSRecord) -> bool {
        &&& self.record == record
        &&& self.key_ttl_spacing@ == spaces((COLUMN_WIDTH - byte_len(record.key@)) as nat)
        &&& self.ttl_in_spacing@ == spaces((COLUMN_WIDTH - log10(record.ttl as nat)) as nat)
        &&& self.recordtype_value_spacing@ == spaces(
            (COLUMN_WIDTH - record.recordtype.name().len()) as nat,
        )
    }

    /// Pads the columns of `record`.
    pub fn new(record: DNSRecord) -> (r: RecordWithSpacing)
        requires
            record.fits_columns(),
        ensures
            r.spaces_out(record),
    {
        let key_len = record.key.as_str().as_bytes().len();
        let key_ttl_spacing = space_run(COLUMN_WIDTH - key_len);
        let ttl_log = ilog10(record.ttl);
        let ttl_in_spacing = space_run(COLUMN_WIDTH - ttl_log as usize);
        let type_len = record.recordtype.len();
        let recordtype_value_spacing = space_run(COLUMN_WIDTH - type_len);
        RecordWithSpacing { record, key_ttl_spacing, ttl_in_spacing, recordtype_value_spacing }
    }
}

/// Padding lines up the columns: the key and its padding take `COLUMN_WIDTH`
/// bytes, the ttl's decimal digits and their padding take `COLUMN_WIDTH + 1`
/// characters, and the record type's name and its padding take `COLUMN_WIDTH`.
pub proof fn lemma_columns_line_up(padded: RecordWithSpacing, record: DNSRecord)
    requires
        record.fits_columns(),
        padded.spaces_out(record),
    ensures
        byte_len(record.key@) + padded.key_ttl_spacing@.len() == COLUMN_WIDTH,
        decimal(record.ttl as nat).len() + padded.ttl_in_spacing@.len() == COLUMN_WIDTH + 1,
        record.recordtype.name().len() + padded.recordtype_value_spacing@.len() == COLUMN_WIDTH,
{
    lemma_log10_i32(record.ttl);
    lemma_decimal_len(record.ttl as nat);
}

/// A record fits the columns exactly when its key takes at most
/// `COLUMN_WIDTH` bytes and its ttl is positive: every positive `i32` ttl is
/// accepted (its logarithm is at most 9, leaving at least 7 spaces of
/// padding), so the check asks no more than the padding needs.
pub proof fn lemma_fits_columns_exactly(record: DNSRecord)
    ensures
        record.fits_columns() <==> (byte_len(record.key@) <= COLUMN_WIDTH && record.ttl > 0),
        record.ttl > 0 ==> COLUMN_WIDTH - log10(record.ttl as nat) >= 7,
{
    if record.ttl > 0 {
        lemma_log10_i32(record.ttl);
    }
}

/// A zone can be padded exactly when it has a list of records and each of
/// them has a key of at most `COLUMN_WIDTH` bytes and a positive ttl.
pub proof fn lemma_can_space_exactly(data: DNSData)
    ensures
        data.can_space() <==> (data.records is Some && forall|i: int|
            0 <= i < data.records->0@.len() ==> byte_len((#[trigger] data.records->0@[i]).key@)
                <= COLUMN_WIDTH && data.records->0@[i].ttl > 0),
{
    if data.records is Some {
        assert forall|i: int| 0 <= i < data.records->0@.len() implies ((
        #[trigger] data.records->0@[i]).fits_columns() <==> (byte_len(data.records->0@[i].key@)
            <= COLUMN_WIDTH && data.records->0@[i].ttl > 0)) by {
            lemma_fits_columns_exactly(data.records->0@[i]);
        }
    }
}

/// Why a zone cannot be written out.
#[derive(PartialEq, Eq, Structural, Clone, Copy, Debug)]
pub enum ZoneError {
    /// The zone came without its SOA data.
    RootNotFound,
}

/// The records of a zone, with its SOA data in `root`.
#[derive(Debug, PartialEq)]
pub struct DNSData {
    pub root: Option<DNSZone>,
    pub records: Option<Vec<DNSRecord>>,
}

/// The records of a zone, padded for the zone file.
#[derive(Debug, PartialEq)]
pub struct DNSDataWithSpacing {
    pub root: Option<DNSZone>,
    pub records: Option<Vec<RecordWithSpacing>>,
}

/// What the DNS agent fetches: the zones, and the MX and SRV details keyed by record id.
#[derive(Debug, PartialEq)]
pub struct DNSOut {
    pub data: Vec<DNSData>,
    pub mx: serde_json::Value,
    pub srv: serde_json::Value,
}

/// `DNSOut` with every zone padded for its zone file.
#[derive(Debug, PartialEq)]
pub struct DNSOutWithSpacing {
    pub data: Vec<DNSDataWithSpacing>,
    pub mx: serde_json::Value,
    pub srv: serde_json::Value,
}

impl DNSData {
    /// The zone can be padded: it has a list of records, each of which fits the columns.
    pub open spec fn can_space(self) -> bool {
        &&& self.records is Some
        &&& forall|i: int|
            0 <= i < self.records->0@.len() ==> (#[trigger] self.records->0@[i]).fits_columns()
    }

    /// Whether the zone can be padded.
    pub fn check_can_space(&self) -> (r: bool)
        ensures
            r == self.can_space(),
    {
        match &self.records {
            None => false,
            Some(records) => {
                let mut i: usize = 0;
                while i < records.len()
                    invariant
                        i <= records@.len(),
                        self.records == Some(*records),
                        forall|j: int| 0 <= j < i ==> (#[trigger] records@[j]).fits_columns(),
                    decreases records@.len() - i,
                {
                    if !records[i].check_fits_columns() {
                        assert(!self.records->0@[i as int].fits_columns());
                        return false;
                    }
                    i = i + 1;
                }
                true
            },
        }
    }
}

impl DNSDataWithSpacing {
    /// `self` is `data` with each record padded, in the same order.
    pub open spec fn spaces_out(self, data: DNSData) -> bool {
        &&& self.root == data.root
        &&& self.records is Some
        &&& data.records is Some
        &&& self.records->0@.len() == data.records->0@.len()
        &&& forall|i: int|
            0 <= i < data.records->0@.len() ==> (#[trigger] self.records->0@[i]).spaces_out(
                data.records->0@[i],
            )
    }

    /// Pads every record of a zone.
    pub fn from(value: DNSData) -> (r: DNSDataWithSpacing)
        requires
            value.can_space(),
        ensures
            r.spaces_out(value),
    {
        let ghost old_value = value;
        let DNSData { root, records } = value;
        let records = records.unwrap();
        let mut records_with_spacing: Vec<RecordWithSpacing> = Vec::new();
        for record in it: records.into_iter()
            invariant
                it.seq() == old_value.records->0@,
                old_value.can_space(),
                records_with_spacing@.len() == it.index(),
                forall|i: int|
                    0 <= i < it.index() ==> (#[trigger] records_with_spacing@[i]).spaces_out(
                        old_value.records->0@[i],
                    ),
        {
            records_with_spacing.push(RecordWithSpacing::new(record));
        }
        DNSDataWithSpacing { root, records: Some(records_with_spacing) }
    }

    /// The name of the zone file: the zone's root followed by `.db`.
    pub fn zone_file_name(&self) -> (r: Result<String, ZoneError>)
        ensures
            match self.root {
                Some(zone) => r matches Ok(name) && name@ == zone.dnsroot@ + seq!['.', 'd', 'b'],
                None => r == Err::<String, ZoneError>(ZoneError::RootNotFound),
            },
    {
        match &self.root {
            Some(zone) => {
                let suffix = ".db";
                proof {
                    reveal_strlit(".db");
                }
                let mut name = zone.dnsroot.clone();
                name.append(suffix);
                Ok(name)
            },
            None => Err(ZoneError::RootNotFound),
        }
    }
}

impl DNSOut {
    /// Every zone can be padded.
    pub open spec fn can_space(self) -> bool {
        forall|i: int| 0 <= i < self.data@.len() ==> (#[trigger] self.data@[i]).can_space()
    }

    /// Whether every zone can be padded.
    pub fn check_can_space(&self) -> (r: bool)
        ensures
            r == self.can_space(),
    {
        let mut i: usize = 0;
        while i < self.data.len()
            invariant
                i <= self.data@.len(),
                forall|j: int| 0 <= j < i ==> (#[trigger] self.data@[j]).can_space(),
            decreases self.data@.len() - i,
        {
            if !self.data[i].check_can_space() {
                return false;
            }
            i = i + 1;
        }
        true
    }
}

impl DNSOutWithSpacing {
    /// `self` is `out` with every zone padded, in the same order, and the
    /// MX and SRV details unchanged.
    pub open spec fn spaces_out(self, out: DNSOut) -> bool {
        &&& self.data@.len() == out.data@.len()
        &&& forall|i: int|
            0 <= i < out.data@.len() ==> (#[trigger] self.data@[i]).spaces_out(out.data@[i])
        &&& self.mx == out.mx
        &&& self.srv == out.srv
    }

    /// Pads every zone.
    pub fn from(value: DNSOut) -> (r: DNSOutWithSpacing)
        requires
            value.can_space(),
        ensures
            r.spaces_out(value),
    {
        let ghost old_value = value;
        let DNSOut { data, mx, srv } = value;
        let mut data_with_spacing: Vec<DNSDataWithSpacing> = Vec::new();
        for zone in it: data.into_iter()
            invariant
                it.seq() == old_value.data@,
                old_value.can_space(),
                data_with_spacing@.len() == it.index(),
                forall|i: int|
                    0 <= i < it.index() ==> (#[trigger] data_with_spacing@[i]).spaces_out(
                        old_value.data@[i],
                    ),
        {
            data_with_spacing.push(DNSDataWithSpacing::from(zone));
        }
        DNSOutWithSpacing { data: data_with_spacing, mx, srv }
    }
}

} // verus!
