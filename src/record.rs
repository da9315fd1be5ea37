use bgpkit_commons::asinfo::AsInfo;
use vstd::prelude::*;

verus! {

/// The loader's own AS record. The library never reads inside it: it is
/// carried along so that the canonical response can show every field the
/// loader produced.
#[verifier::external_type_specification]
#[verifier::external_body]
pub struct ExAsInfo(AsInfo);

/// Relies on the `Clone` that `AsInfo` derives: a field-by-field copy, equal
/// to the value it copies.
#[verifier::external_body]
fn copy_as_info(info: &AsInfo) -> (r: AsInfo)
    ensures
        r == *info,
{
    info.clone()
}

/// The organization an AS belongs to.
pub struct OrgRef {
    pub org_id: String,
    pub org_name: String,
}

impl Clone for OrgRef {
    fn clone(&self) -> (r: Self)
        ensures
            r == *self,
    {
        OrgRef { org_id: self.org_id.clone(), org_name: self.org_name.clone() }
    }
}

/// One ASN record as the cache holds it: the fields that lookups and the
/// legacy shape read, the enrichment country name, and the loader's full
/// record.
pub struct AsInfoOut {
    pub asn: u32,
    pub name: String,
    pub country: String,
    pub as2org: Option<OrgRef>,
    pub country_name: String,
    pub inner: AsInfo,
}

impl Clone for AsInfoOut {
    fn clone(&self) -> (r: Self)
        ensures
            r == *self,
    {
        let as2org = match &self.as2org {
            Some(org) => Some(org.clone()),
            None => None,
        };
        AsInfoOut {
            asn: self.asn,
            name: self.name.clone(),
            country: self.country.clone(),
            as2org,
            country_name: self.country_name.clone(),
            inner: copy_as_info(&self.inner),
        }
    }
}

/// The flat legacy record shape.
pub struct AsInfoSimplified {
    pub asn: u32,
    pub as_name: String,
    pub org_id: String,
    pub org_name: String,
    pub country_code: String,
    pub country_name: String,
    pub data_source: String,
}

/// What an `AsInfoSimplified` holds, as character sequences.
pub ghost struct LegacyRecord {
    pub asn: u32,
    pub as_name: Seq<char>,
    pub org_id: Seq<char>,
    pub org_name: Seq<char>,
    pub country_code: Seq<char>,
    pub country_name: Seq<char>,
    pub data_source: Seq<char>,
}

impl View for AsInfoSimplified {
    type V = LegacyRecord;

    open spec fn view(&self) -> LegacyRecord {
        LegacyRecord {
            asn: self.asn,
            as_name: self.as_name@,
            org_id: self.org_id@,
            org_name: self.org_name@,
            country_code: self.country_code@,
            country_name: self.country_name@,
            data_source: self.data_source@,
        }
    }
}

/// The legacy shape of a record: the organization fields are empty when the
/// record has no organization, and `data_source` is always empty.
pub open spec fn legacy_of(r: AsInfoOut) -> LegacyRecord {
    LegacyRecord {
        asn: r.asn,
        as_name: r.name@,
        org_id: match r.as2org {
            Some(org) => org.org_id@,
            None => Seq::empty(),
        },
        org_name: match r.as2org {
            Some(org) => org.org_name@,
            None => Seq::empty(),
        },
        country_code: r.country@,
        country_name: r.country_name@,
        data_source: Seq::empty(),
    }
}

impl AsInfoSimplified {
    /// Flattens one record into the legacy shape.
    pub fn from_record(r: &AsInfoOut) -> (s: AsInfoSimplified)
        ensures
            s@ == legacy_of(*r),
    {
        let (org_id, org_name) = match &r.as2org {
            Some(org) => (org.org_id.clone(), org.org_name.clone()),
            None => (String::new(), String::new()),
        };
        AsInfoSimplified {
            asn: r.asn,
            as_name: r.name.clone(),
            org_id,
            org_name,
            country_code: r.country.clone(),
            country_name: r.country_name.clone(),
            data_source: String::new(),
        }
    }
}

/// Flattens every record, in order, into the legacy shape.
pub fn convert_to_legacy(list: Vec<AsInfoOut>) -> (out: Vec<AsInfoSimplified>)
    ensures
        out@.len() == list@.len(),
        forall|i: int| 0 <= i < list@.len() ==> #[trigger] out@[i]@ == legacy_of(list@[i]),
{
    let mut out: Vec<AsInfoSimplified> = Vec::with_capacity(list.len());
    let mut i: usize = 0;
    while i < list.len()
        invariant
            i <= list@.len(),
            out@.len() == i,
            forall|j: int| 0 <= j < i ==> #[trigger] out@[j]@ == legacy_of(list@[j]),
        decreases list@.len() - i,
    {
        out.push(AsInfoSimplified::from_record(&list[i]));
        i = i + 1;
    }
    out
}

} // verus!
