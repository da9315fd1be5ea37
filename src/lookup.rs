use crate::query::{asns_in, parse_asn_list};
use crate::record::{convert_to_legacy, legacy_of, AsInfoOut, AsInfoSimplified};
use crate::snapshot::{records_keyed_by_asn, Snapshot, SnapshotView};
use vstd::prelude::*;

verus! {

/// Why a lookup request was refused.
#[derive(Debug, Clone, Copy, PartialEq, Eq, Structural)]
pub enum LookupError {
    /// The request names no ASN.
    InvalidRequest,
    /// The request names more ASNs than one request may.
    PayloadTooLarge,
}

impl LookupError {
    /// The HTTP status that reports this error.
    pub fn status_code(&self) -> (r: u16)
        ensures
            *self == LookupError::InvalidRequest ==> r == 400,
            *self == LookupError::PayloadTooLarge ==> r == 413,
    {
        match self {
            LookupError::InvalidRequest => 400,
            LookupError::PayloadTooLarge => 413,
        }
    }
}

/// The records that answer `asns`, in request order: one for each requested
/// ASN that `records` holds, repeats included; other ASNs are left out.
pub open spec fn found_records(records: Map<u32, AsInfoOut>, asns: Seq<u32>) -> Seq<AsInfoOut>
    decreases asns.len(),
{
    if asns.len() == 0 {
        Seq::empty()
    } else {
        let pre = found_records(records, asns.drop_last());
        if records.contains_key(asns.last()) {
            pre.push(records[asns.last()])
        } else {
            pre
        }
    }
}

/// The records of a response, in the shape the request asked for.
pub enum LookupData {
    Canonical(Vec<AsInfoOut>),
    Legacy(Vec<AsInfoSimplified>),
}

/// The answer to a lookup: the records found, how many there are, the
/// timestamp of the snapshot they were read from, and the single page they
/// fill (page 0, sized by the number of ASNs requested).
pub struct LookupResponse {
    pub data: LookupData,
    pub count: usize,
    pub updated_at: String,
    pub page: usize,
    pub page_size: usize,
}

/// `resp` answers a request for `asns` from the snapshot `snap`: its records
/// and its timestamp come from that one snapshot.
pub open spec fn answers(resp: LookupResponse, snap: SnapshotView, asns: Seq<u32>, legacy: bool) -> bool {
    let found = found_records(snap.records, asns);
    &&& resp.count == found.len()
    &&& resp.updated_at@ == snap.updated_at
    &&& resp.page == 0
    &&& resp.page_size == asns.len()
    &&& if legacy {
        &&& resp.data matches LookupData::Legacy(v)
        &&& v@.len() == found.len()
        &&& forall|i: int| 0 <= i < found.len() ==> #[trigger] v@[i]@ == legacy_of(found[i])
    } else {
        &&& resp.data matches LookupData::Canonical(v)
        &&& v@ == found
    }
}

/// The outcome that a request for `asns` is owed: `InvalidRequest` when it
/// names no ASN, `PayloadTooLarge` when it names more than `max_asns`, and
/// otherwise the records found in `snap`.
pub open spec fn lookup_outcome(
    r: Result<LookupResponse, LookupError>,
    snap: SnapshotView,
    asns: Seq<u32>,
    legacy: bool,
    max_asns: usize,
) -> bool {
    if asns.len() == 0 {
        r == Err::<LookupResponse, LookupError>(LookupError::InvalidRequest)
    } else if asns.len() > max_asns {
        r == Err::<LookupResponse, LookupError>(LookupError::PayloadTooLarge)
    } else {
        r matches Ok(resp) && answers(resp, snap, asns, legacy)
    }
}

/// The records of `snapshot` that answer `asns`, in request order; repeated
/// ASNs give repeated records, and ASNs it does not hold are left out.
pub fn lookup(snapshot: &Snapshot, asns: &Vec<u32>) -> (r: Vec<AsInfoOut>)
    ensures
        r@ == found_records(snapshot@.records, asns@),
        forall|i: int| 0 <= i < r@.len() ==> asns@.contains(#[trigger] r@[i].asn),
{
    let mut found: Vec<AsInfoOut> = Vec::with_capacity(asns.len());
    let mut i: usize = 0;
    while i < asns.len()
        invariant
            i <= asns@.len(),
            found@ == found_records(snapshot@.records, asns@.subrange(0, i as int)),
            forall|k: int| 0 <= k < found@.len() ==> asns@.subrange(0, i as int).contains(
                #[trigger] found@[k].asn,
            ),
        decreases asns@.len() - i,
    {
        let ghost before = asns@.subrange(0, i as int);
        let ghost upto = asns@.subrange(0, i + 1);
        assert(upto.drop_last() =~= before);
        assert forall|k: int| 0 <= k < found@.len() implies upto.contains(#[trigger] found@[k].asn) by {
            let w = choose|w: int| 0 <= w < before.len() && before[w] == found@[k].asn;
            assert(upto[w] == found@[k].asn);
        }
        match snapshot.get(asns[i]) {
            Some(rec) => {
                assert(records_keyed_by_asn(snapshot@.records));
                assert(upto[i as int] == rec.asn);
                found.push(rec.clone());
            },
            None => {},
        }
        i = i + 1;
    }
    assert(asns@.subrange(0, asns@.len() as int) =~= asns@);
    found
}

/// Serves a lookup of the ASNs `asns` from `snapshot`: refuses a request that
/// names no ASN or more than `max_asns`, and otherwise answers with the
/// records found, in the legacy shape when `legacy` is set.
pub fn lookup_by_body(snapshot: &Snapshot, asns: &Vec<u32>, legacy: bool, max_asns: usize) -> (r:
    Result<LookupResponse, LookupError>)
    ensures
        lookup_outcome(r, snapshot@, asns@, legacy, max_asns),
{
    if asns.len() == 0 {
        return Err(LookupError::InvalidRequest);
    }
    if asns.len() > max_asns {
        return Err(LookupError::PayloadTooLarge);
    }
    let found = lookup(snapshot, asns);
    let count = found.len();
    let data = if legacy {
        LookupData::Legacy(convert_to_legacy(found))
    } else {
        LookupData::Canonical(found)
    };
    Ok(
        LookupResponse {
            data,
            count,
            updated_at: snapshot.updated_at().clone(),
            page: 0,
            page_size: asns.len(),
        },
    )
}

/// The text of an optional query parameter; a missing one reads as empty.
pub open spec fn param_text(p: Option<&str>) -> Seq<char> {
    match p {
        Some(s) => s@,
        None => Seq::empty(),
    }
}

/// Serves a lookup whose ASNs come as a comma-separated list: pieces that are
/// not a number are dropped, and the ASNs that remain are served as
/// `lookup_by_body` serves them.
pub fn lookup_by_query(snapshot: &Snapshot, asns: Option<&str>, legacy: bool, max_asns: usize) -> (r:
    Result<LookupResponse, LookupError>)
    ensures
        lookup_outcome(r, snapshot@, asns_in(param_text(asns)), legacy, max_asns),
{
    let list = match asns {
        Some(s) => parse_asn_list(s),
        None => parse_asn_list(""),
    };
    proof {
        reveal_strlit("");
    }
    lookup_by_body(snapshot, &list, legacy, max_asns)
}

} // verus!
