use crate::record::AsInfoOut;
use std::collections::HashMap;
use std::sync::Arc;
use vstd::prelude::*;

verus! {

broadcast use vstd::std_specs::hash::group_hash_axioms;

/// What a snapshot holds: records by ASN and the time they were loaded,
/// in the text form it is shown in.
pub ghost struct SnapshotView {
    pub records: Map<u32, AsInfoOut>,
    pub updated_at: Seq<char>,
}

/// Each record is filed under its own ASN.
pub open spec fn records_keyed_by_asn(records: Map<u32, AsInfoOut>) -> bool {
    forall|k: u32| #[trigger] records.contains_key(k) ==> records[k].asn == k
}

/// The map that filing `rs` one after another by ASN gives: a later record
/// replaces an earlier one with the same ASN.
pub open spec fn records_by_asn(rs: Seq<AsInfoOut>) -> Map<u32, AsInfoOut>
    decreases rs.len(),
{
    if rs.len() == 0 {
        Map::empty()
    } else {
        records_by_asn(rs.drop_last()).insert(rs.last().asn, rs.last())
    }
}

pub proof fn lemma_records_by_asn_keyed(rs: Seq<AsInfoOut>)
    ensures
        records_keyed_by_asn(records_by_asn(rs)),
    decreases rs.len(),
{
    if rs.len() > 0 {
        lemma_records_by_asn_keyed(rs.drop_last());
    }
}

/// One generation of the cache: the records and their timestamp, which are
/// only ever installed and read together.
pub struct Snapshot {
    records: HashMap<u32, AsInfoOut>,
    updated_at: String,
}

impl View for Snapshot {
    type V = SnapshotView;

    closed spec fn view(&self) -> SnapshotView {
        SnapshotView { records: self.records@, updated_at: self.updated_at@ }
    }
}

impl Snapshot {
    #[verifier::type_invariant]
    spec fn keyed(&self) -> bool {
        records_keyed_by_asn(self.records@)
    }

    /// Files each record under its ASN; a later record replaces an earlier
    /// one with the same ASN.
    pub fn from_records(records: Vec<AsInfoOut>, updated_at: String) -> (s: Snapshot)
        ensures
            s@.records == records_by_asn(records@),
            s@.updated_at == updated_at@,
    {
        let ghost all = records@;
        let mut map: HashMap<u32, AsInfoOut> = HashMap::with_capacity(records.len());
        let mut n: usize = 0;
        for r in it: records
            invariant
                map@ == records_by_asn(it.seq().subrange(0, it.index())),
                it.seq() == all,
        {
            proof {
                let done = it.seq().subrange(0, it.index() + 1);
                assert(done.drop_last() =~= it.seq().subrange(0, it.index()));
            }
            map.insert(r.asn, r);
        }
        proof {
            assert(all.subrange(0, all.len() as int) =~= all);
            lemma_records_by_asn_keyed(all);
        }
        Snapshot { records: map, updated_at }
    }

    /// The record filed under `asn`, if there is one; it has that ASN.
    pub fn get(&self, asn: u32) -> (r: Option<&AsInfoOut>)
        ensures
            records_keyed_by_asn(self@.records),
            match r {
                Some(rec) => self@.records.contains_key(asn) && *rec == self@.records[asn],
                None => !self@.records.contains_key(asn),
            },
    {
        proof {
            use_type_invariant(self);
        }
        self.records.get(&asn)
    }

    /// The time this snapshot was loaded.
    pub fn updated_at(&self) -> (r: &String)
        ensures
            r@ == self@.updated_at,
    {
        &self.updated_at
    }
}

} // verus!
