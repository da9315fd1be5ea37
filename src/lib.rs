//! An in-memory ASN information cache: snapshots of ASN records that are
//! replaced wholesale by a periodic refresh, and the validated bulk lookups
//! that are served from them.
//!
//! - `export`: the order, format and CSV lines of a dump of all records.
//! - `record`: the ASN record and its flat legacy shape.
//! - `snapshot`: one generation of records together with its timestamp.
//! - `store`: the cell that holds the current snapshot, and what any order
//!   of reads and replacements may observe.
//! - `query`: reading a comma-separated list of ASNs.
//! - `lookup`: validating and answering bulk lookups.
//! - `health`: the liveness report.
//! - `refresh`: the decisions of the periodic refresh task.

pub mod export;
pub mod health;
pub mod lookup;
pub mod query;
pub mod record;
pub mod refresh;
pub mod snapshot;
pub mod store;

pub use export::{csv_header, csv_row, export_simplified, in_export_order, ExportFormat};
pub use health::{health, HealthReport};
pub use lookup::{
    lookup, lookup_by_body, lookup_by_query, LookupData, LookupError, LookupResponse,
};
pub use query::parse_asn_list;
pub use record::{convert_to_legacy, AsInfoOut, AsInfoSimplified, OrgRef};
pub use refresh::{
    refresh_interval_secs, RefreshAction, RefreshEvent, RefreshPhase, RefreshStep, RefreshTask,
    MINIMUM_UPDATER_INTERVAL_SECS,
};
pub use snapshot::Snapshot;
pub use store::SnapshotStore;
