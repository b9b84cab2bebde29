//! The disk-topology record: the typed projection of a partitioned disk,
//! reconstructed from the partition-table interface of a remote object.

use crate::utils::DynamicValue;
use crate::utils::InterfaceBag;
use crate::utils::ParseFrom;
use crate::utils::assoc_get;
use crate::utils::get_string;
use crate::utils::get_string_list;
use crate::utils::spec_string_list_prop_or_empty;
use crate::utils::spec_string_prop;
use vstd::prelude::*;

verus! {

/// The name of the interface a disk-topology record is defined over.
pub open spec fn spec_partition_table_interface() -> Seq<char> {
    "org.freedesktop.UDisks2.PartitionTable"@
}

/// The abstract content of a disk-topology record.
pub struct DisksModel {
    pub path: Seq<char>,
    pub table_type: Seq<char>,
    pub partitions: Seq<Seq<char>>,
}

/// The partition-table topology of a disk, reconstructed from one object of
/// the graph.  The record owns copies of the data it extracted and keeps its
/// originating identity in `path`.
pub struct Disks {
    pub path: String,
    pub table_type: String,
    pub partitions: Vec<String>,
}

impl View for Disks {
    type V = DisksModel;

    open spec fn view(&self) -> DisksModel {
        DisksModel {
            path: self.path@,
            table_type: self.table_type@,
            partitions: self.partitions@.map_values(|s: String| s@),
        }
    }
}

impl ParseFrom for Disks {
    /// A disk-topology record exists exactly for objects that expose the
    /// partition-table interface with a usable table `Type`: the table type
    /// is mandatory, and the partition list falls back to its documented
    /// default, the empty list.
    open spec fn spec_parse_from(path: Seq<char>, objects: InterfaceBag) -> Option<DisksModel> {
        match assoc_get(objects@, spec_partition_table_interface()) {
            Some(props) => match spec_string_prop(props@, "Type"@) {
                Some(table_type) => Some(
                    DisksModel {
                        path,
                        table_type,
                        partitions: spec_string_list_prop_or_empty(props@, "Partitions"@),
                    },
                ),
                None => None,
            },
            None => None,
        }
    }

    fn parse_from(path: &str, objects: &InterfaceBag) -> (r: Option<Disks>) {
        let props = match objects.get("org.freedesktop.UDisks2.PartitionTable") {
            Some(p) => p,
            None => { return None },
        };
        let table_type = match get_string(props, "Type") {
            Some(s) => s,
            None => { return None },
        };
        let partitions = match get_string_list(props, "Partitions") {
            Some(v) => v,
            None => {
                let empty: Vec<String> = Vec::new();
                proof {
                    assert(empty@.map_values(|s: String| s@) =~= Seq::<Seq<char>>::empty());
                }
                empty
            },
        };
        Some(Disks { path: path.to_owned(), table_type, partitions })
    }
}

/// Interface gate: an object that does not expose the partition-table
/// interface has no disk topology — a normal negative result, not an error.
pub proof fn lemma_disks_interface_gate(path: Seq<char>, objects: InterfaceBag)
    requires
        assoc_get(objects@, spec_partition_table_interface()) is None,
    ensures
        Disks::spec_parse_from(path, objects) is None,
{
}

/// Mandatory-field failure: an object that exposes the partition-table
/// interface but yields no usable table `Type` produces no record at all,
/// while a missing partition list only falls back to its documented
/// default, the empty list.
pub proof fn lemma_disks_mandatory_field(path: Seq<char>, objects: InterfaceBag)
    requires
        assoc_get(objects@, spec_partition_table_interface()) matches Some(props)
            && spec_string_prop(props@, "Type"@) is None,
    ensures
        Disks::spec_parse_from(path, objects) is None,
{
}

/// Optional-field default: a disk-topology record parsed from a bag that
/// lacks the partition list carries the empty list.
pub proof fn lemma_disks_optional_field_default(path: Seq<char>, objects: InterfaceBag)
    requires
        Disks::spec_parse_from(path, objects) is Some,
        assoc_get(objects@, spec_partition_table_interface()) matches Some(props) && assoc_get(
            props@,
            "Partitions"@,
        ) is None,
    ensures
        Disks::spec_parse_from(path, objects)->Some_0.partitions == Seq::<Seq<char>>::empty(),
{
}

} // verus!
