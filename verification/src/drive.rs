//! The drive record: the typed projection of a physical or logical storage
//! drive, reconstructed from the drive interface of a remote object.

use crate::utils::DynamicValue;
use crate::utils::InterfaceBag;
use crate::utils::ParseFrom;
use crate::utils::assoc_get;
use crate::utils::get_bool;
use crate::utils::get_string;
use crate::utils::get_u64;
use crate::utils::spec_bool_prop_or_false;
use crate::utils::spec_string_prop;
use crate::utils::spec_string_prop_or_empty;
use crate::utils::spec_u64_prop_or_zero;
use vstd::prelude::*;

verus! {

/// The name of the interface a drive record is defined over.
pub open spec fn spec_drive_interface() -> Seq<char> {
    "org.freedesktop.UDisks2.Drive"@
}

/// The abstract content of a drive record.
pub struct DriveModel {
    pub path: Seq<char>,
    pub id: Seq<char>,
    pub model: Seq<char>,
    pub serial: Seq<char>,
    pub vendor: Seq<char>,
    pub size: u64,
    pub removable: bool,
}

/// A storage drive, reconstructed from one object of the graph.  The record
/// owns copies of the data it extracted and keeps its originating identity
/// in `path`.
pub struct Drive {
    pub path: String,
    pub id: String,
    pub model: String,
    pub serial: String,
    pub vendor: String,
    pub size: u64,
    pub removable: bool,
}

impl View for Drive {
    type V = DriveModel;

    open spec fn view(&self) -> DriveModel {
        DriveModel {
            path: self.path@,
            id: self.id@,
            model: self.model@,
            serial: self.serial@,
            vendor: self.vendor@,
            size: self.size,
            removable: self.removable,
        }
    }
}

impl ParseFrom for Drive {
    /// A drive record exists exactly for objects that expose the drive
    /// interface with a usable `Id`: the identifying field is mandatory,
    /// and every other field falls back to its documented default.
    open spec fn spec_parse_from(path: Seq<char>, objects: InterfaceBag) -> Option<DriveModel> {
        match assoc_get(objects@, spec_drive_interface()) {
            Some(props) => match spec_string_prop(props@, "Id"@) {
                Some(id) => Some(
                    DriveModel {
                        path,
                        id,
                        model: spec_string_prop_or_empty(props@, "Model"@),
                        serial: spec_string_prop_or_empty(props@, "Serial"@),
                        vendor: spec_string_prop_or_empty(props@, "Vendor"@),
                        size: spec_u64_prop_or_zero(props@, "Size"@),
                        removable: spec_bool_prop_or_false(props@, "Removable"@),
                    },
                ),
                None => None,
            },
            None => None,
        }
    }

    fn parse_from(path: &str, objects: &InterfaceBag) -> (r: Option<Drive>) {
        let props = match objects.get("org.freedesktop.UDisks2.Drive") {
            Some(p) => p,
            None => { return None },
        };
        let id = match get_string(props, "Id") {
            Some(s) => s,
            None => { return None },
        };
        let model = match get_string(props, "Model") {
            Some(s) => s,
            None => String::new(),
        };
        let serial = match get_string(props, "Serial") {
            Some(s) => s,
            None => String::new(),
        };
        let vendor = match get_string(props, "Vendor") {
            Some(s) => s,
            None => String::new(),
        };
        let size = match get_u64(props, "Size") {
            Some(v) => v,
            None => 0,
        };
        let removable = match get_bool(props, "Removable") {
            Some(b) => b,
            None => false,
        };
        Some(Drive { path: path.to_owned(), id, model, serial, vendor, size, removable })
    }
}

/// Interface gate: an object that does not expose the drive interface is
/// not a drive — a normal negative result, not an error.
pub proof fn lemma_drive_interface_gate(path: Seq<char>, objects: InterfaceBag)
    requires
        assoc_get(objects@, spec_drive_interface()) is None,
    ensures
        Drive::spec_parse_from(path, objects) is None,
{
}

/// Mandatory-field failure: an object that exposes the drive interface but
/// yields no usable `Id` produces no drive record at all, rather than one
/// with a substituted identity.
pub proof fn lemma_drive_mandatory_field(path: Seq<char>, objects: InterfaceBag)
    requires
        assoc_get(objects@, spec_drive_interface()) matches Some(props) && spec_string_prop(
            props@,
            "Id"@,
        ) is None,
    ensures
        Drive::spec_parse_from(path, objects) is None,
{
}

/// Optional-field defaults: a drive record parsed from a bag that lacks the
/// optional properties carries their documented defaults — empty strings,
/// zero, and `false` — not a failure.
pub proof fn lemma_drive_optional_field_defaults(path: Seq<char>, objects: InterfaceBag)
    requires
        Drive::spec_parse_from(path, objects) is Some,
        assoc_get(objects@, spec_drive_interface()) matches Some(props) && assoc_get(
            props@,
            "Model"@,
        ) is None && assoc_get(props@, "Size"@) is None && assoc_get(props@, "Removable"@) is None,
    ensures
        Drive::spec_parse_from(path, objects)->Some_0.model == Seq::<char>::empty(),
        Drive::spec_parse_from(path, objects)->Some_0.size == 0,
        !Drive::spec_parse_from(path, objects)->Some_0.removable,
{
}

} // verus!
