//! The block record: the typed projection of a block device, reconstructed
//! from the block interface of a remote object.

use crate::utils::DynamicValue;
use crate::utils::InterfaceBag;
use crate::utils::ParseFrom;
use crate::utils::assoc_get;
use crate::utils::get_bool;
use crate::utils::get_bytes;
use crate::utils::get_string;
use crate::utils::get_u64;
use crate::utils::spec_bool_prop_or_false;
use crate::utils::spec_bytes_prop;
use crate::utils::spec_string_prop_or_empty;
use crate::utils::spec_u64_prop_or_zero;
use vstd::prelude::*;

verus! {

/// The name of the interface a block record is defined over.
pub open spec fn spec_block_interface() -> Seq<char> {
    "org.freedesktop.UDisks2.Block"@
}

/// The abstract content of a block record.
pub struct BlockModel {
    pub path: Seq<char>,
    pub device: Seq<u8>,
    pub drive: Seq<char>,
    pub id_label: Seq<char>,
    pub id_type: Seq<char>,
    pub size: u64,
    pub read_only: bool,
}

/// A block device, reconstructed from one object of the graph.  The record
/// owns copies of the data it extracted and keeps its originating identity
/// in `path`.
pub struct Block {
    pub path: String,
    pub device: Vec<u8>,
    pub drive: String,
    pub id_label: String,
    pub id_type: String,
    pub size: u64,
    pub read_only: bool,
}

impl View for Block {
    type V = BlockModel;

    open spec fn view(&self) -> BlockModel {
        BlockModel {
            path: self.path@,
            device: self.device@,
            drive: self.drive@,
            id_label: self.id_label@,
            id_type: self.id_type@,
            size: self.size,
            read_only: self.read_only,
        }
    }
}

impl ParseFrom for Block {
    /// A block record exists exactly for objects that expose the block
    /// interface with a usable `Device` byte sequence: the identifying
    /// device path is mandatory, and every other field falls back to its
    /// documented default.
    open spec fn spec_parse_from(path: Seq<char>, objects: InterfaceBag) -> Option<BlockModel> {
        match assoc_get(objects@, spec_block_interface()) {
            Some(props) => match spec_bytes_prop(props@, "Device"@) {
                Some(device) => Some(
                    BlockModel {
                        path,
                        device,
                        drive: spec_string_prop_or_empty(props@, "Drive"@),
                        id_label: spec_string_prop_or_empty(props@, "IdLabel"@),
                        id_type: spec_string_prop_or_empty(props@, "IdType"@),
                        size: spec_u64_prop_or_zero(props@, "Size"@),
                        read_only: spec_bool_prop_or_false(props@, "ReadOnly"@),
                    },
                ),
                None => None,
            },
            None => None,
        }
    }

    fn parse_from(path: &str, objects: &InterfaceBag) -> (r: Option<Block>) {
        let props = match objects.get("org.freedesktop.UDisks2.Block") {
            Some(p) => p,
            None => { return None },
        };
        let device = match get_bytes(props, "Device") {
            Some(b) => b,
            None => { return None },
        };
        let drive = match get_string(props, "Drive") {
            Some(s) => s,
            None => String::new(),
        };
        let id_label = match get_string(props, "IdLabel") {
            Some(s) => s,
            None => String::new(),
        };
        let id_type = match get_string(props, "IdType") {
            Some(s) => s,
            None => String::new(),
        };
        let size = match get_u64(props, "Size") {
            Some(v) => v,
            None => 0,
        };
        let read_only = match get_bool(props, "ReadOnly") {
            Some(b) => b,
            None => false,
        };
        Some(Block { path: path.to_owned(), device, drive, id_label, id_type, size, read_only })
    }
}

/// Interface gate: an object that does not expose the block interface is
/// not a block device — a normal negative result, not an error.
pub proof fn lemma_block_interface_gate(path: Seq<char>, objects: InterfaceBag)
    requires
        assoc_get(objects@, spec_block_interface()) is None,
    ensures
        Block::spec_parse_from(path, objects) is None,
{
}

/// Mandatory-field failure: an object that exposes the block interface but
/// yields no usable `Device` byte sequence produces no block record at all.
pub proof fn lemma_block_mandatory_field(path: Seq<char>, objects: InterfaceBag)
    requires
        assoc_get(objects@, spec_block_interface()) matches Some(props) && spec_bytes_prop(
            props@,
            "Device"@,
        ) is None,
    ensures
        Block::spec_parse_from(path, objects) is None,
{
}

} // verus!
