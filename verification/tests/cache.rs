use udisks2::DynamicValue;
use udisks2::InterfaceBag;
use udisks2::ManagedObjectGraph;
use udisks2::PropertyBag;
use udisks2::SourceError;
use udisks2::StrMap;
use udisks2::UDisks2;

const DRIVE_IFACE: &str = "org.freedesktop.UDisks2.Drive";
const BLOCK_IFACE: &str = "org.freedesktop.UDisks2.Block";
const TABLE_IFACE: &str = "org.freedesktop.UDisks2.PartitionTable";

fn s(x: &str) -> String {
    x.to_string()
}

fn drive_object(id: &str) -> InterfaceBag {
    let mut props: PropertyBag = StrMap::new();
    props.insert(s("Id"), DynamicValue::Str(s(id)));
    let mut bag: InterfaceBag = StrMap::new();
    bag.insert(s(DRIVE_IFACE), props);
    bag
}

fn graph_of(objects: Vec<(&str, InterfaceBag)>) -> ManagedObjectGraph {
    let mut graph: ManagedObjectGraph = StrMap::new();
    for (path, bag) in objects {
        graph.insert(s(path), bag);
    }
    graph
}

fn cache_of(objects: Vec<(&str, InterfaceBag)>) -> UDisks2 {
    match UDisks2::new(Ok(graph_of(objects))) {
        Ok(cache) => cache,
        Err(_) => panic!("construction from a fetched graph succeeds"),
    }
}

#[test]
fn gate_correctness() {
    let cache = cache_of(vec![("/obj/drives/a", drive_object("drive0"))]);
    let drive = cache.get_drive("/obj/drives/a").expect("the drive interface gate matches");
    assert_eq!(drive.id, "drive0");
    assert_eq!(drive.path, "/obj/drives/a");
    assert!(cache.get_block("/obj/drives/a").is_none());
}

#[test]
fn identity_ambiguity() {
    let cache = cache_of(vec![("/obj/drives/a", drive_object("drive0"))]);
    // A nonexistent identity and an existing identity of the wrong kind are
    // indistinguishable: both yield nothing.
    assert!(cache.get_block("/obj/nothing").is_none());
    assert!(cache.get_block("/obj/drives/a").is_none());
}

#[test]
fn mandatory_field_failure() {
    // The drive interface is present but the mandatory Id is missing.
    let mut props: PropertyBag = StrMap::new();
    props.insert(s("Model"), DynamicValue::Str(s("Frobnicator 9000")));
    let mut bag: InterfaceBag = StrMap::new();
    bag.insert(s(DRIVE_IFACE), props);
    let cache = cache_of(vec![("/obj/drives/a", bag)]);
    assert!(cache.get_drive("/obj/drives/a").is_none());
    assert!(cache.get_drives().is_empty());
}

#[test]
fn mandatory_field_wrong_type_fails() {
    // A mandatory field of the wrong dynamic type is as unusable as a
    // missing one: no silent substitution.
    let mut props: PropertyBag = StrMap::new();
    props.insert(s("Id"), DynamicValue::Bool(true));
    let mut bag: InterfaceBag = StrMap::new();
    bag.insert(s(DRIVE_IFACE), props);
    let cache = cache_of(vec![("/obj/drives/a", bag)]);
    assert!(cache.get_drive("/obj/drives/a").is_none());
}

#[test]
fn optional_field_defaults() {
    let cache = cache_of(vec![("/obj/drives/a", drive_object("drive0"))]);
    let drive = cache.get_drive("/obj/drives/a").unwrap();
    assert_eq!(drive.model, "");
    assert_eq!(drive.serial, "");
    assert_eq!(drive.vendor, "");
    assert_eq!(drive.size, 0);
    assert!(!drive.removable);
}

#[test]
fn optional_field_values_extracted() {
    let mut props: PropertyBag = StrMap::new();
    props.insert(s("Id"), DynamicValue::Str(s("drive0")));
    props.insert(s("Model"), DynamicValue::Str(s("Frobnicator 9000")));
    props.insert(s("Serial"), DynamicValue::Str(s("SN-1234")));
    props.insert(s("Vendor"), DynamicValue::Str(s("ACME")));
    props.insert(s("Size"), DynamicValue::UInt64(5000));
    props.insert(s("Removable"), DynamicValue::Bool(true));
    let mut bag: InterfaceBag = StrMap::new();
    bag.insert(s(DRIVE_IFACE), props);
    let cache = cache_of(vec![("/obj/drives/a", bag)]);
    let drive = cache.get_drive("/obj/drives/a").unwrap();
    assert_eq!(drive.model, "Frobnicator 9000");
    assert_eq!(drive.serial, "SN-1234");
    assert_eq!(drive.vendor, "ACME");
    assert_eq!(drive.size, 5000);
    assert!(drive.removable);
}

#[test]
fn no_numeric_widening() {
    // A size stored at another width than the accessor requests is absence,
    // so the optional field falls back to its default.
    let mut props: PropertyBag = StrMap::new();
    props.insert(s("Id"), DynamicValue::Str(s("drive0")));
    props.insert(s("Size"), DynamicValue::UInt32(5000));
    let mut bag: InterfaceBag = StrMap::new();
    bag.insert(s(DRIVE_IFACE), props);
    let cache = cache_of(vec![("/obj/drives/a", bag)]);
    assert_eq!(cache.get_drive("/obj/drives/a").unwrap().size, 0);
}

fn block_table_object() -> InterfaceBag {
    let mut block_props: PropertyBag = StrMap::new();
    block_props.insert(s("Device"), DynamicValue::Bytes(b"/dev/sda".to_vec()));
    block_props.insert(s("IdLabel"), DynamicValue::Str(s("root")));
    block_props.insert(s("IdType"), DynamicValue::Str(s("ext4")));
    block_props.insert(s("Size"), DynamicValue::UInt64(1024));
    block_props.insert(s("ReadOnly"), DynamicValue::Bool(false));
    let mut table_props: PropertyBag = StrMap::new();
    table_props.insert(s("Type"), DynamicValue::Str(s("gpt")));
    table_props.insert(
        s("Partitions"),
        DynamicValue::Array(vec![
            DynamicValue::Str(s("/obj/blocks/sda1")),
            DynamicValue::Str(s("/obj/blocks/sda2")),
        ]),
    );
    let mut bag: InterfaceBag = StrMap::new();
    bag.insert(s(BLOCK_IFACE), block_props);
    bag.insert(s(TABLE_IFACE), table_props);
    bag
}

#[test]
fn dual_interface_object() {
    let cache = cache_of(vec![("/obj/blocks/sda", block_table_object())]);
    let blocks = cache.get_blocks();
    let disks = cache.get_disks();
    assert_eq!(blocks.len(), 1);
    assert_eq!(disks.len(), 1);
    assert_eq!(blocks[0].path, "/obj/blocks/sda");
    assert_eq!(disks[0].path, "/obj/blocks/sda");
    assert_eq!(blocks[0].device, b"/dev/sda".to_vec());
    assert_eq!(disks[0].table_type, "gpt");
    assert_eq!(disks[0].partitions, vec![s("/obj/blocks/sda1"), s("/obj/blocks/sda2")]);
}

#[test]
fn block_fields_extracted() {
    let cache = cache_of(vec![("/obj/blocks/sda", block_table_object())]);
    let block = cache.get_block("/obj/blocks/sda").unwrap();
    assert_eq!(block.device, b"/dev/sda".to_vec());
    assert_eq!(block.drive, "");
    assert_eq!(block.id_label, "root");
    assert_eq!(block.id_type, "ext4");
    assert_eq!(block.size, 1024);
    assert!(!block.read_only);
    let disk = cache.get_disk("/obj/blocks/sda").unwrap();
    assert_eq!(disk.table_type, "gpt");
}

#[test]
fn mixed_partition_list_is_absent() {
    // One non-string element spoils the whole multi-value property, which
    // then falls back to the documented default, the empty list.
    let mut table_props: PropertyBag = StrMap::new();
    table_props.insert(s("Type"), DynamicValue::Str(s("gpt")));
    table_props.insert(
        s("Partitions"),
        DynamicValue::Array(vec![DynamicValue::Str(s("/obj/blocks/sda1")), DynamicValue::UInt64(7)]),
    );
    let mut bag: InterfaceBag = StrMap::new();
    bag.insert(s(TABLE_IFACE), table_props);
    let cache = cache_of(vec![("/obj/blocks/sda", bag)]);
    let disk = cache.get_disk("/obj/blocks/sda").unwrap();
    assert_eq!(disk.partitions, Vec::<String>::new());
}

#[test]
fn missing_table_type_fails() {
    let mut table_props: PropertyBag = StrMap::new();
    table_props.insert(
        s("Partitions"),
        DynamicValue::Array(vec![DynamicValue::Str(s("/obj/blocks/sda1"))]),
    );
    let mut bag: InterfaceBag = StrMap::new();
    bag.insert(s(TABLE_IFACE), table_props);
    let cache = cache_of(vec![("/obj/blocks/sda", bag)]);
    assert!(cache.get_disk("/obj/blocks/sda").is_none());
    assert!(cache.get_disks().is_empty());
}

#[test]
fn replace_not_merge() {
    let mut cache = cache_of(vec![
        ("/obj/drives/a", drive_object("drive0")),
        ("/obj/drives/b", drive_object("drive1")),
    ]);
    assert_eq!(cache.get_drives().len(), 2);
    let refreshed = graph_of(vec![("/obj/drives/c", drive_object("drive2"))]);
    assert!(cache.update(Ok(refreshed)).is_ok());
    let drives = cache.get_drives();
    assert_eq!(drives.len(), 1);
    assert_eq!(drives[0].id, "drive2");
    assert!(cache.get_drive("/obj/drives/a").is_none());
    assert!(cache.get_drive("/obj/drives/b").is_none());
}

#[test]
fn idempotent_read() {
    let cache = cache_of(vec![
        ("/obj/drives/a", drive_object("drive0")),
        ("/obj/drives/b", drive_object("drive1")),
    ]);
    let first = cache.get_drives();
    let second = cache.get_drives();
    assert_eq!(first.len(), second.len());
    for (x, y) in first.iter().zip(second.iter()) {
        assert_eq!(x.path, y.path);
        assert_eq!(x.id, y.id);
    }
}

#[test]
fn failure_isolation() {
    let mut cache = cache_of(vec![("/obj/drives/a", drive_object("drive0"))]);
    let timeout = SourceError {
        name: s("org.freedesktop.DBus.Error.Timeout"),
        message: s("the remote side did not answer within the bounded wait"),
    };
    let err = match cache.update(Err(timeout)) {
        Err(e) => e,
        Ok(_) => panic!("a failed fetch surfaces its error"),
    };
    assert_eq!(err.name, "org.freedesktop.DBus.Error.Timeout");
    // The previous snapshot is fully intact and queryable.
    let drives = cache.get_drives();
    assert_eq!(drives.len(), 1);
    assert_eq!(drives[0].id, "drive0");
}

#[test]
fn construction_failure_surfaces() {
    let refused = SourceError {
        name: s("org.freedesktop.DBus.Error.NoServer"),
        message: s("connection refused"),
    };
    let err = match UDisks2::new(Err(refused)) {
        Err(e) => e,
        Ok(_) => panic!("a failed initial fetch fails construction"),
    };
    assert_eq!(err.name, "org.freedesktop.DBus.Error.NoServer");
    assert_eq!(err.message, "connection refused");
}

#[test]
fn empty_graph_yields_nothing() {
    let cache = cache_of(vec![]);
    assert!(cache.get_drives().is_empty());
    assert!(cache.get_blocks().is_empty());
    assert!(cache.get_disks().is_empty());
    assert!(cache.get_drive("/obj/drives/a").is_none());
}

#[test]
fn insert_replaces_equal_key() {
    // The graph is a mapping: a second bag under the same identity replaces
    // the first, it does not add a second object.
    let cache = cache_of(vec![
        ("/obj/drives/a", drive_object("drive0")),
        ("/obj/drives/a", drive_object("drive9")),
    ]);
    let drives = cache.get_drives();
    assert_eq!(drives.len(), 1);
    assert_eq!(drives[0].id, "drive9");
}
