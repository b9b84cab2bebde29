use udisks2::DynamicValue;
use udisks2::PropertyBag;
use udisks2::StrMap;
use udisks2::utils::get_bool;
use udisks2::utils::get_byte;
use udisks2::utils::get_bytes;
use udisks2::utils::get_i16;
use udisks2::utils::get_i32;
use udisks2::utils::get_i64;
use udisks2::utils::get_string;
use udisks2::utils::get_string_list;
use udisks2::utils::get_u16;
use udisks2::utils::get_u32;
use udisks2::utils::get_u64;

fn s(x: &str) -> String {
    x.to_string()
}

fn scalar_bag() -> PropertyBag {
    let mut props: PropertyBag = StrMap::new();
    props.insert(s("Name"), DynamicValue::Str(s("sda")));
    props.insert(s("Flag"), DynamicValue::Bool(true));
    props.insert(s("Small"), DynamicValue::Byte(7));
    props.insert(s("U16"), DynamicValue::UInt16(16));
    props.insert(s("U32"), DynamicValue::UInt32(32));
    props.insert(s("U64"), DynamicValue::UInt64(64));
    props.insert(s("I16"), DynamicValue::Int16(-16));
    props.insert(s("I32"), DynamicValue::Int32(-32));
    props.insert(s("I64"), DynamicValue::Int64(-64));
    props.insert(s("Raw"), DynamicValue::Bytes(vec![1, 2, 3]));
    props.insert(
        s("Names"),
        DynamicValue::Array(vec![DynamicValue::Str(s("one")), DynamicValue::Str(s("two"))]),
    );
    props
}

#[test]
fn scalar_extraction() {
    let props = scalar_bag();
    assert_eq!(get_string(&props, "Name"), Some(s("sda")));
    assert_eq!(get_bool(&props, "Flag"), Some(true));
    assert_eq!(get_byte(&props, "Small"), Some(7));
    assert_eq!(get_u16(&props, "U16"), Some(16));
    assert_eq!(get_u32(&props, "U32"), Some(32));
    assert_eq!(get_u64(&props, "U64"), Some(64));
    assert_eq!(get_i16(&props, "I16"), Some(-16));
    assert_eq!(get_i32(&props, "I32"), Some(-32));
    assert_eq!(get_i64(&props, "I64"), Some(-64));
    assert_eq!(get_bytes(&props, "Raw"), Some(vec![1, 2, 3]));
}

#[test]
fn structured_extraction() {
    let props = scalar_bag();
    assert_eq!(get_string_list(&props, "Names"), Some(vec![s("one"), s("two")]));
}

#[test]
fn mismatch_is_absence() {
    let props = scalar_bag();
    // A value of another type is absence, never an error and never a
    // substituted default.
    assert_eq!(get_string(&props, "Flag"), None);
    assert_eq!(get_bool(&props, "Name"), None);
    assert_eq!(get_u64(&props, "U32"), None);
    assert_eq!(get_u32(&props, "U64"), None);
    assert_eq!(get_i64(&props, "U64"), None);
    assert_eq!(get_bytes(&props, "Names"), None);
    assert_eq!(get_string_list(&props, "Raw"), None);
    // A missing property is the same absence.
    assert_eq!(get_string(&props, "Nothing"), None);
}

#[test]
fn empty_list_extracts() {
    let mut props: PropertyBag = StrMap::new();
    props.insert(s("Names"), DynamicValue::Array(Vec::new()));
    assert_eq!(get_string_list(&props, "Names"), Some(Vec::new()));
}
