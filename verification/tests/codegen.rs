use fefix::codegen;
use fefix::dictionary::{DataType, Dictionary, EnumVariant, Field, LayoutItem, LayoutItemKind, Message};
use fefix::types;

fn plain_field(name: &str, tag: u16, data_type: DataType) -> Field {
    Field { name: name.to_string(), tag, data_type, enums: None }
}

fn enum_field(name: &str, tag: u16, data_type: DataType, variants: &[(&str, &str)]) -> Field {
    let enums = variants
        .iter()
        .map(|(value, description)| EnumVariant {
            value: value.to_string(),
            description: description.to_string(),
        })
        .collect();
    Field { name: name.to_string(), tag, data_type, enums: Some(enums) }
}

fn field_item(field: Field, required: bool) -> LayoutItem {
    LayoutItem { required, kind: LayoutItemKind::Field(field) }
}

fn sample_dictionary(version: &str) -> Dictionary {
    let fields = vec![
        plain_field("BeginString", 8, DataType::String),
        plain_field("BodyLength", 9, DataType::Length),
        plain_field("CheckSum", 10, DataType::String),
        plain_field("MsgSeqNum", 34, DataType::SeqNum),
        plain_field("OrderQty", 38, DataType::Qty),
        plain_field("Price", 44, DataType::Price),
        plain_field("RawData", 96, DataType::Data),
        plain_field("RawDataLen", 95, DataType::Length),
        plain_field("Currency", 15, DataType::Currency),
        plain_field("TransactTime", 60, DataType::UtcTimestamp),
        enum_field("Side", 54, DataType::Char, &[("1", "Buy"), ("2", "Sell")]),
        enum_field(
            "TimeInForce",
            59,
            DataType::Char,
            &[("0", "Day"), ("1", "good till cancel"), ("2", "2")],
        ),
    ];
    let messages = vec![Message {
        name: "NewOrderSingle".to_string(),
        msg_type: "D".to_string(),
        layout: vec![
            field_item(plain_field("ClOrdID", 11, DataType::String), true),
            field_item(plain_field("OrderQty", 38, DataType::Qty), true),
            field_item(plain_field("Price", 44, DataType::Price), false),
        ],
    }];
    Dictionary { version: version.to_string(), fields, messages }
}

#[test]
fn fix_v42_syntax() {
    let fix_v42 = sample_dictionary("FIX.4.2");
    let code = codegen::fields(fix_v42, "fefix");
    assert!(syn::parse_file(code.as_str()).is_ok());
}

#[test]
fn syntax_of_field_tags_is_ok() {
    for version in ["FIX.4.0", "FIX.4.1", "FIX.4.2", "FIX.4.3", "FIX.4.4", "FIX.5.0"] {
        let dict = sample_dictionary(version);
        let code = codegen::fields(dict, "crate");
        syn::parse_file(code.as_str()).unwrap();
    }
}

#[test]
fn checksum_tag_always_resolves_to_checksum_type() {
    for dt in [DataType::String, DataType::Float, DataType::Int, DataType::Data] {
        let owned = types::suggested_type(10, dt, None, "fefix");
        assert_eq!(owned, "fefix::dtf::CheckSum");
        let borrowed = types::suggested_type_with_lifetime(10, dt);
        assert_eq!(borrowed, "crate::dtf::CheckSum");
    }
}

#[test]
fn float_categories_resolve_to_decimal_in_both_modes() {
    for dt in [
        DataType::Float,
        DataType::Price,
        DataType::PriceOffset,
        DataType::Amt,
        DataType::Percentage,
    ] {
        let owned = types::suggested_type(44, dt, None, "fefix");
        assert_eq!(owned, "rust_decimal::Decimal");
        let borrowed = types::suggested_type_with_lifetime(44, dt);
        assert_eq!(borrowed, "rust_decimal::Decimal");
    }
}

#[test]
fn enum_field_emits_exactly_one_enum_in_source_order() {
    let f = enum_field("Side", 54, DataType::Char, &[("1", "Buy"), ("2", "Sell")]);
    let out = codegen::field_def(&f, "fefix");
    assert_eq!(out.matches("pub enum ").count(), 1);
    assert!(out.contains("pub enum Side {"));
    assert!(out.contains("    /// Field variant '1'.\n    #[fefix(variant = \"1\")]\n    Buy,"));
    assert!(out.contains("    /// Field variant '2'.\n    #[fefix(variant = \"2\")]\n    Sell,"));
    let buy = out.find("    Buy,").unwrap();
    let sell = out.find("    Sell,").unwrap();
    assert!(buy < sell);
}

#[test]
fn plain_field_emits_no_enum() {
    let f = plain_field("OrderQty", 38, DataType::Qty);
    let out = codegen::field_def(&f, "fefix");
    assert_eq!(out.matches("pub enum ").count(), 0);
}

#[test]
fn digit_leading_description_gets_guard_prefix() {
    let f = enum_field(
        "TimeInForce",
        59,
        DataType::Char,
        &[("1", "good till cancel"), ("2", "2")],
    );
    let out = codegen::field_def(&f, "fefix");
    assert!(out.contains("    GoodTillCancel,"));
    assert!(out.contains("    N2,"));
    assert!(!out.contains("\n    2,"));
}

#[test]
fn emission_never_fails_on_empty_description() {
    let f = enum_field("Garbled", 999, DataType::Char, &[("9", ""), ("8", "Eight")]);
    let out = codegen::field_def(&f, "fefix");
    assert!(out.contains("#[fefix(variant = \"9\")]\n    ,"));
    assert!(out.contains("#[fefix(variant = \"8\")]\n    Eight,"));
}

#[test]
fn guard_keys_on_the_converted_identifier() {
    let f = enum_field("Odd", 998, DataType::Char, &[("1", " 2x")]);
    let out = codegen::field_def(&f, "fefix");
    assert!(out.contains("#[fefix(variant = \"1\")]\n    N2x,"));
}

#[test]
fn order_qty_constant_and_member() {
    let f = plain_field("OrderQty", 38, DataType::Qty);
    let out = codegen::field_def(&f, "fefix");
    assert!(out.contains("pub const ORDER_QTY: &FieldDef<'static, i64> = &FieldDef{"));
    assert!(out.contains("tag: unsafe { TagU16::new_unchecked(38) },"));
    assert!(out.contains("data_type: DataType::Int,"));
    let dict = sample_dictionary("FIX.4.2");
    let msg = Message {
        name: "NewOrderSingle".to_string(),
        msg_type: "D".to_string(),
        layout: vec![field_item(plain_field("OrderQty", 38, DataType::Qty), true)],
    };
    let out = codegen::message(dict, msg, "");
    assert!(out.contains("pub order_qty: i64,"));
    assert!(!out.contains("Option<i64>"));
}

#[test]
fn optional_member_is_wrapped_required_is_not() {
    let dict = sample_dictionary("FIX.4.2");
    let item = field_item(plain_field("ClOrdID", 11, DataType::String), false);
    let member = dict.translate_layout_item_to_struct_field(&item, false).unwrap();
    assert!(member.contains("pub cl_ord_id: ::std::option::Option<&'a [u8]>,"));
    let member = dict.translate_layout_item_to_struct_field(&item, true).unwrap();
    assert!(member.contains("pub cl_ord_id: &'a [u8],"));
}

#[test]
fn group_and_component_items_emit_no_member() {
    let dict = sample_dictionary("FIX.4.2");
    let group = LayoutItem {
        required: true,
        kind: LayoutItemKind::Group(plain_field("NoMiscFees", 136, DataType::NumInGroup), vec![]),
    };
    assert!(dict.translate_layout_item_to_struct_field(&group, true).is_none());
    let component = LayoutItem {
        required: false,
        kind: LayoutItemKind::Component("Instrument".to_string()),
    };
    assert!(dict.translate_layout_item_to_struct_field(&component, false).is_none());

    let dict = sample_dictionary("FIX.4.2");
    let msg = Message {
        name: "TestRequest".to_string(),
        msg_type: "1".to_string(),
        layout: vec![
            LayoutItem {
                required: true,
                kind: LayoutItemKind::Group(
                    plain_field("NoMiscFees", 136, DataType::NumInGroup),
                    vec![],
                ),
            },
            LayoutItem {
                required: false,
                kind: LayoutItemKind::Component("Instrument".to_string()),
            },
            field_item(plain_field("TestReqID", 112, DataType::String), true),
        ],
    };
    let out = codegen::message(dict, msg, "");
    assert!(!out.contains("no_misc_fees"));
    assert!(!out.contains("instrument"));
    assert!(out.contains("pub test_req_id: &'a [u8],"));
    assert!(syn::parse_file(&out).is_ok());
}

#[test]
fn message_struct_shape() {
    let dict = sample_dictionary("FIX.4.2");
    let msg = Message {
        name: "Heartbeat".to_string(),
        msg_type: "0".to_string(),
        layout: vec![],
    };
    let out = codegen::message(dict, msg, "#[derive(Clone)]");
    assert!(out.starts_with("#[derive(Debug)]\n#[derive(Clone)]\npub struct Heartbeat<'a> {"));
    assert!(out.contains("lifetime: PhantomData<&'a ()>,"));
    assert!(out.contains("pub const MSG_TYPE: &'static [u8] = b\"0\";"));
    assert!(syn::parse_file(&out).is_ok());
}

#[test]
fn regeneration_differs_only_in_timestamp() {
    let ts1 = "Mon, 01 Jul 2024 12:00:00 +0000";
    let ts2 = "Tue, 02 Jul 2024 09:30:00 +0000";
    let out1 = codegen::fields_with_timestamp(&sample_dictionary("FIX.4.2"), "fefix", ts1);
    let again = codegen::fields_with_timestamp(&sample_dictionary("FIX.4.2"), "fefix", ts1);
    assert_eq!(out1, again);
    let out2 = codegen::fields_with_timestamp(&sample_dictionary("FIX.4.2"), "fefix", ts2);
    assert_ne!(out1, out2);
    assert_eq!(out1.replace(ts1, ts2), out2);
}

#[test]
fn provenance_banner_embeds_version_and_timestamp() {
    let notice = codegen::notice_with_timestamp("Mon, 01 Jul 2024 12:00:00 +0000");
    assert_eq!(
        notice,
        "// Generated automatically by FerrumFIX 0.1.0 on Mon, 01 Jul 2024 12:00:00 +0000.\n\
         //\n\
         // DO NOT MODIFY MANUALLY.\n\
         // DO NOT COMMIT TO VERSION CONTROL.\n\
         // ALL CHANGES WILL BE OVERWRITTEN.\n"
    );
    let live = codegen::generated_code_notice();
    assert!(live.starts_with("// Generated automatically by FerrumFIX 0.1.0 on "));
    assert!(live.ends_with("// ALL CHANGES WILL BE OVERWRITTEN.\n"));
}

#[test]
fn import_paths_follow_the_import_style() {
    let ts = "Mon, 01 Jul 2024 12:00:00 +0000";
    let internal = codegen::fields_with_timestamp(&sample_dictionary("FIX.4.2"), "fefix", ts);
    assert!(internal.contains("use fefix::{FieldDef, FieldLocation, TagU16};"));
    assert!(internal.contains("use fefix::DataField;"));
    let external = codegen::fields_with_timestamp(&sample_dictionary("FIX.4.2"), "crate", ts);
    assert!(external.contains("use crate::{FieldDef, FieldLocation, TagU16};"));
    assert!(external.contains("use crate::DataField;"));
    assert!(!external.contains("use fefix::DataField;"));
}

#[test]
fn module_doc_names_the_protocol_version() {
    let ts = "Mon, 01 Jul 2024 12:00:00 +0000";
    let out = codegen::fields_with_timestamp(&sample_dictionary("FIX.4.4"), "fefix", ts);
    assert!(out.starts_with("//! Field and message definitions for FIX.4.4.\n"));
}

#[test]
fn empty_dictionary_still_assembles_and_parses() {
    let dict = Dictionary { version: "FIX.4.2".to_string(), fields: vec![], messages: vec![] };
    let code = codegen::fields(dict, "fefix");
    assert!(syn::parse_file(code.as_str()).is_ok());
}

#[test]
fn large_tag_renders_in_decimal() {
    let f = plain_field("HugeTag", 65535, DataType::Int);
    let out = codegen::field_def(&f, "fefix");
    assert!(out.contains("TagU16::new_unchecked(65535)"));
    assert!(out.contains("tagnum_65535.html"));
}

#[test]
fn group_leader_flag_follows_the_len_suffix() {
    let leader = plain_field("RawDataLen", 95, DataType::Length);
    let out = codegen::field_def(&leader, "fefix");
    assert!(out.contains("is_group_leader: true,"));
    let plain = plain_field("RawData", 96, DataType::Data);
    let out = codegen::field_def(&plain, "fefix");
    assert!(out.contains("is_group_leader: false,"));
}

#[test]
fn unknown_categories_fall_back_to_bytes() {
    let owned = types::suggested_type(200, DataType::MonthYear, None, "fefix");
    assert_eq!(owned, "&[u8]");
    let borrowed = types::suggested_type_with_lifetime(200, DataType::MonthYear);
    assert_eq!(borrowed, "&'a [u8]");
}

#[test]
fn enum_type_name_wins_over_the_table() {
    let owned = types::suggested_type(54, DataType::Char, Some("Side".to_string()), "fefix");
    assert_eq!(owned, "Side");
}

#[test]
fn make_type_optional_wraps_only_optional_types() {
    assert_eq!(types::make_type_optional(true, "i64".to_string()), "i64");
    assert_eq!(
        types::make_type_optional(false, "i64".to_string()),
        "::std::option::Option<i64>"
    );
}

#[test]
fn gen_field_documentation_is_exact() {
    let f = plain_field("OrderQty", 38, DataType::Qty);
    let doc = codegen::gen_field("4.2".to_string(), &f);
    assert_eq!(
        doc,
        "/// OrderQty\n///\n/// # Field information\n///\n/// Tag Number: 38\n/// OnixS [reference](https://www.onixs.biz/fix-dictionary/4.2/tagnum_38.html)."
    );
}

#[test]
fn gen_message_heading_is_exact() {
    assert_eq!(codegen::_gen_message(), "# Message information\n\n");
}

#[test]
fn date_and_time_types_are_path_qualified_in_owned_mode() {
    assert_eq!(
        types::suggested_type(60, DataType::UtcTimestamp, None, "fefix"),
        "fefix::dtf::Timestamp"
    );
    assert_eq!(
        types::suggested_type(60, DataType::UtcDateOnly, None, "crate"),
        "crate::dtf::Date"
    );
    assert_eq!(
        types::suggested_type_with_lifetime(60, DataType::UtcTimeOnly),
        "crate::dtf::Time"
    );
}
