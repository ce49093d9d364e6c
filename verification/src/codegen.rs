//! The emitters and the file assembler: one constant (and, for closed value
//! sets, one enumerated type) per dictionary field, one record type per
//! message, a provenance banner, and the complete generated source file.

use vstd::prelude::*;
use vstd::string::StringExecFns;
use vstd::string::StrSliceExecFns;
use crate::casing::{camel_of, shouty_snake_of, snake_of, to_camel, to_shouty_snake, to_snake};
use crate::dictionary::{
    base_type_name_text, dictionary_valid, field_valid, Dictionary, DictionaryView, EnumVariant,
    EnumVariantView, Field, FieldView, LayoutItem, LayoutItemKind, LayoutItemKindView,
    LayoutItemView, Message, MessageView,
};
use crate::strutil::{
    bool_str, bool_text, dec_rep, has_no_newline, is_group_leader_name, join_nl,
    lemma_join_nl_push, name_ends_with_len, str_eq, u16_to_dec,
};
use crate::types::{
    borrowed_type_text, make_type_optional, optional_wrap_text, owned_type_text, suggested_type,
    suggested_type_with_lifetime,
};
use crate::{is_digit, spec_is_digit};

verus! {

/// The version identifier this generator embeds in its provenance banner.
pub open spec fn generator_version_text() -> Seq<char> {
    "0.1.0"@
}

/// The generator's own version identifier.
pub fn generator_version() -> (r: &'static str)
    ensures
        r@ == generator_version_text(),
{
    "0.1.0"
}

/// The name of the enumerated type emitted for a field, when the field
/// carries a closed value set: the type-name casing of the field's name.
pub open spec fn enum_type_name_of(f: FieldView) -> Option<Seq<char>> {
    match f.enums {
        Option::Some(_) => Option::Some(camel_of(f.name)),
        Option::None => Option::None,
    }
}

/// The fragment emitted for one enumerated variant: a documentation line
/// with its wire value, an attribute recording that wire value, and a
/// variant identifier in type-name casing, prefixed with a marker letter
/// when the case-converted description starts with a digit.
pub open spec fn variant_text(v: EnumVariantView) -> Seq<char> {
    let head = "    /// Field variant '"@ + v.value + "'.\n    #[fefix(variant = \""@ + v.value
        + "\")]\n    "@;
    let camel = camel_of(v.description);
    let ident = if camel.len() > 0 && spec_is_digit(camel[0]) {
        "N"@ + camel
    } else {
        camel
    };
    head + ident + ","@
}

/// The variant fragments of a field's enumerated type, in source order.
pub open spec fn variant_texts(vs: Seq<EnumVariantView>) -> Seq<Seq<char>> {
    vs.map_values(|v: EnumVariantView| variant_text(v))
}

/// The joined body of a field's enumerated type declaration.
pub open spec fn variants_text(vs: Seq<EnumVariantView>) -> Seq<char> {
    join_nl(variant_texts(vs))
}

/// The enumerated type declaration emitted beside a field with a closed
/// value set.
pub open spec fn enum_decl_text(field_name: Seq<char>, vs: Seq<EnumVariantView>) -> Seq<char> {
    "/// Field type variants for [`"@ + shouty_snake_of(field_name)
        + "`].\n#[derive(Debug, Copy, Clone, PartialEq, Eq, Hash, DataField)]\npub enum "@
        + camel_of(field_name) + " {\n"@ + variants_text(vs) + "\n}\n"@
}

/// The documentation comment and constant declaration emitted for a field.
pub open spec fn field_def_const_text(f: FieldView, fefix_path: Seq<char>) -> Seq<char> {
    let tag = dec_rep(f.tag as nat);
    "/// Field attributes for [`"@ + f.name + " <"@ + tag
        + ">`]\n/// (https://www.onixs.biz/fix-dictionary/4.4/tagnum_"@ + tag
        + ".html).\npub const "@ + shouty_snake_of(f.name) + ": &FieldDef<'static, "@
        + owned_type_text(f.tag, f.data_type, enum_type_name_of(f), fefix_path)
        + "> = &FieldDef{\n    name: \""@ + f.name + "\",\n    tag: unsafe { TagU16::new_unchecked("@
        + tag + ") },\n    is_group_leader: "@ + bool_text(is_group_leader_name(f.name))
        + ",\n    data_type: DataType::"@ + base_type_name_text(f.data_type)
        + ",\n    phantom: PhantomData,\n    location: FieldLocation::Body,\n};\n"@
}

/// Everything emitted for one field: the constant, then the enumerated type
/// declaration when the field has one.
pub open spec fn field_def_text(f: FieldView, fefix_path: Seq<char>) -> Seq<char> {
    let enum_part = match f.enums {
        Option::Some(vs) => enum_decl_text(f.name, vs),
        Option::None => Seq::<char>::empty(),
    };
    field_def_const_text(f, fefix_path) + enum_part + "\n"@
}

/// Renders the fragment of one enumerated variant.
fn variant_fragment(v: &EnumVariant) -> (r: String)
    ensures
        r@ == variant_text(v@),
{
    let mut s = String::from_str("    /// Field variant '");
    s.append(v.value.as_str());
    s.append("'.\n    #[fefix(variant = \"");
    s.append(v.value.as_str());
    s.append("\")]\n    ");
    let camel = to_camel(v.description.as_str());
    if !camel.as_str().is_empty() && is_digit(camel.as_str().get_char(0)) {
        s.append("N");
    }
    s.append(camel.as_str());
    s.append(",");
    proof {
        assert(s@ =~= variant_text(v@));
    }
    s
}

/// Renders and joins the variant fragments of a field's enumerated type.
fn variants_joined(vs: &Vec<EnumVariant>) -> (r: String)
    ensures
        r@ == variants_text(vs.deep_view()),
{
    let ghost vsv = vs.deep_view();
    let mut s = String::new();
    let mut i: usize = 0;
    while i < vs.len()
        invariant
            0 <= i <= vsv.len(),
            vsv == vs.deep_view(),
            vsv.len() == vs@.len(),
            s@ == join_nl(variant_texts(vsv.take(i as int))),
        decreases vsv.len() - i,
    {
        let frag = variant_fragment(&vs[i]);
        if i > 0 {
            s.append("\n");
        }
        s.append(frag.as_str());
        proof {
            let m_i = variant_texts(vsv.take(i as int));
            let m_next = variant_texts(vsv.take(i as int + 1));
            assert(vsv[i as int] == vs@[i as int]@);
            assert(m_next =~~= m_i.push(variant_text(vsv[i as int])));
            lemma_join_nl_push(m_i, variant_text(vsv[i as int]));
            assert(m_i.len() == i);
            assert(s@ == join_nl(m_next));
        }
        i = i + 1;
    }
    proof {
        assert(vsv.take(vsv.len() as int) =~~= vsv);
    }
    s
}

/// Renders the enumerated type declaration for a field with a closed value
/// set.
fn enum_decl(field_name: &str, vs: &Vec<EnumVariant>) -> (r: String)
    ensures
        r@ == enum_decl_text(field_name@, vs.deep_view()),
{
    let mut s = String::from_str("/// Field type variants for [`");
    let shouty = to_shouty_snake(field_name);
    s.append(shouty.as_str());
    s.append("`].\n#[derive(Debug, Copy, Clone, PartialEq, Eq, Hash, DataField)]\npub enum ");
    let camel = to_camel(field_name);
    s.append(camel.as_str());
    s.append(" {\n");
    let joined = variants_joined(vs);
    s.append(joined.as_str());
    s.append("\n}\n");
    proof {
        assert(s@ =~= enum_decl_text(field_name@, vs.deep_view()));
    }
    s
}

/// Renders the full definition of one field: its documentation comment, its
/// constant declaration, and its enumerated type when it carries one.
pub fn field_def(field: &Field, fefix_path: &str) -> (r: String)
    requires
        field_valid(field@),
    ensures
        r@ == field_def_text(field@, fefix_path@),
{
    let tag_str = u16_to_dec(field.tag);
    let shouty = to_shouty_snake(field.name.as_str());
    let enum_type_name: Option<String> = match &field.enums {
        Option::Some(_) => Option::Some(to_camel(field.name.as_str())),
        Option::None => Option::None,
    };
    proof {
        assert(enum_type_name.deep_view() == enum_type_name_of(field@));
    }
    let type_param = suggested_type(field.tag, field.data_type, enum_type_name, fefix_path);
    let group = bool_str(name_ends_with_len(field.name.as_str()));
    let dt_name = field.data_type.base_type_name();
    let mut s = String::from_str("/// Field attributes for [`");
    s.append(field.name.as_str());
    s.append(" <");
    s.append(tag_str.as_str());
    s.append(">`]\n/// (https://www.onixs.biz/fix-dictionary/4.4/tagnum_");
    s.append(tag_str.as_str());
    s.append(".html).\npub const ");
    s.append(shouty.as_str());
    s.append(": &FieldDef<'static, ");
    s.append(type_param.as_str());
    s.append("> = &FieldDef{\n    name: \"");
    s.append(field.name.as_str());
    s.append("\",\n    tag: unsafe { TagU16::new_unchecked(");
    s.append(tag_str.as_str());
    s.append(") },\n    is_group_leader: ");
    s.append(group);
    s.append(",\n    data_type: DataType::");
    s.append(dt_name);
    s.append(",\n    phantom: PhantomData,\n    location: FieldLocation::Body,\n};\n");
    proof {
        assert(s@ =~= field_def_const_text(field@, fefix_path@));
    }
    if let Option::Some(vs) = &field.enums {
        proof {
            assert(field@.enums == Option::Some(vs.deep_view()));
        }
        let decl = enum_decl(field.name.as_str(), vs);
        s.append(decl.as_str());
    }
    s.append("\n");
    proof {
        assert(s@ =~= field_def_text(field@, fefix_path@));
    }
    s
}

/// A field with a closed value set emits exactly one enumerated type
/// declaration, holding one variant fragment per enumerated variant, in
/// source order; a field without one emits no such declaration.
pub proof fn lemma_enum_emission(f: FieldView, fefix_path: Seq<char>)
    ensures
        match f.enums {
            Option::Some(vs) => field_def_text(f, fefix_path) == field_def_const_text(
                f,
                fefix_path,
            ) + enum_decl_text(f.name, vs) + "\n"@,
            Option::None => field_def_text(f, fefix_path) == field_def_const_text(f, fefix_path)
                + "\n"@,
        },
        f.enums is Some ==> {
            let vs = f.enums->Some_0;
            &&& enum_decl_text(f.name, vs) == "/// Field type variants for [`"@ + shouty_snake_of(
                f.name,
            ) + "`].\n#[derive(Debug, Copy, Clone, PartialEq, Eq, Hash, DataField)]\npub enum "@
                + camel_of(f.name) + " {\n"@ + join_nl(variant_texts(vs)) + "\n}\n"@
            &&& variant_texts(vs).len() == vs.len()
            &&& forall|i: int|
                0 <= i < vs.len() ==> variant_texts(vs)[i] == variant_text(vs[i])
        },
{
    if f.enums is None {
        assert(field_def_const_text(f, fefix_path) + Seq::<char>::empty() + "\n"@
            =~= field_def_const_text(f, fefix_path) + "\n"@);
    }
}

/// The record member emitted for one field reference in a message layout.
pub open spec fn member_text(f: FieldView, required: bool) -> Seq<char> {
    "\n            pub "@ + snake_of(f.name) + ": "@ + optional_wrap_text(
        required,
        borrowed_type_text(f.tag, f.data_type),
    ) + ",\n            "@
}

/// What one layout item contributes to its message's record type: a member
/// for a field reference, nothing for a group or a component.
pub open spec fn member_opt_text(item: LayoutItemView, required: bool) -> Option<Seq<char>> {
    match item.kind {
        LayoutItemKindView::Field(f) => Option::Some(member_text(f, required)),
        _ => Option::None,
    }
}

/// The member fragments of a message's layout, in layout order, with the
/// required/optional flag taken from each item's own position.
pub open spec fn member_texts(items: Seq<LayoutItemView>) -> Seq<Seq<char>>
    decreases items.len(),
{
    if items.len() == 0 {
        Seq::empty()
    } else {
        let init = member_texts(items.drop_last());
        match member_opt_text(items.last(), items.last().required) {
            Option::Some(m) => init.push(m),
            Option::None => init,
        }
    }
}

/// The record type and associated constant emitted for one message.
pub open spec fn message_text(m: MessageView, custom_derive_line: Seq<char>) -> Seq<char> {
    "#[derive(Debug)]\n"@ + custom_derive_line + "\npub struct "@ + camel_of(m.name)
        + "<'a> {\n    lifetime: PhantomData<&'a ()>,\n    "@ + join_nl(member_texts(m.layout))
        + "\n}\n\nimpl<'a> "@ + camel_of(m.name)
        + "<'a> {\n    pub const MSG_TYPE: &'static [u8] = b\""@ + m.msg_type + "\";\n}\n"@
}

impl Dictionary {
    /// Translates one layout item into a record member: a field reference
    /// yields one member, named in member casing and typed in the
    /// lifetime-parameterized mode, wrapped in the option type unless this
    /// position is required; a group or component item yields nothing.
    pub fn translate_layout_item_to_struct_field(
        &self,
        item: &LayoutItem,
        required: bool,
    ) -> (r: Option<String>)
        ensures
            r.deep_view() == member_opt_text(item@, required),
            r is Some <==> item@.kind is Field,
    {
        let f = match &item.kind {
            LayoutItemKind::Field(f) => f,
            LayoutItemKind::Group(_, _) => {
                return Option::None;
            },
            LayoutItemKind::Component(_) => {
                return Option::None;
            },
        };
        let field_name = to_snake(f.name.as_str());
        let field_type = suggested_type_with_lifetime(f.tag, f.data_type);
        let mut s = String::from_str("\n            pub ");
        s.append(field_name.as_str());
        s.append(": ");
        let wrapped = make_type_optional(required, String::from_str(field_type));
        s.append(wrapped.as_str());
        s.append(",\n            ");
        proof {
            assert(s@ =~= member_text(f@, required));
        }
        Option::Some(s)
    }
}

/// Renders the record type for one message, walking its layout in order and
/// emitting one member per field reference; an extra derive line chosen by
/// the caller is injected below the standard one.
pub fn message(dict: Dictionary, msg: Message, custom_derive_line: &str) -> (r: String)
    ensures
        r@ == message_text(msg@, custom_derive_line@),
{
    let identifier = to_camel(msg.name.as_str());
    let ghost items = msg.layout.deep_view();
    let mut members = String::new();
    let mut any = false;
    let mut i: usize = 0;
    while i < msg.layout.len()
        invariant
            0 <= i <= items.len(),
            items == msg.layout.deep_view(),
            items.len() == msg.layout@.len(),
            members@ == join_nl(member_texts(items.take(i as int))),
            any == (member_texts(items.take(i as int)).len() > 0),
        decreases items.len() - i,
    {
        let item = &msg.layout[i];
        proof {
            assert(items[i as int] == msg.layout@[i as int]@);
        }
        let opt = dict.translate_layout_item_to_struct_field(item, item.required);
        proof {
            assert(items.take(i as int + 1).drop_last() =~~= items.take(i as int));
            assert(items.take(i as int + 1).last() == items[i as int]);
        }
        match opt {
            Option::Some(frag) => {
                if any {
                    members.append("\n");
                }
                members.append(frag.as_str());
                any = true;
                proof {
                    let m_i = member_texts(items.take(i as int));
                    lemma_join_nl_push(m_i, frag@);
                    assert(member_texts(items.take(i as int + 1)) == m_i.push(frag@));
                }
            },
            Option::None => {
                proof {
                    assert(member_texts(items.take(i as int + 1)) == member_texts(
                        items.take(i as int),
                    ));
                }
            },
        }
        i = i + 1;
    }
    proof {
        assert(items.take(items.len() as int) =~~= items);
    }
    let mut s = String::from_str("#[derive(Debug)]\n");
    s.append(custom_derive_line);
    s.append("\npub struct ");
    s.append(identifier.as_str());
    s.append("<'a> {\n    lifetime: PhantomData<&'a ()>,\n    ");
    s.append(members.as_str());
    s.append("\n}\n\nimpl<'a> ");
    s.append(identifier.as_str());
    s.append("<'a> {\n    pub const MSG_TYPE: &'static [u8] = b\"");
    s.append(msg.msg_type.as_str());
    s.append("\";\n}\n");
    proof {
        assert(s@ =~= message_text(msg@, custom_derive_line@));
    }
    s
}

/// The provenance banner embedded at the top of every generated file,
/// warning maintainers that the file is produced by this generator and
/// must not be edited by hand.
pub open spec fn notice_text(ts: Seq<char>) -> Seq<char> {
    "// Generated automatically by FerrumFIX "@ + generator_version_text() + " on "@ + ts
        + ".\n//\n// DO NOT MODIFY MANUALLY.\n// DO NOT COMMIT TO VERSION CONTROL.\n// ALL CHANGES WILL BE OVERWRITTEN.\n"@
}

/// Relies on chrono's `Utc::now` and `DateTime::to_rfc2822` for the
/// wall-clock generation timestamp. Nothing is assumed of the time itself;
/// the one stated fact is that the RFC 2822 rendering holds no newline
/// (chrono writes weekday and month names, digits, spaces, colons and a
/// numeric offset only), so embedding it cannot break a comment line.
/// Chrono aborts inside this call on a pathological system clock (before
/// the Unix epoch, or a year past 9999); no `requires` can name that
/// condition, as the call takes no arguments.
#[verifier::external_body]
fn utc_now_rfc2822() -> (r: String)
    ensures
        has_no_newline(r@),
{
    chrono::Utc::now().to_rfc2822()
}

/// Renders the provenance banner around a caller-supplied timestamp.
pub fn notice_with_timestamp(timestamp: &str) -> (r: String)
    ensures
        r@ == notice_text(timestamp@),
{
    let mut s = String::from_str("// Generated automatically by FerrumFIX ");
    s.append(generator_version());
    s.append(" on ");
    s.append(timestamp);
    s.append(
        ".\n//\n// DO NOT MODIFY MANUALLY.\n// DO NOT COMMIT TO VERSION CONTROL.\n// ALL CHANGES WILL BE OVERWRITTEN.\n",
    );
    s
}

/// Renders the provenance banner with the wall-clock timestamp.
pub fn generated_code_notice() -> (r: String)
    ensures
        exists|ts: Seq<char>| r@ == notice_text(ts) && has_no_newline(ts),
{
    let now = utc_now_rfc2822();
    let r = notice_with_timestamp(now.as_str());
    proof {
        assert(r@ == notice_text(now@) && has_no_newline(now@));
    }
    r
}

/// The joined definitions of every field of a dictionary, in source order.
pub open spec fn field_defs_text(fs: Seq<FieldView>, fefix_path: Seq<char>) -> Seq<char> {
    join_nl(fs.map_values(|f: FieldView| field_def_text(f, fefix_path)))
}

/// The import line whose path depends on whether the generated file lives
/// inside the defining library or in an external consumer.
pub open spec fn import_data_field_text(fefix_path: Seq<char>) -> Seq<char> {
    if fefix_path == "fefix"@ {
        "use fefix::DataField;"@
    } else {
        "use crate::DataField;"@
    }
}

/// The complete generated source file for one dictionary: module
/// documentation naming the protocol version, the provenance banner with
/// the given timestamp, the imports, and every field definition.
pub open spec fn fields_text(d: DictionaryView, fefix_path: Seq<char>, ts: Seq<char>) -> Seq<
    char,
> {
    "//! Field and message definitions for "@ + d.version + ".\n\n#![allow(dead_code)]\n\n"@
        + notice_text(ts) + "\n\nuse "@ + fefix_path + "::{FieldDef, FieldLocation, TagU16};\nuse "@
        + fefix_path + "::{DataType, Buffer};\n"@ + import_data_field_text(fefix_path)
        + "\nuse std::marker::PhantomData;\n\n"@ + field_defs_text(d.fields, fefix_path) + "\n"@
}

/// Assembles the generated source file with a caller-supplied timestamp.
pub fn fields_with_timestamp(dict: &Dictionary, fefix_path: &str, timestamp: &str) -> (r: String)
    requires
        dictionary_valid(dict@),
    ensures
        r@ == fields_text(dict@, fefix_path@, timestamp@),
{
    let ghost fsv = dict.fields.deep_view();
    let mut defs = String::new();
    let mut i: usize = 0;
    while i < dict.fields.len()
        invariant
            0 <= i <= fsv.len(),
            fsv == dict.fields.deep_view(),
            fsv.len() == dict.fields@.len(),
            dictionary_valid(dict@),
            defs@ == join_nl(
                fsv.take(i as int).map_values(|f: FieldView| field_def_text(f, fefix_path@)),
            ),
        decreases fsv.len() - i,
    {
        proof {
            assert(fsv[i as int] == dict.fields@[i as int]@);
            assert(dict@.fields == fsv);
            assert(field_valid(fsv[i as int]));
        }
        let def = field_def(&dict.fields[i], fefix_path);
        if i > 0 {
            defs.append("\n");
        }
        defs.append(def.as_str());
        proof {
            let m = |f: FieldView| field_def_text(f, fefix_path@);
            let m_i = fsv.take(i as int).map_values(m);
            let m_next = fsv.take(i as int + 1).map_values(m);
            assert(m_next =~~= m_i.push(field_def_text(fsv[i as int], fefix_path@)));
            lemma_join_nl_push(m_i, field_def_text(fsv[i as int], fefix_path@));
            assert(m_i.len() == i);
            assert(defs@ == join_nl(m_next));
        }
        i = i + 1;
    }
    proof {
        assert(fsv.take(fsv.len() as int) =~~= fsv);
    }
    let notice = notice_with_timestamp(timestamp);
    let mut s = String::from_str("//! Field and message definitions for ");
    s.append(dict.version.as_str());
    s.append(".\n\n#![allow(dead_code)]\n\n");
    s.append(notice.as_str());
    s.append("\n\nuse ");
    s.append(fefix_path);
    s.append("::{FieldDef, FieldLocation, TagU16};\nuse ");
    s.append(fefix_path);
    s.append("::{DataType, Buffer};\n");
    if str_eq(fefix_path, "fefix") {
        s.append("use fefix::DataField;");
    } else {
        s.append("use crate::DataField;");
    }
    s.append("\nuse std::marker::PhantomData;\n\n");
    s.append(defs.as_str());
    s.append("\n");
    proof {
        assert(s@ =~= fields_text(dict@, fefix_path@, timestamp@));
    }
    s
}

/// Assembles the generated source file for a dictionary, stamping it with
/// the wall-clock timestamp.
pub fn fields(dict: Dictionary, fefix_path: &str) -> (r: String)
    requires
        dictionary_valid(dict@),
    ensures
        exists|ts: Seq<char>| r@ == fields_text(dict@, fefix_path@, ts) && has_no_newline(ts),
{
    let now = utc_now_rfc2822();
    let r = fields_with_timestamp(&dict, fefix_path, now.as_str());
    proof {
        assert(r@ == fields_text(dict@, fefix_path@, now@) && has_no_newline(now@));
    }
    r
}

/// The generated output up to the point where the timestamp is embedded.
pub open spec fn output_before_timestamp(d: DictionaryView) -> Seq<char> {
    "//! Field and message definitions for "@ + d.version + ".\n\n#![allow(dead_code)]\n\n"@
        + "// Generated automatically by FerrumFIX "@ + generator_version_text() + " on "@
}

/// The generated output after the embedded timestamp.
pub open spec fn output_after_timestamp(d: DictionaryView, fefix_path: Seq<char>) -> Seq<char> {
    ".\n//\n// DO NOT MODIFY MANUALLY.\n// DO NOT COMMIT TO VERSION CONTROL.\n// ALL CHANGES WILL BE OVERWRITTEN.\n"@
        + "\n\nuse "@ + fefix_path + "::{FieldDef, FieldLocation, TagU16};\nuse "@ + fefix_path
        + "::{DataType, Buffer};\n"@ + import_data_field_text(fefix_path)
        + "\nuse std::marker::PhantomData;\n\n"@ + field_defs_text(d.fields, fefix_path) + "\n"@
}

/// Generating twice from an unchanged dictionary yields byte-identical
/// output apart from the embedded timestamp: the text before and the text
/// after the timestamp depend only on the dictionary and the import path.
#[verifier::rlimit(60)]
pub proof fn lemma_idempotent_up_to_timestamp(
    d: DictionaryView,
    fefix_path: Seq<char>,
    ts1: Seq<char>,
    ts2: Seq<char>,
)
    ensures
        fields_text(d, fefix_path, ts1) == output_before_timestamp(d) + ts1
            + output_after_timestamp(d, fefix_path),
        fields_text(d, fefix_path, ts2) == output_before_timestamp(d) + ts2
            + output_after_timestamp(d, fefix_path),
{
    assert(fields_text(d, fefix_path, ts1) =~= output_before_timestamp(d) + ts1
        + output_after_timestamp(d, fefix_path));
    assert(fields_text(d, fefix_path, ts2) =~= output_before_timestamp(d) + ts2
        + output_after_timestamp(d, fefix_path));
}

/// The documentation comment generated for one field: its name, its tag
/// number, and a link into the external human-readable reference keyed by
/// protocol version and tag.
pub open spec fn gen_field_text(version: Seq<char>, f: FieldView) -> Seq<char> {
    "/// "@ + f.name + "\n///\n/// # Field information\n///\n/// Tag Number: "@ + dec_rep(
        f.tag as nat,
    ) + "\n/// OnixS [reference](https://www.onixs.biz/fix-dictionary/"@ + version + "/tagnum_"@
        + dec_rep(f.tag as nat) + ".html)."@
}

/// Renders the documentation comment for one field.
pub fn gen_field(version: String, field: &Field) -> (r: String)
    ensures
        r@ == gen_field_text(version@, field@),
{
    let tag_str = u16_to_dec(field.tag);
    let mut s = String::from_str("/// ");
    s.append(field.name.as_str());
    s.append("\n///\n/// # Field information\n///\n/// Tag Number: ");
    s.append(tag_str.as_str());
    s.append("\n/// OnixS [reference](https://www.onixs.biz/fix-dictionary/");
    s.append(version.as_str());
    s.append("/tagnum_");
    s.append(tag_str.as_str());
    s.append(".html).");
    proof {
        assert(s@ =~= gen_field_text(version@, field@));
    }
    s
}

/// The heading of a generated message documentation block.
pub fn _gen_message() -> (r: String)
    ensures
        r@ == "# Message information\n\n"@,
{
    String::from_str("# Message information\n\n")
}

/// A layout item of group or component kind contributes no record member:
/// removing such an item from a layout leaves the emitted members unchanged.
pub proof fn lemma_non_field_item_emits_nothing(items: Seq<LayoutItemView>, i: int)
    requires
        0 <= i < items.len(),
        !(items[i].kind is Field),
    ensures
        member_texts(items) == member_texts(items.remove(i)),
    decreases items.len(),
{
    if i == items.len() - 1 {
        assert(items.remove(i) =~~= items.drop_last());
    } else {
        lemma_non_field_item_emits_nothing(items.drop_last(), i);
        assert(items.remove(i).drop_last() =~~= items.drop_last().remove(i));
        assert(items.remove(i).last() == items.last());
    }
}

} // verus!
