//! The dictionary model: plain, read-only views of the fields, enumerated
//! variants, messages and layout trees of one FIX protocol version. The
//! generator only ever borrows these values; it never mutates them.

use vstd::prelude::*;

verus! {

/// The protocol-level classification of a field's wire representation.
#[derive(Clone, Copy, Debug, PartialEq, Eq, Structural)]
pub enum DataType {
    Amt,
    Boolean,
    Char,
    Country,
    Currency,
    Data,
    DayOfMonth,
    Exchange,
    Float,
    Int,
    Language,
    Length,
    LocalMktDate,
    MonthYear,
    MultipleCharValue,
    MultipleStringValue,
    NumInGroup,
    Percentage,
    Price,
    PriceOffset,
    Qty,
    SeqNum,
    String,
    TagNum,
    TzTimeOnly,
    TzTimestamp,
    UtcDateOnly,
    UtcTimeOnly,
    UtcTimestamp,
    XmlData,
}

/// The base category of a data type: every integer-like type maps to `Int`,
/// every decimal type to `Float`, the single-byte types to `Char`, and
/// everything else to `String`.
pub open spec fn spec_base_type(dt: DataType) -> DataType {
    match dt {
        DataType::Int => DataType::Int,
        DataType::Length => DataType::Int,
        DataType::TagNum => DataType::Int,
        DataType::SeqNum => DataType::Int,
        DataType::NumInGroup => DataType::Int,
        DataType::DayOfMonth => DataType::Int,
        DataType::Qty => DataType::Int,
        DataType::Float => DataType::Float,
        DataType::Price => DataType::Float,
        DataType::PriceOffset => DataType::Float,
        DataType::Amt => DataType::Float,
        DataType::Percentage => DataType::Float,
        DataType::Char => DataType::Char,
        DataType::Boolean => DataType::Char,
        _ => DataType::String,
    }
}

/// The name of a base category, as it is spelled in generated code.
pub open spec fn base_type_name_text(dt: DataType) -> Seq<char> {
    match spec_base_type(dt) {
        DataType::Int => "Int"@,
        DataType::Float => "Float"@,
        DataType::Char => "Char"@,
        _ => "String"@,
    }
}

impl DataType {
    /// The base category of this data type.
    pub fn base_type(self) -> (r: DataType)
        ensures
            r == spec_base_type(self),
    {
        match self {
            DataType::Int => DataType::Int,
            DataType::Length => DataType::Int,
            DataType::TagNum => DataType::Int,
            DataType::SeqNum => DataType::Int,
            DataType::NumInGroup => DataType::Int,
            DataType::DayOfMonth => DataType::Int,
            DataType::Qty => DataType::Int,
            DataType::Float => DataType::Float,
            DataType::Price => DataType::Float,
            DataType::PriceOffset => DataType::Float,
            DataType::Amt => DataType::Float,
            DataType::Percentage => DataType::Float,
            DataType::Char => DataType::Char,
            DataType::Boolean => DataType::Char,
            _ => DataType::String,
        }
    }

    /// The spelling of this data type's base category in generated code.
    pub fn base_type_name(self) -> (r: &'static str)
        ensures
            r@ == base_type_name_text(self),
    {
        match self.base_type() {
            DataType::Int => "Int",
            DataType::Float => "Float",
            DataType::Char => "Char",
            _ => "String",
        }
    }
}

/// One allowed wire value of a field with a closed value set, paired with a
/// human-readable description.
pub struct EnumVariant {
    pub value: std::string::String,
    pub description: std::string::String,
}

/// The mathematical view of an enumerated variant.
pub ghost struct EnumVariantView {
    pub value: Seq<char>,
    pub description: Seq<char>,
}

impl View for EnumVariant {
    type V = EnumVariantView;

    open spec fn view(&self) -> EnumVariantView {
        EnumVariantView { value: self.value@, description: self.description@ }
    }
}

impl DeepView for EnumVariant {
    type V = EnumVariantView;

    open spec fn deep_view(&self) -> EnumVariantView {
        self.view()
    }
}

/// An immutable field definition: a tag that is positive and unique within
/// its dictionary, a name, a base data type, and an optional ordered set of
/// enumerated variants.
pub struct Field {
    pub name: std::string::String,
    pub tag: u16,
    pub data_type: DataType,
    pub enums: Option<Vec<EnumVariant>>,
}

/// The mathematical view of a field definition.
pub ghost struct FieldView {
    pub name: Seq<char>,
    pub tag: u16,
    pub data_type: DataType,
    pub enums: Option<Seq<EnumVariantView>>,
}

impl View for Field {
    type V = FieldView;

    open spec fn view(&self) -> FieldView {
        FieldView {
            name: self.name@,
            tag: self.tag,
            data_type: self.data_type,
            enums: self.enums.deep_view(),
        }
    }
}

impl DeepView for Field {
    type V = FieldView;

    open spec fn deep_view(&self) -> FieldView {
        self.view()
    }
}

/// A field is well formed when its tag lies in the legal positive range;
/// that is the one input-contract demand the generator makes. Everything
/// else about a field — its name, its data type, its variants and their
/// descriptions, however malformed — yields best-effort text.
pub open spec fn field_valid(f: FieldView) -> bool {
    f.tag >= 1
}

/// One positional entry in a message's layout: a field reference, a repeated
/// group, or a named reusable component. Groups and components are opaque to
/// this generator.
pub enum LayoutItemKind {
    Field(Field),
    Group(Field, Vec<LayoutItem>),
    Component(std::string::String),
}

/// A layout item together with the required/optional flag local to this
/// position in the message.
pub struct LayoutItem {
    pub required: bool,
    pub kind: LayoutItemKind,
}

/// The mathematical view of a layout item's kind. Group payloads are opaque
/// to the generator, so the view carries none.
pub ghost enum LayoutItemKindView {
    Field(FieldView),
    Group,
    Component(Seq<char>),
}

/// The mathematical view of a layout item.
pub ghost struct LayoutItemView {
    pub required: bool,
    pub kind: LayoutItemKindView,
}

impl View for LayoutItem {
    type V = LayoutItemView;

    open spec fn view(&self) -> LayoutItemView {
        LayoutItemView {
            required: self.required,
            kind: match self.kind {
                LayoutItemKind::Field(f) => LayoutItemKindView::Field(f@),
                LayoutItemKind::Group(_, _) => LayoutItemKindView::Group,
                LayoutItemKind::Component(n) => LayoutItemKindView::Component(n@),
            },
        }
    }
}

impl DeepView for LayoutItem {
    type V = LayoutItemView;

    open spec fn deep_view(&self) -> LayoutItemView {
        self.view()
    }
}

/// A message definition: a name, the wire message-type code that identifies
/// it, and an ordered layout.
pub struct Message {
    pub name: std::string::String,
    pub msg_type: std::string::String,
    pub layout: Vec<LayoutItem>,
}

/// The mathematical view of a message definition.
pub ghost struct MessageView {
    pub name: Seq<char>,
    pub msg_type: Seq<char>,
    pub layout: Seq<LayoutItemView>,
}

impl View for Message {
    type V = MessageView;

    open spec fn view(&self) -> MessageView {
        MessageView {
            name: self.name@,
            msg_type: self.msg_type@,
            layout: self.layout.deep_view(),
        }
    }
}

impl DeepView for Message {
    type V = MessageView;

    open spec fn deep_view(&self) -> MessageView {
        self.view()
    }
}

/// The root read-only view of one protocol version: its version string, its
/// fields (unique by tag) and its messages.
pub struct Dictionary {
    pub version: std::string::String,
    pub fields: Vec<Field>,
    pub messages: Vec<Message>,
}

/// The mathematical view of a dictionary.
pub ghost struct DictionaryView {
    pub version: Seq<char>,
    pub fields: Seq<FieldView>,
    pub messages: Seq<MessageView>,
}

impl View for Dictionary {
    type V = DictionaryView;

    open spec fn view(&self) -> DictionaryView {
        DictionaryView {
            version: self.version@,
            fields: self.fields.deep_view(),
            messages: self.messages.deep_view(),
        }
    }
}

/// A dictionary is well formed when every one of its fields is.
pub open spec fn dictionary_valid(d: DictionaryView) -> bool {
    forall|i: int| 0 <= i < d.fields.len() ==> field_valid(d.fields[i])
}

} // verus!
