//! Types: the `type` statement, its restrictions, and `typedef`.

use crate::yang::common::{Status};
use vstd::prelude::*;

verus! {

/// The value of element `i` of a sequence of [`TypeInfo`].
pub open spec fn type_info_at(v: Seq<TypeInfo>, i: int) -> TypeInfoView
    decreases v, 0nat,
{
    if 0 <= i < v.len() {
        v[i]@
    } else {
        arbitrary()
    }
}

/// The values of a sequence of [`TypeInfo`], element by element.
pub open spec fn type_infos_view(v: Seq<TypeInfo>) -> Seq<TypeInfoView>
    decreases v, 1nat,
{
    Seq::new(v.len(), |i: int| type_info_at(v, i))
}

/// A deep copy of a vector of [`TypeInfo`].
pub fn clone_type_infos(v: &Vec<TypeInfo>) -> (res: Vec<TypeInfo>)
    ensures
        type_infos_view(res@) == type_infos_view(v@),
    decreases v,
{
    let mut res: Vec<TypeInfo> = Vec::new();
    let mut i: usize = 0;
    while i < v.len()
        invariant
            i <= v.len(),
            res.len() == i,
            forall|j: int| 0 <= j < i ==> res[j]@ == v[j]@,
        decreases v.len() - i,
    {
        res.push(v[i].clone());
        i += 1;
    }
    assert(type_infos_view(res@) =~= type_infos_view(v@));
    res
}

/// A `range` restriction.
#[derive(Debug, Default, PartialEq, Eq)]
pub struct Range {
    pub value: String,
    pub error_message: Option<String>,
    pub error_app_tag: Option<String>,
    pub description: Option<String>,
    pub reference: Option<String>,
}

/// What a [`Range`] holds, as a mathematical value.
pub ghost struct RangeView {
    pub value: Seq<char>,
    pub error_message: Option<Seq<char>>,
    pub error_app_tag: Option<Seq<char>>,
    pub description: Option<Seq<char>>,
    pub reference: Option<Seq<char>>,
}

impl View for Range {
    type V = RangeView;

    open spec fn view(&self) -> RangeView {
        RangeView {
            value: self.value@,
            error_message: self.error_message.deep_view(),
            error_app_tag: self.error_app_tag.deep_view(),
            description: self.description.deep_view(),
            reference: self.reference.deep_view(),
        }
    }
}

impl DeepView for Range {
    type V = RangeView;

    open spec fn deep_view(&self) -> RangeView {
        self@
    }
}

impl Clone for Range {
    fn clone(&self) -> (res: Self)
        ensures
            res@ == self@,
    {
        let res = Range {
            value: self.value.clone(),
            error_message: self.error_message.clone(),
            error_app_tag: self.error_app_tag.clone(),
            description: self.description.clone(),
            reference: self.reference.clone(),
        };
        res
    }
}

/// A `length` restriction.
#[derive(Debug, Default, PartialEq, Eq)]
pub struct Length {
    pub value: String,
    pub error_message: Option<String>,
    pub error_app_tag: Option<String>,
    pub description: Option<String>,
    pub reference: Option<String>,
}

/// What a [`Length`] holds, as a mathematical value.
pub ghost struct LengthView {
    pub value: Seq<char>,
    pub error_message: Option<Seq<char>>,
    pub error_app_tag: Option<Seq<char>>,
    pub description: Option<Seq<char>>,
    pub reference: Option<Seq<char>>,
}

impl View for Length {
    type V = LengthView;

    open spec fn view(&self) -> LengthView {
        LengthView {
            value: self.value@,
            error_message: self.error_message.deep_view(),
            error_app_tag: self.error_app_tag.deep_view(),
            description: self.description.deep_view(),
            reference: self.reference.deep_view(),
        }
    }
}

impl DeepView for Length {
    type V = LengthView;

    open spec fn deep_view(&self) -> LengthView {
        self@
    }
}

impl Clone for Length {
    fn clone(&self) -> (res: Self)
        ensures
            res@ == self@,
    {
        let res = Length {
            value: self.value.clone(),
            error_message: self.error_message.clone(),
            error_app_tag: self.error_app_tag.clone(),
            description: self.description.clone(),
            reference: self.reference.clone(),
        };
        res
    }
}

/// A `pattern` restriction.
#[derive(Debug, Default, PartialEq, Eq)]
pub struct Pattern {
    pub value: String,
    pub modifier: Option<String>,
    pub error_message: Option<String>,
    pub error_app_tag: Option<String>,
    pub description: Option<String>,
    pub reference: Option<String>,
}

/// What a [`Pattern`] holds, as a mathematical value.
pub ghost struct PatternView {
    pub value: Seq<char>,
    pub modifier: Option<Seq<char>>,
    pub error_message: Option<Seq<char>>,
    pub error_app_tag: Option<Seq<char>>,
    pub description: Option<Seq<char>>,
    pub reference: Option<Seq<char>>,
}

impl View for Pattern {
    type V = PatternView;

    open spec fn view(&self) -> PatternView {
        PatternView {
            value: self.value@,
            modifier: self.modifier.deep_view(),
            error_message: self.error_message.deep_view(),
            error_app_tag: self.error_app_tag.deep_view(),
            description: self.description.deep_view(),
            reference: self.reference.deep_view(),
        }
    }
}

impl DeepView for Pattern {
    type V = PatternView;

    open spec fn deep_view(&self) -> PatternView {
        self@
    }
}

impl Clone for Pattern {
    fn clone(&self) -> (res: Self)
        ensures
            res@ == self@,
    {
        let res = Pattern {
            value: self.value.clone(),
            modifier: self.modifier.clone(),
            error_message: self.error_message.clone(),
            error_app_tag: self.error_app_tag.clone(),
            description: self.description.clone(),
            reference: self.reference.clone(),
        };
        res
    }
}

/// One `enum` of an enumeration type.
#[derive(Debug, Default, PartialEq, Eq)]
pub struct EnumValue {
    pub name: String,
    pub if_features: Vec<String>,
    pub value: Option<i64>,
    pub status: Option<Status>,
    pub description: Option<String>,
    pub reference: Option<String>,
}

/// What a [`EnumValue`] holds, as a mathematical value.
pub ghost struct EnumValueView {
    pub name: Seq<char>,
    pub if_features: Seq<Seq<char>>,
    pub value: Option<i64>,
    pub status: Option<Status>,
    pub description: Option<Seq<char>>,
    pub reference: Option<Seq<char>>,
}

impl View for EnumValue {
    type V = EnumValueView;

    open spec fn view(&self) -> EnumValueView {
        EnumValueView {
            name: self.name@,
            if_features: self.if_features.deep_view(),
            value: self.value,
            status: self.status,
            description: self.description.deep_view(),
            reference: self.reference.deep_view(),
        }
    }
}

impl DeepView for EnumValue {
    type V = EnumValueView;

    open spec fn deep_view(&self) -> EnumValueView {
        self@
    }
}

impl Clone for EnumValue {
    fn clone(&self) -> (res: Self)
        ensures
            res@ == self@,
    {
        let res = EnumValue {
            name: self.name.clone(),
            if_features: self.if_features.clone(),
            value: self.value,
            status: self.status,
            description: self.description.clone(),
            reference: self.reference.clone(),
        };
        proof {
            assert(res.if_features.deep_view() =~= self.if_features.deep_view());
        }
        res
    }
}

/// One `bit` of a bits type.
#[derive(Debug, Default, PartialEq, Eq)]
pub struct Bit {
    pub name: String,
    pub if_features: Vec<String>,
    pub position: Option<i64>,
    pub status: Option<Status>,
    pub description: Option<String>,
    pub reference: Option<String>,
}

/// What a [`Bit`] holds, as a mathematical value.
pub ghost struct BitView {
    pub name: Seq<char>,
    pub if_features: Seq<Seq<char>>,
    pub position: Option<i64>,
    pub status: Option<Status>,
    pub description: Option<Seq<char>>,
    pub reference: Option<Seq<char>>,
}

impl View for Bit {
    type V = BitView;

    open spec fn view(&self) -> BitView {
        BitView {
            name: self.name@,
            if_features: self.if_features.deep_view(),
            position: self.position,
            status: self.status,
            description: self.description.deep_view(),
            reference: self.reference.deep_view(),
        }
    }
}

impl DeepView for Bit {
    type V = BitView;

    open spec fn deep_view(&self) -> BitView {
        self@
    }
}

impl Clone for Bit {
    fn clone(&self) -> (res: Self)
        ensures
            res@ == self@,
    {
        let res = Bit {
            name: self.name.clone(),
            if_features: self.if_features.clone(),
            position: self.position,
            status: self.status,
            description: self.description.clone(),
            reference: self.reference.clone(),
        };
        proof {
            assert(res.if_features.deep_view() =~= self.if_features.deep_view());
        }
        res
    }
}

/// A `type` statement: the type name and, where given, its restrictions.
#[derive(Debug, Default, PartialEq, Eq)]
pub struct TypeInfo {
    pub name: String,
    pub type_body: Option<TypeBody>,
}

/// What a [`TypeInfo`] holds, as a mathematical value.
pub ghost struct TypeInfoView {
    pub name: Seq<char>,
    pub type_body: Option<TypeBodyView>,
}

impl View for TypeInfo {
    type V = TypeInfoView;

    open spec fn view(&self) -> TypeInfoView
        decreases self, 0nat,
    {
        TypeInfoView {
            name: self.name@,
            type_body: match self.type_body {
                Some(x) => Some(x@),
                None => None,
            },
        }
    }
}

impl DeepView for TypeInfo {
    type V = TypeInfoView;

    open spec fn deep_view(&self) -> TypeInfoView {
        self@
    }
}

impl Clone for TypeInfo {
    fn clone(&self) -> (res: Self)
        ensures
            res@ == self@,
        decreases self,
    {
        let res = TypeInfo {
            name: self.name.clone(),
            type_body: match &self.type_body {
                Some(x) => Some(x.clone()),
                None => None,
            },
        };
        res
    }
}

/// The restrictions that a `type` statement carries.
#[allow(inconsistent_fields)]
#[derive(Debug, PartialEq, Eq)]
pub enum TypeBody {
    Numerical { range: Range },
    Decimal64 { fraction_digits: String, range: Option<Range> },
    String { length: Option<Length>, patterns: Vec<Pattern> },
    Enum { enums: Vec<EnumValue> },
    Leafref { path: String, require_instance: Option<bool> },
    Identityref { bases: Vec<String> },
    InstanceIdentifier { require_instance: bool },
    Bits { bits: Vec<Bit> },
    Union { types: Vec<TypeInfo> },
    Binary { length: Option<Length> },
}

/// What a [`TypeBody`] holds, as a mathematical value.
#[allow(inconsistent_fields)]
pub ghost enum TypeBodyView {
    Numerical { range: RangeView },
    Decimal64 { fraction_digits: Seq<char>, range: Option<RangeView> },
    String { length: Option<LengthView>, patterns: Seq<PatternView> },
    Enum { enums: Seq<EnumValueView> },
    Leafref { path: Seq<char>, require_instance: Option<bool> },
    Identityref { bases: Seq<Seq<char>> },
    InstanceIdentifier { require_instance: bool },
    Bits { bits: Seq<BitView> },
    Union { types: Seq<TypeInfoView> },
    Binary { length: Option<LengthView> },
}

impl View for TypeBody {
    type V = TypeBodyView;

    open spec fn view(&self) -> TypeBodyView
        decreases self, 0nat,
    {
        match self {
            TypeBody::Numerical { range } => TypeBodyView::Numerical {
                range: range@,
            },
            TypeBody::Decimal64 { fraction_digits, range } => TypeBodyView::Decimal64 {
                fraction_digits: fraction_digits@,
                range: range.deep_view(),
            },
            TypeBody::String { length, patterns } => TypeBodyView::String {
                length: length.deep_view(),
                patterns: patterns.deep_view(),
            },
            TypeBody::Enum { enums } => TypeBodyView::Enum {
                enums: enums.deep_view(),
            },
            TypeBody::Leafref { path, require_instance } => TypeBodyView::Leafref {
                path: path@,
                require_instance: *require_instance,
            },
            TypeBody::Identityref { bases } => TypeBodyView::Identityref {
                bases: bases.deep_view(),
            },
            TypeBody::InstanceIdentifier { require_instance } => TypeBodyView::InstanceIdentifier {
                require_instance: *require_instance,
            },
            TypeBody::Bits { bits } => TypeBodyView::Bits {
                bits: bits.deep_view(),
            },
            TypeBody::Union { types } => TypeBodyView::Union {
                types: type_infos_view(types@),
            },
            TypeBody::Binary { length } => TypeBodyView::Binary {
                length: length.deep_view(),
            },
        }
    }
}

impl DeepView for TypeBody {
    type V = TypeBodyView;

    open spec fn deep_view(&self) -> TypeBodyView {
        self@
    }
}

impl Clone for TypeBody {
    fn clone(&self) -> (res: Self)
        ensures
            res@ == self@,
        decreases self,
    {
        match self {
            TypeBody::Numerical { range } => {
                let range_copy = range.clone();
                TypeBody::Numerical { range: range_copy }
            },
            TypeBody::Decimal64 { fraction_digits, range } => {
                let fraction_digits_copy = fraction_digits.clone();
                let range_copy = range.clone();
                TypeBody::Decimal64 { fraction_digits: fraction_digits_copy, range: range_copy }
            },
            TypeBody::String { length, patterns } => {
                let length_copy = length.clone();
                let patterns_copy = patterns.clone();
                proof {
                    assert(patterns_copy.deep_view() =~= patterns.deep_view());
                }
                TypeBody::String { length: length_copy, patterns: patterns_copy }
            },
            TypeBody::Enum { enums } => {
                let enums_copy = enums.clone();
                proof {
                    assert(enums_copy.deep_view() =~= enums.deep_view());
                }
                TypeBody::Enum { enums: enums_copy }
            },
            TypeBody::Leafref { path, require_instance } => {
                let path_copy = path.clone();
                let require_instance_copy = *require_instance;
                TypeBody::Leafref { path: path_copy, require_instance: require_instance_copy }
            },
            TypeBody::Identityref { bases } => {
                let bases_copy = bases.clone();
                proof {
                    assert(bases_copy.deep_view() =~= bases.deep_view());
                }
                TypeBody::Identityref { bases: bases_copy }
            },
            TypeBody::InstanceIdentifier { require_instance } => {
                let require_instance_copy = *require_instance;
                TypeBody::InstanceIdentifier { require_instance: require_instance_copy }
            },
            TypeBody::Bits { bits } => {
                let bits_copy = bits.clone();
                proof {
                    assert(bits_copy.deep_view() =~= bits.deep_view());
                }
                TypeBody::Bits { bits: bits_copy }
            },
            TypeBody::Union { types } => {
                let types_copy = clone_type_infos(types);
                TypeBody::Union { types: types_copy }
            },
            TypeBody::Binary { length } => {
                let length_copy = length.clone();
                TypeBody::Binary { length: length_copy }
            },
        }
    }
}

/// A `typedef` statement.
#[derive(Debug, Default, PartialEq, Eq)]
pub struct TypeDef {
    pub name: String,
    pub type_info: TypeInfo,
    pub units: Option<String>,
    pub default: Option<String>,
    pub status: Option<Status>,
    pub description: Option<String>,
    pub reference: Option<String>,
}

/// What a [`TypeDef`] holds, as a mathematical value.
pub ghost struct TypeDefView {
    pub name: Seq<char>,
    pub type_info: TypeInfoView,
    pub units: Option<Seq<char>>,
    pub default: Option<Seq<char>>,
    pub status: Option<Status>,
    pub description: Option<Seq<char>>,
    pub reference: Option<Seq<char>>,
}

impl View for TypeDef {
    type V = TypeDefView;

    open spec fn view(&self) -> TypeDefView {
        TypeDefView {
            name: self.name@,
            type_info: self.type_info@,
            units: self.units.deep_view(),
            default: self.default.deep_view(),
            status: self.status,
            description: self.description.deep_view(),
            reference: self.reference.deep_view(),
        }
    }
}

impl DeepView for TypeDef {
    type V = TypeDefView;

    open spec fn deep_view(&self) -> TypeDefView {
        self@
    }
}

impl Clone for TypeDef {
    fn clone(&self) -> (res: Self)
        ensures
            res@ == self@,
    {
        let res = TypeDef {
            name: self.name.clone(),
            type_info: self.type_info.clone(),
            units: self.units.clone(),
            default: self.default.clone(),
            status: self.status,
            description: self.description.clone(),
            reference: self.reference.clone(),
        };
        res
    }
}

} // verus!
