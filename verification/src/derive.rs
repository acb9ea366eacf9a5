//! The schema that deriving `AsSchema` gives a type, from the shape of the
//! type and the schema attributes of the type and of its items, as read.
use vstd::prelude::*;
use crate::attr::{
    prepare_rename_all, rename_item, required_flag, is_required, type_and_format,
    type_format_spec, compatible, Format, RenameAll, Type, Value,
};
use crate::case::{field_renamable, field_renamed, try_rename_all, try_rename_all_variants, variant_renamable, variant_renamed, Case};
use crate::content::opt_str;
use crate::text::{push_str, str_eq};

verus! {

/// The schema attributes of an item (a field, a variant or a tuple field).
#[derive(Debug)]
pub struct Attr {
    /// Description of the item.
    pub description: Option<String>,
    /// Format, as spelled.
    pub format: Option<String>,
    /// Type, as spelled.
    pub type_: Option<String>,
    /// Path of a function that gives the item's schema.
    pub as_schema: Option<String>,
    /// Path of a generic function that gives the item's schema.
    pub as_schema_generic: Option<String>,
    /// Name the item gets.
    pub rename: Option<String>,
    /// Whether the item is required.
    pub required: Option<bool>,
    /// Minimum number of elements.
    pub min_items: Option<i64>,
    /// Maximum number of elements.
    pub max_items: Option<i64>,
    /// Whether the item may be null.
    pub nullable: Option<bool>,
    /// Whether the item is left out.
    pub skip: Option<bool>,
}

/// The schema attributes of the type itself.
#[derive(Debug)]
pub struct TopAttr {
    /// Description of the type.
    pub description: Option<String>,
    /// Naming convention of the items.
    pub rename_all: Option<Case>,
    /// Path of a function that renames the items.
    pub rename_all_with: Option<String>,
    /// Path of the crate that holds `AsSchema`.
    pub crate_path: Option<String>,
    /// Whether the type may be null.
    pub nullable: Option<bool>,
    /// Whether serde attributes are ignored.
    pub ignore_serde: Option<bool>,
}

impl Attr {
    /// No attribute set.
    pub fn new() -> (r: Attr)
        ensures
            r.description is None && r.format is None && r.type_ is None && r.as_schema is None,
            r.as_schema_generic is None && r.rename is None && r.required is None,
            r.min_items is None && r.max_items is None && r.nullable is None && r.skip is None,
    {
        Attr {
            description: None,
            format: None,
            type_: None,
            as_schema: None,
            as_schema_generic: None,
            rename: None,
            required: None,
            min_items: None,
            max_items: None,
            nullable: None,
            skip: None,
        }
    }
}

impl TopAttr {
    /// No attribute set.
    pub fn new() -> (r: TopAttr)
        ensures
            r.description is None && r.rename_all is None && r.rename_all_with is None,
            r.crate_path is None && r.nullable is None && r.ignore_serde is None,
    {
        TopAttr {
            description: None,
            rename_all: None,
            rename_all_with: None,
            crate_path: None,
            nullable: None,
            ignore_serde: None,
        }
    }
}

/// Where the schema of an item comes from when its type is not given.
#[derive(Debug, PartialEq, Eq)]
pub enum BaseSchema {
    /// The schema of the item's type (its spelling).
    Type(String),
    /// The function at the path.
    AsSchema(String),
    /// The generic function at the path, for the item's type.
    AsSchemaGeneric(String, String),
    /// The default schema.
    Empty,
}

/// The schema a derivation produces.
#[derive(Debug, PartialEq, Eq)]
pub struct DerivedSchema {
    pub type_: Option<Type>,
    pub format: Option<Format>,
    pub description: Option<String>,
    pub nullable: Option<bool>,
    pub max_items: Option<i64>,
    pub min_items: Option<i64>,
    pub enum_: Vec<Value>,
    pub items: Option<Box<DerivedSchema>>,
    /// Properties by name; an item whose name was used before replaces it.
    pub properties: Vec<(Value, DerivedSchema)>,
    pub required: Vec<Value>,
    pub base: BaseSchema,
}

/// A name, as values.
pub enum ValueV {
    Raw(Seq<char>),
    ReCompute(Seq<char>, Seq<char>),
}

/// Where a schema comes from, as values.
pub enum BaseV {
    Type(Seq<char>),
    AsSchema(Seq<char>),
    AsSchemaGeneric(Seq<char>, Seq<char>),
    Empty,
}

/// A derived schema, as values.
pub struct DerivedV {
    pub type_: Option<Type>,
    pub format: Option<Format>,
    pub description: Option<Seq<char>>,
    pub nullable: Option<bool>,
    pub max_items: Option<i64>,
    pub min_items: Option<i64>,
    pub enum_: Seq<ValueV>,
    pub items: Option<Box<DerivedV>>,
    pub properties: Seq<(ValueV, DerivedV)>,
    pub required: Seq<ValueV>,
    pub base: BaseV,
}

/// The view of a name.
pub open spec fn value_view(v: Value) -> ValueV {
    match v {
        Value::Raw(s) => ValueV::Raw(s@),
        Value::ReCompute(p, s) => ValueV::ReCompute(p@, s@),
    }
}

/// The views of a list of names.
pub open spec fn values_view(vs: Seq<Value>) -> Seq<ValueV> {
    vs.map_values(|v: Value| value_view(v))
}

/// The view of where a schema comes from.
pub open spec fn base_view(b: BaseSchema) -> BaseV {
    match b {
        BaseSchema::Type(t) => BaseV::Type(t@),
        BaseSchema::AsSchema(p) => BaseV::AsSchema(p@),
        BaseSchema::AsSchemaGeneric(p, t) => BaseV::AsSchemaGeneric(p@, t@),
        BaseSchema::Empty => BaseV::Empty,
    }
}

/// The view of a derived schema.
pub open spec fn derived_view(s: DerivedSchema) -> DerivedV
    decreases s, 0nat,
{
    DerivedV {
        type_: s.type_,
        format: s.format,
        description: opt_str(s.description),
        nullable: s.nullable,
        max_items: s.max_items,
        min_items: s.min_items,
        enum_: values_view(s.enum_@),
        items: match s.items {
            Some(b) => Some(Box::new(derived_view(*b))),
            None => None,
        },
        properties: derived_props_view(s.properties@),
        required: values_view(s.required@),
        base: base_view(s.base),
    }
}

/// The view of a list of properties.
pub open spec fn derived_props_view(ps: Seq<(Value, DerivedSchema)>) -> Seq<(ValueV, DerivedV)>
    decreases ps, 1nat,
{
    if ps.len() == 0 {
        seq![]
    } else {
        derived_props_view(ps.drop_last()).push((value_view(ps.last().0), derived_view(ps.last().1)))
    }
}

/// The schema with nothing set.
pub open spec fn empty_derived() -> DerivedV {
    DerivedV {
        type_: None,
        format: None,
        description: None,
        nullable: None,
        max_items: None,
        min_items: None,
        enum_: seq![],
        items: None,
        properties: seq![],
        required: seq![],
        base: BaseV::Empty,
    }
}

/// A schema with nothing set.
pub fn empty_schema() -> (r: DerivedSchema)
    ensures
        derived_view(r) == empty_derived(),
{
    let r = DerivedSchema {
        type_: None,
        format: None,
        description: None,
        nullable: None,
        max_items: None,
        min_items: None,
        enum_: Vec::new(),
        items: None,
        properties: Vec::new(),
        required: Vec::new(),
        base: BaseSchema::Empty,
    };
    assert(values_view(r.enum_@) =~= Seq::<ValueV>::empty());
    assert(values_view(r.required@) =~= Seq::<ValueV>::empty());
    assert(derived_props_view(r.properties@) == Seq::<(ValueV, DerivedV)>::empty());
    r
}

/// A copy of an optional string.
fn copy_opt(o: &Option<String>) -> (r: Option<String>)
    ensures
        opt_str(r) == opt_str(*o),
{
    match o {
        Some(s) => Some(s.clone()),
        None => None,
    }
}

/// The schema of an item of type `ty` (as spelled) with attributes `attr`:
/// a given type (with its format, which must go with it) and the item's
/// description, nullability and bounds; or else those four over the schema
/// of the given function, or of the item's type.
pub open spec fn item_schema_spec(
    description: Option<Seq<char>>,
    format: Option<Seq<char>>,
    type_: Option<Seq<char>>,
    as_schema: Option<Seq<char>>,
    as_schema_generic: Option<Seq<char>>,
    nullable: Option<bool>,
    max_items: Option<i64>,
    min_items: Option<i64>,
    ty: Seq<char>,
) -> Result<DerivedV, Seq<char>> {
    let common = DerivedV { description, nullable, max_items, min_items, ..empty_derived() };
    match type_ {
        Some(t) => match type_format_spec(t, format) {
            Ok((t, f)) => Ok(DerivedV { type_: Some(t), format: Some(f), ..common }),
            Err(m) => Err(m),
        },
        None => Ok(DerivedV {
            base: match as_schema {
                Some(p) => BaseV::AsSchema(p),
                None => match as_schema_generic {
                    Some(p) => BaseV::AsSchemaGeneric(p, ty),
                    None => BaseV::Type(ty),
                },
            },
            ..common
        }),
    }
}

/// The schema of an item as [`item_schema_spec`] gives it, from the
/// attributes themselves.
pub open spec fn attr_item_schema(attr: Attr, ty: Seq<char>) -> Result<DerivedV, Seq<char>> {
    item_schema_spec(
        opt_str(attr.description),
        opt_str(attr.format),
        opt_str(attr.type_),
        opt_str(attr.as_schema),
        opt_str(attr.as_schema_generic),
        attr.nullable,
        attr.max_items,
        attr.min_items,
        ty,
    )
}

/// The view of a derivation's result.
pub open spec fn result_view(r: Result<DerivedSchema, String>) -> Result<DerivedV, Seq<char>> {
    match r {
        Ok(s) => Ok(derived_view(s)),
        Err(m) => Err(m@),
    }
}

/// The schema of an item of type `ty` with attributes `attr`.
///
/// # Errors
/// The message of [`type_and_format`] when a given type or format is refused.
pub fn generate_item_schema(attr: &Attr, ty: &str) -> (r: Result<DerivedSchema, String>)
    ensures
        result_view(r) == attr_item_schema(*attr, ty@),
        r matches Ok(s) ==> s.min_items == attr.min_items && s.max_items == attr.max_items
            && s.nullable == attr.nullable,
        attr.type_ is None ==> r is Ok,
{
    let mut s = empty_schema();
    s.description = copy_opt(&attr.description);
    s.nullable = attr.nullable;
    s.max_items = attr.max_items;
    s.min_items = attr.min_items;
    match &attr.type_ {
        Some(t) => {
            let format = match &attr.format {
                Some(f) => Some(f.as_str()),
                None => None,
            };
            match type_and_format(t.as_str(), format) {
                Ok((t, f)) => {
                    s.type_ = Some(t);
                    s.format = Some(f);
                    Ok(s)
                },
                Err(m) => Err(m),
            }
        },
        None => {
            s.base = match &attr.as_schema {
                Some(p) => BaseSchema::AsSchema(p.clone()),
                None => match &attr.as_schema_generic {
                    Some(p) => BaseSchema::AsSchemaGeneric(p.clone(), ty.to_owned()),
                    None => BaseSchema::Type(ty.to_owned()),
                },
            };
            Ok(s)
        },
    }
}

/// The schema derived for an item carries the item's own bounds (its
/// `min_items` as minimum, its `max_items` as maximum), nullability and
/// description. Without a given type it is always derived, with no type or
/// format of its own, and stands for the schema that `as_schema` names, or
/// else that `as_schema_generic` gives the item's type, or else the item's
/// type's own.
pub proof fn item_schema_carries_attributes(attr: Attr, ty: Seq<char>)
    ensures
        attr_item_schema(attr, ty) matches Ok(d) ==> {
            &&& d.min_items == attr.min_items
            &&& d.max_items == attr.max_items
            &&& d.nullable == attr.nullable
            &&& d.description == opt_str(attr.description)
        },
        attr.type_ is None ==> (attr_item_schema(attr, ty) matches Ok(d) && {
            &&& d.type_ is None
            &&& d.format is None
            &&& d.base == match attr.as_schema {
                Some(p) => BaseV::AsSchema(p@),
                None => match attr.as_schema_generic {
                    Some(g) => BaseV::AsSchemaGeneric(g@, ty),
                    None => BaseV::Type(ty),
                },
            }
        }),
{
}

/// The schema of a unit struct: an object with the type's description and
/// nullability.
pub open spec fn unit_struct_spec(description: Option<Seq<char>>, nullable: Option<bool>) -> DerivedV {
    DerivedV { type_: Some(Type::Object), description, nullable, ..empty_derived() }
}

/// The schema of a unit struct.
pub fn unit_struct(top: &TopAttr) -> (r: DerivedSchema)
    ensures
        derived_view(r) == unit_struct_spec(opt_str(top.description), top.nullable),
{
    let mut s = empty_schema();
    s.type_ = Some(Type::Object);
    s.description = copy_opt(&top.description);
    s.nullable = top.nullable;
    s
}


/// A field of a tuple struct: its type, as spelled, its attributes (read
/// for a tuple field), and whether it carries any `schema` attribute.
#[derive(Debug)]
pub struct TupleField {
    pub ty: String,
    pub attr: Attr,
    pub has_schema_attr: bool,
}

/// Whether all the fields have the same type, as spelled.
pub open spec fn same_types(fields: Seq<TupleField>) -> bool {
    forall|i: int| 0 <= i < fields.len() ==> #[trigger] fields[i].ty@ == fields[0].ty@
}

/// The message for attributes on the fields of a tuple struct whose fields
/// differ in type.
pub open spec fn tuple_attrs_message() -> Seq<char> {
    "Consider deriving with AsSchemaWithSerde for more control. AsSchema derivation represents tuple structs as an array of unspecified items which doens't support attributes."@
}

/// The schema of a tuple struct. One field stands for the whole struct, with
/// the struct's description and nullability where the field sets none. More
/// fields make an array of exactly that many items: of the fields' type when
/// they all have one type, else of unspecified items, in which case no field
/// may carry a schema attribute.
pub open spec fn tuple_struct_spec(description: Option<Seq<char>>, nullable: Option<bool>, fields: Seq<TupleField>) -> Result<DerivedV, Seq<char>> {
    if fields.len() == 1 {
        let a = fields[0].attr;
        item_schema_spec(
            match opt_str(a.description) {
                Some(d) => Some(d),
                None => description,
            },
            opt_str(a.format),
            opt_str(a.type_),
            opt_str(a.as_schema),
            opt_str(a.as_schema_generic),
            match a.nullable {
                Some(n) => Some(n),
                None => nullable,
            },
            a.max_items,
            a.min_items,
            fields[0].ty@,
        )
    } else {
        let item = if fields.len() > 0 && same_types(fields) {
            item_schema_spec(None, None, None, None, None, None, None, None, fields[0].ty@)
        } else if exists|i: int| 0 <= i < fields.len() && (#[trigger] fields[i]).has_schema_attr {
            Err(tuple_attrs_message())
        } else {
            Ok(DerivedV { type_: Some(Type::Unspecified), ..empty_derived() })
        };
        match item {
            Ok(i) => Ok(DerivedV {
                type_: Some(Type::Array),
                description,
                max_items: Some(fields.len() as i64),
                min_items: Some(fields.len() as i64),
                items: Some(Box::new(i)),
                ..empty_derived()
            }),
            Err(m) => Err(m),
        }
    }
}

/// The schema of a tuple struct.
///
/// # Errors
/// That of [`generate_item_schema`]; or, for fields of different types, the
/// message that advises another derivation when a field carries a schema
/// attribute.
pub fn tuple_struct(top: &TopAttr, fields: &Vec<TupleField>) -> (r: Result<DerivedSchema, String>)
    requires
        fields@.len() <= i64::MAX,
    ensures
        result_view(r) == tuple_struct_spec(opt_str(top.description), top.nullable, fields@),
{
    let n = fields.len();
    if n == 1 {
        let f = &fields[0];
        let attr = Attr {
            description: match &f.attr.description {
                Some(d) => Some(d.clone()),
                None => copy_opt(&top.description),
            },
            format: copy_opt(&f.attr.format),
            type_: copy_opt(&f.attr.type_),
            as_schema: copy_opt(&f.attr.as_schema),
            as_schema_generic: copy_opt(&f.attr.as_schema_generic),
            rename: None,
            required: None,
            min_items: f.attr.min_items,
            max_items: f.attr.max_items,
            nullable: match f.attr.nullable {
                Some(x) => Some(x),
                None => top.nullable,
            },
            skip: None,
        };
        return generate_item_schema(&attr, f.ty.as_str());
    }
    let mut same = n > 0;
    let mut i: usize = 1;
    while i < n
        invariant_except_break
            same == (n > 0),
            same ==> forall|k: int| 0 <= k < i ==> #[trigger] fields@[k].ty@ == fields@[0].ty@,
        invariant
            1 <= i <= n || n == 0,
            n == fields@.len(),
            same ==> n > 0,
        ensures
            same <==> (n > 0 && same_types(fields@)),
        decreases n - i,
    {
        if !str_eq(fields[i].ty.as_str(), fields[0].ty.as_str()) {
            assert(!same_types(fields@)) by {
                assert(fields@[i as int].ty@ != fields@[0].ty@);
            }
            same = false;
            break;
        }
        i = i + 1;
    }
    let item = if same {
        generate_item_schema(&Attr::new(), fields[0].ty.as_str())
    } else {
        let mut k: usize = 0;
        let mut found = false;
        while k < n
            invariant
                k <= n,
                n == fields@.len(),
                found <==> exists|j: int| 0 <= j < k && (#[trigger] fields@[j]).has_schema_attr,
            decreases n - k,
        {
            if fields[k].has_schema_attr {
                found = true;
            }
            k = k + 1;
        }
        if found {
            Err("Consider deriving with AsSchemaWithSerde for more control. AsSchema derivation represents tuple structs as an array of unspecified items which doens't support attributes.".to_owned())
        } else {
            let mut u = empty_schema();
            u.type_ = Some(Type::Unspecified);
            Ok(u)
        }
    };
    match item {
        Ok(it) => {
            let mut s = empty_schema();
            s.type_ = Some(Type::Array);
            s.description = copy_opt(&top.description);
            s.max_items = Some(n as i64);
            s.min_items = Some(n as i64);
            s.items = Some(Box::new(it));
            Ok(s)
        },
        Err(m) => Err(m),
    }
}


/// How items are renamed, as values.
pub enum RenameV {
    Fields(Case),
    Variants(Case),
    With(Seq<char>),
}

/// The view of how items are renamed.
pub open spec fn rename_view(ra: Option<RenameAll>) -> Option<RenameV> {
    match ra {
        Some(RenameAll::Fields(c)) => Some(RenameV::Fields(c)),
        Some(RenameAll::Variants(c)) => Some(RenameV::Variants(c)),
        Some(RenameAll::With(p)) => Some(RenameV::With(p@)),
        None => None,
    }
}

/// How a type renames its items: by its convention (of variants for an
/// enum) or its function, not both.
pub open spec fn rename_spec(rename_all: Option<Case>, rename_all_with: Option<Seq<char>>, is_enum: bool) -> Result<Option<RenameV>, Seq<char>> {
    match (rename_all, rename_all_with) {
        (Some(_), Some(_)) => Err(crate::attr::both_renames_message()),
        (Some(c), None) => Ok(Some(if is_enum { RenameV::Variants(c) } else { RenameV::Fields(c) })),
        (None, Some(p)) => Ok(Some(RenameV::With(p))),
        (None, None) => Ok(None),
    }
}

/// Whether a name can be renamed as `ra` says.
pub open spec fn renamable_as(ra: Option<RenameV>, name: Seq<char>) -> bool {
    match ra {
        Some(RenameV::Fields(c)) => field_renamable(c, name),
        Some(RenameV::Variants(c)) => variant_renamable(c, name),
        _ => true,
    }
}

/// The name an item gets: its own, else as `ra` renames it.
pub open spec fn renamed_value(ra: Option<RenameV>, name: Seq<char>, rename: Option<Seq<char>>) -> ValueV {
    match rename {
        Some(n) => ValueV::Raw(n),
        None => match ra {
            Some(RenameV::Fields(c)) => ValueV::Raw(field_renamed(c, name)),
            Some(RenameV::Variants(c)) => ValueV::Raw(variant_renamed(c, name)),
            Some(RenameV::With(p)) => ValueV::ReCompute(p, name),
            None => ValueV::Raw(name),
        },
    }
}

/// Where the property called `k` is, if there is one.
pub open spec fn position_of(ps: Seq<(ValueV, DerivedV)>, k: ValueV) -> Option<int>
    decreases ps.len(),
{
    if ps.len() == 0 {
        None
    } else if ps.last().0 == k {
        Some(ps.len() - 1)
    } else {
        position_of(ps.drop_last(), k)
    }
}

/// The properties with `k` set to `v`: an existing entry is replaced in
/// place, or a new one added at the end.
pub open spec fn put_property(ps: Seq<(ValueV, DerivedV)>, k: ValueV, v: DerivedV) -> Seq<(ValueV, DerivedV)> {
    match position_of(ps, k) {
        Some(i) => ps.update(i, (k, v)),
        None => ps.push((k, v)),
    }
}

proof fn lemma_position_of(ps: Seq<(ValueV, DerivedV)>, k: ValueV)
    ensures
        position_of(ps, k) matches Some(i) ==> 0 <= i < ps.len() && ps[i].0 == k,
        position_of(ps, k) is None ==> forall|j: int| 0 <= j < ps.len() ==> #[trigger] ps[j].0 != k,
    decreases ps.len(),
{
    if ps.len() > 0 {
        lemma_position_of(ps.drop_last(), k);
        if ps.last().0 != k {
            assert forall|j: int| 0 <= j < ps.len() - 1 implies #[trigger] ps[j].0 == ps.drop_last()[j].0 by {}
        }
    }
}

/// The view of a property list has one entry per property, in order.
proof fn lemma_derived_props_index(ps: Seq<(Value, DerivedSchema)>)
    ensures
        derived_props_view(ps).len() == ps.len(),
        forall|j: int| 0 <= j < ps.len() ==> #[trigger] derived_props_view(ps)[j]
            == (value_view(ps[j].0), derived_view(ps[j].1)),
    decreases ps.len(),
{
    if ps.len() > 0 {
        lemma_derived_props_index(ps.drop_last());
        assert forall|j: int| 0 <= j < ps.len() implies #[trigger] derived_props_view(ps)[j]
            == (value_view(ps[j].0), derived_view(ps[j].1)) by {
            if j < ps.len() - 1 {
                assert(ps.drop_last()[j] == ps[j]);
            }
        }
    }
}

/// Whether two names are the same.
fn value_eq(a: &Value, b: &Value) -> (r: bool)
    ensures
        r == (value_view(*a) == value_view(*b)),
{
    match (a, b) {
        (Value::Raw(x), Value::Raw(y)) => str_eq(x.as_str(), y.as_str()),
        (Value::ReCompute(p, x), Value::ReCompute(q, y)) => str_eq(p.as_str(), q.as_str()) && str_eq(x.as_str(), y.as_str()),
        _ => false,
    }
}

/// Sets property `k` to `v`, replacing one of the same name.
fn put(ps: &mut Vec<(Value, DerivedSchema)>, k: Value, v: DerivedSchema)
    ensures
        derived_props_view(final(ps)@) == put_property(derived_props_view(old(ps)@), value_view(k), derived_view(v)),
{
    let ghost before = ps@;
    proof {
        lemma_derived_props_index(before);
    }
    let mut i: usize = ps.len();
    assert(derived_props_view(before).take(before.len() as int) =~= derived_props_view(before));
    while i > 0
        invariant
            i <= ps@.len(),
            ps@ == before,
            before == old(ps)@,
            derived_props_view(before).len() == before.len(),
            position_of(derived_props_view(before), value_view(k))
                == position_of(derived_props_view(before).take(i as int), value_view(k)),
        decreases i,
    {
        let ghost pv = derived_props_view(before);
        assert(pv.take(i as int).drop_last() =~= pv.take(i - 1));
        assert(pv.take(i as int).last() == pv[i - 1]);
        proof {
            lemma_derived_props_index(before);
        }
        if value_eq(&ps[i - 1].0, &k) {
            let ghost kv = value_view(k);
            let ghost vv = derived_view(v);
            ps.set(i - 1, (k, v));
            proof {
                lemma_derived_props_index(ps@);
                assert(derived_props_view(ps@) =~= pv.update(i - 1, (kv, vv)));
                assert(position_of(pv.take(i as int), kv) == Some(i - 1));
            }
            return;
        }
        i = i - 1;
    }
    proof {
        let pv = derived_props_view(before);
        assert(pv.take(0) =~= Seq::<(ValueV, DerivedV)>::empty());
    }
    ps.push((k, v));
    assert(ps@.drop_last() =~= before);
}

/// A field of a struct with named fields: its name, its type as spelled,
/// and its attributes.
#[derive(Debug)]
pub struct NamedField {
    pub name: String,
    pub ty: String,
    pub attr: Attr,
}

/// Whether a field is left out.
pub open spec fn skipped(a: Attr) -> bool {
    a.skip == Some(true)
}

/// The properties and required names of the first fields, or the first
/// error.
pub open spec fn fields_fold(ra: Option<RenameV>, fields: Seq<NamedField>) -> Result<(Seq<(ValueV, DerivedV)>, Seq<ValueV>), Seq<char>>
    decreases fields.len(),
{
    if fields.len() == 0 {
        Ok((seq![], seq![]))
    } else {
        match fields_fold(ra, fields.drop_last()) {
            Err(m) => Err(m),
            Ok((ps, req)) => {
                let f = fields.last();
                if skipped(f.attr) {
                    Ok((ps, req))
                } else {
                    let name = renamed_value(ra, f.name@, opt_str(f.attr.rename));
                    let req2 = if is_required(f.attr.nullable, f.attr.required) { req.push(name) } else { req };
                    match attr_item_schema(f.attr, f.ty@) {
                        Err(m) => Err(m),
                        Ok(s) => Ok((put_property(ps, name, s), req2)),
                    }
                }
            },
        }
    }
}

/// Once the fold over a prefix of the fields fails, the fold over all of
/// them fails the same way.
proof fn lemma_fields_fold_err(ra: Option<RenameV>, fields: Seq<NamedField>, k: int)
    requires
        0 <= k <= fields.len(),
        fields_fold(ra, fields.take(k)) is Err,
    ensures
        fields_fold(ra, fields) == fields_fold(ra, fields.take(k)),
    decreases fields.len() - k,
{
    if k == fields.len() {
        assert(fields.take(k) =~= fields);
    } else {
        assert(fields.take(k + 1).drop_last() =~= fields.take(k));
        lemma_fields_fold_err(ra, fields, k + 1);
    }
}

/// Whether every field that is not skipped and sets no name can be renamed.
pub open spec fn fields_renamable(ra: Option<RenameV>, fields: Seq<NamedField>) -> bool {
    forall|i: int| 0 <= i < fields.len() && !skipped(#[trigger] fields[i].attr) && fields[i].attr.rename is None
        ==> renamable_as(ra, fields[i].name@)
}

/// The schema of a struct with named fields: an object with the type's
/// description and nullability, a property per field that is not skipped,
/// under its name (renamed as the type says, unless it sets its own), and
/// the required ones listed.
pub open spec fn named_struct_spec(rename_all: Option<Case>, rename_all_with: Option<Seq<char>>, description: Option<Seq<char>>, nullable: Option<bool>, fields: Seq<NamedField>) -> Result<DerivedV, Seq<char>> {
    match rename_spec(rename_all, rename_all_with, false) {
        Err(m) => Err(m),
        Ok(ra) => match fields_fold(ra, fields) {
            Err(m) => Err(m),
            Ok((ps, req)) => Ok(DerivedV {
                type_: Some(Type::Object),
                description,
                nullable,
                properties: ps,
                required: req,
                ..empty_derived()
            }),
        },
    }
}

/// The renaming a type asks for, as values, from what was prepared.
proof fn lemma_rename_view(rename_all: Option<Case>, rename_all_with: Option<Seq<char>>, is_enum: bool, r: Result<Option<RenameAll>, String>)
    requires
        match (rename_all, rename_all_with) {
            (Some(_), Some(_)) => r matches Err(m) && m@ == crate::attr::both_renames_message(),
            (Some(c), None) => if is_enum {
                r matches Ok(Some(RenameAll::Variants(x))) && x == c
            } else {
                r matches Ok(Some(RenameAll::Fields(x))) && x == c
            },
            (None, Some(p)) => r matches Ok(Some(RenameAll::With(q))) && q@ == p,
            (None, None) => r matches Ok(None),
        },
    ensures
        match rename_spec(rename_all, rename_all_with, is_enum) {
            Ok(v) => r matches Ok(x) && rename_view(x) == v,
            Err(m) => r matches Err(e) && e@ == m,
        },
{
}

/// The schema of a struct with named fields.
///
/// # Errors
/// When both ways of renaming are set, or an item's type or format is
/// refused.
pub fn named_struct(top: &TopAttr, fields: &Vec<NamedField>) -> (r: Result<DerivedSchema, String>)
    requires
        rename_spec(top.rename_all, opt_str(top.rename_all_with), false) matches Ok(ra)
            ==> fields_renamable(ra, fields@),
    ensures
        result_view(r) == named_struct_spec(
            top.rename_all, opt_str(top.rename_all_with), opt_str(top.description), top.nullable, fields@,
        ),
{
    let with = match &top.rename_all_with {
        Some(p) => Some(p.as_str()),
        None => None,
    };
    let prepared = prepare_rename_all(top.rename_all, with, false);
    proof {
        lemma_rename_view(top.rename_all, opt_str(top.rename_all_with), false, prepared);
    }
    let ra = match prepared {
        Ok(ra) => ra,
        Err(m) => return Err(m),
    };
    let ghost rv = rename_view(ra);
    let mut props: Vec<(Value, DerivedSchema)> = Vec::new();
    let mut required: Vec<Value> = Vec::new();
    let mut i: usize = 0;
    assert(derived_props_view(props@) == Seq::<(ValueV, DerivedV)>::empty());
    assert(values_view(required@) =~= Seq::<ValueV>::empty());
    while i < fields.len()
        invariant
            i <= fields@.len(),
            rv == rename_view(ra),
            rename_spec(top.rename_all, opt_str(top.rename_all_with), false)
                == Ok::<Option<RenameV>, Seq<char>>(rv),
            fields_renamable(rv, fields@),
            fields_fold(rv, fields@.take(i as int)) == Ok::<(Seq<(ValueV, DerivedV)>, Seq<ValueV>), Seq<char>>(
                (derived_props_view(props@), values_view(required@)),
            ),
        decreases fields@.len() - i,
    {
        let f = &fields[i];
        proof {
            assert(fields@.take(i + 1).drop_last() =~= fields@.take(i as int));
            assert(fields@.take(i + 1).last() == fields@[i as int]);
        }
        let skip = match f.attr.skip {
            Some(b) => b,
            None => false,
        };
        if !skip {
            let rename = match &f.attr.rename {
                Some(n) => Some(n.as_str()),
                None => None,
            };
            proof {
                assert(!skipped(fields@[i as int].attr));
            }
            let name = rename_item(ra.as_ref(), f.name.as_str(), rename);
            let schema = match generate_item_schema(&f.attr, f.ty.as_str()) {
                Ok(s) => s,
                Err(m) => {
                    proof {
                        lemma_fields_fold_err(rv, fields@, i as int + 1);
                    }
                    return Err(m);
                },
            };
            if required_flag(f.attr.nullable, f.attr.required) {
                let ghost before = values_view(required@);
                let copy = match &name {
                    Value::Raw(x) => Value::Raw(x.clone()),
                    Value::ReCompute(p, x) => Value::ReCompute(p.clone(), x.clone()),
                };
                required.push(copy);
                assert(values_view(required@) =~= before.push(value_view(name)));
            }
            put(&mut props, name, schema);
        }
        i = i + 1;
    }
    assert(fields@.take(i as int) =~= fields@);
    let mut s = empty_schema();
    s.type_ = Some(Type::Object);
    s.description = copy_opt(&top.description);
    s.nullable = top.nullable;
    s.properties = props;
    s.required = required;
    Ok(s)
}


/// What a variant holds.
#[derive(Debug)]
pub enum VariantData {
    /// Nothing.
    Unit,
    /// Unnamed fields.
    Unnamed(Vec<TupleField>),
    /// Named fields.
    Named(Vec<NamedField>),
}

/// A variant of an enum: its name, attributes and data.
#[derive(Debug)]
pub struct VariantItem {
    pub name: String,
    pub attr: Attr,
    pub data: VariantData,
}

/// Whether a variant holds data.
pub open spec fn has_data(d: VariantData) -> bool {
    match d {
        VariantData::Unit => false,
        VariantData::Unnamed(fs) => fs@.len() > 0,
        VariantData::Named(fs) => fs@.len() > 0,
    }
}

/// Type spellings joined by ", ".
pub open spec fn join_types(tys: Seq<Seq<char>>) -> Seq<char>
    decreases tys.len(),
{
    if tys.len() == 0 {
        seq![]
    } else if tys.len() == 1 {
        tys[0]
    } else {
        join_types(tys.drop_last()) + ", "@ + tys.last()
    }
}

/// The spelling of the type of a variant's data: the one field's type, or
/// the tuple of the fields' types.
pub open spec fn data_type_spelling(tys: Seq<Seq<char>>) -> Seq<char> {
    if tys.len() == 1 {
        tys[0]
    } else {
        "("@ + join_types(tys) + ")"@
    }
}

/// The types of a variant's fields, as spelled.
pub open spec fn data_types(d: VariantData) -> Seq<Seq<char>> {
    match d {
        VariantData::Unit => seq![],
        VariantData::Unnamed(fs) => fs@.map_values(|f: TupleField| f.ty@),
        VariantData::Named(fs) => fs@.map_values(|f: NamedField| f.ty@),
    }
}

/// The schema of a variant's data on its own: as a struct of that shape,
/// with no attributes of its own.
pub open spec fn variant_data_spec(d: VariantData) -> Result<DerivedV, Seq<char>> {
    match d {
        VariantData::Unit => Ok(unit_struct_spec(None, None)),
        VariantData::Unnamed(fs) => tuple_struct_spec(None, None, fs@),
        VariantData::Named(fs) => named_struct_spec(None, None, None, None, fs@),
    }
}

/// The schema of a variant: from its type or schema function when it gives
/// one, else from its data; the variant's description, nullability and
/// bounds fill what that schema leaves unset.
pub open spec fn variant_schema_spec(a: Attr, d: VariantData) -> Result<DerivedV, Seq<char>> {
    let base = if a.type_ is Some || a.as_schema is Some || a.as_schema_generic is Some {
        attr_item_schema(a, data_type_spelling(data_types(d)))
    } else {
        variant_data_spec(d)
    };
    match base {
        Err(m) => Err(m),
        Ok(s) => Ok(DerivedV {
            description: if s.description is None { opt_str(a.description) } else { s.description },
            nullable: if s.nullable is None { a.nullable } else { s.nullable },
            max_items: if s.max_items is None { a.max_items } else { s.max_items },
            min_items: if s.min_items is None { a.min_items } else { s.min_items },
            ..s
        }),
    }
}

/// The variants fit in the counts of a schema.
pub open spec fn variants_bounded(vs: Seq<VariantItem>) -> bool {
    forall|i: int| 0 <= i < vs.len() ==> match (#[trigger] vs[i]).data {
        VariantData::Unnamed(fs) => fs@.len() <= i64::MAX,
        _ => true,
    }
}

/// The spelling of the type of a variant's data.
fn data_spelling(d: &VariantData) -> (r: String)
    ensures
        r@ == data_type_spelling(data_types(*d)),
{
    let ghost tys = data_types(*d);
    let mut n: usize = 0;
    let mut joined = String::new();
    match d {
        VariantData::Unit => {
            assert(tys.len() == 0);
        },
        VariantData::Unnamed(fs) => {
            n = fs.len();
            let mut i: usize = 0;
            while i < fs.len()
                invariant
                    i <= fs@.len(),
                    n == fs@.len(),
                    tys == fs@.map_values(|f: TupleField| f.ty@),
                    joined@ == join_types(tys.take(i as int)),
                decreases fs@.len() - i,
            {
                assert(tys.take(i + 1).drop_last() =~= tys.take(i as int));
                assert(tys.take(i + 1).last() == fs@[i as int].ty@);
                if i > 0 {
                    push_str(&mut joined, ", ");
                } else {
                    assert(tys.take(1) =~= seq![tys[0]]);
                }
                push_str(&mut joined, fs[i].ty.as_str());
                i = i + 1;
            }
            assert(tys.take(i as int) =~= tys);
            if n == 1 {
                return fs[0].ty.clone();
            }
        },
        VariantData::Named(fs) => {
            n = fs.len();
            let mut i: usize = 0;
            while i < fs.len()
                invariant
                    i <= fs@.len(),
                    n == fs@.len(),
                    tys == fs@.map_values(|f: NamedField| f.ty@),
                    joined@ == join_types(tys.take(i as int)),
                decreases fs@.len() - i,
            {
                assert(tys.take(i + 1).drop_last() =~= tys.take(i as int));
                assert(tys.take(i + 1).last() == fs@[i as int].ty@);
                if i > 0 {
                    push_str(&mut joined, ", ");
                } else {
                    assert(tys.take(1) =~= seq![tys[0]]);
                }
                push_str(&mut joined, fs[i].ty.as_str());
                i = i + 1;
            }
            assert(tys.take(i as int) =~= tys);
            if n == 1 {
                return fs[0].ty.clone();
            }
        },
    }
    assert(tys.len() != 1);
    let mut r = "(".to_owned();
    push_str(&mut r, joined.as_str());
    push_str(&mut r, ")");
    r
}

/// The schema of a variant.
///
/// # Errors
/// Those of the item or struct schema it is made from.
pub fn variant_schema(attr: &Attr, data: &VariantData) -> (r: Result<DerivedSchema, String>)
    requires
        data matches VariantData::Unnamed(fs) ==> fs@.len() <= i64::MAX,
    ensures
        result_view(r) == variant_schema_spec(*attr, *data),
{
    let base = if attr.type_.is_some() || attr.as_schema.is_some() || attr.as_schema_generic.is_some() {
        let ty = data_spelling(data);
        generate_item_schema(attr, ty.as_str())
    } else {
        let top = TopAttr::new();
        match data {
            VariantData::Unit => Ok(unit_struct(&top)),
            VariantData::Unnamed(fs) => tuple_struct(&top, fs),
            VariantData::Named(fs) => {
                proof {
                    assert(rename_spec(None, None, false) == Ok::<Option<RenameV>, Seq<char>>(None));
                }
                named_struct(&top, fs)
            },
        }
    };
    let mut s = match base {
        Ok(s) => s,
        Err(m) => return Err(m),
    };
    if s.description.is_none() {
        s.description = copy_opt(&attr.description);
    }
    if s.nullable.is_none() {
        s.nullable = attr.nullable;
    }
    if s.max_items.is_none() {
        s.max_items = attr.max_items;
    }
    if s.min_items.is_none() {
        s.min_items = attr.min_items;
    }
    Ok(s)
}


/// The properties and required names of the first variants of an enum with
/// data, or the first error. Variants keep their names unless they set one,
/// and are required only when they say so.
pub open spec fn variants_fold(vs: Seq<VariantItem>) -> Result<(Seq<(ValueV, DerivedV)>, Seq<ValueV>), Seq<char>>
    decreases vs.len(),
{
    if vs.len() == 0 {
        Ok((seq![], seq![]))
    } else {
        match variants_fold(vs.drop_last()) {
            Err(m) => Err(m),
            Ok((ps, req)) => {
                let v = vs.last();
                if skipped(v.attr) {
                    Ok((ps, req))
                } else {
                    let name = renamed_value(None, v.name@, opt_str(v.attr.rename));
                    let req2 = if v.attr.required == Some(true) { req.push(name) } else { req };
                    match variant_schema_spec(v.attr, v.data) {
                        Err(m) => Err(m),
                        Ok(s) => Ok((put_property(ps, name, s), req2)),
                    }
                }
            },
        }
    }
}

/// The names of the variants that are not skipped, renamed as `ra` says
/// unless they set their own.
pub open spec fn variant_names(ra: Option<RenameV>, vs: Seq<VariantItem>) -> Seq<ValueV>
    decreases vs.len(),
{
    if vs.len() == 0 {
        seq![]
    } else if skipped(vs.last().attr) {
        variant_names(ra, vs.drop_last())
    } else {
        variant_names(ra, vs.drop_last()).push(renamed_value(ra, vs.last().name@, opt_str(vs.last().attr.rename)))
    }
}

/// Whether every variant that is not skipped and sets no name can be
/// renamed.
pub open spec fn variants_renamable(ra: Option<RenameV>, vs: Seq<VariantItem>) -> bool {
    forall|i: int| 0 <= i < vs.len() && !skipped(#[trigger] vs[i].attr) && vs[i].attr.rename is None
        ==> renamable_as(ra, vs[i].name@)
}

/// The schema of an enum. When some variant holds data, an object with a
/// property per variant (not renamed by the type's convention), none
/// required unless it says so, and the type's description. Otherwise a
/// string enumeration of the variants' names, renamed as the type says.
pub open spec fn impl_enum_spec(rename_all: Option<Case>, rename_all_with: Option<Seq<char>>, description: Option<Seq<char>>, vs: Seq<VariantItem>) -> Result<DerivedV, Seq<char>> {
    if exists|i: int| 0 <= i < vs.len() && has_data(#[trigger] vs[i].data) {
        match variants_fold(vs) {
            Err(m) => Err(m),
            Ok((ps, req)) => Ok(DerivedV {
                type_: Some(Type::Object),
                description,
                properties: ps,
                required: req,
                ..empty_derived()
            }),
        }
    } else {
        match rename_spec(rename_all, rename_all_with, true) {
            Err(m) => Err(m),
            Ok(ra) => Ok(DerivedV {
                type_: Some(Type::String),
                format: Some(Format::Enum),
                description,
                enum_: variant_names(ra, vs),
                ..empty_derived()
            }),
        }
    }
}

/// Once the fold over a prefix of the variants fails, the fold over all of
/// them fails the same way.
proof fn lemma_variants_fold_err(vs: Seq<VariantItem>, k: int)
    requires
        0 <= k <= vs.len(),
        variants_fold(vs.take(k)) is Err,
    ensures
        variants_fold(vs) == variants_fold(vs.take(k)),
    decreases vs.len() - k,
{
    if k == vs.len() {
        assert(vs.take(k) =~= vs);
    } else {
        assert(vs.take(k + 1).drop_last() =~= vs.take(k));
        lemma_variants_fold_err(vs, k + 1);
    }
}

/// A copy of a name.
fn copy_value(v: &Value) -> (r: Value)
    ensures
        value_view(r) == value_view(*v),
{
    match v {
        Value::Raw(x) => Value::Raw(x.clone()),
        Value::ReCompute(p, x) => Value::ReCompute(p.clone(), x.clone()),
    }
}

/// The schema of an enum whose variants hold data.
fn data_enum(top: &TopAttr, variants: &Vec<VariantItem>) -> (r: Result<DerivedSchema, String>)
    requires
        variants_bounded(variants@),
    ensures
        result_view(r) == match variants_fold(variants@) {
            Err(m) => Err(m),
            Ok((ps, req)) => Ok(DerivedV {
                type_: Some(Type::Object),
                description: opt_str(top.description),
                properties: ps,
                required: req,
                ..empty_derived()
            }),
        },
{
    let mut props: Vec<(Value, DerivedSchema)> = Vec::new();
    let mut required: Vec<Value> = Vec::new();
    let mut i: usize = 0;
    assert(derived_props_view(props@) == Seq::<(ValueV, DerivedV)>::empty());
    assert(values_view(required@) =~= Seq::<ValueV>::empty());
    while i < variants.len()
        invariant
            i <= variants@.len(),
            variants_bounded(variants@),
            variants_fold(variants@.take(i as int)) == Ok::<(Seq<(ValueV, DerivedV)>, Seq<ValueV>), Seq<char>>(
                (derived_props_view(props@), values_view(required@)),
            ),
        decreases variants@.len() - i,
    {
        let v = &variants[i];
        proof {
            assert(variants@.take(i + 1).drop_last() =~= variants@.take(i as int));
            assert(variants@.take(i + 1).last() == variants@[i as int]);
            assert(variants_bounded(variants@) ==> match variants@[i as int].data {
                VariantData::Unnamed(fs) => fs@.len() <= i64::MAX,
                _ => true,
            });
        }
        let skip = match v.attr.skip {
            Some(b) => b,
            None => false,
        };
        if !skip {
            let rename = match &v.attr.rename {
                Some(n) => Some(n.as_str()),
                None => None,
            };
            let name = rename_item(None, v.name.as_str(), rename);
            let schema = match variant_schema(&v.attr, &v.data) {
                Ok(s) => s,
                Err(m) => {
                    proof {
                        lemma_variants_fold_err(variants@, i as int + 1);
                    }
                    return Err(m);
                },
            };
            if v.attr.required == Some(true) {
                let ghost before = values_view(required@);
                required.push(copy_value(&name));
                assert(values_view(required@) =~= before.push(value_view(name)));
            }
            put(&mut props, name, schema);
        }
        i = i + 1;
    }
    assert(variants@.take(i as int) =~= variants@);
    let mut s = empty_schema();
    s.type_ = Some(Type::Object);
    s.description = copy_opt(&top.description);
    s.properties = props;
    s.required = required;
    Ok(s)
}

/// The schema of an enum.
///
/// # Errors
/// Those of the variants' schemas; for an enum without data, when both ways
/// of renaming are set.
pub fn impl_enum(top: &TopAttr, variants: &Vec<VariantItem>) -> (r: Result<DerivedSchema, String>)
    requires
        variants_bounded(variants@),
        rename_spec(top.rename_all, opt_str(top.rename_all_with), true) matches Ok(ra)
            ==> variants_renamable(ra, variants@),
    ensures
        result_view(r) == impl_enum_spec(top.rename_all, opt_str(top.rename_all_with), opt_str(top.description), variants@),
{
    let mut k: usize = 0;
    let mut data = false;
    while k < variants.len()
        invariant
            k <= variants@.len(),
            data <==> exists|j: int| 0 <= j < k && has_data(#[trigger] variants@[j].data),
        decreases variants@.len() - k,
    {
        let d = match &variants[k].data {
            VariantData::Unit => false,
            VariantData::Unnamed(fs) => fs.len() > 0,
            VariantData::Named(fs) => fs.len() > 0,
        };
        if d {
            data = true;
        }
        k = k + 1;
    }
    if data {
        return data_enum(top, variants);
    }
    let with = match &top.rename_all_with {
        Some(p) => Some(p.as_str()),
        None => None,
    };
    let prepared = prepare_rename_all(top.rename_all, with, true);
    proof {
        lemma_rename_view(top.rename_all, opt_str(top.rename_all_with), true, prepared);
    }
    let ra = match prepared {
        Ok(ra) => ra,
        Err(m) => return Err(m),
    };
    let ghost rv = rename_view(ra);
    let mut names: Vec<Value> = Vec::new();
    let mut i: usize = 0;
    assert(values_view(names@) =~= Seq::<ValueV>::empty());
    while i < variants.len()
        invariant
            i <= variants@.len(),
            rv == rename_view(ra),
            variants_renamable(rv, variants@),
            values_view(names@) == variant_names(rv, variants@.take(i as int)),
        decreases variants@.len() - i,
    {
        let v = &variants[i];
        proof {
            assert(variants@.take(i + 1).drop_last() =~= variants@.take(i as int));
            assert(variants@.take(i + 1).last() == variants@[i as int]);
        }
        let skip = match v.attr.skip {
            Some(b) => b,
            None => false,
        };
        if !skip {
            let rename = match &v.attr.rename {
                Some(n) => Some(n.as_str()),
                None => None,
            };
            proof {
                assert(!skipped(variants@[i as int].attr));
            }
            let ghost before = values_view(names@);
            let name = rename_item(ra.as_ref(), v.name.as_str(), rename);
            names.push(name);
            assert(values_view(names@) =~= before.push(value_view(names@.last())));
        }
        i = i + 1;
    }
    assert(variants@.take(i as int) =~= variants@);
    let mut s = empty_schema();
    s.type_ = Some(Type::String);
    s.format = Some(Format::Enum);
    s.description = copy_opt(&top.description);
    s.enum_ = names;
    Ok(s)
}

/// Whether a schema can be turned into code: only items take their schema
/// from elsewhere, no more names are required than there are properties,
/// and a given format goes with the given type.
pub open spec fn vetted(s: DerivedV) -> bool {
    &&& !(!(s.base is Empty) && (s.properties.len() > 0 || s.required.len() > 0))
    &&& s.properties.len() >= s.required.len()
    &&& (s.type_ matches Some(t) ==> (s.format matches Some(f) ==> compatible(t, f)))
}

impl DerivedSchema {
    /// Whether the schema can be turned into code.
    pub fn vet(&self) -> (r: bool)
        ensures
            r == vetted(derived_view(*self)),
    {
        proof {
            lemma_derived_props_index(self.properties@);
        }
        let based = match &self.base {
            BaseSchema::Empty => false,
            _ => true,
        };
        if based && (self.properties.len() > 0 || self.required.len() > 0) {
            return false;
        }
        if self.properties.len() < self.required.len() {
            return false;
        }
        match (self.type_, self.format) {
            (Some(t), Some(f)) => t.is_compatible_with(f),
            _ => true,
        }
    }
}


/// The shape of a type that derives `AsSchema`.
#[derive(Debug)]
pub enum Shape {
    /// A struct without fields.
    Unit,
    /// A struct with unnamed fields.
    Tuple(Vec<TupleField>),
    /// A struct with named fields.
    Named(Vec<NamedField>),
    /// An enum.
    Enum(Vec<VariantItem>),
    /// A union.
    Union,
}

/// The message that refuses unions.
pub open spec fn union_message() -> Seq<char> {
    "Unions are not supported by AsSchema derive"@
}

/// Whether the items of a type can be named as its attributes ask.
pub open spec fn shape_derivable(top: TopAttr, shape: Shape) -> bool {
    match shape {
        Shape::Tuple(fs) => fs@.len() <= i64::MAX,
        Shape::Named(fs) => rename_spec(top.rename_all, opt_str(top.rename_all_with), false) matches Ok(ra)
            ==> fields_renamable(ra, fs@),
        Shape::Enum(vs) => variants_bounded(vs@)
            && (rename_spec(top.rename_all, opt_str(top.rename_all_with), true) matches Ok(ra)
                ==> variants_renamable(ra, vs@)),
        _ => true,
    }
}

/// The schema a type derives, by its shape.
pub open spec fn schema_of_shape(top: TopAttr, shape: Shape) -> Result<DerivedV, Seq<char>> {
    match shape {
        Shape::Unit => Ok(unit_struct_spec(opt_str(top.description), top.nullable)),
        Shape::Tuple(fs) => tuple_struct_spec(opt_str(top.description), top.nullable, fs@),
        Shape::Named(fs) => named_struct_spec(
            top.rename_all, opt_str(top.rename_all_with), opt_str(top.description), top.nullable, fs@,
        ),
        Shape::Enum(vs) => impl_enum_spec(top.rename_all, opt_str(top.rename_all_with), opt_str(top.description), vs@),
        Shape::Union => Err(union_message()),
    }
}

/// The schema a type with attributes `top` and shape `shape` derives.
///
/// # Errors
/// Unions are refused; otherwise the errors of the shape's schema.
pub fn generate_schema(top: &TopAttr, shape: &Shape) -> (r: Result<DerivedSchema, String>)
    requires
        shape_derivable(*top, *shape),
    ensures
        result_view(r) == schema_of_shape(*top, *shape),
{
    match shape {
        Shape::Unit => Ok(unit_struct(top)),
        Shape::Tuple(fs) => tuple_struct(top, fs),
        Shape::Named(fs) => named_struct(top, fs),
        Shape::Enum(vs) => impl_enum(top, vs),
        Shape::Union => Err("Unions are not supported by AsSchema derive".to_owned()),
    }
}


/// Whether `name` can be renamed as a type with attributes `top` renames
/// its fields (its variants when `is_enum`); true when the type's renaming
/// attributes conflict, which is refused before any name is renamed.
fn name_renamable(top: &TopAttr, is_enum: bool, name: &str) -> (r: bool)
    ensures
        r == (rename_spec(top.rename_all, opt_str(top.rename_all_with), is_enum) matches Ok(ra)
            ==> renamable_as(ra, name@)),
{
    match (top.rename_all, &top.rename_all_with) {
        (Some(c), None) => if is_enum {
            try_rename_all_variants(c, name).is_some()
        } else {
            try_rename_all(c, name).is_some()
        },
        _ => true,
    }
}

/// Whether every named field that the type's convention renames can be
/// renamed.
fn fields_derivable(top: &TopAttr, fs: &Vec<NamedField>) -> (r: bool)
    ensures
        r == (rename_spec(top.rename_all, opt_str(top.rename_all_with), false) matches Ok(ra)
            ==> fields_renamable(ra, fs@)),
{
    let ghost rs = rename_spec(top.rename_all, opt_str(top.rename_all_with), false);
    let mut i: usize = 0;
    while i < fs.len()
        invariant
            i <= fs.len(),
            rs == rename_spec(top.rename_all, opt_str(top.rename_all_with), false),
            rs matches Ok(ra) ==> forall|k: int| 0 <= k < i && !skipped(#[trigger] fs@[k].attr)
                && fs@[k].attr.rename is None ==> renamable_as(ra, fs@[k].name@),
        decreases fs.len() - i,
    {
        let f = &fs[i];
        if f.attr.skip != Some(true) && f.attr.rename.is_none() {
            if !name_renamable(top, false, f.name.as_str()) {
                return false;
            }
        }
        i = i + 1;
    }
    true
}

/// Whether every variant that the type's convention renames can be
/// renamed, and no variant has more unnamed fields than a count holds.
fn variants_derivable(top: &TopAttr, vs: &Vec<VariantItem>) -> (r: bool)
    ensures
        r == (variants_bounded(vs@) && (rename_spec(top.rename_all, opt_str(top.rename_all_with), true) matches Ok(ra)
            ==> variants_renamable(ra, vs@))),
{
    let ghost rs = rename_spec(top.rename_all, opt_str(top.rename_all_with), true);
    let mut i: usize = 0;
    while i < vs.len()
        invariant
            i <= vs.len(),
            rs == rename_spec(top.rename_all, opt_str(top.rename_all_with), true),
            forall|k: int| 0 <= k < i ==> match (#[trigger] vs@[k]).data {
                VariantData::Unnamed(fs) => fs@.len() <= i64::MAX,
                _ => true,
            },
            rs matches Ok(ra) ==> forall|k: int| 0 <= k < i && !skipped(#[trigger] vs@[k].attr)
                && vs@[k].attr.rename is None ==> renamable_as(ra, vs@[k].name@),
        decreases vs.len() - i,
    {
        let v = &vs[i];
        match &v.data {
            VariantData::Unnamed(fs) => {
                if fs.len() as u64 > i64::MAX as u64 {
                    return false;
                }
            },
            _ => {},
        }
        if v.attr.skip != Some(true) && v.attr.rename.is_none() {
            if !name_renamable(top, true, v.name.as_str()) {
                return false;
            }
        }
        i = i + 1;
    }
    true
}

/// Whether a type with attributes `top` and shape `shape` can be derived:
/// each name that the type's convention renames can be cut where the
/// convention cuts it, and no count of fields overflows.
pub fn is_derivable(top: &TopAttr, shape: &Shape) -> (r: bool)
    ensures
        r == shape_derivable(*top, *shape),
{
    match shape {
        Shape::Tuple(fs) => fs.len() as u64 <= i64::MAX as u64,
        Shape::Named(fs) => fields_derivable(top, fs),
        Shape::Enum(vs) => variants_derivable(top, vs),
        _ => true,
    }
}

/// The schema a type derives, or `None` when it cannot be derived
/// ([`is_derivable`]).
pub fn try_generate_schema(top: &TopAttr, shape: &Shape) -> (r: Option<Result<DerivedSchema, String>>)
    ensures
        r is Some <==> shape_derivable(*top, *shape),
        r matches Some(g) ==> result_view(g) == schema_of_shape(*top, *shape),
{
    if is_derivable(top, shape) {
        Some(generate_schema(top, shape))
    } else {
        None
    }
}

/// No property name occurs twice.
pub open spec fn keys_distinct(ps: Seq<(ValueV, DerivedV)>) -> bool {
    forall|i: int, j: int| 0 <= i < j < ps.len() ==> #[trigger] ps[i].0 != #[trigger] ps[j].0
}

/// Whether some property has the name `k`.
pub open spec fn has_key(ps: Seq<(ValueV, DerivedV)>, k: ValueV) -> bool {
    exists|i: int| 0 <= i < ps.len() && (#[trigger] ps[i]).0 == k
}

/// Setting a property keeps names distinct, adds its name, and keeps the
/// names there were.
proof fn lemma_put_property(ps: Seq<(ValueV, DerivedV)>, k: ValueV, v: DerivedV)
    requires
        keys_distinct(ps),
    ensures
        keys_distinct(put_property(ps, k, v)),
        has_key(put_property(ps, k, v), k),
        forall|x: ValueV| has_key(ps, x) ==> has_key(put_property(ps, k, v), x),
{
    lemma_position_of(ps, k);
    let r = put_property(ps, k, v);
    match position_of(ps, k) {
        Some(i) => {
            assert(r[i].0 == k);
            assert forall|x: ValueV| has_key(ps, x) implies has_key(r, x) by {
                let j = choose|j: int| 0 <= j < ps.len() && (#[trigger] ps[j]).0 == x;
                assert(r[j].0 == x);
            }
        },
        None => {
            assert(r[ps.len() as int].0 == k);
            assert forall|x: ValueV| has_key(ps, x) implies has_key(r, x) by {
                let j = choose|j: int| 0 <= j < ps.len() && (#[trigger] ps[j]).0 == x;
                assert(r[j] == ps[j]);
            }
        },
    }
}

/// The schema derived for a struct with named fields has each property
/// name once, and every required name is the name of a property.
pub proof fn derived_fields_well_named(ra: Option<RenameV>, fields: Seq<NamedField>)
    ensures
        fields_fold(ra, fields) matches Ok((ps, req)) ==> {
            &&& keys_distinct(ps)
            &&& forall|i: int| 0 <= i < req.len() ==> has_key(ps, #[trigger] req[i])
        },
    decreases fields.len(),
{
    if fields.len() > 0 {
        derived_fields_well_named(ra, fields.drop_last());
        match fields_fold(ra, fields.drop_last()) {
            Err(_) => {},
            Ok((ps, req)) => {
                let f = fields.last();
                if !skipped(f.attr) {
                    let name = renamed_value(ra, f.name@, opt_str(f.attr.rename));
                    match attr_item_schema(f.attr, f.ty@) {
                        Err(_) => {},
                        Ok(sch) => {
                            lemma_put_property(ps, name, sch);
                            let ps2 = put_property(ps, name, sch);
                            let req2 = if is_required(f.attr.nullable, f.attr.required) { req.push(name) } else { req };
                            assert forall|i: int| 0 <= i < req2.len() implies has_key(ps2, #[trigger] req2[i]) by {
                                if i < req.len() {
                                    assert(req2[i] == req[i]);
                                    assert(has_key(ps, req[i]));
                                }
                            }
                        },
                    }
                }
            },
        }
    }
}

} // verus!
