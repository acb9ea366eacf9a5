//! Schemas: the subset of OpenAPI schemas that describes structured answers.
use vstd::prelude::*;
use crate::proto::Type;
use crate::text::str_eq;

verus! {

/// The type of a schema: the OpenAPI data types.
pub type SchemaType = Type;

/// A list of supported OpenAPI data formats for primitive types.
#[derive(Clone, Copy, Debug, PartialEq, Eq, Structural)]
pub enum SchemaFormat {
    /// 32-bit floating-point number.
    Float,
    /// 64-bit floating-point number.
    Double,
    /// 32-bit integer.
    Int32,
    /// 64-bit integer.
    Int64,
    /// A string that can only be one of a predefined set of values.
    Enum,
    /// No format.
    Unspecified,
}

/// The spelling of a format in a schema.
pub open spec fn format_name(f: SchemaFormat) -> Seq<char> {
    match f {
        SchemaFormat::Float => "float"@,
        SchemaFormat::Double => "double"@,
        SchemaFormat::Int32 => "int32"@,
        SchemaFormat::Int64 => "int64"@,
        SchemaFormat::Enum => "enum"@,
        SchemaFormat::Unspecified => seq![],
    }
}

impl SchemaFormat {
    /// Returns the string representation of the format.
    pub fn as_str(self) -> (r: &'static str)
        ensures
            r@ == format_name(self),
    {
        match self {
            SchemaFormat::Float => "float",
            SchemaFormat::Double => "double",
            SchemaFormat::Int32 => "int32",
            SchemaFormat::Int64 => "int64",
            SchemaFormat::Enum => "enum",
            SchemaFormat::Unspecified => {
                proof {
                    reveal_strlit("");
                }
                ""
            },
        }
    }
}

/// The `Schema` object allows the definition of input and output data types.
#[derive(Debug, PartialEq)]
pub struct Schema {
    /// Data type (the number of a `Type`).
    pub type_: i32,
    /// The format of the data, for primitive types.
    pub format: String,
    /// A brief description of the parameter.
    pub description: String,
    /// Indicates if the value may be null.
    pub nullable: bool,
    /// Possible values of an element of type `String` with enum format.
    pub enum_: Vec<String>,
    /// Maximum number of the elements for an array.
    pub max_items: i64,
    /// Minimum number of the elements for an array.
    pub min_items: i64,
    /// Properties of an object, by name; no name occurs twice.
    pub properties: Vec<(String, Schema)>,
    /// Required properties of an object.
    pub required: Vec<String>,
    /// Schema of the elements of an array.
    pub items: Option<Box<Schema>>,
}

/// What a schema holds, as values.
pub struct SchemaV {
    pub type_: i32,
    pub format: Seq<char>,
    pub description: Seq<char>,
    pub nullable: bool,
    pub enum_: Seq<Seq<char>>,
    pub max_items: i64,
    pub min_items: i64,
    pub properties: Seq<(Seq<char>, SchemaV)>,
    pub required: Seq<Seq<char>>,
    pub items: Option<Box<SchemaV>>,
}

/// The views of a sequence of strings.
pub open spec fn strings_view(v: Seq<String>) -> Seq<Seq<char>> {
    v.map_values(|s: String| s@)
}

/// What a schema holds, as values.
pub open spec fn schema_view(s: Schema) -> SchemaV
    decreases s, 0nat,
{
    SchemaV {
        type_: s.type_,
        format: s.format@,
        description: s.description@,
        nullable: s.nullable,
        enum_: strings_view(s.enum_@),
        max_items: s.max_items,
        min_items: s.min_items,
        properties: properties_view(s.properties@),
        required: strings_view(s.required@),
        items: match s.items {
            Some(b) => Some(Box::new(schema_view(*b))),
            None => None,
        },
    }
}

/// What a list of properties holds, as values.
pub open spec fn properties_view(ps: Seq<(String, Schema)>) -> Seq<(Seq<char>, SchemaV)>
    decreases ps, 1nat,
{
    if ps.len() == 0 {
        seq![]
    } else {
        properties_view(ps.drop_last()).push((ps.last().0@, schema_view(ps.last().1)))
    }
}

/// The schema with every field at its default: unspecified type, no
/// format, no description, not nullable, nothing else.
pub open spec fn default_schema() -> SchemaV {
    SchemaV {
        type_: 0,
        format: seq![],
        description: seq![],
        nullable: false,
        enum_: seq![],
        max_items: 0,
        min_items: 0,
        properties: seq![],
        required: seq![],
        items: None,
    }
}

/// The default schema with the given type.
pub open spec fn typed_schema(t: Type) -> SchemaV {
    SchemaV { type_: t.number(), ..default_schema() }
}

impl Default for Schema {
    fn default() -> (r: Schema)
        ensures
            schema_view(r) == default_schema(),
    {
        let r = Schema {
            type_: 0,
            format: String::new(),
            description: String::new(),
            nullable: false,
            enum_: Vec::new(),
            max_items: 0,
            min_items: 0,
            properties: Vec::new(),
            required: Vec::new(),
            items: None,
        };
        assert(strings_view(r.enum_@) =~= Seq::<Seq<char>>::empty());
        assert(strings_view(r.required@) =~= Seq::<Seq<char>>::empty());
        assert(r.properties@.len() == 0);
        assert(properties_view(r.properties@) == Seq::<(Seq<char>, SchemaV)>::empty());
        r
    }
}

/// No property name occurs twice.
pub open spec fn names_distinct(ps: Seq<(Seq<char>, SchemaV)>) -> bool {
    forall|i: int, j: int| 0 <= i < j < ps.len() ==> #[trigger] ps[i].0 != #[trigger] ps[j].0
}

/// Where the property called `name` is, if there is one.
pub open spec fn property_position(ps: Seq<(Seq<char>, SchemaV)>, name: Seq<char>) -> Option<int>
    decreases ps.len(),
{
    if ps.len() == 0 {
        None
    } else if ps.last().0 == name {
        Some(ps.len() - 1)
    } else {
        property_position(ps.drop_last(), name)
    }
}

/// The properties with `name` set to `s`: the existing entry is replaced in
/// place, or a new entry is added at the end.
pub open spec fn insert_property(ps: Seq<(Seq<char>, SchemaV)>, name: Seq<char>, s: SchemaV) -> Seq<(Seq<char>, SchemaV)> {
    match property_position(ps, name) {
        Some(i) => ps.update(i, (name, s)),
        None => ps.push((name, s)),
    }
}

/// The properties set from a list of name-schema pairs, one by one: a later
/// pair with the same name replaces an earlier one.
pub open spec fn properties_from(items: Seq<(Seq<char>, SchemaV)>) -> Seq<(Seq<char>, SchemaV)>
    decreases items.len(),
{
    if items.len() == 0 {
        seq![]
    } else {
        insert_property(properties_from(items.drop_last()), items.last().0, items.last().1)
    }
}

proof fn lemma_property_position(ps: Seq<(Seq<char>, SchemaV)>, name: Seq<char>)
    ensures
        property_position(ps, name) matches Some(i) ==> 0 <= i < ps.len() && ps[i].0 == name,
        property_position(ps, name) is None ==> forall|j: int| 0 <= j < ps.len() ==> #[trigger] ps[j].0 != name,
    decreases ps.len(),
{
    if ps.len() > 0 {
        lemma_property_position(ps.drop_last(), name);
        if ps.last().0 != name {
            assert forall|j: int| 0 <= j < ps.len() - 1 implies #[trigger] ps[j].0 == ps.drop_last()[j].0 by {}
        }
    }
}

/// Setting a property keeps the names distinct.
pub proof fn lemma_insert_property_distinct(ps: Seq<(Seq<char>, SchemaV)>, name: Seq<char>, s: SchemaV)
    requires
        names_distinct(ps),
    ensures
        names_distinct(insert_property(ps, name, s)),
        insert_property(ps, name, s).contains((name, s)),
{
    lemma_property_position(ps, name);
    let r = insert_property(ps, name, s);
    match property_position(ps, name) {
        Some(i) => {
            assert(r[i] == (name, s));
        },
        None => {
            assert(r[ps.len() as int] == (name, s));
        },
    }
}

/// The view of a property list after one entry is changed in place.
proof fn lemma_properties_view_update(ps: Seq<(String, Schema)>, i: int, p: (String, Schema))
    requires
        0 <= i < ps.len(),
    ensures
        properties_view(ps).len() == ps.len(),
        properties_view(ps.update(i, p)) == properties_view(ps).update(i, (p.0@, schema_view(p.1))),
{
    let u = ps.update(i, p);
    lemma_properties_view_index(ps);
    lemma_properties_view_index(u);
    assert(properties_view(u) =~= properties_view(ps).update(i, (p.0@, schema_view(p.1))));
}

/// The view of a property list has one entry per property, in order.
proof fn lemma_properties_view_index(ps: Seq<(String, Schema)>)
    ensures
        properties_view(ps).len() == ps.len(),
        forall|j: int| 0 <= j < ps.len() ==> #[trigger] properties_view(ps)[j] == (ps[j].0@, schema_view(ps[j].1)),
    decreases ps.len(),
{
    if ps.len() > 0 {
        lemma_properties_view_index(ps.drop_last());
        assert forall|j: int| 0 <= j < ps.len() implies #[trigger] properties_view(ps)[j] == (ps[j].0@, schema_view(ps[j].1)) by {
            if j < ps.len() - 1 {
                assert(ps.drop_last()[j] == ps[j]);
            }
        }
    }
}

/// Whether a schema is an object.
pub open spec fn is_object(s: SchemaV) -> bool {
    s.type_ == Type::Object.number()
}

/// Whether a schema is an array.
pub open spec fn is_array(s: SchemaV) -> bool {
    s.type_ == Type::Array.number()
}

/// Whether a schema is a string.
pub open spec fn is_string(s: SchemaV) -> bool {
    s.type_ == Type::String.number()
}

/// A copy of a list of strings.
pub fn clone_strings(v: &Vec<String>) -> (r: Vec<String>)
    ensures
        strings_view(r@) == strings_view(v@),
{
    let mut r: Vec<String> = Vec::new();
    let mut i: usize = 0;
    while i < v.len()
        invariant
            i <= v.len(),
            strings_view(r@) == strings_view(v@.take(i as int)),
        decreases v.len() - i,
    {
        let s = v[i].clone();
        let ghost before = r@;
        r.push(s);
        assert(strings_view(r@) =~= strings_view(before).push(s@));
        assert(strings_view(v@.take(i + 1)) =~= strings_view(v@.take(i as int)).push(v@[i as int]@));
        i = i + 1;
    }
    assert(v@.take(i as int) =~= v@);
    r
}

/// A copy of a schema.
pub fn clone_schema(s: &Schema) -> (r: Schema)
    ensures
        schema_view(r) == schema_view(*s),
    decreases s,
{
    let mut properties: Vec<(String, Schema)> = Vec::new();
    let mut i: usize = 0;
    while i < s.properties.len()
        invariant
            i <= s.properties.len(),
            properties_view(properties@) == properties_view(s.properties@.take(i as int)),
        decreases s.properties.len() - i,
    {
        assert(decreases_to!(s => s.properties@[i as int].1)) by {
            assert(decreases_to!(s => s.properties));
            assert(decreases_to!(s.properties => s.properties@));
            assert(decreases_to!(s.properties@ => s.properties@[i as int]));
            assert(decreases_to!(s.properties@[i as int] => s.properties@[i as int].1));
        }
        let name = s.properties[i].0.clone();
        let sub = clone_schema(&s.properties[i].1);
        let ghost before = properties@;
        properties.push((name, sub));
        assert(properties@.drop_last() =~= before);
        assert(s.properties@.take(i + 1).drop_last() =~= s.properties@.take(i as int));
        i = i + 1;
    }
    assert(s.properties@.take(i as int) =~= s.properties@);
    let items = match &s.items {
        Some(b) => Some(Box::new(clone_schema(&**b))),
        None => None,
    };
    Schema {
        type_: s.type_,
        format: s.format.clone(),
        description: s.description.clone(),
        nullable: s.nullable,
        enum_: clone_strings(&s.enum_),
        max_items: s.max_items,
        min_items: s.min_items,
        properties,
        required: clone_strings(&s.required),
        items,
    }
}

impl Clone for Schema {
    fn clone(&self) -> (r: Self)
        ensures
            schema_view(r) == schema_view(*self),
    {
        clone_schema(self)
    }
}


/// Finds the last property called `name`.
fn find_property(ps: &Vec<(String, Schema)>, name: &str) -> (r: Option<usize>)
    ensures
        r matches Some(i) ==> property_position(properties_view(ps@), name@) == Some(i as int),
        r is None ==> property_position(properties_view(ps@), name@) is None,
{
    let ghost v = properties_view(ps@);
    proof {
        lemma_properties_view_index(ps@);
    }
    let mut i: usize = ps.len();
    assert(v.take(i as int) =~= v);
    while i > 0
        invariant
            i <= ps@.len(),
            v == properties_view(ps@),
            v.len() == ps@.len(),
            forall|j: int| 0 <= j < ps@.len() ==> #[trigger] v[j] == (ps@[j].0@, schema_view(ps@[j].1)),
            property_position(v, name@) == property_position(v.take(i as int), name@),
        decreases i,
    {
        assert(v.take(i as int).drop_last() =~= v.take(i - 1));
        assert(v.take(i as int).last() == v[i - 1]);
        if str_eq(ps[i - 1].0.as_str(), name) {
            return Some(i - 1);
        }
        i = i - 1;
    }
    None
}

impl Schema {
    /// Constructs a new schema for the specified primitive type.
    pub fn new(typ: SchemaType) -> (r: Schema)
        ensures
            schema_view(r) == typed_schema(typ),
    {
        let mut s = Schema::default();
        s.type_ = typ.value();
        s
    }

    /// Creates a new schema for an object type.
    pub fn new_object() -> (r: Schema)
        ensures
            schema_view(r) == typed_schema(Type::Object),
    {
        Self::new(Type::Object)
    }

    /// Creates a new schema for an array type.
    pub fn new_array() -> (r: Schema)
        ensures
            schema_view(r) == typed_schema(Type::Array),
    {
        Self::new(Type::Array)
    }

    /// Creates a new schema for a number type.
    pub fn new_number() -> (r: Schema)
        ensures
            schema_view(r) == typed_schema(Type::Number),
    {
        Self::new(Type::Number)
    }

    /// Creates a new schema for an integer type.
    pub fn new_integer() -> (r: Schema)
        ensures
            schema_view(r) == typed_schema(Type::Integer),
    {
        Self::new(Type::Integer)
    }

    /// Creates a new schema for a string type.
    pub fn new_string() -> (r: Schema)
        ensures
            schema_view(r) == typed_schema(Type::String),
    {
        Self::new(Type::String)
    }

    /// Sets the format of the schema.
    pub fn format(self, format: SchemaFormat) -> (r: Schema)
        ensures
            schema_view(r) == (SchemaV { format: format_name(format), ..schema_view(self) }),
    {
        let mut s = self;
        s.format = format.as_str().to_owned();
        s
    }

    /// Sets the description of the schema.
    pub fn description(self, description: &str) -> (r: Schema)
        ensures
            schema_view(r) == (SchemaV { description: description@, ..schema_view(self) }),
    {
        let mut s = self;
        s.description = description.to_owned();
        s
    }

    /// Sets whether the schema value may be null.
    pub fn nullable(self, nullable: bool) -> (r: Schema)
        ensures
            schema_view(r) == (SchemaV { nullable, ..schema_view(self) }),
    {
        let mut s = self;
        s.nullable = nullable;
        s
    }

    /// Sets the possible enum values of a `String` schema, with the `enum`
    /// format; any other schema is returned unchanged.
    pub fn into_enum(self, values: Vec<String>) -> (r: Schema)
        ensures
            schema_view(r) == if is_string(schema_view(self)) {
                SchemaV { format: "enum"@, enum_: strings_view(values@), ..schema_view(self) }
            } else {
                schema_view(self)
            },
    {
        if self.is_string() {
            let mut s = self.format(SchemaFormat::Enum);
            s.enum_ = values;
            s
        } else {
            self
        }
    }

    /// Sets the schema of the elements of an `Array` schema; any other
    /// schema is returned unchanged.
    pub fn items(self, items: Schema) -> (r: Schema)
        ensures
            schema_view(r) == if is_array(schema_view(self)) {
                SchemaV { items: Some(Box::new(schema_view(items))), ..schema_view(self) }
            } else {
                schema_view(self)
            },
    {
        let mut s = self;
        if s.is_array() {
            s.items = Some(Box::new(items));
        }
        s
    }

    /// Sets the maximum number of elements of an `Array` schema; any other
    /// schema is returned unchanged.
    pub fn max_items(self, max_items: i64) -> (r: Schema)
        ensures
            schema_view(r) == if is_array(schema_view(self)) {
                SchemaV { max_items, ..schema_view(self) }
            } else {
                schema_view(self)
            },
    {
        let mut s = self;
        if s.is_array() {
            s.max_items = max_items;
        }
        s
    }

    /// Sets the minimum number of elements of an `Array` schema; any other
    /// schema is returned unchanged.
    pub fn min_items(self, min_items: i64) -> (r: Schema)
        ensures
            schema_view(r) == if is_array(schema_view(self)) {
                SchemaV { min_items, ..schema_view(self) }
            } else {
                schema_view(self)
            },
    {
        let mut s = self;
        if s.is_array() {
            s.min_items = min_items;
        }
        s
    }

    /// Sets one property of an `Object` schema: an existing property of that
    /// name is replaced; any other schema is returned unchanged.
    pub fn property(self, name: &str, schema: Schema) -> (r: Schema)
        ensures
            schema_view(r) == if is_object(schema_view(self)) {
                SchemaV {
                    properties: insert_property(schema_view(self).properties, name@, schema_view(schema)),
                    ..schema_view(self)
                }
            } else {
                schema_view(self)
            },
    {
        let mut s = self;
        if s.is_object() {
            let ghost before = s.properties@;
            let entry = (name.to_owned(), schema);
            match find_property(&s.properties, name) {
                Some(i) => {
                    proof {
                        lemma_property_position(properties_view(before), name@);
                        lemma_properties_view_index(before);
                        lemma_properties_view_update(before, i as int, entry);
                        assert(entry.0@ == name@);
                        assert(property_position(properties_view(before), name@) == Some(i as int));
                        assert(insert_property(properties_view(before), name@, schema_view(entry.1))
                            == properties_view(before).update(i as int, (name@, schema_view(entry.1))));
                    }
                    s.properties.set(i, entry);
                    assert(s.properties@ == before.update(i as int, entry));
                    assert(properties_view(s.properties@) == insert_property(properties_view(before), name@, schema_view(entry.1)));
                },
                None => {
                    s.properties.push(entry);
                    assert(s.properties@.drop_last() =~= before);
                    assert(s.properties@.last() == entry);
                    assert(properties_view(s.properties@) == insert_property(properties_view(before), name@, schema_view(entry.1)));
                },
            }
        }
        s
    }

    /// Sets the properties of an `Object` schema from name-schema pairs, a
    /// later pair replacing an earlier one of the same name; any other
    /// schema is returned unchanged.
    pub fn properties(self, properties: Vec<(String, Schema)>) -> (r: Schema)
        ensures
            schema_view(r) == if is_object(schema_view(self)) {
                SchemaV { properties: properties_from(properties_view(properties@)), ..schema_view(self) }
            } else {
                schema_view(self)
            },
    {
        if !self.is_object() {
            return self;
        }
        let ghost orig = schema_view(self);
        let mut s = self;
        s.properties = Vec::new();
        assert(properties_view(s.properties@) == Seq::<(Seq<char>, SchemaV)>::empty());
        let ghost items = properties@;
        let ghost iv = properties_view(items);
        proof {
            lemma_properties_view_index(items);
        }
        for p in it: properties
            invariant
                it.seq() == items,
                iv == properties_view(items),
                iv.len() == items.len(),
                forall|j: int| 0 <= j < items.len() ==> #[trigger] iv[j] == (items[j].0@, schema_view(items[j].1)),
                is_object(orig),
                schema_view(s) == (SchemaV { properties: properties_from(iv.take(it.index() as int)), ..orig }),
        {
            let ghost k = it.index();
            assert(items[k as int] == p);
            assert(iv.take(k + 1).drop_last() =~= iv.take(k as int));
            assert(iv.take(k + 1).last() == iv[k as int]);
            let (name, schema) = p;
            s = s.property(name.as_str(), schema);
        }
        assert(iv.take(items.len() as int) =~= iv);
        s
    }

    /// Adds a required field to an `Object` schema; any other schema is
    /// returned unchanged.
    pub fn required_field(self, name: &str) -> (r: Schema)
        ensures
            schema_view(r) == if is_object(schema_view(self)) {
                SchemaV { required: schema_view(self).required.push(name@), ..schema_view(self) }
            } else {
                schema_view(self)
            },
    {
        let mut s = self;
        if s.is_object() {
            let ghost before = s.required@;
            let n = name.to_owned();
            s.required.push(n);
            assert(strings_view(s.required@) =~= strings_view(before).push(name@));
        }
        s
    }

    /// Sets the list of all required properties of an `Object` schema; any
    /// other schema is returned unchanged.
    pub fn required(self, required: Vec<String>) -> (r: Schema)
        ensures
            schema_view(r) == if is_object(schema_view(self)) {
                SchemaV { required: strings_view(required@), ..schema_view(self) }
            } else {
                schema_view(self)
            },
    {
        let mut s = self;
        if s.is_object() {
            s.required = required;
        }
        s
    }

    /// Whether the schema is an object.
    pub fn is_object(&self) -> (r: bool)
        ensures
            r == is_object(schema_view(*self)),
    {
        self.type_ == Type::Object.value()
    }

    /// Whether the schema is an array.
    pub fn is_array(&self) -> (r: bool)
        ensures
            r == is_array(schema_view(*self)),
    {
        self.type_ == Type::Array.value()
    }

    /// Whether the schema is a string.
    pub fn is_string(&self) -> (r: bool)
        ensures
            r == is_string(schema_view(*self)),
    {
        self.type_ == Type::String.value()
    }
}


/// Setting properties one by one never repeats a name.
pub proof fn lemma_properties_from_distinct(items: Seq<(Seq<char>, SchemaV)>)
    ensures
        names_distinct(properties_from(items)),
    decreases items.len(),
{
    if items.len() > 0 {
        lemma_properties_from_distinct(items.drop_last());
        lemma_insert_property_distinct(properties_from(items.drop_last()), items.last().0, items.last().1);
    }
}

/// Adding a property to an object schema keeps its property names distinct
/// and makes the schema hold the property.
pub proof fn property_keeps_names_distinct(s: SchemaV, name: Seq<char>, p: SchemaV)
    requires
        names_distinct(s.properties),
    ensures
        names_distinct(insert_property(s.properties, name, p)),
        insert_property(s.properties, name, p).contains((name, p)),
{
    lemma_insert_property_distinct(s.properties, name, p);
}

/// Types that can generate a `Schema` describing their values.
pub trait AsSchema {
    /// The schema of the type.
    spec fn schema_spec() -> SchemaV;

    /// Generates the schema for this type.
    fn as_schema() -> (r: Schema)
        ensures
            schema_view(r) == Self::schema_spec(),
    ;
}

/// The schema of a primitive type: its type and format, nothing else.
pub open spec fn primitive_schema_spec(t: Type, f: SchemaFormat) -> SchemaV {
    SchemaV { format: format_name(f), ..typed_schema(t) }
}

/// The schema of a list of items: a nullable array of them.
pub open spec fn list_schema_spec(item: SchemaV) -> SchemaV {
    SchemaV { nullable: true, items: Some(Box::new(item)), ..typed_schema(Type::Array) }
}

/// Builds the schema of a primitive type.
pub fn primitive_schema(t: Type, f: SchemaFormat) -> (r: Schema)
    ensures
        schema_view(r) == primitive_schema_spec(t, f),
{
    Schema::new(t).format(f)
}

/// Builds the schema of a list of items.
pub fn list_schema(item: Schema) -> (r: Schema)
    ensures
        schema_view(r) == list_schema_spec(schema_view(item)),
{
    let mut s = Schema::new(Type::Array);
    s.items = Some(Box::new(item));
    s.nullable = true;
    s
}

impl AsSchema for bool {
    open spec fn schema_spec() -> SchemaV {
        typed_schema(Type::Boolean)
    }

    fn as_schema() -> (r: Schema) {
        Schema::new(Type::Boolean)
    }
}

impl AsSchema for String {
    open spec fn schema_spec() -> SchemaV {
        typed_schema(Type::String)
    }

    fn as_schema() -> (r: Schema) {
        Schema::new(Type::String)
    }
}

impl AsSchema for str {
    open spec fn schema_spec() -> SchemaV {
        typed_schema(Type::String)
    }

    fn as_schema() -> (r: Schema) {
        Schema::new(Type::String)
    }
}

impl AsSchema for char {
    open spec fn schema_spec() -> SchemaV {
        typed_schema(Type::String)
    }

    fn as_schema() -> (r: Schema) {
        Schema::new(Type::String)
    }
}

impl AsSchema for u8 {
    open spec fn schema_spec() -> SchemaV {
        primitive_schema_spec(Type::Number, SchemaFormat::Unspecified)
    }

    fn as_schema() -> (r: Schema) {
        primitive_schema(Type::Number, SchemaFormat::Unspecified)
    }
}

impl AsSchema for u16 {
    open spec fn schema_spec() -> SchemaV {
        primitive_schema_spec(Type::Number, SchemaFormat::Unspecified)
    }

    fn as_schema() -> (r: Schema) {
        primitive_schema(Type::Number, SchemaFormat::Unspecified)
    }
}

impl AsSchema for u32 {
    open spec fn schema_spec() -> SchemaV {
        primitive_schema_spec(Type::Number, SchemaFormat::Unspecified)
    }

    fn as_schema() -> (r: Schema) {
        primitive_schema(Type::Number, SchemaFormat::Unspecified)
    }
}

impl AsSchema for u64 {
    open spec fn schema_spec() -> SchemaV {
        primitive_schema_spec(Type::Number, SchemaFormat::Unspecified)
    }

    fn as_schema() -> (r: Schema) {
        primitive_schema(Type::Number, SchemaFormat::Unspecified)
    }
}

impl AsSchema for u128 {
    open spec fn schema_spec() -> SchemaV {
        primitive_schema_spec(Type::Number, SchemaFormat::Unspecified)
    }

    fn as_schema() -> (r: Schema) {
        primitive_schema(Type::Number, SchemaFormat::Unspecified)
    }
}

impl AsSchema for usize {
    open spec fn schema_spec() -> SchemaV {
        primitive_schema_spec(Type::Number, SchemaFormat::Unspecified)
    }

    fn as_schema() -> (r: Schema) {
        primitive_schema(Type::Number, SchemaFormat::Unspecified)
    }
}

impl AsSchema for i8 {
    open spec fn schema_spec() -> SchemaV {
        primitive_schema_spec(Type::Integer, SchemaFormat::Unspecified)
    }

    fn as_schema() -> (r: Schema) {
        primitive_schema(Type::Integer, SchemaFormat::Unspecified)
    }
}

impl AsSchema for i16 {
    open spec fn schema_spec() -> SchemaV {
        primitive_schema_spec(Type::Integer, SchemaFormat::Unspecified)
    }

    fn as_schema() -> (r: Schema) {
        primitive_schema(Type::Integer, SchemaFormat::Unspecified)
    }
}

impl AsSchema for i32 {
    open spec fn schema_spec() -> SchemaV {
        primitive_schema_spec(Type::Integer, SchemaFormat::Int32)
    }

    fn as_schema() -> (r: Schema) {
        primitive_schema(Type::Integer, SchemaFormat::Int32)
    }
}

impl AsSchema for i64 {
    open spec fn schema_spec() -> SchemaV {
        primitive_schema_spec(Type::Integer, SchemaFormat::Int64)
    }

    fn as_schema() -> (r: Schema) {
        primitive_schema(Type::Integer, SchemaFormat::Int64)
    }
}

impl AsSchema for i128 {
    open spec fn schema_spec() -> SchemaV {
        primitive_schema_spec(Type::Integer, SchemaFormat::Unspecified)
    }

    fn as_schema() -> (r: Schema) {
        primitive_schema(Type::Integer, SchemaFormat::Unspecified)
    }
}

impl AsSchema for isize {
    open spec fn schema_spec() -> SchemaV {
        primitive_schema_spec(Type::Integer, SchemaFormat::Unspecified)
    }

    fn as_schema() -> (r: Schema) {
        primitive_schema(Type::Integer, SchemaFormat::Unspecified)
    }
}

impl AsSchema for () {
    open spec fn schema_spec() -> SchemaV {
        SchemaV { nullable: true, ..typed_schema(Type::Array) }
    }

    fn as_schema() -> (r: Schema) {
        Schema::new(Type::Array).nullable(true)
    }
}

impl<T: AsSchema> AsSchema for Option<T> {
    open spec fn schema_spec() -> SchemaV {
        SchemaV { nullable: true, ..T::schema_spec() }
    }

    fn as_schema() -> (r: Schema) {
        let mut s = T::as_schema();
        s.nullable = true;
        s
    }
}

impl<T: AsSchema> AsSchema for Vec<T> {
    open spec fn schema_spec() -> SchemaV {
        list_schema_spec(T::schema_spec())
    }

    fn as_schema() -> (r: Schema) {
        list_schema(T::as_schema())
    }
}

impl<T: AsSchema> AsSchema for std::collections::VecDeque<T> {
    open spec fn schema_spec() -> SchemaV {
        list_schema_spec(T::schema_spec())
    }

    fn as_schema() -> (r: Schema) {
        list_schema(T::as_schema())
    }
}

impl<T: AsSchema, const N: usize> AsSchema for [T; N] {
    open spec fn schema_spec() -> SchemaV {
        SchemaV { max_items: N as i64, min_items: N as i64, ..list_schema_spec(T::schema_spec()) }
    }

    fn as_schema() -> (r: Schema) {
        let mut s = list_schema(T::as_schema());
        s.max_items = N as i64;
        s.min_items = N as i64;
        s
    }
}

impl<T: AsSchema + ?Sized> AsSchema for Box<T> {
    open spec fn schema_spec() -> SchemaV {
        T::schema_spec()
    }

    fn as_schema() -> (r: Schema) {
        T::as_schema()
    }
}

impl<T: AsSchema + ?Sized> AsSchema for std::rc::Rc<T> {
    open spec fn schema_spec() -> SchemaV {
        T::schema_spec()
    }

    fn as_schema() -> (r: Schema) {
        T::as_schema()
    }
}

impl<T: AsSchema + ?Sized> AsSchema for std::sync::Arc<T> {
    open spec fn schema_spec() -> SchemaV {
        T::schema_spec()
    }

    fn as_schema() -> (r: Schema) {
        T::as_schema()
    }
}

impl<'a, T: AsSchema + ?Sized> AsSchema for &'a T {
    open spec fn schema_spec() -> SchemaV {
        T::schema_spec()
    }

    fn as_schema() -> (r: Schema) {
        T::as_schema()
    }
}

/// A schema with only its type (by protocol number) and its format set.
pub open spec fn bare_schema(type_number: i32, format: Seq<char>) -> SchemaV {
    SchemaV {
        type_: type_number,
        format,
        description: seq![],
        nullable: false,
        enum_: seq![],
        max_items: 0,
        min_items: 0,
        properties: seq![],
        required: seq![],
        items: None,
    }
}

/// The schemas of the primitive types: unsigned integers are numbers
/// (protocol type 2) without a format; signed integers are integers (3),
/// `i32` and `i64` with the formats `int32` and `int64`, the others without
/// one; `bool` is a boolean (4); strings and characters are strings (1).
/// Nothing else is set.
pub proof fn primitive_schemas_by_type()
    ensures
        <u8 as AsSchema>::schema_spec() == bare_schema(2, seq![]),
        <u16 as AsSchema>::schema_spec() == bare_schema(2, seq![]),
        <u32 as AsSchema>::schema_spec() == bare_schema(2, seq![]),
        <u64 as AsSchema>::schema_spec() == bare_schema(2, seq![]),
        <u128 as AsSchema>::schema_spec() == bare_schema(2, seq![]),
        <usize as AsSchema>::schema_spec() == bare_schema(2, seq![]),
        <i8 as AsSchema>::schema_spec() == bare_schema(3, seq![]),
        <i16 as AsSchema>::schema_spec() == bare_schema(3, seq![]),
        <i32 as AsSchema>::schema_spec() == bare_schema(3, seq!['i', 'n', 't', '3', '2']),
        <i64 as AsSchema>::schema_spec() == bare_schema(3, seq!['i', 'n', 't', '6', '4']),
        <i128 as AsSchema>::schema_spec() == bare_schema(3, seq![]),
        <isize as AsSchema>::schema_spec() == bare_schema(3, seq![]),
        <bool as AsSchema>::schema_spec() == bare_schema(4, seq![]),
        <String as AsSchema>::schema_spec() == bare_schema(1, seq![]),
        <str as AsSchema>::schema_spec() == bare_schema(1, seq![]),
        <char as AsSchema>::schema_spec() == bare_schema(1, seq![]),
{
    reveal_strlit("int32");
    reveal_strlit("int64");
    assert("int32"@ =~= seq!['i', 'n', 't', '3', '2']);
    assert("int64"@ =~= seq!['i', 'n', 't', '6', '4']);
}

/// The schemas of the types built on another: an option is the inner
/// type's schema made nullable; a list (`Vec`, `VecDeque`) is a nullable
/// array (protocol type 5) of the inner type's schema, and an array of `N`
/// is one with exactly `N` items; boxes, shared pointers and references
/// have the inner type's schema.
pub proof fn wrapped_schemas<T: AsSchema, const N: usize>()
    ensures
        <Option<T> as AsSchema>::schema_spec() == (SchemaV { nullable: true, ..T::schema_spec() }),
        <Vec<T> as AsSchema>::schema_spec()
            == (SchemaV { nullable: true, items: Some(Box::new(T::schema_spec())), ..bare_schema(5, seq![]) }),
        <std::collections::VecDeque<T> as AsSchema>::schema_spec()
            == (SchemaV { nullable: true, items: Some(Box::new(T::schema_spec())), ..bare_schema(5, seq![]) }),
        <[T; N] as AsSchema>::schema_spec() == (SchemaV {
            nullable: true,
            items: Some(Box::new(T::schema_spec())),
            max_items: N as i64,
            min_items: N as i64,
            ..bare_schema(5, seq![])
        }),
        <Box<T> as AsSchema>::schema_spec() == T::schema_spec(),
        <std::rc::Rc<T> as AsSchema>::schema_spec() == T::schema_spec(),
        <std::sync::Arc<T> as AsSchema>::schema_spec() == T::schema_spec(),
        <&T as AsSchema>::schema_spec() == T::schema_spec(),
{
}

/// Types that can be represented as maps: the key and value types, the
/// names under which key and value appear in a map entry, and an optional
/// description of the map.
pub trait MapTrait {
    type Key;
    type Value;

    /// The name of the key in a map entry.
    spec fn key_ident_spec() -> Seq<char>;

    /// The name of the value in a map entry.
    spec fn value_ident_spec() -> Seq<char>;

    /// The description of the map, if any.
    spec fn description_spec() -> Option<Seq<char>>;

    /// The name of the key in a map entry (`"key"` unless overridden).
    fn key_ident() -> (r: &'static str)
        ensures
            r@ == Self::key_ident_spec(),
    ;

    /// The name of the value in a map entry (`"value"` unless overridden).
    fn value_ident() -> (r: &'static str)
        ensures
            r@ == Self::value_ident_spec(),
    ;

    /// The description of the map, if any.
    fn description() -> (r: Option<&'static str>)
        ensures
            match r {
                Some(d) => Self::description_spec() == Some(d@),
                None => Self::description_spec() is None,
            },
    ;
}

impl<K, V> MapTrait for std::collections::HashMap<K, V> {
    type Key = K;
    type Value = V;

    open spec fn key_ident_spec() -> Seq<char> {
        "key"@
    }

    open spec fn value_ident_spec() -> Seq<char> {
        "value"@
    }

    open spec fn description_spec() -> Option<Seq<char>> {
        None
    }

    fn key_ident() -> (r: &'static str) {
        "key"
    }

    fn value_ident() -> (r: &'static str) {
        "value"
    }

    fn description() -> (r: Option<&'static str>) {
        None
    }
}

/// A wrapper type to represent maps in a schema-friendly format: an array
/// of entries, each an object with a key and a value.
pub struct SchemaMap<T> {
    inner: T,
}

impl<T> SchemaMap<T> {
    /// Wraps a map.
    pub fn new(inner: T) -> (r: SchemaMap<T>)
        ensures
            r.into_inner_spec() == inner,
    {
        SchemaMap { inner }
    }

    /// The wrapped map.
    pub closed spec fn into_inner_spec(self) -> T {
        self.inner
    }

    /// Unwraps the map.
    pub fn into_inner(self) -> (r: T)
        ensures
            r == self.into_inner_spec(),
    {
        self.inner
    }
}

/// Which part of a map entry a field of the entry holds.
#[derive(Debug, Clone, Copy, PartialEq, Eq, Structural)]
pub enum EntryPart {
    Key,
    Value,
}

/// Why a map entry could not be read.
#[derive(Debug, PartialEq, Eq)]
pub enum EntryError {
    /// A field appeared twice; the field's name.
    DuplicateField(String),
    /// A field that is neither the key nor the value.
    UnknownField,
    /// A field is missing; the field's name.
    MissingField(String),
}

/// What has been read of a map entry, whose fields may come in any order.
#[derive(Debug, Clone, Copy, PartialEq, Eq, Structural)]
pub struct EntryState {
    /// The key has been read.
    pub has_key: bool,
    /// The value has been read.
    pub has_value: bool,
}

impl EntryState {
    /// Nothing read yet.
    pub fn new() -> (r: EntryState)
        ensures
            !r.has_key && !r.has_value,
    {
        EntryState { has_key: false, has_value: false }
    }

    /// Takes the name of the next field of the entry: the key's name (tried
    /// first) or the value's name, each once; any other name is refused.
    pub fn field(&mut self, name: &str, key_ident: &str, value_ident: &str) -> (r: Result<EntryPart, EntryError>)
        ensures
            name@ == key_ident@ ==> if old(self).has_key {
                &&& r matches Err(EntryError::DuplicateField(f)) && f@ == key_ident@
                &&& *final(self) == *old(self)
            } else {
                &&& r == Ok::<EntryPart, EntryError>(EntryPart::Key)
                &&& *final(self) == (EntryState { has_key: true, ..*old(self) })
            },
            name@ != key_ident@ && name@ == value_ident@ ==> if old(self).has_value {
                &&& r matches Err(EntryError::DuplicateField(f)) && f@ == value_ident@
                &&& *final(self) == *old(self)
            } else {
                &&& r == Ok::<EntryPart, EntryError>(EntryPart::Value)
                &&& *final(self) == (EntryState { has_value: true, ..*old(self) })
            },
            name@ != key_ident@ && name@ != value_ident@ ==> {
                &&& r == Err::<EntryPart, EntryError>(EntryError::UnknownField)
                &&& *final(self) == *old(self)
            },
    {
        if str_eq(name, key_ident) {
            if self.has_key {
                return Err(EntryError::DuplicateField(key_ident.to_owned()));
            }
            self.has_key = true;
            Ok(EntryPart::Key)
        } else if str_eq(name, value_ident) {
            if self.has_value {
                return Err(EntryError::DuplicateField(value_ident.to_owned()));
            }
            self.has_value = true;
            Ok(EntryPart::Value)
        } else {
            Err(EntryError::UnknownField)
        }
    }

    /// Checks, at the end of the entry, that both fields were read; the key
    /// is reported missing first.
    pub fn finish(&self, key_ident: &str, value_ident: &str) -> (r: Result<(), EntryError>)
        ensures
            self.has_key && self.has_value <==> r is Ok,
            !self.has_key ==> (r matches Err(EntryError::MissingField(f)) && f@ == key_ident@),
            self.has_key && !self.has_value ==> (r matches Err(EntryError::MissingField(f)) && f@ == value_ident@),
    {
        if !self.has_key {
            Err(EntryError::MissingField(key_ident.to_owned()))
        } else if !self.has_value {
            Err(EntryError::MissingField(value_ident.to_owned()))
        } else {
            Ok(())
        }
    }
}

/// The schema of one entry of a map: an object with the key and the value,
/// both required.
pub open spec fn entry_schema_spec(key: Seq<char>, k: SchemaV, value: Seq<char>, v: SchemaV) -> SchemaV {
    SchemaV {
        properties: insert_property(insert_property(seq![], key, k), value, v),
        required: seq![key, value],
        ..typed_schema(Type::Object)
    }
}

/// The schema of a map: a nullable array of entries, with the map's
/// description if it has one.
pub open spec fn map_schema_spec(key: Seq<char>, k: SchemaV, value: Seq<char>, v: SchemaV, description: Option<Seq<char>>) -> SchemaV {
    let list = list_schema_spec(entry_schema_spec(key, k, value, v));
    match description {
        Some(d) => SchemaV { description: d, ..list },
        None => list,
    }
}

impl<T: MapTrait> AsSchema for SchemaMap<T> where T::Key: AsSchema, T::Value: AsSchema {
    open spec fn schema_spec() -> SchemaV {
        map_schema_spec(
            T::key_ident_spec(),
            <T::Key as AsSchema>::schema_spec(),
            T::value_ident_spec(),
            <T::Value as AsSchema>::schema_spec(),
            T::description_spec(),
        )
    }

    fn as_schema() -> (r: Schema) {
        let key = T::key_ident();
        let value = T::value_ident();
        let mut required: Vec<String> = Vec::new();
        required.push(key.to_owned());
        required.push(value.to_owned());
        assert(strings_view(required@) =~= seq![key@, value@]);
        let entry = Schema::new_object()
            .property(key, <T::Key as AsSchema>::as_schema())
            .property(value, <T::Value as AsSchema>::as_schema())
            .required(required);
        let list = list_schema(entry);
        match T::description() {
            Some(d) => list.description(d),
            None => list,
        }
    }
}

/// A wrapper type to represent tuples in a schema-friendly format: an
/// object whose properties are named by position ("0", "1", ...).
pub struct Tuple<T> {
    inner: T,
}

impl<T> Tuple<T> {
    /// Wraps a tuple.
    pub fn new(inner: T) -> (r: Tuple<T>)
        ensures
            r.into_inner_spec() == inner,
    {
        Tuple { inner }
    }

    /// The wrapped tuple.
    pub closed spec fn into_inner_spec(self) -> T {
        self.inner
    }

    /// Unwraps the tuple.
    pub fn into_inner(self) -> (r: T)
        ensures
            r == self.into_inner_spec(),
    {
        self.inner
    }
}

/// The schema of a tuple of the given element schemas: an object with the
/// elements as required properties named by position.
pub open spec fn tuple_schema_spec(elems: Seq<SchemaV>) -> SchemaV
    decreases elems.len(),
{
    if elems.len() == 0 {
        typed_schema(Type::Object)
    } else {
        let prev = tuple_schema_spec(elems.drop_last());
        let name = position_name(elems.len() - 1);
        SchemaV {
            properties: insert_property(prev.properties, name, elems.last()),
            required: prev.required.push(name),
            ..prev
        }
    }
}

/// The name of the `i`-th element of a tuple: its position in decimal.
pub open spec fn position_name(i: int) -> Seq<char> {
    crate::text::decimal(i as nat)
}

/// Adds the element at position `i` to a tuple schema.
fn add_position(s: Schema, i: u32, elem: Schema) -> (r: Schema)
    requires
        is_object(schema_view(s)),
    ensures
        schema_view(r) == (SchemaV {
            properties: insert_property(schema_view(s).properties, position_name(i as int), schema_view(elem)),
            required: schema_view(s).required.push(position_name(i as int)),
            ..schema_view(s)
        }),
{
    let mut name = String::new();
    crate::text::push_decimal(&mut name, i as u64);
    assert(name@ =~= position_name(i as int));
    s.property(name.as_str(), elem).required_field(name.as_str())
}

impl AsSchema for Tuple<()> {
    open spec fn schema_spec() -> SchemaV {
        tuple_schema_spec(seq![])
    }

    fn as_schema() -> (r: Schema) {
        Schema::new_object()
    }
}

impl<A: AsSchema> AsSchema for Tuple<(A,)> {
    open spec fn schema_spec() -> SchemaV {
        tuple_schema_spec(seq![A::schema_spec()])
    }

    fn as_schema() -> (r: Schema) {
        let s = add_position(Schema::new_object(), 0, A::as_schema());
        assert(seq![A::schema_spec()].drop_last() =~= Seq::<SchemaV>::empty());
        s
    }
}

impl<A: AsSchema, B: AsSchema> AsSchema for Tuple<(A, B)> {
    open spec fn schema_spec() -> SchemaV {
        tuple_schema_spec(seq![A::schema_spec(), B::schema_spec()])
    }

    fn as_schema() -> (r: Schema) {
        let ghost e0 = seq![A::schema_spec()];
        let s = add_position(Schema::new_object(), 0, A::as_schema());
        assert(e0.drop_last() =~= Seq::<SchemaV>::empty());
        assert(schema_view(s) == tuple_schema_spec(e0));
        let ghost e1 = e0.push(B::schema_spec());
        let s = add_position(s, 1, B::as_schema());
        assert(e1.drop_last() =~= e0);
        assert(schema_view(s) == tuple_schema_spec(e1));
        assert(e1 =~= seq![A::schema_spec(), B::schema_spec()]);
        s
    }
}

impl<A: AsSchema, B: AsSchema, C: AsSchema> AsSchema for Tuple<(A, B, C)> {
    open spec fn schema_spec() -> SchemaV {
        tuple_schema_spec(seq![A::schema_spec(), B::schema_spec(), C::schema_spec()])
    }

    fn as_schema() -> (r: Schema) {
        let ghost e0 = seq![A::schema_spec()];
        let s = add_position(Schema::new_object(), 0, A::as_schema());
        assert(e0.drop_last() =~= Seq::<SchemaV>::empty());
        assert(schema_view(s) == tuple_schema_spec(e0));
        let ghost e1 = e0.push(B::schema_spec());
        let s = add_position(s, 1, B::as_schema());
        assert(e1.drop_last() =~= e0);
        assert(schema_view(s) == tuple_schema_spec(e1));
        let ghost e2 = e1.push(C::schema_spec());
        let s = add_position(s, 2, C::as_schema());
        assert(e2.drop_last() =~= e1);
        assert(schema_view(s) == tuple_schema_spec(e2));
        assert(e2 =~= seq![A::schema_spec(), B::schema_spec(), C::schema_spec()]);
        s
    }
}

impl<A: AsSchema, B: AsSchema, C: AsSchema, D: AsSchema> AsSchema for Tuple<(A, B, C, D)> {
    open spec fn schema_spec() -> SchemaV {
        tuple_schema_spec(seq![A::schema_spec(), B::schema_spec(), C::schema_spec(), D::schema_spec()])
    }

    fn as_schema() -> (r: Schema) {
        let ghost e0 = seq![A::schema_spec()];
        let s = add_position(Schema::new_object(), 0, A::as_schema());
        assert(e0.drop_last() =~= Seq::<SchemaV>::empty());
        assert(schema_view(s) == tuple_schema_spec(e0));
        let ghost e1 = e0.push(B::schema_spec());
        let s = add_position(s, 1, B::as_schema());
        assert(e1.drop_last() =~= e0);
        assert(schema_view(s) == tuple_schema_spec(e1));
        let ghost e2 = e1.push(C::schema_spec());
        let s = add_position(s, 2, C::as_schema());
        assert(e2.drop_last() =~= e1);
        assert(schema_view(s) == tuple_schema_spec(e2));
        let ghost e3 = e2.push(D::schema_spec());
        let s = add_position(s, 3, D::as_schema());
        assert(e3.drop_last() =~= e2);
        assert(schema_view(s) == tuple_schema_spec(e3));
        assert(e3 =~= seq![A::schema_spec(), B::schema_spec(), C::schema_spec(), D::schema_spec()]);
        s
    }
}

impl<A: AsSchema, B: AsSchema, C: AsSchema, D: AsSchema, E: AsSchema> AsSchema for Tuple<(A, B, C, D, E)> {
    open spec fn schema_spec() -> SchemaV {
        tuple_schema_spec(seq![A::schema_spec(), B::schema_spec(), C::schema_spec(), D::schema_spec(), E::schema_spec()])
    }

    fn as_schema() -> (r: Schema) {
        let ghost e0 = seq![A::schema_spec()];
        let s = add_position(Schema::new_object(), 0, A::as_schema());
        assert(e0.drop_last() =~= Seq::<SchemaV>::empty());
        assert(schema_view(s) == tuple_schema_spec(e0));
        let ghost e1 = e0.push(B::schema_spec());
        let s = add_position(s, 1, B::as_schema());
        assert(e1.drop_last() =~= e0);
        assert(schema_view(s) == tuple_schema_spec(e1));
        let ghost e2 = e1.push(C::schema_spec());
        let s = add_position(s, 2, C::as_schema());
        assert(e2.drop_last() =~= e1);
        assert(schema_view(s) == tuple_schema_spec(e2));
        let ghost e3 = e2.push(D::schema_spec());
        let s = add_position(s, 3, D::as_schema());
        assert(e3.drop_last() =~= e2);
        assert(schema_view(s) == tuple_schema_spec(e3));
        let ghost e4 = e3.push(E::schema_spec());
        let s = add_position(s, 4, E::as_schema());
        assert(e4.drop_last() =~= e3);
        assert(schema_view(s) == tuple_schema_spec(e4));
        assert(e4 =~= seq![A::schema_spec(), B::schema_spec(), C::schema_spec(), D::schema_spec(), E::schema_spec()]);
        s
    }
}

impl<A: AsSchema, B: AsSchema, C: AsSchema, D: AsSchema, E: AsSchema, F: AsSchema> AsSchema for Tuple<(A, B, C, D, E, F)> {
    open spec fn schema_spec() -> SchemaV {
        tuple_schema_spec(seq![A::schema_spec(), B::schema_spec(), C::schema_spec(), D::schema_spec(), E::schema_spec(), F::schema_spec()])
    }

    fn as_schema() -> (r: Schema) {
        let ghost e0 = seq![A::schema_spec()];
        let s = add_position(Schema::new_object(), 0, A::as_schema());
        assert(e0.drop_last() =~= Seq::<SchemaV>::empty());
        assert(schema_view(s) == tuple_schema_spec(e0));
        let ghost e1 = e0.push(B::schema_spec());
        let s = add_position(s, 1, B::as_schema());
        assert(e1.drop_last() =~= e0);
        assert(schema_view(s) == tuple_schema_spec(e1));
        let ghost e2 = e1.push(C::schema_spec());
        let s = add_position(s, 2, C::as_schema());
        assert(e2.drop_last() =~= e1);
        assert(schema_view(s) == tuple_schema_spec(e2));
        let ghost e3 = e2.push(D::schema_spec());
        let s = add_position(s, 3, D::as_schema());
        assert(e3.drop_last() =~= e2);
        assert(schema_view(s) == tuple_schema_spec(e3));
        let ghost e4 = e3.push(E::schema_spec());
        let s = add_position(s, 4, E::as_schema());
        assert(e4.drop_last() =~= e3);
        assert(schema_view(s) == tuple_schema_spec(e4));
        let ghost e5 = e4.push(F::schema_spec());
        let s = add_position(s, 5, F::as_schema());
        assert(e5.drop_last() =~= e4);
        assert(schema_view(s) == tuple_schema_spec(e5));
        assert(e5 =~= seq![A::schema_spec(), B::schema_spec(), C::schema_spec(), D::schema_spec(), E::schema_spec(), F::schema_spec()]);
        s
    }
}

impl<A: AsSchema, B: AsSchema, C: AsSchema, D: AsSchema, E: AsSchema, F: AsSchema, G: AsSchema> AsSchema for Tuple<(A, B, C, D, E, F, G)> {
    open spec fn schema_spec() -> SchemaV {
        tuple_schema_spec(seq![A::schema_spec(), B::schema_spec(), C::schema_spec(), D::schema_spec(), E::schema_spec(), F::schema_spec(), G::schema_spec()])
    }

    fn as_schema() -> (r: Schema) {
        let ghost e0 = seq![A::schema_spec()];
        let s = add_position(Schema::new_object(), 0, A::as_schema());
        assert(e0.drop_last() =~= Seq::<SchemaV>::empty());
        assert(schema_view(s) == tuple_schema_spec(e0));
        let ghost e1 = e0.push(B::schema_spec());
        let s = add_position(s, 1, B::as_schema());
        assert(e1.drop_last() =~= e0);
        assert(schema_view(s) == tuple_schema_spec(e1));
        let ghost e2 = e1.push(C::schema_spec());
        let s = add_position(s, 2, C::as_schema());
        assert(e2.drop_last() =~= e1);
        assert(schema_view(s) == tuple_schema_spec(e2));
        let ghost e3 = e2.push(D::schema_spec());
        let s = add_position(s, 3, D::as_schema());
        assert(e3.drop_last() =~= e2);
        assert(schema_view(s) == tuple_schema_spec(e3));
        let ghost e4 = e3.push(E::schema_spec());
        let s = add_position(s, 4, E::as_schema());
        assert(e4.drop_last() =~= e3);
        assert(schema_view(s) == tuple_schema_spec(e4));
        let ghost e5 = e4.push(F::schema_spec());
        let s = add_position(s, 5, F::as_schema());
        assert(e5.drop_last() =~= e4);
        assert(schema_view(s) == tuple_schema_spec(e5));
        let ghost e6 = e5.push(G::schema_spec());
        let s = add_position(s, 6, G::as_schema());
        assert(e6.drop_last() =~= e5);
        assert(schema_view(s) == tuple_schema_spec(e6));
        assert(e6 =~= seq![A::schema_spec(), B::schema_spec(), C::schema_spec(), D::schema_spec(), E::schema_spec(), F::schema_spec(), G::schema_spec()]);
        s
    }
}

impl<A: AsSchema, B: AsSchema, C: AsSchema, D: AsSchema, E: AsSchema, F: AsSchema, G: AsSchema, H: AsSchema> AsSchema for Tuple<(A, B, C, D, E, F, G, H)> {
    open spec fn schema_spec() -> SchemaV {
        tuple_schema_spec(seq![A::schema_spec(), B::schema_spec(), C::schema_spec(), D::schema_spec(), E::schema_spec(), F::schema_spec(), G::schema_spec(), H::schema_spec()])
    }

    fn as_schema() -> (r: Schema) {
        let ghost e0 = seq![A::schema_spec()];
        let s = add_position(Schema::new_object(), 0, A::as_schema());
        assert(e0.drop_last() =~= Seq::<SchemaV>::empty());
        assert(schema_view(s) == tuple_schema_spec(e0));
        let ghost e1 = e0.push(B::schema_spec());
        let s = add_position(s, 1, B::as_schema());
        assert(e1.drop_last() =~= e0);
        assert(schema_view(s) == tuple_schema_spec(e1));
        let ghost e2 = e1.push(C::schema_spec());
        let s = add_position(s, 2, C::as_schema());
        assert(e2.drop_last() =~= e1);
        assert(schema_view(s) == tuple_schema_spec(e2));
        let ghost e3 = e2.push(D::schema_spec());
        let s = add_position(s, 3, D::as_schema());
        assert(e3.drop_last() =~= e2);
        assert(schema_view(s) == tuple_schema_spec(e3));
        let ghost e4 = e3.push(E::schema_spec());
        let s = add_position(s, 4, E::as_schema());
        assert(e4.drop_last() =~= e3);
        assert(schema_view(s) == tuple_schema_spec(e4));
        let ghost e5 = e4.push(F::schema_spec());
        let s = add_position(s, 5, F::as_schema());
        assert(e5.drop_last() =~= e4);
        assert(schema_view(s) == tuple_schema_spec(e5));
        let ghost e6 = e5.push(G::schema_spec());
        let s = add_position(s, 6, G::as_schema());
        assert(e6.drop_last() =~= e5);
        assert(schema_view(s) == tuple_schema_spec(e6));
        let ghost e7 = e6.push(H::schema_spec());
        let s = add_position(s, 7, H::as_schema());
        assert(e7.drop_last() =~= e6);
        assert(schema_view(s) == tuple_schema_spec(e7));
        assert(e7 =~= seq![A::schema_spec(), B::schema_spec(), C::schema_spec(), D::schema_spec(), E::schema_spec(), F::schema_spec(), G::schema_spec(), H::schema_spec()]);
        s
    }
}

impl<A: AsSchema, B: AsSchema, C: AsSchema, D: AsSchema, E: AsSchema, F: AsSchema, G: AsSchema, H: AsSchema, I: AsSchema> AsSchema for Tuple<(A, B, C, D, E, F, G, H, I)> {
    open spec fn schema_spec() -> SchemaV {
        tuple_schema_spec(seq![A::schema_spec(), B::schema_spec(), C::schema_spec(), D::schema_spec(), E::schema_spec(), F::schema_spec(), G::schema_spec(), H::schema_spec(), I::schema_spec()])
    }

    fn as_schema() -> (r: Schema) {
        let ghost e0 = seq![A::schema_spec()];
        let s = add_position(Schema::new_object(), 0, A::as_schema());
        assert(e0.drop_last() =~= Seq::<SchemaV>::empty());
        assert(schema_view(s) == tuple_schema_spec(e0));
        let ghost e1 = e0.push(B::schema_spec());
        let s = add_position(s, 1, B::as_schema());
        assert(e1.drop_last() =~= e0);
        assert(schema_view(s) == tuple_schema_spec(e1));
        let ghost e2 = e1.push(C::schema_spec());
        let s = add_position(s, 2, C::as_schema());
        assert(e2.drop_last() =~= e1);
        assert(schema_view(s) == tuple_schema_spec(e2));
        let ghost e3 = e2.push(D::schema_spec());
        let s = add_position(s, 3, D::as_schema());
        assert(e3.drop_last() =~= e2);
        assert(schema_view(s) == tuple_schema_spec(e3));
        let ghost e4 = e3.push(E::schema_spec());
        let s = add_position(s, 4, E::as_schema());
        assert(e4.drop_last() =~= e3);
        assert(schema_view(s) == tuple_schema_spec(e4));
        let ghost e5 = e4.push(F::schema_spec());
        let s = add_position(s, 5, F::as_schema());
        assert(e5.drop_last() =~= e4);
        assert(schema_view(s) == tuple_schema_spec(e5));
        let ghost e6 = e5.push(G::schema_spec());
        let s = add_position(s, 6, G::as_schema());
        assert(e6.drop_last() =~= e5);
        assert(schema_view(s) == tuple_schema_spec(e6));
        let ghost e7 = e6.push(H::schema_spec());
        let s = add_position(s, 7, H::as_schema());
        assert(e7.drop_last() =~= e6);
        assert(schema_view(s) == tuple_schema_spec(e7));
        let ghost e8 = e7.push(I::schema_spec());
        let s = add_position(s, 8, I::as_schema());
        assert(e8.drop_last() =~= e7);
        assert(schema_view(s) == tuple_schema_spec(e8));
        assert(e8 =~= seq![A::schema_spec(), B::schema_spec(), C::schema_spec(), D::schema_spec(), E::schema_spec(), F::schema_spec(), G::schema_spec(), H::schema_spec(), I::schema_spec()]);
        s
    }
}

impl<A: AsSchema, B: AsSchema, C: AsSchema, D: AsSchema, E: AsSchema, F: AsSchema, G: AsSchema, H: AsSchema, I: AsSchema, J: AsSchema> AsSchema for Tuple<(A, B, C, D, E, F, G, H, I, J)> {
    open spec fn schema_spec() -> SchemaV {
        tuple_schema_spec(seq![A::schema_spec(), B::schema_spec(), C::schema_spec(), D::schema_spec(), E::schema_spec(), F::schema_spec(), G::schema_spec(), H::schema_spec(), I::schema_spec(), J::schema_spec()])
    }

    fn as_schema() -> (r: Schema) {
        let ghost e0 = seq![A::schema_spec()];
        let s = add_position(Schema::new_object(), 0, A::as_schema());
        assert(e0.drop_last() =~= Seq::<SchemaV>::empty());
        assert(schema_view(s) == tuple_schema_spec(e0));
        let ghost e1 = e0.push(B::schema_spec());
        let s = add_position(s, 1, B::as_schema());
        assert(e1.drop_last() =~= e0);
        assert(schema_view(s) == tuple_schema_spec(e1));
        let ghost e2 = e1.push(C::schema_spec());
        let s = add_position(s, 2, C::as_schema());
        assert(e2.drop_last() =~= e1);
        assert(schema_view(s) == tuple_schema_spec(e2));
        let ghost e3 = e2.push(D::schema_spec());
        let s = add_position(s, 3, D::as_schema());
        assert(e3.drop_last() =~= e2);
        assert(schema_view(s) == tuple_schema_spec(e3));
        let ghost e4 = e3.push(E::schema_spec());
        let s = add_position(s, 4, E::as_schema());
        assert(e4.drop_last() =~= e3);
        assert(schema_view(s) == tuple_schema_spec(e4));
        let ghost e5 = e4.push(F::schema_spec());
        let s = add_position(s, 5, F::as_schema());
        assert(e5.drop_last() =~= e4);
        assert(schema_view(s) == tuple_schema_spec(e5));
        let ghost e6 = e5.push(G::schema_spec());
        let s = add_position(s, 6, G::as_schema());
        assert(e6.drop_last() =~= e5);
        assert(schema_view(s) == tuple_schema_spec(e6));
        let ghost e7 = e6.push(H::schema_spec());
        let s = add_position(s, 7, H::as_schema());
        assert(e7.drop_last() =~= e6);
        assert(schema_view(s) == tuple_schema_spec(e7));
        let ghost e8 = e7.push(I::schema_spec());
        let s = add_position(s, 8, I::as_schema());
        assert(e8.drop_last() =~= e7);
        assert(schema_view(s) == tuple_schema_spec(e8));
        let ghost e9 = e8.push(J::schema_spec());
        let s = add_position(s, 9, J::as_schema());
        assert(e9.drop_last() =~= e8);
        assert(schema_view(s) == tuple_schema_spec(e9));
        assert(e9 =~= seq![A::schema_spec(), B::schema_spec(), C::schema_spec(), D::schema_spec(), E::schema_spec(), F::schema_spec(), G::schema_spec(), H::schema_spec(), I::schema_spec(), J::schema_spec()]);
        s
    }
}

impl<A: AsSchema, B: AsSchema, C: AsSchema, D: AsSchema, E: AsSchema, F: AsSchema, G: AsSchema, H: AsSchema, I: AsSchema, J: AsSchema, K: AsSchema> AsSchema for Tuple<(A, B, C, D, E, F, G, H, I, J, K)> {
    open spec fn schema_spec() -> SchemaV {
        tuple_schema_spec(seq![A::schema_spec(), B::schema_spec(), C::schema_spec(), D::schema_spec(), E::schema_spec(), F::schema_spec(), G::schema_spec(), H::schema_spec(), I::schema_spec(), J::schema_spec(), K::schema_spec()])
    }

    fn as_schema() -> (r: Schema) {
        let ghost e0 = seq![A::schema_spec()];
        let s = add_position(Schema::new_object(), 0, A::as_schema());
        assert(e0.drop_last() =~= Seq::<SchemaV>::empty());
        assert(schema_view(s) == tuple_schema_spec(e0));
        let ghost e1 = e0.push(B::schema_spec());
        let s = add_position(s, 1, B::as_schema());
        assert(e1.drop_last() =~= e0);
        assert(schema_view(s) == tuple_schema_spec(e1));
        let ghost e2 = e1.push(C::schema_spec());
        let s = add_position(s, 2, C::as_schema());
        assert(e2.drop_last() =~= e1);
        assert(schema_view(s) == tuple_schema_spec(e2));
        let ghost e3 = e2.push(D::schema_spec());
        let s = add_position(s, 3, D::as_schema());
        assert(e3.drop_last() =~= e2);
        assert(schema_view(s) == tuple_schema_spec(e3));
        let ghost e4 = e3.push(E::schema_spec());
        let s = add_position(s, 4, E::as_schema());
        assert(e4.drop_last() =~= e3);
        assert(schema_view(s) == tuple_schema_spec(e4));
        let ghost e5 = e4.push(F::schema_spec());
        let s = add_position(s, 5, F::as_schema());
        assert(e5.drop_last() =~= e4);
        assert(schema_view(s) == tuple_schema_spec(e5));
        let ghost e6 = e5.push(G::schema_spec());
        let s = add_position(s, 6, G::as_schema());
        assert(e6.drop_last() =~= e5);
        assert(schema_view(s) == tuple_schema_spec(e6));
        let ghost e7 = e6.push(H::schema_spec());
        let s = add_position(s, 7, H::as_schema());
        assert(e7.drop_last() =~= e6);
        assert(schema_view(s) == tuple_schema_spec(e7));
        let ghost e8 = e7.push(I::schema_spec());
        let s = add_position(s, 8, I::as_schema());
        assert(e8.drop_last() =~= e7);
        assert(schema_view(s) == tuple_schema_spec(e8));
        let ghost e9 = e8.push(J::schema_spec());
        let s = add_position(s, 9, J::as_schema());
        assert(e9.drop_last() =~= e8);
        assert(schema_view(s) == tuple_schema_spec(e9));
        let ghost e10 = e9.push(K::schema_spec());
        let s = add_position(s, 10, K::as_schema());
        assert(e10.drop_last() =~= e9);
        assert(schema_view(s) == tuple_schema_spec(e10));
        assert(e10 =~= seq![A::schema_spec(), B::schema_spec(), C::schema_spec(), D::schema_spec(), E::schema_spec(), F::schema_spec(), G::schema_spec(), H::schema_spec(), I::schema_spec(), J::schema_spec(), K::schema_spec()]);
        s
    }
}

impl<A: AsSchema, B: AsSchema, C: AsSchema, D: AsSchema, E: AsSchema, F: AsSchema, G: AsSchema, H: AsSchema, I: AsSchema, J: AsSchema, K: AsSchema, L: AsSchema> AsSchema for Tuple<(A, B, C, D, E, F, G, H, I, J, K, L)> {
    open spec fn schema_spec() -> SchemaV {
        tuple_schema_spec(seq![A::schema_spec(), B::schema_spec(), C::schema_spec(), D::schema_spec(), E::schema_spec(), F::schema_spec(), G::schema_spec(), H::schema_spec(), I::schema_spec(), J::schema_spec(), K::schema_spec(), L::schema_spec()])
    }

    fn as_schema() -> (r: Schema) {
        let ghost e0 = seq![A::schema_spec()];
        let s = add_position(Schema::new_object(), 0, A::as_schema());
        assert(e0.drop_last() =~= Seq::<SchemaV>::empty());
        assert(schema_view(s) == tuple_schema_spec(e0));
        let ghost e1 = e0.push(B::schema_spec());
        let s = add_position(s, 1, B::as_schema());
        assert(e1.drop_last() =~= e0);
        assert(schema_view(s) == tuple_schema_spec(e1));
        let ghost e2 = e1.push(C::schema_spec());
        let s = add_position(s, 2, C::as_schema());
        assert(e2.drop_last() =~= e1);
        assert(schema_view(s) == tuple_schema_spec(e2));
        let ghost e3 = e2.push(D::schema_spec());
        let s = add_position(s, 3, D::as_schema());
        assert(e3.drop_last() =~= e2);
        assert(schema_view(s) == tuple_schema_spec(e3));
        let ghost e4 = e3.push(E::schema_spec());
        let s = add_position(s, 4, E::as_schema());
        assert(e4.drop_last() =~= e3);
        assert(schema_view(s) == tuple_schema_spec(e4));
        let ghost e5 = e4.push(F::schema_spec());
        let s = add_position(s, 5, F::as_schema());
        assert(e5.drop_last() =~= e4);
        assert(schema_view(s) == tuple_schema_spec(e5));
        let ghost e6 = e5.push(G::schema_spec());
        let s = add_position(s, 6, G::as_schema());
        assert(e6.drop_last() =~= e5);
        assert(schema_view(s) == tuple_schema_spec(e6));
        let ghost e7 = e6.push(H::schema_spec());
        let s = add_position(s, 7, H::as_schema());
        assert(e7.drop_last() =~= e6);
        assert(schema_view(s) == tuple_schema_spec(e7));
        let ghost e8 = e7.push(I::schema_spec());
        let s = add_position(s, 8, I::as_schema());
        assert(e8.drop_last() =~= e7);
        assert(schema_view(s) == tuple_schema_spec(e8));
        let ghost e9 = e8.push(J::schema_spec());
        let s = add_position(s, 9, J::as_schema());
        assert(e9.drop_last() =~= e8);
        assert(schema_view(s) == tuple_schema_spec(e9));
        let ghost e10 = e9.push(K::schema_spec());
        let s = add_position(s, 10, K::as_schema());
        assert(e10.drop_last() =~= e9);
        assert(schema_view(s) == tuple_schema_spec(e10));
        let ghost e11 = e10.push(L::schema_spec());
        let s = add_position(s, 11, L::as_schema());
        assert(e11.drop_last() =~= e10);
        assert(schema_view(s) == tuple_schema_spec(e11));
        assert(e11 =~= seq![A::schema_spec(), B::schema_spec(), C::schema_spec(), D::schema_spec(), E::schema_spec(), F::schema_spec(), G::schema_spec(), H::schema_spec(), I::schema_spec(), J::schema_spec(), K::schema_spec(), L::schema_spec()]);
        s
    }
}

impl<A: AsSchema, B: AsSchema, C: AsSchema, D: AsSchema, E: AsSchema, F: AsSchema, G: AsSchema, H: AsSchema, I: AsSchema, J: AsSchema, K: AsSchema, L: AsSchema, M: AsSchema> AsSchema for Tuple<(A, B, C, D, E, F, G, H, I, J, K, L, M)> {
    open spec fn schema_spec() -> SchemaV {
        tuple_schema_spec(seq![A::schema_spec(), B::schema_spec(), C::schema_spec(), D::schema_spec(), E::schema_spec(), F::schema_spec(), G::schema_spec(), H::schema_spec(), I::schema_spec(), J::schema_spec(), K::schema_spec(), L::schema_spec(), M::schema_spec()])
    }

    fn as_schema() -> (r: Schema) {
        let ghost e0 = seq![A::schema_spec()];
        let s = add_position(Schema::new_object(), 0, A::as_schema());
        assert(e0.drop_last() =~= Seq::<SchemaV>::empty());
        assert(schema_view(s) == tuple_schema_spec(e0));
        let ghost e1 = e0.push(B::schema_spec());
        let s = add_position(s, 1, B::as_schema());
        assert(e1.drop_last() =~= e0);
        assert(schema_view(s) == tuple_schema_spec(e1));
        let ghost e2 = e1.push(C::schema_spec());
        let s = add_position(s, 2, C::as_schema());
        assert(e2.drop_last() =~= e1);
        assert(schema_view(s) == tuple_schema_spec(e2));
        let ghost e3 = e2.push(D::schema_spec());
        let s = add_position(s, 3, D::as_schema());
        assert(e3.drop_last() =~= e2);
        assert(schema_view(s) == tuple_schema_spec(e3));
        let ghost e4 = e3.push(E::schema_spec());
        let s = add_position(s, 4, E::as_schema());
        assert(e4.drop_last() =~= e3);
        assert(schema_view(s) == tuple_schema_spec(e4));
        let ghost e5 = e4.push(F::schema_spec());
        let s = add_position(s, 5, F::as_schema());
        assert(e5.drop_last() =~= e4);
        assert(schema_view(s) == tuple_schema_spec(e5));
        let ghost e6 = e5.push(G::schema_spec());
        let s = add_position(s, 6, G::as_schema());
        assert(e6.drop_last() =~= e5);
        assert(schema_view(s) == tuple_schema_spec(e6));
        let ghost e7 = e6.push(H::schema_spec());
        let s = add_position(s, 7, H::as_schema());
        assert(e7.drop_last() =~= e6);
        assert(schema_view(s) == tuple_schema_spec(e7));
        let ghost e8 = e7.push(I::schema_spec());
        let s = add_position(s, 8, I::as_schema());
        assert(e8.drop_last() =~= e7);
        assert(schema_view(s) == tuple_schema_spec(e8));
        let ghost e9 = e8.push(J::schema_spec());
        let s = add_position(s, 9, J::as_schema());
        assert(e9.drop_last() =~= e8);
        assert(schema_view(s) == tuple_schema_spec(e9));
        let ghost e10 = e9.push(K::schema_spec());
        let s = add_position(s, 10, K::as_schema());
        assert(e10.drop_last() =~= e9);
        assert(schema_view(s) == tuple_schema_spec(e10));
        let ghost e11 = e10.push(L::schema_spec());
        let s = add_position(s, 11, L::as_schema());
        assert(e11.drop_last() =~= e10);
        assert(schema_view(s) == tuple_schema_spec(e11));
        let ghost e12 = e11.push(M::schema_spec());
        let s = add_position(s, 12, M::as_schema());
        assert(e12.drop_last() =~= e11);
        assert(schema_view(s) == tuple_schema_spec(e12));
        assert(e12 =~= seq![A::schema_spec(), B::schema_spec(), C::schema_spec(), D::schema_spec(), E::schema_spec(), F::schema_spec(), G::schema_spec(), H::schema_spec(), I::schema_spec(), J::schema_spec(), K::schema_spec(), L::schema_spec(), M::schema_spec()]);
        s
    }
}

impl<A: AsSchema, B: AsSchema, C: AsSchema, D: AsSchema, E: AsSchema, F: AsSchema, G: AsSchema, H: AsSchema, I: AsSchema, J: AsSchema, K: AsSchema, L: AsSchema, M: AsSchema, N: AsSchema> AsSchema for Tuple<(A, B, C, D, E, F, G, H, I, J, K, L, M, N)> {
    open spec fn schema_spec() -> SchemaV {
        tuple_schema_spec(seq![A::schema_spec(), B::schema_spec(), C::schema_spec(), D::schema_spec(), E::schema_spec(), F::schema_spec(), G::schema_spec(), H::schema_spec(), I::schema_spec(), J::schema_spec(), K::schema_spec(), L::schema_spec(), M::schema_spec(), N::schema_spec()])
    }

    fn as_schema() -> (r: Schema) {
        let ghost e0 = seq![A::schema_spec()];
        let s = add_position(Schema::new_object(), 0, A::as_schema());
        assert(e0.drop_last() =~= Seq::<SchemaV>::empty());
        assert(schema_view(s) == tuple_schema_spec(e0));
        let ghost e1 = e0.push(B::schema_spec());
        let s = add_position(s, 1, B::as_schema());
        assert(e1.drop_last() =~= e0);
        assert(schema_view(s) == tuple_schema_spec(e1));
        let ghost e2 = e1.push(C::schema_spec());
        let s = add_position(s, 2, C::as_schema());
        assert(e2.drop_last() =~= e1);
        assert(schema_view(s) == tuple_schema_spec(e2));
        let ghost e3 = e2.push(D::schema_spec());
        let s = add_position(s, 3, D::as_schema());
        assert(e3.drop_last() =~= e2);
        assert(schema_view(s) == tuple_schema_spec(e3));
        let ghost e4 = e3.push(E::schema_spec());
        let s = add_position(s, 4, E::as_schema());
        assert(e4.drop_last() =~= e3);
        assert(schema_view(s) == tuple_schema_spec(e4));
        let ghost e5 = e4.push(F::schema_spec());
        let s = add_position(s, 5, F::as_schema());
        assert(e5.drop_last() =~= e4);
        assert(schema_view(s) == tuple_schema_spec(e5));
        let ghost e6 = e5.push(G::schema_spec());
        let s = add_position(s, 6, G::as_schema());
        assert(e6.drop_last() =~= e5);
        assert(schema_view(s) == tuple_schema_spec(e6));
        let ghost e7 = e6.push(H::schema_spec());
        let s = add_position(s, 7, H::as_schema());
        assert(e7.drop_last() =~= e6);
        assert(schema_view(s) == tuple_schema_spec(e7));
        let ghost e8 = e7.push(I::schema_spec());
        let s = add_position(s, 8, I::as_schema());
        assert(e8.drop_last() =~= e7);
        assert(schema_view(s) == tuple_schema_spec(e8));
        let ghost e9 = e8.push(J::schema_spec());
        let s = add_position(s, 9, J::as_schema());
        assert(e9.drop_last() =~= e8);
        assert(schema_view(s) == tuple_schema_spec(e9));
        let ghost e10 = e9.push(K::schema_spec());
        let s = add_position(s, 10, K::as_schema());
        assert(e10.drop_last() =~= e9);
        assert(schema_view(s) == tuple_schema_spec(e10));
        let ghost e11 = e10.push(L::schema_spec());
        let s = add_position(s, 11, L::as_schema());
        assert(e11.drop_last() =~= e10);
        assert(schema_view(s) == tuple_schema_spec(e11));
        let ghost e12 = e11.push(M::schema_spec());
        let s = add_position(s, 12, M::as_schema());
        assert(e12.drop_last() =~= e11);
        assert(schema_view(s) == tuple_schema_spec(e12));
        let ghost e13 = e12.push(N::schema_spec());
        let s = add_position(s, 13, N::as_schema());
        assert(e13.drop_last() =~= e12);
        assert(schema_view(s) == tuple_schema_spec(e13));
        assert(e13 =~= seq![A::schema_spec(), B::schema_spec(), C::schema_spec(), D::schema_spec(), E::schema_spec(), F::schema_spec(), G::schema_spec(), H::schema_spec(), I::schema_spec(), J::schema_spec(), K::schema_spec(), L::schema_spec(), M::schema_spec(), N::schema_spec()]);
        s
    }
}

impl<A: AsSchema, B: AsSchema, C: AsSchema, D: AsSchema, E: AsSchema, F: AsSchema, G: AsSchema, H: AsSchema, I: AsSchema, J: AsSchema, K: AsSchema, L: AsSchema, M: AsSchema, N: AsSchema, O: AsSchema> AsSchema for Tuple<(A, B, C, D, E, F, G, H, I, J, K, L, M, N, O)> {
    open spec fn schema_spec() -> SchemaV {
        tuple_schema_spec(seq![A::schema_spec(), B::schema_spec(), C::schema_spec(), D::schema_spec(), E::schema_spec(), F::schema_spec(), G::schema_spec(), H::schema_spec(), I::schema_spec(), J::schema_spec(), K::schema_spec(), L::schema_spec(), M::schema_spec(), N::schema_spec(), O::schema_spec()])
    }

    fn as_schema() -> (r: Schema) {
        let ghost e0 = seq![A::schema_spec()];
        let s = add_position(Schema::new_object(), 0, A::as_schema());
        assert(e0.drop_last() =~= Seq::<SchemaV>::empty());
        assert(schema_view(s) == tuple_schema_spec(e0));
        let ghost e1 = e0.push(B::schema_spec());
        let s = add_position(s, 1, B::as_schema());
        assert(e1.drop_last() =~= e0);
        assert(schema_view(s) == tuple_schema_spec(e1));
        let ghost e2 = e1.push(C::schema_spec());
        let s = add_position(s, 2, C::as_schema());
        assert(e2.drop_last() =~= e1);
        assert(schema_view(s) == tuple_schema_spec(e2));
        let ghost e3 = e2.push(D::schema_spec());
        let s = add_position(s, 3, D::as_schema());
        assert(e3.drop_last() =~= e2);
        assert(schema_view(s) == tuple_schema_spec(e3));
        let ghost e4 = e3.push(E::schema_spec());
        let s = add_position(s, 4, E::as_schema());
        assert(e4.drop_last() =~= e3);
        assert(schema_view(s) == tuple_schema_spec(e4));
        let ghost e5 = e4.push(F::schema_spec());
        let s = add_position(s, 5, F::as_schema());
        assert(e5.drop_last() =~= e4);
        assert(schema_view(s) == tuple_schema_spec(e5));
        let ghost e6 = e5.push(G::schema_spec());
        let s = add_position(s, 6, G::as_schema());
        assert(e6.drop_last() =~= e5);
        assert(schema_view(s) == tuple_schema_spec(e6));
        let ghost e7 = e6.push(H::schema_spec());
        let s = add_position(s, 7, H::as_schema());
        assert(e7.drop_last() =~= e6);
        assert(schema_view(s) == tuple_schema_spec(e7));
        let ghost e8 = e7.push(I::schema_spec());
        let s = add_position(s, 8, I::as_schema());
        assert(e8.drop_last() =~= e7);
        assert(schema_view(s) == tuple_schema_spec(e8));
        let ghost e9 = e8.push(J::schema_spec());
        let s = add_position(s, 9, J::as_schema());
        assert(e9.drop_last() =~= e8);
        assert(schema_view(s) == tuple_schema_spec(e9));
        let ghost e10 = e9.push(K::schema_spec());
        let s = add_position(s, 10, K::as_schema());
        assert(e10.drop_last() =~= e9);
        assert(schema_view(s) == tuple_schema_spec(e10));
        let ghost e11 = e10.push(L::schema_spec());
        let s = add_position(s, 11, L::as_schema());
        assert(e11.drop_last() =~= e10);
        assert(schema_view(s) == tuple_schema_spec(e11));
        let ghost e12 = e11.push(M::schema_spec());
        let s = add_position(s, 12, M::as_schema());
        assert(e12.drop_last() =~= e11);
        assert(schema_view(s) == tuple_schema_spec(e12));
        let ghost e13 = e12.push(N::schema_spec());
        let s = add_position(s, 13, N::as_schema());
        assert(e13.drop_last() =~= e12);
        assert(schema_view(s) == tuple_schema_spec(e13));
        let ghost e14 = e13.push(O::schema_spec());
        let s = add_position(s, 14, O::as_schema());
        assert(e14.drop_last() =~= e13);
        assert(schema_view(s) == tuple_schema_spec(e14));
        assert(e14 =~= seq![A::schema_spec(), B::schema_spec(), C::schema_spec(), D::schema_spec(), E::schema_spec(), F::schema_spec(), G::schema_spec(), H::schema_spec(), I::schema_spec(), J::schema_spec(), K::schema_spec(), L::schema_spec(), M::schema_spec(), N::schema_spec(), O::schema_spec()]);
        s
    }
}

impl<A: AsSchema, B: AsSchema, C: AsSchema, D: AsSchema, E: AsSchema, F: AsSchema, G: AsSchema, H: AsSchema, I: AsSchema, J: AsSchema, K: AsSchema, L: AsSchema, M: AsSchema, N: AsSchema, O: AsSchema, P: AsSchema> AsSchema for Tuple<(A, B, C, D, E, F, G, H, I, J, K, L, M, N, O, P)> {
    open spec fn schema_spec() -> SchemaV {
        tuple_schema_spec(seq![A::schema_spec(), B::schema_spec(), C::schema_spec(), D::schema_spec(), E::schema_spec(), F::schema_spec(), G::schema_spec(), H::schema_spec(), I::schema_spec(), J::schema_spec(), K::schema_spec(), L::schema_spec(), M::schema_spec(), N::schema_spec(), O::schema_spec(), P::schema_spec()])
    }

    fn as_schema() -> (r: Schema) {
        let ghost e0 = seq![A::schema_spec()];
        let s = add_position(Schema::new_object(), 0, A::as_schema());
        assert(e0.drop_last() =~= Seq::<SchemaV>::empty());
        assert(schema_view(s) == tuple_schema_spec(e0));
        let ghost e1 = e0.push(B::schema_spec());
        let s = add_position(s, 1, B::as_schema());
        assert(e1.drop_last() =~= e0);
        assert(schema_view(s) == tuple_schema_spec(e1));
        let ghost e2 = e1.push(C::schema_spec());
        let s = add_position(s, 2, C::as_schema());
        assert(e2.drop_last() =~= e1);
        assert(schema_view(s) == tuple_schema_spec(e2));
        let ghost e3 = e2.push(D::schema_spec());
        let s = add_position(s, 3, D::as_schema());
        assert(e3.drop_last() =~= e2);
        assert(schema_view(s) == tuple_schema_spec(e3));
        let ghost e4 = e3.push(E::schema_spec());
        let s = add_position(s, 4, E::as_schema());
        assert(e4.drop_last() =~= e3);
        assert(schema_view(s) == tuple_schema_spec(e4));
        let ghost e5 = e4.push(F::schema_spec());
        let s = add_position(s, 5, F::as_schema());
        assert(e5.drop_last() =~= e4);
        assert(schema_view(s) == tuple_schema_spec(e5));
        let ghost e6 = e5.push(G::schema_spec());
        let s = add_position(s, 6, G::as_schema());
        assert(e6.drop_last() =~= e5);
        assert(schema_view(s) == tuple_schema_spec(e6));
        let ghost e7 = e6.push(H::schema_spec());
        let s = add_position(s, 7, H::as_schema());
        assert(e7.drop_last() =~= e6);
        assert(schema_view(s) == tuple_schema_spec(e7));
        let ghost e8 = e7.push(I::schema_spec());
        let s = add_position(s, 8, I::as_schema());
        assert(e8.drop_last() =~= e7);
        assert(schema_view(s) == tuple_schema_spec(e8));
        let ghost e9 = e8.push(J::schema_spec());
        let s = add_position(s, 9, J::as_schema());
        assert(e9.drop_last() =~= e8);
        assert(schema_view(s) == tuple_schema_spec(e9));
        let ghost e10 = e9.push(K::schema_spec());
        let s = add_position(s, 10, K::as_schema());
        assert(e10.drop_last() =~= e9);
        assert(schema_view(s) == tuple_schema_spec(e10));
        let ghost e11 = e10.push(L::schema_spec());
        let s = add_position(s, 11, L::as_schema());
        assert(e11.drop_last() =~= e10);
        assert(schema_view(s) == tuple_schema_spec(e11));
        let ghost e12 = e11.push(M::schema_spec());
        let s = add_position(s, 12, M::as_schema());
        assert(e12.drop_last() =~= e11);
        assert(schema_view(s) == tuple_schema_spec(e12));
        let ghost e13 = e12.push(N::schema_spec());
        let s = add_position(s, 13, N::as_schema());
        assert(e13.drop_last() =~= e12);
        assert(schema_view(s) == tuple_schema_spec(e13));
        let ghost e14 = e13.push(O::schema_spec());
        let s = add_position(s, 14, O::as_schema());
        assert(e14.drop_last() =~= e13);
        assert(schema_view(s) == tuple_schema_spec(e14));
        let ghost e15 = e14.push(P::schema_spec());
        let s = add_position(s, 15, P::as_schema());
        assert(e15.drop_last() =~= e14);
        assert(schema_view(s) == tuple_schema_spec(e15));
        assert(e15 =~= seq![A::schema_spec(), B::schema_spec(), C::schema_spec(), D::schema_spec(), E::schema_spec(), F::schema_spec(), G::schema_spec(), H::schema_spec(), I::schema_spec(), J::schema_spec(), K::schema_spec(), L::schema_spec(), M::schema_spec(), N::schema_spec(), O::schema_spec(), P::schema_spec()]);
        s
    }
}

} // verus!
