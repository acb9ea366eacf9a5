//! Reading the schema attributes written on a type and on its items.
//!
//! An attribute is held as plain values: its owner (`schema`, `serde`, ..)
//! and its nested items, each a name and the value written after it. The
//! reader takes the `#[schema(..)]` items it knows, refuses the others, and,
//! unless serde attributes are ignored, falls back on serde's `rename`,
//! `skip` and `rename_all`.
use vstd::prelude::*;
use crate::attr::{
    format_name, format_possible_values, schema_type_name, sorted_names, strs_view, unknown_one_of_error,
    unknown_value_message, values_text, case_spellings, case_names, Format, Type,
};
use crate::case::{case_name, Case};
use crate::content::opt_str;
use crate::derive::{named_struct, named_struct_spec, result_view, Attr, DerivedSchema, NamedField, TopAttr};
use crate::text::{contains_char, decimal, push_decimal, push_str, str_eq};

verus! {

/// The value written after the name of a nested attribute.
#[derive(Debug)]
pub enum MetaValue {
    /// No value: `#[schema(skip)]`.
    Absent,
    /// A string literal: `rename = "name"`.
    Str(String),
    /// A boolean literal: `nullable = true`.
    Bool(bool),
    /// An integer literal, by its value: `min_items = 2`.
    Int(u64),
    /// A path, by its text: `as_schema = crate::module::function`.
    Path(String),
}

/// A value as written, with its text.
pub enum MetaValueV {
    Absent,
    Str(Seq<char>),
    Bool(bool),
    Int(u64),
    Path(Seq<char>),
}

impl View for MetaValue {
    type V = MetaValueV;

    open spec fn view(&self) -> MetaValueV {
        match self {
            MetaValue::Absent => MetaValueV::Absent,
            MetaValue::Str(s) => MetaValueV::Str(s@),
            MetaValue::Bool(b) => MetaValueV::Bool(*b),
            MetaValue::Int(n) => MetaValueV::Int(*n),
            MetaValue::Path(p) => MetaValueV::Path(p@),
        }
    }
}

/// A nested attribute: `name` or `name = value`. A name made of several
/// segments (`a::b`) holds `::`.
#[derive(Debug)]
pub struct MetaItem {
    pub name: String,
    pub value: MetaValue,
}

/// A nested attribute, by its text.
pub struct MetaItemV {
    pub name: Seq<char>,
    pub value: MetaValueV,
}

impl View for MetaItem {
    type V = MetaItemV;

    open spec fn view(&self) -> MetaItemV {
        MetaItemV { name: self.name@, value: self.value@ }
    }
}

/// An attribute: `#[owner(item, item, ..)]`.
#[derive(Debug)]
pub struct MetaAttr {
    pub owner: String,
    pub items: Vec<MetaItem>,
}

/// An attribute, by its text.
pub struct MetaAttrV {
    pub owner: Seq<char>,
    pub items: Seq<MetaItemV>,
}

impl View for MetaAttr {
    type V = MetaAttrV;

    open spec fn view(&self) -> MetaAttrV {
        MetaAttrV { owner: self.owner@, items: self.items@.map_values(|i: MetaItem| i@) }
    }
}

/// The attributes, by their text.
pub open spec fn attrs_view(attrs: Seq<MetaAttr>) -> Seq<MetaAttrV> {
    attrs.map_values(|a: MetaAttr| a@)
}

/// What an attribute takes, and how a second occurrence is met.
#[derive(Clone, Copy, Debug, PartialEq, Eq, Structural)]
pub enum Kind {
    /// A string; once.
    Text,
    /// A string; occurrences are joined (a description over several lines).
    Lines,
    /// A boolean, as a literal or a string; present alone, it is true.
    Flag,
    /// A number of elements.
    Count,
    /// A path, written as is or in a string.
    PathText,
    /// The spelling of a naming convention.
    CaseName,
    /// The spelling of a format.
    FormatName,
    /// The spelling of a type.
    TypeName,
}

/// The value an attribute got.
#[derive(Debug)]
pub enum Got {
    Text(String),
    Flag(bool),
    Count(i64),
    Case(Case),
}

/// The value an attribute got, by its text.
pub enum GotV {
    Text(Seq<char>),
    Flag(bool),
    Count(i64),
    Case(Case),
}

impl View for Got {
    type V = GotV;

    open spec fn view(&self) -> GotV {
        match self {
            Got::Text(s) => GotV::Text(s@),
            Got::Flag(b) => GotV::Flag(*b),
            Got::Count(n) => GotV::Count(*n),
            Got::Case(c) => GotV::Case(*c),
        }
    }
}

/// The value of an attribute slot, by its text.
pub open spec fn slot_view(o: Option<Got>) -> Option<GotV> {
    match o {
        Some(g) => Some(g@),
        None => None,
    }
}

/// The slots, by their text.
pub open spec fn slots_view(s: Seq<Option<Got>>) -> Seq<Option<GotV>> {
    s.map_values(|o: Option<Got>| slot_view(o))
}

/// The spellings of the formats.
pub open spec fn format_spellings() -> Seq<Seq<char>> {
    seq![
        format_name(Format::Float), format_name(Format::Double), format_name(Format::Int32),
        format_name(Format::Int64), format_name(Format::Enum), format_name(Format::Empty),
    ]
}

/// The spellings of the types.
pub open spec fn type_spellings() -> Seq<Seq<char>> {
    seq![
        schema_type_name(Type::Unspecified), schema_type_name(Type::String), schema_type_name(Type::Number),
        schema_type_name(Type::Integer), schema_type_name(Type::Boolean), schema_type_name(Type::Array),
        schema_type_name(Type::Object),
    ]
}

/// What an attribute keeps after one more occurrence of it: the value read,
/// or the reason it could not be read.
pub open spec fn take_value(kind: Kind, former: Option<GotV>, v: MetaValueV) -> Result<GotV, Seq<char>> {
    if kind != Kind::Lines && former is Some {
        Err("Multiple values not supported"@)
    } else {
        match v {
            MetaValueV::Absent => if kind == Kind::Flag {
                Ok(GotV::Flag(true))
            } else {
                Err("Argument required"@)
            },
            MetaValueV::Str(s) => match kind {
                Kind::Lines => Ok(GotV::Text(match former {
                    Some(GotV::Text(f)) => if s.len() == 0 { f + "\n"@ } else { f + s },
                    _ => s,
                })),
                Kind::Flag => if s == "true"@ {
                    Ok(GotV::Flag(true))
                } else if s == "false"@ {
                    Ok(GotV::Flag(false))
                } else {
                    Err("Error parsing value: expected boolean literal"@)
                },
                Kind::Count => Err("Error parsing value: expected integer literal"@),
                Kind::CaseName => if exists|c: Case| case_name(c) == s {
                    Ok(GotV::Case(choose|c: Case| case_name(c) == s))
                } else {
                    Err(unknown_value_message(s, sorted_names(case_spellings()), "Case"@))
                },
                Kind::FormatName => if format_spellings().contains(s) {
                    Ok(GotV::Text(s))
                } else {
                    Err(unknown_value_message(s, sorted_names(format_spellings()), "Format"@))
                },
                Kind::TypeName => if type_spellings().contains(s) {
                    Ok(GotV::Text(s))
                } else {
                    Err(unknown_value_message(s, sorted_names(type_spellings()), "Type"@))
                },
                _ => Ok(GotV::Text(s)),
            },
            MetaValueV::Bool(b) => match kind {
                Kind::Flag => Ok(GotV::Flag(b)),
                Kind::Count => Err("Error parsing value: expected integer literal"@),
                Kind::PathText => if b {
                    Err("Error parsing value: expected identifier, found keyword `true`"@)
                } else {
                    Err("Error parsing value: expected identifier, found keyword `false`"@)
                },
                _ => Err("Error parsing value: expected string literal"@),
            },
            MetaValueV::Int(n) => match kind {
                Kind::Count => if n <= i64::MAX {
                    Ok(GotV::Count(n as i64))
                } else {
                    Err("number too large to fit in target type"@)
                },
                Kind::Flag => Err("Error parsing value: expected boolean literal"@),
                Kind::PathText => Err("Error parsing value: expected identifier"@),
                _ => Err("Error parsing value: expected string literal"@),
            },
            MetaValueV::Path(p) => match kind {
                Kind::PathText => Ok(GotV::Text(p)),
                Kind::Flag => Err("Error parsing value: expected boolean literal"@),
                Kind::Count => Err("Error parsing value: expected integer literal"@),
                _ => Err("Error parsing value: expected string literal"@),
            },
        }
    }
}

/// A result, by its text.
pub open spec fn taken_view(r: Result<Got, String>) -> Result<GotV, Seq<char>> {
    match r {
        Ok(g) => Ok(g@),
        Err(m) => Err(m@),
    }
}

/// The spellings of the naming conventions differ.
proof fn lemma_case_names_distinct()
    ensures
        forall|a: Case, b: Case| case_name(a) == case_name(b) ==> a == b,
{
    reveal_strlit("camelCase");
    reveal_strlit("snake_case");
    reveal_strlit("lowercase");
    reveal_strlit("UPPERCASE");
    reveal_strlit("PascalCase");
    reveal_strlit("SCREAMING_SNAKE_CASE");
    reveal_strlit("kebab-case");
    reveal_strlit("SCREAMING-KEBAB-CASE");
    assert forall|a: Case, b: Case| case_name(a) == case_name(b) implies a == b by {
        if a != b {
            assert(case_name(a).len() != case_name(b).len() || case_name(a)[0] != case_name(b)[0]
                || case_name(a)[9] != case_name(b)[9]);
        }
    }
}

/// The spellings of the formats, in declaration order.
fn format_names() -> (r: Vec<&'static str>)
    ensures
        strs_view(r@) == format_spellings(),
{
    let r = vec![
        Format::Float.as_str(), Format::Double.as_str(), Format::Int32.as_str(), Format::Int64.as_str(),
        Format::Enum.as_str(), Format::Empty.as_str(),
    ];
    assert(strs_view(r@) =~= format_spellings());
    r
}

/// The spellings of the types, in declaration order.
fn type_names() -> (r: Vec<&'static str>)
    ensures
        strs_view(r@) == type_spellings(),
{
    let r = vec![
        Type::Unspecified.as_str(), Type::String.as_str(), Type::Number.as_str(), Type::Integer.as_str(),
        Type::Boolean.as_str(), Type::Array.as_str(), Type::Object.as_str(),
    ];
    assert(strs_view(r@) =~= type_spellings());
    r
}

/// Reads one more occurrence of an attribute of the given kind, whose
/// earlier occurrences gave `former`.
pub fn take_attr_value(kind: Kind, former: &Option<Got>, value: &MetaValue) -> (r: Result<Got, String>)
    ensures
        taken_view(r) == take_value(kind, slot_view(*former), value@),
{
    if kind != Kind::Lines && former.is_some() {
        return Err("Multiple values not supported".to_owned());
    }
    match value {
        MetaValue::Absent => if kind == Kind::Flag {
            Ok(Got::Flag(true))
        } else {
            Err("Argument required".to_owned())
        },
        MetaValue::Str(s) => match kind {
            Kind::Lines => match former {
                Some(Got::Text(f)) => {
                    let mut out = f.clone();
                    if s.as_str().is_empty() {
                        push_str(&mut out, "\n");
                    } else {
                        push_str(&mut out, s.as_str());
                    }
                    Ok(Got::Text(out))
                },
                _ => Ok(Got::Text(s.clone())),
            },
            Kind::Flag => if str_eq(s.as_str(), "true") {
                Ok(Got::Flag(true))
            } else if str_eq(s.as_str(), "false") {
                Ok(Got::Flag(false))
            } else {
                Err("Error parsing value: expected boolean literal".to_owned())
            },
            Kind::Count => Err("Error parsing value: expected integer literal".to_owned()),
            Kind::CaseName => match Case::from_name(s.as_str()) {
                Some(c) => {
                    proof {
                        lemma_case_names_distinct();
                    }
                    Ok(Got::Case(c))
                },
                None => {
                    let mut names = case_names();
                    Err(unknown_one_of_error(s.as_str(), &mut names, "Case"))
                },
            },
            Kind::FormatName => match Format::from_str(s.as_str()) {
                Ok(f) => {
                    assert(format_spellings().contains(s@)) by {
                        match f {
                            Format::Float => assert(format_spellings()[0] == s@),
                            Format::Double => assert(format_spellings()[1] == s@),
                            Format::Int32 => assert(format_spellings()[2] == s@),
                            Format::Int64 => assert(format_spellings()[3] == s@),
                            Format::Enum => assert(format_spellings()[4] == s@),
                            Format::Empty => assert(format_spellings()[5] == s@),
                        }
                    }
                    Ok(Got::Text(s.clone()))
                },
                Err(_) => {
                    let mut names = format_names();
                    Err(unknown_one_of_error(s.as_str(), &mut names, "Format"))
                },
            },
            Kind::TypeName => match Type::from_str(s.as_str()) {
                Ok(t) => {
                    assert(type_spellings().contains(s@)) by {
                        match t {
                            Type::Unspecified => assert(type_spellings()[0] == s@),
                            Type::String => assert(type_spellings()[1] == s@),
                            Type::Number => assert(type_spellings()[2] == s@),
                            Type::Integer => assert(type_spellings()[3] == s@),
                            Type::Boolean => assert(type_spellings()[4] == s@),
                            Type::Array => assert(type_spellings()[5] == s@),
                            Type::Object => assert(type_spellings()[6] == s@),
                        }
                    }
                    Ok(Got::Text(s.clone()))
                },
                Err(_) => {
                    let mut names = type_names();
                    Err(unknown_one_of_error(s.as_str(), &mut names, "Type"))
                },
            },
            _ => Ok(Got::Text(s.clone())),
        },
        MetaValue::Bool(b) => match kind {
            Kind::Flag => Ok(Got::Flag(*b)),
            Kind::Count => Err("Error parsing value: expected integer literal".to_owned()),
            Kind::PathText => if *b {
                Err("Error parsing value: expected identifier, found keyword `true`".to_owned())
            } else {
                Err("Error parsing value: expected identifier, found keyword `false`".to_owned())
            },
            _ => Err("Error parsing value: expected string literal".to_owned()),
        },
        MetaValue::Int(n) => match kind {
            Kind::Count => if *n <= 9223372036854775807u64 {
                Ok(Got::Count(*n as i64))
            } else {
                Err("number too large to fit in target type".to_owned())
            },
            Kind::Flag => Err("Error parsing value: expected boolean literal".to_owned()),
            Kind::PathText => Err("Error parsing value: expected identifier".to_owned()),
            _ => Err("Error parsing value: expected string literal".to_owned()),
        },
        MetaValue::Path(p) => match kind {
            Kind::PathText => Ok(Got::Text(p.clone())),
            Kind::Flag => Err("Error parsing value: expected boolean literal".to_owned()),
            Kind::Count => Err("Error parsing value: expected integer literal".to_owned()),
            _ => Err("Error parsing value: expected string literal".to_owned()),
        },
    }
}

/// What a reading looks at: the owner of the attributes it reads, whether
/// it only looks for some items (passing over the others), the names it
/// refuses, and the names and kinds of the items it takes.
pub struct ReadingV {
    pub owner: Seq<char>,
    pub finding: bool,
    pub disallow: Seq<Seq<char>>,
    pub names: Seq<Seq<char>>,
    pub kinds: Seq<Kind>,
}

/// Where a name stands first among the names; -1 when it is not there.
pub open spec fn slot_of(names: Seq<Seq<char>>, n: Seq<char>) -> int {
    if names.contains(n) {
        choose|k: int| 0 <= k < names.len() && names[k] == n && forall|i: int| 0 <= i < k ==> names[i] != n
    } else {
        -1
    }
}

/// The names that are not refused, in order.
pub open spec fn allowed_names(names: Seq<Seq<char>>, disallow: Seq<Seq<char>>) -> Seq<Seq<char>>
    decreases names.len(),
{
    if names.len() == 0 {
        seq![]
    } else {
        allowed_names(names.drop_last(), disallow) + (if disallow.contains(names.last()) {
            Seq::<Seq<char>>::empty()
        } else {
            seq![names.last()]
        })
    }
}

/// The names a reading accepts, sorted and listed.
pub open spec fn accepted_list(rd: ReadingV) -> Seq<char> {
    let a = sorted_names(allowed_names(rd.names, rd.disallow));
    values_text(a, a.len() as int, "and"@)
}

/// The message for a refused name.
pub open spec fn disallowed_message(name: Seq<char>, rd: ReadingV) -> Seq<char> {
    "Disallowed schema attribute "@ + name + ". Allowed attributes include: "@ + accepted_list(rd)
}

/// The message for a name that is not known.
pub open spec fn unsupported_message(name: Seq<char>, rd: ReadingV) -> Seq<char> {
    "Unsupported schema attribute "@ + name + ". Valid attributes include: "@ + accepted_list(rd)
}

/// Where a reading stands: going on with the slots, done with this
/// attribute (the rest of it is passed over), or failed with a message.
pub enum ReadV {
    Go(Seq<Option<GotV>>),
    Stop(Seq<Option<GotV>>),
    Fail(Seq<char>),
}

/// Reads one nested item into the slots.
pub open spec fn read_item(rd: ReadingV, st: Seq<Option<GotV>>, item: MetaItemV) -> ReadV {
    if item.name.contains(':') {
        if item.value is Absent {
            ReadV::Go(st)
        } else if rd.finding {
            ReadV::Stop(st)
        } else {
            ReadV::Fail("expected `,`"@)
        }
    } else if !rd.finding && rd.disallow.contains(item.name) {
        ReadV::Fail(disallowed_message(item.name, rd))
    } else if rd.names.contains(item.name) {
        let k = slot_of(rd.names, item.name);
        match take_value(rd.kinds[k], st[k], item.value) {
            Ok(g) => ReadV::Go(st.update(k, Some(g))),
            Err(e) => ReadV::Fail("Schema attribute "@ + item.name + ": "@ + e),
        }
    } else if !rd.finding {
        ReadV::Fail(unsupported_message(item.name, rd))
    } else if item.value is Absent {
        ReadV::Go(st)
    } else {
        ReadV::Stop(st)
    }
}

/// Reads the nested items of one attribute, in order, from the slots `st`.
pub open spec fn read_items(rd: ReadingV, st: Seq<Option<GotV>>, items: Seq<MetaItemV>) -> ReadV
    decreases items.len(),
{
    if items.len() == 0 {
        ReadV::Go(st)
    } else {
        match read_items(rd, st, items.drop_last()) {
            ReadV::Go(s) => read_item(rd, s, items.last()),
            other => other,
        }
    }
}

/// Reads the attributes of the reading's owner, in order, from the slots
/// `st`: the slots filled, or the first failure.
pub open spec fn read_attrs(rd: ReadingV, st: Seq<Option<GotV>>, attrs: Seq<MetaAttrV>) -> Result<Seq<Option<GotV>>, Seq<char>>
    decreases attrs.len(),
{
    if attrs.len() == 0 {
        Ok(st)
    } else {
        match read_attrs(rd, st, attrs.drop_last()) {
            Ok(s) => if attrs.last().owner == rd.owner {
                match read_items(rd, s, attrs.last().items) {
                    ReadV::Go(s2) => Ok(s2),
                    ReadV::Stop(s2) => Ok(s2),
                    ReadV::Fail(m) => Err(m),
                }
            } else {
                Ok(s)
            },
            Err(m) => Err(m),
        }
    }
}

/// `n` empty slots.
pub open spec fn no_slots(n: nat) -> Seq<Option<GotV>> {
    Seq::new(n, |i: int| None)
}

/// Once an attribute has been left or has failed, its later items change
/// nothing.
proof fn lemma_items_settled(rd: ReadingV, st: Seq<Option<GotV>>, items: Seq<MetaItemV>, j: int)
    requires
        0 <= j <= items.len(),
        !(read_items(rd, st, items.take(j)) is Go),
    ensures
        read_items(rd, st, items) == read_items(rd, st, items.take(j)),
    decreases items.len() - j,
{
    if j < items.len() {
        assert(items.take(j + 1).drop_last() =~= items.take(j));
        lemma_items_settled(rd, st, items, j + 1);
    } else {
        assert(items.take(j) =~= items);
    }
}

/// Once a reading has failed, later attributes change nothing.
proof fn lemma_attrs_failed(rd: ReadingV, st: Seq<Option<GotV>>, attrs: Seq<MetaAttrV>, i: int)
    requires
        0 <= i <= attrs.len(),
        read_attrs(rd, st, attrs.take(i)) is Err,
    ensures
        read_attrs(rd, st, attrs) == read_attrs(rd, st, attrs.take(i)),
    decreases attrs.len() - i,
{
    if i < attrs.len() {
        assert(attrs.take(i + 1).drop_last() =~= attrs.take(i));
        lemma_attrs_failed(rd, st, attrs, i + 1);
    } else {
        assert(attrs.take(i) =~= attrs);
    }
}

/// A step of reading, in code.
pub enum Step {
    Go,
    Stop,
    Fail(String),
}

/// A step and the slots it left, by their text.
pub open spec fn step_view(r: Step, st: Seq<Option<GotV>>) -> ReadV {
    match r {
        Step::Go => ReadV::Go(st),
        Step::Stop => ReadV::Stop(st),
        Step::Fail(m) => ReadV::Fail(m@),
    }
}

/// The attributes of an item or of a type, and how they are read: whose
/// attributes, which names are refused, and whether only some items are
/// looked for.
pub struct SetAttr<'a> {
    attrs: &'a [MetaAttr],
    disallow: Vec<&'static str>,
    owner: &'static str,
    is_finding: bool,
}

/// A set of attributes and how it is read, by their text.
pub struct SetAttrV {
    pub attrs: Seq<MetaAttrV>,
    pub disallow: Seq<Seq<char>>,
    pub owner: Seq<char>,
    pub finding: bool,
}

impl<'a> View for SetAttr<'a> {
    type V = SetAttrV;

    closed spec fn view(&self) -> SetAttrV {
        SetAttrV {
            attrs: attrs_view(self.attrs@),
            disallow: strs_view(self.disallow@),
            owner: self.owner@,
            finding: self.is_finding,
        }
    }
}

/// The reading of the given names and kinds in a set of attributes.
pub open spec fn reading(s: SetAttrV, names: Seq<Seq<char>>, kinds: Seq<Kind>) -> ReadingV {
    ReadingV { owner: s.owner, finding: s.finding, disallow: s.disallow, names, kinds }
}

impl<'a> SetAttr<'a> {
    /// The `schema` attributes, nothing refused.
    pub fn new(attrs: &'a [MetaAttr]) -> (r: SetAttr<'a>)
        ensures
            r@ == (SetAttrV { attrs: attrs_view(attrs@), disallow: seq![], owner: "schema"@, finding: false }),
    {
        let r = SetAttr { attrs, disallow: Vec::new(), owner: "schema", is_finding: false };
        assert(strs_view(r.disallow@) =~= seq![]);
        r
    }

    /// The same attributes, refusing the given names.
    pub fn disallow(self, disallow: Vec<&'static str>) -> (r: SetAttr<'a>)
        ensures
            r@ == (SetAttrV { disallow: strs_view(disallow@), ..self@ }),
    {
        SetAttr { disallow, ..self }
    }

    /// Whether a name is refused.
    pub fn is_disallowed(&self, attr: &str) -> (r: bool)
        ensures
            r == self@.disallow.contains(attr@),
    {
        let mut i: usize = 0;
        while i < self.disallow.len()
            invariant
                i <= self.disallow@.len(),
                forall|k: int| 0 <= k < i ==> self.disallow@[k]@ != attr@,
            decreases self.disallow@.len() - i,
        {
            if str_eq(self.disallow[i], attr) {
                assert(self@.disallow[i as int] == attr@);
                return true;
            }
            i = i + 1;
        }
        assert forall|k: int| 0 <= k < self@.disallow.len() implies self@.disallow[k] != attr@ by {
            assert(self@.disallow[k] == self.disallow@[k]@);
        }
        false
    }

    /// The attributes of another owner.
    pub fn owner(self, owner: &'static str) -> (r: SetAttr<'a>)
        ensures
            r@ == (SetAttrV { owner: owner@, ..self@ }),
    {
        SetAttr { owner, ..self }
    }

    /// Only looking for the items it knows, passing over the others.
    pub fn finding(self) -> (r: SetAttr<'a>)
        ensures
            r@ == (SetAttrV { finding: true, ..self@ }),
    {
        SetAttr { is_finding: true, ..self }
    }

    /// The `serde` attributes, looked in for the items known.
    pub fn switch_to_serde(self) -> (r: SetAttr<'a>)
        ensures
            r@ == (SetAttrV { owner: "serde"@, finding: true, ..self@ }),
    {
        self.owner("serde").finding()
    }

    /// Lists the names that are not refused, sorted, for a message.
    pub fn attr_for_error(&self, all: &Vec<&'static str>) -> (r: String)
        ensures
            r@ == accepted_list(reading(self@, strs_view(all@), seq![])),
    {
        let mut allowed: Vec<&str> = Vec::new();
        let mut i: usize = 0;
        while i < all.len()
            invariant
                i <= all@.len(),
                strs_view(allowed@) == allowed_names(strs_view(all@).take(i as int), self@.disallow),
            decreases all@.len() - i,
        {
            let ghost before = allowed@;
            let n = all[i];
            assert(strs_view(all@).take(i + 1).drop_last() =~= strs_view(all@).take(i as int));
            assert(strs_view(all@).take(i + 1).last() == n@);
            if !self.is_disallowed(n) {
                allowed.push(n);
                assert(strs_view(allowed@) =~= strs_view(before) + seq![n@]);
            } else {
                assert(strs_view(allowed@) =~= strs_view(before) + Seq::<Seq<char>>::empty());
            }
            i = i + 1;
        }
        assert(strs_view(all@).take(all@.len() as int) =~= strs_view(all@));
        format_possible_values(&mut allowed, "and")
    }

    /// Reads one nested item into the slots of the given names.
    fn read_one(&self, names: &Vec<&'static str>, kinds: &Vec<Kind>, st: &mut Vec<Option<Got>>, item: &MetaItem) -> (r: Step)
        requires
            names@.len() == kinds@.len(),
            old(st)@.len() == names@.len(),
        ensures
            final(st)@.len() == names@.len(),
            step_view(r, slots_view(final(st)@))
                == read_item(reading(self@, strs_view(names@), kinds@), slots_view(old(st)@), item@),
    {
        let ghost rd = reading(self@, strs_view(names@), kinds@);
        let ghost sv = strs_view(names@);
        let name = item.name.as_str();
        let absent = match &item.value {
            MetaValue::Absent => true,
            _ => false,
        };
        if contains_char(name, ':') {
            if absent {
                return Step::Go;
            } else if self.is_finding {
                return Step::Stop;
            } else {
                return Step::Fail("expected `,`".to_owned());
            }
        }
        if !self.is_finding && self.is_disallowed(name) {
            let list = self.attr_for_error(names);
            let mut m = "Disallowed schema attribute ".to_owned();
            push_str(&mut m, name);
            push_str(&mut m, ". Allowed attributes include: ");
            push_str(&mut m, list.as_str());
            return Step::Fail(m);
        }
        let mut k: usize = 0;
        while k < names.len() && !str_eq(names[k], name)
            invariant
                k <= names@.len(),
                forall|i: int| 0 <= i < k ==> names@[i]@ != name@,
            decreases names@.len() - k,
        {
            k = k + 1;
        }
        if k < names.len() {
            proof {
                assert(sv[k as int] == name@);
                assert(sv.contains(name@));
                assert forall|i: int| 0 <= i < k implies sv[i] != name@ by {
                    assert(sv[i] == names@[i]@);
                }
                let c = choose|j: int| 0 <= j < sv.len() && sv[j] == name@ && forall|i: int| 0 <= i < j ==> sv[i] != name@;
                if c > k {
                    assert(sv[k as int] != name@);
                }
                assert(slot_of(sv, name@) == k);
            }
            match take_attr_value(kinds[k], &st[k], &item.value) {
                Ok(g) => {
                    let ghost gv = g@;
                    let ghost before = st@;
                    st.set(k, Some(g));
                    assert(slots_view(st@) =~= slots_view(before).update(k as int, Some(gv)));
                    Step::Go
                },
                Err(e) => {
                    let mut m = "Schema attribute ".to_owned();
                    push_str(&mut m, name);
                    push_str(&mut m, ": ");
                    push_str(&mut m, e.as_str());
                    Step::Fail(m)
                },
            }
        } else {
            assert(!sv.contains(name@)) by {
                assert forall|i: int| 0 <= i < sv.len() implies sv[i] != name@ by {
                    assert(sv[i] == names@[i]@);
                }
            }
            if !self.is_finding {
                let list = self.attr_for_error(names);
                let mut m = "Unsupported schema attribute ".to_owned();
                push_str(&mut m, name);
                push_str(&mut m, ". Valid attributes include: ");
                push_str(&mut m, list.as_str());
                Step::Fail(m)
            } else if absent {
                Step::Go
            } else {
                Step::Stop
            }
        }
    }

    /// Reads the nested items of one attribute into the slots.
    fn read_attr(&self, names: &Vec<&'static str>, kinds: &Vec<Kind>, st: &mut Vec<Option<Got>>, a: &MetaAttr) -> (r: Result<(), String>)
        requires
            names@.len() == kinds@.len(),
            old(st)@.len() == names@.len(),
        ensures
            final(st)@.len() == names@.len(),
            match read_items(reading(self@, strs_view(names@), kinds@), slots_view(old(st)@), a@.items) {
                ReadV::Go(s) => r is Ok && slots_view(final(st)@) == s,
                ReadV::Stop(s) => r is Ok && slots_view(final(st)@) == s,
                ReadV::Fail(m) => r matches Err(e) && e@ == m,
            },
    {
        let ghost rd = reading(self@, strs_view(names@), kinds@);
        let ghost s0 = slots_view(st@);
        let ghost iv = a@.items;
        let mut j: usize = 0;
        let mut stopped = false;
        while j < a.items.len() && !stopped
            invariant
                rd == reading(self@, strs_view(names@), kinds@),
                iv == a@.items,
                s0 == slots_view(old(st)@),
                names@.len() == kinds@.len(),
                j <= a.items@.len(),
                st@.len() == names@.len(),
                read_items(rd, s0, iv.take(j as int)) == (if stopped {
                    ReadV::Stop(slots_view(st@))
                } else {
                    ReadV::Go(slots_view(st@))
                }),
            decreases a.items@.len() - j,
        {
            assert(iv.take(j + 1).drop_last() =~= iv.take(j as int));
            assert(iv.take(j + 1).last() == a.items@[j as int]@);
            let ghost pre = slots_view(st@);
            match self.read_one(names, kinds, st, &a.items[j]) {
                Step::Go => {},
                Step::Stop => {
                    stopped = true;
                },
                Step::Fail(m) => {
                    proof {
                        assert(read_items(rd, s0, iv.take(j as int)) == ReadV::Go(pre));
                        assert(read_items(rd, s0, iv.take(j + 1)) == ReadV::Fail(m@));
                        lemma_items_settled(rd, s0, iv, j + 1);
                    }
                    return Err(m);
                },
            }
            j = j + 1;
        }
        proof {
            if stopped {
                lemma_items_settled(rd, s0, iv, j as int);
            } else {
                assert(iv.take(j as int) =~= iv);
            }
        }
        Ok(())
    }

    /// Reads the items of the given names and kinds in the attributes of
    /// this set's owner: the value each got, or the first failure.
    pub fn get_attrs(&self, names: &Vec<&'static str>, kinds: &Vec<Kind>) -> (r: Result<Vec<Option<Got>>, String>)
        requires
            names@.len() == kinds@.len(),
        ensures
            r matches Ok(v) ==> v@.len() == names@.len(),
            match read_attrs(reading(self@, strs_view(names@), kinds@), no_slots(names@.len()), self@.attrs) {
                Ok(s) => r matches Ok(v) && slots_view(v@) == s,
                Err(m) => r matches Err(e) && e@ == m,
            },
    {
        let ghost rd = reading(self@, strs_view(names@), kinds@);
        let ghost n = names@.len();
        let mut st: Vec<Option<Got>> = Vec::new();
        let mut k: usize = 0;
        while k < names.len()
            invariant
                k <= names@.len(),
                st@.len() == k,
                slots_view(st@) == no_slots(k as nat),
            decreases names@.len() - k,
        {
            let ghost before = st@;
            st.push(None);
            assert(st@ == before.push(None));
            assert(slots_view(st@) =~= no_slots((k + 1) as nat)) by {
                assert forall|x: int| 0 <= x < k + 1 implies slots_view(st@)[x] == no_slots((k + 1) as nat)[x] by {
                    if x < k {
                        assert(st@[x] == before[x]);
                        assert(slots_view(before)[x] == no_slots(k as nat)[x]);
                    }
                }
            }
            k = k + 1;
        }
        let ghost av = self@.attrs;
        let mut i: usize = 0;
        while i < self.attrs.len()
            invariant
                rd == reading(self@, strs_view(names@), kinds@),
                av == self@.attrs,
                n == names@.len(),
                names@.len() == kinds@.len(),
                i <= self.attrs@.len(),
                st@.len() == n,
                read_attrs(rd, no_slots(n), av.take(i as int)) == Ok::<Seq<Option<GotV>>, Seq<char>>(slots_view(st@)),
            decreases self.attrs@.len() - i,
        {
            let a = &self.attrs[i];
            assert(av.take(i + 1).drop_last() =~= av.take(i as int));
            assert(av.take(i + 1).last() == a@);
            if str_eq(a.owner.as_str(), self.owner) {
                match self.read_attr(names, kinds, &mut st, a) {
                    Ok(()) => {},
                    Err(m) => {
                        proof {
                            lemma_attrs_failed(rd, no_slots(n), av, i + 1);
                        }
                        return Err(m);
                    },
                }
            }
            i = i + 1;
        }
        assert(av.take(av.len() as int) =~= av);
        Ok(st)
    }

    /// Reads one item of the given name and kind in the attributes of this
    /// set's owner.
    pub fn get_attr_fn(&self, attr: &'static str, kind: Kind) -> (r: Result<Option<Got>, String>)
        ensures
            match read_attrs(reading(self@, seq![attr@], seq![kind]), no_slots(1), self@.attrs) {
                Ok(s) => r matches Ok(o) && slot_view(o) == s[0],
                Err(m) => r matches Err(e) && e@ == m,
            },
    {
        let names = vec![attr];
        let kinds = vec![kind];
        assert(strs_view(names@) =~= seq![attr@]);
        assert(kinds@ =~= seq![kind]);
        match self.get_attrs(&names, &kinds) {
            Ok(mut v) => {
                let ghost vv = slots_view(v@);
                let o = v.remove(0);
                assert(slot_view(o) == vv[0]);
                Ok(o)
            },
            Err(e) => Err(e),
        }
    }

    /// The path serde's `crate` attribute gives, if any.
    pub fn find_serde_crate(attrs: &'a [MetaAttr]) -> (r: Result<Option<String>, String>)
        ensures
            match read_attrs(serde_crate_reading(), no_slots(1), attrs_view(attrs@)) {
                Ok(s) => r matches Ok(o) && opt_str(o) == text_of(s[0]),
                Err(m) => r matches Err(e) && e@ == m,
            },
    {
        let set = SetAttr::new(attrs).switch_to_serde();
        match set.get_attr_fn("crate", Kind::PathText) {
            Ok(Some(Got::Text(p))) => Ok(Some(p)),
            Ok(_) => Ok(None),
            Err(e) => Err(e),
        }
    }
}

/// The text a slot holds, if it holds one.
pub open spec fn text_of(o: Option<GotV>) -> Option<Seq<char>> {
    match o {
        Some(GotV::Text(s)) => Some(s),
        _ => None,
    }
}

/// The reading of serde's `crate` attribute.
pub open spec fn serde_crate_reading() -> ReadingV {
    ReadingV { owner: "serde"@, finding: true, disallow: seq![], names: seq!["crate"@], kinds: seq![Kind::PathText] }
}

/// The flag a slot holds, if it holds one.
pub open spec fn flag_of(o: Option<GotV>) -> Option<bool> {
    match o {
        Some(GotV::Flag(b)) => Some(b),
        _ => None,
    }
}

/// The number a slot holds, if it holds one.
pub open spec fn count_of(o: Option<GotV>) -> Option<i64> {
    match o {
        Some(GotV::Count(n)) => Some(n),
        _ => None,
    }
}

/// The naming convention a slot holds, if it holds one.
pub open spec fn case_of(o: Option<GotV>) -> Option<Case> {
    match o {
        Some(GotV::Case(c)) => Some(c),
        _ => None,
    }
}

/// The attributes of an item, by their text.
pub struct AttrV {
    pub description: Option<Seq<char>>,
    pub format: Option<Seq<char>>,
    pub type_: Option<Seq<char>>,
    pub as_schema: Option<Seq<char>>,
    pub as_schema_generic: Option<Seq<char>>,
    pub rename: Option<Seq<char>>,
    pub required: Option<bool>,
    pub min_items: Option<i64>,
    pub max_items: Option<i64>,
    pub nullable: Option<bool>,
    pub skip: Option<bool>,
}

/// The attributes of an item, by their text.
pub open spec fn attr_view(a: Attr) -> AttrV {
    AttrV {
        description: opt_str(a.description),
        format: opt_str(a.format),
        type_: opt_str(a.type_),
        as_schema: opt_str(a.as_schema),
        as_schema_generic: opt_str(a.as_schema_generic),
        rename: opt_str(a.rename),
        required: a.required,
        min_items: a.min_items,
        max_items: a.max_items,
        nullable: a.nullable,
        skip: a.skip,
    }
}

/// The schema attributes an item may carry, in the order they are read.
pub open spec fn item_names() -> Seq<Seq<char>> {
    seq![
        "description"@, "format"@, "r#type"@, "as_schema"@, "as_schema_generic"@, "rename"@, "required"@,
        "min_items"@, "max_items"@, "nullable"@, "skip"@, "ignore_serde"@,
    ]
}

/// What each of the item's attributes takes.
pub open spec fn item_kinds() -> Seq<Kind> {
    seq![
        Kind::Lines, Kind::FormatName, Kind::TypeName, Kind::PathText, Kind::PathText, Kind::Text, Kind::Flag,
        Kind::Count, Kind::Count, Kind::Flag, Kind::Flag, Kind::Flag,
    ]
}

/// The item's attributes from the slots read.
pub open spec fn attr_of_slots(s: Seq<Option<GotV>>) -> AttrV {
    AttrV {
        description: text_of(s[0]),
        format: text_of(s[1]),
        type_: text_of(s[2]),
        as_schema: text_of(s[3]),
        as_schema_generic: text_of(s[4]),
        rename: text_of(s[5]),
        required: flag_of(s[6]),
        min_items: count_of(s[7]),
        max_items: count_of(s[8]),
        nullable: flag_of(s[9]),
        skip: flag_of(s[10]),
    }
}

/// The reading of an item's schema attributes, refusing `disallow`.
pub open spec fn item_reading(disallow: Seq<Seq<char>>) -> ReadingV {
    ReadingV { owner: "schema"@, finding: false, disallow, names: item_names(), kinds: item_kinds() }
}

/// The reading of serde's `rename` and `skip` on an item.
pub open spec fn serde_item_reading(disallow: Seq<Seq<char>>) -> ReadingV {
    ReadingV { owner: "serde"@, finding: true, disallow, names: seq!["rename"@, "skip"@], kinds: seq![Kind::Text, Kind::Flag] }
}

/// Whether the item's own schema attributes turn off serde integration for
/// it (`#[schema(ignore_serde)]`).
pub open spec fn item_ignores_serde(s: Seq<Option<GotV>>) -> bool {
    flag_of(s[11]) == Some(true)
}

/// The attributes of an item: its schema attributes; then, unless serde
/// attributes are ignored (for the whole type, or for this item by its own
/// `ignore_serde`), serde's `rename` and `skip` stand in for those the
/// schema attributes leave unset and do not refuse.
pub open spec fn parse_item_spec(attrs: Seq<MetaAttrV>, ignore_serde: bool, disallow: Seq<Seq<char>>) -> Result<AttrV, Seq<char>> {
    match read_attrs(item_reading(disallow), no_slots(12), attrs) {
        Err(m) => Err(m),
        Ok(s) => {
            let a = attr_of_slots(s);
            let get_rename = a.rename is None && !disallow.contains("rename"@);
            let get_skip = a.skip is None && !disallow.contains("skip"@);
            if ignore_serde || item_ignores_serde(s) || !(get_rename || get_skip) {
                Ok(a)
            } else {
                match read_attrs(serde_item_reading(disallow), no_slots(2), attrs) {
                    Err(m) => Err(m),
                    Ok(u) => Ok(AttrV {
                        rename: if get_rename { text_of(u[0]) } else { a.rename },
                        skip: if get_skip { flag_of(u[1]) } else { a.skip },
                        ..a
                    }),
                }
            }
        },
    }
}

/// The text in a slot.
fn text_at(st: &Vec<Option<Got>>, k: usize) -> (r: Option<String>)
    requires
        k < st@.len(),
    ensures
        opt_str(r) == text_of(slot_view(st@[k as int])),
{
    match &st[k] {
        Some(Got::Text(s)) => Some(s.clone()),
        _ => None,
    }
}

/// The flag in a slot.
fn flag_at(st: &Vec<Option<Got>>, k: usize) -> (r: Option<bool>)
    requires
        k < st@.len(),
    ensures
        r == flag_of(slot_view(st@[k as int])),
{
    match &st[k] {
        Some(Got::Flag(b)) => Some(*b),
        _ => None,
    }
}

/// The number in a slot.
fn count_at(st: &Vec<Option<Got>>, k: usize) -> (r: Option<i64>)
    requires
        k < st@.len(),
    ensures
        r == count_of(slot_view(st@[k as int])),
{
    match &st[k] {
        Some(Got::Count(n)) => Some(*n),
        _ => None,
    }
}

/// The naming convention in a slot.
fn case_at(st: &Vec<Option<Got>>, k: usize) -> (r: Option<Case>)
    requires
        k < st@.len(),
    ensures
        r == case_of(slot_view(st@[k as int])),
{
    match &st[k] {
        Some(Got::Case(c)) => Some(*c),
        _ => None,
    }
}

/// Reads the attributes of an item, refusing the schema attributes named in
/// `disallow`.
///
/// # Errors
/// The message of the first attribute that is refused, unknown, repeated,
/// lacks its value or has one of the wrong kind.
pub fn parse_item(attrs: &[MetaAttr], ignore_serde: bool, disallow: Vec<&'static str>) -> (r: Result<Attr, String>)
    ensures
        match parse_item_spec(attrs_view(attrs@), ignore_serde, strs_view(disallow@)) {
            Ok(a) => r matches Ok(x) && attr_view(x) == a,
            Err(m) => r matches Err(e) && e@ == m,
        },
{
    let set = SetAttr::new(attrs).disallow(disallow);
    let names = vec![
        "description", "format", "r#type", "as_schema", "as_schema_generic", "rename", "required", "min_items",
        "max_items", "nullable", "skip", "ignore_serde",
    ];
    let kinds = vec![
        Kind::Lines, Kind::FormatName, Kind::TypeName, Kind::PathText, Kind::PathText, Kind::Text, Kind::Flag,
        Kind::Count, Kind::Count, Kind::Flag, Kind::Flag, Kind::Flag,
    ];
    assert(strs_view(names@) =~= item_names());
    assert(kinds@ =~= item_kinds());
    let st = match set.get_attrs(&names, &kinds) {
        Ok(v) => v,
        Err(e) => return Err(e),
    };
    let mut attr = Attr {
        description: text_at(&st, 0),
        format: text_at(&st, 1),
        type_: text_at(&st, 2),
        as_schema: text_at(&st, 3),
        as_schema_generic: text_at(&st, 4),
        rename: text_at(&st, 5),
        required: flag_at(&st, 6),
        min_items: count_at(&st, 7),
        max_items: count_at(&st, 8),
        nullable: flag_at(&st, 9),
        skip: flag_at(&st, 10),
    };
    assert(attr_view(attr) == attr_of_slots(slots_view(st@)));
    let own_ignore = match flag_at(&st, 11) {
        Some(b) => b,
        None => false,
    };
    if !ignore_serde && !own_ignore {
        let get_rename = attr.rename.is_none() && !set.is_disallowed("rename");
        let get_skip = attr.skip.is_none() && !set.is_disallowed("skip");
        if get_rename || get_skip {
            let serde = set.switch_to_serde();
            let snames = vec!["rename", "skip"];
            let skinds = vec![Kind::Text, Kind::Flag];
            assert(strs_view(snames@) =~= seq!["rename"@, "skip"@]);
            assert(skinds@ =~= seq![Kind::Text, Kind::Flag]);
            let sv = match serde.get_attrs(&snames, &skinds) {
                Ok(v) => v,
                Err(e) => return Err(e),
            };
            if get_rename {
                attr.rename = text_at(&sv, 0);
            }
            if get_skip {
                attr.skip = flag_at(&sv, 1);
            }
        }
    }
    Ok(attr)
}

/// Reads the attributes of a field.
pub fn parse_field(attrs: &[MetaAttr], ignore_serde: bool) -> (r: Result<Attr, String>)
    ensures
        match parse_item_spec(attrs_view(attrs@), ignore_serde, seq![]) {
            Ok(a) => r matches Ok(x) && attr_view(x) == a,
            Err(m) => r matches Err(e) && e@ == m,
        },
{
    let none: Vec<&'static str> = Vec::new();
    assert(strs_view(none@) =~= seq![]);
    parse_item(attrs, ignore_serde, none)
}

/// The schema attributes a variant of a plain enum may not carry.
pub open spec fn plain_variant_refused() -> Seq<Seq<char>> {
    seq![
        "description"@, "format"@, "r#type"@, "as_schema"@, "as_schema_generic"@, "min_items"@, "max_items"@,
        "required"@, "nullable"@,
    ]
}

/// Reads the attributes of a variant of a plain enum, which may only be
/// renamed or skipped.
pub fn parse_plain_enum(attrs: &[MetaAttr], ignore_serde: bool) -> (r: Result<Attr, String>)
    ensures
        match parse_item_spec(attrs_view(attrs@), ignore_serde, plain_variant_refused()) {
            Ok(a) => r matches Ok(x) && attr_view(x) == a,
            Err(m) => r matches Err(e) && e@ == m,
        },
{
    let refused = vec![
        "description", "format", "r#type", "as_schema", "as_schema_generic", "min_items", "max_items", "required",
        "nullable",
    ];
    assert(strs_view(refused@) =~= plain_variant_refused());
    parse_item(attrs, ignore_serde, refused)
}

/// Reads the attributes of a tuple field, which may not be renamed.
pub fn parse_tuple(attrs: &[MetaAttr], ignore_serde: bool) -> (r: Result<Attr, String>)
    ensures
        match parse_item_spec(attrs_view(attrs@), ignore_serde, seq!["rename"@]) {
            Ok(a) => r matches Ok(x) && attr_view(x) == a,
            Err(m) => r matches Err(e) && e@ == m,
        },
{
    let refused = vec!["rename"];
    assert(strs_view(refused@) =~= seq!["rename"@]);
    parse_item(attrs, ignore_serde, refused)
}

/// The attributes of a type, by their text.
pub struct TopAttrV {
    pub description: Option<Seq<char>>,
    pub rename_all: Option<Case>,
    pub rename_all_with: Option<Seq<char>>,
    pub crate_path: Option<Seq<char>>,
    pub nullable: Option<bool>,
    pub ignore_serde: Option<bool>,
}

/// The attributes of a type, by their text.
pub open spec fn top_view(t: TopAttr) -> TopAttrV {
    TopAttrV {
        description: opt_str(t.description),
        rename_all: t.rename_all,
        rename_all_with: opt_str(t.rename_all_with),
        crate_path: opt_str(t.crate_path),
        nullable: t.nullable,
        ignore_serde: t.ignore_serde,
    }
}

/// The schema attributes a type may carry, in the order they are read.
pub open spec fn top_names() -> Seq<Seq<char>> {
    seq!["description"@, "rename_all"@, "rename_all_with"@, "crate_path"@, "nullable"@, "ignore_serde"@]
}

/// The reading of a type's schema attributes.
pub open spec fn top_reading() -> ReadingV {
    ReadingV {
        owner: "schema"@,
        finding: false,
        disallow: seq![],
        names: top_names(),
        kinds: seq![Kind::Lines, Kind::CaseName, Kind::PathText, Kind::PathText, Kind::Flag, Kind::Flag],
    }
}

/// The reading of serde's `rename_all` on a type.
pub open spec fn serde_top_reading() -> ReadingV {
    ReadingV { owner: "serde"@, finding: true, disallow: seq![], names: seq!["rename_all"@], kinds: seq![Kind::CaseName] }
}

/// The attributes of a type: its schema attributes; then, unless serde
/// attributes are ignored, serde's `rename_all` stands in for an unset
/// `rename_all`.
pub open spec fn parse_top_spec(attrs: Seq<MetaAttrV>) -> Result<TopAttrV, Seq<char>> {
    match read_attrs(top_reading(), no_slots(6), attrs) {
        Err(m) => Err(m),
        Ok(s) => {
            let t = TopAttrV {
                description: text_of(s[0]),
                rename_all: case_of(s[1]),
                rename_all_with: text_of(s[2]),
                crate_path: text_of(s[3]),
                nullable: flag_of(s[4]),
                ignore_serde: flag_of(s[5]),
            };
            if t.ignore_serde != Some(true) && t.rename_all is None {
                match read_attrs(serde_top_reading(), no_slots(1), attrs) {
                    Err(m) => Err(m),
                    Ok(u) => Ok(TopAttrV { rename_all: case_of(u[0]), ..t }),
                }
            } else {
                Ok(t)
            }
        },
    }
}

/// Reads the attributes of a type.
///
/// # Errors
/// The message of the first attribute that is unknown, repeated, lacks its
/// value or has one of the wrong kind.
pub fn parse_top(attrs: &[MetaAttr]) -> (r: Result<TopAttr, String>)
    ensures
        match parse_top_spec(attrs_view(attrs@)) {
            Ok(a) => r matches Ok(x) && top_view(x) == a,
            Err(m) => r matches Err(e) && e@ == m,
        },
{
    let set = SetAttr::new(attrs);
    let names = vec!["description", "rename_all", "rename_all_with", "crate_path", "nullable", "ignore_serde"];
    let kinds = vec![Kind::Lines, Kind::CaseName, Kind::PathText, Kind::PathText, Kind::Flag, Kind::Flag];
    assert(strs_view(names@) =~= top_names());
    assert(kinds@ =~= top_reading().kinds);
    let st = match set.get_attrs(&names, &kinds) {
        Ok(v) => v,
        Err(e) => return Err(e),
    };
    let mut top = TopAttr {
        description: text_at(&st, 0),
        rename_all: case_at(&st, 1),
        rename_all_with: text_at(&st, 2),
        crate_path: text_at(&st, 3),
        nullable: flag_at(&st, 4),
        ignore_serde: flag_at(&st, 5),
    };
    let no_ignore = match top.ignore_serde {
        Some(b) => !b,
        None => true,
    };
    if no_ignore && top.rename_all.is_none() {
        let serde = set.switch_to_serde();
        let snames = vec!["rename_all"];
        let skinds = vec![Kind::CaseName];
        assert(strs_view(snames@) =~= seq!["rename_all"@]);
        assert(skinds@ =~= seq![Kind::CaseName]);
        let sv = match serde.get_attrs(&snames, &skinds) {
            Ok(v) => v,
            Err(e) => return Err(e),
        };
        top.rename_all = case_at(&sv, 0);
    }
    Ok(top)
}

/// The path of the crate that holds `AsSchema`: as given, else
/// `::google_ai_rs`.
pub open spec fn crate_path_spec(given: Option<Seq<char>>) -> Seq<char> {
    match given {
        Some(p) => p,
        None => "::google_ai_rs"@,
    }
}

/// What generating a schema for a type starts from: the type's attributes,
/// the path of the crate that holds `AsSchema`, and the bound that the
/// type's items get.
pub struct Context {
    pub top_attr: TopAttr,
    pub crate_path: String,
    pub trait_bound: String,
    /// Whether an item borrows for `'static`; found while bounding items.
    pub has_static: bool,
}

impl Context {
    /// Reads the type's attributes and the paths they give.
    ///
    /// # Errors
    /// Those of [`parse_top`].
    pub fn new(attrs: &[MetaAttr]) -> (r: Result<Context, String>)
        ensures
            match parse_top_spec(attrs_view(attrs@)) {
                Ok(t) => r matches Ok(c) && top_view(c.top_attr) == t
                    && c.crate_path@ == crate_path_spec(t.crate_path)
                    && c.trait_bound@ == crate_path_spec(t.crate_path) + "::AsSchema"@
                    && !c.has_static,
                Err(m) => r matches Err(e) && e@ == m,
            },
    {
        let top_attr = match parse_top(attrs) {
            Ok(t) => t,
            Err(e) => return Err(e),
        };
        let crate_path = match &top_attr.crate_path {
            Some(p) => p.clone(),
            None => "::google_ai_rs".to_owned(),
        };
        let mut trait_bound = crate_path.clone();
        push_str(&mut trait_bound, "::AsSchema");
        Ok(Context { top_attr, crate_path, trait_bound, has_static: false })
    }
}

/// The path of serde: as serde's `crate` attribute gives it, else
/// `::serde`.
///
/// # Errors
/// That of a `crate` attribute without a path.
pub fn serde_path(attrs: &[MetaAttr]) -> (r: Result<String, String>)
    ensures
        match read_attrs(serde_crate_reading(), no_slots(1), attrs_view(attrs@)) {
            Ok(s) => r matches Ok(p) && p@ == (match text_of(s[0]) {
                Some(p) => p,
                None => "::serde"@,
            }),
            Err(m) => r matches Err(e) && e@ == m,
        },
{
    match SetAttr::find_serde_crate(attrs) {
        Ok(Some(p)) => Ok(p),
        Ok(None) => Ok("::serde".to_owned()),
        Err(e) => Err(e),
    }
}

/// The attributes of one owner, in order.
pub open spec fn owned(attrs: Seq<MetaAttrV>, owner: Seq<char>) -> Seq<MetaAttrV>
    decreases attrs.len(),
{
    if attrs.len() == 0 {
        seq![]
    } else {
        owned(attrs.drop_last(), owner) + (if attrs.last().owner == owner {
            seq![attrs.last()]
        } else {
            Seq::<MetaAttrV>::empty()
        })
    }
}

/// A reading looks only at the attributes of its owner: those of other
/// owners can be dropped without changing what it reads.
pub proof fn reading_sees_only_its_owner(rd: ReadingV, st: Seq<Option<GotV>>, attrs: Seq<MetaAttrV>)
    ensures
        read_attrs(rd, st, attrs) == read_attrs(rd, st, owned(attrs, rd.owner)),
    decreases attrs.len(),
{
    if attrs.len() > 0 {
        reading_sees_only_its_owner(rd, st, attrs.drop_last());
        let o = owned(attrs.drop_last(), rd.owner);
        if attrs.last().owner == rd.owner {
            let o2 = o + seq![attrs.last()];
            assert(o2.drop_last() =~= o);
            assert(o2.last() == attrs.last());
        } else {
            assert(owned(attrs, rd.owner) =~= o);
        }
    }
}

/// With serde attributes ignored, an item reads the same whatever serde
/// attributes it carries: only its schema attributes count.
pub proof fn ignored_serde_changes_nothing(attrs: Seq<MetaAttrV>, disallow: Seq<Seq<char>>)
    ensures
        parse_item_spec(attrs, true, disallow) == parse_item_spec(owned(attrs, "schema"@), true, disallow),
{
    reading_sees_only_its_owner(item_reading(disallow), no_slots(12), attrs);
    reading_sees_only_its_owner(item_reading(disallow), no_slots(12), owned(attrs, "schema"@));
    lemma_owned_idempotent(attrs, "schema"@);
}

/// An item whose own schema attributes say `ignore_serde` reads the same
/// whatever serde attributes it carries, whether or not the type ignores
/// serde: only its schema attributes count.
pub proof fn item_ignore_serde_changes_nothing(
    attrs: Seq<MetaAttrV>,
    ignore_serde: bool,
    disallow: Seq<Seq<char>>,
    s: Seq<Option<GotV>>,
)
    requires
        read_attrs(item_reading(disallow), no_slots(12), attrs) == Ok::<Seq<Option<GotV>>, Seq<char>>(s),
        item_ignores_serde(s),
    ensures
        parse_item_spec(attrs, ignore_serde, disallow) == parse_item_spec(owned(attrs, "schema"@), true, disallow),
{
    ignored_serde_changes_nothing(attrs, disallow);
}

/// Keeping one owner's attributes twice keeps them once.
proof fn lemma_owned_idempotent(attrs: Seq<MetaAttrV>, owner: Seq<char>)
    ensures
        owned(owned(attrs, owner), owner) == owned(attrs, owner),
    decreases attrs.len(),
{
    if attrs.len() > 0 {
        lemma_owned_idempotent(attrs.drop_last(), owner);
        let o = owned(attrs.drop_last(), owner);
        if attrs.last().owner == owner {
            let o2 = o + seq![attrs.last()];
            assert(o2.drop_last() =~= o);
        } else {
            assert(owned(attrs, owner) =~= o);
        }
    }
}

/// Whether an item's attributes keep what its schema attributes say: all
/// of it, and its name and skip where the schema attributes give them.
pub open spec fn keeps_schema_choices(own: AttrV, a: AttrV) -> bool {
    &&& (own.rename is Some ==> a.rename == own.rename)
    &&& (own.skip is Some ==> a.skip == own.skip)
    &&& a.description == own.description
    &&& a.format == own.format
    &&& a.type_ == own.type_
    &&& a.as_schema == own.as_schema
    &&& a.as_schema_generic == own.as_schema_generic
    &&& a.required == own.required
    &&& a.min_items == own.min_items
    &&& a.max_items == own.max_items
    &&& a.nullable == own.nullable
}

/// Serde's `rename` and `skip` never override the schema's: an item keeps
/// everything its schema attributes give, and takes from serde only a name
/// or a skip that they leave unset.
pub proof fn schema_attributes_win(
    attrs: Seq<MetaAttrV>,
    ignore_serde: bool,
    disallow: Seq<Seq<char>>,
    s: Seq<Option<GotV>>,
    a: AttrV,
)
    requires
        read_attrs(item_reading(disallow), no_slots(12), attrs) == Ok::<Seq<Option<GotV>>, Seq<char>>(s),
        parse_item_spec(attrs, ignore_serde, disallow) == Ok::<AttrV, Seq<char>>(a),
    ensures
        keeps_schema_choices(attr_of_slots(s), a),
{
}

/// Whether some attribute is a `schema` attribute.
pub fn has_schema_attr(attrs: &[MetaAttr]) -> (r: bool)
    ensures
        r == exists|i: int| 0 <= i < attrs@.len() && (#[trigger] attrs@[i]).owner@ == "schema"@,
{
    let mut i: usize = 0;
    while i < attrs.len()
        invariant
            i <= attrs@.len(),
            forall|k: int| 0 <= k < i ==> (#[trigger] attrs@[k]).owner@ != "schema"@,
        decreases attrs@.len() - i,
    {
        if str_eq(attrs[i].owner.as_str(), "schema") {
            return true;
        }
        i = i + 1;
    }
    false
}

/// A field of a tuple struct deriving `AsSchemaWithSerde`: its type, as
/// spelled, and its attributes as written.
pub struct SerdeTupleField {
    pub ty: String,
    pub attrs: Vec<MetaAttr>,
}

/// The attributes of the field at position `i` of such a tuple struct:
/// its schema attributes, and the ones the derive adds after them
/// (`skip = "false"`, `required = "true"`, `rename = "i"`); adding one that
/// the field already sets is the reader's "Multiple values" error.
pub open spec fn positional_attr(a: AttrV, i: nat) -> Result<AttrV, Seq<char>> {
    if a.skip is Some {
        Err("Schema attribute skip: Multiple values not supported"@)
    } else if a.required is Some {
        Err("Schema attribute required: Multiple values not supported"@)
    } else if a.rename is Some {
        Err("Schema attribute rename: Multiple values not supported"@)
    } else {
        Ok(AttrV { skip: Some(false), required: Some(true), rename: Some(decimal(i)), ..a })
    }
}

/// The attributes of field `i`, or the first error in reading them.
pub open spec fn positional_field(fields: Seq<SerdeTupleField>, i: int) -> Result<AttrV, Seq<char>> {
    match parse_item_spec(attrs_view(fields[i].attrs@), true, seq![]) {
        Err(m) => Err(m),
        Ok(a) => positional_attr(a, i as nat),
    }
}

/// The first error among the first `k` fields, if any.
pub open spec fn positional_error(fields: Seq<SerdeTupleField>, k: int) -> Option<Seq<char>>
    decreases k,
{
    if k <= 0 {
        None
    } else {
        match positional_error(fields, k - 1) {
            Some(m) => Some(m),
            None => match positional_field(fields, k - 1) {
                Err(m) => Some(m),
                Ok(_) => None,
            },
        }
    }
}

/// Whether `named` are the fields of such a tuple struct as named fields:
/// field `i` is named `field{i}`, keeps its type, and has the attributes of
/// position `i`.
pub open spec fn positional_named(fields: Seq<SerdeTupleField>, named: Seq<NamedField>) -> bool {
    &&& named.len() == fields.len()
    &&& forall|i: int| 0 <= i < named.len() ==> {
        &&& (#[trigger] named[i]).name@ == "field"@ + decimal(i as nat)
        &&& named[i].ty@ == fields[i].ty@
        &&& positional_field(fields, i) == Ok::<AttrV, Seq<char>>(attr_view(named[i].attr))
    }
}

/// The schema of a tuple struct deriving `AsSchemaWithSerde`: the struct as
/// an object whose properties are its fields, named by position ("0", "1",
/// ...) and all required.
///
/// # Errors
/// That of the first field whose attributes cannot be read, or that sets
/// `skip`, `required` or `rename` itself; else those of
/// [`crate::derive::named_struct`].
pub fn serde_tuple_struct(top: &TopAttr, fields: &Vec<SerdeTupleField>) -> (r: Result<DerivedSchema, String>)
    ensures
        match positional_error(fields@, fields@.len() as int) {
            Some(m) => r matches Err(e) && e@ == m,
            None => exists|named: Seq<NamedField>| #[trigger] positional_named(fields@, named)
                && result_view(r) == named_struct_spec(
                    top.rename_all, opt_str(top.rename_all_with), opt_str(top.description), top.nullable, named,
                ),
        },
{
    let mut named: Vec<NamedField> = Vec::new();
    let mut i: usize = 0;
    while i < fields.len()
        invariant
            i <= fields@.len(),
            positional_error(fields@, i as int) is None,
            named@.len() == i,
            forall|j: int| 0 <= j < i ==> {
                &&& (#[trigger] named@[j]).name@ == "field"@ + decimal(j as nat)
                &&& named@[j].ty@ == fields@[j].ty@
                &&& positional_field(fields@, j) == Ok::<AttrV, Seq<char>>(attr_view(named@[j].attr))
                &&& named@[j].attr.rename is Some
            },
        decreases fields@.len() - i,
    {
        let f = &fields[i];
        let own = match parse_field(f.attrs.as_slice(), true) {
            Ok(a) => a,
            Err(e) => {
                proof {
                    lemma_positional_error_settled(fields@, i as int + 1);
                }
                return Err(e);
            },
        };
        if own.skip.is_some() {
            proof {
                lemma_positional_error_settled(fields@, i as int + 1);
            }
            return Err("Schema attribute skip: Multiple values not supported".to_owned());
        }
        if own.required.is_some() {
            proof {
                lemma_positional_error_settled(fields@, i as int + 1);
            }
            return Err("Schema attribute required: Multiple values not supported".to_owned());
        }
        if own.rename.is_some() {
            proof {
                lemma_positional_error_settled(fields@, i as int + 1);
            }
            return Err("Schema attribute rename: Multiple values not supported".to_owned());
        }
        let mut position = String::new();
        push_decimal(&mut position, i as u64);
        let mut name = "field".to_owned();
        push_str(&mut name, position.as_str());
        let attr = Attr { skip: Some(false), required: Some(true), rename: Some(position), ..own };
        let ghost before = named@;
        named.push(NamedField { name, ty: f.ty.clone(), attr });
        assert forall|j: int| 0 <= j < i + 1 implies {
            &&& (#[trigger] named@[j]).name@ == "field"@ + decimal(j as nat)
            &&& named@[j].ty@ == fields@[j].ty@
            &&& positional_field(fields@, j) == Ok::<AttrV, Seq<char>>(attr_view(named@[j].attr))
            &&& named@[j].attr.rename is Some
        } by {
            if j < i {
                assert(named@[j] == before[j]);
            }
        }
        i = i + 1;
    }
    assert(positional_named(fields@, named@));
    named_struct(top, &named)
}

/// Once a field fails, the first error among more fields is the same.
proof fn lemma_positional_error_settled(fields: Seq<SerdeTupleField>, k: int)
    requires
        0 <= k <= fields.len(),
        positional_error(fields, k) is Some,
    ensures
        positional_error(fields, fields.len() as int) == positional_error(fields, k),
    decreases fields.len() - k,
{
    if k < fields.len() {
        lemma_positional_error_settled(fields, k + 1);
    }
}

} // verus!
