//! The values that schema attributes accept, and the messages that list
//! them when a value is not one of them.
use vstd::prelude::*;
use crate::case::{
    case_name, field_renamable, field_renamed, rename_all_variants, variant_renamable, variant_renamed, Case,
};
use crate::text::{chars_of, push_str, str_eq};

verus! {

broadcast use vstd::seq_lib::group_to_multiset_ensures;

/// Whether `a` comes before `b` in the order of strings: by code points,
/// a proper prefix first.
pub open spec fn str_lt(a: Seq<char>, b: Seq<char>) -> bool
    decreases a.len(),
{
    if a.len() == 0 {
        b.len() > 0
    } else if b.len() == 0 {
        false
    } else if a[0] != b[0] {
        (a[0] as u32) < (b[0] as u32)
    } else {
        str_lt(a.drop_first(), b.drop_first())
    }
}

/// No string comes before one that it follows.
pub open spec fn sorted_strs(s: Seq<Seq<char>>) -> bool {
    forall|i: int, j: int| 0 <= i < j < s.len() ==> !str_lt(#[trigger] s[j], #[trigger] s[i])
}

/// The views of a list of string slices.
pub open spec fn strs_view(s: Seq<&str>) -> Seq<Seq<char>> {
    s.map_values(|x: &str| x@)
}

/// The order of strings is asymmetric.
pub proof fn lemma_str_lt_asym(a: Seq<char>, b: Seq<char>)
    ensures
        !(str_lt(a, b) && str_lt(b, a)),
    decreases a.len(),
{
    if a.len() > 0 && b.len() > 0 && a[0] == b[0] {
        lemma_str_lt_asym(a.drop_first(), b.drop_first());
    }
}

/// The order of strings is transitive.
pub proof fn lemma_str_lt_trans(a: Seq<char>, b: Seq<char>, c: Seq<char>)
    requires
        str_lt(a, b),
        str_lt(b, c),
    ensures
        str_lt(a, c),
    decreases a.len(),
{
    if a.len() > 0 && b.len() > 0 && c.len() > 0 && a[0] == b[0] && b[0] == c[0] {
        lemma_str_lt_trans(a.drop_first(), b.drop_first(), c.drop_first());
    }
}

/// No string comes before itself.
pub proof fn lemma_str_lt_irrefl(a: Seq<char>)
    ensures
        !str_lt(a, a),
{
    lemma_str_lt_asym(a, a);
}

/// Of two different strings, one comes before the other.
pub proof fn lemma_str_lt_total(a: Seq<char>, b: Seq<char>)
    requires
        a != b,
    ensures
        str_lt(a, b) || str_lt(b, a),
    decreases a.len(),
{
    if a.len() == 0 && b.len() == 0 {
        assert(a =~= b);
    } else if a.len() > 0 && b.len() > 0 && a[0] != b[0] {
        let (x, y) = (a[0], b[0]);
        if (x as u32) == (y as u32) {
            vstd::utf8::char_u32_cast(x, x as u32);
            vstd::utf8::char_u32_cast(y, y as u32);
        }
    } else if a.len() > 0 && b.len() > 0 && a[0] == b[0] {
        if a.drop_first() == b.drop_first() {
            assert(a =~= seq![a[0]] + a.drop_first());
            assert(b =~= seq![b[0]] + b.drop_first());
        } else {
            lemma_str_lt_total(a.drop_first(), b.drop_first());
        }
    }
}

/// The order "does not come after" on strings.
pub open spec fn str_leq() -> spec_fn(Seq<char>, Seq<char>) -> bool {
    |a: Seq<char>, b: Seq<char>| !str_lt(b, a)
}

/// A list of strings in the order of strings.
pub open spec fn sorted_names(names: Seq<Seq<char>>) -> Seq<Seq<char>> {
    names.sort_by(str_leq())
}

/// "Does not come after" is a total order on strings.
pub proof fn lemma_str_leq_total_ordering()
    ensures
        vstd::relations::total_ordering(str_leq()),
{
    let leq = str_leq();
    assert forall|a: Seq<char>| #[trigger] leq(a, a) by {
        lemma_str_lt_irrefl(a);
    }
    assert forall|a: Seq<char>, b: Seq<char>| #[trigger] leq(a, b) && #[trigger] leq(b, a) implies a == b by {
        if a != b {
            lemma_str_lt_total(a, b);
        }
    }
    assert forall|a: Seq<char>, b: Seq<char>, c: Seq<char>|
        #[trigger] leq(a, b) && #[trigger] leq(b, c) implies #[trigger] leq(a, c) by {
        if str_lt(c, a) {
            if a != b {
                lemma_str_lt_total(a, b);
                lemma_str_lt_trans(c, a, b);
            }
        }
    }
    assert forall|a: Seq<char>, b: Seq<char>| #[trigger] leq(a, b) || #[trigger] leq(b, a) by {
        lemma_str_lt_asym(a, b);
    }
}

/// Rearranging a list of slices rearranges their views alike.
proof fn lemma_views_multiset(s1: Seq<&str>, s2: Seq<&str>)
    requires
        s1.to_multiset() == s2.to_multiset(),
    ensures
        strs_view(s1).to_multiset() == strs_view(s2).to_multiset(),
    decreases s1.len(),
{
    broadcast use vstd::multiset::group_multiset_axioms;
    if s1.len() == 0 {
        assert(s1.to_multiset().len() == 0);
        assert(s2.len() == s2.to_multiset().len());
        assert(strs_view(s1) =~= strs_view(s2));
    } else {
        let a = s1.last();
        let t1 = s1.drop_last();
        assert(s1 =~= t1.push(a));
        assert(s1.to_multiset().count(a) > 0);
        assert(s2.contains(a));
        let i = choose|i: int| 0 <= i < s2.len() && s2[i] == a;
        let t2 = s2.remove(i);
        assert(t2.to_multiset() =~= t1.to_multiset());
        lemma_views_multiset(t1, t2);
        let v2 = strs_view(s2);
        assert(strs_view(s1) =~= strs_view(t1).push(a@));
        assert(strs_view(t2) =~= v2.remove(i));
        assert(v2[i] == a@);
        assert(v2.to_multiset().count(a@) > 0);
        assert(v2.to_multiset() =~= v2.remove(i).to_multiset().insert(a@));
    }
}

/// A sorted rearrangement of slices has as views the views sorted.
pub proof fn lemma_sorted_views(before: Seq<&str>, after: Seq<&str>)
    requires
        after.to_multiset() == before.to_multiset(),
        sorted_strs(strs_view(after)),
    ensures
        strs_view(after) == sorted_names(strs_view(before)),
{
    lemma_str_leq_total_ordering();
    lemma_views_multiset(after, before);
    let v = strs_view(before);
    v.lemma_sort_by_ensures(str_leq());
    assert(vstd::relations::sorted_by(strs_view(after), str_leq()));
    vstd::seq_lib::lemma_sorted_unique(strs_view(after), sorted_names(v), str_leq());
}

/// Two strings that agree on their first `i` characters compare as what
/// follows does.
proof fn lemma_str_lt_skip(a: Seq<char>, b: Seq<char>, i: int)
    requires
        0 <= i <= a.len(),
        i <= b.len(),
        a.take(i) == b.take(i),
    ensures
        str_lt(a, b) == str_lt(a.skip(i), b.skip(i)),
    decreases i,
{
    if i > 0 {
        assert(a[0] == a.take(i)[0]);
        assert(b[0] == b.take(i)[0]);
        assert(a.drop_first().take(i - 1) =~= a.take(i).drop_first());
        assert(b.drop_first().take(i - 1) =~= b.take(i).drop_first());
        lemma_str_lt_skip(a.drop_first(), b.drop_first(), i - 1);
        assert(a.drop_first().skip(i - 1) =~= a.skip(i));
        assert(b.drop_first().skip(i - 1) =~= b.skip(i));
    } else {
        assert(a.skip(0) =~= a);
        assert(b.skip(0) =~= b);
    }
}

/// Whether `a` comes before `b` in the order of strings.
pub fn str_less(a: &str, b: &str) -> (r: bool)
    ensures
        r == str_lt(a@, b@),
{
    let ca = chars_of(a);
    let cb = chars_of(b);
    let mut i: usize = 0;
    while i < ca.len() && i < cb.len() && ca[i] == cb[i]
        invariant
            ca@ == a@,
            cb@ == b@,
            i <= ca@.len(),
            i <= cb@.len(),
            ca@.take(i as int) == cb@.take(i as int),
        decreases ca@.len() - i,
    {
        assert(ca@.take(i + 1) =~= ca@.take(i as int).push(ca@[i as int]));
        assert(cb@.take(i + 1) =~= cb@.take(i as int).push(cb@[i as int]));
        i = i + 1;
    }
    proof {
        lemma_str_lt_skip(a@, b@, i as int);
    }
    if i == ca.len() {
        i < cb.len()
    } else if i == cb.len() {
        false
    } else {
        proof {
            assert(a@.skip(i as int)[0] == ca@[i as int]);
            assert(b@.skip(i as int)[0] == cb@[i as int]);
        }
        (ca[i] as u32) < (cb[i] as u32)
    }
}

/// Sorts string slices in the order of strings (insertion sort); the
/// slices are kept, only their order changes.
pub fn sort_strs(ps: &mut Vec<&str>)
    ensures
        final(ps)@.to_multiset() == old(ps)@.to_multiset(),
        sorted_strs(strs_view(final(ps)@)),
{
    let mut items: Vec<&str> = Vec::new();
    items.append(ps);
    let ghost input = items@;
    let mut out: Vec<&str> = Vec::new();
    for x in it: items
        invariant
            it.seq() == input,
            out@.to_multiset() == input.take(it.index() as int).to_multiset(),
            sorted_strs(strs_view(out@)),
    {
        let ghost k = it.index();
        assert(input[k as int] == x);
        let mut p: usize = 0;
        while p < out.len() && !str_less(x, out[p])
            invariant
                p <= out@.len(),
                forall|i: int| 0 <= i < p ==> !str_lt(x@, #[trigger] out@[i]@),
            decreases out@.len() - p,
        {
            p = p + 1;
        }
        let ghost before = out@;
        out.insert(p, x);
        proof {
            assert(input.take(k + 1) =~= input.take(k as int).push(x));
            let v = strs_view(out@);
            let bv = strs_view(before);
            assert forall|i: int, j: int| 0 <= i < j < v.len() implies !str_lt(#[trigger] v[j], #[trigger] v[i]) by {
                assert(v[i] == out@[i]@);
                assert(v[j] == out@[j]@);
                if j < p {
                    assert(out@[i] == before[i] && out@[j] == before[j]);
                    assert(bv[i] == before[i]@ && bv[j] == before[j]@);
                } else if j == p {
                    assert(out@[i] == before[i]);
                } else if i == p {
                    assert(out@[j] == before[j - 1]);
                    assert(str_lt(x@, before[p as int]@));
                    if j - 1 > p {
                        assert(bv[p as int] == before[p as int]@ && bv[j - 1] == before[j - 1]@);
                        assert(!str_lt(before[j - 1]@, before[p as int]@));
                    }
                    if str_lt(before[j - 1]@, x@) {
                        if j - 1 == p {
                            lemma_str_lt_asym(x@, before[p as int]@);
                        } else {
                            lemma_str_lt_trans(before[j - 1]@, x@, before[p as int]@);
                        }
                    }
                } else if i < p {
                    assert(out@[i] == before[i] && out@[j] == before[j - 1]);
                    assert(bv[i] == before[i]@ && bv[j - 1] == before[j - 1]@);
                } else {
                    assert(out@[i] == before[i - 1] && out@[j] == before[j - 1]);
                    assert(bv[i - 1] == before[i - 1]@ && bv[j - 1] == before[j - 1]@);
                }
            }
        }
    }
    assert(input.take(input.len() as int) =~= input);
    *ps = out;
}

/// The text of one value in a list of `n`: quoted in backticks, followed by
/// a comma unless it is the last, and by `and_or` if it is the penultimate.
pub open spec fn value_item(p: Seq<char>, i: int, n: int, and_or: Seq<char>) -> Seq<char> {
    "`"@ + p + "`"@ + (if i + 1 < n { ", "@ } else { seq![] }) + (if i + 2 == n { and_or + " "@ } else { seq![] })
}

/// The text of the first `k` values of a list.
pub open spec fn values_text(ps: Seq<Seq<char>>, k: int, and_or: Seq<char>) -> Seq<char>
    decreases k,
{
    if k <= 0 {
        seq![]
    } else {
        values_text(ps, k - 1, and_or) + value_item(ps[k - 1], k - 1, ps.len() as int, and_or)
    }
}

/// Lists the values, sorted, for a message: "`a`, `b`, and `c`" (with
/// `and_or` = "and").
pub fn format_possible_values(ps: &mut Vec<&str>, and_or: &str) -> (r: String)
    ensures
        final(ps)@.to_multiset() == old(ps)@.to_multiset(),
        sorted_strs(strs_view(final(ps)@)),
        strs_view(final(ps)@) == sorted_names(strs_view(old(ps)@)),
        r@ == values_text(strs_view(final(ps)@), final(ps)@.len() as int, and_or@),
{
    let ghost before = ps@;
    sort_strs(ps);
    proof {
        lemma_sorted_views(before, ps@);
    }
    let ghost v = strs_view(ps@);
    let mut out = String::new();
    let len = ps.len();
    let mut i: usize = 0;
    while i < len
        invariant
            len == ps@.len(),
            v == strs_view(ps@),
            i <= len,
            out@ == values_text(v, i as int, and_or@),
        decreases len - i,
    {
        let ghost before = out@;
        push_str(&mut out, "`");
        push_str(&mut out, ps[i]);
        push_str(&mut out, "`");
        if i + 1 < len {
            push_str(&mut out, ", ");
        }
        if i + 1 < len && i + 2 == len {
            push_str(&mut out, and_or);
            push_str(&mut out, " ");
        }
        assert(v[i as int] == ps@[i as int]@);
        assert(out@ =~= before + value_item(v[i as int], i as int, len as int, and_or@));
        i = i + 1;
    }
    out
}

/// The message for a value that is not one of the valid ones.
pub open spec fn unknown_value_message(value: Seq<char>, valid: Seq<Seq<char>>, target: Seq<char>) -> Seq<char> {
    "Unknown value "@ + value + " for "@ + target + ". Valid values include: "@
        + values_text(valid, valid.len() as int, "and"@)
}

/// The message for a value that is not one of the valid ones; the valid
/// values are listed sorted.
pub fn unknown_one_of_error(value: &str, valid: &mut Vec<&str>, target: &str) -> (r: String)
    ensures
        final(valid)@.to_multiset() == old(valid)@.to_multiset(),
        sorted_strs(strs_view(final(valid)@)),
        r@ == unknown_value_message(value@, strs_view(final(valid)@), target@),
        r@ == unknown_value_message(value@, sorted_names(strs_view(old(valid)@)), target@),
{
    let list = format_possible_values(valid, "and");
    let mut out = "Unknown value ".to_owned();
    push_str(&mut out, value);
    push_str(&mut out, " for ");
    push_str(&mut out, target);
    push_str(&mut out, ". Valid values include: ");
    push_str(&mut out, list.as_str());
    out
}

/// The spellings of the naming conventions, in declaration order.
pub open spec fn case_spellings() -> Seq<Seq<char>> {
    seq![
        case_name(Case::Camel), case_name(Case::Snake), case_name(Case::Lower),
        case_name(Case::Upper), case_name(Case::Pascal), case_name(Case::ScreamingSnake),
        case_name(Case::Kebab), case_name(Case::ScreamingKebab),
    ]
}

/// The spellings of the naming conventions, in declaration order.
pub fn case_names() -> (r: Vec<&'static str>)
    ensures
        strs_view(r@) == case_spellings(),
{
    let r = vec![
        Case::Camel.as_str(), Case::Snake.as_str(), Case::Lower.as_str(), Case::Upper.as_str(),
        Case::Pascal.as_str(), Case::ScreamingSnake.as_str(), Case::Kebab.as_str(),
        Case::ScreamingKebab.as_str(),
    ];
    assert(strs_view(r@) =~= case_spellings());
    r
}

/// Reads a `rename_all` value: one of the conventions' spellings, else the
/// message that lists them, sorted.
pub fn parse_case(value: &str) -> (r: Result<Case, String>)
    ensures
        match r {
            Ok(c) => case_name(c) == value@,
            Err(m) => (forall|c: Case| case_name(c) != value@)
                && m@ == unknown_value_message(value@, sorted_names(case_spellings()), "Case"@),
        },
{
    match Case::from_name(value) {
        Some(c) => Ok(c),
        None => {
            let mut names = case_names();
            let m = unknown_one_of_error(value, &mut names, "Case");
            Err(m)
        },
    }
}

/// The type a schema attribute names.
#[derive(Copy, Clone, Debug, PartialEq, Eq, Structural)]
pub enum Type {
    /// Not specified, should not be used.
    Unspecified,
    /// String type.
    String,
    /// Number type.
    Number,
    /// Integer type.
    Integer,
    /// Boolean type.
    Boolean,
    /// Array type.
    Array,
    /// Object type.
    Object,
}

/// The spelling of a type in attributes.
pub open spec fn schema_type_name(t: Type) -> Seq<char> {
    match t {
        Type::Unspecified => "Unspecified"@,
        Type::String => "String"@,
        Type::Number => "Number"@,
        Type::Integer => "Integer"@,
        Type::Boolean => "Boolean"@,
        Type::Array => "Array"@,
        Type::Object => "Object"@,
    }
}

/// The format a schema attribute names.
#[derive(Copy, Clone, Debug, PartialEq, Eq, Structural)]
pub enum Format {
    /// No format.
    Empty,
    Float,
    Double,
    Int32,
    Int64,
    Enum,
}

/// The spelling of a format in attributes.
pub open spec fn format_name(f: Format) -> Seq<char> {
    match f {
        Format::Float => "float"@,
        Format::Double => "double"@,
        Format::Int32 => "int32"@,
        Format::Int64 => "int64"@,
        Format::Enum => "enum"@,
        Format::Empty => ""@,
    }
}

/// Whether a format may go with a type: enumerations with strings, number
/// formats with numbers and integers, no format with anything.
pub open spec fn compatible(t: Type, f: Format) -> bool {
    ||| (t == Type::String && f == Format::Enum)
    ||| ((t == Type::Number || t == Type::Integer)
        && (f == Format::Float || f == Format::Double || f == Format::Int32 || f == Format::Int64))
    ||| f == Format::Empty
}

impl Type {
    /// Whether `format` may go with this type.
    pub fn is_compatible_with(self, format: Format) -> (r: bool)
        ensures
            r == compatible(self, format),
    {
        match (self, format) {
            (Type::String, Format::Enum) => true,
            (Type::Number, Format::Float) | (Type::Number, Format::Double) | (Type::Number, Format::Int32)
            | (Type::Number, Format::Int64) => true,
            (Type::Integer, Format::Float) | (Type::Integer, Format::Double) | (Type::Integer, Format::Int32)
            | (Type::Integer, Format::Int64) => true,
            (_, Format::Empty) => true,
            _ => false,
        }
    }

    /// The spelling of this type in attributes.
    pub fn as_str(&self) -> (r: &'static str)
        ensures
            r@ == schema_type_name(*self),
    {
        match self {
            Type::Unspecified => "Unspecified",
            Type::String => "String",
            Type::Number => "Number",
            Type::Integer => "Integer",
            Type::Boolean => "Boolean",
            Type::Array => "Array",
            Type::Object => "Object",
        }
    }

    /// Reads the spelling of a type.
    pub fn from_str(s: &str) -> (r: Result<Type, &'static str>)
        ensures
            r matches Ok(t) ==> schema_type_name(t) == s@,
            r is Err ==> forall|t: Type| schema_type_name(t) != s@,
            r matches Err(m) ==> m@ == "Invalid type"@,
    {
        if str_eq(s, "Unspecified") {
            Ok(Type::Unspecified)
        } else if str_eq(s, "String") {
            Ok(Type::String)
        } else if str_eq(s, "Number") {
            Ok(Type::Number)
        } else if str_eq(s, "Integer") {
            Ok(Type::Integer)
        } else if str_eq(s, "Boolean") {
            Ok(Type::Boolean)
        } else if str_eq(s, "Array") {
            Ok(Type::Array)
        } else if str_eq(s, "Object") {
            Ok(Type::Object)
        } else {
            Err("Invalid type")
        }
    }
}

impl Format {
    /// The spelling of this format in attributes.
    pub fn as_str(&self) -> (r: &'static str)
        ensures
            r@ == format_name(*self),
    {
        match self {
            Format::Float => "float",
            Format::Double => "double",
            Format::Int32 => "int32",
            Format::Int64 => "int64",
            Format::Enum => "enum",
            Format::Empty => "",
        }
    }

    /// Reads the spelling of a format.
    pub fn from_str(s: &str) -> (r: Result<Format, &'static str>)
        ensures
            r matches Ok(f) ==> format_name(f) == s@,
            r is Err ==> forall|f: Format| format_name(f) != s@,
            r matches Err(m) ==> m@ == "Invalid format"@,
    {
        if str_eq(s, "float") {
            Ok(Format::Float)
        } else if str_eq(s, "double") {
            Ok(Format::Double)
        } else if str_eq(s, "int32") {
            Ok(Format::Int32)
        } else if str_eq(s, "int64") {
            Ok(Format::Int64)
        } else if str_eq(s, "enum") {
            Ok(Format::Enum)
        } else if str_eq(s, "") {
            Ok(Format::Empty)
        } else {
            Err("Invalid format")
        }
    }
}


/// Whether an item is required: as its `required` attribute says, else
/// required unless it is marked nullable.
pub open spec fn is_required(nullable: Option<bool>, required: Option<bool>) -> bool {
    match required {
        Some(r) => r,
        None => nullable is None,
    }
}

/// Whether an item is required: as its `required` attribute says, else
/// required unless it is marked nullable.
pub fn required_flag(nullable: Option<bool>, required: Option<bool>) -> (r: bool)
    ensures
        r == is_required(nullable, required),
{
    if nullable.is_some() {
        match required {
            Some(r) => r,
            None => false,
        }
    } else {
        match required {
            Some(r) => r,
            None => true,
        }
    }
}

/// How the items of a type are renamed.
#[derive(Debug)]
pub enum RenameAll {
    /// Field names to a naming convention.
    Fields(Case),
    /// Variant names to a naming convention.
    Variants(Case),
    /// Each name through the function at the given path.
    With(String),
}

/// The name an item gets in a schema.
#[derive(Debug, PartialEq, Eq)]
pub enum Value {
    /// The name itself.
    Raw(String),
    /// The name computed at run time by the function at the path, from the
    /// item's name.
    ReCompute(String, String),
}

/// The message for a type that sets both ways of renaming.
pub open spec fn both_renames_message() -> Seq<char> {
    "Schema attributes rename_all and rename_all_with can't be both set."@
}

/// How a type's items are renamed: by its `rename_all` convention (for
/// variants when it is an enum), or by its `rename_all_with` function; both
/// at once is an error.
pub fn prepare_rename_all(rename_all: Option<Case>, rename_all_with: Option<&str>, is_enum: bool) -> (r: Result<Option<RenameAll>, String>)
    ensures
        match (rename_all, rename_all_with) {
            (Some(_), Some(_)) => r matches Err(m) && m@ == both_renames_message(),
            (Some(c), None) => if is_enum {
                r matches Ok(Some(RenameAll::Variants(x))) && x == c
            } else {
                r matches Ok(Some(RenameAll::Fields(x))) && x == c
            },
            (None, Some(p)) => r matches Ok(Some(RenameAll::With(q))) && q@ == p@,
            (None, None) => r matches Ok(None),
        },
{
    match rename_all {
        Some(style) => {
            if rename_all_with.is_some() {
                return Err("Schema attributes rename_all and rename_all_with can't be both set.".to_owned());
            }
            if is_enum {
                Ok(Some(RenameAll::Variants(style)))
            } else {
                Ok(Some(RenameAll::Fields(style)))
            }
        },
        None => match rename_all_with {
            Some(p) => Ok(Some(RenameAll::With(p.to_owned()))),
            None => Ok(None),
        },
    }
}

/// Whether an item name can be renamed as `rename_all` says.
pub open spec fn renamable(rename_all: Option<&RenameAll>, name: Seq<char>) -> bool {
    match rename_all {
        Some(RenameAll::Fields(c)) => field_renamable(*c, name),
        Some(RenameAll::Variants(c)) => variant_renamable(*c, name),
        _ => true,
    }
}

/// The name an item gets: its own `rename` if it has one, else its name
/// renamed as the type says, else its name.
pub fn rename_item(rename_all: Option<&RenameAll>, item_name: &str, rename: Option<&str>) -> (r: Value)
    requires
        rename is None ==> renamable(rename_all, item_name@),
    ensures
        match rename {
            Some(n) => r matches Value::Raw(v) && v@ == n@,
            None => match rename_all {
                Some(RenameAll::Fields(c)) => r matches Value::Raw(v) && v@ == field_renamed(*c, item_name@),
                Some(RenameAll::Variants(c)) => r matches Value::Raw(v) && v@ == variant_renamed(*c, item_name@),
                Some(RenameAll::With(p)) => r matches Value::ReCompute(f, v) && f@ == p@ && v@ == item_name@,
                None => r matches Value::Raw(v) && v@ == item_name@,
            },
        },
{
    match rename {
        Some(n) => Value::Raw(n.to_owned()),
        None => match rename_all {
            Some(RenameAll::Fields(c)) => Value::Raw(crate::case::rename_all(*c, item_name)),
            Some(RenameAll::Variants(c)) => Value::Raw(rename_all_variants(*c, item_name)),
            Some(RenameAll::With(p)) => Value::ReCompute(p.clone(), item_name.to_owned()),
            None => Value::Raw(item_name.to_owned()),
        },
    }
}

/// The message for a format that does not go with its type.
pub open spec fn unsupported_format_message(t: Type, f: Format) -> Seq<char> {
    "format `"@ + format_name(f) + "` not supported for SchemaType::"@ + schema_type_name(t)
}

/// The type a spelling names, if any.
pub open spec fn parse_type(s: Seq<char>) -> Option<Type> {
    if exists|t: Type| schema_type_name(t) == s {
        Some(choose|t: Type| schema_type_name(t) == s)
    } else {
        None
    }
}

/// The format a spelling names; an unknown or missing spelling is no format.
pub open spec fn parse_format_or_empty(s: Option<Seq<char>>) -> Format {
    match s {
        Some(s) => if exists|f: Format| format_name(f) == s {
            choose|f: Format| format_name(f) == s
        } else {
            Format::Empty
        },
        None => Format::Empty,
    }
}

/// What the `type` and `format` attributes of an item give: the type and
/// format, or the message that refuses them.
pub open spec fn type_format_spec(ty: Seq<char>, format: Option<Seq<char>>) -> Result<(Type, Format), Seq<char>> {
    match parse_type(ty) {
        None => Err("Invalid type"@),
        Some(t) => {
            let f = parse_format_or_empty(format);
            if compatible(t, f) {
                Ok((t, f))
            } else {
                Err(unsupported_format_message(t, f))
            }
        },
    }
}

/// Reads the `type` and `format` attributes of an item: the type must be
/// one of the types; an unknown or missing format is no format; the format
/// must go with the type.
pub fn type_and_format(ty: &str, format: Option<&str>) -> (r: Result<(Type, Format), String>)
    ensures
        (forall|t: Type| schema_type_name(t) != ty@) ==> (r matches Err(m) && m@ == "Invalid type"@),
        match type_format_spec(ty@, match format { Some(s) => Some(s@), None => None }) {
            Ok(p) => r == Ok::<(Type, Format), String>(p),
            Err(m) => r matches Err(e) && e@ == m,
        },
        forall|t: Type| schema_type_name(t) == ty@ ==> {
            let f = match format {
                Some(s) => if exists|f: Format| format_name(f) == s@ {
                    choose|f: Format| format_name(f) == s@
                } else {
                    Format::Empty
                },
                None => Format::Empty,
            };
            if compatible(t, f) {
                r matches Ok((t2, f2)) && t2 == t && f2 == f
            } else {
                r matches Err(m) && m@ == unsupported_format_message(t, f)
            }
        },
{
    let t = match Type::from_str(ty) {
        Ok(t) => t,
        Err(m) => return Err(m.to_owned()),
    };
    let f = match format {
        Some(s) => match Format::from_str(s) {
            Ok(f) => f,
            Err(_) => Format::Empty,
        },
        None => Format::Empty,
    };
    proof {
        lemma_names_distinct();
    }
    if !t.is_compatible_with(f) {
        let mut m = "format `".to_owned();
        push_str(&mut m, f.as_str());
        push_str(&mut m, "` not supported for SchemaType::");
        push_str(&mut m, t.as_str());
        return Err(m);
    }
    Ok((t, f))
}

/// Different types and formats are spelled differently.
proof fn lemma_names_distinct()
    ensures
        forall|a: Type, b: Type| schema_type_name(a) == schema_type_name(b) ==> a == b,
        forall|a: Format, b: Format| format_name(a) == format_name(b) ==> a == b,
{
    reveal_strlit("Unspecified");
    reveal_strlit("String");
    reveal_strlit("Number");
    reveal_strlit("Integer");
    reveal_strlit("Boolean");
    reveal_strlit("Array");
    reveal_strlit("Object");
    reveal_strlit("float");
    reveal_strlit("double");
    reveal_strlit("int32");
    reveal_strlit("int64");
    reveal_strlit("enum");
    reveal_strlit("");
    assert forall|a: Type, b: Type| schema_type_name(a) == schema_type_name(b) implies a == b by {
        if a != b {
            assert(schema_type_name(a).len() != schema_type_name(b).len()
                || schema_type_name(a)[0] != schema_type_name(b)[0]
                || schema_type_name(a)[1] != schema_type_name(b)[1]);
        }
    }
    assert forall|a: Format, b: Format| format_name(a) == format_name(b) implies a == b by {
        if a != b {
            assert(format_name(a).len() != format_name(b).len()
                || format_name(a)[0] != format_name(b)[0]
                || format_name(a)[4] != format_name(b)[4]);
        }
    }
}

} // verus!
