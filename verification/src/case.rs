//! Renaming of field and variant names between naming conventions.
//!
//! Field names are read as `snake_case` words (split on `_`), variant names
//! as `PascalCase` words (split before capitals).
use vstd::prelude::*;
use crate::text::{
    ascii_lower, ascii_upper, char_ascii_lower, char_ascii_upper, chars_of, is_ascii_char,
    char_is_uppercase, lower_all, push_char, replace_char, replace_chars, str_eq, string_of, unicode_is_upper,
    to_unicode_uppercase, unicode_uppercase, upper_all, push_lower, ascii_uppercase, ascii_lowercase,
};

verus! {

/// The naming conventions a whole type can be renamed to.
#[derive(Copy, Clone, Debug, PartialEq, Eq, Structural)]
pub enum Case {
    Camel,
    Snake,
    Lower,
    Upper,
    Pascal,
    ScreamingSnake,
    Kebab,
    ScreamingKebab,
}

/// The spelling of each convention in attributes.
pub open spec fn case_name(c: Case) -> Seq<char> {
    match c {
        Case::Camel => "camelCase"@,
        Case::Snake => "snake_case"@,
        Case::Lower => "lowercase"@,
        Case::Upper => "UPPERCASE"@,
        Case::Pascal => "PascalCase"@,
        Case::ScreamingSnake => "SCREAMING_SNAKE_CASE"@,
        Case::Kebab => "kebab-case"@,
        Case::ScreamingKebab => "SCREAMING-KEBAB-CASE"@,
    }
}

impl Case {
    /// The spelling of this convention in attributes.
    pub fn as_str(&self) -> (r: &'static str)
        ensures
            r@ == case_name(*self),
    {
        match self {
            Case::Camel => "camelCase",
            Case::Snake => "snake_case",
            Case::Lower => "lowercase",
            Case::Upper => "UPPERCASE",
            Case::Pascal => "PascalCase",
            Case::ScreamingSnake => "SCREAMING_SNAKE_CASE",
            Case::Kebab => "kebab-case",
            Case::ScreamingKebab => "SCREAMING-KEBAB-CASE",
        }
    }

    /// Parses the attribute spelling of a convention.
    pub fn from_name(s: &str) -> (r: Option<Case>)
        ensures
            r matches Some(c) ==> case_name(c) == s@,
            r is None ==> forall|c: Case| case_name(c) != s@,
    {
        if str_eq(s, "camelCase") {
            Some(Case::Camel)
        } else if str_eq(s, "snake_case") {
            Some(Case::Snake)
        } else if str_eq(s, "lowercase") {
            Some(Case::Lower)
        } else if str_eq(s, "UPPERCASE") {
            Some(Case::Upper)
        } else if str_eq(s, "PascalCase") {
            Some(Case::Pascal)
        } else if str_eq(s, "SCREAMING_SNAKE_CASE") {
            Some(Case::ScreamingSnake)
        } else if str_eq(s, "kebab-case") {
            Some(Case::Kebab)
        } else if str_eq(s, "SCREAMING-KEBAB-CASE") {
            Some(Case::ScreamingKebab)
        } else {
            None
        }
    }
}

// ---------------------------------------------------------------------------
// snake_case words

/// The words of a `snake_case` name: the maximal non-empty runs of
/// characters other than `_`, read left to right; `cur` is the run read so far.
pub open spec fn snake_words_from(s: Seq<char>, cur: Seq<char>) -> Seq<Seq<char>>
    decreases s.len(),
{
    if s.len() == 0 {
        if cur.len() > 0 { seq![cur] } else { seq![] }
    } else if s[0] == '_' {
        (if cur.len() > 0 { seq![cur] } else { seq![] }) + snake_words_from(s.drop_first(), seq![])
    } else {
        snake_words_from(s.drop_first(), cur.push(s[0]))
    }
}

/// The words of a `snake_case` name (`name.split('_')` without the empty pieces).
pub open spec fn snake_words(s: Seq<char>) -> Seq<Seq<char>> {
    snake_words_from(s, seq![])
}

/// Whether every word starts with an ASCII character, so that its first
/// character is a one-byte prefix of it.
pub open spec fn words_lead_ascii(ws: Seq<Seq<char>>) -> bool {
    forall|k: int| 0 <= k < ws.len() ==> #[trigger] ws[k].len() > 0 && is_ascii_char(ws[k][0])
}

/// A word with its first character ASCII-upper-cased and the rest unchanged.
pub open spec fn upper_first(w: Seq<char>) -> Seq<char> {
    seq![ascii_upper(w[0])] + w.skip(1)
}

/// A word with its first character ASCII-lower-cased and the rest unchanged.
pub open spec fn lower_first(w: Seq<char>) -> Seq<char> {
    seq![ascii_lower(w[0])] + w.skip(1)
}

/// The concatenation of the words, each with its first letter upper-cased.
pub open spec fn snake_to_pascal(ws: Seq<Seq<char>>) -> Seq<char>
    decreases ws.len(),
{
    if ws.len() == 0 {
        seq![]
    } else {
        snake_to_pascal(ws.drop_last()) + upper_first(ws.last())
    }
}

/// The concatenation of the words: the first with its first letter
/// lower-cased, the others with their first letter upper-cased.
pub open spec fn snake_to_camel(ws: Seq<Seq<char>>) -> Seq<char>
    decreases ws.len(),
{
    if ws.len() == 0 {
        seq![]
    } else if ws.len() == 1 {
        lower_first(ws[0])
    } else {
        snake_to_camel(ws.drop_last()) + upper_first(ws.last())
    }
}

/// Converters for names written in `snake_case` (field names).
#[allow(non_camel_case_types)]
pub struct snake_case;

impl snake_case {
    /// A `snake_case` name in `snake_case`: unchanged.
    pub fn to_snake_case(name: &str) -> (r: String)
        ensures
            r@ == name@,
    {
        name.to_owned()
    }

    /// The words of the name, split on `_`, empty pieces dropped.
    pub fn tokenize(name: &str) -> (r: Vec<String>)
        ensures
            r@.map_values(|w: String| w@) == snake_words(name@),
            forall|k: int| 0 <= k < r@.len() ==> #[trigger] r@[k]@.len() > 0,
    {
        let cs = chars_of(name);
        let mut out: Vec<String> = Vec::new();
        let mut cur: Vec<char> = Vec::new();
        let mut i: usize = 0;
        assert(cs@.skip(0) =~= cs@);
        assert(out@.map_values(|w: String| w@) + snake_words_from(cs@, cur@)
            =~= snake_words_from(cs@, cur@));
        while i < cs.len()
            invariant
                cs@ == name@,
                i <= cs.len(),
                out@.map_values(|w: String| w@) + snake_words_from(cs@.skip(i as int), cur@)
                    == snake_words(name@),
                forall|k: int| 0 <= k < out@.len() ==> #[trigger] out@[k]@.len() > 0,
            decreases cs.len() - i,
        {
            let c = cs[i];
            let ghost rest = cs@.skip(i as int);
            assert(rest.drop_first() =~= cs@.skip(i + 1));
            if c == '_' {
                if cur.len() > 0 {
                    let w = string_of(&cur);
                    let ghost before = out@.map_values(|w: String| w@);
                    out.push(w);
                    assert(out@.map_values(|w: String| w@) =~= before + seq![cur@]);
                }
                cur = Vec::new();
                assert(cur@ =~= Seq::<char>::empty());
            } else {
                cur.push(c);
            }
            i = i + 1;
        }
        assert(cs@.skip(i as int) =~= Seq::<char>::empty());
        if cur.len() > 0 {
            let w = string_of(&cur);
            let ghost before = out@.map_values(|w: String| w@);
            out.push(w);
            assert(out@.map_values(|w: String| w@) =~= before + seq![cur@]);
        } else {
            assert(out@.map_values(|w: String| w@) + Seq::<Seq<char>>::empty()
                =~= out@.map_values(|w: String| w@));
        }
        out
    }

    /// Each word with its first letter upper-cased, concatenated.
    pub fn to_pascal_case(name: &str) -> (r: String)
        requires
            words_lead_ascii(snake_words(name@)),
        ensures
            r@ == snake_to_pascal(snake_words(name@)),
    {
        let parts = Self::tokenize(name);
        let ghost ws = parts@.map_values(|w: String| w@);
        let mut out = String::new();
        let mut i: usize = 0;
        while i < parts.len()
            invariant
                i <= parts.len(),
                ws == parts@.map_values(|w: String| w@),
                words_lead_ascii(ws),
                out@ == snake_to_pascal(ws.take(i as int)),
            decreases parts.len() - i,
        {
            let part = parts[i].as_str();
            assert(ws[i as int] == part@);
            let cs = chars_of(part);
            push_char(&mut out, char_ascii_upper(cs[0]));
            let mut j: usize = 1;
            let ghost base = out@;
            while j < cs.len()
                invariant
                    1 <= j <= cs.len(),
                    out@ == base + cs@.subrange(1, j as int),
                decreases cs.len() - j,
            {
                push_char(&mut out, cs[j]);
                assert(cs@.subrange(1, j + 1) =~= cs@.subrange(1, j as int).push(cs@[j as int]));
                j = j + 1;
            }
            assert(cs@.subrange(1, cs@.len() as int) =~= cs@.skip(1));
            assert(ws.take(i + 1).drop_last() =~= ws.take(i as int));
            i = i + 1;
        }
        assert(ws.take(i as int) =~= ws);
        out
    }

    /// The first word with its first letter lower-cased, the other words
    /// with their first letter upper-cased, concatenated.
    pub fn to_camel_case(name: &str) -> (r: String)
        requires
            words_lead_ascii(snake_words(name@)),
        ensures
            r@ == snake_to_camel(snake_words(name@)),
    {
        let parts = Self::tokenize(name);
        let ghost ws = parts@.map_values(|w: String| w@);
        let mut out = String::new();
        let mut i: usize = 0;
        while i < parts.len()
            invariant
                i <= parts.len(),
                ws == parts@.map_values(|w: String| w@),
                words_lead_ascii(ws),
                out@ == snake_to_camel(ws.take(i as int)),
            decreases parts.len() - i,
        {
            let part = parts[i].as_str();
            assert(ws[i as int] == part@);
            let cs = chars_of(part);
            if i == 0 {
                push_char(&mut out, char_ascii_lower(cs[0]));
            } else {
                push_char(&mut out, char_ascii_upper(cs[0]));
            }
            let mut j: usize = 1;
            let ghost base = out@;
            while j < cs.len()
                invariant
                    1 <= j <= cs.len(),
                    out@ == base + cs@.subrange(1, j as int),
                decreases cs.len() - j,
            {
                push_char(&mut out, cs[j]);
                assert(cs@.subrange(1, j + 1) =~= cs@.subrange(1, j as int).push(cs@[j as int]));
                j = j + 1;
            }
            assert(cs@.subrange(1, cs@.len() as int) =~= cs@.skip(1));
            assert(ws.take(i + 1).drop_last() =~= ws.take(i as int));
            if i == 0 {
                assert(ws.take(1) =~= seq![ws[0]]);
                assert(Seq::<char>::empty() + lower_first(ws[0]) =~= lower_first(ws[0]));
            }
            i = i + 1;
        }
        assert(ws.take(i as int) =~= ws);
        out
    }

    /// `_` replaced by `-`.
    pub fn to_kebab_case(name: &str) -> (r: String)
        ensures
            r@ == replace_char(name@, '_', '-'),
    {
        replace_chars(name, '_', '-')
    }

    /// The name Unicode-upper-cased.
    #[allow(non_snake_case)]
    pub fn SCREAMING_SNAKE_CASE(name: &str) -> (r: String)
        ensures
            r@ == unicode_uppercase(name@),
    {
        let s = Self::to_snake_case(name);
        to_unicode_uppercase(s.as_str())
    }

    /// The name with `_` replaced by `-`, Unicode-upper-cased.
    #[allow(non_snake_case)]
    pub fn SCREAMING_KEBAB_CASE(name: &str) -> (r: String)
        ensures
            r@ == unicode_uppercase(replace_char(name@, '_', '-')),
    {
        let s = Self::to_kebab_case(name);
        to_unicode_uppercase(s.as_str())
    }
}


// ---------------------------------------------------------------------------
// PascalCase words

/// Where the first word of `s` ends, scanning from index `i`; `last_upper`
/// tells whether the character before `i` was a capital (the start counts as
/// one). A word ends before a capital that follows a non-capital, and before
/// the last capital of a run of capitals that is followed by a non-capital
/// (`HTTPRequest` splits into `HTTP` and `Request`).
pub open spec fn word_end_from(s: Seq<char>, i: int, last_upper: bool) -> int
    decreases s.len() - i,
{
    if i < 0 || i >= s.len() {
        s.len() as int
    } else if !last_upper && unicode_is_upper(s[i]) {
        i
    } else if last_upper && !unicode_is_upper(s[i]) && i > 1 {
        i - 1
    } else {
        word_end_from(s, i + 1, unicode_is_upper(s[i]))
    }
}

/// Whether the scan for the end of the first word of `s`, from index `i`,
/// cuts the name on a character boundary. A word that ends before the last
/// capital of a run ends one byte before the character that follows that
/// capital (once that character is past the first byte), which is where the
/// capital starts only when it is ASCII.
pub open spec fn word_end_safe_from(s: Seq<char>, i: int, last_upper: bool) -> bool
    decreases s.len() - i,
{
    if i < 0 || i >= s.len() {
        true
    } else if !last_upper && unicode_is_upper(s[i]) {
        true
    } else if last_upper && !unicode_is_upper(s[i]) && i > 1 {
        is_ascii_char(s[i - 1])
    } else if last_upper && !unicode_is_upper(s[i]) && i == 1 && !is_ascii_char(s[0]) {
        false
    } else {
        word_end_safe_from(s, i + 1, unicode_is_upper(s[i]))
    }
}

/// Where the first word of `s` ends.
pub open spec fn first_word_end(s: Seq<char>) -> int {
    word_end_from(s, 0, true)
}

/// The words of a `PascalCase` name, left to right.
pub open spec fn pascal_words(s: Seq<char>) -> Seq<Seq<char>>
    decreases s.len(),
{
    let e = first_word_end(s);
    if s.len() == 0 {
        seq![]
    } else if 0 < e <= s.len() {
        seq![s.take(e)] + pascal_words(s.skip(e))
    } else {
        seq![]
    }
}

/// Whether every word of a `PascalCase` name is cut on a character boundary.
pub open spec fn pascal_tokenizable(s: Seq<char>) -> bool
    decreases s.len(),
{
    let e = first_word_end(s);
    if s.len() == 0 {
        true
    } else if 0 < e <= s.len() {
        word_end_safe_from(s, 0, true) && pascal_tokenizable(s.skip(e))
    } else {
        true
    }
}

/// Whether a `PascalCase` name can be put in `camelCase`: its words are cut
/// on character boundaries and every word after the first starts with an
/// ASCII character, whose first byte is the character.
pub open spec fn pascal_camel_safe(s: Seq<char>) -> bool {
    &&& pascal_tokenizable(s)
    &&& forall|k: int| 1 <= k < pascal_words(s).len()
        ==> #[trigger] pascal_words(s)[k].len() > 0 && is_ascii_char(pascal_words(s)[k][0])
}

/// A scan that starts at index 1 or later never ends a word before index 1,
/// and no scan ends past the end.
pub proof fn lemma_word_end_bounds(s: Seq<char>, i: int, last_upper: bool)
    requires
        0 <= i <= s.len(),
    ensures
        word_end_from(s, i, last_upper) <= s.len(),
        i >= 1 ==> word_end_from(s, i, last_upper) >= 1,
        i == 0 && last_upper && s.len() > 0 ==> word_end_from(s, i, last_upper) >= 1,
    decreases s.len() - i,
{
    if i < s.len() {
        lemma_word_end_bounds(s, i + 1, unicode_is_upper(s[i]));
    }
}

/// The words of a non-empty name are non-empty and concatenate to the name.
pub proof fn lemma_pascal_words_cover(s: Seq<char>)
    ensures
        flatten_words(pascal_words(s)) == s,
        forall|k: int| 0 <= k < pascal_words(s).len() ==> #[trigger] pascal_words(s)[k].len() > 0,
    decreases s.len(),
{
    if s.len() > 0 {
        let e = first_word_end(s);
        lemma_word_end_bounds(s, 0, true);
        lemma_pascal_words_cover(s.skip(e));
        let rest = pascal_words(s.skip(e));
        let ws = pascal_words(s);
        assert(ws == seq![s.take(e)] + rest);
        lemma_flatten_prepend(s.take(e), rest);
        assert(s.take(e) + s.skip(e) =~= s);
        assert forall|k: int| 0 <= k < ws.len() implies #[trigger] ws[k].len() > 0 by {
            if k > 0 {
                assert(ws[k] == rest[k - 1]);
            }
        }
    } else {
        assert(pascal_words(s) =~= Seq::<Seq<char>>::empty());
    }
}

/// The concatenation of a list of words.
pub open spec fn flatten_words(ws: Seq<Seq<char>>) -> Seq<char>
    decreases ws.len(),
{
    if ws.len() == 0 {
        seq![]
    } else {
        flatten_words(ws.drop_last()) + ws.last()
    }
}

/// Concatenating a word in front of a list of words.
pub proof fn lemma_flatten_prepend(w: Seq<char>, ws: Seq<Seq<char>>)
    ensures
        flatten_words(seq![w] + ws) == w + flatten_words(ws),
    decreases ws.len(),
{
    if ws.len() == 0 {
        assert(seq![w] + ws =~= seq![w]);
        assert(seq![w].drop_last() =~= Seq::<Seq<char>>::empty());
        assert(flatten_words(Seq::<Seq<char>>::empty()) == Seq::<char>::empty());
        assert(seq![w].last() == w);
        assert(flatten_words(seq![w]) == flatten_words(seq![w].drop_last()) + seq![w].last());
        assert(Seq::<char>::empty() + w =~= w);
        assert(w + Seq::<char>::empty() =~= w);
    } else {
        lemma_flatten_prepend(w, ws.drop_last());
        assert((seq![w] + ws).drop_last() =~= seq![w] + ws.drop_last());
        assert((seq![w] + ws).last() == ws.last());
        assert(w + flatten_words(ws.drop_last()) + ws.last() =~= w + (flatten_words(ws.drop_last()) + ws.last()));
    }
}

/// Word `w` ASCII-lower-cased except its first letter, which is upper-cased.
pub open spec fn capitalize(w: Seq<char>) -> Seq<char> {
    seq![ascii_upper(w[0])] + lower_all(w.skip(1))
}

/// `camelCase` from `PascalCase` words: the first word lower-cased, the others
/// capitalized, concatenated.
pub open spec fn pascal_to_camel(ws: Seq<Seq<char>>) -> Seq<char>
    decreases ws.len(),
{
    if ws.len() == 0 {
        seq![]
    } else if ws.len() == 1 {
        lower_all(ws[0])
    } else {
        pascal_to_camel(ws.drop_last()) + capitalize(ws.last())
    }
}

/// `snake_case` from `PascalCase` words: the words lower-cased, joined by `_`.
pub open spec fn pascal_to_snake(ws: Seq<Seq<char>>) -> Seq<char>
    decreases ws.len(),
{
    if ws.len() == 0 {
        seq![]
    } else if ws.len() == 1 {
        lower_all(ws[0])
    } else {
        pascal_to_snake(ws.drop_last()) + seq!['_'] + lower_all(ws.last())
    }
}

/// Converters for names written in `PascalCase` (variant names). They read
/// ASCII names.
pub struct PascalCase;

impl PascalCase {
    /// A `PascalCase` name in `PascalCase`: unchanged.
    pub fn to_pascal_case(name: &str) -> (r: String)
        ensures
            r@ == name@,
    {
        name.to_owned()
    }

    /// The words of the name, split before capitals.
    pub fn tokenize<'a>(name: &'a str) -> (r: Vec<&'a str>)
        requires
            pascal_tokenizable(name@),
        ensures
            r@.map_values(|w: &str| w@) == pascal_words(name@),
    {
        let cs = chars_of(name);
        let n = cs.len();
        let mut out: Vec<&'a str> = Vec::new();
        let mut start: usize = 0;
        assert(cs@.skip(0) =~= cs@);
        assert(out@.map_values(|w: &str| w@) + pascal_words(cs@) =~= pascal_words(cs@));
        while start < n
            invariant
                cs@ == name@,
                n == cs@.len(),
                start <= n,
                out@.map_values(|w: &str| w@) + pascal_words(cs@.skip(start as int))
                    == pascal_words(name@),
            decreases n - start,
        {
            let ghost rest = cs@.skip(start as int);
            // Find where the word that starts at `start` ends.
            let mut last_upper = true;
            let mut j: usize = start;
            let mut cursor: usize = n;
            while j < n
                invariant_except_break
                    cursor == n,
                    word_end_from(rest, 0, true) == word_end_from(rest, j - start, last_upper),
                invariant
                    cs@ == name@,
                    n == cs@.len(),
                    start <= j <= n,
                    rest == cs@.skip(start as int),
                ensures
                    start <= cursor <= n,
                    cursor - start == word_end_from(rest, 0, true),
                decreases n - j,
            {
                let c = cs[j];
                let is_upper = char_is_uppercase(c);
                assert(rest[j - start] == c);
                if !last_upper && is_upper {
                    cursor = j;
                    break;
                }
                if last_upper && !is_upper && j - start > 1 {
                    cursor = j - 1;
                    break;
                }
                last_upper = is_upper;
                j = j + 1;
            }
            proof {
                lemma_word_end_bounds(rest, 0, true);
            }
            let e = cursor - start;
            assert(e as int == first_word_end(rest));
            let word = name.substring_char(start, cursor);
            assert(word@ =~= rest.take(e as int));
            assert(rest.skip(e as int) =~= cs@.skip(cursor as int));
            let ghost before = out@.map_values(|w: &str| w@);
            out.push(word);
            assert(out@.map_values(|w: &str| w@) =~= before + seq![word@]);
            start = cursor;
        }
        assert(cs@.skip(n as int) =~= Seq::<char>::empty());
        assert(pascal_words(Seq::<char>::empty()) =~= Seq::<Seq<char>>::empty());
        assert(out@.map_values(|w: &str| w@) + Seq::<Seq<char>>::empty()
            =~= out@.map_values(|w: &str| w@));
        out
    }

    /// Whether the words of the name are cut on character boundaries (the
    /// condition of [`PascalCase::tokenize`]), tested with
    /// `char::is_uppercase` character by character.
    pub fn is_tokenizable(name: &str) -> (r: bool)
        ensures
            r == pascal_tokenizable(name@),
    {
        let cs = chars_of(name);
        let n = cs.len();
        let mut all_ok = true;
        let mut start: usize = 0;
        assert(cs@.skip(0) =~= cs@);
        while start < n
            invariant
                cs@ == name@,
                n == cs@.len(),
                start <= n,
                pascal_tokenizable(name@) == (all_ok && pascal_tokenizable(cs@.skip(start as int))),
            decreases n - start,
        {
            let ghost rest = cs@.skip(start as int);
            let mut last_upper = true;
            let mut ok = true;
            let mut j: usize = start;
            let mut cursor: usize = n;
            while j < n
                invariant_except_break
                    cursor == n,
                    word_end_from(rest, 0, true) == word_end_from(rest, j - start, last_upper),
                    word_end_safe_from(rest, 0, true) == (ok && word_end_safe_from(rest, j - start, last_upper)),
                invariant
                    cs@ == name@,
                    n == cs@.len(),
                    start <= j <= n,
                    rest == cs@.skip(start as int),
                ensures
                    start <= cursor <= n,
                    cursor - start == word_end_from(rest, 0, true),
                    ok == word_end_safe_from(rest, 0, true),
                decreases n - j,
            {
                let c = cs[j];
                let is_upper = char_is_uppercase(c);
                assert(rest[j - start] == c);
                if !last_upper && is_upper {
                    cursor = j;
                    break;
                }
                if last_upper && !is_upper && j - start > 1 {
                    let prev = cs[j - 1];
                    assert(rest[j - start - 1] == prev);
                    ok = ok && (prev as u32) < 128;
                    cursor = j - 1;
                    break;
                }
                if last_upper && !is_upper && j - start == 1 {
                    let first = cs[start];
                    assert(rest[0] == first);
                    if !((first as u32) < 128) {
                        ok = false;
                    }
                }
                last_upper = is_upper;
                j = j + 1;
            }
            proof {
                lemma_word_end_bounds(rest, 0, true);
            }
            all_ok = all_ok && ok;
            assert(rest.skip(cursor - start) =~= cs@.skip(cursor as int));
            start = cursor;
        }
        assert(cs@.skip(n as int) =~= Seq::<char>::empty());
        all_ok
    }

    /// The words of the name when they are cut on character boundaries;
    /// `None` otherwise.
    pub fn try_tokenize<'a>(name: &'a str) -> (r: Option<Vec<&'a str>>)
        ensures
            r is Some <==> pascal_tokenizable(name@),
            r matches Some(v) ==> v@.map_values(|w: &str| w@) == pascal_words(name@),
    {
        if Self::is_tokenizable(name) {
            Some(Self::tokenize(name))
        } else {
            None
        }
    }

    /// Whether the name can be put in `camelCase` (the condition of
    /// [`PascalCase::to_camel_case`]).
    pub fn is_camel_safe(name: &str) -> (r: bool)
        ensures
            r == pascal_camel_safe(name@),
    {
        if !Self::is_tokenizable(name) {
            return false;
        }
        let words = Self::tokenize(name);
        let ghost ws = words@.map_values(|w: &str| w@);
        proof {
            lemma_pascal_words_cover(name@);
        }
        let mut k: usize = 1;
        while k < words.len()
            invariant
                ws == words@.map_values(|w: &str| w@),
                ws == pascal_words(name@),
                1 <= k,
                forall|i: int| 0 <= i < ws.len() ==> #[trigger] ws[i].len() > 0,
                forall|i: int| 1 <= i < k && i < ws.len() ==> is_ascii_char(#[trigger] ws[i][0]),
            decreases words@.len() - k,
        {
            let cs = chars_of(words[k]);
            assert(cs@ == ws[k as int]);
            if !((cs[0] as u32) < 128) {
                return false;
            }
            k = k + 1;
        }
        true
    }

    /// The words, the first lower-cased and the others capitalized, concatenated.
    pub fn to_camel_case(name: &str) -> (r: String)
        requires
            pascal_camel_safe(name@),
        ensures
            r@ == pascal_to_camel(pascal_words(name@)),
    {
        let parts = Self::tokenize(name);
        let ghost ws = parts@.map_values(|w: &str| w@);
        proof {
            lemma_pascal_words_cover(name@);
        }
        let mut out = String::new();
        let mut i: usize = 0;
        while i < parts.len()
            invariant
                i <= parts.len(),
                ws == parts@.map_values(|w: &str| w@),
                ws == pascal_words(name@),
                forall|k: int| 0 <= k < ws.len() ==> #[trigger] ws[k].len() > 0,
                out@ == pascal_to_camel(ws.take(i as int)),
            decreases parts.len() - i,
        {
            let part = parts[i];
            assert(ws[i as int] == part@);
            if i == 0 {
                push_lower(&mut out, part);
                assert(ws.take(1) =~= seq![ws[0]]);
            } else {
                let cs = chars_of(part);
                push_char(&mut out, char_ascii_upper(cs[0]));
                let rest = part.substring_char(1, cs.len());
                assert(rest@ =~= part@.skip(1));
                push_lower(&mut out, rest);
                assert(ws.take(i + 1).drop_last() =~= ws.take(i as int));
            }
            i = i + 1;
        }
        assert(ws.take(i as int) =~= ws);
        out
    }

    /// The words lower-cased and joined by `_`.
    pub fn to_snake_case(name: &str) -> (r: String)
        requires
            pascal_tokenizable(name@),
        ensures
            r@ == pascal_to_snake(pascal_words(name@)),
    {
        let parts = Self::tokenize(name);
        let ghost ws = parts@.map_values(|w: &str| w@);
        let mut out = String::new();
        let mut i: usize = 0;
        while i < parts.len()
            invariant
                i <= parts.len(),
                ws == parts@.map_values(|w: &str| w@),
                ws == pascal_words(name@),
                out@ == pascal_to_snake(ws.take(i as int)),
            decreases parts.len() - i,
        {
            let part = parts[i];
            assert(ws[i as int] == part@);
            if i != 0 {
                push_char(&mut out, '_');
                assert(ws.take(i + 1).drop_last() =~= ws.take(i as int));
            } else {
                assert(ws.take(1) =~= seq![ws[0]]);
            }
            push_lower(&mut out, part);
            i = i + 1;
        }
        assert(ws.take(i as int) =~= ws);
        out
    }

    /// The `snake_case` form with `_` replaced by `-`.
    pub fn to_kebab_case(name: &str) -> (r: String)
        requires
            pascal_tokenizable(name@),
        ensures
            r@ == replace_char(pascal_to_snake(pascal_words(name@)), '_', '-'),
    {
        let s = Self::to_snake_case(name);
        replace_chars(s.as_str(), '_', '-')
    }

    /// The `snake_case` form upper-cased.
    #[allow(non_snake_case)]
    pub fn SCREAMING_SNAKE_CASE(name: &str) -> (r: String)
        requires
            pascal_tokenizable(name@),
        ensures
            r@ == unicode_uppercase(pascal_to_snake(pascal_words(name@))),
    {
        let s = Self::to_snake_case(name);
        to_unicode_uppercase(s.as_str())
    }

    /// The `kebab-case` form upper-cased.
    #[allow(non_snake_case)]
    pub fn SCREAMING_KEBAB_CASE(name: &str) -> (r: String)
        requires
            pascal_tokenizable(name@),
        ensures
            r@ == unicode_uppercase(replace_char(pascal_to_snake(pascal_words(name@)), '_', '-')),
    {
        let s = Self::to_kebab_case(name);
        to_unicode_uppercase(s.as_str())
    }
}


/// A field name (read as `snake_case`) in the given convention.
pub open spec fn field_renamed(style: Case, name: Seq<char>) -> Seq<char> {
    match style {
        Case::Camel => snake_to_camel(snake_words(name)),
        Case::Snake => name,
        Case::Lower => lower_all(name),
        Case::Upper => upper_all(name),
        Case::Pascal => snake_to_pascal(snake_words(name)),
        Case::ScreamingSnake => unicode_uppercase(name),
        Case::Kebab => replace_char(name, '_', '-'),
        Case::ScreamingKebab => unicode_uppercase(replace_char(name, '_', '-')),
    }
}

/// A variant name (read as `PascalCase`) in the given convention.
pub open spec fn variant_renamed(style: Case, name: Seq<char>) -> Seq<char> {
    match style {
        Case::Camel => pascal_to_camel(pascal_words(name)),
        Case::Snake => pascal_to_snake(pascal_words(name)),
        Case::Lower => lower_all(name),
        Case::Upper => upper_all(name),
        Case::Pascal => name,
        Case::ScreamingSnake => unicode_uppercase(pascal_to_snake(pascal_words(name))),
        Case::Kebab => replace_char(pascal_to_snake(pascal_words(name)), '_', '-'),
        Case::ScreamingKebab => unicode_uppercase(replace_char(pascal_to_snake(pascal_words(name)), '_', '-')),
    }
}

/// Whether a field name can be renamed to `style`: the conventions that
/// change the first letter of each word need that letter to be ASCII.
pub open spec fn field_renamable(style: Case, name: Seq<char>) -> bool {
    (style == Case::Camel || style == Case::Pascal) ==> words_lead_ascii(snake_words(name))
}

/// Whether a variant name can be renamed to `style`: the conventions that
/// split the name need its words cut on character boundaries, and
/// `camelCase` also needs the later words to start with ASCII characters.
pub open spec fn variant_renamable(style: Case, name: Seq<char>) -> bool {
    match style {
        Case::Camel => pascal_camel_safe(name),
        Case::Snake | Case::Kebab | Case::ScreamingSnake | Case::ScreamingKebab => pascal_tokenizable(name),
        _ => true,
    }
}

/// ASCII lower-casing of a name.
pub fn lowercase(field_name: &str) -> (r: String)
    ensures
        r@ == lower_all(field_name@),
{
    ascii_lowercase(field_name)
}

/// ASCII upper-casing of a name.
#[allow(non_snake_case)]
pub fn UPPERCASE(field_name: &str) -> (r: String)
    ensures
        r@ == upper_all(field_name@),
{
    ascii_uppercase(field_name)
}

/// `r` is `s` with every `_` turned into `-` and every other character kept.
pub open spec fn dashes_for_underscores(s: Seq<char>, r: Seq<char>) -> bool {
    &&& r.len() == s.len()
    &&& forall|i: int| 0 <= i < s.len() ==> #[trigger] r[i] == (if s[i] == '_' { '-' } else { s[i] })
}

/// `r` is `s` with `A` to `Z` turned into `a` to `z` and every other
/// character kept.
pub open spec fn ascii_lowered(s: Seq<char>, r: Seq<char>) -> bool {
    &&& r.len() == s.len()
    &&& forall|i: int| 0 <= i < s.len() ==> #[trigger] r[i] == (if 'A' <= s[i] <= 'Z' {
        ((s[i] as u32) + 32) as char
    } else {
        s[i]
    })
}

/// `r` is `s` with `a` to `z` turned into `A` to `Z` and every other
/// character kept.
pub open spec fn ascii_uppered(s: Seq<char>, r: Seq<char>) -> bool {
    &&& r.len() == s.len()
    &&& forall|i: int| 0 <= i < s.len() ==> #[trigger] r[i] == (if 'a' <= s[i] <= 'z' {
        ((s[i] as u32) - 32) as char
    } else {
        s[i]
    })
}

/// Renaming a `snake_case` field name: `snake_case` keeps it; kebab-case
/// turns each `_` into `-` and keeps everything else; lowercase and
/// UPPERCASE change the case of ASCII letters only; the screaming
/// conventions are the Unicode upper-casing of the name and of its
/// kebab-case form.
pub proof fn field_renaming_by_character(name: Seq<char>)
    ensures
        field_renamed(Case::Snake, name) == name,
        dashes_for_underscores(name, field_renamed(Case::Kebab, name)),
        ascii_lowered(name, field_renamed(Case::Lower, name)),
        ascii_uppered(name, field_renamed(Case::Upper, name)),
        field_renamed(Case::ScreamingSnake, name) == unicode_uppercase(name),
        field_renamed(Case::ScreamingKebab, name) == unicode_uppercase(field_renamed(Case::Kebab, name)),
{
}

/// Renaming a `PascalCase` variant name: `PascalCase` keeps it; lowercase
/// and UPPERCASE change the case of ASCII letters only; kebab-case is the
/// `snake_case` form with each `_` turned into `-`; the screaming
/// conventions are the Unicode upper-casing of the `snake_case` and
/// kebab-case forms.
pub proof fn variant_renaming_by_character(name: Seq<char>)
    ensures
        variant_renamed(Case::Pascal, name) == name,
        ascii_lowered(name, variant_renamed(Case::Lower, name)),
        ascii_uppered(name, variant_renamed(Case::Upper, name)),
        dashes_for_underscores(variant_renamed(Case::Snake, name), variant_renamed(Case::Kebab, name)),
        variant_renamed(Case::ScreamingSnake, name) == unicode_uppercase(variant_renamed(Case::Snake, name)),
        variant_renamed(Case::ScreamingKebab, name) == unicode_uppercase(variant_renamed(Case::Kebab, name)),
{
}

/// The characters of a name other than `_`, in order.
pub open spec fn letters_of(s: Seq<char>) -> Seq<char>
    decreases s.len(),
{
    if s.len() == 0 {
        seq![]
    } else {
        (if s[0] == '_' { seq![] } else { seq![s[0]] }) + letters_of(s.drop_first())
    }
}

/// No character of `s` is `_`.
pub open spec fn no_underscore(s: Seq<char>) -> bool {
    forall|i: int| 0 <= i < s.len() ==> #[trigger] s[i] != '_'
}

/// ASCII case changes keep other characters from becoming `_`, and undo
/// each other under lower-casing.
proof fn lemma_case_char(c: char)
    ensures
        c != '_' ==> ascii_upper(c) != '_' && ascii_lower(c) != '_',
        ascii_lower(ascii_upper(c)) == ascii_lower(c),
        !('A' <= ascii_lower(c) <= 'Z'),
        !('a' <= ascii_upper(c) <= 'z'),
{
    if 'a' <= c <= 'z' {
        let u = ((c as u32) - 32) as char;
        assert(u as u32 == (c as u32) - 32);
        assert('A' <= u <= 'Z');
        assert(((u as u32) + 32) as char == c);
    }
    if 'A' <= c <= 'Z' {
        let l = ((c as u32) + 32) as char;
        assert(l as u32 == (c as u32) + 32);
        assert('a' <= l <= 'z');
    }
}

/// The words of a `snake_case` name (with `cur` the word being read) are
/// non-empty, hold no `_`, and together are `cur` and the name's characters
/// other than `_`.
proof fn lemma_snake_words_letters(s: Seq<char>, cur: Seq<char>)
    requires
        no_underscore(cur),
    ensures
        forall|k: int| 0 <= k < snake_words_from(s, cur).len()
            ==> (#[trigger] snake_words_from(s, cur)[k]).len() > 0 && no_underscore(snake_words_from(s, cur)[k]),
        flatten_words(snake_words_from(s, cur)) == cur + letters_of(s),
    decreases s.len(),
{
    let ws = snake_words_from(s, cur);
    if s.len() == 0 {
        if cur.len() > 0 {
            lemma_flatten_prepend(cur, Seq::empty());
            assert(seq![cur] + Seq::<Seq<char>>::empty() =~= seq![cur]);
        }
        assert(cur + Seq::<char>::empty() =~= cur);
    } else if s[0] == '_' {
        let rest = snake_words_from(s.drop_first(), seq![]);
        assert(no_underscore(Seq::<char>::empty()));
        lemma_snake_words_letters(s.drop_first(), seq![]);
        assert(letters_of(s) =~= letters_of(s.drop_first()));
        if cur.len() > 0 {
            lemma_flatten_prepend(cur, rest);
            assert(ws == seq![cur] + rest);
            assert forall|k: int| 0 <= k < ws.len() implies (#[trigger] ws[k]).len() > 0 && no_underscore(ws[k]) by {
                if k > 0 {
                    assert(ws[k] == rest[k - 1]);
                }
            }
        } else {
            assert(ws =~= rest);
            assert(Seq::<char>::empty() + flatten_words(rest) =~= flatten_words(rest));
        }
    } else {
        let next = cur.push(s[0]);
        assert(no_underscore(next)) by {
            assert forall|i: int| 0 <= i < next.len() implies #[trigger] next[i] != '_' by {
                if i < cur.len() {
                    assert(next[i] == cur[i]);
                }
            }
        }
        lemma_snake_words_letters(s.drop_first(), next);
        assert(letters_of(s) == seq![s[0]] + letters_of(s.drop_first()));
        assert(next + letters_of(s.drop_first()) =~= cur + letters_of(s));
    }
}

/// Joining words (non-empty, without `_`, each starting with an ASCII
/// character) in `PascalCase` and in `camelCase`.
proof fn lemma_joined_words(ws: Seq<Seq<char>>)
    requires
        forall|k: int| 0 <= k < ws.len() ==> (#[trigger] ws[k]).len() > 0 && no_underscore(ws[k]) && is_ascii_char(ws[k][0]),
    ensures
        snake_to_pascal(ws).len() == flatten_words(ws).len(),
        snake_to_camel(ws).len() == flatten_words(ws).len(),
        no_underscore(snake_to_pascal(ws)),
        no_underscore(snake_to_camel(ws)),
        lower_all(snake_to_pascal(ws)) == lower_all(flatten_words(ws)),
        lower_all(snake_to_camel(ws)) == lower_all(flatten_words(ws)),
        ws.len() > 0 ==> {
            &&& snake_to_pascal(ws).skip(1) == snake_to_camel(ws).skip(1)
            &&& snake_to_pascal(ws)[0] == ascii_upper(ws[0][0])
            &&& snake_to_camel(ws)[0] == ascii_lower(ws[0][0])
        },
    decreases ws.len(),
{
    if ws.len() == 0 {
        assert(lower_all(Seq::<char>::empty()) =~= Seq::<char>::empty());
    } else {
        let w = ws.last();
        let d = ws.drop_last();
        assert(w == ws[ws.len() - 1]);
        lemma_case_char(w[0]);
        let uw = upper_first(w);
        assert(lower_all(uw) =~= lower_all(w)) by {
            assert forall|i: int| 0 <= i < w.len() implies #[trigger] lower_all(uw)[i] == lower_all(w)[i] by {
                if i > 0 {
                    assert(uw[i] == w[i]);
                }
            }
        }
        assert(no_underscore(uw)) by {
            assert forall|i: int| 0 <= i < uw.len() implies #[trigger] uw[i] != '_' by {
                if i > 0 {
                    assert(uw[i] == w[i]);
                } else {
                    assert(w[0] != '_');
                }
            }
        }
        assert forall|k: int| 0 <= k < d.len() implies (#[trigger] d[k]).len() > 0 && no_underscore(d[k]) && is_ascii_char(d[k][0]) by {
            assert(d[k] == ws[k]);
        }
        lemma_joined_words(d);
        if ws.len() == 1 {
            let lw = lower_first(w);
            assert(d =~= Seq::<Seq<char>>::empty());
            assert(ws[0] == w);
            assert(snake_to_pascal(ws) == snake_to_pascal(d) + uw);
            assert(snake_to_pascal(d) + uw =~= uw);
            assert(flatten_words(ws) == flatten_words(d) + w);
            assert(flatten_words(d) + w =~= w);
            assert(snake_to_camel(ws) == lw);
            assert(lower_all(lw) =~= lower_all(w)) by {
                assert forall|i: int| 0 <= i < w.len() implies #[trigger] lower_all(lw)[i] == lower_all(w)[i] by {
                    if i > 0 {
                        assert(lw[i] == w[i]);
                    }
                }
            }
            assert(no_underscore(lw)) by {
                assert forall|i: int| 0 <= i < lw.len() implies #[trigger] lw[i] != '_' by {
                    if i > 0 {
                        assert(lw[i] == w[i]);
                    } else {
                        assert(w[0] != '_');
                    }
                }
            }
            assert(uw.skip(1) =~= lw.skip(1));
        } else {
            let p = snake_to_pascal(d);
            let c = snake_to_camel(d);
            let f = flatten_words(d);
            assert(snake_to_pascal(ws) == p + uw);
            assert(snake_to_camel(ws) == c + uw);
            assert(flatten_words(ws) == f + w);
            assert(lower_all(p + uw) =~= lower_all(p) + lower_all(uw));
            assert(lower_all(c + uw) =~= lower_all(c) + lower_all(uw));
            assert(lower_all(f + w) =~= lower_all(f) + lower_all(w));
            assert(no_underscore(p + uw)) by {
                assert forall|i: int| 0 <= i < (p + uw).len() implies #[trigger] (p + uw)[i] != '_' by {
                    if i < p.len() {
                        assert((p + uw)[i] == p[i]);
                    } else {
                        assert((p + uw)[i] == uw[i - p.len()]);
                    }
                }
            }
            assert(no_underscore(c + uw)) by {
                assert forall|i: int| 0 <= i < (c + uw).len() implies #[trigger] (c + uw)[i] != '_' by {
                    if i < c.len() {
                        assert((c + uw)[i] == c[i]);
                    } else {
                        assert((c + uw)[i] == uw[i - c.len()]);
                    }
                }
            }
            assert(d[0] == ws[0]);
            assert(p.len() > 0);
            assert((p + uw).skip(1) =~= p.skip(1) + uw);
            assert((c + uw).skip(1) =~= c.skip(1) + uw);
        }
    }
}

/// Renaming a `snake_case` field name to `camelCase` or `PascalCase` drops
/// its `_`s and keeps its other characters, in order, changing at most
/// their ASCII case; the two forms differ only in their first character,
/// which `camelCase` does not upper-case and `PascalCase` does not
/// lower-case.
pub proof fn field_camel_and_pascal_case(name: Seq<char>)
    requires
        field_renamable(Case::Camel, name),
    ensures
        field_renamed(Case::Camel, name).len() == letters_of(name).len(),
        field_renamed(Case::Pascal, name).len() == letters_of(name).len(),
        no_underscore(field_renamed(Case::Camel, name)),
        no_underscore(field_renamed(Case::Pascal, name)),
        lower_all(field_renamed(Case::Camel, name)) == lower_all(letters_of(name)),
        lower_all(field_renamed(Case::Pascal, name)) == lower_all(letters_of(name)),
        letters_of(name).len() > 0 ==> {
            &&& field_renamed(Case::Camel, name).skip(1) == field_renamed(Case::Pascal, name).skip(1)
            &&& !('A' <= field_renamed(Case::Camel, name)[0] <= 'Z')
            &&& !('a' <= field_renamed(Case::Pascal, name)[0] <= 'z')
        },
{
    assert(no_underscore(Seq::<char>::empty()));
    lemma_snake_words_letters(name, seq![]);
    let ws = snake_words(name);
    assert(Seq::<char>::empty() + letters_of(name) =~= letters_of(name));
    assert forall|k: int| 0 <= k < ws.len() implies (#[trigger] ws[k]).len() > 0 && no_underscore(ws[k]) && is_ascii_char(ws[k][0]) by {
        assert(words_lead_ascii(ws));
    }
    lemma_joined_words(ws);
    if letters_of(name).len() > 0 {
        assert(ws.len() > 0);
        lemma_case_char(ws[0][0]);
    }
}

/// Renames a field name to the convention `style`.
pub fn rename_all(style: Case, name: &str) -> (r: String)
    requires
        field_renamable(style, name@),
    ensures
        r@ == field_renamed(style, name@),
        style == Case::Snake ==> r@ == name@,
        style == Case::Kebab ==> dashes_for_underscores(name@, r@),
        style == Case::Lower ==> ascii_lowered(name@, r@),
        style == Case::Upper ==> ascii_uppered(name@, r@),
        style == Case::ScreamingSnake ==> r@ == unicode_uppercase(name@),
{
    match style {
        Case::Camel => snake_case::to_camel_case(name),
        Case::Snake => snake_case::to_snake_case(name),
        Case::Lower => lowercase(name),
        Case::Upper => UPPERCASE(name),
        Case::Pascal => snake_case::to_pascal_case(name),
        Case::ScreamingSnake => snake_case::SCREAMING_SNAKE_CASE(name),
        Case::Kebab => snake_case::to_kebab_case(name),
        Case::ScreamingKebab => snake_case::SCREAMING_KEBAB_CASE(name),
    }
}

/// Renames a variant name to the convention `style`.
pub fn rename_all_variants(style: Case, name: &str) -> (r: String)
    requires
        variant_renamable(style, name@),
    ensures
        r@ == variant_renamed(style, name@),
        style == Case::Pascal ==> r@ == name@,
        style == Case::Lower ==> ascii_lowered(name@, r@),
        style == Case::Upper ==> ascii_uppered(name@, r@),
{
    match style {
        Case::Camel => PascalCase::to_camel_case(name),
        Case::Snake => PascalCase::to_snake_case(name),
        Case::Lower => lowercase(name),
        Case::Upper => UPPERCASE(name),
        Case::Pascal => PascalCase::to_pascal_case(name),
        Case::ScreamingSnake => PascalCase::SCREAMING_SNAKE_CASE(name),
        Case::Kebab => PascalCase::to_kebab_case(name),
        Case::ScreamingKebab => PascalCase::SCREAMING_KEBAB_CASE(name),
    }
}

/// Renames a field name to the convention `style` when its words allow it
/// (the condition of [`rename_all`]); `None` otherwise.
pub fn try_rename_all(style: Case, name: &str) -> (r: Option<String>)
    ensures
        r is Some <==> field_renamable(style, name@),
        r matches Some(v) ==> v@ == field_renamed(style, name@),
{
    if style == Case::Camel || style == Case::Pascal {
        let words = snake_case::tokenize(name);
        let ghost ws = words@.map_values(|w: String| w@);
        let mut k: usize = 0;
        while k < words.len()
            invariant
                ws == words@.map_values(|w: String| w@),
                ws == snake_words(name@),
                style == Case::Camel || style == Case::Pascal,
                forall|i: int| 0 <= i < words@.len() ==> #[trigger] words@[i]@.len() > 0,
                forall|i: int| 0 <= i < k && i < ws.len() ==> #[trigger] ws[i].len() > 0 && is_ascii_char(ws[i][0]),
            decreases words@.len() - k,
        {
            let cs = chars_of(words[k].as_str());
            assert(cs@ == ws[k as int]);
            assert(words@[k as int]@.len() > 0);
            if !((cs[0] as u32) < 128) {
                assert(!is_ascii_char(ws[k as int][0]));
                return None;
            }
            k = k + 1;
        }
    }
    Some(rename_all(style, name))
}

/// Renames a variant name to the convention `style` when its words allow
/// it (the condition of [`rename_all_variants`]); `None` otherwise.
pub fn try_rename_all_variants(style: Case, name: &str) -> (r: Option<String>)
    ensures
        r is Some <==> variant_renamable(style, name@),
        r matches Some(v) ==> v@ == variant_renamed(style, name@),
{
    let ok = match style {
        Case::Camel => PascalCase::is_camel_safe(name),
        Case::Snake | Case::Kebab | Case::ScreamingSnake | Case::ScreamingKebab => PascalCase::is_tokenizable(name),
        _ => true,
    };
    if ok {
        Some(rename_all_variants(style, name))
    } else {
        None
    }
}

} // verus!
