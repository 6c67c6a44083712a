//! The casing rules a record can apply to its field names.
//!
//! A [`RenameAll`] value is a pure, total transformation of identifier
//! strings. The transformations assume the usual lower-snake identifier
//! syntax (ASCII letters, digits, underscores) but are defined for every
//! input: characters outside that alphabet pass through unchanged.

use vstd::prelude::*;
use vstd::string::StrSliceExecFns;

use crate::error::{Error, ErrorKind, ErrorModel};

verus! {

/// The closed set of casing transformations selectable with `rename_all`.
#[derive(Clone, Copy, PartialEq, Eq, Structural, Debug)]
pub enum RenameAll {
    /// `lowercase`: identifiers are already lower-case, so unchanged.
    Lower,
    /// `UPPERCASE`: every ASCII letter uppercased.
    Upper,
    /// `PascalCase`: segments between underscores capitalized and joined.
    Pascal,
    /// `camelCase`: Pascal with the very first character lowercased.
    Camel,
    /// `snake_case`: the identity.
    Snake,
    /// `SCREAMING_SNAKE_CASE`: every ASCII letter uppercased.
    ScreamingSnake,
    /// `kebab-case`: underscores replaced with hyphens.
    Kebab,
    /// `SCREAMING-KEBAB-CASE`: uppercased, underscores replaced with hyphens.
    ScreamingKebab,
}

/// Uppercases an ASCII letter; every other character is unchanged.
pub open spec fn upper_char(c: char) -> char {
    if 'a' <= c && c <= 'z' {
        ((c as int) - 32) as char
    } else {
        c
    }
}

/// Lowercases an ASCII letter; every other character is unchanged.
pub open spec fn lower_char(c: char) -> char {
    if 'A' <= c && c <= 'Z' {
        ((c as int) + 32) as char
    } else {
        c
    }
}

/// Replaces an underscore with a hyphen; every other character is unchanged.
pub open spec fn kebab_char(c: char) -> char {
    if c == '_' {
        '-'
    } else {
        c
    }
}

/// The `UPPERCASE` and `SCREAMING_SNAKE_CASE` transformation.
pub open spec fn upper_seq(s: Seq<char>) -> Seq<char> {
    Seq::new(s.len(), |i: int| upper_char(s[i]))
}

/// The `kebab-case` transformation.
pub open spec fn kebab_seq(s: Seq<char>) -> Seq<char> {
    Seq::new(s.len(), |i: int| kebab_char(s[i]))
}

/// The `SCREAMING-KEBAB-CASE` transformation.
pub open spec fn screaming_kebab_seq(s: Seq<char>) -> Seq<char> {
    Seq::new(s.len(), |i: int| kebab_char(upper_char(s[i])))
}

/// The tail of the `PascalCase` transformation from position `i` on, where
/// `cap` says whether the next letter begins a segment and is capitalized.
pub open spec fn pascal_from(s: Seq<char>, i: int, cap: bool) -> Seq<char>
    decreases s.len() - i,
{
    if i < 0 || i >= s.len() {
        Seq::empty()
    } else if s[i] == '_' {
        pascal_from(s, i + 1, true)
    } else if cap {
        seq![upper_char(s[i])] + pascal_from(s, i + 1, false)
    } else {
        seq![s[i]] + pascal_from(s, i + 1, false)
    }
}

/// The `PascalCase` transformation: underscores dropped, each segment's
/// first character uppercased.
pub open spec fn pascal_seq(s: Seq<char>) -> Seq<char> {
    pascal_from(s, 0, true)
}

/// The `camelCase` transformation: Pascal with the first character
/// lowercased. An empty Pascal result (an empty identifier, or one of
/// underscores only) stays empty; this is no failure.
pub open spec fn camel_seq(s: Seq<char>) -> Seq<char> {
    let p = pascal_seq(s);
    if p.len() == 0 {
        p
    } else {
        seq![lower_char(p[0])] + p.drop_first()
    }
}

/// What a casing rule does to an identifier.
pub open spec fn spec_apply(rule: RenameAll, s: Seq<char>) -> Seq<char> {
    match rule {
        RenameAll::Lower => s,
        RenameAll::Snake => s,
        RenameAll::Upper => upper_seq(s),
        RenameAll::ScreamingSnake => upper_seq(s),
        RenameAll::Pascal => pascal_seq(s),
        RenameAll::Camel => camel_seq(s),
        RenameAll::Kebab => kebab_seq(s),
        RenameAll::ScreamingKebab => screaming_kebab_seq(s),
    }
}

/// Relies on String::push: appends the given character to the end of
/// the string.
#[verifier::external_body]
pub(crate) fn push_char(s: &mut String, c: char)
    ensures
        final(s)@ == old(s)@.push(c),
{
    s.push(c)
}

/// Compares two string slices by their character contents.
pub(crate) fn str_eq(a: &str, b: &str) -> (r: bool)
    ensures
        r == (a@ == b@),
{
    let sa = a.to_owned();
    let sb = b.to_owned();
    sa.eq(&sb)
}

/// The table behind [`upper_char`].
fn to_upper_char(c: char) -> (r: char)
    ensures
        r == upper_char(c),
{
    match c {
        'a' => 'A',
        'b' => 'B',
        'c' => 'C',
        'd' => 'D',
        'e' => 'E',
        'f' => 'F',
        'g' => 'G',
        'h' => 'H',
        'i' => 'I',
        'j' => 'J',
        'k' => 'K',
        'l' => 'L',
        'm' => 'M',
        'n' => 'N',
        'o' => 'O',
        'p' => 'P',
        'q' => 'Q',
        'r' => 'R',
        's' => 'S',
        't' => 'T',
        'u' => 'U',
        'v' => 'V',
        'w' => 'W',
        'x' => 'X',
        'y' => 'Y',
        'z' => 'Z',
        _ => c,
    }
}

/// The table behind [`lower_char`].
fn to_lower_char(c: char) -> (r: char)
    ensures
        r == lower_char(c),
{
    match c {
        'A' => 'a',
        'B' => 'b',
        'C' => 'c',
        'D' => 'd',
        'E' => 'e',
        'F' => 'f',
        'G' => 'g',
        'H' => 'h',
        'I' => 'i',
        'J' => 'j',
        'K' => 'k',
        'L' => 'l',
        'M' => 'm',
        'N' => 'n',
        'O' => 'o',
        'P' => 'p',
        'Q' => 'q',
        'R' => 'r',
        'S' => 's',
        'T' => 't',
        'U' => 'u',
        'V' => 'v',
        'W' => 'w',
        'X' => 'x',
        'Y' => 'y',
        'Z' => 'z',
        _ => c,
    }
}

/// Uppercases every ASCII letter of `name`.
fn apply_upper(name: &str) -> (r: String)
    ensures
        r@ == upper_seq(name@),
{
    let n = name.unicode_len();
    let mut out = String::new();
    let mut i: usize = 0;
    while i < n
        invariant
            n == name@.len(),
            i <= n,
            out@.len() == i,
            forall|j: int| 0 <= j < i ==> out@[j] == upper_char(name@[j]),
        decreases n - i,
    {
        let c = name.get_char(i);
        push_char(&mut out, to_upper_char(c));
        i = i + 1;
    }
    proof {
        assert(out@ =~= upper_seq(name@));
    }
    out
}

/// Replaces every underscore of `name` with a hyphen.
fn apply_kebab(name: &str) -> (r: String)
    ensures
        r@ == kebab_seq(name@),
{
    let n = name.unicode_len();
    let mut out = String::new();
    let mut i: usize = 0;
    while i < n
        invariant
            n == name@.len(),
            i <= n,
            out@.len() == i,
            forall|j: int| 0 <= j < i ==> out@[j] == kebab_char(name@[j]),
        decreases n - i,
    {
        let c = name.get_char(i);
        if c == '_' {
            push_char(&mut out, '-');
        } else {
            push_char(&mut out, c);
        }
        i = i + 1;
    }
    proof {
        assert(out@ =~= kebab_seq(name@));
    }
    out
}

/// Uppercases every ASCII letter of `name` and replaces every underscore
/// with a hyphen.
fn apply_screaming_kebab(name: &str) -> (r: String)
    ensures
        r@ == screaming_kebab_seq(name@),
{
    let n = name.unicode_len();
    let mut out = String::new();
    let mut i: usize = 0;
    while i < n
        invariant
            n == name@.len(),
            i <= n,
            out@.len() == i,
            forall|j: int| 0 <= j < i ==> out@[j] == kebab_char(upper_char(name@[j])),
        decreases n - i,
    {
        let c = name.get_char(i);
        if c == '_' {
            push_char(&mut out, '-');
        } else {
            push_char(&mut out, to_upper_char(c));
        }
        i = i + 1;
    }
    proof {
        assert(out@ =~= screaming_kebab_seq(name@));
    }
    out
}

/// Drops underscores and uppercases the first character of each segment.
fn apply_pascal(name: &str) -> (r: String)
    ensures
        r@ == pascal_seq(name@),
{
    let n = name.unicode_len();
    let mut out = String::new();
    let mut cap = true;
    let mut i: usize = 0;
    while i < n
        invariant
            n == name@.len(),
            i <= n,
            pascal_seq(name@) == out@ + pascal_from(name@, i as int, cap),
        decreases n - i,
    {
        let ghost prev = out@;
        let ghost prev_cap = cap;
        let c = name.get_char(i);
        if c == '_' {
            cap = true;
        } else if cap {
            push_char(&mut out, to_upper_char(c));
            cap = false;
        } else {
            push_char(&mut out, c);
        }
        proof {
            let s = name@;
            let gi = i as int;
            if s[gi] == '_' {
                assert(pascal_from(s, gi, prev_cap) == pascal_from(s, gi + 1, true));
            } else {
                let head = if prev_cap {
                    upper_char(s[gi])
                } else {
                    s[gi]
                };
                assert(pascal_from(s, gi, prev_cap) == seq![head] + pascal_from(s, gi + 1, false));
                assert(prev + (seq![head] + pascal_from(s, gi + 1, false)) =~= prev.push(head)
                    + pascal_from(s, gi + 1, false));
            }
        }
        i = i + 1;
    }
    proof {
        assert(out@ =~= pascal_seq(name@));
    }
    out
}

/// Pascal with the very first character lowercased. A single-character
/// identifier therefore comes back lowercased, and an empty Pascal result
/// stays empty.
fn apply_camel(name: &str) -> (r: String)
    ensures
        r@ == camel_seq(name@),
{
    let p = apply_pascal(name);
    let n = p.as_str().unicode_len();
    if n == 0 {
        return p;
    }
    let c0 = p.as_str().get_char(0);
    let mut out = String::new();
    push_char(&mut out, to_lower_char(c0));
    let rest = p.as_str().substring_char(1, n);
    out.append(rest);
    proof {
        assert(out@ =~= camel_seq(name@));
    }
    out
}

impl RenameAll {
    /// Transforms one identifier under this casing rule.
    pub fn apply(self, name: &str) -> (r: String)
        ensures
            r@ == spec_apply(self, name@),
    {
        match self {
            RenameAll::Lower | RenameAll::Snake => name.to_owned(),
            RenameAll::Upper | RenameAll::ScreamingSnake => apply_upper(name),
            RenameAll::Pascal => apply_pascal(name),
            RenameAll::Camel => apply_camel(name),
            RenameAll::Kebab => apply_kebab(name),
            RenameAll::ScreamingKebab => apply_screaming_kebab(name),
        }
    }

    /// Transforms one field identifier; the same transformation as
    /// [`RenameAll::apply`].
    pub fn rename_field(self, v: &str) -> (r: String)
        ensures
            r@ == spec_apply(self, v@),
    {
        self.apply(v)
    }
}

/// The casing rule a `rename_all` value selects, if it names one.
pub open spec fn casing_rule_of(s: Seq<char>) -> Option<RenameAll> {
    if s == "lowercase"@ {
        Some(RenameAll::Lower)
    } else if s == "UPPERCASE"@ {
        Some(RenameAll::Upper)
    } else if s == "PascalCase"@ {
        Some(RenameAll::Pascal)
    } else if s == "camelCase"@ {
        Some(RenameAll::Camel)
    } else if s == "snake_case"@ {
        Some(RenameAll::Snake)
    } else if s == "SCREAMING_SNAKE_CASE"@ {
        Some(RenameAll::ScreamingSnake)
    } else if s == "kebab-case"@ {
        Some(RenameAll::Kebab)
    } else if s == "SCREAMING-KEBAB-CASE"@ {
        Some(RenameAll::ScreamingKebab)
    } else {
        None
    }
}

impl RenameAll {
    /// Looks the casing rule up by its `rename_all` value. Exactly the
    /// eight rule names are accepted; anything else is an
    /// [`ErrorKind::UnknownCasingRule`] carrying the offending value.
    pub fn from_str(value: &str) -> (r: Result<RenameAll, Error>)
        ensures
            match r {
                Ok(rule) => casing_rule_of(value@) == Some(rule),
                Err(e) => casing_rule_of(value@) is None && e@ == (ErrorModel {
                    kind: ErrorKind::UnknownCasingRule,
                    key: value@,
                    field: None,
                }),
            },
    {
        if str_eq(value, "lowercase") {
            Ok(RenameAll::Lower)
        } else if str_eq(value, "UPPERCASE") {
            Ok(RenameAll::Upper)
        } else if str_eq(value, "PascalCase") {
            Ok(RenameAll::Pascal)
        } else if str_eq(value, "camelCase") {
            Ok(RenameAll::Camel)
        } else if str_eq(value, "snake_case") {
            Ok(RenameAll::Snake)
        } else if str_eq(value, "SCREAMING_SNAKE_CASE") {
            Ok(RenameAll::ScreamingSnake)
        } else if str_eq(value, "kebab-case") {
            Ok(RenameAll::Kebab)
        } else if str_eq(value, "SCREAMING-KEBAB-CASE") {
            Ok(RenameAll::ScreamingKebab)
        } else {
            Err(Error::new(ErrorKind::UnknownCasingRule, value.to_owned()))
        }
    }
}


/// A character of a lower-snake identifier: a lower-case ASCII letter, an
/// ASCII digit, or an underscore.
pub open spec fn is_snake_char(c: char) -> bool {
    ('a' <= c && c <= 'z') || ('0' <= c && c <= '9') || c == '_'
}

/// A lower-snake identifier: every character is a snake character.
pub open spec fn is_snake_ident(s: Seq<char>) -> bool {
    forall|i: int| 0 <= i < s.len() ==> is_snake_char(s[i])
}

/// A character a casing rule may produce from a lower-snake identifier: an
/// ASCII letter, an ASCII digit, an underscore or a hyphen.
pub open spec fn is_output_char(c: char) -> bool {
    ('a' <= c && c <= 'z') || ('A' <= c && c <= 'Z') || ('0' <= c && c <= '9') || c == '_' || c
        == '-'
}

/// An ASCII letter or digit: what Pascal and camel produce, separators
/// dropped.
pub open spec fn is_alnum_char(c: char) -> bool {
    ('a' <= c && c <= 'z') || ('A' <= c && c <= 'Z') || ('0' <= c && c <= '9')
}

/// The exact alphabet each casing rule produces from a lower-snake
/// identifier: the snake alphabet for the identity rules, no lower-case
/// letters for the screaming rules, no underscores for the kebab rules,
/// and no separators at all for Pascal and camel.
pub open spec fn rule_output_char(rule: RenameAll, c: char) -> bool {
    match rule {
        RenameAll::Lower | RenameAll::Snake => is_snake_char(c),
        RenameAll::Upper | RenameAll::ScreamingSnake => ('A' <= c && c <= 'Z') || ('0' <= c && c
            <= '9') || c == '_',
        RenameAll::Pascal | RenameAll::Camel => is_alnum_char(c),
        RenameAll::Kebab => ('a' <= c && c <= 'z') || ('0' <= c && c <= '9') || c == '-',
        RenameAll::ScreamingKebab => ('A' <= c && c <= 'Z') || ('0' <= c && c <= '9') || c == '-',
    }
}

proof fn lemma_pascal_from_chars(s: Seq<char>, i: int, cap: bool)
    requires
        is_snake_ident(s),
    ensures
        forall|j: int|
            0 <= j < pascal_from(s, i, cap).len() ==> is_alnum_char(
                #[trigger] pascal_from(s, i, cap)[j],
            ),
    decreases s.len() - i,
{
    if i < 0 || i >= s.len() {
    } else if s[i] == '_' {
        lemma_pascal_from_chars(s, i + 1, true);
        assert(pascal_from(s, i, cap) == pascal_from(s, i + 1, true));
    } else {
        lemma_pascal_from_chars(s, i + 1, false);
        let head = if cap {
            upper_char(s[i])
        } else {
            s[i]
        };
        assert(is_snake_char(s[i]));
        assert(is_alnum_char(head));
        assert(pascal_from(s, i, cap) == seq![head] + pascal_from(s, i + 1, false));
        assert forall|j: int| 0 <= j < pascal_from(s, i, cap).len() implies is_alnum_char(
            #[trigger] pascal_from(s, i, cap)[j],
        ) by {
            if j > 0 {
                assert(pascal_from(s, i, cap)[j] == pascal_from(s, i + 1, false)[j - 1]);
            }
        }
    }
}

/// Law: every casing rule is deterministic: equal identifiers always give
/// equal outputs.
pub proof fn lemma_casing_deterministic(rule: RenameAll, s1: Seq<char>, s2: Seq<char>)
    requires
        s1 == s2,
    ensures
        spec_apply(rule, s1) == spec_apply(rule, s2),
{
}

/// Law: on a non-empty lower-snake identifier, every casing rule stays
/// within the alphabet it dictates — and so within ASCII letters, digits,
/// underscores and hyphens.
pub proof fn lemma_casing_output_chars(rule: RenameAll, s: Seq<char>)
    requires
        is_snake_ident(s),
        s.len() > 0,
    ensures
        forall|i: int|
            0 <= i < spec_apply(rule, s).len() ==> rule_output_char(
                rule,
                #[trigger] spec_apply(rule, s)[i],
            ),
        forall|i: int|
            0 <= i < spec_apply(rule, s).len() ==> is_output_char(#[trigger] spec_apply(rule, s)[i]),
{
    match rule {
        RenameAll::Lower | RenameAll::Snake => {},
        RenameAll::Upper | RenameAll::ScreamingSnake => {
            assert forall|i: int| 0 <= i < upper_seq(s).len() implies rule_output_char(
                rule,
                #[trigger] upper_seq(s)[i],
            ) by {
                assert(is_snake_char(s[i]));
            }
        },
        RenameAll::Pascal => {
            lemma_pascal_from_chars(s, 0, true);
        },
        RenameAll::Camel => {
            lemma_pascal_from_chars(s, 0, true);
            let p = pascal_seq(s);
            if p.len() > 0 {
                assert(is_alnum_char(p[0]));
                assert(is_alnum_char(lower_char(p[0])));
                assert forall|i: int| 0 <= i < camel_seq(s).len() implies is_alnum_char(
                    #[trigger] camel_seq(s)[i],
                ) by {
                    if i > 0 {
                        assert(camel_seq(s)[i] == p[i]);
                    }
                }
            }
        },
        RenameAll::Kebab => {
            assert forall|i: int| 0 <= i < kebab_seq(s).len() implies rule_output_char(
                rule,
                #[trigger] kebab_seq(s)[i],
            ) by {
                assert(is_snake_char(s[i]));
            }
        },
        RenameAll::ScreamingKebab => {
            assert forall|i: int| 0 <= i < screaming_kebab_seq(s).len() implies rule_output_char(
                rule,
                #[trigger] screaming_kebab_seq(s)[i],
            ) by {
                assert(is_snake_char(s[i]));
            }
        },
    }
}

} // verus!
