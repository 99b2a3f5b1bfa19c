//! Naming-convention transforms.
//!
//! A [`RenameRule`] is parsed from a string literal such as `"camelCase"` and
//! applied to snake_case field names to derive their external names. Unknown
//! rule names are a parse error at the literal's span.

use vstd::prelude::*;

verus! {

/// A naming-convention transform for field names written in snake_case.
#[derive(Clone, Copy, PartialEq, Eq, Structural, Debug)]
pub enum RenameRule {
    Lowercase,
    Uppercase,
    PascalCase,
    CamelCase,
    SnakeCase,
    ScreamingSnakeCase,
    KebabCase,
    ScreamingKebabCase,
}

/// The uppercase form of an ASCII letter; any other character is unchanged.
pub open spec fn upper_char(c: char) -> char {
    if c == 'a' { 'A' } else if c == 'b' { 'B' } else if c == 'c' { 'C' }
    else if c == 'd' { 'D' } else if c == 'e' { 'E' } else if c == 'f' { 'F' }
    else if c == 'g' { 'G' } else if c == 'h' { 'H' } else if c == 'i' { 'I' }
    else if c == 'j' { 'J' } else if c == 'k' { 'K' } else if c == 'l' { 'L' }
    else if c == 'm' { 'M' } else if c == 'n' { 'N' } else if c == 'o' { 'O' }
    else if c == 'p' { 'P' } else if c == 'q' { 'Q' } else if c == 'r' { 'R' }
    else if c == 's' { 'S' } else if c == 't' { 'T' } else if c == 'u' { 'U' }
    else if c == 'v' { 'V' } else if c == 'w' { 'W' } else if c == 'x' { 'X' }
    else if c == 'y' { 'Y' } else if c == 'z' { 'Z' } else { c }
}

/// The lowercase form of an ASCII letter; any other character is unchanged.
pub open spec fn lower_char(c: char) -> char {
    if c == 'A' { 'a' } else if c == 'B' { 'b' } else if c == 'C' { 'c' }
    else if c == 'D' { 'd' } else if c == 'E' { 'e' } else if c == 'F' { 'f' }
    else if c == 'G' { 'g' } else if c == 'H' { 'h' } else if c == 'I' { 'i' }
    else if c == 'J' { 'j' } else if c == 'K' { 'k' } else if c == 'L' { 'l' }
    else if c == 'M' { 'm' } else if c == 'N' { 'n' } else if c == 'O' { 'o' }
    else if c == 'P' { 'p' } else if c == 'Q' { 'q' } else if c == 'R' { 'r' }
    else if c == 'S' { 's' } else if c == 'T' { 't' } else if c == 'U' { 'u' }
    else if c == 'V' { 'v' } else if c == 'W' { 'w' } else if c == 'X' { 'x' }
    else if c == 'Y' { 'y' } else if c == 'Z' { 'z' } else { c }
}

fn upper_char_exec(c: char) -> (r: char)
    ensures
        r == upper_char(c),
{
    match c {
        'a' => 'A', 'b' => 'B', 'c' => 'C', 'd' => 'D', 'e' => 'E', 'f' => 'F',
        'g' => 'G', 'h' => 'H', 'i' => 'I', 'j' => 'J', 'k' => 'K', 'l' => 'L',
        'm' => 'M', 'n' => 'N', 'o' => 'O', 'p' => 'P', 'q' => 'Q', 'r' => 'R',
        's' => 'S', 't' => 'T', 'u' => 'U', 'v' => 'V', 'w' => 'W', 'x' => 'X',
        'y' => 'Y', 'z' => 'Z', _ => c,
    }
}

fn lower_char_exec(c: char) -> (r: char)
    ensures
        r == lower_char(c),
{
    match c {
        'A' => 'a', 'B' => 'b', 'C' => 'c', 'D' => 'd', 'E' => 'e', 'F' => 'f',
        'G' => 'g', 'H' => 'h', 'I' => 'i', 'J' => 'j', 'K' => 'k', 'L' => 'l',
        'M' => 'm', 'N' => 'n', 'O' => 'o', 'P' => 'p', 'Q' => 'q', 'R' => 'r',
        'S' => 's', 'T' => 't', 'U' => 'u', 'V' => 'v', 'W' => 'w', 'X' => 'x',
        'Y' => 'y', 'Z' => 'z', _ => c,
    }
}

/// Every character uppercased.
pub open spec fn upper_seq(s: Seq<char>) -> Seq<char> {
    s.map_values(|c: char| upper_char(c))
}

/// Every `_` replaced by `-`.
pub open spec fn kebab_seq(s: Seq<char>) -> Seq<char> {
    s.map_values(|c: char| if c == '_' { '-' } else { c })
}

/// The PascalCase form of the suffix of `s` starting at `i`: underscores are
/// dropped and the character after each dropped underscore (and the first
/// character, when `boundary` holds) is uppercased.
pub open spec fn pascal_from(s: Seq<char>, i: int, boundary: bool) -> Seq<char>
    decreases s.len() - i,
{
    if i < 0 || i >= s.len() {
        Seq::empty()
    } else if s[i] == '_' {
        pascal_from(s, i + 1, true)
    } else if boundary {
        seq![upper_char(s[i])] + pascal_from(s, i + 1, false)
    } else {
        seq![s[i]] + pascal_from(s, i + 1, false)
    }
}

/// The PascalCase form of a snake_case name.
pub open spec fn pascal_seq(s: Seq<char>) -> Seq<char> {
    pascal_from(s, 0, true)
}

/// The camelCase form of a snake_case name: PascalCase with the first
/// character lowercased.
pub open spec fn camel_seq(s: Seq<char>) -> Seq<char> {
    let p = pascal_seq(s);
    if p.len() == 0 {
        p
    } else {
        seq![lower_char(p[0])] + p.drop_first()
    }
}

/// What applying a rule to a snake_case name yields.
pub open spec fn apply_rule(rule: RenameRule, s: Seq<char>) -> Seq<char> {
    match rule {
        RenameRule::Lowercase => s,
        RenameRule::SnakeCase => s,
        RenameRule::Uppercase => upper_seq(s),
        RenameRule::ScreamingSnakeCase => upper_seq(s),
        RenameRule::KebabCase => kebab_seq(s),
        RenameRule::ScreamingKebabCase => kebab_seq(upper_seq(s)),
        RenameRule::PascalCase => pascal_seq(s),
        RenameRule::CamelCase => camel_seq(s),
    }
}

/// The rule a rule name denotes, or `None` for an unknown name.
pub open spec fn rule_of(s: Seq<char>) -> Option<RenameRule> {
    if s == "lowercase"@ {
        Some(RenameRule::Lowercase)
    } else if s == "UPPERCASE"@ {
        Some(RenameRule::Uppercase)
    } else if s == "PascalCase"@ {
        Some(RenameRule::PascalCase)
    } else if s == "camelCase"@ {
        Some(RenameRule::CamelCase)
    } else if s == "snake_case"@ {
        Some(RenameRule::SnakeCase)
    } else if s == "SCREAMING_SNAKE_CASE"@ {
        Some(RenameRule::ScreamingSnakeCase)
    } else if s == "kebab-case"@ {
        Some(RenameRule::KebabCase)
    } else if s == "SCREAMING-KEBAB-CASE"@ {
        Some(RenameRule::ScreamingKebabCase)
    } else {
        None
    }
}

fn append_pascal(s: &Vec<char>, i: usize, boundary: bool, out: &mut Vec<char>)
    requires
        i <= s@.len(),
    ensures
        final(out)@ == old(out)@ + pascal_from(s@, i as int, boundary),
    decreases s@.len() - i,
{
    if i == s.len() {
        proof {
            assert(out@ =~= out@ + pascal_from(s@, i as int, boundary));
        }
    } else if s[i] == '_' {
        append_pascal(s, i + 1, true, out);
    } else {
        let c = s[i];
        if boundary {
            out.push(upper_char_exec(c));
        } else {
            out.push(c);
        }
        append_pascal(s, i + 1, false, out);
        proof {
            assert(out@ =~= old(out)@ + pascal_from(s@, i as int, boundary));
        }
    }
}

impl RenameRule {
    /// The rule named by `name`, or `None` for an unknown rule name.
    pub fn from_name(name: &String) -> (r: Option<RenameRule>)
        ensures
            r == rule_of(name@),
    {
        if *name == "lowercase".to_owned() {
            Some(RenameRule::Lowercase)
        } else if *name == "UPPERCASE".to_owned() {
            Some(RenameRule::Uppercase)
        } else if *name == "PascalCase".to_owned() {
            Some(RenameRule::PascalCase)
        } else if *name == "camelCase".to_owned() {
            Some(RenameRule::CamelCase)
        } else if *name == "snake_case".to_owned() {
            Some(RenameRule::SnakeCase)
        } else if *name == "SCREAMING_SNAKE_CASE".to_owned() {
            Some(RenameRule::ScreamingSnakeCase)
        } else if *name == "kebab-case".to_owned() {
            Some(RenameRule::KebabCase)
        } else if *name == "SCREAMING-KEBAB-CASE".to_owned() {
            Some(RenameRule::ScreamingKebabCase)
        } else {
            None
        }
    }

    /// Applies the rule to a snake_case name given as its characters.
    pub fn apply(&self, name: &Vec<char>) -> (r: Vec<char>)
        ensures
            r@ == apply_rule(*self, name@),
    {
        match self {
            RenameRule::Lowercase | RenameRule::SnakeCase => {
                let r = name.clone();
                proof {
                    assert(r@ =~= apply_rule(*self, name@));
                }
                r
            },
            RenameRule::Uppercase | RenameRule::ScreamingSnakeCase => {
                let mut out: Vec<char> = Vec::new();
                let mut i: usize = 0;
                while i < name.len()
                    invariant
                        i <= name@.len(),
                        out@.len() == i,
                        forall|k: int| 0 <= k < i ==> out@[k] == upper_char(name@[k]),
                    decreases name@.len() - i,
                {
                    out.push(upper_char_exec(name[i]));
                    i += 1;
                }
                proof {
                    assert(out@ =~= upper_seq(name@));
                }
                out
            },
            RenameRule::KebabCase => {
                let mut out: Vec<char> = Vec::new();
                let mut i: usize = 0;
                while i < name.len()
                    invariant
                        i <= name@.len(),
                        out@.len() == i,
                        forall|k: int|
                            0 <= k < i ==> out@[k] == (if name@[k] == '_' { '-' } else { name@[k] }),
                    decreases name@.len() - i,
                {
                    if name[i] == '_' {
                        out.push('-');
                    } else {
                        out.push(name[i]);
                    }
                    i += 1;
                }
                proof {
                    assert(out@ =~= kebab_seq(name@));
                }
                out
            },
            RenameRule::ScreamingKebabCase => {
                let mut out: Vec<char> = Vec::new();
                let mut i: usize = 0;
                while i < name.len()
                    invariant
                        i <= name@.len(),
                        out@.len() == i,
                        forall|k: int|
                            0 <= k < i ==> out@[k] == (if upper_char(name@[k]) == '_' {
                                '-'
                            } else {
                                upper_char(name@[k])
                            }),
                    decreases name@.len() - i,
                {
                    let c = upper_char_exec(name[i]);
                    if c == '_' {
                        out.push('-');
                    } else {
                        out.push(c);
                    }
                    i += 1;
                }
                proof {
                    assert(out@ =~= kebab_seq(upper_seq(name@)));
                }
                out
            },
            RenameRule::PascalCase => {
                let mut out: Vec<char> = Vec::new();
                append_pascal(name, 0, true, &mut out);
                proof {
                    assert(out@ =~= pascal_seq(name@));
                }
                out
            },
            RenameRule::CamelCase => {
                let mut pascal: Vec<char> = Vec::new();
                append_pascal(name, 0, true, &mut pascal);
                proof {
                    assert(pascal@ =~= pascal_seq(name@));
                }
                if pascal.len() == 0 {
                    pascal
                } else {
                    let first = lower_char_exec(pascal[0]);
                    let mut out: Vec<char> = Vec::new();
                    out.push(first);
                    let mut i: usize = 1;
                    while i < pascal.len()
                        invariant
                            1 <= i <= pascal@.len(),
                            pascal@.len() >= 1,
                            out@.len() == i,
                            out@[0] == lower_char(pascal@[0]),
                            forall|k: int| 1 <= k < i ==> out@[k] == pascal@[k],
                        decreases pascal@.len() - i,
                    {
                        out.push(pascal[i]);
                        i += 1;
                    }
                    proof {
                        assert(out@ =~= camel_seq(name@));
                    }
                    out
                }
            },
        }
    }
}

} // verus!
