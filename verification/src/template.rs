//! Command templates: text with `{name}` placeholders, rendered in a single
//! pass from a table of substitutions.

use vstd::hash_map::StringHashMap;
use vstd::prelude::*;
use vstd::slice::slice_subrange;
use crate::text::{chars_of, extend_chars, string_of};

verus! {

/// A table of substitutions: each name has at most one value.
pub struct Substitutions {
    table: StringHashMap<String>,
}

impl View for Substitutions {
    type V = Map<Seq<char>, Seq<char>>;

    closed spec fn view(&self) -> Map<Seq<char>, Seq<char>> {
        self.table@.map_values(|value: String| value@)
    }
}

impl Substitutions {
    /// The empty table.
    pub fn new() -> (table: Substitutions)
        ensures
            table@ == Map::<Seq<char>, Seq<char>>::empty(),
    {
        let table = Substitutions { table: StringHashMap::new() };
        assert(table@ =~= Map::<Seq<char>, Seq<char>>::empty());
        table
    }

    /// The value of `name`, if it has one.
    pub fn get(&self, name: &String) -> (value: Option<&String>)
        ensures
            match value {
                Some(v) => self@.contains_key(name@) && self@[name@] == v@,
                None => !self@.contains_key(name@),
            },
    {
        self.table.get(name.as_str())
    }

    /// Gives `name` the value `value`, in place of the one it had.
    pub fn insert(&mut self, name: String, value: String)
        ensures
            final(self)@ == old(self)@.insert(name@, value@),
    {
        let ghost key = name@;
        let ghost text = value@;
        self.table.insert(name, value);
        assert(self@ =~= old(self)@.insert(key, text));
    }

    /// Takes the value of `name` away, if it has one.
    pub fn remove(&mut self, name: &String)
        ensures
            final(self)@ == old(self)@.remove(name@),
    {
        self.table.remove(name.as_str());
        assert(self@ =~= old(self)@.remove(name@));
    }

    /// Takes every value away.
    pub fn clear(&mut self)
        ensures
            final(self)@ == Map::<Seq<char>, Seq<char>>::empty(),
    {
        self.table.clear();
        assert(self@ =~= Map::<Seq<char>, Seq<char>>::empty());
    }
}

/// Whether the regular expression `pattern` matches somewhere in `text`, as
/// the `regex` crate has it; `None` where `pattern` is no regular expression
/// that the crate accepts.
pub uninterp spec fn regex_match(pattern: Seq<char>, text: Seq<char>) -> Option<bool>;

/// Compiles `pattern` with `regex::Regex::new` and asks `is_match` whether
/// it matches somewhere in `text`. `None` where the pattern does not
/// compile.
#[verifier::external_body]
fn regex_is_match(pattern: &str, text: &str) -> (matched: Option<bool>)
    ensures
        matched == regex_match(pattern@, text@),
{
    match regex::Regex::new(pattern) {
        Ok(regex) => Some(regex.is_match(text)),
        Err(_) => None,
    }
}

/// `c` is an ASCII letter, a digit or an underscore.
pub open spec fn is_ascii_word(c: char) -> bool {
    ||| 'a' <= c <= 'z'
    ||| 'A' <= c <= 'Z'
    ||| '0' <= c <= '9'
    ||| c == '_'
}

/// `c` may stand in a placeholder's name: it is a word character. Among the
/// ASCII characters these are the letters, the digits and the underscore;
/// beyond them, a character is one where the `regex` crate takes it for one,
/// which it does by the character's Unicode properties.
pub open spec fn is_name_char(c: char) -> bool {
    ||| is_ascii_word(c)
    ||| c as u32 > 0x7f && regex_match("^\\w$"@, seq![c]) == Some(true)
}

/// How many name characters stand in `template` from offset `from` on.
pub open spec fn name_run(template: Seq<char>, from: int) -> nat
    decreases template.len() - from,
{
    if 0 <= from < template.len() && is_name_char(template[from]) {
        1 + name_run(template, from + 1)
    } else {
        0
    }
}

/// A placeholder starts at offset `at`: an opening brace, a name (which may
/// be empty) and a closing brace.
pub open spec fn placeholder_at(template: Seq<char>, at: int) -> bool {
    &&& 0 <= at < template.len()
    &&& template[at] == '{'
    &&& at + 1 + name_run(template, at + 1) < template.len()
    &&& template[at + 1 + name_run(template, at + 1)] == '}'
}

/// The name of the placeholder that starts at offset `at`.
pub open spec fn placeholder_name(template: Seq<char>, at: int) -> Seq<char> {
    template.subrange(at + 1, at + 1 + name_run(template, at + 1))
}

/// `prefix` put in front of a rendering; an error stays what it is.
pub open spec fn after(prefix: Seq<char>, rest: Result<Seq<char>, Seq<char>>) -> Result<
    Seq<char>,
    Seq<char>,
> {
    match rest {
        Ok(text) => Ok(prefix + text),
        Err(name) => Err(name),
    }
}

/// What `template` renders to from offset `from` on. Each placeholder is
/// replaced by the value of its name and every other character is kept; the
/// values put in are not looked at again. The first placeholder whose name
/// has no value makes the rendering fail with that name.
pub open spec fn rendered_from(
    template: Seq<char>,
    vars: Map<Seq<char>, Seq<char>>,
    from: int,
) -> Result<Seq<char>, Seq<char>>
    decreases template.len() - from,
{
    if from < 0 || from >= template.len() {
        Ok(Seq::empty())
    } else if placeholder_at(template, from) {
        let name = placeholder_name(template, from);
        if vars.contains_key(name) {
            after(vars[name], rendered_from(template, vars, from + name.len() + 2))
        } else {
            Err(name)
        }
    } else {
        after(seq![template[from]], rendered_from(template, vars, from + 1))
    }
}

/// What the whole of `template` renders to.
pub open spec fn rendered(template: Seq<char>, vars: Map<Seq<char>, Seq<char>>) -> Result<
    Seq<char>,
    Seq<char>,
> {
    rendered_from(template, vars, 0)
}

/// A template asked for a name that has no value.
#[derive(Debug)]
pub struct TemplateError {
    /// The name without a value.
    pub name: String,
}

/// `result` is the outcome `expected` of a rendering, value for value.
pub open spec fn renders_as(
    result: Result<Vec<char>, TemplateError>,
    expected: Result<Seq<char>, Seq<char>>,
) -> bool {
    match (result, expected) {
        (Ok(out), Ok(text)) => out@ == text,
        (Err(e), Err(name)) => e.name@ == name,
        _ => false,
    }
}

fn is_name_character(c: char) -> (b: bool)
    ensures
        b == is_name_char(c),
{
    if ('a' <= c && c <= 'z') || ('A' <= c && c <= 'Z') || ('0' <= c && c <= '9') || c == '_' {
        true
    } else if c as u32 > 0x7f {
        let mut one: Vec<char> = Vec::new();
        one.push(c);
        let text = string_of(one.as_slice());
        assert(text@ =~= seq![c]);
        match regex_is_match("^\\w$", text.as_str()) {
            Some(matched) => matched,
            None => false,
        }
    } else {
        false
    }
}

/// Renders `template` with the values of `vars` in one pass from left to
/// right.
pub fn render(template: &[char], vars: &Substitutions) -> (result: Result<
    Vec<char>,
    TemplateError,
>)
    ensures
        renders_as(result, rendered(template@, vars@)),
{
    let n = template.len();
    let mut out: Vec<char> = Vec::new();
    let mut i: usize = 0;
    while i < n
        invariant
            i <= n,
            n == template.len(),
            rendered(template@, vars@) == after(out@, rendered_from(template@, vars@, i as int)),
        decreases n - i,
    {
        let ghost before = out@;
        let ghost rest = rendered_from(template@, vars@, i as int);
        let mut j: usize = i + 1;
        if template[i] == '{' {
            while j < n && is_name_character(template[j])
                invariant
                    i < j <= n,
                    n == template.len(),
                    j + name_run(template@, j as int) == i + 1 + name_run(template@, i + 1),
                decreases n - j,
            {
                j += 1;
            }
        }
        if template[i] == '{' && j < n && template[j] == '}' {
            assert(placeholder_at(template@, i as int));
            let name = string_of(slice_subrange(template, i + 1, j));
            assert(name@ == placeholder_name(template@, i as int));
            match vars.get(&name) {
                Some(value) => {
                    let chars = chars_of(value.as_str());
                    extend_chars(&mut out, chars.as_slice());
                    i = j + 1;
                    proof {
                        let next = rendered_from(template@, vars@, i as int);
                        assert(rest == after(vars@[name@], next));
                        match next {
                            Ok(text) => {
                                assert(before + (vars@[name@] + text) =~= out@ + text);
                            },
                            Err(_) => {},
                        }
                    }
                },
                None => {
                    return Err(TemplateError { name });
                },
            }
        } else {
            assert(!placeholder_at(template@, i as int));
            out.push(template[i]);
            i += 1;
            proof {
                let next = rendered_from(template@, vars@, i as int);
                assert(rest == after(seq![template@[i - 1]], next));
                match next {
                    Ok(text) => {
                        assert(before + (seq![template@[i - 1]] + text) =~= out@ + text);
                    },
                    Err(_) => {},
                }
            }
        }
    }
    assert(out@ + Seq::<char>::empty() =~= out@);
    Ok(out)
}

} // verus!
