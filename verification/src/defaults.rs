use crate::builder::ConfigurationBuilder;
use crate::error::{ConfigError, ErrorModel};
use crate::store::lookup;
use crate::value::{ParamValue, ValueModel};
use vstd::prelude::*;

verus! {

/// The first position at or after `i` holding a newline.
pub open spec fn first_nl_from(t: Seq<char>, i: int) -> Option<int>
    decreases t.len() - i,
{
    if i + 1 > t.len() {
        None
    } else if t[i] == '\n' {
        Some(i)
    } else {
        first_nl_from(t, i + 1)
    }
}

proof fn lemma_first_nl_bounds(t: Seq<char>, i: int)
    requires
        0 <= i,
    ensures
        match first_nl_from(t, i) {
            Some(j) => i <= j < t.len() && t[j] == '\n',
            None => true,
        },
    decreases t.len() - i,
{
    if i + 1 <= t.len() && t[i] != '\n' {
        lemma_first_nl_bounds(t, i + 1);
    }
}

/// The newline-separated records of the text from position `i` on, keeping
/// empty pieces.
pub open spec fn lines_from(t: Seq<char>, i: int) -> Seq<Seq<char>>
    decreases t.len() - i,
    when 0 <= i <= t.len()
    via lines_from_dec
{
    match first_nl_from(t, i) {
        None => seq![t.subrange(i, t.len() as int)],
        Some(j) => seq![t.subrange(i, j)] + lines_from(t, j + 1),
    }
}

#[via_fn]
proof fn lines_from_dec(t: Seq<char>, i: int) {
    lemma_first_nl_bounds(t, i);
}

/// The newline-separated records of a text.
pub open spec fn spec_lines(t: Seq<char>) -> Seq<Seq<char>> {
    lines_from(t, 0)
}

/// A record is blank when it has no characters.
pub open spec fn is_blank(l: Seq<char>) -> bool {
    l.len() == 0
}

/// A record is a comment when it starts with `//`.
pub open spec fn is_comment(l: Seq<char>) -> bool {
    l.len() >= 2 && l[0] == '/' && l[1] == '/'
}

/// Whether the ` = ` separator stands at position `i` of the record.
pub open spec fn sep_at(l: Seq<char>, i: int) -> bool {
    0 <= i && i + 3 <= l.len() && l[i] == ' ' && l[i + 1] == '=' && l[i + 2] == ' '
}

/// The first position at or after `i` where the ` = ` separator stands.
pub open spec fn first_sep_from(l: Seq<char>, i: int) -> Option<int>
    decreases l.len() - i,
{
    if i + 3 > l.len() {
        None
    } else if sep_at(l, i) {
        Some(i)
    } else {
        first_sep_from(l, i + 1)
    }
}

/// The first position of the ` = ` separator in the record.
pub open spec fn first_sep(l: Seq<char>) -> Option<int> {
    first_sep_from(l, 0)
}

/// A value of the exact form `${path}` asks for interpolation.
pub open spec fn is_interp(v: Seq<char>) -> bool {
    v.len() >= 3 && v[0] == '$' && v[1] == '{' && v[v.len() - 1] == '}'
}

/// The path an interpolated value references.
pub open spec fn interp_target(v: Seq<char>) -> Seq<char> {
    v.subrange(2, v.len() - 1)
}

/// Resolves a raw value against the mapping built so far: a value of the
/// exact form `${path}` is replaced by the referenced path's text content,
/// which must already exist and be text-bearing; any other value stands
/// verbatim.
pub open spec fn resolve_raw(m: Map<Seq<char>, ValueModel>, raw: Seq<char>) -> Result<
    Seq<char>,
    ErrorModel,
> {
    if is_interp(raw) {
        let t = interp_target(raw);
        if !m.contains_key(t) {
            Err(ErrorModel::UndefinedReference(t))
        } else {
            match m[t] {
                ValueModel::Text(s) => Ok(s),
                _ => Err(ErrorModel::ReferenceNotText(t)),
            }
        }
    } else {
        Ok(raw)
    }
}

/// Processes one record of the default layer against the mapping built so
/// far: blank and comment records change nothing; a `key = value` record
/// stores the resolved value as text under the key, the key being everything
/// before the first ` = ` and the value everything after it; anything else is
/// malformed.
pub open spec fn step_line(m: Map<Seq<char>, ValueModel>, l: Seq<char>) -> Result<
    Map<Seq<char>, ValueModel>,
    ErrorModel,
> {
    if is_blank(l) || is_comment(l) {
        Ok(m)
    } else {
        match first_sep(l) {
            None => Err(ErrorModel::MalformedRecord(l)),
            Some(i) => match resolve_raw(m, l.subrange(i + 3, l.len() as int)) {
                Ok(s) => Ok(m.insert(l.subrange(0, i), ValueModel::Text(s))),
                Err(e) => Err(e),
            },
        }
    }
}

/// Processes the records top to bottom, stopping at the first failure.
pub open spec fn run_lines(m: Map<Seq<char>, ValueModel>, ls: Seq<Seq<char>>) -> Result<
    Map<Seq<char>, ValueModel>,
    ErrorModel,
>
    decreases ls.len(),
{
    if ls.len() == 0 {
        Ok(m)
    } else {
        match step_line(m, ls[0]) {
            Ok(m2) => run_lines(m2, ls.drop_first()),
            Err(e) => Err(e),
        }
    }
}

/// Finds the first newline at or after `from`.
fn find_nl(text: &str, from: usize) -> (r: Option<usize>)
    requires
        from as int <= text@.len(),
    ensures
        match r {
            Some(j) => first_nl_from(text@, from as int) == Some(j as int) && from <= j
                < text@.len(),
            None => first_nl_from(text@, from as int) is None,
        },
{
    let n = text.unicode_len();
    let mut i = from;
    while i < n
        invariant
            from <= i <= n,
            n == text@.len(),
            first_nl_from(text@, from as int) == first_nl_from(text@, i as int),
        decreases n - i,
    {
        if text.get_char(i) == '\n' {
            return Some(i);
        }
        i = i + 1;
    }
    None
}

/// Splits a text into its newline-separated records.
pub(crate) fn split_lines(text: &str) -> (r: Vec<String>)
    ensures
        r.deep_view() == spec_lines(text@),
{
    let n = text.unicode_len();
    let mut out: Vec<String> = Vec::new();
    let mut i: usize = 0;
    loop
        invariant
            i <= n,
            n == text@.len(),
            spec_lines(text@) =~~= out.deep_view() + lines_from(text@, i as int),
        decreases n - i,
    {
        let ghost odv = out.deep_view();
        match find_nl(text, i) {
            Some(j) => {
                out.push(text.substring_char(i, j).to_owned());
                proof {
                    assert(out.deep_view() =~~= odv.push(text@.subrange(i as int, j as int)));
                    assert(spec_lines(text@) =~~= out.deep_view() + lines_from(
                        text@,
                        j as int + 1,
                    ));
                }
                i = j + 1;
            },
            None => {
                out.push(text.substring_char(i, n).to_owned());
                proof {
                    assert(out.deep_view() =~~= odv.push(text@.subrange(i as int, n as int)));
                    assert(spec_lines(text@) =~~= out.deep_view());
                }
                return out;
            },
        }
    }
}

/// Finds the first ` = ` separator of the record.
pub(crate) fn find_sep(line: &str) -> (r: Option<usize>)
    ensures
        match r {
            Some(j) => first_sep(line@) == Some(j as int) && sep_at(line@, j as int),
            None => first_sep(line@) is None,
        },
{
    let n = line.unicode_len();
    let mut i: usize = 0;
    while n - i >= 3
        invariant
            i <= n,
            n == line@.len(),
            first_sep(line@) == first_sep_from(line@, i as int),
        decreases n - i,
    {
        if line.get_char(i) == ' ' && line.get_char(i + 1) == '=' && line.get_char(i + 2) == ' ' {
            return Some(i);
        }
        i = i + 1;
    }
    None
}

/// Resolves one raw value against the mapping built so far, substituting the
/// referenced path's text content for a value of the exact form `${path}`.
/// Fails exactly when the referenced path is undefined or not text-bearing.
pub fn parse_common_value(builder: &ConfigurationBuilder, v: String) -> (r: Result<
    String,
    ConfigError,
>)
    ensures
        match r {
            Ok(s) => resolve_raw(builder@, v@) == Ok::<Seq<char>, ErrorModel>(s@),
            Err(e) => resolve_raw(builder@, v@) == Err::<Seq<char>, ErrorModel>(e@),
        },
{
    let n = v.as_str().unicode_len();
    let interp = n >= 3 && v.as_str().get_char(0) == '$' && v.as_str().get_char(1) == '{'
        && v.as_str().get_char(n - 1) == '}';
    if !interp {
        return Ok(v);
    }
    let target = v.as_str().substring_char(2, n - 1).to_owned();
    proof {
        crate::builder::lemma_builder_view(builder);
    }
    match lookup(&builder.entries, target.as_str()) {
        None => Err(ConfigError::UndefinedReference(target)),
        Some(pv) => match pv {
            ParamValue::Text(s) => Ok(s.clone()),
            _ => Err(ConfigError::ReferenceNotText(target)),
        },
    }
}

} // verus!
