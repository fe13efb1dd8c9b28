use vstd::prelude::*;
use vstd::string::StringExecFns;

use std::collections::HashMap;

use crate::text::{contains_char, owned};

verus! {

/// The first character of `$`, `{`, `}` (in that order) that occurs in `v`.
pub open spec fn forbidden_in(v: Seq<char>) -> Option<char> {
    if v.contains('$') {
        Some('$')
    } else if v.contains('{') {
        Some('{')
    } else if v.contains('}') {
        Some('}')
    } else {
        None
    }
}

pub open spec fn forbidden_message(kind: Seq<char>, value: Seq<char>, c: char) -> Seq<char> {
    "variable "@ + kind + " '"@ + value + "' contains forbidden character '"@ + seq![c] + "'"@
}

fn char_str(c: char) -> (r: &'static str)
    requires
        c == '$' || c == '{' || c == '}',
    ensures
        r@ == seq![c],
{
    if c == '$' {
        proof { reveal_strlit("$"); }
        assert("$"@ =~= seq!['$']);
        "$"
    } else if c == '{' {
        proof { reveal_strlit("{"); }
        assert("{"@ =~= seq!['{']);
        "{"
    } else {
        proof { reveal_strlit("}"); }
        assert("}"@ =~= seq!['}']);
        "}"
    }
}

/// Checks that an environment variable's `kind` ("key" or "value") text
/// `value` holds none of the characters that substitution treats specially.
pub fn validate(value: &str, kind: &str) -> (r: Result<(), String>)
    ensures
        r is Ok <==> forbidden_in(value@) is None,
        r matches Err(msg) ==> forbidden_in(value@) matches Some(c) && msg@ == forbidden_message(
            kind@,
            value@,
            c,
        ),
{
    let forbidden = ['$', '{', '}'];
    let mut i: usize = 0;
    while i < 3
        invariant
            i <= 3,
            forbidden@ == seq!['$', '{', '}'],
            forall|j: int| 0 <= j < i ==> !value@.contains(#[trigger] forbidden@[j]),
        decreases 3 - i,
    {
        let c = forbidden[i];
        if contains_char(value, c) {
            let mut msg = owned("variable ");
            msg.append(kind);
            msg.append(" '");
            msg.append(value);
            msg.append("' contains forbidden character '");
            msg.append(char_str(c));
            msg.append("'");
            assert(i == 0 || !value@.contains(forbidden@[0]));
            assert(i <= 1 || !value@.contains(forbidden@[1]));
            return Err(msg);
        }
        i = i + 1;
    }
    assert(!value@.contains(forbidden@[0]));
    assert(!value@.contains(forbidden@[1]));
    assert(!value@.contains(forbidden@[2]));
    Ok(())
}

pub open spec fn var_view(p: (String, String)) -> (Seq<char>, Seq<char>) {
    (p.0@, p.1@)
}

pub open spec fn vars_view(vars: Seq<(String, String)>) -> Seq<(Seq<char>, Seq<char>)> {
    vars.map_values(|p: (String, String)| var_view(p))
}

/// A variable whose key and value both pass `validate`.
pub open spec fn usable(p: (Seq<char>, Seq<char>)) -> bool {
    forbidden_in(p.0) is None && forbidden_in(p.1) is None
}

/// Why a variable is skipped: the message of the first check it fails.
pub open spec fn rejection(p: (Seq<char>, Seq<char>)) -> Option<Seq<char>> {
    match forbidden_in(p.0) {
        Some(c) => Some(forbidden_message("key"@, p.0, c)),
        None => match forbidden_in(p.1) {
            Some(c) => Some(forbidden_message("value"@, p.1, c)),
            None => None,
        },
    }
}

/// The usable variables among `vars`, in order.
pub open spec fn usable_of(vars: Seq<(Seq<char>, Seq<char>)>) -> Seq<(Seq<char>, Seq<char>)> {
    vars.filter(|p: (Seq<char>, Seq<char>)| usable(p))
}

/// The rejection message of each skipped variable among `vars`, in order.
pub open spec fn rejections_of(vars: Seq<(Seq<char>, Seq<char>)>) -> Seq<Seq<char>> {
    vars.filter_map(|p: (Seq<char>, Seq<char>)| rejection(p))
}

/// `s` with every occurrence of `from` replaced by `to`, scanning left to
/// right without overlap.
pub open spec fn replace_all(s: Seq<char>, from: Seq<char>, to: Seq<char>) -> Seq<char>
    decreases s.len(),
{
    if from.len() == 0 || s.len() < from.len() {
        s
    } else if s.subrange(0, from.len() as int) == from {
        to + replace_all(s.subrange(from.len() as int, s.len() as int), from, to)
    } else {
        seq![s[0]] + replace_all(s.subrange(1, s.len() as int), from, to)
    }
}

/// The placeholder that stands for variable `key`.
pub open spec fn placeholder(key: Seq<char>) -> Seq<char> {
    "${"@ + key + "}"@
}

/// `template` after substituting each variable of `vars` in turn.
pub open spec fn substitute_all(template: Seq<char>, vars: Seq<(Seq<char>, Seq<char>)>) -> Seq<
    char,
>
    decreases vars.len(),
{
    if vars.len() == 0 {
        template
    } else {
        replace_all(
            substitute_all(template, vars.drop_last()),
            placeholder(vars.last().0),
            vars.last().1,
        )
    }
}

#[verifier::external_type_specification]
#[verifier::external_body]
pub struct ExEnvsubstError(envsubst::Error);

/// Relies on `envsubst::substitute` with the single variable `key`: it
/// fails when the key or the value holds `$`, `{` or `}`, and otherwise
/// replaces every `${key}` in `template` by `value` (`str::replace`).
#[verifier::external_body]
fn substitute_one(template: &str, key: &str, value: &str) -> (r: Result<String, envsubst::Error>)
    ensures
        r is Ok <==> usable((key@, value@)),
        r matches Ok(text) ==> text@ == replace_all(template@, placeholder(key@), value@),
{
    let mut variables = HashMap::new();
    variables.insert(key.to_string(), value.to_string());
    envsubst::substitute(template, &variables)
}

/// Splits environment variables into those that substitution can use and
/// the messages that say why each other one is skipped, keeping their order.
pub fn usable_variables(vars: &Vec<(String, String)>) -> (r: (Vec<(String, String)>, Vec<String>))
    ensures
        vars_view(r.0@) == usable_of(vars_view(vars@)),
        r.1@.map_values(|m: String| m@) == rejections_of(vars_view(vars@)),
        forall|i: int| 0 <= i < r.0@.len() ==> usable(#[trigger] var_view(r.0@[i])),
{
    let mut kept: Vec<(String, String)> = Vec::new();
    let mut skipped: Vec<String> = Vec::new();
    let mut i: usize = 0;
    while i < vars.len()
        invariant
            i <= vars@.len(),
            vars_view(kept@) == usable_of(vars_view(vars@.subrange(0, i as int))),
            skipped@.map_values(|m: String| m@) == rejections_of(vars_view(vars@.subrange(0, i as int))),
            forall|j: int| 0 <= j < kept@.len() ==> usable(#[trigger] var_view(kept@[j])),
        decreases vars@.len() - i,
    {
        let ghost pre = vars_view(vars@.subrange(0, i as int));
        let ghost cur = vars_view(vars@.subrange(0, i as int + 1));
        assert(cur.len() == i + 1);
        assert(cur.drop_last() =~= pre);
        proof {
            reveal_with_fuel(Seq::filter, 1);
        }
        assert(cur.last() == var_view(vars@[i as int]));
        assert(usable_of(cur) == if usable(cur.last()) {
            usable_of(pre).push(cur.last())
        } else {
            usable_of(pre)
        });
        assert(rejections_of(cur) == match rejection(cur.last()) {
            Some(m) => rejections_of(pre).push(m),
            None => rejections_of(pre),
        });
        let ghost old_kept = kept@;
        let ghost old_skipped = skipped@;
        let key = &vars[i].0;
        let value = &vars[i].1;
        match validate(key.as_str(), "key") {
            Err(msg) => {
                skipped.push(msg);
                assert(skipped@.map_values(|m: String| m@) =~= old_skipped.map_values(
                    |m: String| m@,
                ).push(rejection(cur.last())->0));
            },
            Ok(()) => match validate(value.as_str(), "value") {
                Err(msg) => {
                    skipped.push(msg);
                    assert(skipped@.map_values(|m: String| m@) =~= old_skipped.map_values(
                        |m: String| m@,
                    ).push(rejection(cur.last())->0));
                },
                Ok(()) => {
                    kept.push((key.clone(), value.clone()));
                    assert(vars_view(kept@) =~= vars_view(old_kept).push(cur.last()));
                },
            },
        }
        i = i + 1;
    }
    assert(vars@.subrange(0, vars@.len() as int) =~= vars@);
    (kept, skipped)
}

/// The configuration text with each `${KEY}` replaced by the value of the
/// usable environment variable `KEY`, variable after variable in the order
/// given, and the messages of the skipped ones.
pub fn substitute_environment(raw: &str, vars: &Vec<(String, String)>) -> (r: (String, Vec<String>))
    ensures
        r.0@ == substitute_all(raw@, usable_of(vars_view(vars@))),
        r.1@.map_values(|m: String| m@) == rejections_of(vars_view(vars@)),
{
    let (kept, skipped) = usable_variables(vars);
    let mut text = owned(raw);
    let mut i: usize = 0;
    while i < kept.len()
        invariant
            i <= kept@.len(),
            forall|j: int| 0 <= j < kept@.len() ==> usable(#[trigger] var_view(kept@[j])),
            text@ == substitute_all(raw@, vars_view(kept@.subrange(0, i as int))),
        decreases kept@.len() - i,
    {
        let ghost pre = vars_view(kept@.subrange(0, i as int));
        let ghost cur = vars_view(kept@.subrange(0, i as int + 1));
        assert(cur.drop_last() =~= pre);
        assert(cur.last() == var_view(kept@[i as int]));
        assert(usable(var_view(kept@[i as int])));
        match substitute_one(text.as_str(), kept[i].0.as_str(), kept[i].1.as_str()) {
            Ok(next) => {
                text = next;
            },
            Err(_) => {
                // Every kept variable passed validation, so this cannot happen.
                proof {
                    assert(false);
                }
            },
        }
        i = i + 1;
    }
    assert(kept@.subrange(0, kept@.len() as int) =~= kept@);
    (text, skipped)
}

} // verus!
