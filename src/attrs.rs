use vstd::prelude::*;

use crate::quote::{quote, quoted};
use crate::style::{style_keyword, Style};

verus! {

/// One bracketed attribute group, `[a]`.
pub open spec fn group(a: Seq<char>) -> Seq<char> {
    "["@ + a + "]"@
}

/// The groups of free-form attributes, in the order they were added.
pub open spec fn groups(attribs: Seq<Seq<char>>) -> Seq<char>
    decreases attribs.len(),
{
    if attribs.len() == 0 {
        Seq::empty()
    } else {
        groups(attribs.drop_last()) + group(attribs.last())
    }
}

/// A free-form attribute as it is stored: `name=value`, the value taken as given.
pub open spec fn assignment(name: Seq<char>, value: Seq<char>) -> Seq<char> {
    name + "="@ + value
}

/// The group `[name="value"]`, with the value quoted.
pub open spec fn quoted_group(name: Seq<char>, value: Seq<char>) -> Seq<char> {
    group(assignment(name, quoted(value)))
}

/// A quoted group that is left out when the value is empty.
pub open spec fn nonempty_group(name: Seq<char>, value: Seq<char>) -> Seq<char> {
    if value.len() == 0 {
        Seq::empty()
    } else {
        quoted_group(name, value)
    }
}

/// A quoted group that is left out when there is no value.
pub open spec fn optional_group(name: Seq<char>, value: Option<Seq<char>>) -> Seq<char> {
    match value {
        Some(v) => quoted_group(name, v),
        None => Seq::empty(),
    }
}

/// The style group, left out for `NoStyle`.
pub open spec fn style_group(s: Style) -> Seq<char> {
    if s == Style::NoStyle {
        Seq::empty()
    } else {
        quoted_group("style"@, style_keyword(s))
    }
}

/// What an optional borrowed string holds, as characters.
pub open spec fn opt_str(o: Option<&str>) -> Option<Seq<char>> {
    match o {
        Some(s) => Some(s@),
        None => None,
    }
}

/// What an optional owned string holds, as characters.
pub open spec fn opt_string(o: Option<String>) -> Option<Seq<char>> {
    match o {
        Some(s) => Some(s@),
        None => None,
    }
}

pub open spec fn views_of(v: Seq<String>) -> Seq<Seq<char>> {
    v.map_values(|s: String| s@)
}

pub(crate) fn to_owned_opt(o: Option<&str>) -> (r: Option<String>)
    ensures
        opt_string(r) == opt_str(o),
{
    match o {
        Some(s) => Some(s.to_owned()),
        None => None,
    }
}

pub(crate) fn make_assignment(name: &str, value: &str) -> (r: String)
    ensures
        r@ == assignment(name@, value@),
{
    let mut r = name.to_owned();
    r.append("=");
    r.append(value);
    r
}

pub(crate) fn push_quoted_group(out: &mut String, name: &str, value: &str)
    ensures
        final(out)@ == old(out)@ + quoted_group(name@, value@),
{
    let q = quote(value);
    out.append("[");
    out.append(name);
    out.append("=");
    out.append(q.as_str());
    out.append("]");
    assert(final(out)@ =~= old(out)@ + quoted_group(name@, value@));
}

pub(crate) fn push_nonempty_group(out: &mut String, name: &str, value: &String)
    ensures
        final(out)@ == old(out)@ + nonempty_group(name@, value@),
{
    if !value.as_str().is_empty() {
        push_quoted_group(out, name, value.as_str());
    } else {
        assert(old(out)@ + nonempty_group(name@, value@) =~= old(out)@);
    }
}

pub(crate) fn push_optional_group(out: &mut String, name: &str, value: &Option<String>)
    ensures
        final(out)@ == old(out)@ + optional_group(name@, opt_string(*value)),
{
    match value {
        Some(v) => push_quoted_group(out, name, v.as_str()),
        None => {
            assert(old(out)@ + optional_group(name@, opt_string(*value)) =~= old(out)@);
        },
    }
}

pub(crate) fn push_style_group(out: &mut String, style: Style)
    ensures
        final(out)@ == old(out)@ + style_group(style),
{
    if style != Style::NoStyle {
        push_quoted_group(out, "style", style.as_keyword());
    } else {
        assert(old(out)@ + style_group(style) =~= old(out)@);
    }
}

pub(crate) fn push_groups(out: &mut String, attribs: &Vec<String>)
    ensures
        final(out)@ == old(out)@ + groups(views_of(attribs@)),
{
    let ghost start = out@;
    let mut i: usize = 0;
    while i < attribs.len()
        invariant
            i <= attribs@.len(),
            out@ == start + groups(views_of(attribs@.take(i as int))),
        decreases attribs.len() - i,
    {
        out.append("[");
        out.append(attribs[i].as_str());
        out.append("]");
        assert(views_of(attribs@.take(i + 1)).drop_last() =~= views_of(attribs@.take(i as int)));
        assert(out@ =~= start + groups(views_of(attribs@.take(i + 1))));
        i = i + 1;
    }
    assert(attribs@.take(i as int) =~= attribs@);
}

/// A statement line `name="value";` at the given indent.
pub open spec fn statement(indent: Seq<char>, name: Seq<char>, value: Seq<char>) -> Seq<char> {
    indent + assignment(name, quoted(value)) + ";\n"@
}

pub(crate) fn push_statement(out: &mut String, indent: &str, name: &str, value: &str)
    ensures
        final(out)@ == old(out)@ + statement(indent@, name@, value@),
{
    let q = quote(value);
    out.append(indent);
    out.append(name);
    out.append("=");
    out.append(q.as_str());
    out.append(";\n");
    assert(final(out)@ =~= old(out)@ + statement(indent@, name@, value@));
}

/// Growing a prefix by one element: the shorter prefix and the new last element.
pub(crate) proof fn lemma_take_step<A>(v: Seq<A>, i: int)
    requires
        0 <= i < v.len(),
    ensures
        v.take(i + 1).drop_last() == v.take(i),
        v.take(i + 1).last() == v[i],
{
    assert(v.take(i + 1).drop_last() =~= v.take(i));
}

/// The prefix of the whole length is the whole sequence.
pub(crate) proof fn lemma_take_all<A>(v: Seq<A>)
    ensures
        v.take(v.len() as int) == v,
{
    assert(v.take(v.len() as int) =~= v);
}

} // verus!
