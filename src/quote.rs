use vstd::prelude::*;

verus! {

/// Relies on String::push: the character is appended at the end.
pub assume_specification[ String::push ](s: &mut String, ch: char)
    ensures
        final(s)@ == old(s)@.push(ch),
;

/// The escaped body of a quoted DOT string: `"` becomes `\"`, `\` becomes `\\`,
/// except that the left-justified line break `\l` is kept as it is.
pub open spec fn escape(s: Seq<char>) -> Seq<char>
    decreases s.len(),
{
    if s.len() == 0 {
        Seq::empty()
    } else if s[0] == '\\' && s.len() >= 2 && s[1] == 'l' {
        seq!['\\', 'l'] + escape(s.skip(2))
    } else if s[0] == '\\' {
        seq!['\\', '\\'] + escape(s.skip(1))
    } else if s[0] == '"' {
        seq!['\\', '"'] + escape(s.skip(1))
    } else {
        seq![s[0]] + escape(s.skip(1))
    }
}

/// `s` escaped and wrapped in double quotes.
pub open spec fn quoted(s: Seq<char>) -> Seq<char> {
    seq!['"'] + escape(s) + seq!['"']
}

/// The characters of `s`, one per element.
pub(crate) fn chars_of(s: &str) -> (v: Vec<char>)
    ensures
        v@ == s@,
{
    let mut v: Vec<char> = Vec::new();
    for c in it: s.chars()
        invariant
            v@ == it.seq().take(it.index()),
    {
        v.push(c);
    }
    v
}

/// Wraps `s` in double quotes, escaping what would end the literal early.
pub fn quote(s: &str) -> (r: String)
    ensures
        r@ == quoted(s@),
{
    let chars = chars_of(s);
    let n = chars.len();
    assert(chars@.skip(0) =~= s@);
    let mut r = String::new();
    r.push('"');
    let mut i: usize = 0;
    while i < n
        invariant
            n == chars@.len(),
            i <= n,
            r@ + escape(chars@.skip(i as int)) + seq!['"'] == quoted(s@),
        decreases n - i,
    {
        let ghost rest = chars@.skip(i as int);
        assert(rest[0] == chars@[i as int]);
        let c = chars[i];
        if c == '\\' && i + 1 < n && chars[i + 1] == 'l' {
            assert(rest[1] == chars@[i + 1]);
            assert(rest.skip(2) =~= chars@.skip(i + 2));
            r.push('\\');
            r.push('l');
            i = i + 2;
        } else {
            assert(rest.skip(1) =~= chars@.skip(i + 1));
            if c == '\\' {
                r.push('\\');
                r.push('\\');
            } else if c == '"' {
                r.push('\\');
                r.push('"');
            } else {
                r.push(c);
            }
            i = i + 1;
        }
        assert(r@ + escape(chars@.skip(i as int)) + seq!['"'] =~= quoted(s@));
    }
    r.push('"');
    assert(chars@.skip(n as int) =~= Seq::<char>::empty());
    assert(r@ =~= quoted(s@));
    r
}

/// How a DOT lexer reads the body of a quoted string: a backslash takes the
/// character after it along, and a bare `"` would end the string.
pub open spec fn is_string_body(t: Seq<char>) -> bool
    decreases t.len(),
{
    if t.len() == 0 {
        true
    } else if t[0] == '\\' {
        t.len() >= 2 && is_string_body(t.skip(2))
    } else {
        t[0] != '"' && is_string_body(t.skip(1))
    }
}

/// Reads an escaped body back: `\"` and `\\` stand for one character, any
/// other pair after a backslash is kept whole.
pub open spec fn unescape(t: Seq<char>) -> Seq<char>
    decreases t.len(),
{
    if t.len() == 0 {
        Seq::empty()
    } else if t[0] == '\\' && t.len() >= 2 && (t[1] == '"' || t[1] == '\\') {
        seq![t[1]] + unescape(t.skip(2))
    } else if t[0] == '\\' && t.len() >= 2 {
        seq![t[0], t[1]] + unescape(t.skip(2))
    } else {
        seq![t[0]] + unescape(t.skip(1))
    }
}

/// Text with no `"` in which every backslash starts a `\l` line break.
pub open spec fn is_plain(s: Seq<char>) -> bool {
    forall|i: int|
        0 <= i < s.len() ==> #[trigger] s[i] != '"' && (s[i] == '\\' ==> i + 1 < s.len() && s[i
            + 1] == 'l')
}

proof fn lemma_escape_body(s: Seq<char>)
    ensures
        is_string_body(escape(s)),
        unescape(escape(s)) == s,
        is_plain(s) ==> escape(s) == s,
    decreases s.len(),
{
    if s.len() > 0 {
        let e = escape(s);
        if s[0] == '\\' && s.len() >= 2 && s[1] == 'l' {
            lemma_escape_body(s.skip(2));
            assert(e.skip(2) =~= escape(s.skip(2)));
            assert(s =~= seq![s[0], s[1]] + s.skip(2));
            if is_plain(s) {
                assert forall|i: int| 0 <= i < s.skip(2).len() implies #[trigger] s.skip(2)[i] != '"'
                    && (s.skip(2)[i] == '\\' ==> i + 1 < s.skip(2).len() && s.skip(2)[i + 1]
                    == 'l') by {
                    assert(s[i + 2] == s.skip(2)[i]);
                }
            }
        } else {
            lemma_escape_body(s.skip(1));
            assert(s =~= seq![s[0]] + s.skip(1));
            if s[0] == '\\' || s[0] == '"' {
                assert(e.skip(2) =~= escape(s.skip(1)));
            } else {
                assert(e.skip(1) =~= escape(s.skip(1)));
                if is_plain(s) {
                    assert forall|i: int| 0 <= i < s.skip(1).len() implies #[trigger] s.skip(1)[i]
                        != '"' && (s.skip(1)[i] == '\\' ==> i + 1 < s.skip(1).len() && s.skip(
                        1)[i + 1] == 'l') by {
                        assert(s[i + 1] == s.skip(1)[i]);
                    }
                }
            }
            if is_plain(s) {
                assert(s[0] != '"');
                assert(!(s[0] == '\\'));
            }
        }
    }
}

/// A quoted string is one DOT string literal that reads back as the original
/// text: it starts and ends with `"`, every `"` and `\` inside is escaped by a
/// backslash, and line breaks and the `\l` marker pass through unchanged.
pub proof fn lemma_quote_sound(s: Seq<char>)
    ensures
        quoted(s).len() >= 2,
        quoted(s)[0] == '"',
        quoted(s).last() == '"',
        quoted(s) == seq!['"'] + escape(s) + seq!['"'],
        is_string_body(escape(s)),
        unescape(escape(s)) == s,
        is_plain(s) ==> escape(s) == s,
{
    lemma_escape_body(s);
}

} // verus!
