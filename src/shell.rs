//! Quoting of arguments into one POSIX shell command line, and the word
//! splitting that a shell applies to such a line.
use vstd::prelude::*;

use crate::text::{chars_of, string_of};

verus! {

/// Where the word splitter stands after reading some characters.
#[derive(Clone, Copy, PartialEq, Eq, Structural, Debug)]
pub enum ScanMode {
    /// Between words.
    Blank,
    /// Inside an unquoted part of a word.
    Bare,
    /// Inside single quotes.
    Single,
    /// Right after a backslash outside quotes.
    Escape,
}

/// A character that separates words.
pub open spec fn is_blank(c: char) -> bool {
    c == ' ' || c == '\t' || c == '\n'
}

/// A character that a shell would treat specially when unquoted; the
/// splitter refuses such lines rather than guess at their meaning.
pub open spec fn is_special(c: char) -> bool {
    c == '"' || c == '$' || c == '`' || c == ';' || c == '&' || c == '|' || c == '<' || c == '>'
        || c == '(' || c == ')' || c == '*' || c == '?' || c == '[' || c == '#' || c == '~'
        || c == '{' || c == '}' || c == '!'
}

/// A character that stands for itself outside quotes.
pub open spec fn is_plain(c: char) -> bool {
    !is_blank(c) && c != '\'' && c != '\\' && !is_special(c)
}

/// Puts `w` in front of the words of a successful split.
pub open spec fn prepend(w: Seq<char>, r: Option<Seq<Seq<char>>>) -> Option<Seq<Seq<char>>> {
    match r {
        Some(ws) => Some(seq![w] + ws),
        None => None,
    }
}

/// Puts `ws` in front of the words of a successful split.
pub open spec fn prepend_all(ws: Seq<Seq<char>>, r: Option<Seq<Seq<char>>>) -> Option<
    Seq<Seq<char>>,
> {
    match r {
        Some(xs) => Some(ws + xs),
        None => None,
    }
}

/// The words that the rest `s` of a line yields, from mode `mode` with the
/// word read so far `cur`; `None` where the line is unterminated or holds an
/// unquoted special character.
pub open spec fn scan(mode: ScanMode, cur: Seq<char>, s: Seq<char>) -> Option<Seq<Seq<char>>>
    decreases s.len(),
{
    if s.len() == 0 {
        match mode {
            ScanMode::Blank => Some(Seq::empty()),
            ScanMode::Bare => Some(seq![cur]),
            _ => None,
        }
    } else {
        let c = s[0];
        let rest = s.drop_first();
        match mode {
            ScanMode::Blank => if is_blank(c) {
                scan(ScanMode::Blank, Seq::empty(), rest)
            } else if c == '\'' {
                scan(ScanMode::Single, Seq::empty(), rest)
            } else if c == '\\' {
                scan(ScanMode::Escape, Seq::empty(), rest)
            } else if is_special(c) {
                None
            } else {
                scan(ScanMode::Bare, seq![c], rest)
            },
            ScanMode::Bare => if is_blank(c) {
                prepend(cur, scan(ScanMode::Blank, Seq::empty(), rest))
            } else if c == '\'' {
                scan(ScanMode::Single, cur, rest)
            } else if c == '\\' {
                scan(ScanMode::Escape, cur, rest)
            } else if is_special(c) {
                None
            } else {
                scan(ScanMode::Bare, cur.push(c), rest)
            },
            ScanMode::Single => if c == '\'' {
                scan(ScanMode::Bare, cur, rest)
            } else {
                scan(ScanMode::Single, cur.push(c), rest)
            },
            ScanMode::Escape => scan(ScanMode::Bare, cur.push(c), rest),
        }
    }
}

/// The words of the command line `s`, as a POSIX shell splits them.
pub open spec fn words(s: Seq<char>) -> Option<Seq<Seq<char>>> {
    scan(ScanMode::Blank, Seq::empty(), s)
}

/// The body of a single-quoted rendering of `a`: each quote becomes `'\''`.
pub open spec fn escaped(a: Seq<char>) -> Seq<char>
    decreases a.len(),
{
    if a.len() == 0 {
        Seq::empty()
    } else if a[0] == '\'' {
        seq!['\'', '\\', '\'', '\''] + escaped(a.drop_first())
    } else {
        seq![a[0]] + escaped(a.drop_first())
    }
}

/// `a` rendered as one shell word in single quotes.
pub open spec fn quoted(a: Seq<char>) -> Seq<char> {
    seq!['\''] + escaped(a) + seq!['\'']
}

/// The words `xs` rendered as a command line, each after one space.
pub open spec fn rendered(xs: Seq<Seq<char>>) -> Seq<char>
    decreases xs.len(),
{
    if xs.len() == 0 {
        Seq::empty()
    } else {
        seq![' '] + quoted(xs[0]) + rendered(xs.drop_first())
    }
}

/// The character views of a list of strings.
pub open spec fn views(v: Seq<String>) -> Seq<Seq<char>> {
    v.map_values(|s: String| s@)
}

pub proof fn lemma_scan_step(c: char, rest: Seq<char>)
    ensures
        (seq![c] + rest)[0] == c,
        (seq![c] + rest).drop_first() == rest,
{
    assert((seq![c] + rest).drop_first() =~= rest);
}

proof fn lemma_escaped_scan(cur: Seq<char>, a: Seq<char>, rest: Seq<char>)
    ensures
        scan(ScanMode::Single, cur, escaped(a) + rest) == scan(ScanMode::Single, cur + a, rest),
    decreases a.len(),
{
    if a.len() == 0 {
        assert(escaped(a) + rest =~= rest);
        assert(cur + a =~= cur);
    } else {
        let c = a[0];
        let tail = escaped(a.drop_first()) + rest;
        lemma_escaped_scan(cur.push(c), a.drop_first(), rest);
        assert(cur.push(c) + a.drop_first() =~= cur + a);
        if c == '\'' {
            let s3 = seq!['\''] + tail;
            let s2 = seq!['\''] + s3;
            let s1 = seq!['\\'] + s2;
            let s0 = seq!['\''] + s1;
            assert(escaped(a) + rest =~= s0);
            lemma_scan_step('\'', s1);
            lemma_scan_step('\\', s2);
            lemma_scan_step('\'', s3);
            lemma_scan_step('\'', tail);
            assert(scan(ScanMode::Single, cur, s0) == scan(ScanMode::Bare, cur, s1));
            assert(scan(ScanMode::Bare, cur, s1) == scan(ScanMode::Escape, cur, s2));
            assert(scan(ScanMode::Escape, cur, s2) == scan(ScanMode::Bare, cur.push(c), s3));
            assert(scan(ScanMode::Bare, cur.push(c), s3) == scan(
                ScanMode::Single,
                cur.push(c),
                tail,
            ));
        } else {
            assert(escaped(a) + rest =~= seq![c] + tail);
            lemma_scan_step(c, tail);
        }
    }
}

/// Reading a quoted word from between words or from inside a bare word
/// leaves the splitter inside a bare word that ends with `a`.
pub proof fn lemma_quoted_scan(mode: ScanMode, cur: Seq<char>, a: Seq<char>, rest: Seq<char>)
    requires
        mode == ScanMode::Blank ==> cur == Seq::<char>::empty(),
        mode == ScanMode::Blank || mode == ScanMode::Bare,
    ensures
        scan(mode, cur, quoted(a) + rest) == scan(ScanMode::Bare, cur + a, rest),
{
    let tail = seq!['\''] + rest;
    let body = escaped(a) + tail;
    assert(quoted(a) + rest =~= seq!['\''] + body);
    lemma_scan_step('\'', body);
    assert(scan(mode, cur, quoted(a) + rest) == scan(ScanMode::Single, cur, body));
    lemma_escaped_scan(cur, a, tail);
    lemma_scan_step('\'', rest);
}

/// From inside a bare word `w`, a rendered list `xs` completes the words
/// `w` followed by `xs`.
pub proof fn lemma_rendered_scan(w: Seq<char>, xs: Seq<Seq<char>>)
    ensures
        scan(ScanMode::Bare, w, rendered(xs)) == Some(seq![w] + xs),
    decreases xs.len(),
{
    if xs.len() == 0 {
        assert(seq![w] + xs =~= seq![w]);
    } else {
        let tail = rendered(xs.drop_first());
        let q = quoted(xs[0]) + tail;
        assert(rendered(xs) =~= seq![' '] + q);
        lemma_scan_step(' ', q);
        lemma_quoted_scan(ScanMode::Blank, Seq::empty(), xs[0], tail);
        assert(Seq::<char>::empty() + xs[0] =~= xs[0]);
        lemma_rendered_scan(xs[0], xs.drop_first());
        assert(seq![w] + (seq![xs[0]] + xs.drop_first()) =~= seq![w] + xs);
    }
}

/// Splitting a rendered command line gives back exactly the words that were
/// rendered, whatever spaces, quotes or backslashes they hold.
pub proof fn lemma_rendered_round_trip(xs: Seq<Seq<char>>)
    ensures
        words(rendered(xs)) == Some(xs),
{
    if xs.len() > 0 {
        let tail = rendered(xs.drop_first());
        let q = quoted(xs[0]) + tail;
        assert(rendered(xs) =~= seq![' '] + q);
        lemma_scan_step(' ', q);
        lemma_quoted_scan(ScanMode::Blank, Seq::empty(), xs[0], tail);
        assert(Seq::<char>::empty() + xs[0] =~= xs[0]);
        lemma_rendered_scan(xs[0], xs.drop_first());
        assert(seq![xs[0]] + xs.drop_first() =~= xs);
    } else {
        assert(xs =~= Seq::<Seq<char>>::empty());
    }
}

} // verus!

verus! {

proof fn lemma_escaped_concat(a: Seq<char>, b: Seq<char>)
    ensures
        escaped(a + b) == escaped(a) + escaped(b),
    decreases a.len(),
{
    if a.len() == 0 {
        assert(a + b =~= b);
        assert(escaped(a) + escaped(b) =~= escaped(b));
    } else {
        assert((a + b).drop_first() =~= a.drop_first() + b);
        lemma_escaped_concat(a.drop_first(), b);
        assert((a + b)[0] == a[0]);
        if a[0] == '\'' {
            assert(escaped(a + b) =~= escaped(a) + escaped(b));
        } else {
            assert(escaped(a + b) =~= escaped(a) + escaped(b));
        }
    }
}

proof fn lemma_escaped_one(c: char)
    ensures
        escaped(seq![c]) == if c == '\'' {
            seq!['\'', '\\', '\'', '\'']
        } else {
            seq![c]
        },
{
    assert(seq![c].drop_first() =~= Seq::<char>::empty());
    assert(escaped(Seq::<char>::empty()) == Seq::<char>::empty());
    if c == '\'' {
        assert(seq!['\'', '\\', '\'', '\''] + Seq::<char>::empty() =~= seq!['\'', '\\', '\'', '\'']);
    } else {
        assert(seq![c] + Seq::<char>::empty() =~= seq![c]);
    }
}

proof fn lemma_rendered_concat(xs: Seq<Seq<char>>, ys: Seq<Seq<char>>)
    ensures
        rendered(xs + ys) == rendered(xs) + rendered(ys),
    decreases xs.len(),
{
    if xs.len() == 0 {
        assert(xs + ys =~= ys);
        assert(rendered(xs) + rendered(ys) =~= rendered(ys));
    } else {
        assert((xs + ys).drop_first() =~= xs.drop_first() + ys);
        lemma_rendered_concat(xs.drop_first(), ys);
        assert((xs + ys)[0] == xs[0]);
        assert(rendered(xs + ys) =~= rendered(xs) + rendered(ys));
    }
}

proof fn lemma_rendered_one(x: Seq<char>)
    ensures
        rendered(seq![x]) == seq![' '] + quoted(x),
{
    assert(seq![x].drop_first() =~= Seq::<Seq<char>>::empty());
    assert(rendered(Seq::<Seq<char>>::empty()) == Seq::<char>::empty());
    assert(seq![x][0] == x);
    assert(seq![' '] + quoted(x) + Seq::<char>::empty() =~= seq![' '] + quoted(x));
}

/// Appends the single-quoted rendering of `a` to `out`.
pub fn push_quoted(out: &mut Vec<char>, a: &Vec<char>)
    ensures
        final(out)@ == old(out)@ + quoted(a@),
{
    let ghost start = out@;
    out.push('\'');
    let mut i: usize = 0;
    while i < a.len()
        invariant
            i <= a.len(),
            out@ == start + seq!['\''] + escaped(a@.take(i as int)),
        decreases a.len() - i,
    {
        let c = a[i];
        proof {
            assert(a@.take(i + 1) =~= a@.take(i as int) + seq![c]);
            lemma_escaped_concat(a@.take(i as int), seq![c]);
            lemma_escaped_one(c);
        }
        if c == '\'' {
            out.push('\'');
            out.push('\\');
            out.push('\'');
            out.push('\'');
        } else {
            out.push(c);
        }
        proof {
            assert(out@ =~= start + seq!['\''] + escaped(a@.take(i + 1)));
        }
        i = i + 1;
    }
    out.push('\'');
    proof {
        assert(a@.take(a.len() as int) =~= a@);
        assert(out@ =~= start + quoted(a@));
    }
}

/// `a` as one shell word in single quotes; a quote inside becomes `'\''`.
pub fn quote_arg(a: &str) -> (r: String)
    ensures
        r@ == quoted(a@),
{
    let v = chars_of(a);
    let mut out: Vec<char> = Vec::new();
    push_quoted(&mut out, &v);
    assert(Seq::<char>::empty() + quoted(v@) =~= quoted(v@));
    string_of(&out)
}

/// Appends `args` to `out` as a command line, each after one space and in
/// single quotes.
pub fn push_rendered(out: &mut Vec<char>, args: &Vec<String>)
    ensures
        final(out)@ == old(out)@ + rendered(views(args@)),
{
    let ghost start = out@;
    let mut i: usize = 0;
    while i < args.len()
        invariant
            i <= args.len(),
            out@ == start + rendered(views(args@).take(i as int)),
        decreases args.len() - i,
    {
        let a = chars_of(args[i].as_str());
        proof {
            let xs = views(args@);
            assert(xs.take(i + 1) =~= xs.take(i as int) + seq![xs[i as int]]);
            lemma_rendered_concat(xs.take(i as int), seq![xs[i as int]]);
            lemma_rendered_one(xs[i as int]);
        }
        out.push(' ');
        push_quoted(out, &a);
        proof {
            let xs = views(args@);
            assert(out@ =~= start + rendered(xs.take(i + 1)));
        }
        i = i + 1;
    }
    assert(views(args@).take(args.len() as int) =~= views(args@));
}

/// `args` as one shell command line that a shell splits back into exactly
/// `args`.
pub fn render_args(args: &Vec<String>) -> (r: String)
    ensures
        r@ == rendered(views(args@)),
        words(r@) == Some(views(args@)),
{
    let mut out: Vec<char> = Vec::new();
    push_rendered(&mut out, args);
    assert(Seq::<char>::empty() + rendered(views(args@)) =~= rendered(views(args@)));
    proof {
        lemma_rendered_round_trip(views(args@));
    }
    string_of(&out)
}

} // verus!

verus! {

fn is_blank_char(c: char) -> (r: bool)
    ensures
        r == is_blank(c),
{
    c == ' ' || c == '\t' || c == '\n'
}

fn is_special_char(c: char) -> (r: bool)
    ensures
        r == is_special(c),
{
    c == '"' || c == '$' || c == '`' || c == ';' || c == '&' || c == '|' || c == '<' || c == '>'
        || c == '(' || c == ')' || c == '*' || c == '?' || c == '[' || c == '#' || c == '~'
        || c == '{' || c == '}' || c == '!'
}

/// The words of the command line `s` as a POSIX shell splits them, or `None`
/// where a quote or escape is left open or an unquoted special character
/// stands in it.
pub fn split_words(s: &str) -> (r: Option<Vec<String>>)
    ensures
        match r {
            Some(ws) => words(s@) == Some(views(ws@)),
            None => words(s@) is None,
        },
{
    let v = chars_of(s);
    let mut mode = ScanMode::Blank;
    let mut cur: Vec<char> = Vec::new();
    let mut out: Vec<String> = Vec::new();
    let mut i: usize = 0;
    proof {
        assert(v@.skip(0) =~= v@);
        assert(views(out@) =~= Seq::<Seq<char>>::empty());
        match words(v@) {
            Some(xs) => assert(Seq::<Seq<char>>::empty() + xs =~= xs),
            None => {},
        }
    }
    while i < v.len()
        invariant
            i <= v.len(),
            v@ == s@,
            mode == ScanMode::Blank ==> cur@ == Seq::<char>::empty(),
            words(v@) == prepend_all(views(out@), scan(mode, cur@, v@.skip(i as int))),
        decreases v.len() - i,
    {
        let c = v[i];
        let ghost old_out = out@;
        let ghost old_cur = cur@;
        proof {
            assert(v@.skip(i as int) =~= seq![c] + v@.skip(i + 1));
            lemma_scan_step(c, v@.skip(i + 1));
        }
        match mode {
            ScanMode::Blank => {
                if is_blank_char(c) {
                } else if c == '\'' {
                    mode = ScanMode::Single;
                } else if c == '\\' {
                    mode = ScanMode::Escape;
                } else if is_special_char(c) {
                    return None;
                } else {
                    cur.push(c);
                    assert(cur@ =~= seq![c]);
                    mode = ScanMode::Bare;
                }
            },
            ScanMode::Bare => {
                if is_blank_char(c) {
                    let w = string_of(&cur);
                    out.push(w);
                    cur = Vec::new();
                    mode = ScanMode::Blank;
                    proof {
                        assert(views(out@) =~= views(old_out) + seq![old_cur]);
                        match scan(ScanMode::Blank, Seq::empty(), v@.skip(i + 1)) {
                            Some(xs) => {
                                assert(views(old_out) + (seq![old_cur] + xs) =~= views(old_out)
                                    + seq![old_cur] + xs);
                            },
                            None => {},
                        }
                    }
                } else if c == '\'' {
                    mode = ScanMode::Single;
                } else if c == '\\' {
                    mode = ScanMode::Escape;
                } else if is_special_char(c) {
                    return None;
                } else {
                    cur.push(c);
                }
            },
            ScanMode::Single => {
                if c == '\'' {
                    mode = ScanMode::Bare;
                } else {
                    cur.push(c);
                }
            },
            ScanMode::Escape => {
                cur.push(c);
                mode = ScanMode::Bare;
            },
        }
        i = i + 1;
    }
    proof {
        assert(v@.skip(i as int) =~= Seq::<char>::empty());
    }
    match mode {
        ScanMode::Blank => {
            assert(views(out@) + Seq::<Seq<char>>::empty() =~= views(out@));
            Some(out)
        },
        ScanMode::Bare => {
            let ghost old_out = out@;
            let w = string_of(&cur);
            out.push(w);
            assert(views(out@) =~= views(old_out) + seq![cur@]);
            Some(out)
        },
        _ => None,
    }
}

} // verus!

verus! {

/// Plain characters extend the bare word being read.
pub proof fn lemma_plain_scan(w: Seq<char>, p: Seq<char>, rest: Seq<char>)
    requires
        forall|i: int| 0 <= i < p.len() ==> is_plain(#[trigger] p[i]),
    ensures
        scan(ScanMode::Bare, w, p + rest) == scan(ScanMode::Bare, w + p, rest),
    decreases p.len(),
{
    if p.len() == 0 {
        assert(p + rest =~= rest);
        assert(w + p =~= w);
    } else {
        let tail = p.drop_first() + rest;
        assert(p + rest =~= seq![p[0]] + tail);
        lemma_scan_step(p[0], tail);
        lemma_plain_scan(w.push(p[0]), p.drop_first(), rest);
        assert(w.push(p[0]) + p.drop_first() =~= w + p);
    }
}

/// A non-empty run of plain characters between words starts a bare word.
pub proof fn lemma_plain_word_scan(p: Seq<char>, rest: Seq<char>)
    requires
        p.len() > 0,
        forall|i: int| 0 <= i < p.len() ==> is_plain(#[trigger] p[i]),
    ensures
        scan(ScanMode::Blank, Seq::empty(), p + rest) == scan(ScanMode::Bare, p, rest),
{
    let tail = p.drop_first() + rest;
    assert(p + rest =~= seq![p[0]] + tail);
    lemma_scan_step(p[0], tail);
    assert(is_plain(p[0]));
    lemma_plain_scan(seq![p[0]], p.drop_first(), rest);
    assert(seq![p[0]] + p.drop_first() =~= p);
}

} // verus!
