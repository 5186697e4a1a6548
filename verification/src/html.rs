//! Shared HTML helpers for the server-rendered pages (hand-built strings,
//! no template engine) and the request-cookie lookup.

use vstd::prelude::*;
use crate::text::{
    chars_eq, chars_vec, copy_range, find_char_from, index_of, lemma_index_of, push_char, push_str,
    split_on, string_from_chars, trim, trim_chars,
};

verus! {

/// Everything before the page title.
pub const PAGE_OPEN: &'static str = "<!doctype html><html><head><meta charset=\"utf-8\"><title>";

/// Between the `<title>` text and the heading text: the full public-site
/// stylesheet.
pub const PAGE_STYLE: &'static str = "</title><style>body{font-family:sans-serif;max-width:640px;margin:2rem auto;padding:0 1rem}input{display:block;width:100%;padding:.4rem;margin:.3rem 0 1rem}button{padding:.5rem 1rem}li{margin:.4rem 0}nav a{margin-right:1rem}nav button{margin-right:1rem}table{border-collapse:collapse;width:100%}td,th{text-align:left;padding:.3rem .6rem .3rem 0;border-bottom:1px solid #ddd}.dot{display:inline-block;width:.6rem;height:.6rem;border-radius:50%;margin-right:.4rem}.online{background:#2a2}.offline{background:#999}</style></head><body><h1>";

/// Between the heading text and the body.
pub const PAGE_HEADING_CLOSE: &'static str = "</h1>";

/// After the body.
pub const PAGE_CLOSE: &'static str = "</body></html>";

/// What `html_escape` turns one character into.
pub open spec fn escape_char(c: char) -> Seq<char> {
    if c == '&' {
        seq!['&', 'a', 'm', 'p', ';']
    } else if c == '<' {
        seq!['&', 'l', 't', ';']
    } else if c == '>' {
        seq!['&', 'g', 't', ';']
    } else if c == '"' {
        seq!['&', 'q', 'u', 'o', 't', ';']
    } else {
        seq![c]
    }
}

/// `s` with `&`, `<`, `>` and `"` replaced by their entities.
pub open spec fn html_escaped(s: Seq<char>) -> Seq<char>
    decreases s.len(),
{
    if s.len() == 0 {
        Seq::empty()
    } else {
        html_escaped(s.drop_last()) + escape_char(s.last())
    }
}

/// Escaping distributes over concatenation.
pub proof fn lemma_escape_concat(a: Seq<char>, b: Seq<char>)
    ensures
        html_escaped(a + b) == html_escaped(a) + html_escaped(b),
    decreases b.len(),
{
    if b.len() == 0 {
        assert(a + b =~= a);
        assert(html_escaped(b) =~= Seq::<char>::empty());
        assert(html_escaped(a) + html_escaped(b) =~= html_escaped(a));
    } else {
        lemma_escape_concat(a, b.drop_last());
        assert((a + b).drop_last() =~= a + b.drop_last());
        assert(html_escaped(a) + html_escaped(b) =~= html_escaped(a) + html_escaped(b.drop_last())
            + escape_char(b.last()));
    }
}

/// `s` with every occurrence of `from` replaced by `to`, scanning left to
/// right without overlaps (what `str::replace` does for a non-empty `from`).
pub open spec fn replace_all(s: Seq<char>, from: Seq<char>, to: Seq<char>) -> Seq<char>
    decreases s.len(),
{
    if s.len() == 0 {
        Seq::empty()
    } else if from.len() > 0 && s.len() >= from.len() && s.take(from.len() as int) == from {
        to + replace_all(s.skip(from.len() as int), from, to)
    } else {
        seq![s[0]] + replace_all(s.skip(1), from, to)
    }
}

/// Reading entities back as a chain of replacements: `&lt;`, then `&gt;`,
/// then `&quot;`, and `&amp;` last.
pub open spec fn unescape_chain(s: Seq<char>) -> Seq<char> {
    replace_all(
        replace_all(
            replace_all(replace_all(s, seq!['&', 'l', 't', ';'], seq!['<']), seq!['&', 'g', 't', ';'], seq!['>']),
            seq!['&', 'q', 'u', 'o', 't', ';'],
            seq!['"'],
        ),
        seq!['&', 'a', 'm', 'p', ';'],
        seq!['&'],
    )
}

/// What replacement pass `k` of `unescape_chain` looks for.
spec fn pass_from(k: nat) -> Seq<char> {
    if k == 0 {
        seq!['&', 'l', 't', ';']
    } else if k == 1 {
        seq!['&', 'g', 't', ';']
    } else if k == 2 {
        seq!['&', 'q', 'u', 'o', 't', ';']
    } else {
        seq!['&', 'a', 'm', 'p', ';']
    }
}

/// What replacement pass `k` of `unescape_chain` puts in its place.
spec fn pass_to(k: nat) -> Seq<char> {
    if k == 0 {
        seq!['<']
    } else if k == 1 {
        seq!['>']
    } else if k == 2 {
        seq!['"']
    } else {
        seq!['&']
    }
}

/// How `c` reads after the first `k` passes over its escaped form.
spec fn stage_char(k: nat, c: char) -> Seq<char> {
    if c == '<' && k >= 1 {
        seq!['<']
    } else if c == '>' && k >= 2 {
        seq!['>']
    } else if c == '"' && k >= 3 {
        seq!['"']
    } else if c == '&' && k >= 4 {
        seq!['&']
    } else {
        escape_char(c)
    }
}

/// How `s` reads after the first `k` passes over its escaped form.
spec fn stage(k: nat, s: Seq<char>) -> Seq<char>
    decreases s.len(),
{
    if s.len() == 0 {
        Seq::empty()
    } else {
        stage_char(k, s[0]) + stage(k, s.skip(1))
    }
}

/// Text free of `&` passes through a replacement of an `&`-entity unchanged.
proof fn lemma_replace_skips(u: Seq<char>, r: Seq<char>, from: Seq<char>, to: Seq<char>)
    requires
        from.len() > 0,
        from[0] == '&',
        forall|i: int| 0 <= i < u.len() ==> u[i] != '&',
    ensures
        replace_all(u + r, from, to) == u + replace_all(r, from, to),
    decreases u.len(),
{
    if u.len() > 0 {
        let w = u + r;
        if w.len() >= from.len() {
            assert(w.take(from.len() as int)[0] == u[0]);
        }
        assert(w.skip(1) =~= u.skip(1) + r);
        lemma_replace_skips(u.skip(1), r, from, to);
        assert(u =~= seq![u[0]] + u.skip(1));
    }
}

/// One pass over one character's form.
proof fn lemma_pass_char(k: nat, c: char, r: Seq<char>)
    requires
        k < 4,
    ensures
        replace_all(stage_char(k, c) + r, pass_from(k), pass_to(k)) == stage_char(k + 1, c) + replace_all(
            r,
            pass_from(k),
            pass_to(k),
        ),
{
    let w = stage_char(k, c);
    let from = pass_from(k);
    let to = pass_to(k);
    let x = w + r;
    if w == from {
        assert(x.take(from.len() as int) =~= w);
        assert(x.skip(from.len() as int) =~= r);
    } else if w[0] == '&' {
        assert(w.len() >= 4);
        assert(x[1] == w[1]);
        assert(w[1] != from[1]);
        if x.len() >= from.len() {
            assert(x.take(from.len() as int)[1] == w[1]);
        }
        let u = w.skip(1);
        assert(x.skip(1) =~= u + r);
        assert forall|i: int| 0 <= i < u.len() implies u[i] != '&' by {}
        lemma_replace_skips(u, r, from, to);
        assert(w =~= seq![w[0]] + u);
    } else {
        lemma_replace_skips(w, r, from, to);
    }
}

/// One pass over a whole text's form.
proof fn lemma_pass(k: nat, s: Seq<char>)
    requires
        k < 4,
    ensures
        replace_all(stage(k, s), pass_from(k), pass_to(k)) == stage(k + 1, s),
    decreases s.len(),
{
    if s.len() > 0 {
        lemma_pass_char(k, s[0], stage(k, s.skip(1)));
        lemma_pass(k, s.skip(1));
    }
}

/// Before any pass, the form is the escaped text.
proof fn lemma_stage_zero(s: Seq<char>)
    ensures
        stage(0, s) == html_escaped(s),
    decreases s.len(),
{
    if s.len() > 0 {
        let c = s[0];
        let t = s.skip(1);
        assert(seq![c] + t =~= s);
        lemma_escape_concat(seq![c], t);
        assert(seq![c].drop_last() =~= Seq::<char>::empty());
        assert(seq![c].last() == c);
        assert(html_escaped(seq![c].drop_last()) =~= Seq::<char>::empty());
        assert(html_escaped(seq![c]) =~= escape_char(c));
        lemma_stage_zero(t);
    }
}

/// After all four passes, the form is the text itself.
proof fn lemma_stage_four(s: Seq<char>)
    ensures
        stage(4, s) == s,
    decreases s.len(),
{
    if s.len() > 0 {
        lemma_stage_four(s.skip(1));
        assert(s =~= seq![s[0]] + s.skip(1));
    }
}

/// Escaping loses nothing: replacing the entities back (`&lt;`, `&gt;`,
/// `&quot;`, then `&amp;`) gives the original text, whatever it holds.
pub proof fn lemma_unescape_escaped(s: Seq<char>)
    ensures
        unescape_chain(html_escaped(s)) == s,
{
    lemma_stage_zero(s);
    lemma_pass(0, s);
    lemma_pass(1, s);
    lemma_pass(2, s);
    lemma_pass(3, s);
    lemma_stage_four(s);
    assert(pass_from(0) == seq!['&', 'l', 't', ';'] && pass_to(0) == seq!['<']);
    assert(pass_from(1) == seq!['&', 'g', 't', ';'] && pass_to(1) == seq!['>']);
    assert(pass_from(2) == seq!['&', 'q', 'u', 'o', 't', ';'] && pass_to(2) == seq!['"']);
    assert(pass_from(3) == seq!['&', 'a', 'm', 'p', ';'] && pass_to(3) == seq!['&']);
}

/// No character that `html_escape` rewrites is left unescaped: the result
/// holds no `<`, `>` or `"`.
pub proof fn lemma_escaped_has_no_markup(s: Seq<char>)
    ensures
        forall|i: int|
            0 <= i < html_escaped(s).len() ==> html_escaped(s)[i] != '<' && html_escaped(s)[i]
                != '>' && html_escaped(s)[i] != '"',
    decreases s.len(),
{
    if s.len() > 0 {
        lemma_escaped_has_no_markup(s.drop_last());
        let p = html_escaped(s.drop_last());
        let e = escape_char(s.last());
        assert forall|i: int| 0 <= i < (p + e).len() implies (p + e)[i] != '<' && (p + e)[i] != '>'
            && (p + e)[i] != '"' by {
            if i >= p.len() {
                assert((p + e)[i] == e[i - p.len()]);
            }
        }
    }
}

/// Appends `s` with HTML metacharacters escaped.
pub fn push_escaped(out: &mut String, s: &str)
    ensures
        final(out)@ == old(out)@ + html_escaped(s@),
{
    let v = chars_vec(s);
    let ghost start = out@;
    let mut i: usize = 0;
    while i < v.len()
        invariant
            v@ == s@,
            i <= v@.len(),
            out@ == start + html_escaped(v@.take(i as int)),
        decreases v@.len() - i,
    {
        let c = v[i];
        let ghost before = out@;
        if c == '&' {
            push_char(out, '&');
            push_char(out, 'a');
            push_char(out, 'm');
            push_char(out, 'p');
            push_char(out, ';');
        } else if c == '<' {
            push_char(out, '&');
            push_char(out, 'l');
            push_char(out, 't');
            push_char(out, ';');
        } else if c == '>' {
            push_char(out, '&');
            push_char(out, 'g');
            push_char(out, 't');
            push_char(out, ';');
        } else if c == '"' {
            push_char(out, '&');
            push_char(out, 'q');
            push_char(out, 'u');
            push_char(out, 'o');
            push_char(out, 't');
            push_char(out, ';');
        } else {
            push_char(out, c);
        }
        assert(out@ =~= before + escape_char(c));
        assert(v@.take(i + 1).drop_last() =~= v@.take(i as int));
        i = i + 1;
    }
    assert(v@.take(i as int) =~= v@);
}

/// `input` with `&`, `<`, `>` and `"` replaced by `&amp;`, `&lt;`, `&gt;`
/// and `&quot;`.
pub fn html_escape(input: &str) -> (r: String)
    ensures
        r@ == html_escaped(input@),
{
    let mut r = String::new();
    push_escaped(&mut r, input);
    r
}

/// A complete public-site page: `title` in both `<title>` and `<h1>`,
/// then `body`.
pub open spec fn page_html(title: Seq<char>, body: Seq<char>) -> Seq<char> {
    PAGE_OPEN@ + title + PAGE_STYLE@ + title + PAGE_HEADING_CLOSE@ + body + PAGE_CLOSE@
}

/// Renders a public-site page around `body`.
pub fn page(title: &str, body: &str) -> (r: String)
    ensures
        r@ == page_html(title@, body@),
{
    let mut r = String::new();
    push_str(&mut r, PAGE_OPEN);
    push_str(&mut r, title);
    push_str(&mut r, PAGE_STYLE);
    push_str(&mut r, title);
    push_str(&mut r, PAGE_HEADING_CLOSE);
    push_str(&mut r, body);
    push_str(&mut r, PAGE_CLOSE);
    assert(r@ =~= page_html(title@, body@));
    r
}

/// The name and value of one `name=value` cookie entry: split at its first
/// `=` after trimming; `None` when it has no `=`.
pub open spec fn cookie_pair(part: Seq<char>) -> Option<(Seq<char>, Seq<char>)> {
    let t = trim(part);
    let i = index_of(t, '=');
    if i < 0 {
        None
    } else {
        Some((t.take(i), t.skip(i + 1)))
    }
}

/// The value of the first entry among `parts` named `name`.
pub open spec fn lookup_cookie(parts: Seq<Seq<char>>, name: Seq<char>) -> Option<Seq<char>>
    decreases parts.len(),
{
    if parts.len() == 0 {
        None
    } else {
        match cookie_pair(parts[0]) {
            Some(kv) => if kv.0 == name {
                Some(kv.1)
            } else {
                lookup_cookie(parts.drop_first(), name)
            },
            None => lookup_cookie(parts.drop_first(), name),
        }
    }
}

/// The value of cookie `name` in a `Cookie:` header: the header is split at
/// `;`, each piece trimmed and split at its first `=`, and the first piece
/// whose name matches wins.
pub open spec fn spec_cookie_value(header: Seq<char>, name: Seq<char>) -> Option<Seq<char>> {
    lookup_cookie(split_on(header, ';'), name)
}

/// Reads cookie `name` out of the text of a `Cookie:` request header.
pub fn cookie_value(cookie_header: &str, name: &str) -> (r: Option<String>)
    ensures
        match r {
            Some(v) => spec_cookie_value(cookie_header@, name@) == Some(v@),
            None => spec_cookie_value(cookie_header@, name@) is None,
        },
{
    let v = chars_vec(cookie_header);
    let nm = chars_vec(name);
    let n = v.len();
    let mut p: usize = 0;
    assert(v@.skip(0) =~= v@);
    while p <= n
        invariant
            v@ == cookie_header@,
            nm@ == name@,
            n == v@.len(),
            p <= n,
            spec_cookie_value(cookie_header@, name@) == lookup_cookie(split_on(v@.skip(p as int), ';'), name@),
        decreases n + 1 - p,
    {
        let j = find_char_from(v.as_slice(), ';', p);
        let part = copy_range(v.as_slice(), p, j);
        let ghost rest = v@.skip(p as int);
        proof {
            lemma_index_of(rest, ';');
            assert(rest.take(j - p) =~= part@);
            if j < n {
                assert(rest.skip(j - p + 1) =~= v@.skip(j + 1));
                assert(split_on(rest, ';') == seq![part@] + split_on(v@.skip(j + 1), ';'));
                assert((seq![part@] + split_on(v@.skip(j + 1), ';')).drop_first() =~= split_on(v@.skip(j + 1), ';'));
            } else {
                assert(rest =~= part@);
                assert(split_on(rest, ';') == seq![part@]);
                assert(seq![part@].drop_first() =~= Seq::<Seq<char>>::empty());
            }
        }
        let t = trim_chars(part.as_slice());
        let eq = find_char_from(t.as_slice(), '=', 0);
        assert(t@.skip(0) =~= t@);
        assert(index_of(t@, '=') == if eq == t@.len() {
            -1
        } else {
            eq as int
        });
        assert(cookie_pair(part@) == if eq < t@.len() {
            Some((t@.take(eq as int), t@.skip(eq + 1)))
        } else {
            None::<(Seq<char>, Seq<char>)>
        });
        assert(split_on(rest, ';')[0] == part@);
        if eq < t.len() {
            let key = copy_range(t.as_slice(), 0, eq);
            if chars_eq(key.as_slice(), nm.as_slice()) {
                let val = copy_range(t.as_slice(), eq + 1, t.len());
                assert(t@.take(eq as int) =~= key@);
                assert(t@.skip(eq + 1) =~= val@);
                return Some(string_from_chars(val.as_slice()));
            }
            assert(t@.take(eq as int) =~= key@);
        }
        assert(lookup_cookie(split_on(rest, ';'), name@) == lookup_cookie(split_on(rest, ';').drop_first(), name@));
        if j >= n {
            return None;
        }
        p = j + 1;
    }
    None
}

} // verus!
