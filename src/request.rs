use vstd::prelude::*;
use vstd::string::*;

use crate::common::{str_eq, HttpMethod};

verus! {

/// A parsed status line: `METHOD PATH VERSION`.
#[derive(Debug)]
pub struct Request {
    pub method: HttpMethod,
    pub path: String,
    pub version: String,
}

/// The pieces of `s` between single spaces, as `str::split(' ')` yields them:
/// empty pieces included, and one piece for a line without a space.
pub open spec fn split_on_space(s: Seq<char>) -> Seq<Seq<char>>
    decreases s.len(),
{
    if s.len() == 0 {
        seq![Seq::empty()]
    } else {
        let rest = split_on_space(s.drop_last());
        if s.last() == ' ' {
            rest.push(Seq::empty())
        } else {
            rest.update(rest.len() - 1, rest.last().push(s.last()))
        }
    }
}

/// The method that a method token names, if any.
pub open spec fn method_of(tok: Seq<char>) -> Option<HttpMethod> {
    if tok == "GET"@ {
        Some(HttpMethod::GET)
    } else if tok == "POST"@ {
        Some(HttpMethod::POST)
    } else if tok == "PUT"@ {
        Some(HttpMethod::PUT)
    } else if tok == "PATCH"@ {
        Some(HttpMethod::PATCH)
    } else if tok == "DELETE"@ {
        Some(HttpMethod::DELETE)
    } else {
        None
    }
}

/// The message for a status line that is missing or not three tokens long.
pub open spec fn malformed_message() -> Seq<char> {
    "status line parse error!"@
}

/// The message for a method token outside the supported set.
pub open spec fn unsupported_message(tok: Seq<char>) -> Seq<char> {
    "not supported method "@ + tok
}

proof fn lemma_split_nonempty(s: Seq<char>)
    ensures
        split_on_space(s).len() >= 1,
    decreases s.len(),
{
    if s.len() > 0 {
        lemma_split_nonempty(s.drop_last());
    }
}

/// Splits `line` on single spaces, each piece as an owned string.
pub fn split_spaces(line: &str) -> (r: Vec<String>)
    ensures
        r@.len() == split_on_space(line@).len(),
        forall|i: int| 0 <= i < r@.len() ==> #[trigger] r@[i]@ == split_on_space(line@)[i],
{
    let n = line.unicode_len();
    let mut pieces: Vec<String> = Vec::new();
    let mut start: usize = 0;
    let mut i: usize = 0;
    while i < n
        invariant
            n == line@.len(),
            start <= i <= n,
            pieces@.len() + 1 == split_on_space(line@.take(i as int)).len(),
            forall|k: int|
                0 <= k < pieces@.len() ==> #[trigger] pieces@[k]@ == split_on_space(
                    line@.take(i as int),
                )[k],
            split_on_space(line@.take(i as int)).last() == line@.subrange(start as int, i as int),
        decreases n - i,
    {
        let ghost prev = line@.take(i as int);
        let ghost next = line@.take(i + 1);
        assert(next.drop_last() =~= prev);
        assert(next.last() == line@[i as int]);
        proof {
            lemma_split_nonempty(prev);
        }
        if line.get_char(i) == ' ' {
            let piece = String::from_str(line.substring_char(start, i));
            pieces.push(piece);
            start = i + 1;
            assert(line@.subrange(start as int, i + 1) =~= Seq::<char>::empty());
        } else {
            assert(line@.subrange(start as int, i + 1) =~= line@.subrange(start as int, i as int).push(
                line@[i as int],
            ));
        }
        i = i + 1;
    }
    assert(line@.take(n as int) =~= line@);
    let last = String::from_str(line.substring_char(start, n));
    pieces.push(last);
    pieces
}

/// The method that `tok` names, if it is one of the supported tokens.
pub fn parse_method(tok: &str) -> (r: Option<HttpMethod>)
    ensures
        r == method_of(tok@),
{
    if str_eq(tok, "GET") {
        Some(HttpMethod::GET)
    } else if str_eq(tok, "POST") {
        Some(HttpMethod::POST)
    } else if str_eq(tok, "PUT") {
        Some(HttpMethod::PUT)
    } else if str_eq(tok, "PATCH") {
        Some(HttpMethod::PATCH)
    } else if str_eq(tok, "DELETE") {
        Some(HttpMethod::DELETE)
    } else {
        None
    }
}

/// What a request's lines parse to: the method, path and version of the
/// first line, or the message of the failure.
pub open spec fn parse_status_line(lines: Seq<Seq<char>>) -> Result<
    (HttpMethod, Seq<char>, Seq<char>),
    Seq<char>,
> {
    if lines.len() == 0 {
        Err(malformed_message())
    } else {
        let toks = split_on_space(lines[0]);
        if toks.len() != 3 {
            Err(malformed_message())
        } else {
            match method_of(toks[0]) {
                Some(m) => Ok((m, toks[1], toks[2])),
                None => Err(unsupported_message(toks[0])),
            }
        }
    }
}

proof fn lemma_split_space(s: Seq<char>)
    ensures
        split_on_space(s.push(' ')) == split_on_space(s).push(Seq::empty()),
{
    assert(s.push(' ').drop_last() =~= s);
}

proof fn lemma_split_word(s: Seq<char>, t: Seq<char>)
    requires
        !t.contains(' '),
    ensures
        split_on_space(s + t) == split_on_space(s).update(
            split_on_space(s).len() - 1,
            split_on_space(s).last() + t,
        ),
    decreases t.len(),
{
    lemma_split_nonempty(s);
    if t.len() == 0 {
        assert(s + t =~= s);
        assert(split_on_space(s).last() + t =~= split_on_space(s).last());
        assert(split_on_space(s).update(split_on_space(s).len() - 1, split_on_space(s).last())
            =~= split_on_space(s));
    } else {
        let u = t.drop_last();
        assert(!u.contains(' ')) by {
            if u.contains(' ') {
                let k = choose|k: int| 0 <= k < u.len() && u[k] == ' ';
                assert(t[k] == ' ');
            }
        }
        lemma_split_word(s, u);
        assert((s + t).drop_last() =~= s + u);
        assert((s + t).last() == t.last());
        assert(t.last() != ' ') by {
            assert(t[t.len() - 1] == t.last());
        }
        assert(split_on_space(s).last() + u + seq![t.last()] =~= split_on_space(s).last() + t);
        let sp = split_on_space(s);
        let rest = split_on_space(s + u);
        assert(rest == sp.update(sp.len() - 1, sp.last() + u));
        assert(rest.len() == sp.len());
        assert(rest.last() == sp.last() + u);
        assert(split_on_space(s + t) == rest.update(rest.len() - 1, rest.last().push(t.last())));
        assert((sp.last() + u).push(t.last()) =~= sp.last() + t);
        assert(split_on_space(s + t) =~= sp.update(sp.len() - 1, sp.last() + t));
    }
}

/// A line made of three words without spaces, joined by single spaces,
/// splits into exactly those three words.
pub proof fn lemma_three_words_split(a: Seq<char>, b: Seq<char>, c: Seq<char>)
    requires
        !a.contains(' '),
        !b.contains(' '),
        !c.contains(' '),
    ensures
        split_on_space(a + " "@ + b + " "@ + c) == seq![a, b, c],
{
    reveal_strlit(" ");
    let e = Seq::<char>::empty();
    lemma_split_word(e, a);
    assert(e + a =~= a);
    assert(split_on_space(a) =~= seq![a]);
    assert(a + " "@ =~= a.push(' '));
    lemma_split_space(a);
    lemma_split_word(a + " "@, b);
    assert(split_on_space(a + " "@ + b) =~= seq![a, b]);
    assert(a + " "@ + b + " "@ =~= (a + " "@ + b).push(' '));
    lemma_split_space(a + " "@ + b);
    lemma_split_word(a + " "@ + b + " "@, c);
    assert(split_on_space(a + " "@ + b + " "@ + c) =~= seq![a, b, c]);
}

/// A status line `METHOD PATH VERSION` of space-free words parses to exactly
/// its three words when the method is supported, and otherwise fails naming
/// the method word.
pub proof fn lemma_status_line_words(a: Seq<char>, b: Seq<char>, c: Seq<char>, headers: Seq<Seq<char>>)
    requires
        !a.contains(' '),
        !b.contains(' '),
        !c.contains(' '),
    ensures
        method_of(a) matches Some(m) ==> parse_status_line(
            seq![a + " "@ + b + " "@ + c] + headers,
        ) == Ok::<_, Seq<char>>((m, b, c)),
        method_of(a) is None ==> parse_status_line(seq![a + " "@ + b + " "@ + c] + headers) == Err::<
            (HttpMethod, Seq<char>, Seq<char>),
            _,
        >(unsupported_message(a)),
{
    lemma_three_words_split(a, b, c);
    assert((seq![a + " "@ + b + " "@ + c] + headers)[0] == a + " "@ + b + " "@ + c);
}

/// A first line that does not split into three pieces, or no line at all,
/// is malformed.
pub proof fn lemma_malformed_lines(lines: Seq<Seq<char>>)
    requires
        lines.len() == 0 || split_on_space(lines[0]).len() != 3,
    ensures
        parse_status_line(lines) == Err::<(HttpMethod, Seq<char>, Seq<char>), _>(
            malformed_message(),
        ),
{
}

impl View for Request {
    type V = (HttpMethod, Seq<char>, Seq<char>);

    open spec fn view(&self) -> Self::V {
        (self.method, self.path@, self.version@)
    }
}

impl Request {
    /// Parses the first of `content`, the lines of a request up to its blank line.
    /// The other lines are headers and are not read.
    pub fn from_content(content: &[&str]) -> (r: Result<Request, String>)
        ensures
            match r {
                Ok(req) => parse_status_line(content@.map_values(|l: &str| l@)) == Ok::<
                    _,
                    Seq<char>,
                >(req@),
                Err(e) => parse_status_line(content@.map_values(|l: &str| l@)) == Err::<
                    (HttpMethod, Seq<char>, Seq<char>),
                    _,
                >(e@),
            },
    {
        if content.len() == 0 {
            return Err(String::from_str("status line parse error!"));
        }
        let mut toks = split_spaces(content[0]);
        if toks.len() != 3 {
            return Err(String::from_str("status line parse error!"));
        }
        let version = toks.pop().unwrap();
        let path = toks.pop().unwrap();
        let method_tok = toks.pop().unwrap();
        match parse_method(method_tok.as_str()) {
            Some(method) => Ok(Request { method, path, version }),
            None => {
                let mut msg = String::from_str("not supported method ");
                msg.append(method_tok.as_str());
                Err(msg)
            },
        }
    }
}

} // verus!
