use vstd::prelude::*;
use vstd::string::*;

verus! {

/// What one character becomes inside a single-quoted predicate literal: a quote is doubled.
pub open spec fn quote_part(c: char) -> Seq<char> {
    if c == '\'' {
        seq!['\'', '\'']
    } else {
        seq![c]
    }
}

/// The text with every single quote doubled.
pub open spec fn escape_spec(s: Seq<char>) -> Seq<char>
    decreases s.len(),
{
    if s.len() == 0 {
        Seq::empty()
    } else {
        quote_part(s[0]) + escape_spec(s.skip(1))
    }
}

/// How the predicate engine reads the body of a single-quoted literal: a doubled quote
/// stands for one quote.
pub open spec fn unescape_spec(s: Seq<char>) -> Seq<char>
    decreases s.len(),
{
    if s.len() == 0 {
        Seq::empty()
    } else if s.len() >= 2 && s[0] == '\'' && s[1] == '\'' {
        seq!['\''] + unescape_spec(s.skip(2))
    } else {
        seq![s[0]] + unescape_spec(s.skip(1))
    }
}

/// Every quote of `s` is followed by a second one: inside a quoted literal, `s` cannot
/// close the literal.
pub open spec fn quotes_paired(s: Seq<char>) -> bool
    decreases s.len(),
{
    if s.len() == 0 {
        true
    } else if s[0] == '\'' {
        s.len() >= 2 && s[1] == '\'' && quotes_paired(s.skip(2))
    } else {
        quotes_paired(s.skip(1))
    }
}

pub open spec fn key_predicate_spec(key: Seq<char>) -> Seq<char> {
    "key = '"@ + escape_spec(key) + "'"@
}

pub open spec fn prefix_predicate_spec(prefix: Seq<char>) -> Seq<char> {
    "starts_with(key, '"@ + escape_spec(prefix) + "')"@
}

proof fn lemma_escape_push(s: Seq<char>, c: char)
    ensures
        escape_spec(s.push(c)) == escape_spec(s) + quote_part(c),
    decreases s.len(),
{
    if s.len() == 0 {
        assert(s.push(c).skip(1) =~= Seq::<char>::empty());
        assert(escape_spec(s.push(c).skip(1)) =~= Seq::<char>::empty());
        assert(s.push(c)[0] == c);
        assert(escape_spec(s) =~= Seq::<char>::empty());
        assert(escape_spec(s.push(c)) =~= quote_part(c));
    } else {
        lemma_escape_push(s.skip(1), c);
        assert(s.push(c).skip(1) =~= s.skip(1).push(c));
        assert(s.push(c)[0] == s[0]);
        assert(escape_spec(s.push(c)) =~= escape_spec(s) + quote_part(c));
    }
}

/// A literal written by escaping reads back as the text it was written from, and none of
/// its quotes can close the literal; so a key or prefix placed in a predicate is matched
/// literally, whatever quotes it holds.
pub proof fn lemma_escape_round_trip(s: Seq<char>)
    ensures
        unescape_spec(escape_spec(s)) == s,
        quotes_paired(escape_spec(s)),
    decreases s.len(),
{
    if s.len() > 0 {
        let e = escape_spec(s);
        let rest = escape_spec(s.skip(1));
        lemma_escape_round_trip(s.skip(1));
        if s[0] == '\'' {
            assert(e.skip(2) =~= rest);
            assert(e[0] == '\'' && e[1] == '\'');
            assert(unescape_spec(e) =~= seq!['\''] + s.skip(1));
            assert(quotes_paired(e));
        } else {
            assert(e.skip(1) =~= rest);
            assert(e[0] == s[0]);
            assert(unescape_spec(e) =~= seq![s[0]] + s.skip(1));
            assert(quotes_paired(e));
        }
        assert(seq![s[0]] + s.skip(1) =~= s);
    }
}

/// The key predicate compares the key column with a literal that reads back as `key`.
pub proof fn lemma_key_predicate_literal(key: Seq<char>)
    ensures
        exists|lit: Seq<char>|
            key_predicate_spec(key) == "key = '"@ + lit + "'"@ && unescape_spec(lit) == key
                && quotes_paired(lit),
{
    lemma_escape_round_trip(key);
    let lit = escape_spec(key);
    assert(key_predicate_spec(key) == "key = '"@ + lit + "'"@);
}

/// The prefix predicate tests the key column against a literal that reads back as `prefix`,
/// so a listing by prefix selects the keys that begin with that exact text.
pub proof fn lemma_prefix_predicate_literal(prefix: Seq<char>)
    ensures
        exists|lit: Seq<char>|
            prefix_predicate_spec(prefix) == "starts_with(key, '"@ + lit + "')"@
                && unescape_spec(lit) == prefix && quotes_paired(lit),
{
    lemma_escape_round_trip(prefix);
    let lit = escape_spec(prefix);
    assert(prefix_predicate_spec(prefix) == "starts_with(key, '"@ + lit + "')"@);
}

/// Doubles every single quote of `s`, so that it can stand inside a quoted literal.
pub fn escape_quotes(s: &str) -> (r: String)
    ensures
        r@ == escape_spec(s@),
{
    let n = s.unicode_len();
    let mut out = String::new();
    let mut i: usize = 0;
    proof {
        reveal_strlit("'");
        assert(s@.subrange(0, 0) =~= Seq::<char>::empty());
    }
    while i < n
        invariant
            n == s@.len(),
            i <= n,
            out@ == escape_spec(s@.subrange(0, i as int)),
        decreases n - i,
    {
        let c = s.get_char(i);
        proof {
            lemma_escape_push(s@.subrange(0, i as int), c);
            assert(s@.subrange(0, i + 1) =~= s@.subrange(0, i as int).push(c));
        }
        let piece = s.substring_char(i, i + 1);
        assert(piece@ =~= seq![c]);
        out.append(piece);
        if c == '\'' {
            proof {
                reveal_strlit("'");
            }
            out.append("'");
            assert(out@ =~= escape_spec(s@.subrange(0, i + 1)));
        } else {
            assert(out@ =~= escape_spec(s@.subrange(0, i + 1)));
        }
        i = i + 1;
    }
    proof {
        assert(s@.subrange(0, n as int) =~= s@);
    }
    out
}

/// The predicate that selects the rows whose key is exactly `key`.
pub fn key_predicate(key: &str) -> (r: String)
    ensures
        r@ == key_predicate_spec(key@),
{
    let esc = escape_quotes(key);
    let mut r = String::from_str("key = '");
    r.append(esc.as_str());
    r.append("'");
    r
}

/// The predicate that selects the rows whose key begins with `prefix`.
pub fn prefix_predicate(prefix: &str) -> (r: String)
    ensures
        r@ == prefix_predicate_spec(prefix@),
{
    let esc = escape_quotes(prefix);
    let mut r = String::from_str("starts_with(key, '");
    r.append(esc.as_str());
    r.append("')");
    r
}

} // verus!
