//! Quoting of SQL identifiers (schema and table names).
use vstd::prelude::*;
use crate::text::chars_of;

verus! {

/// `s` with every double quote doubled.
pub open spec fn escape_quotes(s: Seq<char>) -> Seq<char>
    decreases s.len(),
{
    if s.len() == 0 {
        Seq::empty()
    } else if s[0] == '"' {
        seq!['"', '"'] + escape_quotes(s.drop_first())
    } else {
        seq![s[0]] + escape_quotes(s.drop_first())
    }
}

/// The quoted form of an identifier: escaped, then wrapped in one pair of double quotes.
pub open spec fn quoted(s: Seq<char>) -> Seq<char> {
    seq!['"'] + escape_quotes(s) + seq!['"']
}

/// Reads the body of a quoted identifier, where `""` stands for one double quote
/// and a lone double quote is not allowed.
pub open spec fn unescape_quotes(s: Seq<char>) -> Option<Seq<char>>
    decreases s.len(),
{
    if s.len() == 0 {
        Some(Seq::empty())
    } else if s[0] == '"' {
        if s.len() >= 2 && s[1] == '"' {
            match unescape_quotes(s.subrange(2, s.len() as int)) {
                Some(rest) => Some(seq!['"'] + rest),
                None => None,
            }
        } else {
            None
        }
    } else {
        match unescape_quotes(s.drop_first()) {
            Some(rest) => Some(seq![s[0]] + rest),
            None => None,
        }
    }
}

/// How the database reads a quoted identifier back into a name.
pub open spec fn parse_quoted_ident(s: Seq<char>) -> Option<Seq<char>> {
    if s.len() >= 2 && s[0] == '"' && s[s.len() - 1] == '"' {
        unescape_quotes(s.subrange(1, s.len() - 1))
    } else {
        None
    }
}

proof fn lemma_escape_concat(a: Seq<char>, b: Seq<char>)
    ensures
        escape_quotes(a + b) == escape_quotes(a) + escape_quotes(b),
    decreases a.len(),
{
    if a.len() == 0 {
        assert(a + b =~= b);
        assert(escape_quotes(a) + escape_quotes(b) =~= escape_quotes(b));
    } else {
        assert((a + b).drop_first() =~= a.drop_first() + b);
        lemma_escape_concat(a.drop_first(), b);
        assert((a + b)[0] == a[0]);
        if a[0] == '"' {
            assert(escape_quotes(a + b) =~= seq!['"', '"'] + (escape_quotes(a.drop_first())
                + escape_quotes(b)));
        } else {
            assert(escape_quotes(a + b) =~= seq![a[0]] + (escape_quotes(a.drop_first())
                + escape_quotes(b)));
        }
    }
}

proof fn lemma_escape_plain(a: Seq<char>)
    requires
        forall|k: int| 0 <= k < a.len() ==> a[k] != '"',
    ensures
        escape_quotes(a) == a,
    decreases a.len(),
{
    if a.len() > 0 {
        lemma_escape_plain(a.drop_first());
        assert(escape_quotes(a) =~= a);
    }
}

proof fn lemma_unescape_escape(s: Seq<char>)
    ensures
        unescape_quotes(escape_quotes(s)) == Some(s),
    decreases s.len(),
{
    if s.len() > 0 {
        lemma_unescape_escape(s.drop_first());
        let e = escape_quotes(s);
        if s[0] == '"' {
            assert(e.subrange(2, e.len() as int) =~= escape_quotes(s.drop_first()));
        } else {
            assert(e.drop_first() =~= escape_quotes(s.drop_first()));
        }
        assert(seq![s[0]] + s.drop_first() =~= s);
    } else {
        assert(escape_quotes(s) =~= Seq::<char>::empty());
    }
}

/// Reading a quoted identifier back gives the original name, whatever characters it holds.
pub proof fn lemma_quote_round_trip(s: Seq<char>)
    ensures
        parse_quoted_ident(quoted(s)) == Some(s),
{
    let q = quoted(s);
    assert(q.subrange(1, q.len() - 1) =~= escape_quotes(s));
    lemma_unescape_escape(s);
}

/// Wraps `s` in double quotes, doubling every double quote inside it, so that
/// any name stands as a single identifier in SQL text.
pub fn quote_ident(s: &str) -> (r: String)
    ensures
        r@ == quoted(s@),
{
    proof { reveal_strlit("\""); }
    let cs = chars_of(s);
    let mut r = String::from_str("\"");
    let mut start: usize = 0;
    let mut i: usize = 0;
    while i < cs.len()
        invariant
            cs@ == s@,
            start <= i <= cs.len(),
            r@ == seq!['"'] + escape_quotes(s@.take(start as int)),
            forall|k: int| start <= k < i ==> s@[k] != '"',
        decreases cs.len() - i,
    {
        if cs[i] == '"' {
            let ghost r0 = r@;
            r.append(s.substring_char(start, i + 1));
            r.append("\"");
            proof {
                let mid = s@.subrange(start as int, i as int);
                assert(s@.take(i + 1) =~= s@.take(start as int) + (mid + seq!['"']));
                lemma_escape_concat(s@.take(start as int), mid + seq!['"']);
                lemma_escape_concat(mid, seq!['"']);
                lemma_escape_plain(mid);
                let one = seq!['"'];
                assert(one.drop_first() =~= Seq::<char>::empty());
                assert(escape_quotes(Seq::<char>::empty()) == Seq::<char>::empty());
                assert(escape_quotes(one) =~= seq!['"', '"']);
                assert(s@.subrange(start as int, i + 1) =~= mid + seq!['"']);
                reveal_strlit("\"");
                assert("\""@ =~= seq!['"']);
                assert(r@ =~= r0 + (mid + seq!['"']) + seq!['"']);
                assert(escape_quotes(s@.take(i + 1)) =~= escape_quotes(s@.take(start as int)) + (
                mid + seq!['"', '"']));
                assert(r@ =~= seq!['"'] + escape_quotes(s@.take(i + 1)));
            }
            start = i + 1;
        }
        i = i + 1;
    }
    r.append(s.substring_char(start, cs.len()));
    r.append("\"");
    proof {
        let rest = s@.subrange(start as int, s@.len() as int);
        assert(s@ =~= s@.take(start as int) + rest);
        lemma_escape_concat(s@.take(start as int), rest);
        lemma_escape_plain(rest);
        assert(r@ =~= quoted(s@));
    }
    r
}

} // verus!
