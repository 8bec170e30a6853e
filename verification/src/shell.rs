//! Single-quote shell escaping and its correctness.
//!
//! The rewrite embeds the replacement message in a generated shell
//! expression as a single-quoted word, turning each literal `'` into
//! `'\''`.  This module defines the escaping, a model of how the shell
//! evaluates such a word, and the proof that evaluation gives back exactly
//! the original message — no shell metacharacter leaks.

use vstd::prelude::*;

use crate::text::push_char;

verus! {

/// `s` with every single quote replaced by the four characters `'\''`.
pub open spec fn sq_escaped(s: Seq<char>) -> Seq<char>
    decreases s.len(),
{
    if s.len() == 0 {
        Seq::empty()
    } else if s[0] == '\'' {
        seq!['\'', '\\', '\'', '\''] + sq_escaped(s.skip(1))
    } else {
        seq![s[0]] + sq_escaped(s.skip(1))
    }
}

/// The single-quoted word that carries `s` into the generated script.
pub open spec fn sq_quoted(s: Seq<char>) -> Seq<char> {
    seq!['\''] + sq_escaped(s) + seq!['\'']
}

/// The shell expression handed to the rewrite tool's message filter: for
/// the one commit whose id matches, echo the quoted replacement; for every
/// other commit, pass the message through.
pub open spec fn msg_filter_script_of(hash: Seq<char>, msg: Seq<char>) -> Seq<char> {
    "if [ \"$GIT_COMMIT\" = \""@ + hash + "\" ]; then echo "@ + sq_quoted(msg) + "; else cat; fi"@
}

/// Position of the first occurrence of `c` in `s`, or `s.len()` if there is
/// none.
pub open spec fn first_pos(s: Seq<char>, c: char) -> nat
    decreases s.len(),
{
    if s.len() == 0 {
        0
    } else if s[0] == c {
        0
    } else {
        1 + first_pos(s.skip(1), c)
    }
}

proof fn lemma_first_pos_bounds(s: Seq<char>, c: char)
    ensures
        first_pos(s, c) <= s.len(),
        forall|j: int| 0 <= j < first_pos(s, c) ==> s[j] != c,
        first_pos(s, c) < s.len() ==> s[first_pos(s, c) as int] == c,
    decreases s.len(),
{
    if s.len() > 0 && s[0] != c {
        lemma_first_pos_bounds(s.skip(1), c);
        assert forall|j: int| 0 <= j < first_pos(s, c) implies s[j] != c by {
            if j > 0 {
                assert(s.skip(1)[j - 1] == s[j]);
            }
        }
    }
}

proof fn lemma_first_pos_from_scan(s: Seq<char>, c: char, i: int)
    requires
        0 <= i <= s.len(),
        forall|j: int| 0 <= j < i ==> s[j] != c,
        i == s.len() || s[i] == c,
    ensures
        first_pos(s, c) == i,
    decreases i,
{
    if i > 0 {
        lemma_first_pos_from_scan(s.skip(1), c, i - 1);
    }
}

/// Escaping distributes over concatenation.
proof fn lemma_sq_escaped_append(a: Seq<char>, b: Seq<char>)
    ensures
        sq_escaped(a + b) == sq_escaped(a) + sq_escaped(b),
    decreases a.len(),
{
    if a.len() == 0 {
        assert(a + b =~= b);
        assert(sq_escaped(a) + sq_escaped(b) =~= sq_escaped(b));
    } else {
        assert((a + b).skip(1) =~= a.skip(1) + b);
        lemma_sq_escaped_append(a.skip(1), b);
        if a[0] == '\'' {
            assert(seq!['\'', '\\', '\'', '\''] + (sq_escaped(a.skip(1)) + sq_escaped(b))
                =~= (seq!['\'', '\\', '\'', '\''] + sq_escaped(a.skip(1))) + sq_escaped(b));
        } else {
            assert(seq![a[0]] + (sq_escaped(a.skip(1)) + sq_escaped(b))
                =~= (seq![a[0]] + sq_escaped(a.skip(1))) + sq_escaped(b));
        }
    }
}

/// Shape of the escaped text around the first quote of `s`: the clean
/// prefix passes through untouched, the quote becomes `'\''`.
proof fn lemma_sq_escaped_split(s: Seq<char>)
    ensures
        first_pos(s, '\'') == s.len() ==> sq_escaped(s) == s,
        first_pos(s, '\'') < s.len() ==> sq_escaped(s) == s.take(first_pos(s, '\'') as int)
            + seq!['\'', '\\', '\'', '\''] + sq_escaped(s.skip(first_pos(s, '\'') as int + 1)),
    decreases s.len(),
{
    let k = first_pos(s, '\'') as int;
    if s.len() == 0 {
        assert(sq_escaped(s) =~= s);
    } else if s[0] == '\'' {
        assert(s.take(0) =~= Seq::<char>::empty());
        assert(s.take(0) + seq!['\'', '\\', '\'', '\''] + sq_escaped(s.skip(1))
            =~= seq!['\'', '\\', '\'', '\''] + sq_escaped(s.skip(1)));
    } else {
        lemma_sq_escaped_split(s.skip(1));
        lemma_first_pos_bounds(s, '\'');
        lemma_first_pos_bounds(s.skip(1), '\'');
        let k1 = first_pos(s.skip(1), '\'') as int;
        assert(k == 1 + k1);
        if k1 == s.skip(1).len() {
            assert(sq_escaped(s) =~= seq![s[0]] + s.skip(1));
            assert(seq![s[0]] + s.skip(1) =~= s);
        } else {
            assert(s.skip(1).take(k1) =~= s.take(k).skip(1));
            assert(s.skip(1).skip(k1 + 1) =~= s.skip(k + 1));
            assert(seq![s[0]] + (s.skip(1).take(k1) + seq!['\'', '\\', '\'', '\'']
                + sq_escaped(s.skip(k + 1)))
                =~= s.take(k) + seq!['\'', '\\', '\'', '\''] + sq_escaped(s.skip(k + 1)));
        }
    }
}

/// The value a POSIX shell gives the word `w` while scanning outside double
/// quotes: a backslash escapes the next character, a single quote opens a
/// span that is taken literally up to the closing quote.  `None` when the
/// word is unterminated.
pub open spec fn sh_word_value(w: Seq<char>) -> Option<Seq<char>>
    decreases w.len(),
{
    if w.len() == 0 {
        Some(Seq::empty())
    } else if w[0] == '\\' {
        if w.len() == 1 {
            None
        } else {
            match sh_word_value(w.skip(2)) {
                Some(v) => Some(seq![w[1]] + v),
                None => None,
            }
        }
    } else if w[0] == '\'' {
        let q = first_pos(w.skip(1), '\'') as int;
        if q < w.len() - 1 {
            match sh_word_value(w.skip(1).skip(q + 1)) {
                Some(v) => Some(w.skip(1).take(q) + v),
                None => None,
            }
        } else {
            None
        }
    } else {
        match sh_word_value(w.skip(1)) {
            Some(v) => Some(seq![w[0]] + v),
            None => None,
        }
    }
}

/// Law — escaping round-trip: the single-quoted word built from any
/// message evaluates, under the shell's quoting rules, to exactly that
/// message, whatever quotes, backslashes or newlines it contains; in
/// particular its first line is preserved literally.
pub proof fn lemma_escape_round_trip(s: Seq<char>)
    ensures
        sh_word_value(sq_quoted(s)) == Some(s),
        crate::text::first_line_of(sh_word_value(sq_quoted(s)).unwrap())
            == crate::text::first_line_of(s),
    decreases s.len(),
{
    let w = sq_quoted(s);
    let e = sq_escaped(s);
    let k = first_pos(s, '\'') as int;
    lemma_first_pos_bounds(s, '\'');
    lemma_sq_escaped_split(s);
    assert(w[0] == '\'');
    let inner = w.skip(1);
    assert(inner =~= e + seq!['\'']);
    if k == s.len() {
        // no quote in s: the word is '<s>'
        assert(inner =~= s + seq!['\'']);
        lemma_first_pos_from_scan(inner, '\'', s.len() as int);
        let q = first_pos(inner, '\'') as int;
        assert(q == s.len());
        assert(q < w.len() - 1);
        assert(inner.skip(1 - 1).skip(q + 1) =~= Seq::<char>::empty());
        assert(inner.skip(q + 1) =~= Seq::<char>::empty());
        assert(sh_word_value(inner.skip(q + 1)) == Some(Seq::<char>::empty()));
        assert(inner.take(q) =~= s);
        assert(s + Seq::<char>::empty() =~= s);
        assert(sh_word_value(w) == Some(s));
    } else {
        // s = a + ' + b; the word is '<a>'\''<escaped b>'
        let a = s.take(k);
        let b = s.skip(k + 1);
        assert(e == a + seq!['\'', '\\', '\'', '\''] + sq_escaped(b));
        assert forall|j: int| 0 <= j < k implies inner[j] != '\'' by {
            assert(inner[j] == a[j]);
            assert(a[j] == s[j]);
        }
        assert(inner[k] == '\'');
        lemma_first_pos_from_scan(inner, '\'', k);
        let q = first_pos(inner, '\'') as int;
        assert(q == k);
        assert(inner.len() == e.len() + 1);
        assert(e.len() >= k + 4);
        assert(q < w.len() - 1);
        let rest = inner.skip(q + 1);
        assert(rest =~= seq!['\\', '\'', '\''] + sq_escaped(b) + seq!['\'']);
        assert(rest[0] == '\\');
        assert(rest[1] == '\'');
        assert(rest.len() >= 3);
        assert(rest.skip(2) =~= sq_quoted(b));
        lemma_escape_round_trip(b);
        assert(sh_word_value(rest) == Some(seq!['\''] + b));
        assert(inner.take(q) =~= a);
        assert(sh_word_value(w) == Some(a + (seq!['\''] + b)));
        assert(a + (seq!['\''] + b) =~= s);
    }
}

/// `s` with every single quote escaped for embedding in a single-quoted
/// shell word.
pub fn escape_single_quotes(s: &str) -> (r: String)
    ensures
        r@ == sq_escaped(s@),
{
    let n: usize = s.unicode_len();
    let mut out = String::new();
    proof {
        assert(s@.take(0) =~= Seq::<char>::empty());
    }
    let mut i: usize = 0;
    while i < n
        invariant
            0 <= i <= n,
            n == s@.len(),
            out@ == sq_escaped(s@.take(i as int)),
        decreases n - i,
    {
        let c = s.get_char(i);
        if c == '\'' {
            out.append("'\\''");
        } else {
            push_char(&mut out, c);
        }
        proof {
            let pre = s@.take(i as int);
            let one = seq![s@[i as int]];
            lemma_sq_escaped_append(pre, one);
            assert(s@.take(i + 1) =~= pre + one);
            assert(one.skip(1) =~= Seq::<char>::empty());
            assert(sq_escaped(one.skip(1)) == Seq::<char>::empty());
            if c == '\'' {
                reveal_strlit("'\\''");
                assert(one[0] == '\'');
                assert(sq_escaped(one) == seq!['\'', '\\', '\'', '\''] + sq_escaped(one.skip(1)));
                assert(sq_escaped(one) =~= seq!['\'', '\\', '\'', '\'']);
                assert("'\\''"@ =~= seq!['\'', '\\', '\'', '\'']);
            } else {
                assert(sq_escaped(one) == seq![one[0]] + sq_escaped(one.skip(1)));
                assert(sq_escaped(one) =~= one);
                assert(out@ =~= sq_escaped(pre) + one);
            }
        }
        i = i + 1;
    }
    proof {
        assert(s@.take(n as int) =~= s@);
    }
    out
}

} // verus!
