//! Quoting for the shell: how a text is written so that a shell reads it
//! back as one word with exactly that text, whatever the text holds.
//!
//! A text is put between single quotes, inside which a shell takes every
//! character as it stands. A single quote inside the text ends the quoted
//! stretch, stands by itself behind a backslash, and begins the next
//! quoted stretch.

use crate::text::chars_of;
use vstd::prelude::*;
use vstd::string::StringExecFns;
use vstd::string::StrSliceExecFns;

verus! {

/// One character of a text as it stands in a quoted stretch: itself, or
/// for a single quote the four characters `'\''`.
pub open spec fn escaped_char(c: char) -> Seq<char> {
    if c == '\'' {
        seq!['\'', '\\', '\'', '\'']
    } else {
        seq![c]
    }
}

/// A text as it stands between the outer quotes.
pub open spec fn escaped(s: Seq<char>) -> Seq<char>
    decreases s.len(),
{
    if s.len() == 0 {
        Seq::empty()
    } else {
        escaped(s.drop_last()) + escaped_char(s.last())
    }
}

/// A text quoted for the shell.
pub open spec fn shell_quoted(s: Seq<char>) -> Seq<char> {
    seq!['\''] + escaped(s) + seq!['\'']
}

/// `c` in front of a text that was read, if one was read.
pub open spec fn with_first(c: char, rest: Option<Seq<char>>) -> Option<Seq<char>> {
    match rest {
        Some(v) => Some(seq![c] + v),
        None => None,
    }
}

/// What a shell reads from `text` as one word, beginning inside a quoted
/// stretch (`quoted`) or outside of one. Inside, every character counts as
/// it stands, up to the closing quote. Outside, only an opening quote and
/// a character behind a backslash are read; anything else there might
/// mean something to the shell, so no word is read, nor is one read from a
/// text that ends inside a quoted stretch.
pub open spec fn read_word(text: Seq<char>, quoted: bool) -> Option<Seq<char>>
    decreases text.len(),
{
    if text.len() == 0 {
        if quoted {
            None
        } else {
            Some(Seq::empty())
        }
    } else if quoted {
        if text[0] == '\'' {
            read_word(text.drop_first(), false)
        } else {
            with_first(text[0], read_word(text.drop_first(), true))
        }
    } else if text[0] == '\'' {
        read_word(text.drop_first(), true)
    } else if text[0] == '\\' && text.len() >= 2 {
        with_first(text[1], read_word(text.skip(2), false))
    } else {
        None
    }
}

proof fn lemma_escaped_front(s: Seq<char>)
    requires
        s.len() > 0,
    ensures
        escaped(s) == escaped_char(s[0]) + escaped(s.drop_first()),
    decreases s.len(),
{
    if s.len() == 1 {
        assert(s.drop_last() =~= Seq::<char>::empty());
        assert(s.drop_first() =~= Seq::<char>::empty());
        assert(escaped(s) =~= escaped_char(s[0]) + escaped(s.drop_first()));
    } else {
        let front = s.drop_last();
        lemma_escaped_front(front);
        assert(front[0] == s[0]);
        assert(front.drop_first() =~= s.drop_first().drop_last());
        assert(s.drop_first().last() == s.last());
        assert(escaped(s) =~= escaped_char(s[0]) + escaped(s.drop_first()));
    }
}

proof fn lemma_read_quoted(s: Seq<char>)
    ensures
        read_word(escaped(s) + seq!['\''], true) == Some(s),
    decreases s.len(),
{
    let text = escaped(s) + seq!['\''];
    if s.len() == 0 {
        assert(text.drop_first() =~= Seq::<char>::empty());
        assert(read_word(text.drop_first(), false) == Some(Seq::<char>::empty()));
        assert(s =~= Seq::<char>::empty());
    } else {
        let rest = s.drop_first();
        let tail = escaped(rest) + seq!['\''];
        lemma_escaped_front(s);
        lemma_read_quoted(rest);
        if s[0] == '\'' {
            assert(text =~= seq!['\'', '\\', '\'', '\''] + tail);
            let t1 = text.drop_first();
            assert(t1 =~= seq!['\\', '\'', '\''] + tail);
            let t2 = t1.skip(2);
            assert(t2 =~= seq!['\''] + tail);
            assert(t2.drop_first() =~= tail);
            assert(read_word(t2, false) == read_word(tail, true));
            assert(read_word(t1, false) == with_first('\'', read_word(t2, false)));
            assert(read_word(text, true) == read_word(t1, false));
            assert(seq!['\''] + rest =~= s);
        } else {
            assert(text =~= seq![s[0]] + tail);
            assert(text.drop_first() =~= tail);
            assert(read_word(text, true) == with_first(s[0], read_word(tail, true)));
            assert(seq![s[0]] + rest =~= s);
        }
    }
}

/// A shell reads a quoted text back as one word that holds the text, for
/// every text: quotes, blanks, semicolons and dollar signs in it are
/// characters like any other.
pub proof fn law_quoted_reads_back(s: Seq<char>)
    ensures
        read_word(shell_quoted(s), false) == Some(s),
{
    let text = shell_quoted(s);
    assert(text[0] == '\'');
    assert(text.drop_first() =~= escaped(s) + seq!['\'']);
    lemma_read_quoted(s);
}

/// A text without a single quote is quoted by putting it between single
/// quotes, and nothing else.
pub proof fn law_plain_text_quoted(s: Seq<char>)
    requires
        forall|i: int| 0 <= i < s.len() ==> s[i] != '\'',
    ensures
        escaped(s) == s,
        shell_quoted(s) == seq!['\''] + s + seq!['\''],
    decreases s.len(),
{
    if s.len() > 0 {
        law_plain_text_quoted(s.drop_last());
        assert(s.drop_last() + seq![s.last()] =~= s);
    }
}

/// Quotes `s` for the shell.
pub fn shell_quote(s: &str) -> (r: String)
    ensures
        r@ == shell_quoted(s@),
{
    proof {
        reveal_strlit("'");
        reveal_strlit("'\\''");
        assert("'"@ =~= seq!['\'']);
        assert("'\\''"@ =~= seq!['\'', '\\', '\'', '\'']);
    }
    let chars = chars_of(s);
    let mut r = String::from_str("'");
    let mut i: usize = 0;
    assert(s@.take(0) =~= Seq::<char>::empty());
    while i < chars.len()
        invariant
            i <= chars@.len(),
            chars@ == s@,
            "'\\''"@ == seq!['\'', '\\', '\'', '\''],
            r@ == seq!['\''] + escaped(s@.take(i as int)),
        decreases chars@.len() - i,
    {
        proof {
            assert(s@.take(i + 1).drop_last() =~= s@.take(i as int));
            assert(s@.take(i + 1).last() == s@[i as int]);
        }
        if chars[i] == '\'' {
            r.append("'\\''");
        } else {
            let one = s.substring_char(i, i + 1);
            assert(one@ =~= seq![s@[i as int]]);
            r.append(one);
        }
        assert(r@ =~= seq!['\''] + escaped(s@.take(i + 1)));
        i = i + 1;
    }
    assert(s@.take(chars@.len() as int) =~= s@);
    r.append("'");
    r
}

} // verus!
