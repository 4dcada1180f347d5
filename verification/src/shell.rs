//! Quoting values for a POSIX shell.

use vstd::prelude::*;

use crate::text::chars_of;

verus! {

/// `c` means itself to a shell, wherever it stands in a word.
pub open spec fn is_plain(c: char) -> bool {
    ||| 'A' as int <= c as int <= 'Z' as int
    ||| 'a' as int <= c as int <= 'z' as int
    ||| '0' as int <= c as int <= '9' as int
    ||| c == '_'
    ||| c == '/'
    ||| c == ':'
    ||| c == '.'
    ||| c == '-'
}

/// Every character is plain.
pub open spec fn all_plain(s: Seq<char>) -> bool {
    forall|i: int| 0 <= i < s.len() ==> is_plain(#[trigger] s[i])
}

/// `c` as it stands between single quotes: a single quote closes them, stands
/// between double quotes, and opens them again.
pub open spec fn quoted_char(c: char) -> Seq<char> {
    if c == '\'' {
        seq!['\'', '"', '\'', '"', '\'']
    } else {
        seq![c]
    }
}

/// `s` as it stands between single quotes.
pub open spec fn quoted(s: Seq<char>) -> Seq<char>
    decreases s.len(),
{
    if s.len() == 0 {
        s
    } else {
        quoted_char(s[0]) + quoted(s.drop_first())
    }
}

/// `s` as one word of a shell: as it is where every character is plain, and in
/// single quotes where one is not.
pub open spec fn escaped(s: Seq<char>) -> Seq<char> {
    if all_plain(s) {
        s
    } else {
        seq!['\''] + quoted(s) + seq!['\'']
    }
}

fn plain(c: char) -> (r: bool)
    ensures
        r == is_plain(c),
{
    ('A' <= c && c <= 'Z') || ('a' <= c && c <= 'z') || ('0' <= c && c <= '9') || c == '_' || c
        == '/' || c == ':' || c == '.' || c == '-'
}

/// Writes `value` as one word of a shell.
pub fn shell_escape(value: &str) -> (r: String)
    ensures
        r@ == escaped(value@),
{
    let chars = chars_of(value);
    let mut i: usize = 0;
    while i < chars.len() && plain(chars[i])
        invariant
            chars@ == value@,
            i <= chars@.len(),
            forall|j: int| 0 <= j < i ==> is_plain(#[trigger] chars@[j]),
        decreases chars@.len() - i,
    {
        i += 1;
    }
    if i == chars.len() {
        return value.to_string();
    }
    assert(!all_plain(value@)) by {
        assert(!is_plain(value@[i as int]));
    }
    let mut out = String::new();
    out.push('\'');
    let mut k: usize = 0;
    assert(chars@.skip(0) == chars@);
    while k < chars.len()
        invariant
            chars@ == value@,
            k <= chars@.len(),
            out@ + quoted(chars@.skip(k as int)) == seq!['\''] + quoted(value@),
        decreases chars@.len() - k,
    {
        let c = chars[k];
        let ghost before = out@;
        if c == '\'' {
            out.push('\'');
            out.push('"');
            out.push('\'');
            out.push('"');
            out.push('\'');
        } else {
            out.push(c);
        }
        proof {
            assert(out@ == before + quoted_char(c));
            assert(chars@.skip(k as int).drop_first() == chars@.skip(k + 1));
            assert(out@ + quoted(chars@.skip(k + 1)) == before + (quoted_char(c) + quoted(
                chars@.skip(k + 1),
            )));
        }
        k += 1;
    }
    assert(chars@.skip(k as int).len() == 0);
    out.push('\'');
    out
}

/// Where in a word a shell stands.
pub enum Quoting {
    /// Outside quotes.
    Bare,
    /// Between single quotes.
    Single,
    /// Between double quotes.
    Double,
}

/// The value that a shell takes from the word at the front of `s`, up to the first
/// line end outside quotes, and what follows that line end. There is none where
/// a quote stays open or a character would mean more than itself.
pub open spec fn shell_line(s: Seq<char>, mode: Quoting) -> Option<(Seq<char>, Seq<char>)>
    decreases s.len(),
{
    if s.len() == 0 {
        None
    } else {
        let c = s[0];
        let rest = s.drop_first();
        match mode {
            Quoting::Bare => if c == '\n' {
                Some((seq![], rest))
            } else if c == '\'' {
                shell_line(rest, Quoting::Single)
            } else if c == '"' {
                shell_line(rest, Quoting::Double)
            } else if is_plain(c) {
                literal_then(c, shell_line(rest, Quoting::Bare))
            } else {
                None
            },
            Quoting::Single => if c == '\'' {
                shell_line(rest, Quoting::Bare)
            } else {
                literal_then(c, shell_line(rest, Quoting::Single))
            },
            Quoting::Double => if c == '"' {
                shell_line(rest, Quoting::Bare)
            } else if c == '$' || c == '`' || c == '\\' || c == '!' {
                None
            } else {
                literal_then(c, shell_line(rest, Quoting::Double))
            },
        }
    }
}

/// `c` in front of the word at the front of a line.
pub open spec fn literal_then(
    c: char,
    line: Option<(Seq<char>, Seq<char>)>,
) -> Option<(Seq<char>, Seq<char>)> {
    match line {
        Some((word, rest)) => Some((seq![c] + word, rest)),
        None => None,
    }
}

proof fn lemma_plain_word(s: Seq<char>, rest: Seq<char>)
    requires
        all_plain(s),
    ensures
        shell_line(s + seq!['\n'] + rest, Quoting::Bare) == Some((s, rest)),
    decreases s.len(),
{
    let line = s + seq!['\n'] + rest;
    if s.len() > 0 {
        assert(is_plain(s[0]));
        assert(line[0] == s[0]);
        assert forall|i: int| 0 <= i < s.drop_first().len() implies is_plain(
            #[trigger] s.drop_first()[i],
        ) by {
            assert(s.drop_first()[i] == s[i + 1]);
        }
        assert(line.drop_first() == s.drop_first() + seq!['\n'] + rest);
        lemma_plain_word(s.drop_first(), rest);
        assert(seq![s[0]] + s.drop_first() == s);
    } else {
        assert(s == Seq::<char>::empty());
        assert(line[0] == '\n');
        assert(line.drop_first() == rest);
    }
}

proof fn lemma_quoted_word(s: Seq<char>, rest: Seq<char>)
    ensures
        shell_line(quoted(s) + seq!['\'', '\n'] + rest, Quoting::Single) == Some((s, rest)),
    decreases s.len(),
{
    let line = quoted(s) + seq!['\'', '\n'] + rest;
    if s.len() == 0 {
        assert(s == Seq::<char>::empty());
        let l1 = line.drop_first();
        assert(line[0] == '\'' && l1[0] == '\n');
        assert(l1.drop_first() == rest);
        assert(shell_line(l1, Quoting::Bare) == Some((s, rest)));
    } else {
        let tail = s.drop_first();
        let more = quoted(tail) + seq!['\'', '\n'] + rest;
        lemma_quoted_word(tail, rest);
        assert(seq![s[0]] + tail == s);
        assert(line == quoted_char(s[0]) + more);
        if s[0] == '\'' {
            let l1 = line.drop_first();
            let l2 = l1.drop_first();
            let l3 = l2.drop_first();
            let l4 = l3.drop_first();
            assert(l4.drop_first() == more);
            assert(line[0] == '\'' && l1[0] == '"' && l2[0] == '\'' && l3[0] == '"' && l4[0]
                == '\'');
            assert(shell_line(l4, Quoting::Bare) == Some((tail, rest)));
            assert(shell_line(l3, Quoting::Double) == Some((tail, rest)));
            assert(shell_line(l2, Quoting::Double) == literal_then('\'', Some((tail, rest))));
            assert(shell_line(l1, Quoting::Bare) == Some((s, rest)));
        } else {
            assert(line.drop_first() == more);
            assert(line[0] == s[0]);
        }
    }
}

/// A shell that reads an escaped value at the end of a line takes the value
/// itself from it, whatever characters it holds.
pub proof fn law_shell_reads_back(value: Seq<char>, rest: Seq<char>)
    ensures
        shell_line(escaped(value) + seq!['\n'] + rest, Quoting::Bare) == Some((value, rest)),
{
    if all_plain(value) {
        lemma_plain_word(value, rest);
    } else {
        lemma_quoted_word(value, rest);
        let line = escaped(value) + seq!['\n'] + rest;
        assert(line.drop_first() == quoted(value) + seq!['\'', '\n'] + rest);
        assert(line[0] == '\'');
    }
}

/// Different values are escaped to different words.
pub proof fn law_escape_is_injective(a: Seq<char>, b: Seq<char>)
    requires
        escaped(a) == escaped(b),
    ensures
        a == b,
{
    law_shell_reads_back(a, seq![]);
    law_shell_reads_back(b, seq![]);
}

/// The characters that are left without quotes: letters, digits, and five others that
/// mean nothing to a shell.
pub proof fn law_plain_characters(c: char)
    ensures
        is_plain(c) <==> "ABCDEFGHIJKLMNOPQRSTUVWXYZabcdefghijklmnopqrstuvwxyz0123456789_/:.-"@.contains(
        c),
{
    reveal_strlit("ABCDEFGHIJKLMNOPQRSTUVWXYZabcdefghijklmnopqrstuvwxyz0123456789_/:.-");
    let all = "ABCDEFGHIJKLMNOPQRSTUVWXYZabcdefghijklmnopqrstuvwxyz0123456789_/:.-"@;
    let n = c as int;
    if is_plain(c) {
        let k = if 'A' as int <= n <= 'Z' as int {
            n - 'A' as int
        } else if 'a' as int <= n <= 'z' as int {
            n - 'a' as int + 26
        } else if '0' as int <= n <= '9' as int {
            n - '0' as int + 52
        } else if c == '_' {
            62
        } else if c == '/' {
            63
        } else if c == ':' {
            64
        } else if c == '.' {
            65
        } else {
            66
        };
        assert(all[k] == c);
    }
}

proof fn lemma_quoted_concat(a: Seq<char>, b: Seq<char>)
    ensures
        quoted(a + b) == quoted(a) + quoted(b),
    decreases a.len(),
{
    if a.len() == 0 {
        assert(a + b =~= b);
        assert(quoted(a) + quoted(b) =~= quoted(b));
    } else {
        assert((a + b).drop_first() =~= a.drop_first() + b);
        assert((a + b)[0] == a[0]);
        lemma_quoted_concat(a.drop_first(), b);
        assert(quoted(a + b) =~= quoted(a) + quoted(b));
    }
}

proof fn lemma_quoted_without_quotes(s: Seq<char>)
    requires
        forall|i: int| 0 <= i < s.len() ==> s[i] != '\'',
    ensures
        quoted(s) == s,
    decreases s.len(),
{
    if s.len() > 0 {
        let tail = s.drop_first();
        assert forall|i: int| 0 <= i < tail.len() implies tail[i] != '\'' by {
            assert(tail[i] == s[i + 1]);
        }
        lemma_quoted_without_quotes(tail);
        assert(seq![s[0]] + tail =~= s);
    }
}

/// A value is written as it is where all its characters are plain, and in single
/// quotes where one is not; between the quotes each single quote stands between double
/// quotes, and every other character as it is.
pub proof fn law_how_a_value_is_written(value: &str, r: String, a: Seq<char>, b: Seq<char>)
    requires
        call_ensures(shell_escape, (value,), r),
    ensures
        (forall|i: int| 0 <= i < value@.len() ==> is_plain(#[trigger] value@[i])) ==> r@ == value@,
        (exists|i: int| 0 <= i < value@.len() && !is_plain(#[trigger] value@[i])) ==> r@
            == seq!['\''] + quoted(value@) + seq!['\''],
        (forall|i: int| 0 <= i < a.len() ==> a[i] != '\'') ==> quoted(a + seq!['\''] + b) == a
            + "'\"'\"'"@ + quoted(b),
        (forall|i: int| 0 <= i < a.len() ==> a[i] != '\'') ==> quoted(a) == a,
{
    if forall|i: int| 0 <= i < a.len() ==> a[i] != '\'' {
        lemma_quoted_without_quotes(a);
        let q = seq!['\''];
        assert(a + q + b =~= a + (q + b));
        lemma_quoted_concat(a, q + b);
        assert((q + b).drop_first() =~= b);
        assert((q + b)[0] == '\'');
        reveal_strlit("'\"'\"'");
        assert("'\"'\"'"@ =~= quoted_char('\''));
        assert(quoted(a + q + b) =~= a + "'\"'\"'"@ + quoted(b));
    }
}

/// What a shell takes from a line: text between single quotes as it is, and no
/// character that would mean more than itself outside of them.
pub proof fn law_how_a_shell_reads(s: Seq<char>, rest: Seq<char>, c: char)
    requires
        forall|i: int| 0 <= i < s.len() ==> s[i] != '\'',
    ensures
        shell_line(seq!['\''] + s + seq!['\'', '\n'] + rest, Quoting::Bare) == Some((s, rest)),
        " \t$`\\|&;<>()*?[]#~=%!{}^"@.contains(c) ==> shell_line(seq![c] + rest, Quoting::Bare)
            is None,
{
    lemma_quoted_without_quotes(s);
    lemma_quoted_word(s, rest);
    let line = seq!['\''] + s + seq!['\'', '\n'] + rest;
    assert(line.drop_first() =~= quoted(s) + seq!['\'', '\n'] + rest);
    assert(line[0] == '\'');
    let special = " \t$`\\|&;<>()*?[]#~=%!{}^"@;
    if special.contains(c) {
        reveal_strlit(" \t$`\\|&;<>()*?[]#~=%!{}^");
        assert(!is_plain(c) && c != '\n' && c != '\'' && c != '"');
        assert((seq![c] + rest)[0] == c);
    }
}

} // verus!
