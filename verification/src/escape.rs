//! Shell single-quote escaping for `ExecStart=` lines.
//!
//! A command line is embedded in a unit file as `/bin/sh -c '<command>'`.
//! Any single quote inside the command is replaced by the sequence `'\''`
//! (close the quote, emit an escaped quote, reopen the quote), so that a
//! POSIX shell reading the quoted word recovers the original command
//! exactly.

use vstd::prelude::*;

verus! {

/// What one character of the command becomes inside the quoted word.
pub open spec fn esc_char(c: char) -> Seq<char> {
    if c == '\'' {
        seq!['\'', '\\', '\'', '\'']
    } else {
        seq![c]
    }
}

/// The whole command with every single quote escaped.
pub open spec fn escaped(s: Seq<char>) -> Seq<char>
    decreases s.len(),
{
    if s.len() == 0 {
        Seq::empty()
    } else {
        esc_char(s[0]) + escaped(s.skip(1))
    }
}

proof fn lemma_escaped_snoc(s: Seq<char>, c: char)
    ensures
        escaped(s.push(c)) == escaped(s) + esc_char(c),
    decreases s.len(),
{
    if s.len() == 0 {
        assert(s.push(c).skip(1) =~= Seq::<char>::empty());
        assert(s.push(c)[0] == c);
        assert(escaped(Seq::<char>::empty()) =~= Seq::<char>::empty());
        assert(escaped(s.push(c)) =~= esc_char(c) + Seq::<char>::empty());
        assert(escaped(s) =~= Seq::<char>::empty());
        assert(escaped(s.push(c)) =~= escaped(s) + esc_char(c));
    } else {
        assert(s.push(c).skip(1) =~= s.skip(1).push(c));
        lemma_escaped_snoc(s.skip(1), c);
        assert(escaped(s.push(c)) =~= escaped(s) + esc_char(c));
    }
}

/// Replaces every `'` in `s` by `'\''`, the escaping used when the value is
/// wrapped in single quotes on an `ExecStart=` line.
pub fn escape_single_quotes(s: &str) -> (r: String)
    ensures
        r@ == escaped(s@),
{
    let n = s.unicode_len();
    let mut out = String::new();
    let mut i: usize = 0;
    while i < n
        invariant
            i <= n,
            n == s@.len(),
            out@ == escaped(s@.take(i as int)),
        decreases n - i,
    {
        let c = s.get_char(i);
        if c == '\'' {
            out.append("'\\''");
            proof {
                reveal_strlit("'\\''");
                assert("'\\''"@ =~= esc_char(c));
            }
        } else {
            let piece = s.substring_char(i, i + 1);
            out.append(piece);
            proof {
                assert(piece@ =~= esc_char(c));
            }
        }
        proof {
            lemma_escaped_snoc(s@.take(i as int), c);
            assert(s@.take(i as int + 1) =~= s@.take(i as int).push(c));
        }
        i = i + 1;
    }
    proof {
        assert(s@.take(n as int) =~= s@);
    }
    out
}

/// How a POSIX shell reads a word, restricted to the constructs the escaper
/// emits: inside single quotes every character is literal and `'` closes the
/// quote; outside, `'` opens a quote, `\` makes the next character literal,
/// and any other character is literal.
pub open spec fn shell_sq_eval(t: Seq<char>, in_quote: bool) -> Seq<char>
    decreases t.len(),
{
    if t.len() == 0 {
        Seq::empty()
    } else {
        let c = t[0];
        let rest = t.skip(1);
        if in_quote {
            if c == '\'' {
                shell_sq_eval(rest, false)
            } else {
                seq![c] + shell_sq_eval(rest, true)
            }
        } else {
            if c == '\'' {
                shell_sq_eval(rest, true)
            } else if c == '\\' {
                if rest.len() == 0 {
                    Seq::empty()
                } else {
                    seq![rest[0]] + shell_sq_eval(rest.skip(1), false)
                }
            } else {
                seq![c] + shell_sq_eval(rest, false)
            }
        }
    }
}

proof fn lemma_eval_escaped(s: Seq<char>)
    ensures
        shell_sq_eval(escaped(s) + seq!['\''], true) == s,
    decreases s.len(),
{
    let t = escaped(s) + seq!['\''];
    if s.len() == 0 {
        assert(t =~= seq!['\'']);
        assert(t[0] == '\'');
        assert(t.skip(1) =~= Seq::<char>::empty());
        assert(shell_sq_eval(t.skip(1), false) =~= Seq::<char>::empty());
        assert(shell_sq_eval(t, true) =~= s);
    } else {
        let c = s[0];
        let tail = escaped(s.skip(1)) + seq!['\''];
        lemma_eval_escaped(s.skip(1));
        if c == '\'' {
            assert(t =~= seq!['\'', '\\', '\'', '\''] + tail);
            assert(t[0] == '\'');
            let u = t.skip(1);
            assert(u =~= seq!['\\', '\'', '\''] + tail);
            assert(shell_sq_eval(t, true) == shell_sq_eval(u, false));
            assert(u[0] == '\\');
            let r = u.skip(1);
            assert(r =~= seq!['\'', '\''] + tail);
            assert(r.len() > 0 && r[0] == '\'');
            assert(shell_sq_eval(u, false) == seq![r[0]] + shell_sq_eval(r.skip(1), false));
            let v = r.skip(1);
            assert(v =~= seq!['\''] + tail);
            assert(v[0] == '\'');
            assert(shell_sq_eval(v, false) == shell_sq_eval(v.skip(1), true));
            assert(v.skip(1) =~= tail);
            assert(shell_sq_eval(t, true) =~= seq!['\''] + s.skip(1));
            assert(seq![c] + s.skip(1) =~= s);
        } else {
            assert(t =~= seq![c] + tail);
            assert(t[0] == c);
            assert(t.skip(1) =~= tail);
            assert(shell_sq_eval(t, true) == seq![c] + shell_sq_eval(t.skip(1), true));
            assert(shell_sq_eval(t, true) =~= seq![c] + shell_sq_eval(tail, true));
            assert(seq![c] + s.skip(1) =~= s);
        }
    }
}

/// Law: wrapping the escaped command in single quotes and letting a POSIX
/// shell read the quoted word reproduces the original command exactly.
pub proof fn lemma_escape_round_trip(s: Seq<char>)
    ensures
        shell_sq_eval(seq!['\''] + escaped(s) + seq!['\''], false) == s,
{
    let t = seq!['\''] + escaped(s) + seq!['\''];
    assert(t[0] == '\'');
    assert(t.skip(1) =~= escaped(s) + seq!['\'']);
    lemma_eval_escaped(s);
}

} // verus!
