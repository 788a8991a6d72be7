//! The single-use promise ledger.
//!
//! The ledger is a text file holding one timer name per line.  A name is
//! recorded when some line, stripped of surrounding whitespace, equals it.
//! The library deduplicates before appending: a name already recorded is
//! not appended again.

use vstd::prelude::*;
use crate::trim::{trimmed, trimmed_slice, str_eq};

verus! {

/// Whether some line of the remaining content `s`, read with `cur` as the
/// part of the current line already consumed, trims to `name`.
pub open spec fn ledger_has_from(s: Seq<char>, cur: Seq<char>, name: Seq<char>) -> bool
    decreases s.len(),
{
    if s.len() == 0 {
        trimmed(cur) == name
    } else if s[0] == '\n' {
        trimmed(cur) == name || ledger_has_from(s.skip(1), Seq::empty(), name)
    } else {
        ledger_has_from(s.skip(1), cur.push(s[0]), name)
    }
}

/// Whether the ledger content records `name`: some newline-delimited line
/// trims to it.
pub open spec fn spec_ledger_has(content: Seq<char>, name: Seq<char>) -> bool {
    ledger_has_from(content, Seq::empty(), name)
}

/// Whether the ledger content already records `name`.
pub fn ledger_contains(content: &str, name: &str) -> (r: bool)
    ensures
        r == spec_ledger_has(content@, name@),
{
    let n = content.unicode_len();
    let mut start: usize = 0;
    let mut i: usize = 0;
    proof {
        assert(content@.skip(0) =~= content@);
        assert(content@.subrange(0, 0) =~= Seq::<char>::empty());
    }
    while i < n
        invariant
            start <= i <= n,
            n == content@.len(),
            spec_ledger_has(content@, name@) == ledger_has_from(
                content@.skip(i as int),
                content@.subrange(start as int, i as int),
                name@,
            ),
        decreases n - i,
    {
        let ghost pre = content@.subrange(start as int, i as int);
        let c = content.get_char(i);
        proof {
            assert(content@.skip(i as int)[0] == c);
            assert(content@.skip(i as int).skip(1) =~= content@.skip(i as int + 1));
        }
        if c == '\n' {
            let (a, b) = trimmed_slice(content, start, i);
            let line = content.substring_char(a, b);
            if str_eq(line, name) {
                proof {
                    assert(trimmed(pre) == name@);
                }
                return true;
            }
            proof {
                assert(trimmed(pre) != name@);
                assert(content@.subrange(i as int + 1, i as int + 1) =~= Seq::<char>::empty());
            }
            start = i + 1;
        } else {
            proof {
                assert(pre.push(c) =~= content@.subrange(start as int, i as int + 1));
            }
        }
        i = i + 1;
    }
    let (a, b) = trimmed_slice(content, start, n);
    let line = content.substring_char(a, b);
    proof {
        assert(content@.skip(n as int) =~= Seq::<char>::empty());
    }
    str_eq(line, name)
}

/// The line appended to the ledger to record `name`.
pub fn ledger_line(name: &str) -> (r: String)
    ensures
        r@ == name@ + "\n"@,
{
    let mut out = String::from_str(name);
    out.append("\n");
    out
}

proof fn lemma_line_match(line: Seq<char>, cur: Seq<char>, rest: Seq<char>, name: Seq<char>)
    requires
        !line.contains('\n'),
        trimmed(cur + line) == name,
        rest.len() == 0 || rest[0] == '\n',
    ensures
        ledger_has_from(line + rest, cur, name),
    decreases line.len(),
{
    if line.len() == 0 {
        assert(cur + line =~= cur);
        assert(line + rest =~= rest);
        if rest.len() == 0 {
        } else {
            assert(rest[0] == '\n');
        }
    } else {
        assert(line[0] != '\n');
        assert((line + rest)[0] == line[0]);
        assert((line + rest).skip(1) =~= line.skip(1) + rest);
        assert(cur.push(line[0]) + line.skip(1) =~= cur + line);
        assert(!line.skip(1).contains('\n')) by {
            if line.skip(1).contains('\n') {
                let i = choose|i: int| 0 <= i < line.skip(1).len() && line.skip(1)[i] == '\n';
                assert(line[i + 1] == '\n');
            }
        }
        lemma_line_match(line.skip(1), cur.push(line[0]), rest, name);
    }
}

proof fn lemma_skip_content(content: Seq<char>, suffix: Seq<char>, cur: Seq<char>, name: Seq<char>)
    requires
        content.len() > 0,
        content.last() == '\n',
        ledger_has_from(suffix, Seq::empty(), name),
    ensures
        ledger_has_from(content + suffix, cur, name),
    decreases content.len(),
{
    let c = content[0];
    assert((content + suffix)[0] == c);
    assert((content + suffix).skip(1) =~= content.skip(1) + suffix);
    if content.len() == 1 {
        assert(c == '\n');
        assert(content.skip(1) + suffix =~= suffix);
    } else if c == '\n' {
        assert(content.skip(1).last() == '\n');
        lemma_skip_content(content.skip(1), suffix, Seq::empty(), name);
    } else {
        assert(content.skip(1).last() == '\n');
        lemma_skip_content(content.skip(1), suffix, cur.push(c), name);
    }
}

/// Law: appending the ledger line for `name` to content that is empty or
/// newline-terminated makes the ledger record `name` — provided the name
/// holds no newline and carries no surrounding whitespace, as every unit
/// name does.
pub proof fn lemma_ledger_append_records(content: Seq<char>, name: Seq<char>)
    requires
        content.len() == 0 || content.last() == '\n',
        !name.contains('\n'),
        trimmed(name) == name,
    ensures
        spec_ledger_has(content + (name + "\n"@), name),
{
    reveal_strlit("\n");
    assert("\n"@ =~= seq!['\n']);
    assert(Seq::<char>::empty() + name =~= name);
    assert(name + "\n"@ =~= name + seq!['\n']);
    lemma_line_match(name, Seq::empty(), seq!['\n'], name);
    if content.len() == 0 {
        assert(content + (name + "\n"@) =~= name + seq!['\n']);
    } else {
        assert(content + (name + "\n"@) =~= content + (name + seq!['\n']));
        lemma_skip_content(content, name + seq!['\n'], Seq::empty(), name);
    }
}

} // verus!
