//! The env-file line format.
//!
//! A per-service env file holds newline-delimited `KEY=VALUE` entries. The
//! provisioner takes the file's lines, in order, as the environment of the new
//! container; absence of the file means the environment is simply omitted.

use vstd::prelude::*;
use vstd::string::StrSliceExecFns;

verus! {

/// A line with a trailing carriage return dropped: `\r\n` endings count as
/// plain line endings.
pub open spec fn strip_cr(l: Seq<char>) -> Seq<char> {
    if l.len() > 0 && l.last() == '\r' {
        l.drop_last()
    } else {
        l
    }
}

/// The lines of `cur + rest`, where `cur` is a partial first line with no
/// newline in it: a line ends at each `\n`, and a final segment is a line
/// only when it is non-empty (a trailing line ending adds no empty line).
pub open spec fn lines_from(cur: Seq<char>, rest: Seq<char>) -> Seq<Seq<char>>
    decreases rest.len(),
{
    if rest.len() == 0 {
        if cur.len() == 0 {
            Seq::empty()
        } else {
            seq![cur]
        }
    } else if rest[0] == '\n' {
        seq![strip_cr(cur)] + lines_from(Seq::empty(), rest.drop_first())
    } else {
        lines_from(cur.push(rest[0]), rest.drop_first())
    }
}

/// The env entries read from file content: its lines, in order.
pub open spec fn env_lines_spec(content: Seq<char>) -> Seq<Seq<char>> {
    lines_from(Seq::empty(), content)
}

/// Splits env file content into its entries, one per line, in order.
pub fn parse_env_lines(content: &str) -> (r: Vec<String>)
    ensures
        r.deep_view() == env_lines_spec(content@),
{
    let n = content.unicode_len();
    let mut out: Vec<String> = Vec::new();
    let mut start: usize = 0;
    let mut i: usize = 0;
    proof {
        assert(out.deep_view() =~= Seq::<Seq<char>>::empty());
        assert(content@.subrange(0, 0) =~= Seq::<char>::empty());
        assert(content@.skip(0) =~= content@);
        assert(Seq::<Seq<char>>::empty() + env_lines_spec(content@) =~= env_lines_spec(content@));
    }
    while i < n
        invariant
            n == content@.len(),
            start <= i <= n,
            env_lines_spec(content@) == out.deep_view() + lines_from(
                content@.subrange(start as int, i as int),
                content@.skip(i as int),
            ),
        decreases n - i,
    {
        let ghost cur = content@.subrange(start as int, i as int);
        let ghost rest = content@.skip(i as int);
        proof {
            assert(rest[0] == content@[i as int]);
        }
        let c = content.get_char(i);
        if c == '\n' {
            let end = if i > start && content.get_char(i - 1) == '\r' {
                i - 1
            } else {
                i
            };
            let piece = content.substring_char(start, end);
            let ghost pre_out = out.deep_view();
            out.push(piece.to_owned());
            proof {
                if end == i - 1 {
                    assert(cur.last() == '\r');
                }
                assert(piece@ =~= strip_cr(cur));
                assert(out.deep_view() =~= pre_out.push(strip_cr(cur)));
                assert(rest.drop_first() =~= content@.skip(i as int + 1));
                assert(lines_from(cur, rest) == seq![strip_cr(cur)] + lines_from(
                    Seq::empty(),
                    rest.drop_first(),
                ));
                assert(pre_out + lines_from(cur, rest) =~= out.deep_view() + lines_from(
                    Seq::empty(),
                    content@.skip(i as int + 1),
                ));
                assert(content@.subrange(i as int + 1, i as int + 1) =~= Seq::<char>::empty());
            }
            start = i + 1;
        } else {
            proof {
                assert(cur.push(content@[i as int]) =~= content@.subrange(
                    start as int,
                    i as int + 1,
                ));
                assert(rest.drop_first() =~= content@.skip(i as int + 1));
                assert(lines_from(cur, rest) == lines_from(
                    cur.push(rest[0]),
                    rest.drop_first(),
                ));
            }
        }
        i += 1;
    }
    let ghost cur = content@.subrange(start as int, n as int);
    proof {
        assert(content@.skip(n as int).len() == 0);
    }
    if start < n {
        let piece = content.substring_char(start, n);
        let ghost pre_out = out.deep_view();
        out.push(piece.to_owned());
        proof {
            assert(piece@ =~= cur);
            assert(cur.len() > 0);
            assert(lines_from(cur, content@.skip(n as int)) == seq![cur]);
            assert(out.deep_view() =~= pre_out.push(cur));
            assert(pre_out + seq![cur] =~= pre_out.push(cur));
        }
    } else {
        proof {
            assert(cur.len() == 0);
            assert(lines_from(cur, content@.skip(n as int)) =~= Seq::<Seq<char>>::empty());
            assert(out.deep_view() + Seq::<Seq<char>>::empty() =~= out.deep_view());
        }
    }
    out
}

} // verus!
