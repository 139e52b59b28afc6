//! Searching text line by line: splitting into lines as the standard
//! line reader does, substring matching, and a case-insensitive variant
//! that folds case through the standard library.

use vstd::prelude::*;
use vstd::string::*;
use crate::collections::before_newline;
use crate::collections::first_line;

verus! {

/// The views of a vector of borrowed lines.
pub open spec fn views_of(ls: Seq<&str>) -> Seq<Seq<char>> {
    ls.map_values(|l: &str| l@)
}

/// The prefix before a line feed is never longer than the text.
proof fn lemma_before_newline_len(s: Seq<char>)
    ensures
        before_newline(s).len() <= s.len(),
    decreases s.len(),
{
    if s.len() > 0 && s[0] != '\n' {
        lemma_before_newline_len(s.drop_first());
    }
}

/// The lines of a text, as the standard line reader yields them: split
/// at line feeds, a carriage return stripped before each line feed, and
/// no empty final line for a trailing line feed.
pub open spec fn lines_of(s: Seq<char>) -> Seq<Seq<char>>
    decreases s.len(),
    via lines_of_decreases
{
    if s.len() == 0 {
        Seq::empty()
    } else {
        let p = before_newline(s);
        if p.len() == s.len() {
            seq![first_line(s)]
        } else {
            seq![first_line(s)] + lines_of(s.subrange(p.len() as int + 1, s.len() as int))
        }
    }
}

#[via_fn]
proof fn lines_of_decreases(s: Seq<char>) {
    lemma_before_newline_len(s);
}

/// `p` occurs in `t` starting at some position.
pub open spec fn contains_seq(t: Seq<char>, p: Seq<char>) -> bool {
    exists|i: int| 0 <= i <= t.len() - p.len() && #[trigger] t.subrange(i, i + p.len()) == p
}

/// Whether `t` contains `p` as a contiguous run of characters.
pub fn contains_sub(t: &str, p: &str) -> (r: bool)
    ensures
        r == contains_seq(t@, p@),
{
    let tl = t.unicode_len();
    let pl = p.unicode_len();
    if pl > tl {
        return false;
    }
    let mut i: usize = 0;
    while i <= tl - pl
        invariant
            tl == t@.len(),
            pl == p@.len(),
            pl <= tl,
            i <= tl - pl + 1,
            forall|ii: int| 0 <= ii < i ==> #[trigger] t@.subrange(ii, ii + pl) != p@,
        decreases tl - i,
    {
        let mut j: usize = 0;
        while j < pl && t.get_char(i + j) == p.get_char(j)
            invariant
                tl == t@.len(),
                pl == p@.len(),
                i + pl <= tl,
                j <= pl,
                forall|jj: int| 0 <= jj < j ==> t@[i + jj] == p@[jj],
            decreases pl - j,
        {
            j += 1;
        }
        if j == pl {
            proof {
                assert(t@.subrange(i as int, i + pl) =~= p@);
            }
            return true;
        }
        proof {
            assert(t@.subrange(i as int, i + pl)[j as int] == t@[i + j]);
        }
        i += 1;
    }
    false
}

/// Splits the text into its lines, borrowed from the text.
pub fn split_lines<'a>(contents: &'a str) -> (r: Vec<&'a str>)
    ensures
        views_of(r@) == lines_of(contents@),
{
    let mut r: Vec<&str> = Vec::new();
    let len = contents.unicode_len();
    proof {
        assert(contents@.subrange(0, len as int) =~= contents@);
        assert(views_of(r@) + lines_of(contents@) =~~= lines_of(contents@));
    }
    let mut start: usize = 0;
    let mut i: usize = 0;
    while i < len
        invariant
            start <= i <= len,
            len == contents@.len(),
            forall|k: int| start <= k < i ==> contents@[k] != '\n',
            views_of(r@) + lines_of(contents@.subrange(start as int, len as int)) == lines_of(
                contents@,
            ),
        decreases len - i,
    {
        if contents.get_char(i) == '\n' {
            let line = if i > start && contents.get_char(i - 1) == '\r' {
                contents.substring_char(start, i - 1)
            } else {
                contents.substring_char(start, i)
            };
            let ghost old_r = r@;
            r.push(line);
            proof {
                let sub = contents@.subrange(start as int, len as int);
                crate::collections::lemma_before_newline(sub, i - start as int);
                assert(before_newline(sub) == sub.subrange(0, i - start as int));
                assert(sub.subrange(0, i - start as int) =~= contents@.subrange(
                    start as int,
                    i as int,
                ));
                assert(sub.subrange(i - start as int + 1, sub.len() as int) =~= contents@
                    .subrange(i as int + 1, len as int));
                assert(first_line(sub) =~= line@);
                assert(views_of(r@) =~~= views_of(old_r).push(line@));
                assert(views_of(r@) + lines_of(contents@.subrange(i as int + 1, len as int))
                    =~~= views_of(old_r) + lines_of(sub));
            }
            start = i + 1;
        }
        i += 1;
    }
    if start < len {
        let line = contents.substring_char(start, len);
        let ghost old_r = r@;
        r.push(line);
        proof {
            let sub = contents@.subrange(start as int, len as int);
            crate::collections::lemma_before_newline(sub, sub.len() as int);
            assert(before_newline(sub) =~= sub);
            assert(first_line(sub) =~= line@);
            assert(views_of(r@) =~~= views_of(old_r).push(line@));
            assert(views_of(r@) =~~= views_of(old_r) + lines_of(sub));
        }
    } else {
        proof {
            let sub = contents@.subrange(start as int, len as int);
            assert(sub.len() == 0);
            assert(views_of(r@) + lines_of(sub) =~~= views_of(r@));
        }
    }
    r
}

/// The lines among `ls` that contain `q`, in order.
pub open spec fn matching_lines(ls: Seq<Seq<char>>, q: Seq<char>) -> Seq<Seq<char>>
    decreases ls.len(),
{
    if ls.len() == 0 {
        ls
    } else {
        let rest = matching_lines(ls.drop_last(), q);
        if contains_seq(ls.last(), q) {
            rest.push(ls.last())
        } else {
            rest
        }
    }
}

/// The lines whose characters contain `query`, in their original order.
pub fn search<'a>(query: &str, contents: &'a str) -> (r: Vec<&'a str>)
    ensures
        views_of(r@) == matching_lines(lines_of(contents@), query@),
{
    let lines = split_lines(contents);
    let mut out: Vec<&str> = Vec::new();
    let mut i: usize = 0;
    while i < lines.len()
        invariant
            i <= lines@.len(),
            views_of(lines@) == lines_of(contents@),
            views_of(out@) == matching_lines(views_of(lines@).subrange(0, i as int), query@),
        decreases lines@.len() - i,
    {
        let line = lines[i];
        let ghost old_out = out@;
        let hit = contains_sub(line, query);
        if hit {
            out.push(line);
        }
        proof {
            let vs = views_of(lines@);
            assert(vs.subrange(0, i as int + 1).drop_last() =~= vs.subrange(0, i as int));
            assert(vs.subrange(0, i as int + 1).last() == line@);
            if hit {
                assert(views_of(out@) =~~= views_of(old_out).push(line@));
            }
        }
        i += 1;
    }
    proof {
        assert(views_of(lines@).subrange(0, lines@.len() as int) =~= views_of(lines@));
    }
    out
}

/// The case folding the standard library applies, as a name: the result
/// depends on the characters alone.
pub uninterp spec fn lower_of(s: Seq<char>) -> Seq<char>;

/// Relies on str::to_lowercase: the lowercased text is a pure function
/// of the input characters.
#[verifier::external_body]
fn lowercase(s: &str) -> (r: String)
    ensures
        r@ == lower_of(s@),
{
    s.to_lowercase()
}

/// The lines among `ls` whose lowercased characters contain the
/// lowercased `q`, in order.
pub open spec fn matching_lines_ci(ls: Seq<Seq<char>>, q: Seq<char>) -> Seq<Seq<char>>
    decreases ls.len(),
{
    if ls.len() == 0 {
        ls
    } else {
        let rest = matching_lines_ci(ls.drop_last(), q);
        if contains_seq(lower_of(ls.last()), lower_of(q)) {
            rest.push(ls.last())
        } else {
            rest
        }
    }
}

/// The lines that contain `query` regardless of case, in their original
/// order.
pub fn search_case_insensitive<'a>(query: &str, contents: &'a str) -> (r: Vec<&'a str>)
    ensures
        views_of(r@) == matching_lines_ci(lines_of(contents@), query@),
{
    let query_lower = lowercase(query);
    let lines = split_lines(contents);
    let mut out: Vec<&str> = Vec::new();
    let mut i: usize = 0;
    while i < lines.len()
        invariant
            i <= lines@.len(),
            views_of(lines@) == lines_of(contents@),
            query_lower@ == lower_of(query@),
            views_of(out@) == matching_lines_ci(views_of(lines@).subrange(0, i as int), query@),
        decreases lines@.len() - i,
    {
        let line = lines[i];
        let ghost old_out = out@;
        let line_lower = lowercase(line);
        let hit = contains_sub(line_lower.as_str(), query_lower.as_str());
        if hit {
            out.push(line);
        }
        proof {
            let vs = views_of(lines@);
            assert(vs.subrange(0, i as int + 1).drop_last() =~= vs.subrange(0, i as int));
            assert(vs.subrange(0, i as int + 1).last() == line@);
            if hit {
                assert(views_of(out@) =~~= views_of(old_out).push(line@));
            }
        }
        i += 1;
    }
    proof {
        assert(views_of(lines@).subrange(0, lines@.len() as int) =~= views_of(lines@));
    }
    out
}

/// The parsed command line: what to search for, where, and how.
pub struct Args {
    pub query: String,
    pub file_path: String,
    pub ignore_case: bool,
}

impl Args {
    /// Reads the query and the file path from the argument list, whose
    /// first entry is the program's own name; the case flag is handed in
    /// by the caller, who read the environment.
    pub fn build(args: Vec<String>, ignore_case: bool) -> (r: Result<Args, &'static str>)
        ensures
            args@.len() < 2 ==> r is Err && r->Err_0@ == "Didn't get a query string"@,
            args@.len() == 2 ==> r is Err && r->Err_0@ == "Didn't get a file path"@,
            args@.len() >= 3 ==> r is Ok && r->Ok_0.query@ == args@[1]@
                && r->Ok_0.file_path@ == args@[2]@ && r->Ok_0.ignore_case == ignore_case,
    {
        let mut args = args;
        if args.len() < 2 {
            return Err("Didn't get a query string");
        }
        if args.len() < 3 {
            return Err("Didn't get a file path");
        }
        let query = args.remove(1);
        let file_path = args.remove(1);
        Ok(Args { query, file_path, ignore_case })
    }
}

/// Searches `contents` for `query`, case-insensitively when asked to.
pub fn run<'a>(query: &str, contents: &'a str, ignore_case: bool) -> (r: Vec<&'a str>)
    ensures
        !ignore_case ==> views_of(r@) == matching_lines(lines_of(contents@), query@),
        ignore_case ==> views_of(r@) == matching_lines_ci(lines_of(contents@), query@),
{
    if ignore_case {
        search_case_insensitive(query, contents)
    } else {
        search(query, contents)
    }
}

} // verus!
