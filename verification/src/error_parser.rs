//! Picking the last error line out of captured terminal output.
//!
//! A line reports an error when it contains the marker `Error:` anywhere;
//! the last such line wins.  Lines are split as `str::lines` splits them:
//! at each line feed, with a carriage return directly before it not
//! counting as line content.

use vstd::prelude::*;

verus! {

/// The index of the first line feed in a text, if any.
pub open spec fn spec_first_nl(s: Seq<char>) -> Option<nat>
    decreases s.len(),
{
    if s.len() == 0 {
        None
    } else if s[0] == '\n' {
        Some(0 as nat)
    } else {
        match spec_first_nl(s.drop_first()) {
            Some(j) => Some((j + 1) as nat),
            None => None,
        }
    }
}

proof fn lemma_first_nl_at(s: Seq<char>, k: int)
    requires
        0 <= k < s.len(),
        s[k] == '\n',
        forall|i: int| 0 <= i < k ==> s[i] != '\n',
    ensures
        spec_first_nl(s) == Some(k as nat),
    decreases k,
{
    if k > 0 {
        assert(forall|i: int| 0 <= i < k - 1 ==> s.drop_first()[i] == s[i + 1]);
        assert(s.drop_first()[k - 1] == s[k]);
        lemma_first_nl_at(s.drop_first(), k - 1);
    }
}

proof fn lemma_first_nl_none(s: Seq<char>)
    requires
        forall|i: int| 0 <= i < s.len() ==> s[i] != '\n',
    ensures
        spec_first_nl(s) is None,
    decreases s.len(),
{
    if s.len() > 0 {
        assert(forall|i: int|
            0 <= i < s.drop_first().len() ==> s.drop_first()[i] == s[i + 1]);
        lemma_first_nl_none(s.drop_first());
    }
}

/// A line without a carriage return directly before the line break.
pub open spec fn strip_cr(l: Seq<char>) -> Seq<char> {
    if l.len() > 0 && l.last() == '\r' {
        l.drop_last()
    } else {
        l
    }
}

/// The lines of a text, as `str::lines` yields them.
pub open spec fn spec_lines(s: Seq<char>) -> Seq<Seq<char>>
    decreases s.len(),
{
    if s.len() == 0 {
        Seq::empty()
    } else {
        match spec_first_nl(s) {
            Some(j) => if j < s.len() {
                seq![strip_cr(s.subrange(0, j as int))] + spec_lines(
                    s.subrange(j as int + 1, s.len() as int),
                )
            } else {
                seq![strip_cr(s)]
            },
            None => seq![strip_cr(s)],
        }
    }
}

/// Whether a text contains another anywhere.
pub open spec fn spec_contains(s: Seq<char>, p: Seq<char>) -> bool {
    exists|i: int| 0 <= i && i + p.len() <= s.len() && #[trigger] s.subrange(i, i + p.len()) == p
}

/// Whether one text occurs anywhere inside another.
pub fn str_contains(s: &str, p: &str) -> (b: bool)
    ensures
        b == spec_contains(s@, p@),
{
    let ns = s.unicode_len();
    let np = p.unicode_len();
    if np > ns {
        return false;
    }
    let mut i: usize = 0;
    while i <= ns - np
        invariant
            i <= ns - np + 1,
            ns == s@.len(),
            np == p@.len(),
            np <= ns,
            forall|k: int| 0 <= k < i ==> #[trigger] s@.subrange(k, k + np as int) != p@,
        decreases ns - i,
    {
        let mut m: usize = 0;
        let mut ok = true;
        while m < np && ok
            invariant
                m <= np,
                i + np <= ns,
                ns == s@.len(),
                np == p@.len(),
                ok ==> forall|k: int| 0 <= k < m ==> s@[i + k] == p@[k],
                !ok ==> s@.subrange(i as int, i + np as int) != p@,
            decreases np - m + (if ok { 1int } else { 0int }),
        {
            if s.get_char(i + m) != p.get_char(m) {
                proof {
                    assert(s@.subrange(i as int, i + np as int)[m as int] == s@[i + m]);
                }
                ok = false;
            } else {
                m = m + 1;
            }
        }
        if ok {
            proof {
                assert(s@.subrange(i as int, i + np as int) =~= p@);
            }
            return true;
        }
        proof {
            if np == 0 {
                assert(s@.subrange(i as int, i as int) =~= p@);
            }
        }
        i = i + 1;
    }
    proof {
        assert forall|k: int| 0 <= k && k + p@.len() <= s@.len() implies #[trigger] s@.subrange(
            k,
            k + p@.len() as int,
        ) != p@ by {
            assert(k < i);
        }
    }
    false
}

/// Whether an option holds the last line that reports an error: the line
/// itself, with no error-reporting line anywhere after it -- or no line
/// at all when no line reports an error.
pub open spec fn spec_is_last_error(ls: Seq<Seq<char>>, r: Option<String>) -> bool {
    match r {
        Some(line) => exists|i: int|
            {
                &&& 0 <= i < ls.len()
                &&& line@ == ls[i]
                &&& spec_contains(ls[i], "Error:"@)
                &&& forall|j: int| i < j < ls.len() ==> !spec_contains(ls[j], "Error:"@)
            },
        None => forall|i: int| 0 <= i < ls.len() ==> !spec_contains(ls[i], "Error:"@),
    }
}

/// The last line of the output that contains `Error:`, if any.
pub fn parse_error_message(output: &str) -> (r: Option<String>)
    ensures
        spec_is_last_error(spec_lines(output@), r),
{
    let n = output.unicode_len();
    let mut pos: usize = 0;
    let mut last: Option<String> = None;
    let ghost mut done: Seq<Seq<char>> = Seq::empty();
    proof {
        assert(output@.subrange(0, n as int) =~= output@);
        assert(done + spec_lines(output@.subrange(0, n as int)) =~= spec_lines(output@));
    }
    while pos < n
        invariant
            pos <= n,
            n == output@.len(),
            spec_lines(output@) == done + spec_lines(output@.subrange(pos as int, n as int)),
            spec_is_last_error(done, last),
        decreases n - pos,
    {
        let ghost rest = output@.subrange(pos as int, n as int);
        let mut j: usize = pos;
        while j < n && output.get_char(j) != '\n'
            invariant
                pos <= j <= n,
                n == output@.len(),
                forall|t: int| pos <= t < j ==> output@[t] != '\n',
            decreases n - j,
        {
            j = j + 1;
        }
        let ghost raw = output@.subrange(pos as int, j as int);
        proof {
            assert(forall|t: int| 0 <= t < rest.len() ==> rest[t] == output@[pos + t]);
            if j < n {
                lemma_first_nl_at(rest, j - pos);
                assert(rest.subrange(0, j - pos) =~= raw);
                assert(rest.subrange(j - pos + 1, rest.len() as int) =~= output@.subrange(
                    j + 1,
                    n as int,
                ));
                assert(spec_lines(rest) == seq![strip_cr(raw)] + spec_lines(
                    output@.subrange(j + 1, n as int),
                ));
            } else {
                lemma_first_nl_none(rest);
                assert(rest =~= raw);
                assert(rest.len() > 0);
                assert(spec_lines(rest) == seq![strip_cr(raw)]);
                assert(output@.subrange(n as int, n as int) =~= Seq::<char>::empty());
            }
        }
        let line = if j > pos && output.get_char(j - 1) == '\r' {
            proof {
                assert(raw.last() == output@[j - 1]);
                assert(raw.drop_last() =~= output@.subrange(pos as int, j - 1));
            }
            output.substring_char(pos, j - 1)
        } else {
            output.substring_char(pos, j)
        };
        let ghost line_seq = strip_cr(raw);
        proof {
            assert(line@ == line_seq);
        }
        let ghost old_done = done;
        let ghost old_last = last;
        proof {
            done = done.push(line_seq);
        }
        if str_contains(line, "Error:") {
            let owned = line.to_owned();
            last = Some(owned);
            proof {
                let witness = old_done.len() as int;
                assert(done[witness] == line_seq);
                assert(spec_is_last_error(done, last));
            }
        } else {
            proof {
                assert(forall|t: int| 0 <= t < old_done.len() ==> done[t] == old_done[t]);
                match old_last {
                    Some(l) => {
                        let i = choose|i: int|
                            {
                                &&& 0 <= i < old_done.len()
                                &&& l@ == old_done[i]
                                &&& spec_contains(old_done[i], "Error:"@)
                                &&& forall|j2: int|
                                    i < j2 < old_done.len() ==> !spec_contains(
                                        old_done[j2],
                                        "Error:"@,
                                    )
                            };
                        assert(done[i] == old_done[i]);
                        assert(forall|j2: int|
                            i < j2 < done.len() ==> !spec_contains(done[j2], "Error:"@));
                        assert(spec_is_last_error(done, last));
                    },
                    None => {
                        assert(spec_is_last_error(done, last));
                    },
                }
            }
        }
        let next = if j < n {
            j + 1
        } else {
            n
        };
        proof {
            assert(spec_lines(output@) == (old_done + spec_lines(rest)));
            assert((old_done + (seq![line_seq] + spec_lines(
                output@.subrange(next as int, n as int),
            ))) =~= (done + spec_lines(output@.subrange(next as int, n as int))));
        }
        pos = next;
    }
    proof {
        assert(output@.subrange(n as int, n as int) =~= Seq::<char>::empty());
        assert(done + spec_lines(output@.subrange(pos as int, n as int)) =~= done);
    }
    last
}

} // verus!
