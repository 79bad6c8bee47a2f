//! Line-candidate scanner: locates, inside a plaintext email body, every
//! occurrence of the two-line layout "text line" immediately followed by a
//! job-view URL line, and extracts the ten-digit posting identifier embedded
//! in the URL.

use vstd::prelude::*;

use crate::text::{trim, trim_spec};

verus! {

/// A raw scanner hit: the trimmed text of the line immediately before a
/// job-view URL line, and the ten-digit identifier extracted from that URL.
pub struct Candidate {
    pub text: String,
    pub id: String,
}

impl View for Candidate {
    type V = (Seq<char>, Seq<char>);

    open spec fn view(&self) -> (Seq<char>, Seq<char>) {
        (self.text@, self.id@)
    }
}

/// The views of a sequence of lines.
pub open spec fn views_of(lines: Seq<String>) -> Seq<Seq<char>> {
    lines.map_values(|l: String| l@)
}

/// The views of a sequence of candidates.
pub open spec fn cand_views(cands: Seq<Candidate>) -> Seq<(Seq<char>, Seq<char>)> {
    cands.map_values(|c: Candidate| c@)
}

/// Position of the first newline in `s`, or `s.len()` when there is none.
pub open spec fn find_nl(s: Seq<char>) -> nat
    decreases s.len(),
{
    if s.len() == 0 {
        0
    } else if s[0] == '\n' {
        0
    } else {
        1 + find_nl(s.drop_first())
    }
}

/// `s` split at every newline; always at least one (possibly empty) line.
pub open spec fn split_lines_spec(s: Seq<char>) -> Seq<Seq<char>>
    decreases s.len(),
{
    let i = find_nl(s) as int;
    if i >= s.len() {
        seq![s]
    } else {
        seq![s.subrange(0, i)] + split_lines_spec(s.subrange(i + 1, s.len() as int))
    }
}

proof fn lemma_find_nl_at(s: Seq<char>, k: int)
    requires
        0 <= k <= s.len(),
        forall|j: int| 0 <= j < k ==> s[j] != '\n',
        k == s.len() || s[k] == '\n',
    ensures
        find_nl(s) == k,
    decreases k,
{
    if k == 0 {
    } else {
        lemma_find_nl_at(s.drop_first(), k - 1);
    }
}

/// `s` split at every newline, as owned lines.
pub fn split_lines(s: &str) -> (lines: Vec<String>)
    ensures
        views_of(lines@) == split_lines_spec(s@),
{
    let n = s.unicode_len();
    let mut lines: Vec<String> = Vec::new();
    let mut start: usize = 0;
    let mut i: usize = 0;
    proof {
        assert(s@.subrange(0, n as int) =~= s@);
        assert(views_of(lines@) =~= Seq::<Seq<char>>::empty());
    }
    while i < n
        invariant
            0 <= start <= i <= n,
            n == s@.len(),
            forall|j: int| start <= j < i ==> s@[j] != '\n',
            split_lines_spec(s@) =~= views_of(lines@) + split_lines_spec(
                s@.subrange(start as int, n as int),
            ),
        decreases n - i,
    {
        if s.get_char(i) == '\n' {
            let ghost old_lines = lines@;
            let ghost rest = s@.subrange(start as int, n as int);
            lines.push(String::from_str(s.substring_char(start, i)));
            proof {
                lemma_find_nl_at(rest, i - start);
                assert(rest.subrange(0, i - start) =~= s@.subrange(start as int, i as int));
                assert(rest.subrange(i - start + 1, rest.len() as int) =~= s@.subrange(
                    i + 1,
                    n as int,
                ));
                assert(views_of(lines@) =~= views_of(old_lines) + seq![
                    s@.subrange(start as int, i as int),
                ]);
            }
            start = i + 1;
        }
        i = i + 1;
    }
    let ghost rest = s@.subrange(start as int, n as int);
    let ghost old_lines = lines@;
    lines.push(String::from_str(s.substring_char(start, n)));
    proof {
        lemma_find_nl_at(rest, rest.len() as int);
        assert(views_of(lines@) =~= views_of(old_lines) + seq![rest]);
        assert(views_of(lines@) =~= split_lines_spec(s@));
    }
    lines
}

/// Whether `c` is a decimal digit.
pub open spec fn is_ascii_digit(c: char) -> bool {
    ('0' as u32) <= (c as u32) && (c as u32) <= ('9' as u32)
}

/// The literal that every job-view URL line must begin with.
pub open spec fn url_line_prefix() -> Seq<char> {
    "<https://www.linkedin.com/comm/jobs/view/"@
}

/// The literal that every reconstructed job link begins with.
pub open spec fn link_prefix() -> Seq<char> {
    "https://www.linkedin.com/comm/jobs/view/"@
}

/// The job link deterministically constructed from a posting identifier.
pub open spec fn link_of(id: Seq<char>) -> Seq<char> {
    link_prefix() + id
}

/// A line matches the job-view URL template: the literal path prefix followed
/// by (at least) ten decimal digits.
pub open spec fn is_url_line(l: Seq<char>) -> bool {
    &&& l.len() >= url_line_prefix().len() + 10
    &&& l.subrange(0, url_line_prefix().len() as int) == url_line_prefix()
    &&& forall|j: int| 0 <= j < 10 ==> is_ascii_digit(#[trigger] l[url_line_prefix().len() + j])
}

/// The ten-digit identifier in the template position of a URL line.
pub open spec fn line_id(l: Seq<char>) -> Seq<char> {
    l.subrange(url_line_prefix().len() as int, url_line_prefix().len() as int + 10)
}

/// Lines `k` and `k + 1` form a candidate: a nonempty text line immediately
/// followed by a URL line.
pub open spec fn candidate_at(lines: Seq<Seq<char>>, k: int) -> bool {
    &&& 0 <= k
    &&& k + 1 < lines.len()
    &&& lines[k].len() > 0
    &&& is_url_line(lines[k + 1])
}

/// The candidate pair produced from lines `k` and `k + 1`.
pub open spec fn pair_at(lines: Seq<Seq<char>>, k: int) -> (Seq<char>, Seq<char>) {
    (trim_spec(lines[k]), line_id(lines[k + 1]))
}

/// All candidate pairs of `lines`, in document order.
pub open spec fn scan_pairs(lines: Seq<Seq<char>>) -> Seq<(Seq<char>, Seq<char>)>
    decreases lines.len(),
{
    if lines.len() < 2 {
        seq![]
    } else {
        let rest = scan_pairs(lines.drop_first());
        if candidate_at(lines, 0) {
            seq![pair_at(lines, 0)] + rest
        } else {
            rest
        }
    }
}

/// The URL-line template as a literal.
fn url_line_prefix_str() -> (r: &'static str)
    ensures
        r@ == url_line_prefix(),
        r@.len() == 41,
{
    proof {
        reveal_strlit("<https://www.linkedin.com/comm/jobs/view/");
    }
    "<https://www.linkedin.com/comm/jobs/view/"
}

/// Whether `c` is a decimal digit.
fn is_ascii_digit_char(c: char) -> (r: bool)
    ensures
        r == is_ascii_digit(c),
{
    let u = c as u32;
    48 <= u && u <= 57
}

/// Whether `l` matches the job-view URL template.
pub fn is_url_line_exec(l: &str) -> (r: bool)
    ensures
        r == is_url_line(l@),
{
    let p = url_line_prefix_str();
    let np = p.unicode_len();
    if !crate::text::str_starts_with(l, p) {
        return false;
    }
    if l.unicode_len() < np + 10 {
        return false;
    }
    let mut j: usize = 0;
    while j < 10
        invariant
            0 <= j <= 10,
            np == url_line_prefix().len(),
            np == 41,
            l@.len() >= np + 10,
            forall|k: int| 0 <= k < j ==> is_ascii_digit(#[trigger] l@[np + k]),
        decreases 10 - j,
    {
        if !is_ascii_digit_char(l.get_char(np + j)) {
            return false;
        }
        j = j + 1;
    }
    true
}

/// The job link reconstructed from a posting identifier: the literal template
/// with the identifier substituted.
pub fn link_for_id(id: &str) -> (r: String)
    ensures
        r@ == link_of(id@),
{
    let mut r = String::from_str("https://www.linkedin.com/comm/jobs/view/");
    r.append(id);
    r
}

/// All candidates of the given lines, in document order: each pair of a
/// nonempty line immediately followed by a URL line yields the trimmed text
/// and the extracted identifier.
pub fn scan_candidates(lines: &Vec<String>) -> (cands: Vec<Candidate>)
    ensures
        cand_views(cands@) == scan_pairs(views_of(lines@)),
{
    let ghost lv = views_of(lines@);
    let mut cands: Vec<Candidate> = Vec::new();
    let n = lines.len();
    if n < 2 {
        return cands;
    }
    let p = url_line_prefix_str();
    let np = p.unicode_len();
    let mut k: usize = 0;
    proof {
        assert(lv.skip(0) =~= lv);
        assert(cand_views(cands@) =~= Seq::<(Seq<char>, Seq<char>)>::empty());
    }
    while k < n - 1
        invariant
            0 <= k <= n - 1,
            n == lines@.len(),
            lv == views_of(lines@),
            np == url_line_prefix().len(),
            np == 41,
            scan_pairs(lv) =~= cand_views(cands@) + scan_pairs(lv.skip(k as int)),
        decreases n - 1 - k,
    {
        let ghost tail = lv.skip(k as int);
        proof {
            assert(tail.len() >= 2);
            assert(tail[0] == lv[k as int]);
            assert(tail[1] == lv[k + 1]);
            assert(tail.drop_first() =~= lv.skip(k + 1));
        }
        if lines[k].unicode_len() > 0 && is_url_line_exec(&lines[k + 1]) {
            proof {
                assert(candidate_at(tail, 0));
            }
            let text = trim(lines[k].as_str());
            let url_line = &lines[k + 1];
            let id = String::from_str(url_line.as_str().substring_char(np, np + 10));
            let ghost old_cands = cands@;
            cands.push(Candidate { text, id });
            proof {
                assert(id@ =~= line_id(tail[1int]));
                assert(cand_views(cands@) =~= cand_views(old_cands) + seq![pair_at(tail, 0)]);
            }
        } else {
            proof {
                assert(!candidate_at(tail, 0));
            }
        }
        k = k + 1;
    }
    proof {
        assert(lv.skip(n - 1).len() < 2);
        assert(scan_pairs(lv.skip(n - 1)) =~= Seq::<(Seq<char>, Seq<char>)>::empty());
    }
    cands
}

/// A scan over lines none of which matches the URL template yields no
/// candidate at all.
pub proof fn lemma_scan_pairs_no_url(lines: Seq<Seq<char>>)
    requires
        forall|k: int| 0 <= k < lines.len() ==> !is_url_line(#[trigger] lines[k]),
    ensures
        scan_pairs(lines) == Seq::<(Seq<char>, Seq<char>)>::empty(),
    decreases lines.len(),
{
    if lines.len() >= 2 {
        let rest = lines.drop_first();
        assert(forall|k: int| 0 <= k < rest.len() ==> !is_url_line(#[trigger] rest[k])) by {
            assert(forall|k: int| 0 <= k < rest.len() ==> rest[k] == lines[k + 1]);
        }
        lemma_scan_pairs_no_url(rest);
        assert(!candidate_at(lines, 0));
    }
    assert(scan_pairs(lines) =~= Seq::<(Seq<char>, Seq<char>)>::empty());
}

/// Scanner completeness: every nonempty line immediately followed by a line
/// matching the URL template yields a candidate holding exactly the trimmed
/// preceding text and the digit sequence in the template position, whatever
/// whitespace surrounds the text.
pub proof fn lemma_scan_pairs_complete(lines: Seq<Seq<char>>, k: int)
    requires
        candidate_at(lines, k),
    ensures
        scan_pairs(lines).contains(pair_at(lines, k)),
    decreases k,
{
    if k == 0 {
        assert(scan_pairs(lines)[0] == pair_at(lines, 0));
    } else {
        let rest = lines.drop_first();
        assert(candidate_at(rest, k - 1));
        lemma_scan_pairs_complete(rest, k - 1);
        assert(pair_at(rest, k - 1) == pair_at(lines, k));
        let j = choose|j: int| 0 <= j < scan_pairs(rest).len() && scan_pairs(rest)[j] == pair_at(
            rest,
            k - 1,
        );
        if candidate_at(lines, 0) {
            assert(scan_pairs(lines)[j + 1] == pair_at(lines, k));
        } else {
            assert(scan_pairs(lines)[j] == pair_at(lines, k));
        }
    }
}

/// Scanner soundness: every candidate the scan produces comes from some
/// adjacent pair of lines matching the two-line layout, and holds exactly the
/// trimmed preceding text and the ten digits in the template position.
pub proof fn lemma_scan_pairs_sound(lines: Seq<Seq<char>>, j: int)
    requires
        0 <= j < scan_pairs(lines).len(),
    ensures
        exists|k: int| #[trigger] candidate_at(lines, k) && pair_at(lines, k) == scan_pairs(
            lines,
        )[j],
    decreases lines.len(),
{
    let rest = lines.drop_first();
    if candidate_at(lines, 0) && j == 0 {
        assert(candidate_at(lines, 0) && pair_at(lines, 0) == scan_pairs(lines)[0]);
    } else {
        let j2 = if candidate_at(lines, 0) {
            j - 1
        } else {
            j
        };
        lemma_scan_pairs_sound(rest, j2);
        let k2 = choose|k2: int| #[trigger] candidate_at(rest, k2) && pair_at(rest, k2)
            == scan_pairs(rest)[j2];
        assert(candidate_at(lines, k2 + 1));
        assert(pair_at(lines, k2 + 1) == scan_pairs(lines)[j]);
    }
}

} // verus!
