//! Posting store: folds a stream of classified fragments into one record per
//! posting identifier. The first fragment for an unseen identifier creates
//! the record; later fragments may only fill a field that is still empty
//! (first writer wins per field), so a location arriving before any title is
//! handled by construction rather than by looking up an absent entry.

use vstd::prelude::*;

use crate::classify::{frag_views, Fragment, FragmentKind, FragmentV};
use crate::scanner::{link_for_id, link_of};

verus! {

/// The job-alert source/format a posting was extracted from.
#[derive(Clone, Copy, PartialEq, Eq, Structural, Debug)]
pub enum JobAlertSource {
    Linkedin,
    Glassdoor,
}

/// One job posting accumulated from classified fragments.
#[derive(Debug)]
pub struct ParsedJob {
    pub source: JobAlertSource,
    pub job_id: String,
    pub title: String,
    pub location: String,
    pub link: String,
}

/// The mathematical model of a posting record.
pub ghost struct ParsedJobV {
    pub source: JobAlertSource,
    pub job_id: Seq<char>,
    pub title: Seq<char>,
    pub location: Seq<char>,
    pub link: Seq<char>,
}

impl View for ParsedJob {
    type V = ParsedJobV;

    open spec fn view(&self) -> ParsedJobV {
        ParsedJobV {
            source: self.source,
            job_id: self.job_id@,
            title: self.title@,
            location: self.location@,
            link: self.link@,
        }
    }
}

/// The views of a sequence of postings.
pub open spec fn job_views(jobs: Seq<ParsedJob>) -> Seq<ParsedJobV> {
    jobs.map_values(|j: ParsedJob| j@)
}

/// The record created on first sight of a fragment's identifier: the link is
/// derived from the identifier, and exactly the fragment's target field is
/// set.
pub open spec fn new_record_spec(f: FragmentV) -> ParsedJobV {
    ParsedJobV {
        source: JobAlertSource::Linkedin,
        job_id: f.id,
        title: if f.kind is Title {
            f.text
        } else {
            Seq::empty()
        },
        location: if f.kind is Location {
            f.text
        } else {
            Seq::empty()
        },
        link: link_of(f.id),
    }
}

/// A later fragment for a known record: it fills its target field only if
/// that field is still empty.
pub open spec fn merge_record_spec(r: ParsedJobV, f: FragmentV) -> ParsedJobV {
    match f.kind {
        FragmentKind::Title => if r.title.len() == 0 {
            ParsedJobV { title: f.text, ..r }
        } else {
            r
        },
        FragmentKind::Location => if r.location.len() == 0 {
            ParsedJobV { location: f.text, ..r }
        } else {
            r
        },
    }
}

/// The first index holding `id`, or `s.len()` when no record does.
pub open spec fn find_id(s: Seq<ParsedJobV>, id: Seq<char>) -> nat
    decreases s.len(),
{
    if s.len() == 0 {
        0
    } else if s[0].job_id == id {
        0
    } else {
        1 + find_id(s.drop_first(), id)
    }
}

/// One fragment absorbed into the store: merged into the record that already
/// holds its identifier, or appended as a fresh record.
pub open spec fn store_apply(s: Seq<ParsedJobV>, f: FragmentV) -> Seq<ParsedJobV> {
    let k = find_id(s, f.id) as int;
    if k < s.len() {
        s.update(k, merge_record_spec(s[k], f))
    } else {
        s.push(new_record_spec(f))
    }
}

/// A fragment stream folded into the store, left to right.
pub open spec fn store_fold(s: Seq<ParsedJobV>, frags: Seq<FragmentV>) -> Seq<ParsedJobV>
    decreases frags.len(),
{
    if frags.len() == 0 {
        s
    } else {
        store_fold(store_apply(s, frags[0]), frags.drop_first())
    }
}

/// No two records share an identifier.
pub open spec fn ids_unique(s: Seq<ParsedJobV>) -> bool {
    forall|i: int, j: int| 0 <= i < j < s.len() ==> s[i].job_id != s[j].job_id
}

/// A single record is well formed: its link is the template with its own
/// identifier substituted.
pub open spec fn record_wf(r: ParsedJobV) -> bool {
    r.link == link_of(r.job_id) && r.source == JobAlertSource::Linkedin
}

/// A store is well formed: identifiers are unique and every record is.
pub open spec fn store_wf(s: Seq<ParsedJobV>) -> bool {
    ids_unique(s) && forall|i: int| 0 <= i < s.len() ==> record_wf(#[trigger] s[i])
}

pub proof fn lemma_find_id(s: Seq<ParsedJobV>, id: Seq<char>)
    ensures
        0 <= find_id(s, id) <= s.len(),
        find_id(s, id) < s.len() ==> s[find_id(s, id) as int].job_id == id,
        forall|j: int| 0 <= j < find_id(s, id) ==> (#[trigger] s[j]).job_id != id,
    decreases s.len(),
{
    if s.len() > 0 && s[0].job_id != id {
        lemma_find_id(s.drop_first(), id);
        assert forall|j: int| 0 <= j < find_id(s, id) implies (#[trigger] s[j]).job_id
            != id by {
            if j > 0 {
                assert(s.drop_first()[j - 1] == s[j]);
            }
        }
    }
}

/// Absorbing a fragment keeps the store well formed.
pub proof fn lemma_apply_preserves_wf(s: Seq<ParsedJobV>, f: FragmentV)
    requires
        store_wf(s),
    ensures
        store_wf(store_apply(s, f)),
{
    lemma_find_id(s, f.id);
    let k = find_id(s, f.id) as int;
    if k < s.len() {
        let t = s.update(k, merge_record_spec(s[k], f));
        assert(forall|i: int| 0 <= i < t.len() && i != k ==> t[i] == s[i]);
        assert(t[k].job_id == s[k].job_id && t[k].link == s[k].link && t[k].source
            == s[k].source);
    } else {
        let t = s.push(new_record_spec(f));
        assert(forall|i: int| 0 <= i < s.len() ==> t[i] == s[i]);
        assert(record_wf(t[s.len() as int]));
    }
}

/// A whole fragment stream keeps the store well formed.
pub proof fn lemma_fold_preserves_wf(s: Seq<ParsedJobV>, frags: Seq<FragmentV>)
    requires
        store_wf(s),
    ensures
        store_wf(store_fold(s, frags)),
    decreases frags.len(),
{
    if frags.len() > 0 {
        lemma_apply_preserves_wf(s, frags[0]);
        lemma_fold_preserves_wf(store_apply(s, frags[0]), frags.drop_first());
    }
}

/// Merging is idempotent per field: absorbing the same fragment twice leaves
/// exactly the store that absorbing it once leaves.
pub proof fn lemma_merge_idempotent(s: Seq<ParsedJobV>, f: FragmentV)
    ensures
        store_apply(store_apply(s, f), f) == store_apply(s, f),
{
    lemma_find_id(s, f.id);
    let t = store_apply(s, f);
    let k = find_id(s, f.id) as int;
    if k < s.len() {
        assert forall|j: int| 0 <= j < k implies (#[trigger] t[j]).job_id != f.id by {
            assert(t[j] == s[j]);
        }
        lemma_find_id_at(t, f.id, k);
        assert(store_apply(t, f) =~= t);
    } else {
        assert forall|j: int| 0 <= j < k implies (#[trigger] t[j]).job_id != f.id by {
            assert(t[j] == s[j]);
        }
        lemma_find_id_at(t, f.id, k);
        assert(merge_record_spec(t[k], f) == t[k]);
        assert(store_apply(t, f) =~= t);
    }
}

/// `find_id` returns `k` when the records before `k` miss the identifier and
/// the record at `k` (if any) holds it.
pub proof fn lemma_find_id_at(s: Seq<ParsedJobV>, id: Seq<char>, k: int)
    requires
        0 <= k <= s.len(),
        forall|j: int| 0 <= j < k ==> (#[trigger] s[j]).job_id != id,
        k == s.len() || s[k].job_id == id,
    ensures
        find_id(s, id) == k,
    decreases k,
{
    if k == 0 {
    } else {
        assert(s[0].job_id != id);
        lemma_find_id_at(s.drop_first(), id, k - 1);
    }
}

/// Merging is commutative in which field arrives first: for an identifier the
/// store has not seen, a title fragment and a location fragment yield the
/// same store in either order, and that store's record for the identifier has
/// both fields set to the fragments' texts.
pub proof fn lemma_merge_field_order(
    s: Seq<ParsedJobV>,
    id: Seq<char>,
    title: Seq<char>,
    location: Seq<char>,
)
    requires
        find_id(s, id) == s.len(),
    ensures
        ({
            let ft = FragmentV { id: id, kind: FragmentKind::Title, text: title };
            let fl = FragmentV { id: id, kind: FragmentKind::Location, text: location };
            let both = store_apply(store_apply(s, ft), fl);
            &&& both == store_apply(store_apply(s, fl), ft)
            &&& both.len() == s.len() + 1
            &&& both[s.len() as int].job_id == id
            &&& both[s.len() as int].title == title
            &&& both[s.len() as int].location == location
        }),
{
    lemma_find_id(s, id);
    let ft = FragmentV { id: id, kind: FragmentKind::Title, text: title };
    let fl = FragmentV { id: id, kind: FragmentKind::Location, text: location };
    let n = s.len() as int;
    let t1 = store_apply(s, ft);
    assert(t1 == s.push(new_record_spec(ft)));
    assert forall|j: int| 0 <= j < n implies (#[trigger] t1[j]).job_id != id by {
        assert(t1[j] == s[j]);
    }
    lemma_find_id_at(t1, id, n);
    let t2 = store_apply(s, fl);
    assert(t2 == s.push(new_record_spec(fl)));
    assert forall|j: int| 0 <= j < n implies (#[trigger] t2[j]).job_id != id by {
        assert(t2[j] == s[j]);
    }
    lemma_find_id_at(t2, id, n);
    assert(store_apply(t1, fl) =~= store_apply(t2, ft));
}

/// A store of postings, owned by one extraction call.
pub struct PostingStore {
    jobs: Vec<ParsedJob>,
}

impl View for PostingStore {
    type V = Seq<ParsedJobV>;

    closed spec fn view(&self) -> Seq<ParsedJobV> {
        job_views(self.jobs@)
    }
}

impl PostingStore {
    /// An empty store.
    pub fn new() -> (r: PostingStore)
        ensures
            r@ == Seq::<ParsedJobV>::empty(),
            store_wf(r@),
    {
        let r = PostingStore { jobs: Vec::new() };
        proof {
            assert(r@ =~= Seq::<ParsedJobV>::empty());
        }
        r
    }

    /// The accumulated postings, handed out by value, in insertion order of
    /// first-seen identifier.
    pub fn into_results(self) -> (r: Vec<ParsedJob>)
        ensures
            job_views(r@) == self@,
    {
        self.jobs
    }

    /// The position of the record holding `id`, or the number of records when
    /// none does.
    fn find_index(&self, id: &str) -> (r: usize)
        ensures
            r == find_id(self@, id@),
    {
        let n = self.jobs.len();
        let mut i: usize = 0;
        while i < n
            invariant
                0 <= i <= n,
                n == self.jobs@.len(),
                forall|j: int| 0 <= j < i ==> (#[trigger] self@[j]).job_id != id@,
            decreases n - i,
        {
            if crate::text::str_eq(self.jobs[i].job_id.as_str(), id) {
                proof {
                    lemma_find_id_at(self@, id@, i as int);
                }
                return i;
            }
            i = i + 1;
        }
        proof {
            lemma_find_id_at(self@, id@, n as int);
        }
        n
    }

    /// Absorbs one classified fragment: merges it into the record holding its
    /// identifier, or creates that record.
    pub fn apply_fragment(&mut self, f: &Fragment)
        ensures
            final(self)@ == store_apply(old(self)@, f@),
    {
        let ghost s = self@;
        let i = self.find_index(f.id.as_str());
        if i < self.jobs.len() {
            let rec = &mut self.jobs[i];
            match f.kind {
                FragmentKind::Title => {
                    if rec.title.as_str().unicode_len() == 0 {
                        rec.title = f.text.clone();
                    }
                },
                FragmentKind::Location => {
                    if rec.location.as_str().unicode_len() == 0 {
                        rec.location = f.text.clone();
                    }
                },
            }
            proof {
                assert(self@ =~= s.update(i as int, merge_record_spec(s[i as int], f@)));
            }
            return ;
        }
        let title = if matches!(f.kind, FragmentKind::Title) {
            f.text.clone()
        } else {
            String::new()
        };
        let location = if matches!(f.kind, FragmentKind::Location) {
            f.text.clone()
        } else {
            String::new()
        };
        self.jobs.push(
            ParsedJob {
                source: JobAlertSource::Linkedin,
                job_id: f.id.clone(),
                title,
                location,
                link: link_for_id(f.id.as_str()),
            },
        );
        proof {
            assert(self@ =~= s.push(new_record_spec(f@)));
        }
    }

    /// Absorbs a whole fragment stream, left to right.
    pub fn apply_all(&mut self, frags: &Vec<Fragment>)
        ensures
            final(self)@ == store_fold(old(self)@, frag_views(frags@)),
    {
        let ghost s0 = self@;
        let ghost fv = frag_views(frags@);
        let n = frags.len();
        let mut i: usize = 0;
        proof {
            assert(fv.skip(0) =~= fv);
        }
        while i < n
            invariant
                0 <= i <= n,
                n == frags@.len(),
                fv == frag_views(frags@),
                store_fold(s0, fv) == store_fold(self@, fv.skip(i as int)),
            decreases n - i,
        {
            let ghost tail = fv.skip(i as int);
            proof {
                assert(tail[0] == fv[i as int]);
                assert(tail.drop_first() =~= fv.skip(i + 1));
            }
            self.apply_fragment(&frags[i]);
            i = i + 1;
        }
        proof {
            assert(fv.skip(n as int) =~= Seq::<FragmentV>::empty());
        }
    }
}

} // verus!
