//! Candidate classifier and filter: decides, for each scanned candidate,
//! whether its text is layout noise (to discard) and, if kept, whether it is
//! a posting title or a location. The decision is a pure function of the
//! candidate text alone.

use vstd::prelude::*;

use crate::scanner::{cand_views, Candidate};
use crate::text::{ends_with_spec, starts_with_spec, str_ends_with, str_starts_with};

verus! {

/// What a kept candidate contributes to a posting: its title or its location.
#[derive(Clone, Copy, PartialEq, Eq, Structural, Debug)]
pub enum FragmentKind {
    Title,
    Location,
}

/// Discard rule: the text begins with an image-placeholder marker.
pub open spec fn discard_image(t: Seq<char>) -> bool {
    starts_with_spec(t, "[image:"@)
}

/// Discard rule: the text begins with the promotional phrase.
pub open spec fn discard_promo(t: Seq<char>) -> bool {
    starts_with_spec(t, "Actively recruiting"@)
}

/// Discard rule: the text ends with the connection-count suffix.
pub open spec fn discard_connection(t: Seq<char>) -> bool {
    ends_with_spec(t, "connection"@)
}

/// Discard rule: the text is empty (after trimming, which the scanner did).
pub open spec fn discard_empty(t: Seq<char>) -> bool {
    t.len() == 0
}

/// The text is layout noise: some discard rule matches it.
pub open spec fn is_discarded(t: Seq<char>) -> bool {
    discard_image(t) || discard_promo(t) || discard_connection(t) || discard_empty(t)
}

/// The text is a title: it both starts and ends with the emphasis marker.
pub open spec fn is_title_text(t: Seq<char>) -> bool {
    t.len() > 0 && t[0] == '*' && t[t.len() - 1] == '*'
}

/// The classification of a candidate text: `None` when discarded, otherwise
/// title or location.
pub open spec fn classify_spec(t: Seq<char>) -> Option<FragmentKind> {
    if is_discarded(t) {
        None
    } else if is_title_text(t) {
        Some(FragmentKind::Title)
    } else {
        Some(FragmentKind::Location)
    }
}

/// Classifies one candidate text: discards noise, and keeps the rest as a
/// title (emphasis-marked) or a location.
pub fn classify(t: &str) -> (r: Option<FragmentKind>)
    ensures
        r == classify_spec(t@),
{
    proof {
        reveal_strlit("*");
    }
    if str_starts_with(t, "[image:") || str_starts_with(t, "Actively recruiting") || str_ends_with(
        t,
        "connection",
    ) || t.unicode_len() == 0 {
        return None;
    }
    if str_starts_with(t, "*") && str_ends_with(t, "*") {
        proof {
            assert(t@.subrange(0, 1) =~= seq![t@[0]]);
            assert(t@.subrange(t@.len() - 1, t@.len() as int) =~= seq![t@[t@.len() - 1]]);
            assert(t@[0] == "*"@[0] && t@[t@.len() - 1] == "*"@[0]);
            assert(is_title_text(t@));
        }
        Some(FragmentKind::Title)
    } else {
        proof {
            if is_title_text(t@) {
                assert(t@.subrange(0, 1) =~= "*"@);
                assert(t@.subrange(t@.len() - 1, t@.len() as int) =~= "*"@);
                assert(starts_with_spec(t@, "*"@) && ends_with_spec(t@, "*"@));
            }
            assert(!is_title_text(t@));
        }
        Some(FragmentKind::Location)
    }
}

/// One classified piece of information about one posting, pending merge.
pub struct Fragment {
    pub id: String,
    pub kind: FragmentKind,
    pub text: String,
}

/// The mathematical model of a fragment.
pub ghost struct FragmentV {
    pub id: Seq<char>,
    pub kind: FragmentKind,
    pub text: Seq<char>,
}

impl View for Fragment {
    type V = FragmentV;

    open spec fn view(&self) -> FragmentV {
        FragmentV { id: self.id@, kind: self.kind, text: self.text@ }
    }
}

/// The views of a sequence of fragments.
pub open spec fn frag_views(frags: Seq<Fragment>) -> Seq<FragmentV> {
    frags.map_values(|f: Fragment| f@)
}

/// The fragments that survive classification of the candidate pairs, in
/// order.
pub open spec fn classified_spec(pairs: Seq<(Seq<char>, Seq<char>)>) -> Seq<FragmentV>
    decreases pairs.len(),
{
    if pairs.len() == 0 {
        seq![]
    } else {
        let rest = classified_spec(pairs.drop_first());
        match classify_spec(pairs[0].0) {
            Some(k) => seq![FragmentV { id: pairs[0].1, kind: k, text: pairs[0].0 }] + rest,
            None => rest,
        }
    }
}

/// Classifies every candidate, dropping the discarded ones.
pub fn classify_candidates(cands: &Vec<Candidate>) -> (frags: Vec<Fragment>)
    ensures
        frag_views(frags@) == classified_spec(cand_views(cands@)),
{
    let ghost cv = cand_views(cands@);
    let mut frags: Vec<Fragment> = Vec::new();
    let n = cands.len();
    let mut i: usize = 0;
    proof {
        assert(cv.skip(0) =~= cv);
        assert(frag_views(frags@) =~= Seq::<FragmentV>::empty());
    }
    while i < n
        invariant
            0 <= i <= n,
            n == cands@.len(),
            cv == cand_views(cands@),
            classified_spec(cv) =~= frag_views(frags@) + classified_spec(cv.skip(i as int)),
        decreases n - i,
    {
        let ghost tail = cv.skip(i as int);
        proof {
            assert(tail[0] == cv[i as int]);
            assert(tail.drop_first() =~= cv.skip(i + 1));
        }
        let c = &cands[i];
        match classify(c.text.as_str()) {
            Some(kind) => {
                let ghost old_frags = frags@;
                frags.push(Fragment { id: c.id.clone(), kind, text: c.text.clone() });
                proof {
                    assert(frag_views(frags@) =~= frag_views(old_frags) + seq![
                        FragmentV { id: tail[0].1, kind, text: tail[0].0 },
                    ]);
                }
            },
            None => {},
        }
        i = i + 1;
    }
    proof {
        assert(cv.skip(n as int) =~= Seq::<(Seq<char>, Seq<char>)>::empty());
    }
    frags
}

/// The discard rules are order-independent in effect: a text that any single
/// discard rule matches is never classified, whichever order the rules are
/// evaluated in; and only a text that some rule matches is discarded.
pub proof fn lemma_discard_order_independent(t: Seq<char>)
    ensures
        discard_image(t) ==> classify_spec(t) is None,
        discard_promo(t) ==> classify_spec(t) is None,
        discard_connection(t) ==> classify_spec(t) is None,
        discard_empty(t) ==> classify_spec(t) is None,
        classify_spec(t) is None ==> is_discarded(t),
{
}

} // verus!
