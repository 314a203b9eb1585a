//! Exact facet filter applied to candidate capabilities before ranking.

use vstd::prelude::*;
use vstd::string::StringExecFns;
use vstd::utf8::encode_utf8;
use crate::order::views;
use crate::proto::{CapabilityCard, CapabilityFacets};

verus! {

/// ASCII lower-case of a byte.
pub open spec fn ascii_lower(b: u8) -> u8 {
    if 65 <= b <= 90 {
        (b + 32) as u8
    } else {
        b
    }
}

/// ASCII case-insensitive equality of byte strings
/// (`<[u8]>::eq_ignore_ascii_case`).
pub open spec fn bytes_eq_ignore_ascii_case(a: Seq<u8>, b: Seq<u8>) -> bool {
    a.len() == b.len() && forall|i: int| 0 <= i < a.len() ==> ascii_lower(#[trigger] a[i]) == ascii_lower(b[i])
}

/// ASCII case-insensitive equality of strings (`str::eq_ignore_ascii_case`).
pub open spec fn eq_ignore_ascii_case(a: Seq<char>, b: Seq<char>) -> bool {
    bytes_eq_ignore_ascii_case(encode_utf8(a), encode_utf8(b))
}

/// Whether some entry of `cs` matches `r` ignoring ASCII case.
pub open spec fn has_match(cs: Seq<Seq<char>>, r: Seq<char>) -> bool {
    exists|j: int| 0 <= j < cs.len() && eq_ignore_ascii_case(#[trigger] cs[j], r)
}

/// Trace entries for required list entries that no candidate entry matches.
pub open spec fn missing_entries(prefix: Seq<char>, rs: Seq<Seq<char>>, cs: Seq<Seq<char>>) -> Seq<Seq<char>>
    decreases rs.len(),
{
    if rs.len() == 0 {
        Seq::empty()
    } else {
        missing_entries(prefix, rs.drop_last(), cs) + if has_match(cs, rs.last()) {
            Seq::empty()
        } else {
            seq![prefix + rs.last()]
        }
    }
}

/// Trace entry for an equality-required facet: none when the requirement
/// is empty or matches ignoring ASCII case.
pub open spec fn mismatch_entry(label: Seq<char>, r: Seq<char>, c: Seq<char>) -> Seq<Seq<char>> {
    if r.len() != 0 && !eq_ignore_ascii_case(r, c) {
        seq![label + " mismatch: need "@ + r + ", got "@ + c]
    } else {
        Seq::empty()
    }
}

/// The filter trace: missing tools, missing ontologies, then the
/// mismatching equality-required facets, in that order.
pub open spec fn filter_trace(required: CapabilityFacets, candidate: CapabilityFacets) -> Seq<Seq<char>> {
    missing_entries("missing tool: "@, views(required.tools@), views(candidate.tools@))
        + missing_entries("missing ontology: "@, views(required.ontologies@), views(candidate.ontologies@))
        + mismatch_entry("sandbox_level"@, required.sandbox_level@, candidate.sandbox_level@)
        + mismatch_entry("network_access"@, required.network_access@, candidate.network_access@)
        + mismatch_entry("gpu_class"@, required.gpu_class@, candidate.gpu_class@)
        + mismatch_entry("privacy_tier"@, required.privacy_tier@, candidate.privacy_tier@)
        + mismatch_entry("region"@, required.region@, candidate.region@)
        + mismatch_entry("pricing_band"@, required.pricing_band@, candidate.pricing_band@)
        + mismatch_entry("trust_tier"@, required.trust_tier@, candidate.trust_tier@)
}

/// A candidate meets the requirements: every required tool and ontology is
/// matched by a candidate entry, and every non-empty equality-required facet
/// equals the candidate's, ignoring ASCII case.
pub open spec fn meets_requirements(required: CapabilityFacets, candidate: CapabilityFacets) -> bool {
    &&& forall|i: int| 0 <= i < required.tools@.len() ==> has_match(views(candidate.tools@), #[trigger] required.tools@[i]@)
    &&& forall|i: int| 0 <= i < required.ontologies@.len() ==> has_match(views(candidate.ontologies@), #[trigger] required.ontologies@[i]@)
    &&& field_ok(required.sandbox_level@, candidate.sandbox_level@)
    &&& field_ok(required.network_access@, candidate.network_access@)
    &&& field_ok(required.gpu_class@, candidate.gpu_class@)
    &&& field_ok(required.privacy_tier@, candidate.privacy_tier@)
    &&& field_ok(required.region@, candidate.region@)
    &&& field_ok(required.pricing_band@, candidate.pricing_band@)
    &&& field_ok(required.trust_tier@, candidate.trust_tier@)
}

/// An equality-required facet is met.
pub open spec fn field_ok(r: Seq<char>, c: Seq<char>) -> bool {
    r.len() == 0 || eq_ignore_ascii_case(r, c)
}

/// ASCII lower-case of a byte.
fn to_ascii_lower(b: u8) -> (r: u8)
    ensures
        r == ascii_lower(b),
{
    if 65 <= b && b <= 90 {
        b + 32
    } else {
        b
    }
}

/// `str::eq_ignore_ascii_case`.
pub fn text_eq_ignore_ascii_case(a: &str, b: &str) -> (res: bool)
    ensures
        res == eq_ignore_ascii_case(a@, b@),
{
    let x = a.as_bytes();
    let y = b.as_bytes();
    if x.len() != y.len() {
        return false;
    }
    let mut i: usize = 0;
    while i < x.len()
        invariant
            x@.len() == y@.len(),
            i <= x@.len(),
            x@ == encode_utf8(a@),
            y@ == encode_utf8(b@),
            forall|k: int| 0 <= k < i ==> ascii_lower(#[trigger] x@[k]) == ascii_lower(y@[k]),
        decreases x@.len() - i,
    {
        if to_ascii_lower(x[i]) != to_ascii_lower(y[i]) {
            return false;
        }
        i = i + 1;
    }
    true
}

/// Whether some entry of `cs` matches `r` ignoring ASCII case.
fn any_match(cs: &Vec<String>, r: &String) -> (res: bool)
    ensures
        res == has_match(views(cs@), r@),
{
    let mut j: usize = 0;
    while j < cs.len()
        invariant
            j <= cs@.len(),
            forall|k: int| 0 <= k < j ==> !eq_ignore_ascii_case(#[trigger] views(cs@)[k], r@),
        decreases cs@.len() - j,
    {
        if text_eq_ignore_ascii_case(cs[j].as_str(), r.as_str()) {
            assert(eq_ignore_ascii_case(views(cs@)[j as int], r@));
            return true;
        }
        j = j + 1;
    }
    false
}

/// Concatenation of two texts into a new string.
fn join2(a: &str, b: &str) -> (s: String)
    ensures
        s@ == a@ + b@,
{
    let mut s = String::new();
    s.append(a);
    s.append(b);
    assert(s@ =~= a@ + b@);
    s
}

/// Appends a trace entry for each required entry without a match.
fn push_missing(trace: &mut Vec<String>, prefix: &str, rs: &Vec<String>, cs: &Vec<String>)
    ensures
        views(final(trace)@) == views(old(trace)@) + missing_entries(prefix@, views(rs@), views(cs@)),
{
    let mut i: usize = 0;
    assert(views(rs@).take(0) =~= Seq::<Seq<char>>::empty());
    assert(views(trace@) =~= views(old(trace)@) + missing_entries(prefix@, views(rs@).take(0), views(cs@)));
    while i < rs.len()
        invariant
            i <= rs@.len(),
            views(trace@) == views(old(trace)@) + missing_entries(prefix@, views(rs@).take(i as int), views(cs@)),
        decreases rs@.len() - i,
    {
        let ghost before = views(trace@);
        let matched = any_match(cs, &rs[i]);
        if !matched {
            let entry = join2(prefix, rs[i].as_str());
            trace.push(entry);
            assert(views(trace@) =~= before + seq![prefix@ + rs@[i as int]@]);
        } else {
            assert(views(trace@) =~= before + Seq::<Seq<char>>::empty());
        }
        proof {
            let next = views(rs@).take(i + 1);
            assert(next.drop_last() =~= views(rs@).take(i as int));
            assert(next.last() == rs@[i as int]@);
            assert(missing_entries(prefix@, next, views(cs@)) == missing_entries(prefix@, views(rs@).take(i as int), views(cs@)) + if has_match(views(cs@), rs@[i as int]@) {
                Seq::<Seq<char>>::empty()
            } else {
                seq![prefix@ + rs@[i as int]@]
            });
            assert(views(trace@) =~= views(old(trace)@) + missing_entries(prefix@, next, views(cs@)));
        }
        i = i + 1;
    }
    assert(views(rs@).take(rs@.len() as int) =~= views(rs@));
}

/// Appends the trace entry of an equality-required facet, if any.
fn push_mismatch(trace: &mut Vec<String>, label: &str, r: &String, c: &String)
    ensures
        views(final(trace)@) == views(old(trace)@) + mismatch_entry(label@, r@, c@),
{
    if !r.as_str().is_empty() && !text_eq_ignore_ascii_case(r.as_str(), c.as_str()) {
        let mut m = String::new();
        m.append(label);
        m.append(" mismatch: need ");
        m.append(r.as_str());
        m.append(", got ");
        m.append(c.as_str());
        assert(m@ =~= label@ + " mismatch: need "@ + r@ + ", got "@ + c@);
        trace.push(m);
    }
    assert(views(trace@) =~= views(old(trace)@) + mismatch_entry(label@, r@, c@));
}

proof fn lemma_missing_empty(prefix: Seq<char>, rs: Seq<Seq<char>>, cs: Seq<Seq<char>>)
    ensures
        missing_entries(prefix, rs, cs).len() == 0 <==> forall|i: int| 0 <= i < rs.len() ==> has_match(cs, #[trigger] rs[i]),
    decreases rs.len(),
{
    if rs.len() > 0 {
        lemma_missing_empty(prefix, rs.drop_last(), cs);
        if missing_entries(prefix, rs, cs).len() == 0 {
            assert forall|i: int| 0 <= i < rs.len() implies has_match(cs, #[trigger] rs[i]) by {
                if i < rs.len() - 1 {
                    assert(rs.drop_last()[i] == rs[i]);
                }
            }
        } else if forall|i: int| 0 <= i < rs.len() ==> has_match(cs, #[trigger] rs[i]) {
            assert forall|i: int| 0 <= i < rs.drop_last().len() implies has_match(cs, #[trigger] rs.drop_last()[i]) by {
                assert(rs.drop_last()[i] == rs[i]);
            }
            assert(has_match(cs, rs[rs.len() - 1]));
        }
    }
}

/// Apply the exact facet filter. Returns whether the candidate passes and a
/// trace of every mismatch.
pub fn facet_filter(required: &CapabilityFacets, candidate: &CapabilityFacets) -> (res: (bool, Vec<String>))
    ensures
        views(res.1@) == filter_trace(*required, *candidate),
        res.0 == (res.1@.len() == 0),
        res.0 == meets_requirements(*required, *candidate),
{
    let mut trace: Vec<String> = Vec::new();
    assert(views(trace@) =~= Seq::<Seq<char>>::empty());
    push_missing(&mut trace, "missing tool: ", &required.tools, &candidate.tools);
    push_missing(&mut trace, "missing ontology: ", &required.ontologies, &candidate.ontologies);
    push_mismatch(&mut trace, "sandbox_level", &required.sandbox_level, &candidate.sandbox_level);
    push_mismatch(&mut trace, "network_access", &required.network_access, &candidate.network_access);
    push_mismatch(&mut trace, "gpu_class", &required.gpu_class, &candidate.gpu_class);
    push_mismatch(&mut trace, "privacy_tier", &required.privacy_tier, &candidate.privacy_tier);
    push_mismatch(&mut trace, "region", &required.region, &candidate.region);
    push_mismatch(&mut trace, "pricing_band", &required.pricing_band, &candidate.pricing_band);
    push_mismatch(&mut trace, "trust_tier", &required.trust_tier, &candidate.trust_tier);
    proof {
        assert(views(trace@) =~= filter_trace(*required, *candidate));
        lemma_missing_empty("missing tool: "@, views(required.tools@), views(candidate.tools@));
        lemma_missing_empty("missing ontology: "@, views(required.ontologies@), views(candidate.ontologies@));
        assert(forall|i: int| 0 <= i < required.tools@.len() ==> views(required.tools@)[i] == #[trigger] required.tools@[i]@);
        assert(forall|i: int| 0 <= i < required.ontologies@.len() ==> views(required.ontologies@)[i] == #[trigger] required.ontologies@[i]@);
    }
    let passed = trace.len() == 0;
    (passed, trace)
}

/// Any set of facets passes the filter against itself.
pub proof fn lemma_filter_reflexive(f: CapabilityFacets)
    ensures
        meets_requirements(f, f),
{
    assert forall|a: Seq<char>| #[trigger] eq_ignore_ascii_case(a, a) by {}
    assert forall|i: int| 0 <= i < f.tools@.len() implies has_match(views(f.tools@), #[trigger] f.tools@[i]@) by {
        assert(eq_ignore_ascii_case(views(f.tools@)[i], f.tools@[i]@));
    }
    assert forall|i: int| 0 <= i < f.ontologies@.len() implies has_match(views(f.ontologies@), #[trigger] f.ontologies@[i]@) by {
        assert(eq_ignore_ascii_case(views(f.ontologies@)[i], f.ontologies@[i]@));
    }
}

/// `r2` asks no more than `r`: each of its required tools and ontologies is
/// one of `r`'s, and each equality-required facet is `r`'s or left empty.
pub open spec fn weaker_requirement(r2: CapabilityFacets, r: CapabilityFacets) -> bool {
    &&& forall|i: int| 0 <= i < r2.tools@.len() ==> views(r.tools@).contains(#[trigger] r2.tools@[i]@)
    &&& forall|i: int| 0 <= i < r2.ontologies@.len() ==> views(r.ontologies@).contains(#[trigger] r2.ontologies@[i]@)
    &&& field_weaker(r2.sandbox_level@, r.sandbox_level@)
    &&& field_weaker(r2.network_access@, r.network_access@)
    &&& field_weaker(r2.gpu_class@, r.gpu_class@)
    &&& field_weaker(r2.privacy_tier@, r.privacy_tier@)
    &&& field_weaker(r2.region@, r.region@)
    &&& field_weaker(r2.pricing_band@, r.pricing_band@)
    &&& field_weaker(r2.trust_tier@, r.trust_tier@)
}

/// An equality-required facet left empty, or kept.
pub open spec fn field_weaker(a: Seq<char>, b: Seq<char>) -> bool {
    a.len() == 0 || a == b
}

/// `c2` offers at least what `c` does: all of its tools and ontologies, and
/// the same equality-required facets.
pub open spec fn larger_candidate(c2: CapabilityFacets, c: CapabilityFacets) -> bool {
    &&& forall|j: int| 0 <= j < c.tools@.len() ==> views(c2.tools@).contains(#[trigger] c.tools@[j]@)
    &&& forall|j: int| 0 <= j < c.ontologies@.len() ==> views(c2.ontologies@).contains(#[trigger] c.ontologies@[j]@)
    &&& c2.sandbox_level@ == c.sandbox_level@
    &&& c2.network_access@ == c.network_access@
    &&& c2.gpu_class@ == c.gpu_class@
    &&& c2.privacy_tier@ == c.privacy_tier@
    &&& c2.region@ == c.region@
    &&& c2.pricing_band@ == c.pricing_band@
    &&& c2.trust_tier@ == c.trust_tier@
}

proof fn lemma_has_match_grows(cs: Seq<String>, cs2: Seq<String>, x: Seq<char>)
    requires
        has_match(views(cs), x),
        forall|j: int| 0 <= j < cs.len() ==> views(cs2).contains(#[trigger] cs[j]@),
    ensures
        has_match(views(cs2), x),
{
    let j = choose|j: int| 0 <= j < views(cs).len() && eq_ignore_ascii_case(#[trigger] views(cs)[j], x);
    assert(views(cs2).contains(cs[j]@));
    let m = choose|m: int| 0 <= m < views(cs2).len() && #[trigger] views(cs2)[m] == cs[j]@;
    assert(eq_ignore_ascii_case(views(cs2)[m], x));
}

proof fn lemma_required_list_weakens(rs2: Seq<String>, rs: Seq<String>, cs: Seq<String>, cs2: Seq<String>)
    requires
        forall|i: int| 0 <= i < rs.len() ==> has_match(views(cs), #[trigger] rs[i]@),
        forall|i: int| 0 <= i < rs2.len() ==> views(rs).contains(#[trigger] rs2[i]@),
        forall|j: int| 0 <= j < cs.len() ==> views(cs2).contains(#[trigger] cs[j]@),
    ensures
        forall|i: int| 0 <= i < rs2.len() ==> has_match(views(cs2), #[trigger] rs2[i]@),
{
    assert forall|i: int| 0 <= i < rs2.len() implies has_match(views(cs2), #[trigger] rs2[i]@) by {
        assert(views(rs).contains(rs2[i]@));
        let k = choose|k: int| 0 <= k < views(rs).len() && #[trigger] views(rs)[k] == rs2[i]@;
        assert(has_match(views(cs), rs[k]@));
        lemma_has_match_grows(cs, cs2, rs2[i]@);
    }
}

/// The filter is monotone: a candidate that meets a requirement still meets
/// any weaker requirement, and so does any candidate offering more.
pub proof fn lemma_filter_monotone(r: CapabilityFacets, c: CapabilityFacets, r2: CapabilityFacets, c2: CapabilityFacets)
    requires
        meets_requirements(r, c),
        weaker_requirement(r2, r),
        larger_candidate(c2, c),
    ensures
        meets_requirements(r2, c2),
{
    lemma_required_list_weakens(r2.tools@, r.tools@, c.tools@, c2.tools@);
    lemma_required_list_weakens(r2.ontologies@, r.ontologies@, c.ontologies@, c2.ontologies@);
}

/// The trace line of a candidate card without facets.
pub open spec fn missing_facets_line() -> Seq<char> {
    "missing facets on candidate card"@
}

/// Apply the facet filter to a candidate card: a card without facets fails
/// with a single trace line saying so; otherwise its facets are filtered.
pub fn card_filter(required: &CapabilityFacets, card: &CapabilityCard) -> (res: (bool, Vec<String>))
    ensures
        card.facets is None ==> !res.0 && views(res.1@) == seq![missing_facets_line()],
        card.facets matches Some(f) ==> views(res.1@) == filter_trace(*required, f)
            && res.0 == (res.1@.len() == 0) && res.0 == meets_requirements(*required, f),
{
    match &card.facets {
        Some(f) => facet_filter(required, f),
        None => {
            let mut trace: Vec<String> = Vec::new();
            trace.push(String::from_str("missing facets on candidate card"));
            assert(views(trace@) =~= seq![missing_facets_line()]);
            (false, trace)
        },
    }
}

} // verus!
