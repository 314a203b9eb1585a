//! Canonical facet fingerprinting.
//!
//! The fingerprint is a blake3 hash over a deterministic JSON serialization
//! of the capability's exact facets: tool and ontology lists sorted and
//! free of duplicates, enumerated facets trimmed and lower-cased, and the
//! mutable status left out.

use vstd::prelude::*;
use crate::order::{sort_unique, sorted_unique, views};
use crate::proto::CapabilityFacets;
use crate::wire::{contains_bytes, lemma_contains_extend, lemma_contains_last, lemma_contains_self};

verus! {

/// Text of `text` with leading and trailing whitespace removed (`str::trim`).
pub uninterp spec fn trimmed(text: Seq<char>) -> Seq<char>;

/// Lower-case text of `text` (`str::to_lowercase`).
pub uninterp spec fn lowercased(text: Seq<char>) -> Seq<char>;

/// Bytes of `text` serialized as a JSON string (`serde_json::to_vec`).
pub uninterp spec fn json_string(text: Seq<char>) -> Seq<u8>;

/// blake3 digest of `data` (`blake3::hash`).
pub uninterp spec fn blake3_digest(data: Seq<u8>) -> Seq<u8>;

/// `str::trim`. Claimed: the result is `trimmed` of the input.
#[verifier::external_body]
fn trim_text(text: &str) -> (res: &str)
    ensures
        res@ == trimmed(text@),
{
    text.trim()
}

/// `str::to_lowercase`. Claimed: the result is `lowercased` of the input.
#[verifier::external_body]
fn lowercase_text(text: &str) -> (res: String)
    ensures
        res@ == lowercased(text@),
{
    text.to_lowercase()
}

/// `serde_json::to_vec` on a string. Claimed: the bytes are `json_string` of
/// the text. (Serializing a string into a vector does not fail; were it to,
/// the bytes would be empty.)
#[verifier::external_body]
pub(crate) fn json_string_bytes(text: &str) -> (res: Vec<u8>)
    ensures
        res@ == json_string(text@),
{
    match serde_json::to_vec(text) {
        Ok(b) => b,
        Err(_) => Vec::new(),
    }
}

/// `blake3::hash`. Claimed: the 32 bytes are `blake3_digest` of the input.
#[verifier::external_body]
pub(crate) fn blake3_hash(data: &[u8]) -> (res: [u8; 32])
    ensures
        res@ == blake3_digest(data@),
{
    *blake3::hash(data).as_bytes()
}

/// Normal form of an enumerated facet: trimmed, then lower-cased.
pub open spec fn normalized(text: Seq<char>) -> Seq<char> {
    lowercased(trimmed(text))
}

/// Normalize an enumerated facet.
pub fn normalize(s: &str) -> (res: String)
    ensures
        res@ == normalized(s@),
{
    lowercase_text(trim_text(s))
}

/// The canonical form of a set of facets.
pub struct CanonicalFacets {
    pub ontologies: Seq<Seq<char>>,
    pub tools: Seq<Seq<char>>,
    pub sandbox_level: Seq<char>,
    pub network_access: Seq<char>,
    pub gpu_class: Seq<char>,
    pub privacy_tier: Seq<char>,
    pub region: Seq<char>,
    pub pricing_band: Seq<char>,
    pub trust_tier: Seq<char>,
}

/// Canonical form of `f`: sorted duplicate-free lists, normalized enumerated
/// facets; the status is not part of it.
pub open spec fn canonical(f: CapabilityFacets) -> CanonicalFacets {
    CanonicalFacets {
        ontologies: sorted_unique(views(f.ontologies@)),
        tools: sorted_unique(views(f.tools@)),
        sandbox_level: normalized(f.sandbox_level@),
        network_access: normalized(f.network_access@),
        gpu_class: normalized(f.gpu_class@),
        privacy_tier: normalized(f.privacy_tier@),
        region: normalized(f.region@),
        pricing_band: normalized(f.pricing_band@),
        trust_tier: normalized(f.trust_tier@),
    }
}

/// JSON array items, comma separated.
pub open spec fn json_items(ss: Seq<Seq<char>>) -> Seq<u8>
    decreases ss.len(),
{
    if ss.len() == 0 {
        Seq::empty()
    } else if ss.len() == 1 {
        json_string(ss[0])
    } else {
        json_items(ss.drop_last()) + seq![44u8] + json_string(ss.last())
    }
}

/// A JSON array of strings.
pub open spec fn json_list(ss: Seq<Seq<char>>) -> Seq<u8> {
    seq![91u8] + json_items(ss) + seq![93u8]
}

/// A JSON object member after the opening brace or a comma.
pub open spec fn json_member(key: Seq<char>, value: Seq<u8>) -> Seq<u8> {
    json_string(key) + seq![58u8] + value
}

/// Compact JSON of the canonical facets, members in declaration order, the
/// status written as `0`.
pub open spec fn canonical_json(c: CanonicalFacets) -> Seq<u8> {
    seq![123u8] + json_member("ontologies"@, json_list(c.ontologies)) + seq![44u8] + json_member(
        "tools"@,
        json_list(c.tools),
    ) + seq![44u8] + json_member("sandbox_level"@, json_string(c.sandbox_level)) + seq![44u8]
        + json_member("network_access"@, json_string(c.network_access)) + seq![44u8]
        + json_member("gpu_class"@, json_string(c.gpu_class)) + seq![44u8] + json_member(
        "privacy_tier"@,
        json_string(c.privacy_tier),
    ) + seq![44u8] + json_member("region"@, json_string(c.region)) + seq![44u8] + json_member(
        "pricing_band"@,
        json_string(c.pricing_band),
    ) + seq![44u8] + json_member("trust_tier"@, json_string(c.trust_tier)) + seq![44u8]
        + json_member("status"@, seq![48u8]) + seq![125u8]
}

/// The fingerprint of a set of facets.
pub open spec fn facet_fingerprint(f: CapabilityFacets) -> Seq<u8> {
    blake3_digest(canonical_json(canonical(f)))
}

/// Appends a JSON array of the strings of `ss`.
fn put_json_list(buf: &mut Vec<u8>, ss: &Vec<String>)
    ensures
        final(buf)@ == old(buf)@ + json_list(views(ss@)),
{
    let ghost start = buf@;
    buf.push(91u8);
    let mut i: usize = 0;
    assert(views(ss@).take(0) =~= Seq::<Seq<char>>::empty());
    while i < ss.len()
        invariant
            i <= ss@.len(),
            buf@ == start + seq![91u8] + json_items(views(ss@).take(i as int)),
        decreases ss@.len() - i,
    {
        let ghost before = buf@;
        if i > 0 {
            buf.push(44u8);
        }
        let item = json_string_bytes(ss[i].as_str());
        crate::wire::put_bytes(buf, item.as_slice());
        proof {
            let next = views(ss@).take(i + 1);
            assert(next.drop_last() =~= views(ss@).take(i as int));
            assert(next.last() == ss@[i as int]@);
            if i == 0 {
                assert(buf@ =~= start + seq![91u8] + json_items(next));
            } else {
                assert(buf@ =~= start + seq![91u8] + json_items(next));
            }
        }
        i = i + 1;
    }
    assert(views(ss@).take(ss@.len() as int) =~= views(ss@));
    buf.push(93u8);
    assert(buf@ =~= start + json_list(views(ss@)));
}

/// Appends a JSON object member: key, colon, then the given value bytes.
fn put_member_key(buf: &mut Vec<u8>, key: &str)
    ensures
        final(buf)@ == old(buf)@ + json_string(key@) + seq![58u8],
{
    let k = json_string_bytes(key);
    crate::wire::put_bytes(buf, k.as_slice());
    buf.push(58u8);
}

/// Appends a JSON string member.
fn put_string_member(buf: &mut Vec<u8>, key: &str, value: &String)
    ensures
        final(buf)@ == old(buf)@ + json_member(key@, json_string(value@)),
{
    let ghost start = buf@;
    put_member_key(buf, key);
    let v = json_string_bytes(value.as_str());
    crate::wire::put_bytes(buf, v.as_slice());
    assert(buf@ =~= start + json_member(key@, json_string(value@)));
}

/// Appends a JSON string-list member.
fn put_list_member(buf: &mut Vec<u8>, key: &str, value: &Vec<String>)
    ensures
        final(buf)@ == old(buf)@ + json_member(key@, json_list(views(value@))),
{
    let ghost start = buf@;
    put_member_key(buf, key);
    put_json_list(buf, value);
    assert(buf@ =~= start + json_member(key@, json_list(views(value@))));
}

/// Canonical JSON bytes of a set of facets.
pub fn canonical_json_bytes(f: &CapabilityFacets) -> (out: Vec<u8>)
    ensures
        out@ == canonical_json(canonical(*f)),
{
    let ontologies = sort_unique(&f.ontologies);
    let tools = sort_unique(&f.tools);
    let sandbox_level = normalize(f.sandbox_level.as_str());
    let network_access = normalize(f.network_access.as_str());
    let gpu_class = normalize(f.gpu_class.as_str());
    let privacy_tier = normalize(f.privacy_tier.as_str());
    let region = normalize(f.region.as_str());
    let pricing_band = normalize(f.pricing_band.as_str());
    let trust_tier = normalize(f.trust_tier.as_str());
    let mut b: Vec<u8> = Vec::new();
    b.push(123u8);
    put_list_member(&mut b, "ontologies", &ontologies);
    b.push(44u8);
    put_list_member(&mut b, "tools", &tools);
    b.push(44u8);
    put_string_member(&mut b, "sandbox_level", &sandbox_level);
    b.push(44u8);
    put_string_member(&mut b, "network_access", &network_access);
    b.push(44u8);
    put_string_member(&mut b, "gpu_class", &gpu_class);
    b.push(44u8);
    put_string_member(&mut b, "privacy_tier", &privacy_tier);
    b.push(44u8);
    put_string_member(&mut b, "region", &region);
    b.push(44u8);
    put_string_member(&mut b, "pricing_band", &pricing_band);
    b.push(44u8);
    put_string_member(&mut b, "trust_tier", &trust_tier);
    b.push(44u8);
    put_member_key(&mut b, "status");
    b.push(48u8);
    b.push(125u8);
    assert(b@ =~= canonical_json(canonical(*f)));
    b
}

/// Deterministic 32-byte fingerprint over the canonicalized facets.
pub fn fingerprint(facets: &CapabilityFacets) -> (fp: [u8; 32])
    ensures
        fp@ == facet_fingerprint(*facets),
{
    let bytes = canonical_json_bytes(facets);
    blake3_hash(bytes.as_slice())
}

/// Two sets of facets that agree up to canonicalization: the same set of
/// tools, the same set of ontologies, and the same normalized enumerated
/// facets. Order and repetition of list entries, surrounding whitespace and
/// letter case (as `str::to_lowercase` folds it) of enumerated facets, and
/// the status are ignored.
pub open spec fn same_canonical_facets(a: CapabilityFacets, b: CapabilityFacets) -> bool {
    &&& views(a.tools@).to_set() == views(b.tools@).to_set()
    &&& views(a.ontologies@).to_set() == views(b.ontologies@).to_set()
    &&& normalized(a.sandbox_level@) == normalized(b.sandbox_level@)
    &&& normalized(a.network_access@) == normalized(b.network_access@)
    &&& normalized(a.gpu_class@) == normalized(b.gpu_class@)
    &&& normalized(a.privacy_tier@) == normalized(b.privacy_tier@)
    &&& normalized(a.region@) == normalized(b.region@)
    &&& normalized(a.pricing_band@) == normalized(b.pricing_band@)
    &&& normalized(a.trust_tier@) == normalized(b.trust_tier@)
}

/// Facets that agree up to canonicalization have the same fingerprint.
pub proof fn lemma_fingerprint_canonical(a: CapabilityFacets, b: CapabilityFacets)
    requires
        same_canonical_facets(a, b),
    ensures
        facet_fingerprint(a) == facet_fingerprint(b),
{
    assert(canonical(a) == canonical(b));
}

/// What the canonical JSON of a set of facets holds, in terms of the facets
/// themselves: an object whose `ontologies` and `tools` members are the
/// sorted duplicate-free lists of the input's entries, whose member for each
/// enumerated facet is that same facet of the input, trimmed and
/// lower-cased, and whose `status` member is `0` whatever the input's
/// status. It opens with `{` and closes with `}`.
pub proof fn lemma_canonical_json_members(f: CapabilityFacets)
    ensures
        contains_bytes(canonical_json(canonical(f)), json_member("ontologies"@, json_list(sorted_unique(views(f.ontologies@))))),
        contains_bytes(canonical_json(canonical(f)), json_member("tools"@, json_list(sorted_unique(views(f.tools@))))),
        contains_bytes(canonical_json(canonical(f)), json_member("sandbox_level"@, json_string(normalized(f.sandbox_level@)))),
        contains_bytes(canonical_json(canonical(f)), json_member("network_access"@, json_string(normalized(f.network_access@)))),
        contains_bytes(canonical_json(canonical(f)), json_member("gpu_class"@, json_string(normalized(f.gpu_class@)))),
        contains_bytes(canonical_json(canonical(f)), json_member("privacy_tier"@, json_string(normalized(f.privacy_tier@)))),
        contains_bytes(canonical_json(canonical(f)), json_member("region"@, json_string(normalized(f.region@)))),
        contains_bytes(canonical_json(canonical(f)), json_member("pricing_band"@, json_string(normalized(f.pricing_band@)))),
        contains_bytes(canonical_json(canonical(f)), json_member("trust_tier"@, json_string(normalized(f.trust_tier@)))),
        contains_bytes(canonical_json(canonical(f)), json_member("status"@, seq![48u8])),
        canonical_json(canonical(f))[0] == 123u8,
        canonical_json(canonical(f)).last() == 125u8,
{
    let j = canonical_json(canonical(f));
    assert(contains_bytes(j, json_member("ontologies"@, json_list(sorted_unique(views(f.ontologies@)))))) by {
        lemma_contains_last(seq![123u8], json_member("ontologies"@, json_list(sorted_unique(views(f.ontologies@)))));
        lemma_contains_extend(seq![123u8] + json_member("ontologies"@, json_list(sorted_unique(views(f.ontologies@)))), json_member("ontologies"@, json_list(sorted_unique(views(f.ontologies@)))), seq![44u8]);
        lemma_contains_extend(seq![123u8] + json_member("ontologies"@, json_list(sorted_unique(views(f.ontologies@)))) + seq![44u8], json_member("ontologies"@, json_list(sorted_unique(views(f.ontologies@)))), json_member("tools"@, json_list(sorted_unique(views(f.tools@)))));
        lemma_contains_extend(seq![123u8] + json_member("ontologies"@, json_list(sorted_unique(views(f.ontologies@)))) + seq![44u8] + json_member("tools"@, json_list(sorted_unique(views(f.tools@)))), json_member("ontologies"@, json_list(sorted_unique(views(f.ontologies@)))), seq![44u8]);
        lemma_contains_extend(seq![123u8] + json_member("ontologies"@, json_list(sorted_unique(views(f.ontologies@)))) + seq![44u8] + json_member("tools"@, json_list(sorted_unique(views(f.tools@)))) + seq![44u8], json_member("ontologies"@, json_list(sorted_unique(views(f.ontologies@)))), json_member("sandbox_level"@, json_string(normalized(f.sandbox_level@))));
        lemma_contains_extend(seq![123u8] + json_member("ontologies"@, json_list(sorted_unique(views(f.ontologies@)))) + seq![44u8] + json_member("tools"@, json_list(sorted_unique(views(f.tools@)))) + seq![44u8] + json_member("sandbox_level"@, json_string(normalized(f.sandbox_level@))), json_member("ontologies"@, json_list(sorted_unique(views(f.ontologies@)))), seq![44u8]);
        lemma_contains_extend(seq![123u8] + json_member("ontologies"@, json_list(sorted_unique(views(f.ontologies@)))) + seq![44u8] + json_member("tools"@, json_list(sorted_unique(views(f.tools@)))) + seq![44u8] + json_member("sandbox_level"@, json_string(normalized(f.sandbox_level@))) + seq![44u8], json_member("ontologies"@, json_list(sorted_unique(views(f.ontologies@)))), json_member("network_access"@, json_string(normalized(f.network_access@))));
        lemma_contains_extend(seq![123u8] + json_member("ontologies"@, json_list(sorted_unique(views(f.ontologies@)))) + seq![44u8] + json_member("tools"@, json_list(sorted_unique(views(f.tools@)))) + seq![44u8] + json_member("sandbox_level"@, json_string(normalized(f.sandbox_level@))) + seq![44u8] + json_member("network_access"@, json_string(normalized(f.network_access@))), json_member("ontologies"@, json_list(sorted_unique(views(f.ontologies@)))), seq![44u8]);
        lemma_contains_extend(seq![123u8] + json_member("ontologies"@, json_list(sorted_unique(views(f.ontologies@)))) + seq![44u8] + json_member("tools"@, json_list(sorted_unique(views(f.tools@)))) + seq![44u8] + json_member("sandbox_level"@, json_string(normalized(f.sandbox_level@))) + seq![44u8] + json_member("network_access"@, json_string(normalized(f.network_access@))) + seq![44u8], json_member("ontologies"@, json_list(sorted_unique(views(f.ontologies@)))), json_member("gpu_class"@, json_string(normalized(f.gpu_class@))));
        lemma_contains_extend(seq![123u8] + json_member("ontologies"@, json_list(sorted_unique(views(f.ontologies@)))) + seq![44u8] + json_member("tools"@, json_list(sorted_unique(views(f.tools@)))) + seq![44u8] + json_member("sandbox_level"@, json_string(normalized(f.sandbox_level@))) + seq![44u8] + json_member("network_access"@, json_string(normalized(f.network_access@))) + seq![44u8] + json_member("gpu_class"@, json_string(normalized(f.gpu_class@))), json_member("ontologies"@, json_list(sorted_unique(views(f.ontologies@)))), seq![44u8]);
        lemma_contains_extend(seq![123u8] + json_member("ontologies"@, json_list(sorted_unique(views(f.ontologies@)))) + seq![44u8] + json_member("tools"@, json_list(sorted_unique(views(f.tools@)))) + seq![44u8] + json_member("sandbox_level"@, json_string(normalized(f.sandbox_level@))) + seq![44u8] + json_member("network_access"@, json_string(normalized(f.network_access@))) + seq![44u8] + json_member("gpu_class"@, json_string(normalized(f.gpu_class@))) + seq![44u8], json_member("ontologies"@, json_list(sorted_unique(views(f.ontologies@)))), json_member("privacy_tier"@, json_string(normalized(f.privacy_tier@))));
        lemma_contains_extend(seq![123u8] + json_member("ontologies"@, json_list(sorted_unique(views(f.ontologies@)))) + seq![44u8] + json_member("tools"@, json_list(sorted_unique(views(f.tools@)))) + seq![44u8] + json_member("sandbox_level"@, json_string(normalized(f.sandbox_level@))) + seq![44u8] + json_member("network_access"@, json_string(normalized(f.network_access@))) + seq![44u8] + json_member("gpu_class"@, json_string(normalized(f.gpu_class@))) + seq![44u8] + json_member("privacy_tier"@, json_string(normalized(f.privacy_tier@))), json_member("ontologies"@, json_list(sorted_unique(views(f.ontologies@)))), seq![44u8]);
        lemma_contains_extend(seq![123u8] + json_member("ontologies"@, json_list(sorted_unique(views(f.ontologies@)))) + seq![44u8] + json_member("tools"@, json_list(sorted_unique(views(f.tools@)))) + seq![44u8] + json_member("sandbox_level"@, json_string(normalized(f.sandbox_level@))) + seq![44u8] + json_member("network_access"@, json_string(normalized(f.network_access@))) + seq![44u8] + json_member("gpu_class"@, json_string(normalized(f.gpu_class@))) + seq![44u8] + json_member("privacy_tier"@, json_string(normalized(f.privacy_tier@))) + seq![44u8], json_member("ontologies"@, json_list(sorted_unique(views(f.ontologies@)))), json_member("region"@, json_string(normalized(f.region@))));
        lemma_contains_extend(seq![123u8] + json_member("ontologies"@, json_list(sorted_unique(views(f.ontologies@)))) + seq![44u8] + json_member("tools"@, json_list(sorted_unique(views(f.tools@)))) + seq![44u8] + json_member("sandbox_level"@, json_string(normalized(f.sandbox_level@))) + seq![44u8] + json_member("network_access"@, json_string(normalized(f.network_access@))) + seq![44u8] + json_member("gpu_class"@, json_string(normalized(f.gpu_class@))) + seq![44u8] + json_member("privacy_tier"@, json_string(normalized(f.privacy_tier@))) + seq![44u8] + json_member("region"@, json_string(normalized(f.region@))), json_member("ontologies"@, json_list(sorted_unique(views(f.ontologies@)))), seq![44u8]);
        lemma_contains_extend(seq![123u8] + json_member("ontologies"@, json_list(sorted_unique(views(f.ontologies@)))) + seq![44u8] + json_member("tools"@, json_list(sorted_unique(views(f.tools@)))) + seq![44u8] + json_member("sandbox_level"@, json_string(normalized(f.sandbox_level@))) + seq![44u8] + json_member("network_access"@, json_string(normalized(f.network_access@))) + seq![44u8] + json_member("gpu_class"@, json_string(normalized(f.gpu_class@))) + seq![44u8] + json_member("privacy_tier"@, json_string(normalized(f.privacy_tier@))) + seq![44u8] + json_member("region"@, json_string(normalized(f.region@))) + seq![44u8], json_member("ontologies"@, json_list(sorted_unique(views(f.ontologies@)))), json_member("pricing_band"@, json_string(normalized(f.pricing_band@))));
        lemma_contains_extend(seq![123u8] + json_member("ontologies"@, json_list(sorted_unique(views(f.ontologies@)))) + seq![44u8] + json_member("tools"@, json_list(sorted_unique(views(f.tools@)))) + seq![44u8] + json_member("sandbox_level"@, json_string(normalized(f.sandbox_level@))) + seq![44u8] + json_member("network_access"@, json_string(normalized(f.network_access@))) + seq![44u8] + json_member("gpu_class"@, json_string(normalized(f.gpu_class@))) + seq![44u8] + json_member("privacy_tier"@, json_string(normalized(f.privacy_tier@))) + seq![44u8] + json_member("region"@, json_string(normalized(f.region@))) + seq![44u8] + json_member("pricing_band"@, json_string(normalized(f.pricing_band@))), json_member("ontologies"@, json_list(sorted_unique(views(f.ontologies@)))), seq![44u8]);
        lemma_contains_extend(seq![123u8] + json_member("ontologies"@, json_list(sorted_unique(views(f.ontologies@)))) + seq![44u8] + json_member("tools"@, json_list(sorted_unique(views(f.tools@)))) + seq![44u8] + json_member("sandbox_level"@, json_string(normalized(f.sandbox_level@))) + seq![44u8] + json_member("network_access"@, json_string(normalized(f.network_access@))) + seq![44u8] + json_member("gpu_class"@, json_string(normalized(f.gpu_class@))) + seq![44u8] + json_member("privacy_tier"@, json_string(normalized(f.privacy_tier@))) + seq![44u8] + json_member("region"@, json_string(normalized(f.region@))) + seq![44u8] + json_member("pricing_band"@, json_string(normalized(f.pricing_band@))) + seq![44u8], json_member("ontologies"@, json_list(sorted_unique(views(f.ontologies@)))), json_member("trust_tier"@, json_string(normalized(f.trust_tier@))));
        lemma_contains_extend(seq![123u8] + json_member("ontologies"@, json_list(sorted_unique(views(f.ontologies@)))) + seq![44u8] + json_member("tools"@, json_list(sorted_unique(views(f.tools@)))) + seq![44u8] + json_member("sandbox_level"@, json_string(normalized(f.sandbox_level@))) + seq![44u8] + json_member("network_access"@, json_string(normalized(f.network_access@))) + seq![44u8] + json_member("gpu_class"@, json_string(normalized(f.gpu_class@))) + seq![44u8] + json_member("privacy_tier"@, json_string(normalized(f.privacy_tier@))) + seq![44u8] + json_member("region"@, json_string(normalized(f.region@))) + seq![44u8] + json_member("pricing_band"@, json_string(normalized(f.pricing_band@))) + seq![44u8] + json_member("trust_tier"@, json_string(normalized(f.trust_tier@))), json_member("ontologies"@, json_list(sorted_unique(views(f.ontologies@)))), seq![44u8]);
        lemma_contains_extend(seq![123u8] + json_member("ontologies"@, json_list(sorted_unique(views(f.ontologies@)))) + seq![44u8] + json_member("tools"@, json_list(sorted_unique(views(f.tools@)))) + seq![44u8] + json_member("sandbox_level"@, json_string(normalized(f.sandbox_level@))) + seq![44u8] + json_member("network_access"@, json_string(normalized(f.network_access@))) + seq![44u8] + json_member("gpu_class"@, json_string(normalized(f.gpu_class@))) + seq![44u8] + json_member("privacy_tier"@, json_string(normalized(f.privacy_tier@))) + seq![44u8] + json_member("region"@, json_string(normalized(f.region@))) + seq![44u8] + json_member("pricing_band"@, json_string(normalized(f.pricing_band@))) + seq![44u8] + json_member("trust_tier"@, json_string(normalized(f.trust_tier@))) + seq![44u8], json_member("ontologies"@, json_list(sorted_unique(views(f.ontologies@)))), json_member("status"@, seq![48u8]));
        lemma_contains_extend(seq![123u8] + json_member("ontologies"@, json_list(sorted_unique(views(f.ontologies@)))) + seq![44u8] + json_member("tools"@, json_list(sorted_unique(views(f.tools@)))) + seq![44u8] + json_member("sandbox_level"@, json_string(normalized(f.sandbox_level@))) + seq![44u8] + json_member("network_access"@, json_string(normalized(f.network_access@))) + seq![44u8] + json_member("gpu_class"@, json_string(normalized(f.gpu_class@))) + seq![44u8] + json_member("privacy_tier"@, json_string(normalized(f.privacy_tier@))) + seq![44u8] + json_member("region"@, json_string(normalized(f.region@))) + seq![44u8] + json_member("pricing_band"@, json_string(normalized(f.pricing_band@))) + seq![44u8] + json_member("trust_tier"@, json_string(normalized(f.trust_tier@))) + seq![44u8] + json_member("status"@, seq![48u8]), json_member("ontologies"@, json_list(sorted_unique(views(f.ontologies@)))), seq![125u8]);
    }
    assert(contains_bytes(j, json_member("tools"@, json_list(sorted_unique(views(f.tools@)))))) by {
        lemma_contains_last(seq![123u8] + json_member("ontologies"@, json_list(sorted_unique(views(f.ontologies@)))) + seq![44u8], json_member("tools"@, json_list(sorted_unique(views(f.tools@)))));
        lemma_contains_extend(seq![123u8] + json_member("ontologies"@, json_list(sorted_unique(views(f.ontologies@)))) + seq![44u8] + json_member("tools"@, json_list(sorted_unique(views(f.tools@)))), json_member("tools"@, json_list(sorted_unique(views(f.tools@)))), seq![44u8]);
        lemma_contains_extend(seq![123u8] + json_member("ontologies"@, json_list(sorted_unique(views(f.ontologies@)))) + seq![44u8] + json_member("tools"@, json_list(sorted_unique(views(f.tools@)))) + seq![44u8], json_member("tools"@, json_list(sorted_unique(views(f.tools@)))), json_member("sandbox_level"@, json_string(normalized(f.sandbox_level@))));
        lemma_contains_extend(seq![123u8] + json_member("ontologies"@, json_list(sorted_unique(views(f.ontologies@)))) + seq![44u8] + json_member("tools"@, json_list(sorted_unique(views(f.tools@)))) + seq![44u8] + json_member("sandbox_level"@, json_string(normalized(f.sandbox_level@))), json_member("tools"@, json_list(sorted_unique(views(f.tools@)))), seq![44u8]);
        lemma_contains_extend(seq![123u8] + json_member("ontologies"@, json_list(sorted_unique(views(f.ontologies@)))) + seq![44u8] + json_member("tools"@, json_list(sorted_unique(views(f.tools@)))) + seq![44u8] + json_member("sandbox_level"@, json_string(normalized(f.sandbox_level@))) + seq![44u8], json_member("tools"@, json_list(sorted_unique(views(f.tools@)))), json_member("network_access"@, json_string(normalized(f.network_access@))));
        lemma_contains_extend(seq![123u8] + json_member("ontologies"@, json_list(sorted_unique(views(f.ontologies@)))) + seq![44u8] + json_member("tools"@, json_list(sorted_unique(views(f.tools@)))) + seq![44u8] + json_member("sandbox_level"@, json_string(normalized(f.sandbox_level@))) + seq![44u8] + json_member("network_access"@, json_string(normalized(f.network_access@))), json_member("tools"@, json_list(sorted_unique(views(f.tools@)))), seq![44u8]);
        lemma_contains_extend(seq![123u8] + json_member("ontologies"@, json_list(sorted_unique(views(f.ontologies@)))) + seq![44u8] + json_member("tools"@, json_list(sorted_unique(views(f.tools@)))) + seq![44u8] + json_member("sandbox_level"@, json_string(normalized(f.sandbox_level@))) + seq![44u8] + json_member("network_access"@, json_string(normalized(f.network_access@))) + seq![44u8], json_member("tools"@, json_list(sorted_unique(views(f.tools@)))), json_member("gpu_class"@, json_string(normalized(f.gpu_class@))));
        lemma_contains_extend(seq![123u8] + json_member("ontologies"@, json_list(sorted_unique(views(f.ontologies@)))) + seq![44u8] + json_member("tools"@, json_list(sorted_unique(views(f.tools@)))) + seq![44u8] + json_member("sandbox_level"@, json_string(normalized(f.sandbox_level@))) + seq![44u8] + json_member("network_access"@, json_string(normalized(f.network_access@))) + seq![44u8] + json_member("gpu_class"@, json_string(normalized(f.gpu_class@))), json_member("tools"@, json_list(sorted_unique(views(f.tools@)))), seq![44u8]);
        lemma_contains_extend(seq![123u8] + json_member("ontologies"@, json_list(sorted_unique(views(f.ontologies@)))) + seq![44u8] + json_member("tools"@, json_list(sorted_unique(views(f.tools@)))) + seq![44u8] + json_member("sandbox_level"@, json_string(normalized(f.sandbox_level@))) + seq![44u8] + json_member("network_access"@, json_string(normalized(f.network_access@))) + seq![44u8] + json_member("gpu_class"@, json_string(normalized(f.gpu_class@))) + seq![44u8], json_member("tools"@, json_list(sorted_unique(views(f.tools@)))), json_member("privacy_tier"@, json_string(normalized(f.privacy_tier@))));
        lemma_contains_extend(seq![123u8] + json_member("ontologies"@, json_list(sorted_unique(views(f.ontologies@)))) + seq![44u8] + json_member("tools"@, json_list(sorted_unique(views(f.tools@)))) + seq![44u8] + json_member("sandbox_level"@, json_string(normalized(f.sandbox_level@))) + seq![44u8] + json_member("network_access"@, json_string(normalized(f.network_access@))) + seq![44u8] + json_member("gpu_class"@, json_string(normalized(f.gpu_class@))) + seq![44u8] + json_member("privacy_tier"@, json_string(normalized(f.privacy_tier@))), json_member("tools"@, json_list(sorted_unique(views(f.tools@)))), seq![44u8]);
        lemma_contains_extend(seq![123u8] + json_member("ontologies"@, json_list(sorted_unique(views(f.ontologies@)))) + seq![44u8] + json_member("tools"@, json_list(sorted_unique(views(f.tools@)))) + seq![44u8] + json_member("sandbox_level"@, json_string(normalized(f.sandbox_level@))) + seq![44u8] + json_member("network_access"@, json_string(normalized(f.network_access@))) + seq![44u8] + json_member("gpu_class"@, json_string(normalized(f.gpu_class@))) + seq![44u8] + json_member("privacy_tier"@, json_string(normalized(f.privacy_tier@))) + seq![44u8], json_member("tools"@, json_list(sorted_unique(views(f.tools@)))), json_member("region"@, json_string(normalized(f.region@))));
        lemma_contains_extend(seq![123u8] + json_member("ontologies"@, json_list(sorted_unique(views(f.ontologies@)))) + seq![44u8] + json_member("tools"@, json_list(sorted_unique(views(f.tools@)))) + seq![44u8] + json_member("sandbox_level"@, json_string(normalized(f.sandbox_level@))) + seq![44u8] + json_member("network_access"@, json_string(normalized(f.network_access@))) + seq![44u8] + json_member("gpu_class"@, json_string(normalized(f.gpu_class@))) + seq![44u8] + json_member("privacy_tier"@, json_string(normalized(f.privacy_tier@))) + seq![44u8] + json_member("region"@, json_string(normalized(f.region@))), json_member("tools"@, json_list(sorted_unique(views(f.tools@)))), seq![44u8]);
        lemma_contains_extend(seq![123u8] + json_member("ontologies"@, json_list(sorted_unique(views(f.ontologies@)))) + seq![44u8] + json_member("tools"@, json_list(sorted_unique(views(f.tools@)))) + seq![44u8] + json_member("sandbox_level"@, json_string(normalized(f.sandbox_level@))) + seq![44u8] + json_member("network_access"@, json_string(normalized(f.network_access@))) + seq![44u8] + json_member("gpu_class"@, json_string(normalized(f.gpu_class@))) + seq![44u8] + json_member("privacy_tier"@, json_string(normalized(f.privacy_tier@))) + seq![44u8] + json_member("region"@, json_string(normalized(f.region@))) + seq![44u8], json_member("tools"@, json_list(sorted_unique(views(f.tools@)))), json_member("pricing_band"@, json_string(normalized(f.pricing_band@))));
        lemma_contains_extend(seq![123u8] + json_member("ontologies"@, json_list(sorted_unique(views(f.ontologies@)))) + seq![44u8] + json_member("tools"@, json_list(sorted_unique(views(f.tools@)))) + seq![44u8] + json_member("sandbox_level"@, json_string(normalized(f.sandbox_level@))) + seq![44u8] + json_member("network_access"@, json_string(normalized(f.network_access@))) + seq![44u8] + json_member("gpu_class"@, json_string(normalized(f.gpu_class@))) + seq![44u8] + json_member("privacy_tier"@, json_string(normalized(f.privacy_tier@))) + seq![44u8] + json_member("region"@, json_string(normalized(f.region@))) + seq![44u8] + json_member("pricing_band"@, json_string(normalized(f.pricing_band@))), json_member("tools"@, json_list(sorted_unique(views(f.tools@)))), seq![44u8]);
        lemma_contains_extend(seq![123u8] + json_member("ontologies"@, json_list(sorted_unique(views(f.ontologies@)))) + seq![44u8] + json_member("tools"@, json_list(sorted_unique(views(f.tools@)))) + seq![44u8] + json_member("sandbox_level"@, json_string(normalized(f.sandbox_level@))) + seq![44u8] + json_member("network_access"@, json_string(normalized(f.network_access@))) + seq![44u8] + json_member("gpu_class"@, json_string(normalized(f.gpu_class@))) + seq![44u8] + json_member("privacy_tier"@, json_string(normalized(f.privacy_tier@))) + seq![44u8] + json_member("region"@, json_string(normalized(f.region@))) + seq![44u8] + json_member("pricing_band"@, json_string(normalized(f.pricing_band@))) + seq![44u8], json_member("tools"@, json_list(sorted_unique(views(f.tools@)))), json_member("trust_tier"@, json_string(normalized(f.trust_tier@))));
        lemma_contains_extend(seq![123u8] + json_member("ontologies"@, json_list(sorted_unique(views(f.ontologies@)))) + seq![44u8] + json_member("tools"@, json_list(sorted_unique(views(f.tools@)))) + seq![44u8] + json_member("sandbox_level"@, json_string(normalized(f.sandbox_level@))) + seq![44u8] + json_member("network_access"@, json_string(normalized(f.network_access@))) + seq![44u8] + json_member("gpu_class"@, json_string(normalized(f.gpu_class@))) + seq![44u8] + json_member("privacy_tier"@, json_string(normalized(f.privacy_tier@))) + seq![44u8] + json_member("region"@, json_string(normalized(f.region@))) + seq![44u8] + json_member("pricing_band"@, json_string(normalized(f.pricing_band@))) + seq![44u8] + json_member("trust_tier"@, json_string(normalized(f.trust_tier@))), json_member("tools"@, json_list(sorted_unique(views(f.tools@)))), seq![44u8]);
        lemma_contains_extend(seq![123u8] + json_member("ontologies"@, json_list(sorted_unique(views(f.ontologies@)))) + seq![44u8] + json_member("tools"@, json_list(sorted_unique(views(f.tools@)))) + seq![44u8] + json_member("sandbox_level"@, json_string(normalized(f.sandbox_level@))) + seq![44u8] + json_member("network_access"@, json_string(normalized(f.network_access@))) + seq![44u8] + json_member("gpu_class"@, json_string(normalized(f.gpu_class@))) + seq![44u8] + json_member("privacy_tier"@, json_string(normalized(f.privacy_tier@))) + seq![44u8] + json_member("region"@, json_string(normalized(f.region@))) + seq![44u8] + json_member("pricing_band"@, json_string(normalized(f.pricing_band@))) + seq![44u8] + json_member("trust_tier"@, json_string(normalized(f.trust_tier@))) + seq![44u8], json_member("tools"@, json_list(sorted_unique(views(f.tools@)))), json_member("status"@, seq![48u8]));
        lemma_contains_extend(seq![123u8] + json_member("ontologies"@, json_list(sorted_unique(views(f.ontologies@)))) + seq![44u8] + json_member("tools"@, json_list(sorted_unique(views(f.tools@)))) + seq![44u8] + json_member("sandbox_level"@, json_string(normalized(f.sandbox_level@))) + seq![44u8] + json_member("network_access"@, json_string(normalized(f.network_access@))) + seq![44u8] + json_member("gpu_class"@, json_string(normalized(f.gpu_class@))) + seq![44u8] + json_member("privacy_tier"@, json_string(normalized(f.privacy_tier@))) + seq![44u8] + json_member("region"@, json_string(normalized(f.region@))) + seq![44u8] + json_member("pricing_band"@, json_string(normalized(f.pricing_band@))) + seq![44u8] + json_member("trust_tier"@, json_string(normalized(f.trust_tier@))) + seq![44u8] + json_member("status"@, seq![48u8]), json_member("tools"@, json_list(sorted_unique(views(f.tools@)))), seq![125u8]);
    }
    assert(contains_bytes(j, json_member("sandbox_level"@, json_string(normalized(f.sandbox_level@))))) by {
        lemma_contains_last(seq![123u8] + json_member("ontologies"@, json_list(sorted_unique(views(f.ontologies@)))) + seq![44u8] + json_member("tools"@, json_list(sorted_unique(views(f.tools@)))) + seq![44u8], json_member("sandbox_level"@, json_string(normalized(f.sandbox_level@))));
        lemma_contains_extend(seq![123u8] + json_member("ontologies"@, json_list(sorted_unique(views(f.ontologies@)))) + seq![44u8] + json_member("tools"@, json_list(sorted_unique(views(f.tools@)))) + seq![44u8] + json_member("sandbox_level"@, json_string(normalized(f.sandbox_level@))), json_member("sandbox_level"@, json_string(normalized(f.sandbox_level@))), seq![44u8]);
        lemma_contains_extend(seq![123u8] + json_member("ontologies"@, json_list(sorted_unique(views(f.ontologies@)))) + seq![44u8] + json_member("tools"@, json_list(sorted_unique(views(f.tools@)))) + seq![44u8] + json_member("sandbox_level"@, json_string(normalized(f.sandbox_level@))) + seq![44u8], json_member("sandbox_level"@, json_string(normalized(f.sandbox_level@))), json_member("network_access"@, json_string(normalized(f.network_access@))));
        lemma_contains_extend(seq![123u8] + json_member("ontologies"@, json_list(sorted_unique(views(f.ontologies@)))) + seq![44u8] + json_member("tools"@, json_list(sorted_unique(views(f.tools@)))) + seq![44u8] + json_member("sandbox_level"@, json_string(normalized(f.sandbox_level@))) + seq![44u8] + json_member("network_access"@, json_string(normalized(f.network_access@))), json_member("sandbox_level"@, json_string(normalized(f.sandbox_level@))), seq![44u8]);
        lemma_contains_extend(seq![123u8] + json_member("ontologies"@, json_list(sorted_unique(views(f.ontologies@)))) + seq![44u8] + json_member("tools"@, json_list(sorted_unique(views(f.tools@)))) + seq![44u8] + json_member("sandbox_level"@, json_string(normalized(f.sandbox_level@))) + seq![44u8] + json_member("network_access"@, json_string(normalized(f.network_access@))) + seq![44u8], json_member("sandbox_level"@, json_string(normalized(f.sandbox_level@))), json_member("gpu_class"@, json_string(normalized(f.gpu_class@))));
        lemma_contains_extend(seq![123u8] + json_member("ontologies"@, json_list(sorted_unique(views(f.ontologies@)))) + seq![44u8] + json_member("tools"@, json_list(sorted_unique(views(f.tools@)))) + seq![44u8] + json_member("sandbox_level"@, json_string(normalized(f.sandbox_level@))) + seq![44u8] + json_member("network_access"@, json_string(normalized(f.network_access@))) + seq![44u8] + json_member("gpu_class"@, json_string(normalized(f.gpu_class@))), json_member("sandbox_level"@, json_string(normalized(f.sandbox_level@))), seq![44u8]);
        lemma_contains_extend(seq![123u8] + json_member("ontologies"@, json_list(sorted_unique(views(f.ontologies@)))) + seq![44u8] + json_member("tools"@, json_list(sorted_unique(views(f.tools@)))) + seq![44u8] + json_member("sandbox_level"@, json_string(normalized(f.sandbox_level@))) + seq![44u8] + json_member("network_access"@, json_string(normalized(f.network_access@))) + seq![44u8] + json_member("gpu_class"@, json_string(normalized(f.gpu_class@))) + seq![44u8], json_member("sandbox_level"@, json_string(normalized(f.sandbox_level@))), json_member("privacy_tier"@, json_string(normalized(f.privacy_tier@))));
        lemma_contains_extend(seq![123u8] + json_member("ontologies"@, json_list(sorted_unique(views(f.ontologies@)))) + seq![44u8] + json_member("tools"@, json_list(sorted_unique(views(f.tools@)))) + seq![44u8] + json_member("sandbox_level"@, json_string(normalized(f.sandbox_level@))) + seq![44u8] + json_member("network_access"@, json_string(normalized(f.network_access@))) + seq![44u8] + json_member("gpu_class"@, json_string(normalized(f.gpu_class@))) + seq![44u8] + json_member("privacy_tier"@, json_string(normalized(f.privacy_tier@))), json_member("sandbox_level"@, json_string(normalized(f.sandbox_level@))), seq![44u8]);
        lemma_contains_extend(seq![123u8] + json_member("ontologies"@, json_list(sorted_unique(views(f.ontologies@)))) + seq![44u8] + json_member("tools"@, json_list(sorted_unique(views(f.tools@)))) + seq![44u8] + json_member("sandbox_level"@, json_string(normalized(f.sandbox_level@))) + seq![44u8] + json_member("network_access"@, json_string(normalized(f.network_access@))) + seq![44u8] + json_member("gpu_class"@, json_string(normalized(f.gpu_class@))) + seq![44u8] + json_member("privacy_tier"@, json_string(normalized(f.privacy_tier@))) + seq![44u8], json_member("sandbox_level"@, json_string(normalized(f.sandbox_level@))), json_member("region"@, json_string(normalized(f.region@))));
        lemma_contains_extend(seq![123u8] + json_member("ontologies"@, json_list(sorted_unique(views(f.ontologies@)))) + seq![44u8] + json_member("tools"@, json_list(sorted_unique(views(f.tools@)))) + seq![44u8] + json_member("sandbox_level"@, json_string(normalized(f.sandbox_level@))) + seq![44u8] + json_member("network_access"@, json_string(normalized(f.network_access@))) + seq![44u8] + json_member("gpu_class"@, json_string(normalized(f.gpu_class@))) + seq![44u8] + json_member("privacy_tier"@, json_string(normalized(f.privacy_tier@))) + seq![44u8] + json_member("region"@, json_string(normalized(f.region@))), json_member("sandbox_level"@, json_string(normalized(f.sandbox_level@))), seq![44u8]);
        lemma_contains_extend(seq![123u8] + json_member("ontologies"@, json_list(sorted_unique(views(f.ontologies@)))) + seq![44u8] + json_member("tools"@, json_list(sorted_unique(views(f.tools@)))) + seq![44u8] + json_member("sandbox_level"@, json_string(normalized(f.sandbox_level@))) + seq![44u8] + json_member("network_access"@, json_string(normalized(f.network_access@))) + seq![44u8] + json_member("gpu_class"@, json_string(normalized(f.gpu_class@))) + seq![44u8] + json_member("privacy_tier"@, json_string(normalized(f.privacy_tier@))) + seq![44u8] + json_member("region"@, json_string(normalized(f.region@))) + seq![44u8], json_member("sandbox_level"@, json_string(normalized(f.sandbox_level@))), json_member("pricing_band"@, json_string(normalized(f.pricing_band@))));
        lemma_contains_extend(seq![123u8] + json_member("ontologies"@, json_list(sorted_unique(views(f.ontologies@)))) + seq![44u8] + json_member("tools"@, json_list(sorted_unique(views(f.tools@)))) + seq![44u8] + json_member("sandbox_level"@, json_string(normalized(f.sandbox_level@))) + seq![44u8] + json_member("network_access"@, json_string(normalized(f.network_access@))) + seq![44u8] + json_member("gpu_class"@, json_string(normalized(f.gpu_class@))) + seq![44u8] + json_member("privacy_tier"@, json_string(normalized(f.privacy_tier@))) + seq![44u8] + json_member("region"@, json_string(normalized(f.region@))) + seq![44u8] + json_member("pricing_band"@, json_string(normalized(f.pricing_band@))), json_member("sandbox_level"@, json_string(normalized(f.sandbox_level@))), seq![44u8]);
        lemma_contains_extend(seq![123u8] + json_member("ontologies"@, json_list(sorted_unique(views(f.ontologies@)))) + seq![44u8] + json_member("tools"@, json_list(sorted_unique(views(f.tools@)))) + seq![44u8] + json_member("sandbox_level"@, json_string(normalized(f.sandbox_level@))) + seq![44u8] + json_member("network_access"@, json_string(normalized(f.network_access@))) + seq![44u8] + json_member("gpu_class"@, json_string(normalized(f.gpu_class@))) + seq![44u8] + json_member("privacy_tier"@, json_string(normalized(f.privacy_tier@))) + seq![44u8] + json_member("region"@, json_string(normalized(f.region@))) + seq![44u8] + json_member("pricing_band"@, json_string(normalized(f.pricing_band@))) + seq![44u8], json_member("sandbox_level"@, json_string(normalized(f.sandbox_level@))), json_member("trust_tier"@, json_string(normalized(f.trust_tier@))));
        lemma_contains_extend(seq![123u8] + json_member("ontologies"@, json_list(sorted_unique(views(f.ontologies@)))) + seq![44u8] + json_member("tools"@, json_list(sorted_unique(views(f.tools@)))) + seq![44u8] + json_member("sandbox_level"@, json_string(normalized(f.sandbox_level@))) + seq![44u8] + json_member("network_access"@, json_string(normalized(f.network_access@))) + seq![44u8] + json_member("gpu_class"@, json_string(normalized(f.gpu_class@))) + seq![44u8] + json_member("privacy_tier"@, json_string(normalized(f.privacy_tier@))) + seq![44u8] + json_member("region"@, json_string(normalized(f.region@))) + seq![44u8] + json_member("pricing_band"@, json_string(normalized(f.pricing_band@))) + seq![44u8] + json_member("trust_tier"@, json_string(normalized(f.trust_tier@))), json_member("sandbox_level"@, json_string(normalized(f.sandbox_level@))), seq![44u8]);
        lemma_contains_extend(seq![123u8] + json_member("ontologies"@, json_list(sorted_unique(views(f.ontologies@)))) + seq![44u8] + json_member("tools"@, json_list(sorted_unique(views(f.tools@)))) + seq![44u8] + json_member("sandbox_level"@, json_string(normalized(f.sandbox_level@))) + seq![44u8] + json_member("network_access"@, json_string(normalized(f.network_access@))) + seq![44u8] + json_member("gpu_class"@, json_string(normalized(f.gpu_class@))) + seq![44u8] + json_member("privacy_tier"@, json_string(normalized(f.privacy_tier@))) + seq![44u8] + json_member("region"@, json_string(normalized(f.region@))) + seq![44u8] + json_member("pricing_band"@, json_string(normalized(f.pricing_band@))) + seq![44u8] + json_member("trust_tier"@, json_string(normalized(f.trust_tier@))) + seq![44u8], json_member("sandbox_level"@, json_string(normalized(f.sandbox_level@))), json_member("status"@, seq![48u8]));
        lemma_contains_extend(seq![123u8] + json_member("ontologies"@, json_list(sorted_unique(views(f.ontologies@)))) + seq![44u8] + json_member("tools"@, json_list(sorted_unique(views(f.tools@)))) + seq![44u8] + json_member("sandbox_level"@, json_string(normalized(f.sandbox_level@))) + seq![44u8] + json_member("network_access"@, json_string(normalized(f.network_access@))) + seq![44u8] + json_member("gpu_class"@, json_string(normalized(f.gpu_class@))) + seq![44u8] + json_member("privacy_tier"@, json_string(normalized(f.privacy_tier@))) + seq![44u8] + json_member("region"@, json_string(normalized(f.region@))) + seq![44u8] + json_member("pricing_band"@, json_string(normalized(f.pricing_band@))) + seq![44u8] + json_member("trust_tier"@, json_string(normalized(f.trust_tier@))) + seq![44u8] + json_member("status"@, seq![48u8]), json_member("sandbox_level"@, json_string(normalized(f.sandbox_level@))), seq![125u8]);
    }
    assert(contains_bytes(j, json_member("network_access"@, json_string(normalized(f.network_access@))))) by {
        lemma_contains_last(seq![123u8] + json_member("ontologies"@, json_list(sorted_unique(views(f.ontologies@)))) + seq![44u8] + json_member("tools"@, json_list(sorted_unique(views(f.tools@)))) + seq![44u8] + json_member("sandbox_level"@, json_string(normalized(f.sandbox_level@))) + seq![44u8], json_member("network_access"@, json_string(normalized(f.network_access@))));
        lemma_contains_extend(seq![123u8] + json_member("ontologies"@, json_list(sorted_unique(views(f.ontologies@)))) + seq![44u8] + json_member("tools"@, json_list(sorted_unique(views(f.tools@)))) + seq![44u8] + json_member("sandbox_level"@, json_string(normalized(f.sandbox_level@))) + seq![44u8] + json_member("network_access"@, json_string(normalized(f.network_access@))), json_member("network_access"@, json_string(normalized(f.network_access@))), seq![44u8]);
        lemma_contains_extend(seq![123u8] + json_member("ontologies"@, json_list(sorted_unique(views(f.ontologies@)))) + seq![44u8] + json_member("tools"@, json_list(sorted_unique(views(f.tools@)))) + seq![44u8] + json_member("sandbox_level"@, json_string(normalized(f.sandbox_level@))) + seq![44u8] + json_member("network_access"@, json_string(normalized(f.network_access@))) + seq![44u8], json_member("network_access"@, json_string(normalized(f.network_access@))), json_member("gpu_class"@, json_string(normalized(f.gpu_class@))));
        lemma_contains_extend(seq![123u8] + json_member("ontologies"@, json_list(sorted_unique(views(f.ontologies@)))) + seq![44u8] + json_member("tools"@, json_list(sorted_unique(views(f.tools@)))) + seq![44u8] + json_member("sandbox_level"@, json_string(normalized(f.sandbox_level@))) + seq![44u8] + json_member("network_access"@, json_string(normalized(f.network_access@))) + seq![44u8] + json_member("gpu_class"@, json_string(normalized(f.gpu_class@))), json_member("network_access"@, json_string(normalized(f.network_access@))), seq![44u8]);
        lemma_contains_extend(seq![123u8] + json_member("ontologies"@, json_list(sorted_unique(views(f.ontologies@)))) + seq![44u8] + json_member("tools"@, json_list(sorted_unique(views(f.tools@)))) + seq![44u8] + json_member("sandbox_level"@, json_string(normalized(f.sandbox_level@))) + seq![44u8] + json_member("network_access"@, json_string(normalized(f.network_access@))) + seq![44u8] + json_member("gpu_class"@, json_string(normalized(f.gpu_class@))) + seq![44u8], json_member("network_access"@, json_string(normalized(f.network_access@))), json_member("privacy_tier"@, json_string(normalized(f.privacy_tier@))));
        lemma_contains_extend(seq![123u8] + json_member("ontologies"@, json_list(sorted_unique(views(f.ontologies@)))) + seq![44u8] + json_member("tools"@, json_list(sorted_unique(views(f.tools@)))) + seq![44u8] + json_member("sandbox_level"@, json_string(normalized(f.sandbox_level@))) + seq![44u8] + json_member("network_access"@, json_string(normalized(f.network_access@))) + seq![44u8] + json_member("gpu_class"@, json_string(normalized(f.gpu_class@))) + seq![44u8] + json_member("privacy_tier"@, json_string(normalized(f.privacy_tier@))), json_member("network_access"@, json_string(normalized(f.network_access@))), seq![44u8]);
        lemma_contains_extend(seq![123u8] + json_member("ontologies"@, json_list(sorted_unique(views(f.ontologies@)))) + seq![44u8] + json_member("tools"@, json_list(sorted_unique(views(f.tools@)))) + seq![44u8] + json_member("sandbox_level"@, json_string(normalized(f.sandbox_level@))) + seq![44u8] + json_member("network_access"@, json_string(normalized(f.network_access@))) + seq![44u8] + json_member("gpu_class"@, json_string(normalized(f.gpu_class@))) + seq![44u8] + json_member("privacy_tier"@, json_string(normalized(f.privacy_tier@))) + seq![44u8], json_member("network_access"@, json_string(normalized(f.network_access@))), json_member("region"@, json_string(normalized(f.region@))));
        lemma_contains_extend(seq![123u8] + json_member("ontologies"@, json_list(sorted_unique(views(f.ontologies@)))) + seq![44u8] + json_member("tools"@, json_list(sorted_unique(views(f.tools@)))) + seq![44u8] + json_member("sandbox_level"@, json_string(normalized(f.sandbox_level@))) + seq![44u8] + json_member("network_access"@, json_string(normalized(f.network_access@))) + seq![44u8] + json_member("gpu_class"@, json_string(normalized(f.gpu_class@))) + seq![44u8] + json_member("privacy_tier"@, json_string(normalized(f.privacy_tier@))) + seq![44u8] + json_member("region"@, json_string(normalized(f.region@))), json_member("network_access"@, json_string(normalized(f.network_access@))), seq![44u8]);
        lemma_contains_extend(seq![123u8] + json_member("ontologies"@, json_list(sorted_unique(views(f.ontologies@)))) + seq![44u8] + json_member("tools"@, json_list(sorted_unique(views(f.tools@)))) + seq![44u8] + json_member("sandbox_level"@, json_string(normalized(f.sandbox_level@))) + seq![44u8] + json_member("network_access"@, json_string(normalized(f.network_access@))) + seq![44u8] + json_member("gpu_class"@, json_string(normalized(f.gpu_class@))) + seq![44u8] + json_member("privacy_tier"@, json_string(normalized(f.privacy_tier@))) + seq![44u8] + json_member("region"@, json_string(normalized(f.region@))) + seq![44u8], json_member("network_access"@, json_string(normalized(f.network_access@))), json_member("pricing_band"@, json_string(normalized(f.pricing_band@))));
        lemma_contains_extend(seq![123u8] + json_member("ontologies"@, json_list(sorted_unique(views(f.ontologies@)))) + seq![44u8] + json_member("tools"@, json_list(sorted_unique(views(f.tools@)))) + seq![44u8] + json_member("sandbox_level"@, json_string(normalized(f.sandbox_level@))) + seq![44u8] + json_member("network_access"@, json_string(normalized(f.network_access@))) + seq![44u8] + json_member("gpu_class"@, json_string(normalized(f.gpu_class@))) + seq![44u8] + json_member("privacy_tier"@, json_string(normalized(f.privacy_tier@))) + seq![44u8] + json_member("region"@, json_string(normalized(f.region@))) + seq![44u8] + json_member("pricing_band"@, json_string(normalized(f.pricing_band@))), json_member("network_access"@, json_string(normalized(f.network_access@))), seq![44u8]);
        lemma_contains_extend(seq![123u8] + json_member("ontologies"@, json_list(sorted_unique(views(f.ontologies@)))) + seq![44u8] + json_member("tools"@, json_list(sorted_unique(views(f.tools@)))) + seq![44u8] + json_member("sandbox_level"@, json_string(normalized(f.sandbox_level@))) + seq![44u8] + json_member("network_access"@, json_string(normalized(f.network_access@))) + seq![44u8] + json_member("gpu_class"@, json_string(normalized(f.gpu_class@))) + seq![44u8] + json_member("privacy_tier"@, json_string(normalized(f.privacy_tier@))) + seq![44u8] + json_member("region"@, json_string(normalized(f.region@))) + seq![44u8] + json_member("pricing_band"@, json_string(normalized(f.pricing_band@))) + seq![44u8], json_member("network_access"@, json_string(normalized(f.network_access@))), json_member("trust_tier"@, json_string(normalized(f.trust_tier@))));
        lemma_contains_extend(seq![123u8] + json_member("ontologies"@, json_list(sorted_unique(views(f.ontologies@)))) + seq![44u8] + json_member("tools"@, json_list(sorted_unique(views(f.tools@)))) + seq![44u8] + json_member("sandbox_level"@, json_string(normalized(f.sandbox_level@))) + seq![44u8] + json_member("network_access"@, json_string(normalized(f.network_access@))) + seq![44u8] + json_member("gpu_class"@, json_string(normalized(f.gpu_class@))) + seq![44u8] + json_member("privacy_tier"@, json_string(normalized(f.privacy_tier@))) + seq![44u8] + json_member("region"@, json_string(normalized(f.region@))) + seq![44u8] + json_member("pricing_band"@, json_string(normalized(f.pricing_band@))) + seq![44u8] + json_member("trust_tier"@, json_string(normalized(f.trust_tier@))), json_member("network_access"@, json_string(normalized(f.network_access@))), seq![44u8]);
        lemma_contains_extend(seq![123u8] + json_member("ontologies"@, json_list(sorted_unique(views(f.ontologies@)))) + seq![44u8] + json_member("tools"@, json_list(sorted_unique(views(f.tools@)))) + seq![44u8] + json_member("sandbox_level"@, json_string(normalized(f.sandbox_level@))) + seq![44u8] + json_member("network_access"@, json_string(normalized(f.network_access@))) + seq![44u8] + json_member("gpu_class"@, json_string(normalized(f.gpu_class@))) + seq![44u8] + json_member("privacy_tier"@, json_string(normalized(f.privacy_tier@))) + seq![44u8] + json_member("region"@, json_string(normalized(f.region@))) + seq![44u8] + json_member("pricing_band"@, json_string(normalized(f.pricing_band@))) + seq![44u8] + json_member("trust_tier"@, json_string(normalized(f.trust_tier@))) + seq![44u8], json_member("network_access"@, json_string(normalized(f.network_access@))), json_member("status"@, seq![48u8]));
        lemma_contains_extend(seq![123u8] + json_member("ontologies"@, json_list(sorted_unique(views(f.ontologies@)))) + seq![44u8] + json_member("tools"@, json_list(sorted_unique(views(f.tools@)))) + seq![44u8] + json_member("sandbox_level"@, json_string(normalized(f.sandbox_level@))) + seq![44u8] + json_member("network_access"@, json_string(normalized(f.network_access@))) + seq![44u8] + json_member("gpu_class"@, json_string(normalized(f.gpu_class@))) + seq![44u8] + json_member("privacy_tier"@, json_string(normalized(f.privacy_tier@))) + seq![44u8] + json_member("region"@, json_string(normalized(f.region@))) + seq![44u8] + json_member("pricing_band"@, json_string(normalized(f.pricing_band@))) + seq![44u8] + json_member("trust_tier"@, json_string(normalized(f.trust_tier@))) + seq![44u8] + json_member("status"@, seq![48u8]), json_member("network_access"@, json_string(normalized(f.network_access@))), seq![125u8]);
    }
    assert(contains_bytes(j, json_member("gpu_class"@, json_string(normalized(f.gpu_class@))))) by {
        lemma_contains_last(seq![123u8] + json_member("ontologies"@, json_list(sorted_unique(views(f.ontologies@)))) + seq![44u8] + json_member("tools"@, json_list(sorted_unique(views(f.tools@)))) + seq![44u8] + json_member("sandbox_level"@, json_string(normalized(f.sandbox_level@))) + seq![44u8] + json_member("network_access"@, json_string(normalized(f.network_access@))) + seq![44u8], json_member("gpu_class"@, json_string(normalized(f.gpu_class@))));
        lemma_contains_extend(seq![123u8] + json_member("ontologies"@, json_list(sorted_unique(views(f.ontologies@)))) + seq![44u8] + json_member("tools"@, json_list(sorted_unique(views(f.tools@)))) + seq![44u8] + json_member("sandbox_level"@, json_string(normalized(f.sandbox_level@))) + seq![44u8] + json_member("network_access"@, json_string(normalized(f.network_access@))) + seq![44u8] + json_member("gpu_class"@, json_string(normalized(f.gpu_class@))), json_member("gpu_class"@, json_string(normalized(f.gpu_class@))), seq![44u8]);
        lemma_contains_extend(seq![123u8] + json_member("ontologies"@, json_list(sorted_unique(views(f.ontologies@)))) + seq![44u8] + json_member("tools"@, json_list(sorted_unique(views(f.tools@)))) + seq![44u8] + json_member("sandbox_level"@, json_string(normalized(f.sandbox_level@))) + seq![44u8] + json_member("network_access"@, json_string(normalized(f.network_access@))) + seq![44u8] + json_member("gpu_class"@, json_string(normalized(f.gpu_class@))) + seq![44u8], json_member("gpu_class"@, json_string(normalized(f.gpu_class@))), json_member("privacy_tier"@, json_string(normalized(f.privacy_tier@))));
        lemma_contains_extend(seq![123u8] + json_member("ontologies"@, json_list(sorted_unique(views(f.ontologies@)))) + seq![44u8] + json_member("tools"@, json_list(sorted_unique(views(f.tools@)))) + seq![44u8] + json_member("sandbox_level"@, json_string(normalized(f.sandbox_level@))) + seq![44u8] + json_member("network_access"@, json_string(normalized(f.network_access@))) + seq![44u8] + json_member("gpu_class"@, json_string(normalized(f.gpu_class@))) + seq![44u8] + json_member("privacy_tier"@, json_string(normalized(f.privacy_tier@))), json_member("gpu_class"@, json_string(normalized(f.gpu_class@))), seq![44u8]);
        lemma_contains_extend(seq![123u8] + json_member("ontologies"@, json_list(sorted_unique(views(f.ontologies@)))) + seq![44u8] + json_member("tools"@, json_list(sorted_unique(views(f.tools@)))) + seq![44u8] + json_member("sandbox_level"@, json_string(normalized(f.sandbox_level@))) + seq![44u8] + json_member("network_access"@, json_string(normalized(f.network_access@))) + seq![44u8] + json_member("gpu_class"@, json_string(normalized(f.gpu_class@))) + seq![44u8] + json_member("privacy_tier"@, json_string(normalized(f.privacy_tier@))) + seq![44u8], json_member("gpu_class"@, json_string(normalized(f.gpu_class@))), json_member("region"@, json_string(normalized(f.region@))));
        lemma_contains_extend(seq![123u8] + json_member("ontologies"@, json_list(sorted_unique(views(f.ontologies@)))) + seq![44u8] + json_member("tools"@, json_list(sorted_unique(views(f.tools@)))) + seq![44u8] + json_member("sandbox_level"@, json_string(normalized(f.sandbox_level@))) + seq![44u8] + json_member("network_access"@, json_string(normalized(f.network_access@))) + seq![44u8] + json_member("gpu_class"@, json_string(normalized(f.gpu_class@))) + seq![44u8] + json_member("privacy_tier"@, json_string(normalized(f.privacy_tier@))) + seq![44u8] + json_member("region"@, json_string(normalized(f.region@))), json_member("gpu_class"@, json_string(normalized(f.gpu_class@))), seq![44u8]);
        lemma_contains_extend(seq![123u8] + json_member("ontologies"@, json_list(sorted_unique(views(f.ontologies@)))) + seq![44u8] + json_member("tools"@, json_list(sorted_unique(views(f.tools@)))) + seq![44u8] + json_member("sandbox_level"@, json_string(normalized(f.sandbox_level@))) + seq![44u8] + json_member("network_access"@, json_string(normalized(f.network_access@))) + seq![44u8] + json_member("gpu_class"@, json_string(normalized(f.gpu_class@))) + seq![44u8] + json_member("privacy_tier"@, json_string(normalized(f.privacy_tier@))) + seq![44u8] + json_member("region"@, json_string(normalized(f.region@))) + seq![44u8], json_member("gpu_class"@, json_string(normalized(f.gpu_class@))), json_member("pricing_band"@, json_string(normalized(f.pricing_band@))));
        lemma_contains_extend(seq![123u8] + json_member("ontologies"@, json_list(sorted_unique(views(f.ontologies@)))) + seq![44u8] + json_member("tools"@, json_list(sorted_unique(views(f.tools@)))) + seq![44u8] + json_member("sandbox_level"@, json_string(normalized(f.sandbox_level@))) + seq![44u8] + json_member("network_access"@, json_string(normalized(f.network_access@))) + seq![44u8] + json_member("gpu_class"@, json_string(normalized(f.gpu_class@))) + seq![44u8] + json_member("privacy_tier"@, json_string(normalized(f.privacy_tier@))) + seq![44u8] + json_member("region"@, json_string(normalized(f.region@))) + seq![44u8] + json_member("pricing_band"@, json_string(normalized(f.pricing_band@))), json_member("gpu_class"@, json_string(normalized(f.gpu_class@))), seq![44u8]);
        lemma_contains_extend(seq![123u8] + json_member("ontologies"@, json_list(sorted_unique(views(f.ontologies@)))) + seq![44u8] + json_member("tools"@, json_list(sorted_unique(views(f.tools@)))) + seq![44u8] + json_member("sandbox_level"@, json_string(normalized(f.sandbox_level@))) + seq![44u8] + json_member("network_access"@, json_string(normalized(f.network_access@))) + seq![44u8] + json_member("gpu_class"@, json_string(normalized(f.gpu_class@))) + seq![44u8] + json_member("privacy_tier"@, json_string(normalized(f.privacy_tier@))) + seq![44u8] + json_member("region"@, json_string(normalized(f.region@))) + seq![44u8] + json_member("pricing_band"@, json_string(normalized(f.pricing_band@))) + seq![44u8], json_member("gpu_class"@, json_string(normalized(f.gpu_class@))), json_member("trust_tier"@, json_string(normalized(f.trust_tier@))));
        lemma_contains_extend(seq![123u8] + json_member("ontologies"@, json_list(sorted_unique(views(f.ontologies@)))) + seq![44u8] + json_member("tools"@, json_list(sorted_unique(views(f.tools@)))) + seq![44u8] + json_member("sandbox_level"@, json_string(normalized(f.sandbox_level@))) + seq![44u8] + json_member("network_access"@, json_string(normalized(f.network_access@))) + seq![44u8] + json_member("gpu_class"@, json_string(normalized(f.gpu_class@))) + seq![44u8] + json_member("privacy_tier"@, json_string(normalized(f.privacy_tier@))) + seq![44u8] + json_member("region"@, json_string(normalized(f.region@))) + seq![44u8] + json_member("pricing_band"@, json_string(normalized(f.pricing_band@))) + seq![44u8] + json_member("trust_tier"@, json_string(normalized(f.trust_tier@))), json_member("gpu_class"@, json_string(normalized(f.gpu_class@))), seq![44u8]);
        lemma_contains_extend(seq![123u8] + json_member("ontologies"@, json_list(sorted_unique(views(f.ontologies@)))) + seq![44u8] + json_member("tools"@, json_list(sorted_unique(views(f.tools@)))) + seq![44u8] + json_member("sandbox_level"@, json_string(normalized(f.sandbox_level@))) + seq![44u8] + json_member("network_access"@, json_string(normalized(f.network_access@))) + seq![44u8] + json_member("gpu_class"@, json_string(normalized(f.gpu_class@))) + seq![44u8] + json_member("privacy_tier"@, json_string(normalized(f.privacy_tier@))) + seq![44u8] + json_member("region"@, json_string(normalized(f.region@))) + seq![44u8] + json_member("pricing_band"@, json_string(normalized(f.pricing_band@))) + seq![44u8] + json_member("trust_tier"@, json_string(normalized(f.trust_tier@))) + seq![44u8], json_member("gpu_class"@, json_string(normalized(f.gpu_class@))), json_member("status"@, seq![48u8]));
        lemma_contains_extend(seq![123u8] + json_member("ontologies"@, json_list(sorted_unique(views(f.ontologies@)))) + seq![44u8] + json_member("tools"@, json_list(sorted_unique(views(f.tools@)))) + seq![44u8] + json_member("sandbox_level"@, json_string(normalized(f.sandbox_level@))) + seq![44u8] + json_member("network_access"@, json_string(normalized(f.network_access@))) + seq![44u8] + json_member("gpu_class"@, json_string(normalized(f.gpu_class@))) + seq![44u8] + json_member("privacy_tier"@, json_string(normalized(f.privacy_tier@))) + seq![44u8] + json_member("region"@, json_string(normalized(f.region@))) + seq![44u8] + json_member("pricing_band"@, json_string(normalized(f.pricing_band@))) + seq![44u8] + json_member("trust_tier"@, json_string(normalized(f.trust_tier@))) + seq![44u8] + json_member("status"@, seq![48u8]), json_member("gpu_class"@, json_string(normalized(f.gpu_class@))), seq![125u8]);
    }
    assert(contains_bytes(j, json_member("privacy_tier"@, json_string(normalized(f.privacy_tier@))))) by {
        lemma_contains_last(seq![123u8] + json_member("ontologies"@, json_list(sorted_unique(views(f.ontologies@)))) + seq![44u8] + json_member("tools"@, json_list(sorted_unique(views(f.tools@)))) + seq![44u8] + json_member("sandbox_level"@, json_string(normalized(f.sandbox_level@))) + seq![44u8] + json_member("network_access"@, json_string(normalized(f.network_access@))) + seq![44u8] + json_member("gpu_class"@, json_string(normalized(f.gpu_class@))) + seq![44u8], json_member("privacy_tier"@, json_string(normalized(f.privacy_tier@))));
        lemma_contains_extend(seq![123u8] + json_member("ontologies"@, json_list(sorted_unique(views(f.ontologies@)))) + seq![44u8] + json_member("tools"@, json_list(sorted_unique(views(f.tools@)))) + seq![44u8] + json_member("sandbox_level"@, json_string(normalized(f.sandbox_level@))) + seq![44u8] + json_member("network_access"@, json_string(normalized(f.network_access@))) + seq![44u8] + json_member("gpu_class"@, json_string(normalized(f.gpu_class@))) + seq![44u8] + json_member("privacy_tier"@, json_string(normalized(f.privacy_tier@))), json_member("privacy_tier"@, json_string(normalized(f.privacy_tier@))), seq![44u8]);
        lemma_contains_extend(seq![123u8] + json_member("ontologies"@, json_list(sorted_unique(views(f.ontologies@)))) + seq![44u8] + json_member("tools"@, json_list(sorted_unique(views(f.tools@)))) + seq![44u8] + json_member("sandbox_level"@, json_string(normalized(f.sandbox_level@))) + seq![44u8] + json_member("network_access"@, json_string(normalized(f.network_access@))) + seq![44u8] + json_member("gpu_class"@, json_string(normalized(f.gpu_class@))) + seq![44u8] + json_member("privacy_tier"@, json_string(normalized(f.privacy_tier@))) + seq![44u8], json_member("privacy_tier"@, json_string(normalized(f.privacy_tier@))), json_member("region"@, json_string(normalized(f.region@))));
        lemma_contains_extend(seq![123u8] + json_member("ontologies"@, json_list(sorted_unique(views(f.ontologies@)))) + seq![44u8] + json_member("tools"@, json_list(sorted_unique(views(f.tools@)))) + seq![44u8] + json_member("sandbox_level"@, json_string(normalized(f.sandbox_level@))) + seq![44u8] + json_member("network_access"@, json_string(normalized(f.network_access@))) + seq![44u8] + json_member("gpu_class"@, json_string(normalized(f.gpu_class@))) + seq![44u8] + json_member("privacy_tier"@, json_string(normalized(f.privacy_tier@))) + seq![44u8] + json_member("region"@, json_string(normalized(f.region@))), json_member("privacy_tier"@, json_string(normalized(f.privacy_tier@))), seq![44u8]);
        lemma_contains_extend(seq![123u8] + json_member("ontologies"@, json_list(sorted_unique(views(f.ontologies@)))) + seq![44u8] + json_member("tools"@, json_list(sorted_unique(views(f.tools@)))) + seq![44u8] + json_member("sandbox_level"@, json_string(normalized(f.sandbox_level@))) + seq![44u8] + json_member("network_access"@, json_string(normalized(f.network_access@))) + seq![44u8] + json_member("gpu_class"@, json_string(normalized(f.gpu_class@))) + seq![44u8] + json_member("privacy_tier"@, json_string(normalized(f.privacy_tier@))) + seq![44u8] + json_member("region"@, json_string(normalized(f.region@))) + seq![44u8], json_member("privacy_tier"@, json_string(normalized(f.privacy_tier@))), json_member("pricing_band"@, json_string(normalized(f.pricing_band@))));
        lemma_contains_extend(seq![123u8] + json_member("ontologies"@, json_list(sorted_unique(views(f.ontologies@)))) + seq![44u8] + json_member("tools"@, json_list(sorted_unique(views(f.tools@)))) + seq![44u8] + json_member("sandbox_level"@, json_string(normalized(f.sandbox_level@))) + seq![44u8] + json_member("network_access"@, json_string(normalized(f.network_access@))) + seq![44u8] + json_member("gpu_class"@, json_string(normalized(f.gpu_class@))) + seq![44u8] + json_member("privacy_tier"@, json_string(normalized(f.privacy_tier@))) + seq![44u8] + json_member("region"@, json_string(normalized(f.region@))) + seq![44u8] + json_member("pricing_band"@, json_string(normalized(f.pricing_band@))), json_member("privacy_tier"@, json_string(normalized(f.privacy_tier@))), seq![44u8]);
        lemma_contains_extend(seq![123u8] + json_member("ontologies"@, json_list(sorted_unique(views(f.ontologies@)))) + seq![44u8] + json_member("tools"@, json_list(sorted_unique(views(f.tools@)))) + seq![44u8] + json_member("sandbox_level"@, json_string(normalized(f.sandbox_level@))) + seq![44u8] + json_member("network_access"@, json_string(normalized(f.network_access@))) + seq![44u8] + json_member("gpu_class"@, json_string(normalized(f.gpu_class@))) + seq![44u8] + json_member("privacy_tier"@, json_string(normalized(f.privacy_tier@))) + seq![44u8] + json_member("region"@, json_string(normalized(f.region@))) + seq![44u8] + json_member("pricing_band"@, json_string(normalized(f.pricing_band@))) + seq![44u8], json_member("privacy_tier"@, json_string(normalized(f.privacy_tier@))), json_member("trust_tier"@, json_string(normalized(f.trust_tier@))));
        lemma_contains_extend(seq![123u8] + json_member("ontologies"@, json_list(sorted_unique(views(f.ontologies@)))) + seq![44u8] + json_member("tools"@, json_list(sorted_unique(views(f.tools@)))) + seq![44u8] + json_member("sandbox_level"@, json_string(normalized(f.sandbox_level@))) + seq![44u8] + json_member("network_access"@, json_string(normalized(f.network_access@))) + seq![44u8] + json_member("gpu_class"@, json_string(normalized(f.gpu_class@))) + seq![44u8] + json_member("privacy_tier"@, json_string(normalized(f.privacy_tier@))) + seq![44u8] + json_member("region"@, json_string(normalized(f.region@))) + seq![44u8] + json_member("pricing_band"@, json_string(normalized(f.pricing_band@))) + seq![44u8] + json_member("trust_tier"@, json_string(normalized(f.trust_tier@))), json_member("privacy_tier"@, json_string(normalized(f.privacy_tier@))), seq![44u8]);
        lemma_contains_extend(seq![123u8] + json_member("ontologies"@, json_list(sorted_unique(views(f.ontologies@)))) + seq![44u8] + json_member("tools"@, json_list(sorted_unique(views(f.tools@)))) + seq![44u8] + json_member("sandbox_level"@, json_string(normalized(f.sandbox_level@))) + seq![44u8] + json_member("network_access"@, json_string(normalized(f.network_access@))) + seq![44u8] + json_member("gpu_class"@, json_string(normalized(f.gpu_class@))) + seq![44u8] + json_member("privacy_tier"@, json_string(normalized(f.privacy_tier@))) + seq![44u8] + json_member("region"@, json_string(normalized(f.region@))) + seq![44u8] + json_member("pricing_band"@, json_string(normalized(f.pricing_band@))) + seq![44u8] + json_member("trust_tier"@, json_string(normalized(f.trust_tier@))) + seq![44u8], json_member("privacy_tier"@, json_string(normalized(f.privacy_tier@))), json_member("status"@, seq![48u8]));
        lemma_contains_extend(seq![123u8] + json_member("ontologies"@, json_list(sorted_unique(views(f.ontologies@)))) + seq![44u8] + json_member("tools"@, json_list(sorted_unique(views(f.tools@)))) + seq![44u8] + json_member("sandbox_level"@, json_string(normalized(f.sandbox_level@))) + seq![44u8] + json_member("network_access"@, json_string(normalized(f.network_access@))) + seq![44u8] + json_member("gpu_class"@, json_string(normalized(f.gpu_class@))) + seq![44u8] + json_member("privacy_tier"@, json_string(normalized(f.privacy_tier@))) + seq![44u8] + json_member("region"@, json_string(normalized(f.region@))) + seq![44u8] + json_member("pricing_band"@, json_string(normalized(f.pricing_band@))) + seq![44u8] + json_member("trust_tier"@, json_string(normalized(f.trust_tier@))) + seq![44u8] + json_member("status"@, seq![48u8]), json_member("privacy_tier"@, json_string(normalized(f.privacy_tier@))), seq![125u8]);
    }
    assert(contains_bytes(j, json_member("region"@, json_string(normalized(f.region@))))) by {
        lemma_contains_last(seq![123u8] + json_member("ontologies"@, json_list(sorted_unique(views(f.ontologies@)))) + seq![44u8] + json_member("tools"@, json_list(sorted_unique(views(f.tools@)))) + seq![44u8] + json_member("sandbox_level"@, json_string(normalized(f.sandbox_level@))) + seq![44u8] + json_member("network_access"@, json_string(normalized(f.network_access@))) + seq![44u8] + json_member("gpu_class"@, json_string(normalized(f.gpu_class@))) + seq![44u8] + json_member("privacy_tier"@, json_string(normalized(f.privacy_tier@))) + seq![44u8], json_member("region"@, json_string(normalized(f.region@))));
        lemma_contains_extend(seq![123u8] + json_member("ontologies"@, json_list(sorted_unique(views(f.ontologies@)))) + seq![44u8] + json_member("tools"@, json_list(sorted_unique(views(f.tools@)))) + seq![44u8] + json_member("sandbox_level"@, json_string(normalized(f.sandbox_level@))) + seq![44u8] + json_member("network_access"@, json_string(normalized(f.network_access@))) + seq![44u8] + json_member("gpu_class"@, json_string(normalized(f.gpu_class@))) + seq![44u8] + json_member("privacy_tier"@, json_string(normalized(f.privacy_tier@))) + seq![44u8] + json_member("region"@, json_string(normalized(f.region@))), json_member("region"@, json_string(normalized(f.region@))), seq![44u8]);
        lemma_contains_extend(seq![123u8] + json_member("ontologies"@, json_list(sorted_unique(views(f.ontologies@)))) + seq![44u8] + json_member("tools"@, json_list(sorted_unique(views(f.tools@)))) + seq![44u8] + json_member("sandbox_level"@, json_string(normalized(f.sandbox_level@))) + seq![44u8] + json_member("network_access"@, json_string(normalized(f.network_access@))) + seq![44u8] + json_member("gpu_class"@, json_string(normalized(f.gpu_class@))) + seq![44u8] + json_member("privacy_tier"@, json_string(normalized(f.privacy_tier@))) + seq![44u8] + json_member("region"@, json_string(normalized(f.region@))) + seq![44u8], json_member("region"@, json_string(normalized(f.region@))), json_member("pricing_band"@, json_string(normalized(f.pricing_band@))));
        lemma_contains_extend(seq![123u8] + json_member("ontologies"@, json_list(sorted_unique(views(f.ontologies@)))) + seq![44u8] + json_member("tools"@, json_list(sorted_unique(views(f.tools@)))) + seq![44u8] + json_member("sandbox_level"@, json_string(normalized(f.sandbox_level@))) + seq![44u8] + json_member("network_access"@, json_string(normalized(f.network_access@))) + seq![44u8] + json_member("gpu_class"@, json_string(normalized(f.gpu_class@))) + seq![44u8] + json_member("privacy_tier"@, json_string(normalized(f.privacy_tier@))) + seq![44u8] + json_member("region"@, json_string(normalized(f.region@))) + seq![44u8] + json_member("pricing_band"@, json_string(normalized(f.pricing_band@))), json_member("region"@, json_string(normalized(f.region@))), seq![44u8]);
        lemma_contains_extend(seq![123u8] + json_member("ontologies"@, json_list(sorted_unique(views(f.ontologies@)))) + seq![44u8] + json_member("tools"@, json_list(sorted_unique(views(f.tools@)))) + seq![44u8] + json_member("sandbox_level"@, json_string(normalized(f.sandbox_level@))) + seq![44u8] + json_member("network_access"@, json_string(normalized(f.network_access@))) + seq![44u8] + json_member("gpu_class"@, json_string(normalized(f.gpu_class@))) + seq![44u8] + json_member("privacy_tier"@, json_string(normalized(f.privacy_tier@))) + seq![44u8] + json_member("region"@, json_string(normalized(f.region@))) + seq![44u8] + json_member("pricing_band"@, json_string(normalized(f.pricing_band@))) + seq![44u8], json_member("region"@, json_string(normalized(f.region@))), json_member("trust_tier"@, json_string(normalized(f.trust_tier@))));
        lemma_contains_extend(seq![123u8] + json_member("ontologies"@, json_list(sorted_unique(views(f.ontologies@)))) + seq![44u8] + json_member("tools"@, json_list(sorted_unique(views(f.tools@)))) + seq![44u8] + json_member("sandbox_level"@, json_string(normalized(f.sandbox_level@))) + seq![44u8] + json_member("network_access"@, json_string(normalized(f.network_access@))) + seq![44u8] + json_member("gpu_class"@, json_string(normalized(f.gpu_class@))) + seq![44u8] + json_member("privacy_tier"@, json_string(normalized(f.privacy_tier@))) + seq![44u8] + json_member("region"@, json_string(normalized(f.region@))) + seq![44u8] + json_member("pricing_band"@, json_string(normalized(f.pricing_band@))) + seq![44u8] + json_member("trust_tier"@, json_string(normalized(f.trust_tier@))), json_member("region"@, json_string(normalized(f.region@))), seq![44u8]);
        lemma_contains_extend(seq![123u8] + json_member("ontologies"@, json_list(sorted_unique(views(f.ontologies@)))) + seq![44u8] + json_member("tools"@, json_list(sorted_unique(views(f.tools@)))) + seq![44u8] + json_member("sandbox_level"@, json_string(normalized(f.sandbox_level@))) + seq![44u8] + json_member("network_access"@, json_string(normalized(f.network_access@))) + seq![44u8] + json_member("gpu_class"@, json_string(normalized(f.gpu_class@))) + seq![44u8] + json_member("privacy_tier"@, json_string(normalized(f.privacy_tier@))) + seq![44u8] + json_member("region"@, json_string(normalized(f.region@))) + seq![44u8] + json_member("pricing_band"@, json_string(normalized(f.pricing_band@))) + seq![44u8] + json_member("trust_tier"@, json_string(normalized(f.trust_tier@))) + seq![44u8], json_member("region"@, json_string(normalized(f.region@))), json_member("status"@, seq![48u8]));
        lemma_contains_extend(seq![123u8] + json_member("ontologies"@, json_list(sorted_unique(views(f.ontologies@)))) + seq![44u8] + json_member("tools"@, json_list(sorted_unique(views(f.tools@)))) + seq![44u8] + json_member("sandbox_level"@, json_string(normalized(f.sandbox_level@))) + seq![44u8] + json_member("network_access"@, json_string(normalized(f.network_access@))) + seq![44u8] + json_member("gpu_class"@, json_string(normalized(f.gpu_class@))) + seq![44u8] + json_member("privacy_tier"@, json_string(normalized(f.privacy_tier@))) + seq![44u8] + json_member("region"@, json_string(normalized(f.region@))) + seq![44u8] + json_member("pricing_band"@, json_string(normalized(f.pricing_band@))) + seq![44u8] + json_member("trust_tier"@, json_string(normalized(f.trust_tier@))) + seq![44u8] + json_member("status"@, seq![48u8]), json_member("region"@, json_string(normalized(f.region@))), seq![125u8]);
    }
    assert(contains_bytes(j, json_member("pricing_band"@, json_string(normalized(f.pricing_band@))))) by {
        lemma_contains_last(seq![123u8] + json_member("ontologies"@, json_list(sorted_unique(views(f.ontologies@)))) + seq![44u8] + json_member("tools"@, json_list(sorted_unique(views(f.tools@)))) + seq![44u8] + json_member("sandbox_level"@, json_string(normalized(f.sandbox_level@))) + seq![44u8] + json_member("network_access"@, json_string(normalized(f.network_access@))) + seq![44u8] + json_member("gpu_class"@, json_string(normalized(f.gpu_class@))) + seq![44u8] + json_member("privacy_tier"@, json_string(normalized(f.privacy_tier@))) + seq![44u8] + json_member("region"@, json_string(normalized(f.region@))) + seq![44u8], json_member("pricing_band"@, json_string(normalized(f.pricing_band@))));
        lemma_contains_extend(seq![123u8] + json_member("ontologies"@, json_list(sorted_unique(views(f.ontologies@)))) + seq![44u8] + json_member("tools"@, json_list(sorted_unique(views(f.tools@)))) + seq![44u8] + json_member("sandbox_level"@, json_string(normalized(f.sandbox_level@))) + seq![44u8] + json_member("network_access"@, json_string(normalized(f.network_access@))) + seq![44u8] + json_member("gpu_class"@, json_string(normalized(f.gpu_class@))) + seq![44u8] + json_member("privacy_tier"@, json_string(normalized(f.privacy_tier@))) + seq![44u8] + json_member("region"@, json_string(normalized(f.region@))) + seq![44u8] + json_member("pricing_band"@, json_string(normalized(f.pricing_band@))), json_member("pricing_band"@, json_string(normalized(f.pricing_band@))), seq![44u8]);
        lemma_contains_extend(seq![123u8] + json_member("ontologies"@, json_list(sorted_unique(views(f.ontologies@)))) + seq![44u8] + json_member("tools"@, json_list(sorted_unique(views(f.tools@)))) + seq![44u8] + json_member("sandbox_level"@, json_string(normalized(f.sandbox_level@))) + seq![44u8] + json_member("network_access"@, json_string(normalized(f.network_access@))) + seq![44u8] + json_member("gpu_class"@, json_string(normalized(f.gpu_class@))) + seq![44u8] + json_member("privacy_tier"@, json_string(normalized(f.privacy_tier@))) + seq![44u8] + json_member("region"@, json_string(normalized(f.region@))) + seq![44u8] + json_member("pricing_band"@, json_string(normalized(f.pricing_band@))) + seq![44u8], json_member("pricing_band"@, json_string(normalized(f.pricing_band@))), json_member("trust_tier"@, json_string(normalized(f.trust_tier@))));
        lemma_contains_extend(seq![123u8] + json_member("ontologies"@, json_list(sorted_unique(views(f.ontologies@)))) + seq![44u8] + json_member("tools"@, json_list(sorted_unique(views(f.tools@)))) + seq![44u8] + json_member("sandbox_level"@, json_string(normalized(f.sandbox_level@))) + seq![44u8] + json_member("network_access"@, json_string(normalized(f.network_access@))) + seq![44u8] + json_member("gpu_class"@, json_string(normalized(f.gpu_class@))) + seq![44u8] + json_member("privacy_tier"@, json_string(normalized(f.privacy_tier@))) + seq![44u8] + json_member("region"@, json_string(normalized(f.region@))) + seq![44u8] + json_member("pricing_band"@, json_string(normalized(f.pricing_band@))) + seq![44u8] + json_member("trust_tier"@, json_string(normalized(f.trust_tier@))), json_member("pricing_band"@, json_string(normalized(f.pricing_band@))), seq![44u8]);
        lemma_contains_extend(seq![123u8] + json_member("ontologies"@, json_list(sorted_unique(views(f.ontologies@)))) + seq![44u8] + json_member("tools"@, json_list(sorted_unique(views(f.tools@)))) + seq![44u8] + json_member("sandbox_level"@, json_string(normalized(f.sandbox_level@))) + seq![44u8] + json_member("network_access"@, json_string(normalized(f.network_access@))) + seq![44u8] + json_member("gpu_class"@, json_string(normalized(f.gpu_class@))) + seq![44u8] + json_member("privacy_tier"@, json_string(normalized(f.privacy_tier@))) + seq![44u8] + json_member("region"@, json_string(normalized(f.region@))) + seq![44u8] + json_member("pricing_band"@, json_string(normalized(f.pricing_band@))) + seq![44u8] + json_member("trust_tier"@, json_string(normalized(f.trust_tier@))) + seq![44u8], json_member("pricing_band"@, json_string(normalized(f.pricing_band@))), json_member("status"@, seq![48u8]));
        lemma_contains_extend(seq![123u8] + json_member("ontologies"@, json_list(sorted_unique(views(f.ontologies@)))) + seq![44u8] + json_member("tools"@, json_list(sorted_unique(views(f.tools@)))) + seq![44u8] + json_member("sandbox_level"@, json_string(normalized(f.sandbox_level@))) + seq![44u8] + json_member("network_access"@, json_string(normalized(f.network_access@))) + seq![44u8] + json_member("gpu_class"@, json_string(normalized(f.gpu_class@))) + seq![44u8] + json_member("privacy_tier"@, json_string(normalized(f.privacy_tier@))) + seq![44u8] + json_member("region"@, json_string(normalized(f.region@))) + seq![44u8] + json_member("pricing_band"@, json_string(normalized(f.pricing_band@))) + seq![44u8] + json_member("trust_tier"@, json_string(normalized(f.trust_tier@))) + seq![44u8] + json_member("status"@, seq![48u8]), json_member("pricing_band"@, json_string(normalized(f.pricing_band@))), seq![125u8]);
    }
    assert(contains_bytes(j, json_member("trust_tier"@, json_string(normalized(f.trust_tier@))))) by {
        lemma_contains_last(seq![123u8] + json_member("ontologies"@, json_list(sorted_unique(views(f.ontologies@)))) + seq![44u8] + json_member("tools"@, json_list(sorted_unique(views(f.tools@)))) + seq![44u8] + json_member("sandbox_level"@, json_string(normalized(f.sandbox_level@))) + seq![44u8] + json_member("network_access"@, json_string(normalized(f.network_access@))) + seq![44u8] + json_member("gpu_class"@, json_string(normalized(f.gpu_class@))) + seq![44u8] + json_member("privacy_tier"@, json_string(normalized(f.privacy_tier@))) + seq![44u8] + json_member("region"@, json_string(normalized(f.region@))) + seq![44u8] + json_member("pricing_band"@, json_string(normalized(f.pricing_band@))) + seq![44u8], json_member("trust_tier"@, json_string(normalized(f.trust_tier@))));
        lemma_contains_extend(seq![123u8] + json_member("ontologies"@, json_list(sorted_unique(views(f.ontologies@)))) + seq![44u8] + json_member("tools"@, json_list(sorted_unique(views(f.tools@)))) + seq![44u8] + json_member("sandbox_level"@, json_string(normalized(f.sandbox_level@))) + seq![44u8] + json_member("network_access"@, json_string(normalized(f.network_access@))) + seq![44u8] + json_member("gpu_class"@, json_string(normalized(f.gpu_class@))) + seq![44u8] + json_member("privacy_tier"@, json_string(normalized(f.privacy_tier@))) + seq![44u8] + json_member("region"@, json_string(normalized(f.region@))) + seq![44u8] + json_member("pricing_band"@, json_string(normalized(f.pricing_band@))) + seq![44u8] + json_member("trust_tier"@, json_string(normalized(f.trust_tier@))), json_member("trust_tier"@, json_string(normalized(f.trust_tier@))), seq![44u8]);
        lemma_contains_extend(seq![123u8] + json_member("ontologies"@, json_list(sorted_unique(views(f.ontologies@)))) + seq![44u8] + json_member("tools"@, json_list(sorted_unique(views(f.tools@)))) + seq![44u8] + json_member("sandbox_level"@, json_string(normalized(f.sandbox_level@))) + seq![44u8] + json_member("network_access"@, json_string(normalized(f.network_access@))) + seq![44u8] + json_member("gpu_class"@, json_string(normalized(f.gpu_class@))) + seq![44u8] + json_member("privacy_tier"@, json_string(normalized(f.privacy_tier@))) + seq![44u8] + json_member("region"@, json_string(normalized(f.region@))) + seq![44u8] + json_member("pricing_band"@, json_string(normalized(f.pricing_band@))) + seq![44u8] + json_member("trust_tier"@, json_string(normalized(f.trust_tier@))) + seq![44u8], json_member("trust_tier"@, json_string(normalized(f.trust_tier@))), json_member("status"@, seq![48u8]));
        lemma_contains_extend(seq![123u8] + json_member("ontologies"@, json_list(sorted_unique(views(f.ontologies@)))) + seq![44u8] + json_member("tools"@, json_list(sorted_unique(views(f.tools@)))) + seq![44u8] + json_member("sandbox_level"@, json_string(normalized(f.sandbox_level@))) + seq![44u8] + json_member("network_access"@, json_string(normalized(f.network_access@))) + seq![44u8] + json_member("gpu_class"@, json_string(normalized(f.gpu_class@))) + seq![44u8] + json_member("privacy_tier"@, json_string(normalized(f.privacy_tier@))) + seq![44u8] + json_member("region"@, json_string(normalized(f.region@))) + seq![44u8] + json_member("pricing_band"@, json_string(normalized(f.pricing_band@))) + seq![44u8] + json_member("trust_tier"@, json_string(normalized(f.trust_tier@))) + seq![44u8] + json_member("status"@, seq![48u8]), json_member("trust_tier"@, json_string(normalized(f.trust_tier@))), seq![125u8]);
    }
    assert(contains_bytes(j, json_member("status"@, seq![48u8]))) by {
        lemma_contains_last(seq![123u8] + json_member("ontologies"@, json_list(sorted_unique(views(f.ontologies@)))) + seq![44u8] + json_member("tools"@, json_list(sorted_unique(views(f.tools@)))) + seq![44u8] + json_member("sandbox_level"@, json_string(normalized(f.sandbox_level@))) + seq![44u8] + json_member("network_access"@, json_string(normalized(f.network_access@))) + seq![44u8] + json_member("gpu_class"@, json_string(normalized(f.gpu_class@))) + seq![44u8] + json_member("privacy_tier"@, json_string(normalized(f.privacy_tier@))) + seq![44u8] + json_member("region"@, json_string(normalized(f.region@))) + seq![44u8] + json_member("pricing_band"@, json_string(normalized(f.pricing_band@))) + seq![44u8] + json_member("trust_tier"@, json_string(normalized(f.trust_tier@))) + seq![44u8], json_member("status"@, seq![48u8]));
        lemma_contains_extend(seq![123u8] + json_member("ontologies"@, json_list(sorted_unique(views(f.ontologies@)))) + seq![44u8] + json_member("tools"@, json_list(sorted_unique(views(f.tools@)))) + seq![44u8] + json_member("sandbox_level"@, json_string(normalized(f.sandbox_level@))) + seq![44u8] + json_member("network_access"@, json_string(normalized(f.network_access@))) + seq![44u8] + json_member("gpu_class"@, json_string(normalized(f.gpu_class@))) + seq![44u8] + json_member("privacy_tier"@, json_string(normalized(f.privacy_tier@))) + seq![44u8] + json_member("region"@, json_string(normalized(f.region@))) + seq![44u8] + json_member("pricing_band"@, json_string(normalized(f.pricing_band@))) + seq![44u8] + json_member("trust_tier"@, json_string(normalized(f.trust_tier@))) + seq![44u8] + json_member("status"@, seq![48u8]), json_member("status"@, seq![48u8]), seq![125u8]);
    }
}

} // verus!
