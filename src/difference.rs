use vstd::prelude::*;
use crate::citation::{CitationError, Citations};

verus! {

/// The keys cited in a document, as character sequences.
pub open spec fn cited_keys(document: Seq<&str>) -> Seq<Seq<char>> {
    document.map_values(|s: &str| s@)
}

/// The records whose key occurs nowhere in `keys`, in bibliography order.
pub open spec fn uncited(keys: Seq<Seq<char>>, entries: Seq<Citations>) -> Seq<Citations> {
    entries.filter(|c: Citations| !keys.contains(c@))
}

/// Each key of `keys` written twice in a row.
pub open spec fn doubled(keys: Seq<Seq<char>>) -> Seq<Seq<char>>
    decreases keys.len(),
{
    if keys.len() == 0 {
        keys
    } else {
        doubled(keys.drop_last()).push(keys.last()).push(keys.last())
    }
}

proof fn lemma_doubled_contains(keys: Seq<Seq<char>>, k: Seq<char>)
    ensures
        doubled(keys).contains(k) <==> keys.contains(k),
    decreases keys.len(),
{
    if keys.len() > 0 {
        let init = keys.drop_last();
        let d = doubled(init);
        lemma_doubled_contains(init, k);
        let once = d.push(keys.last());
        let twice = once.push(keys.last());
        if twice.contains(k) {
            let t = choose|t: int| 0 <= t < twice.len() && twice[t] == k;
            if t < d.len() {
                assert(d[t] == k);
                assert(init.contains(k));
                let u = choose|u: int| 0 <= u < init.len() && init[u] == k;
                assert(keys[u] == k);
            } else {
                assert(keys[keys.len() - 1] == k);
            }
        }
        if keys.contains(k) {
            let t = choose|t: int| 0 <= t < keys.len() && keys[t] == k;
            if t < init.len() {
                assert(init[t] == k);
                let u = choose|u: int| 0 <= u < d.len() && d[u] == k;
                assert(twice[u] == k);
            } else {
                assert(twice[twice.len() - 1] == k);
            }
        }
    }
}

/// The difference is a function of its two inputs alone: two runs on the
/// same document keys and the same bibliography give the same records.
pub proof fn law_difference_repeatable(
    document: Seq<&str>,
    json: Seq<Citations>,
    first: Seq<Citations>,
    second: Seq<Citations>,
)
    requires
        first == uncited(cited_keys(document), json),
        second == uncited(cited_keys(document), json),
    ensures
        first == second,
{
}

/// Citing every key twice instead of once leaves the uncited records as
/// they were.
pub proof fn law_duplicates_absorbed(keys: Seq<Seq<char>>, entries: Seq<Citations>)
    ensures
        uncited(doubled(keys), entries) == uncited(keys, entries),
{
    assert forall|c: Citations| doubled(keys).contains(c@) == keys.contains(c@) by {
        lemma_doubled_contains(keys, c@);
    }
    assert((|c: Citations| !doubled(keys).contains(c@)) =~= (|c: Citations| !keys.contains(c@)));
}

/// A document that cites nothing leaves every record uncited, in
/// bibliography order.
pub proof fn law_nothing_cited(entries: Seq<Citations>)
    ensures
        uncited(Seq::empty(), entries) == entries,
    decreases entries.len(),
{
    reveal(Seq::filter);
    if entries.len() > 0 {
        law_nothing_cited(entries.drop_last());
        assert(entries.drop_last().push(entries.last()) =~= entries);
    }
}

/// A document that cites every record's key leaves no record uncited.
pub proof fn law_everything_cited(keys: Seq<Seq<char>>, entries: Seq<Citations>)
    requires
        forall|i: int| 0 <= i < entries.len() ==> keys.contains(#[trigger] entries[i]@),
    ensures
        uncited(keys, entries) == Seq::<Citations>::empty(),
{
    let pred = |c: Citations| !keys.contains(c@);
    entries.lemma_all_neg_filter_empty(pred);
    assert(uncited(keys, entries) =~= Seq::<Citations>::empty());
}

/// Whether `key` equals one of `keys`.
fn contains_key(keys: &Vec<String>, key: &String) -> (r: bool)
    ensures
        r == keys@.map_values(|s: String| s@).contains(key@),
{
    let ghost views = keys@.map_values(|s: String| s@);
    let mut j: usize = 0;
    while j < keys.len()
        invariant
            j <= keys.len(),
            views == keys@.map_values(|s: String| s@),
            forall|t: int| 0 <= t < j ==> views[t] != key@,
        decreases keys.len() - j,
    {
        if keys[j] == *key {
            assert(views[j as int] == key@);
            return true;
        }
        j += 1;
    }
    proof {
        if views.contains(key@) {
            let t = choose|t: int| 0 <= t < views.len() && views[t] == key@;
            assert(views[t] != key@);
        }
    }
    false
}

/// The bibliography records that `document` never cites, in bibliography order.
///
/// Repeated keys in `document` count once; keys are matched by exact equality.
/// This step cannot fail.
pub fn get_citation_difference(document: Vec<&str>, json: Vec<Citations>) -> (r: Result<
    Vec<Citations>,
    CitationError,
>)
    ensures
        r is Ok,
        r matches Ok(v) && v@ == uncited(cited_keys(document@), json@),
{
    let mut seen: Vec<String> = Vec::new();
    let mut i: usize = 0;
    while i < document.len()
        invariant
            i <= document.len(),
            seen@.len() == i,
            seen@.map_values(|s: String| s@) == cited_keys(document@).subrange(0, i as int),
        decreases document.len() - i,
    {
        let key = String::from_str(document[i]);
        let ghost before = seen@;
        seen.push(key);
        proof {
            assert(seen@ == before.push(key));
            assert(key@ == cited_keys(document@)[i as int]);
            assert(seen@.map_values(|s: String| s@) =~= cited_keys(document@).subrange(
                0,
                i + 1,
            ));
        }
        i += 1;
    }
    proof {
        assert(cited_keys(document@).subrange(0, document@.len() as int) =~= cited_keys(
            document@,
        ));
    }
    let ghost keys = cited_keys(document@);
    let ghost pred = |c: Citations| !keys.contains(c@);
    let mut out: Vec<Citations> = Vec::new();
    let mut k: usize = 0;
    while k < json.len()
        invariant
            k <= json.len(),
            seen@.map_values(|s: String| s@) == keys,
            keys == cited_keys(document@),
            pred == (|c: Citations| !keys.contains(c@)),
            out@ == json@.subrange(0, k as int).filter(pred),
        decreases json.len() - k,
    {
        let entry = &json[k];
        let is_cited = contains_key(&seen, &entry.citation_key);
        proof {
            let prefix = json@.subrange(0, k + 1);
            assert(prefix.drop_last() =~= json@.subrange(0, k as int));
            reveal(Seq::filter);
        }
        if !is_cited {
            out.push(Citations { citation_key: entry.citation_key.clone() });
        }
        k += 1;
    }
    proof {
        assert(json@.subrange(0, json@.len() as int) =~= json@);
    }
    Ok(out)
}

} // verus!
