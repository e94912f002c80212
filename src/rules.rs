//! The domain rules applied to upstream data: only subtitled search hits are
//! kept, and one source of an episode is chosen by its quality label.

use vstd::prelude::*;

use crate::model::{GatewayError, SearchEntry, Source};

verus! {

pub open spec fn is_sub(e: SearchEntry) -> bool {
    e.sub_or_dub@ == "sub"@
}

pub open spec fn is_default(s: Source) -> bool {
    s.quality@ == "default"@
}

pub open spec fn is_backup(s: Source) -> bool {
    s.quality@ == "backup"@
}

/// The subtitled entries of `s`, in their order in `s`.
pub open spec fn sub_only(s: Seq<SearchEntry>) -> Seq<SearchEntry> {
    s.filter(|e: SearchEntry| is_sub(e))
}

/// The URL that the selection policy picks: the one `default` source if there
/// is exactly one, else the first `backup` source, else nothing.
pub open spec fn chosen_url(s: Seq<Source>) -> Option<Seq<char>> {
    let d = s.filter(|x: Source| is_default(x));
    let b = s.filter(|x: Source| is_backup(x));
    if d.len() == 1 {
        Some(d[0].url@)
    } else if b.len() > 0 {
        Some(b[0].url@)
    } else {
        None
    }
}

/// Keeps the entries whose language track is `sub`, in the order they came.
pub fn filter_sub(entries: Vec<SearchEntry>) -> (r: Vec<SearchEntry>)
    ensures
        r@ == sub_only(entries@),
{
    let sub = String::from_str("sub");
    let mut out: Vec<SearchEntry> = Vec::new();
    let n = entries.len();
    let mut i: usize = 0;
    while i < n
        invariant
            n == entries@.len(),
            i <= n,
            sub@ == "sub"@,
            out@ == sub_only(entries@.subrange(0, i as int)),
        decreases n - i,
    {
        let e = &entries[i];
        proof {
            reveal(Seq::filter);
            assert(entries@.subrange(0, i + 1).drop_last() =~= entries@.subrange(0, i as int));
        }
        if e.sub_or_dub == sub {
            out.push(e.clone());
        }
        i = i + 1;
    }
    assert(entries@.subrange(0, n as int) =~= entries@);
    out
}

/// Keeps the elements of `s` whose quality label equals `label`, in order.
fn sources_labelled(s: &Vec<Source>, label: &String) -> (r: Vec<Source>)
    ensures
        r@ == s@.filter(|x: Source| x.quality@ == label@),
{
    let mut out: Vec<Source> = Vec::new();
    let n = s.len();
    let mut i: usize = 0;
    while i < n
        invariant
            n == s@.len(),
            i <= n,
            out@ == s@.subrange(0, i as int).filter(|x: Source| x.quality@ == label@),
        decreases n - i,
    {
        proof {
            reveal(Seq::filter);
            assert(s@.subrange(0, i + 1).drop_last() =~= s@.subrange(0, i as int));
        }
        if s[i].quality == *label {
            out.push(s[i].clone());
        }
        i = i + 1;
    }
    assert(s@.subrange(0, n as int) =~= s@);
    out
}

/// Picks the URL to play: the single `default` source, or failing that the
/// first `backup` source; `NoSource` when neither exists.
pub fn select_source(sources: &Vec<Source>) -> (r: Result<String, GatewayError>)
    ensures
        match chosen_url(sources@) {
            Some(u) => r is Ok && r->Ok_0@ == u,
            None => r == Err::<String, GatewayError>(GatewayError::NoSource),
        },
{
    let default_label = String::from_str("default");
    let backup_label = String::from_str("backup");
    let defaults = sources_labelled(sources, &default_label);
    assert((|x: Source| x.quality@ == default_label@) =~= (|x: Source| is_default(x)));
    if defaults.len() == 1 {
        return Ok(defaults[0].url.clone());
    }
    let backups = sources_labelled(sources, &backup_label);
    assert((|x: Source| x.quality@ == backup_label@) =~= (|x: Source| is_backup(x)));
    if backups.len() > 0 {
        Ok(backups[0].url.clone())
    } else {
        Err(GatewayError::NoSource)
    }
}

proof fn lemma_filter_none<A>(s: Seq<A>, p: spec_fn(A) -> bool)
    requires
        forall|k: int| 0 <= k < s.len() ==> !p(#[trigger] s[k]),
    ensures
        s.filter(p).len() == 0,
    decreases s.len(),
{
    reveal(Seq::filter);
    if s.len() > 0 {
        lemma_filter_none(s.drop_last(), p);
    }
}

proof fn lemma_filter_first<A>(s: Seq<A>, p: spec_fn(A) -> bool, j: int)
    requires
        0 <= j < s.len(),
        p(s[j]),
        forall|k: int| 0 <= k < j ==> !p(#[trigger] s[k]),
    ensures
        s.filter(p).len() > 0,
        s.filter(p)[0] == s[j],
    decreases s.len(),
{
    reveal(Seq::filter);
    if j == s.len() - 1 {
        lemma_filter_none(s.drop_last(), p);
    } else {
        lemma_filter_first(s.drop_last(), p, j);
    }
}

proof fn lemma_filter_single<A>(s: Seq<A>, p: spec_fn(A) -> bool, i: int)
    requires
        0 <= i < s.len(),
        p(s[i]),
        forall|k: int| 0 <= k < s.len() && k != i ==> !p(#[trigger] s[k]),
    ensures
        s.filter(p) =~= seq![s[i]],
    decreases s.len(),
{
    reveal(Seq::filter);
    if i == s.len() - 1 {
        lemma_filter_none(s.drop_last(), p);
    } else {
        lemma_filter_single(s.drop_last(), p, i);
    }
}

proof fn lemma_sub_only_prefix(s: Seq<SearchEntry>, k: int, n: int)
    requires
        0 <= k <= n <= s.len(),
    ensures
        sub_only(s.subrange(0, k)).is_prefix_of(sub_only(s.subrange(0, n))),
    decreases n - k,
{
    reveal(Seq::filter);
    if k < n {
        lemma_sub_only_prefix(s, k, n - 1);
        assert(s.subrange(0, n).drop_last() =~= s.subrange(0, n - 1));
    }
}

/// Filtering search hits leaves only subtitled entries, none of them dubbed,
/// and keeps their relative order: filtering any prefix of the hits yields a
/// prefix of the filtered whole.
pub proof fn lemma_sub_only_keeps_order(s: Seq<SearchEntry>)
    ensures
        forall|i: int|
            0 <= i < sub_only(s).len() ==> (#[trigger] sub_only(s)[i]).sub_or_dub@ == "sub"@
                && sub_only(s)[i].sub_or_dub@ != "dub"@,
        forall|k: int|
            0 <= k <= s.len() ==> #[trigger] sub_only(s.take(k)).is_prefix_of(sub_only(s)),
{
    reveal_strlit("sub");
    reveal_strlit("dub");
    assert forall|i: int| 0 <= i < sub_only(s).len() implies (#[trigger] sub_only(
        s,
    )[i]).sub_or_dub@ == "sub"@ && sub_only(s)[i].sub_or_dub@ != "dub"@ by {
        s.lemma_filter_pred(|e: SearchEntry| is_sub(e), i);
        assert(sub_only(s)[i].sub_or_dub@[0] != "dub"@[0]);
    }
    assert forall|k: int| 0 <= k <= s.len() implies #[trigger] sub_only(s.take(k)).is_prefix_of(
        sub_only(s),
    ) by {
        lemma_sub_only_prefix(s, k, s.len() as int);
        assert(s.subrange(0, s.len() as int) =~= s);
    }
}

/// With exactly one `default` source, at index `i`, selection picks its URL.
pub proof fn lemma_single_default_chosen(s: Seq<Source>, i: int)
    requires
        0 <= i < s.len(),
        is_default(s[i]),
        forall|k: int| 0 <= k < s.len() && k != i ==> !is_default(#[trigger] s[k]),
    ensures
        chosen_url(s) == Some(s[i].url@),
{
    lemma_filter_single(s, |x: Source| is_default(x), i);
}

/// With zero or several `default` sources, selection picks the first `backup`
/// source of the whole list, and fails when there is none.
pub proof fn lemma_backup_chosen(s: Seq<Source>)
    requires
        s.filter(|x: Source| is_default(x)).len() != 1,
    ensures
        forall|j: int|
            0 <= j < s.len() && is_backup(#[trigger] s[j]) && (forall|k: int|
                0 <= k < j ==> !is_backup(#[trigger] s[k])) ==> chosen_url(s) == Some(s[j].url@),
        (forall|k: int| 0 <= k < s.len() ==> !is_backup(#[trigger] s[k])) ==> chosen_url(s)
            is None,
{
    assert forall|j: int|
        0 <= j < s.len() && is_backup(#[trigger] s[j]) && (forall|k: int|
            0 <= k < j ==> !is_backup(#[trigger] s[k])) implies chosen_url(s) == Some(
        s[j].url@,
    ) by {
        lemma_filter_first(s, |x: Source| is_backup(x), j);
    }
    if forall|k: int| 0 <= k < s.len() ==> !is_backup(#[trigger] s[k]) {
        lemma_filter_none(s, |x: Source| is_backup(x));
    }
}

} // verus!
