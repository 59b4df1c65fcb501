//! Merge-patching of configuration documents: a partial document is merged
//! into a stored one, objects merging recursively by key and everything
//! else replacing.
//!
//! A document is modeled as a tree: objects are key–value lists with the
//! keys of an object unordered (the store keeps them sorted), and every
//! non-object value — including arrays — is an opaque scalar carried
//! through unchanged.  The scalars are `serde_json` values; the merge never
//! looks inside them.

use vstd::prelude::*;

verus! {

/// Declares serde_json's dynamic value type so that documents can carry
/// scalars opaquely; no operation of it is relied on.
#[verifier::external_type_specification]
#[verifier::external_body]
pub struct ExValue(serde_json::Value);

/// One configuration document.
#[derive(Debug)]
pub enum ConfigDoc {
    /// Any non-object value, carried through opaquely.
    Scalar(serde_json::Value),
    /// An object: a list of key–value entries.
    Object(Vec<(String, ConfigDoc)>),
}

/// The mathematical model of a document: keys become character sequences.
pub ghost enum DocView {
    Scalar(serde_json::Value),
    Object(Seq<(Seq<char>, DocView)>),
}

/// The model of a document.
pub open spec fn doc_view(d: ConfigDoc) -> DocView
    decreases d, 0int,
{
    match d {
        ConfigDoc::Scalar(v) => DocView::Scalar(v),
        ConfigDoc::Object(pairs) => DocView::Object(
            entries_view(pairs@, pairs@.len() as int),
        ),
    }
}

/// The models of the first `n` entries of an object.
pub open spec fn entries_view(pairs: Seq<(String, ConfigDoc)>, n: int) -> Seq<
    (Seq<char>, DocView),
>
    decreases pairs, n,
{
    if n <= 0 || n > pairs.len() {
        Seq::empty()
    } else {
        entries_view(pairs, n - 1).push((pairs[n - 1].0@, doc_view(pairs[n - 1].1)))
    }
}

impl View for ConfigDoc {
    type V = DocView;

    open spec fn view(&self) -> DocView {
        doc_view(*self)
    }
}

/// The entry models are the entry-by-entry models.
pub proof fn lemma_entries_view(pairs: Seq<(String, ConfigDoc)>, n: int)
    requires
        0 <= n <= pairs.len(),
    ensures
        entries_view(pairs, n).len() == n,
        forall|i: int|
            0 <= i < n ==> #[trigger] entries_view(pairs, n)[i] == (
                pairs[i].0@,
                doc_view(pairs[i].1),
            ),
    decreases n,
{
    if n > 0 {
        lemma_entries_view(pairs, n - 1);
    }
}

/// The size of a document's model: one for a scalar, one plus the sizes of
/// the entries for an object.  Every child is strictly smaller than its
/// parent, which bounds the merge recursion.
pub open spec fn doc_size(d: ConfigDoc) -> nat
    decreases d, 0int,
{
    match d {
        ConfigDoc::Scalar(_) => 1,
        ConfigDoc::Object(pairs) => 1 + entries_size(pairs@, pairs@.len() as int),
    }
}

/// The total size of the first `n` entries of an object.
pub open spec fn entries_size(pairs: Seq<(String, ConfigDoc)>, n: int) -> nat
    decreases pairs, n,
{
    if n <= 0 || n > pairs.len() {
        0
    } else {
        entries_size(pairs, n - 1) + doc_size(pairs[n - 1].1)
    }
}

/// Each entry's value is at most the total entry size.
proof fn lemma_entry_size_bound(pairs: Seq<(String, ConfigDoc)>, n: int, i: int)
    requires
        0 <= i < n <= pairs.len(),
    ensures
        doc_size(pairs[i].1) <= entries_size(pairs, n),
    decreases n,
{
    if i < n - 1 {
        lemma_entry_size_bound(pairs, n - 1, i);
    }
}

/// The position of the first entry with the given key, or the length when
/// none matches.
pub open spec fn key_index(pairs: Seq<(Seq<char>, DocView)>, key: Seq<char>) -> int
    decreases pairs.len(),
{
    if pairs.len() == 0 {
        0
    } else if pairs[0].0 == key {
        0
    } else {
        1 + key_index(pairs.skip(1), key)
    }
}

/// `key_index` is determined by its characterization.
pub proof fn lemma_key_index_at(pairs: Seq<(Seq<char>, DocView)>, key: Seq<char>, k: int)
    requires
        0 <= k <= pairs.len(),
        forall|m: int| 0 <= m < k ==> #[trigger] pairs[m].0 != key,
        k == pairs.len() || pairs[k].0 == key,
    ensures
        key_index(pairs, key) == k,
    decreases k,
{
    if k > 0 {
        lemma_key_index_at(pairs.skip(1), key, k - 1);
    }
}

/// The merge of `patch` into `target`: a scalar patch replaces the target
/// outright; an object patch merges entry by entry into the target (or
/// into an empty object when the target is not one), merging recursively
/// where the key already exists and appending where it does not.
pub open spec fn merge_view(target: DocView, patch: DocView) -> DocView
    decreases patch, 0int,
{
    match patch {
        DocView::Scalar(v) => DocView::Scalar(v),
        DocView::Object(pp) => {
            let tp = match target {
                DocView::Object(tp) => tp,
                DocView::Scalar(_) => Seq::empty(),
            };
            DocView::Object(merge_entries(tp, pp, pp.len() as int))
        },
    }
}

/// The target entries after the first `n` patch entries have been merged
/// in, in order.
pub open spec fn merge_entries(
    tp: Seq<(Seq<char>, DocView)>,
    pp: Seq<(Seq<char>, DocView)>,
    n: int,
) -> Seq<(Seq<char>, DocView)>
    decreases pp, n,
{
    if n <= 0 || n > pp.len() {
        tp
    } else {
        let done = merge_entries(tp, pp, n - 1);
        let key = pp[n - 1].0;
        let value = pp[n - 1].1;
        let i = key_index(done, key);
        if i < done.len() {
            done.update(i, (done[i].0, merge_view(done[i].1, value)))
        } else {
            done.push((key, value))
        }
    }
}

/// One unfolding of [`merge_entries`].
proof fn lemma_merge_entries_unfold(
    tp: Seq<(Seq<char>, DocView)>,
    pp: Seq<(Seq<char>, DocView)>,
    n: int,
)
    requires
        0 < n <= pp.len(),
    ensures
        merge_entries(tp, pp, n) == ({
            let done = merge_entries(tp, pp, n - 1);
            let i = key_index(done, pp[n - 1].0);
            if i < done.len() {
                done.update(i, (done[i].0, merge_view(done[i].1, pp[n - 1].1)))
            } else {
                done.push((pp[n - 1].0, pp[n - 1].1))
            }
        }),
{
}

/// Merges `patch` into `target`: objects merge recursively by key, with
/// the patch's entries applied in order; everything else replaces.
pub fn merge_values(target: ConfigDoc, patch: ConfigDoc) -> (r: ConfigDoc)
    ensures
        r@ == merge_view(target@, patch@),
    decreases doc_size(patch),
{
    let ghost patch_at_entry = patch;
    let ghost target_at_entry = target;
    match patch {
        ConfigDoc::Scalar(v) => ConfigDoc::Scalar(v),
        ConfigDoc::Object(mut pp) => {
            let ghost origp = pp@;
            let ghost ppv = entries_view(origp, origp.len() as int);
            let mut acc: Vec<(String, ConfigDoc)> = match target {
                ConfigDoc::Object(tp) => tp,
                ConfigDoc::Scalar(_) => Vec::new(),
            };
            let ghost tpv = entries_view(acc@, acc@.len() as int);
            proof {
                lemma_entries_view(origp, origp.len() as int);
                lemma_entries_view(acc@, acc@.len() as int);
                if target_at_entry is Scalar {
                    assert(acc@ =~= Seq::<(String, ConfigDoc)>::empty());
                    assert(tpv =~= Seq::<(Seq<char>, DocView)>::empty());
                }
            }
            let n = pp.len();
            proof {
                assert(doc_size(patch_at_entry) == 1 + entries_size(origp, n as int));
            }
            let mut i: usize = 0;
            #[verifier::loop_isolation(false)]
            while i < n
                invariant
                    0 <= i <= n,
                    n == origp.len(),
                    doc_size(patch_at_entry) == 1 + entries_size(origp, n as int),
                    pp@ == origp.skip(i as int),
                    ppv == entries_view(origp, origp.len() as int),
                    ppv.len() == n,
                    forall|m: int|
                        0 <= m < n ==> #[trigger] ppv[m] == (
                            origp[m].0@,
                            doc_view(origp[m].1),
                        ),
                    entries_view(acc@, acc@.len() as int) == merge_entries(tpv, ppv, i as int),
                    forall|m: int|
                        0 <= m < i ==> doc_size(#[trigger] origp[m].1) <= entries_size(
                            origp,
                            n as int,
                        ),
                decreases n - i,
            {
                let ghost acc_before = acc@;
                let ghost accv = entries_view(acc@, acc@.len() as int);
                let (key, value) = pp.remove(0);
                proof {
                    assert(origp.skip(i as int)[0] == origp[i as int]);
                    assert(origp.skip(i as int).skip(1) =~= origp.skip(i + 1));
                    assert(key == origp[i as int].0);
                    assert(value == origp[i as int].1);
                    lemma_entry_size_bound(origp, n as int, i as int);
                    lemma_entries_view(acc_before, acc_before.len() as int);
                    assert(doc_size(value) < doc_size(patch_at_entry));
                }
                // Find the first entry of the accumulator with this key.
                let mut j: usize = 0;
                let alen = acc.len();
                while j < alen && !acc[j].0.eq(&key)
                    invariant
                        0 <= j <= alen,
                        alen == acc@.len(),
                        acc@ == acc_before,
                        accv == entries_view(acc@, acc@.len() as int),
                        accv.len() == alen,
                        0 <= i < origp.len(),
                        key == origp[i as int].0,
                        forall|m: int|
                            0 <= m < alen ==> #[trigger] accv[m] == (
                                acc@[m].0@,
                                doc_view(acc@[m].1),
                            ),
                        forall|m: int| 0 <= m < j ==> #[trigger] accv[m].0 != key@,
                    decreases alen - j,
                {
                    j = j + 1;
                }
                proof {
                    lemma_key_index_at(accv, key@, j as int);
                    lemma_merge_entries_unfold(tpv, ppv, i + 1);
                    assert(ppv[i as int].0 == key@);
                    assert(ppv[i as int].1 == doc_view(value));
                }
                if j < alen {
                    let (existing_key, child) = acc.remove(j);
                    proof {
                        assert((existing_key, child) == acc_before[j as int]);
                    }
                    let merged = merge_values(child, value);
                    acc.insert(j, (existing_key, merged));
                    proof {
                        assert(acc@ =~= acc_before.update(
                            j as int,
                            (existing_key, merged),
                        ));
                        lemma_entries_view(acc@, acc@.len() as int);
                        assert(doc_view(child) == accv[j as int].1);
                        assert(entries_view(acc@, acc@.len() as int) =~= accv.update(
                            j as int,
                            (accv[j as int].0, merge_view(accv[j as int].1, ppv[i as int].1)),
                        ));
                    }
                } else {
                    acc.push((key, value));
                    proof {
                        lemma_entries_view(acc@, acc@.len() as int);
                        assert(entries_view(acc@, acc@.len() as int) =~= accv.push(
                            (ppv[i as int].0, ppv[i as int].1),
                        ));
                    }
                }
                i = i + 1;
            }
            proof {
                assert(doc_view(patch_at_entry) == DocView::Object(ppv));
                assert(merge_view(doc_view(target_at_entry), doc_view(patch_at_entry))
                    == DocView::Object(merge_entries(tpv, ppv, ppv.len() as int)));
            }
            ConfigDoc::Object(acc)
        },
    }
}

} // verus!
