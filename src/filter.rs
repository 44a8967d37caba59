use crate::action::HandlerView;
use crate::matcher::skim_match;
use vstd::prelude::*;

verus! {

/// The items whose mark is set, in the order they come in (`marks` is read by
/// position and may be longer than `items`).
pub open spec fn keep_marked(items: Seq<HandlerView>, marks: Seq<bool>) -> Seq<HandlerView>
    decreases items.len(),
{
    if items.len() == 0 {
        Seq::empty()
    } else {
        let n = (items.len() - 1) as int;
        let head = keep_marked(items.take(n), marks);
        if marks[n] {
            head.push(items[n])
        } else {
            head
        }
    }
}

/// For each registry entry, whether its name matches the query.
pub open spec fn match_marks(registry: Seq<HandlerView>, query: Seq<char>) -> Seq<bool> {
    Seq::new(registry.len(), |i: int| skim_match(registry[i].name, query))
}

/// The registry entries that match the query, in registry order.
pub open spec fn filtered_view(registry: Seq<HandlerView>, query: Seq<char>) -> Seq<HandlerView> {
    keep_marked(registry, match_marks(registry, query))
}

/// `sub` is `full` with some entries left out and the rest in the same order:
/// `idx` picks, for each entry of `sub`, a strictly later position of `full`
/// holding it.
pub open spec fn is_embedding(sub: Seq<HandlerView>, full: Seq<HandlerView>, idx: Seq<int>) -> bool {
    &&& idx.len() == sub.len()
    &&& forall|k: int| 0 <= k < idx.len() ==> 0 <= #[trigger] idx[k] < full.len() && full[idx[k]] == sub[k]
    &&& forall|k: int, l: int| 0 <= k < l < idx.len() ==> #[trigger] idx[k] < #[trigger] idx[l]
}

/// `sub` is an order-preserving subsequence of `full`.
pub open spec fn is_subsequence(sub: Seq<HandlerView>, full: Seq<HandlerView>) -> bool {
    exists|idx: Seq<int>| is_embedding(sub, full, idx)
}

proof fn lemma_keep_marked_embeds(items: Seq<HandlerView>, marks: Seq<bool>) -> (idx: Seq<int>)
    ensures
        is_embedding(keep_marked(items, marks), items, idx),
    decreases items.len(),
{
    if items.len() == 0 {
        Seq::empty()
    } else {
        let n = (items.len() - 1) as int;
        let prefix = items.take(n);
        let head_idx = lemma_keep_marked_embeds(prefix, marks);
        if marks[n] {
            let idx = head_idx.push(n);
            assert(is_embedding(keep_marked(items, marks), items, idx));
            idx
        } else {
            head_idx
        }
    }
}

/// Keeping the marked items changes nothing when every item is marked.
pub proof fn lemma_keep_all_marked(items: Seq<HandlerView>, marks: Seq<bool>)
    requires
        marks.len() >= items.len(),
        forall|i: int| 0 <= i < items.len() ==> #[trigger] marks[i],
    ensures
        keep_marked(items, marks) == items,
    decreases items.len(),
{
    if items.len() > 0 {
        let n = (items.len() - 1) as int;
        lemma_keep_all_marked(items.take(n), marks);
        assert(items.take(n).push(items[n]) =~= items);
    }
}

/// Whatever the query, the filtered list is the registry with some entries
/// left out and the others in registry order.
pub proof fn lemma_filtered_is_subsequence(registry: Seq<HandlerView>, query: Seq<char>)
    ensures
        is_subsequence(filtered_view(registry, query), registry),
{
    let idx = lemma_keep_marked_embeds(registry, match_marks(registry, query));
}

} // verus!
