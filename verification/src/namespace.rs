//! Names of what the cluster lists, of which some entries carry no name.

use vstd::prelude::*;

verus! {

/// The entries that are present, in their order.
pub open spec fn present<T>(items: Seq<Option<T>>) -> Seq<T>
    decreases items.len(),
{
    if items.len() == 0 {
        Seq::empty()
    } else {
        match items.last() {
            Some(item) => present(items.drop_last()).push(item),
            None => present(items.drop_last()),
        }
    }
}

/// The entries that are present, in their order: what has no value is left out.
pub fn keep_present<T>(items: Vec<Option<T>>) -> (kept: Vec<T>)
    ensures
        kept@ == present(items@),
{
    let mut items = items;
    let ghost all = items@;
    let mut stack: Vec<T> = Vec::new();
    while items.len() > 0
        invariant
            present(all) == present(items@) + stack@.reverse(),
        decreases items.len(),
    {
        let ghost stacked = stack@;
        let last = items.pop();
        if let Some(Some(item)) = last {
            stack.push(item);
            assert(present(items@).push(item) + stacked.reverse() =~= present(items@) + (seq![item]
                + stacked.reverse()));
        }
    }
    let mut kept: Vec<T> = Vec::new();
    while stack.len() > 0
        invariant
            present(all) == kept@ + stack@.reverse(),
        decreases stack.len(),
    {
        let ghost had = kept@;
        let top = stack.pop();
        if let Some(item) = top {
            kept.push(item);
            assert(had + (seq![item] + stack@.reverse()) =~= kept@ + stack@.reverse());
        }
    }
    kept
}

/// The names of the namespaces that the cluster listed, in order; a namespace
/// listed without a name is left out. A listing that failed gives no name and
/// is no error: the user is then asked to choose among none.
pub fn get_namespace_list(listed: Result<Vec<Option<String>>, kube::error::Error>) -> (names: Vec<
    String,
>)
    ensures
        names@ == match listed {
            Ok(items) => present(items@),
            Err(_) => Seq::<String>::empty(),
        },
{
    match listed {
        Ok(items) => keep_present(items),
        Err(_) => Vec::new(),
    }
}

} // verus!
