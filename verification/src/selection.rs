//! Which candidates enter a listing where paths are POSIX-like: the rule for
//! one candidate, and the selection from all children of a directory.
use crate::backend::{AcceptAll, Filter};
use crate::entry::VfsFile;
use std::path::Path;
use vstd::prelude::*;

verus! {

/// Whether a display name marks a hidden entry: it starts with a dot.
pub open spec fn dot_prefixed(name: Seq<char>) -> bool {
    name.len() > 0 && name[0] == '.'
}

/// The rule by which a candidate enters a listing. `system` says whether the
/// backend counts the candidate among its system entries. A system entry
/// needs `show_system_files`, a dot-prefixed one needs `show_hidden`, and
/// every one needs the consent of the filter.
pub open spec fn admitted<F: VfsFile, P: Filter<Path>>(
    entry: &F,
    system: bool,
    show_system_files: bool,
    show_files_filter: &P,
    show_hidden: bool,
) -> bool {
    &&& show_system_files || !system
    &&& show_hidden || !dot_prefixed(entry.file_name_model()@)
    &&& show_files_filter.includes(entry.path_model())
}

/// The rule of `admitted` as a predicate on candidates, where `system_rule`
/// is the rule of the backend that says which paths are system entries.
pub open spec fn admission<F: VfsFile, S: Filter<Path>, P: Filter<Path>>(
    system_rule: &S,
    show_system_files: bool,
    show_files_filter: &P,
    show_hidden: bool,
) -> spec_fn(F) -> bool {
    |entry: F|
        admitted(
            &entry,
            system_rule.includes(entry.path_model()),
            show_system_files,
            show_files_filter,
            show_hidden,
        )
}

/// The listing made of the children of a directory: those that the rule
/// admits, each once, in the order of the children.
pub open spec fn selected<F: VfsFile, S: Filter<Path>, P: Filter<Path>>(
    children: Seq<F>,
    system_rule: &S,
    show_system_files: bool,
    show_files_filter: &P,
    show_hidden: bool,
) -> Seq<F> {
    children.filter(admission(system_rule, show_system_files, show_files_filter, show_hidden))
}

/// Whether the entry is hidden by its name.
pub fn is_hidden<F: VfsFile>(entry: &F) -> (r: bool)
    ensures
        r == dot_prefixed(entry.file_name_model()@),
{
    let name = entry.get_file_name();
    name.unicode_len() > 0 && name.get_char(0) == '.'
}

/// Decides whether a candidate enters the listing. The filter is asked only
/// about a candidate that the two switches let through.
pub fn admits<F: VfsFile, P: Filter<Path>>(
    entry: &F,
    system: bool,
    show_system_files: bool,
    show_files_filter: &P,
    show_hidden: bool,
) -> (r: bool)
    ensures
        r == admitted(entry, system, show_system_files, show_files_filter, show_hidden),
{
    if system && !show_system_files {
        return false;
    }
    if !show_hidden && is_hidden(entry) {
        return false;
    }
    show_files_filter.matches(entry.path())
}

/// Makes the listing from the children of a directory: keeps those that the
/// rule admits and drops the others, without changing the order.
pub fn select_entries<F: VfsFile, S: Filter<Path>, P: Filter<Path>>(
    children: Vec<F>,
    system_rule: &S,
    show_system_files: bool,
    show_files_filter: &P,
    show_hidden: bool,
) -> (listing: Vec<F>)
    ensures
        listing@ == selected(
            children@,
            system_rule,
            show_system_files,
            show_files_filter,
            show_hidden,
        ),
{
    let ghost all = children@;
    let ghost rule = admission::<F, S, P>(
        system_rule,
        show_system_files,
        show_files_filter,
        show_hidden,
    );
    // The children, last first, so that they can be moved out in order.
    let mut rest = children;
    let mut stack: Vec<F> = Vec::new();
    while rest.len() > 0
        invariant
            rest@.len() + stack@.len() == all.len(),
            rest@ == all.subrange(0, rest@.len() as int),
            forall|j: int| 0 <= j < stack@.len() ==> stack@[j] == all[all.len() - 1 - j],
        decreases rest.len(),
    {
        let entry = rest.pop().unwrap();
        stack.push(entry);
    }
    let mut listing: Vec<F> = Vec::new();
    proof {
        lemma_filter_nothing(all, rule);
    }
    while stack.len() > 0
        invariant
            stack@.len() <= all.len(),
            forall|j: int| 0 <= j < stack@.len() ==> stack@[j] == all[all.len() - 1 - j],
            listing@ == all.subrange(0, all.len() - stack@.len()).filter(rule),
            rule == admission::<F, S, P>(
                system_rule,
                show_system_files,
                show_files_filter,
                show_hidden,
            ),
        decreases stack.len(),
    {
        let ghost at = all.len() - stack@.len();
        let entry = stack.pop().unwrap();
        let system = system_rule.matches(entry.path());
        let keep = admits(&entry, system, show_system_files, show_files_filter, show_hidden);
        proof {
            assert(entry == all[at]);
            lemma_filter_next(all, rule, at);
        }
        if keep {
            listing.push(entry);
        }
    }
    proof {
        assert(all.subrange(0, all.len() as int) =~= all);
    }
    listing
}

/// Of no children, nothing is selected.
proof fn lemma_filter_nothing<A>(items: Seq<A>, rule: spec_fn(A) -> bool)
    ensures
        items.subrange(0, 0).filter(rule) == Seq::<A>::empty(),
{
    reveal(Seq::filter);
    assert(items.subrange(0, 0) =~= Seq::<A>::empty());
}

/// One more child adds itself to the selection if the rule holds of it, and
/// nothing otherwise.
proof fn lemma_filter_next<A>(items: Seq<A>, rule: spec_fn(A) -> bool, at: int)
    requires
        0 <= at < items.len(),
    ensures
        items.subrange(0, at + 1).filter(rule) == if rule(items[at]) {
            items.subrange(0, at).filter(rule).push(items[at])
        } else {
            items.subrange(0, at).filter(rule)
        },
{
    reveal(Seq::filter);
    assert(items.subrange(0, at + 1).drop_last() =~= items.subrange(0, at));
}

/// With every switch set, the filter alone decides on a candidate.
pub proof fn lemma_filter_alone_decides<F: VfsFile, P: Filter<Path>>(
    entry: &F,
    system: bool,
    show_files_filter: &P,
)
    ensures
        admitted(entry, system, true, show_files_filter, true) == show_files_filter.includes(
            entry.path_model(),
        ),
{
}

/// A dot-prefixed entry is in no listing that leaves hidden entries out.
pub proof fn lemma_hidden_left_out<F: VfsFile, S: Filter<Path>, P: Filter<Path>>(
    children: Seq<F>,
    system_rule: &S,
    show_system_files: bool,
    show_files_filter: &P,
    entry: F,
)
    requires
        dot_prefixed(entry.file_name_model()@),
    ensures
        !selected(children, system_rule, show_system_files, show_files_filter, false).contains(
            entry,
        ),
{
    let rule = admission::<F, S, P>(system_rule, show_system_files, show_files_filter, false);
    let listing = children.filter(rule);
    if listing.contains(entry) {
        let i = choose|i: int| 0 <= i < listing.len() && listing[i] == entry;
        children.lemma_filter_pred(rule, i);
    }
}

/// Every entry of a listing is one of the children, and the rule admits it.
pub proof fn lemma_selected_are_admitted_children<F: VfsFile, S: Filter<Path>, P: Filter<Path>>(
    children: Seq<F>,
    system_rule: &S,
    show_system_files: bool,
    show_files_filter: &P,
    show_hidden: bool,
    entry: F,
)
    requires
        selected(children, system_rule, show_system_files, show_files_filter, show_hidden).contains(
            entry,
        ),
    ensures
        children.contains(entry),
        admitted(
            &entry,
            system_rule.includes(entry.path_model()),
            show_system_files,
            show_files_filter,
            show_hidden,
        ),
{
    let rule = admission::<F, S, P>(
        system_rule,
        show_system_files,
        show_files_filter,
        show_hidden,
    );
    let listing = children.filter(rule);
    let i = choose|i: int| 0 <= i < listing.len() && listing[i] == entry;
    children.lemma_filter_pred(rule, i);
    lemma_filter_within(children, rule, entry);
}

/// What a selection holds, the sequence it was made from holds too.
proof fn lemma_filter_within<A>(items: Seq<A>, rule: spec_fn(A) -> bool, item: A)
    requires
        items.filter(rule).contains(item),
    ensures
        items.contains(item),
    decreases items.len(),
{
    reveal(Seq::filter);
    if items.len() > 0 {
        let front = items.drop_last();
        if front.filter(rule).contains(item) {
            lemma_filter_within(front, rule, item);
            let i = choose|i: int| 0 <= i < front.len() && front[i] == item;
            assert(items[i] == item);
        } else {
            let listing = items.filter(rule);
            let i = choose|i: int| 0 <= i < listing.len() && listing[i] == item;
            assert(rule(items.last()));
            assert(listing == front.filter(rule).push(items.last()));
            if i < front.filter(rule).len() {
                assert(front.filter(rule)[i] == item);
                assert(front.filter(rule).contains(item));
            }
            assert(items[items.len() - 1] == item);
        }
    }
}

/// With every switch set and the filter that includes every path, the
/// listing is the children themselves: each of them, once, in their order.
pub proof fn lemma_nothing_left_out<F: VfsFile, S: Filter<Path>>(children: Seq<F>, system_rule: &S)
    ensures
        selected(children, system_rule, true, &AcceptAll, true) == children,
    decreases children.len(),
{
    reveal(Seq::filter);
    let rule = admission::<F, S, AcceptAll>(system_rule, true, &AcceptAll, true);
    if children.len() > 0 {
        lemma_nothing_left_out(children.drop_last(), system_rule);
        assert(rule(children.last()));
        assert(children.drop_last().push(children.last()) =~= children);
    }
}

} // verus!
