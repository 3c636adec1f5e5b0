//! The bounds on how far the substitution is followed only serve to break
//! off a walk that would not end. Where a smaller bound is enough to get a
//! result, every larger one gets the same; and the number of bindings is
//! enough wherever any bound is, both for a chain of variables and for the
//! solutions of variables that are nested in one another. So what is given
//! up at that bound has no expansion at all.
use crate::context::{unfold_base, unfold_var, Env, SpecError};
use crate::semantics::{expand_base, expand_base_at, expand_bases_at};
use crate::types::{Loc, SpecBaseType, SpecBaseType_, TVar};
use vstd::prelude::*;

verus! {

/// A chain of variables that ends within `hops` bindings ends at the same
/// type within any larger number.
pub proof fn lemma_unfold_var_within_more_hops(
    subst: Map<u64, SpecBaseType>,
    loc: Loc,
    tvar: TVar,
    hops: nat,
    more: nat,
)
    requires
        hops <= more,
        unfold_var(subst, loc, tvar, hops) is Ok,
    ensures
        unfold_var(subst, loc, tvar, more) == unfold_var(subst, loc, tvar, hops),
    decreases hops,
{
    if subst.contains_key(tvar.0) {
        match subst[tvar.0].value {
            SpecBaseType_::Var(next) => {
                lemma_unfold_var_within_more_hops(
                    subst,
                    loc,
                    next,
                    (hops - 1) as nat,
                    (more - 1) as nat,
                );
            },
            _ => {},
        }
    }
}

/// A base type that is expanded within `depth` levels of the substitution
/// comes out the same at any larger depth.
pub proof fn lemma_base_expanded_at_more_depth(
    env: Env,
    errors: Seq<SpecError>,
    bt: SpecBaseType,
    depth: nat,
    more: nat,
)
    requires
        depth <= more,
        expand_base_at(env, errors, bt, depth) is Ok,
    ensures
        expand_base_at(env, errors, bt, more) == expand_base_at(env, errors, bt, depth),
    decreases depth, bt,
{
    reveal(expand_base_at);
    reveal(expand_bases_at);
    match bt.value {
        SpecBaseType_::Var(_) => {
            match unfold_base(env.subst, bt) {
                Ok(t) => {
                    if t.value is Apply {
                        lemma_base_expanded_at_more_depth(
                            env,
                            errors,
                            t,
                            (depth - 1) as nat,
                            (more - 1) as nat,
                        );
                    }
                },
                Err(_) => {},
            }
        },
        SpecBaseType_::Apply(_, _, args) => {
            lemma_bases_expanded_at_more_depth(env, errors, args, depth, more);
        },
        _ => {},
    }
}

/// Base types that are expanded within `depth` levels of the substitution
/// come out the same at any larger depth.
pub proof fn lemma_bases_expanded_at_more_depth(
    env: Env,
    errors: Seq<SpecError>,
    items: Seq<SpecBaseType>,
    depth: nat,
    more: nat,
)
    requires
        depth <= more,
        expand_bases_at(env, errors, items, depth) is Ok,
    ensures
        expand_bases_at(env, errors, items, more) == expand_bases_at(env, errors, items, depth),
    decreases depth, items,
{
    reveal(expand_base_at);
    reveal(expand_bases_at);
    if items.len() > 0 {
        lemma_base_expanded_at_more_depth(env, errors, items[0], depth, more);
        match expand_base_at(env, errors, items[0], depth) {
            Ok(first) => {
                lemma_bases_expanded_at_more_depth(
                    env,
                    first.errors,
                    items.drop_first(),
                    depth,
                    more,
                );
            },
            Err(_) => {},
        }
    }
}

/// Where the chain of variables goes from `v` in one step: to the variable
/// that `v` is bound to, or nowhere if the chain ends at `v`.
pub open spec fn step(subst: Map<u64, SpecBaseType>, v: TVar) -> TVar {
    if subst.contains_key(v.0) {
        match subst[v.0].value {
            SpecBaseType_::Var(next) => next,
            _ => v,
        }
    } else {
        v
    }
}

/// The variable that the chain from `tvar` has reached after `k` steps.
pub open spec fn hop(subst: Map<u64, SpecBaseType>, tvar: TVar, k: nat) -> TVar
    decreases k,
{
    if k == 0 {
        tvar
    } else {
        step(subst, hop(subst, tvar, (k - 1) as nat))
    }
}

/// Whether the chain goes on from `v`: it is bound, and to a variable.
pub open spec fn leads_on(subst: Map<u64, SpecBaseType>, v: TVar) -> bool {
    subst.contains_key(v.0) && subst[v.0].value is Var
}

/// Whether the chain from `tvar` goes on from each of its first `k` variables.
pub open spec fn runs(subst: Map<u64, SpecBaseType>, tvar: TVar, k: nat) -> bool {
    forall|i: nat| i < k ==> leads_on(subst, #[trigger] hop(subst, tvar, i))
}

/// Steps add up.
proof fn lemma_hop_add(subst: Map<u64, SpecBaseType>, tvar: TVar, k: nat, more: nat)
    ensures
        hop(subst, tvar, k + more) == hop(subst, hop(subst, tvar, k), more),
    decreases more,
{
    if more > 0 {
        lemma_hop_add(subst, tvar, k, (more - 1) as nat);
    }
}

/// One step first and `k` after is `k` steps and one more.
proof fn lemma_hop_shift(subst: Map<u64, SpecBaseType>, tvar: TVar, k: nat)
    ensures
        hop(subst, tvar, k + 1) == hop(subst, step(subst, tvar), k),
    decreases k,
{
    if k > 0 {
        lemma_hop_shift(subst, tvar, (k - 1) as nat);
    } else {
        assert(hop(subst, tvar, 0) == tvar);
        assert(hop(subst, step(subst, tvar), 0) == step(subst, tvar));
    }
}

/// A chain of variables is given up within `hops` bindings exactly if it
/// goes on from each of its first `hops + 1` variables.
pub proof fn lemma_unfold_var_gives_up_long_chains(
    subst: Map<u64, SpecBaseType>,
    loc: Loc,
    tvar: TVar,
    hops: nat,
)
    ensures
        unfold_var(subst, loc, tvar, hops) is Err <==> runs(subst, tvar, hops + 1),
    decreases hops,
{
    assert(hop(subst, tvar, 0) == tvar);
    if leads_on(subst, tvar) {
        let next = step(subst, tvar);
        if hops == 0 {
            assert forall|i: nat| i < 1 implies leads_on(subst, #[trigger] hop(subst, tvar, i)) by {
                assert(i == 0);
            }
        } else {
            lemma_unfold_var_gives_up_long_chains(subst, loc, next, (hops - 1) as nat);
            if runs(subst, next, hops) {
                assert forall|i: nat| i < hops + 1 implies leads_on(
                    subst,
                    #[trigger] hop(subst, tvar, i),
                ) by {
                    if i > 0 {
                        lemma_hop_shift(subst, tvar, (i - 1) as nat);
                        assert(leads_on(subst, hop(subst, next, (i - 1) as nat)));
                    }
                }
            }
            if runs(subst, tvar, hops + 1) {
                assert forall|i: nat| i < hops implies leads_on(
                    subst,
                    #[trigger] hop(subst, next, i),
                ) by {
                    lemma_hop_shift(subst, tvar, i);
                    assert(leads_on(subst, hop(subst, tvar, i + 1)));
                }
            }
        }
    } else {
        if runs(subst, tvar, hops + 1) {
            assert(leads_on(subst, hop(subst, tvar, 0)));
        }
    }
}

/// A chain that comes back to a variable goes on from every variable it reaches.
proof fn lemma_chain_in_a_circle_goes_on(
    subst: Map<u64, SpecBaseType>,
    tvar: TVar,
    first: nat,
    again: nat,
    k: nat,
)
    requires
        first < again,
        hop(subst, tvar, first) == hop(subst, tvar, again),
        runs(subst, tvar, again),
    ensures
        leads_on(subst, hop(subst, tvar, k)),
    decreases k,
{
    if k >= again {
        let back = (k - (again - first)) as nat;
        lemma_hop_add(subst, tvar, again, (k - again) as nat);
        lemma_hop_add(subst, tvar, first, (k - again) as nat);
        assert(hop(subst, tvar, k) == hop(subst, tvar, back));
        lemma_chain_in_a_circle_goes_on(subst, tvar, first, again, back);
    }
}

/// A chain that goes on from more variables than are bound never ends: it
/// passes some variable twice.
pub proof fn lemma_chain_longer_than_bindings_never_ends(
    subst: Map<u64, SpecBaseType>,
    tvar: TVar,
    k: nat,
)
    requires
        subst.dom().finite(),
        runs(subst, tvar, subst.dom().len() + 1),
    ensures
        runs(subst, tvar, k),
{
    let n = subst.dom().len();
    let passed = Seq::new(n + 1, |i: int| hop(subst, tvar, i as nat).0);
    assert forall|x: u64| passed.to_set().contains(x) implies subst.dom().contains(x) by {
        let i = choose|i: int| 0 <= i < passed.len() && passed[i] == x;
        assert(leads_on(subst, hop(subst, tvar, i as nat)));
    }
    if passed.no_duplicates() {
        passed.unique_seq_to_set();
        vstd::set_lib::lemma_len_subset(passed.to_set(), subst.dom());
    }
    let (i, j) = choose|i: int, j: int|
        0 <= i < passed.len() && 0 <= j < passed.len() && i != j && passed[i] == passed[j];
    let first = (if i < j { i } else { j }) as nat;
    let again = (if i < j { j } else { i }) as nat;
    assert(hop(subst, tvar, first) == hop(subst, tvar, again)) by {
        assert(passed[first as int] == hop(subst, tvar, first).0);
        assert(passed[again as int] == hop(subst, tvar, again).0);
    }
    assert(runs(subst, tvar, again));
    assert forall|t: nat| t < k implies leads_on(subst, #[trigger] hop(subst, tvar, t)) by {
        lemma_chain_in_a_circle_goes_on(subst, tvar, first, again, t);
    }
}

/// As many hops as there are bindings are enough: a chain that is given up
/// within that number is given up within every number, for it never ends.
pub proof fn lemma_unfold_var_gives_up_only_chains_without_end(
    subst: Map<u64, SpecBaseType>,
    loc: Loc,
    tvar: TVar,
    hops: nat,
)
    requires
        subst.dom().finite(),
        unfold_var(subst, loc, tvar, subst.dom().len()) is Err,
    ensures
        unfold_var(subst, loc, tvar, hops) is Err,
{
    lemma_unfold_var_gives_up_long_chains(subst, loc, tvar, subst.dom().len());
    lemma_chain_longer_than_bindings_never_ends(subst, tvar, hops + 1);
    lemma_unfold_var_gives_up_long_chains(subst, loc, tvar, hops);
}

/// What a chain of variables ends at, if it is an applied type, is what some
/// variable is bound to.
proof fn lemma_unfold_var_yields_a_binding(
    subst: Map<u64, SpecBaseType>,
    loc: Loc,
    tvar: TVar,
    hops: nat,
)
    ensures
        match unfold_var(subst, loc, tvar, hops) {
            Ok(t) => t.value is Apply ==> exists|w: u64|
                subst.contains_key(w) && #[trigger] subst[w] == t,
            Err(_) => true,
        },
    decreases hops,
{
    if subst.contains_key(tvar.0) {
        match subst[tvar.0].value {
            SpecBaseType_::Var(next) => {
                if hops > 0 {
                    lemma_unfold_var_yields_a_binding(subst, loc, next, (hops - 1) as nat);
                }
            },
            _ => {
                assert(subst[tvar.0] == subst[tvar.0]);
            },
        }
    }
}

/// What a base type expands to does not depend on what was reported before.
pub proof fn lemma_base_expands_whatever_was_reported(
    env: Env,
    errors: Seq<SpecError>,
    others: Seq<SpecError>,
    bt: SpecBaseType,
    depth: nat,
)
    ensures
        match (expand_base_at(env, errors, bt, depth), expand_base_at(env, others, bt, depth)) {
            (Ok(a), Ok(b)) => a.value == b.value,
            (Err(a), Err(b)) => a == b,
            _ => false,
        },
    decreases depth, bt,
{
    reveal(expand_base_at);
    reveal(expand_bases_at);
    match bt.value {
        SpecBaseType_::Var(_) => {
            match unfold_base(env.subst, bt) {
                Ok(t) => {
                    if t.value is Apply && depth > 0 {
                        lemma_base_expands_whatever_was_reported(
                            env,
                            errors,
                            others,
                            t,
                            (depth - 1) as nat,
                        );
                    }
                },
                Err(_) => {},
            }
        },
        SpecBaseType_::Apply(_, _, args) => {
            lemma_bases_expand_whatever_was_reported(env, errors, others, args, depth);
        },
        _ => {},
    }
}

/// What base types expand to does not depend on what was reported before.
pub proof fn lemma_bases_expand_whatever_was_reported(
    env: Env,
    errors: Seq<SpecError>,
    others: Seq<SpecError>,
    items: Seq<SpecBaseType>,
    depth: nat,
)
    ensures
        match (
            expand_bases_at(env, errors, items, depth),
            expand_bases_at(env, others, items, depth),
        ) {
            (Ok(a), Ok(b)) => a.value == b.value,
            (Err(a), Err(b)) => a == b,
            _ => false,
        },
    decreases depth, items,
{
    reveal(expand_base_at);
    reveal(expand_bases_at);
    if items.len() > 0 {
        lemma_base_expands_whatever_was_reported(env, errors, others, items[0], depth);
        match (
            expand_base_at(env, errors, items[0], depth),
            expand_base_at(env, others, items[0], depth),
        ) {
            (Ok(a), Ok(b)) => {
                lemma_bases_expand_whatever_was_reported(
                    env,
                    a.errors,
                    b.errors,
                    items.drop_first(),
                    depth,
                );
            },
            _ => {},
        }
    }
}

/// The number of nodes of a base type.
pub open spec fn size(bt: SpecBaseType) -> nat
    decreases bt,
{
    match bt.value {
        SpecBaseType_::Apply(_, _, args) => 1 + total_size(args),
        _ => 1,
    }
}

/// The number of nodes of all the base types of a list.
pub open spec fn total_size(bts: Seq<SpecBaseType>) -> nat
    decreases bts,
{
    if bts.len() == 0 {
        0
    } else {
        size(bts[0]) + total_size(bts.drop_first())
    }
}

/// Each base type of a list is no larger than the list.
proof fn lemma_size_within_total(bts: Seq<SpecBaseType>, i: int)
    requires
        0 <= i < bts.len(),
    ensures
        size(bts[i]) <= total_size(bts),
    decreases bts.len(),
{
    if i > 0 {
        lemma_size_within_total(bts.drop_first(), i - 1);
    }
}

/// Whether every expansion of `t` that comes to an end gives a type of `s` nodes.
pub open spec fn expands_to_size(env: Env, t: SpecBaseType, s: nat) -> bool {
    forall|errors: Seq<SpecError>, depth: nat|
        match #[trigger] expand_base_at(env, errors, t, depth) {
            Ok(done) => size(done.value) == s,
            Err(_) => true,
        }
}

/// Whether `seen` holds variables whose solutions are being expanded, each
/// with the size of what its solution expands to, all of them larger than `s`.
pub open spec fn seen_above(env: Env, seen: Map<u64, nat>, s: nat) -> bool {
    &&& seen.dom().subset_of(env.subst.dom())
    &&& forall|w: u64| #[trigger]
        seen.contains_key(w) ==> expands_to_size(env, env.subst[w], seen[w]) && seen[w] > s
}

/// A solution that expands to something expands to the same size wherever
/// and however deep it is expanded.
proof fn lemma_expands_to_one_size(env: Env, errors: Seq<SpecError>, t: SpecBaseType, depth: nat)
    requires
        expand_base_at(env, errors, t, depth) is Ok,
    ensures
        expands_to_size(env, t, size(expand_base_at(env, errors, t, depth)->Ok_0.value)),
{
    let s = size(expand_base_at(env, errors, t, depth)->Ok_0.value);
    assert forall|others: Seq<SpecError>, other: nat|
        match #[trigger] expand_base_at(env, others, t, other) {
            Ok(done) => size(done.value) == s,
            Err(_) => true,
        } by {
        if expand_base_at(env, others, t, other) is Ok {
            lemma_base_expands_whatever_was_reported(env, others, errors, t, other);
            if other <= depth {
                lemma_base_expanded_at_more_depth(env, errors, t, other, depth);
            } else {
                lemma_base_expanded_at_more_depth(env, errors, t, depth, other);
            }
        }
    }
}

/// A base type that some depth expands is expanded, to the same, at the
/// depth that is left when the variables whose solutions are being expanded
/// are taken from the number of bindings: none of them can come up again.
proof fn lemma_base_within_bindings(
    env: Env,
    errors: Seq<SpecError>,
    bt: SpecBaseType,
    depth: nat,
    seen: Map<u64, nat>,
)
    requires
        env.subst.dom().finite(),
        expand_base_at(env, errors, bt, depth) is Ok,
        seen_above(
            env,
            seen,
            if bt.value is Var {
                size(expand_base_at(env, errors, bt, depth)->Ok_0.value)
            } else {
                (size(expand_base_at(env, errors, bt, depth)->Ok_0.value) - 1) as nat
            },
        ),
    ensures
        seen.dom().len() <= env.subst.dom().len(),
        expand_base_at(env, errors, bt, (env.subst.dom().len() - seen.dom().len()) as nat)
            == expand_base_at(env, errors, bt, depth),
    decreases depth, bt,
{
    reveal(expand_base_at);
    reveal(expand_bases_at);
    vstd::set_lib::lemma_len_subset(seen.dom(), env.subst.dom());
    let left = (env.subst.dom().len() - seen.dom().len()) as nat;
    let done = expand_base_at(env, errors, bt, depth)->Ok_0;
    match bt.value {
        SpecBaseType_::Var(tvar) => {
            lemma_unfold_var_yields_a_binding(env.subst, bt.loc, tvar, env.subst.dom().len());
            match unfold_base(env.subst, bt) {
                Ok(t) => {
                    if t.value is Apply {
                        let w = choose|w: u64|
                            env.subst.contains_key(w) && #[trigger] env.subst[w] == t;
                        let below = (depth - 1) as nat;
                        lemma_expands_to_one_size(env, errors, t, below);
                        if seen.contains_key(w) {
                            assert(expands_to_size(env, env.subst[w], seen[w]));
                            assert(size(expand_base_at(env, errors, t, below)->Ok_0.value)
                                == seen[w]);
                        }
                        let more = seen.insert(w, size(done.value));
                        assert(more.dom() =~= seen.dom().insert(w));
                        vstd::set_lib::lemma_len_subset(more.dom(), env.subst.dom());
                        assert(seen_above(env, more, (size(done.value) - 1) as nat)) by {
                            assert forall|v: u64| #[trigger] more.contains_key(v) implies {
                                expands_to_size(env, env.subst[v], more[v]) && more[v] > (size(
                                    done.value,
                                ) - 1) as nat
                            } by {
                                if v != w {
                                    assert(seen.contains_key(v));
                                }
                            }
                        }
                        lemma_base_within_bindings(env, errors, t, below, more);
                    }
                },
                Err(_) => {},
            }
        },
        SpecBaseType_::Apply(_, _, args) => {
            let inner = expand_bases_at(env, errors, args, depth)->Ok_0;
            assert(size(done.value) == 1 + total_size(inner.value));
            lemma_bases_within_bindings(env, errors, args, depth, seen);
        },
        _ => {},
    }
}

/// Base types that some depth expands are expanded, to the same, at the
/// depth that is left when the variables whose solutions are being expanded
/// are taken from the number of bindings.
proof fn lemma_bases_within_bindings(
    env: Env,
    errors: Seq<SpecError>,
    items: Seq<SpecBaseType>,
    depth: nat,
    seen: Map<u64, nat>,
)
    requires
        env.subst.dom().finite(),
        expand_bases_at(env, errors, items, depth) is Ok,
        seen_above(env, seen, total_size(expand_bases_at(env, errors, items, depth)->Ok_0.value)),
    ensures
        seen.dom().len() <= env.subst.dom().len(),
        expand_bases_at(env, errors, items, (env.subst.dom().len() - seen.dom().len()) as nat)
            == expand_bases_at(env, errors, items, depth),
    decreases depth, items,
{
    reveal(expand_base_at);
    reveal(expand_bases_at);
    vstd::set_lib::lemma_len_subset(seen.dom(), env.subst.dom());
    if items.len() > 0 {
        let first = expand_base_at(env, errors, items[0], depth)->Ok_0;
        let rest = expand_bases_at(env, first.errors, items.drop_first(), depth)->Ok_0;
        let all = seq![first.value] + rest.value;
        assert(all.drop_first() =~= rest.value);
        assert(total_size(all) == size(first.value) + total_size(rest.value));
        assert(seen_above(env, seen, size(first.value))) by {
            assert forall|v: u64| #[trigger] seen.contains_key(v) implies {
                expands_to_size(env, env.subst[v], seen[v]) && seen[v] > size(first.value)
            } by {}
        }
        assert(seen_above(env, seen, (size(first.value) - 1) as nat));
        lemma_base_within_bindings(env, errors, items[0], depth, seen);
        assert(seen_above(env, seen, total_size(rest.value)));
        lemma_bases_within_bindings(env, first.errors, items.drop_first(), depth, seen);
    }
}

/// As deep as there are bindings is deep enough: whatever any depth
/// expands, that depth expands to the same.
pub proof fn lemma_base_expanded_within_the_number_of_bindings(
    env: Env,
    errors: Seq<SpecError>,
    bt: SpecBaseType,
    depth: nat,
)
    requires
        env.subst.dom().finite(),
        expand_base_at(env, errors, bt, depth) is Ok,
    ensures
        expand_base(env, errors, bt) == expand_base_at(env, errors, bt, depth),
{
    reveal(expand_base);
    let seen = Map::<u64, nat>::empty();
    assert(seen.dom() =~= Set::<u64>::empty());
    lemma_base_within_bindings(env, errors, bt, depth, seen);
}

/// A base type that is given up at the depth of the number of bindings is
/// given up at every depth: some variable comes up inside its own solution.
pub proof fn lemma_base_given_up_at_every_depth(
    env: Env,
    errors: Seq<SpecError>,
    bt: SpecBaseType,
    depth: nat,
)
    requires
        env.subst.dom().finite(),
        expand_base(env, errors, bt) is Err,
    ensures
        expand_base_at(env, errors, bt, depth) is Err,
{
    if expand_base_at(env, errors, bt, depth) is Ok {
        lemma_base_expanded_within_the_number_of_bindings(env, errors, bt, depth);
    }
}

} // verus!
