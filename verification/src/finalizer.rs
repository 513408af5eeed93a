//! The finalizer that keeps a `pgopr` resource in the cluster until its
//! dependents are gone.

use crate::gateway::{Request, RequestView};
use crate::meta::{ObjectMeta, ObjectMetaView};
use vstd::prelude::*;

verus! {

/// The operator's finalizer token.
pub const FINALIZER: &'static str = "generals.pgopr.io/finalizer";

/// What a [`FinalizerPatch`] says of the metadata: the finalizer list to put
/// in place of the present one, or none to drop the list.
#[derive(Clone, Debug, PartialEq, Eq)]
pub struct MetadataPatch {
    pub finalizers: Option<Vec<String>>,
}

/// A merge patch of a resource that is restricted to the finalizers: the
/// document holds the member `metadata`, and that the member `finalizers`,
/// and nothing else.
#[derive(Clone, Debug, PartialEq, Eq)]
pub struct FinalizerPatch {
    pub metadata: MetadataPatch,
}

pub struct MetadataPatchView {
    pub finalizers: Option<Seq<Seq<char>>>,
}

pub struct FinalizerPatchView {
    pub metadata: MetadataPatchView,
}

impl View for MetadataPatch {
    type V = MetadataPatchView;

    open spec fn view(&self) -> MetadataPatchView {
        MetadataPatchView { finalizers: self.finalizers.deep_view() }
    }
}

impl View for FinalizerPatch {
    type V = FinalizerPatchView;

    open spec fn view(&self) -> FinalizerPatchView {
        FinalizerPatchView { metadata: self.metadata@ }
    }
}

impl FinalizerPatchView {
    /// The metadata after the cluster has merged the patch into `meta`. A
    /// merge puts the list of the patch in place of the present list, drops
    /// the list where the patch holds none, and touches no other field.
    pub open spec fn apply(self, meta: ObjectMetaView) -> ObjectMetaView {
        ObjectMetaView { finalizers: self.metadata.finalizers, ..meta }
    }
}

/// The tokens of a finalizer list; none where the list is absent.
pub open spec fn tokens_of(held: Option<Seq<Seq<char>>>) -> Seq<Seq<char>> {
    match held {
        Some(tokens) => tokens,
        None => Seq::empty(),
    }
}

/// The token is another holder's, not the operator's.
pub open spec fn is_foreign() -> spec_fn(Seq<char>) -> bool {
    |token: Seq<char>| token != FINALIZER@
}

/// The token is the operator's.
pub open spec fn is_own() -> spec_fn(Seq<char>) -> bool {
    |token: Seq<char>| token == FINALIZER@
}

/// The tokens of the other holders, in their order.
pub open spec fn without_token(tokens: Seq<Seq<char>>) -> Seq<Seq<char>> {
    tokens.filter(is_foreign())
}

/// How often the operator's token stands in `tokens`.
pub open spec fn occurrences(tokens: Seq<Seq<char>>) -> nat {
    tokens.filter(is_own()).len()
}

/// The finalizers of a resource that holds `held`, once the operator's token
/// is set: the list as it is where the token stands in it, else the list
/// followed by the token.
pub open spec fn with_token(held: Option<Seq<Seq<char>>>) -> Seq<Seq<char>> {
    if tokens_of(held).contains(FINALIZER@) {
        tokens_of(held)
    } else {
        tokens_of(held).push(FINALIZER@)
    }
}

/// The patch that sets the operator's finalizer on a resource that holds
/// `held`, and keeps every token that is there.
pub open spec fn add_patch(held: Option<Seq<Seq<char>>>) -> FinalizerPatchView {
    FinalizerPatchView { metadata: MetadataPatchView { finalizers: Some(with_token(held)) } }
}

/// The patch that removes the operator's finalizer from a resource that
/// holds `held`: the tokens of the other holders stay, and the list is
/// dropped where nothing is left.
pub open spec fn delete_patch(held: Option<Seq<Seq<char>>>) -> FinalizerPatchView {
    let rest = without_token(tokens_of(held));
    FinalizerPatchView {
        metadata: MetadataPatchView {
            finalizers: if rest.len() == 0 {
                None
            } else {
                Some(rest)
            },
        },
    }
}

fn copy_tokens(tokens: &Vec<String>) -> (copy: Vec<String>)
    ensures
        copy.deep_view() == tokens.deep_view(),
{
    let mut copy: Vec<String> = Vec::new();
    let mut i: usize = 0;
    while i < tokens.len()
        invariant
            i <= tokens.len(),
            copy.len() == i,
            forall|k: int| 0 <= k < i ==> copy[k]@ == tokens[k]@,
        decreases tokens.len() - i,
    {
        copy.push(tokens[i].clone());
        i += 1;
    }
    assert(copy.deep_view() =~= tokens.deep_view());
    copy
}

/// A copy of the finalizers that a resource holds.
pub(crate) fn copy_held(held: &Option<Vec<String>>) -> (copy: Option<Vec<String>>)
    ensures
        copy.deep_view() == held.deep_view(),
{
    match held {
        Some(tokens) => Some(copy_tokens(tokens)),
        None => None,
    }
}

fn holds_token(tokens: &Vec<String>) -> (yes: bool)
    ensures
        yes == tokens.deep_view().contains(FINALIZER@),
{
    let own = FINALIZER.to_owned();
    let mut i: usize = 0;
    while i < tokens.len()
        invariant
            i <= tokens.len(),
            own@ == FINALIZER@,
            forall|k: int| 0 <= k < i ==> tokens[k]@ != FINALIZER@,
        decreases tokens.len() - i,
    {
        if tokens[i] == own {
            assert(tokens.deep_view()[i as int] == FINALIZER@);
            return true;
        }
        i += 1;
    }
    assert(forall|k: int|
        0 <= k < tokens.deep_view().len() ==> tokens.deep_view()[k] == tokens[k]@);
    false
}

fn foreign_tokens(tokens: &Vec<String>) -> (rest: Vec<String>)
    ensures
        rest.deep_view() == without_token(tokens.deep_view()),
{
    let own = FINALIZER.to_owned();
    let ghost all = tokens.deep_view();
    let mut rest: Vec<String> = Vec::new();
    let mut i: usize = 0;
    proof {
        reveal_with_fuel(Seq::filter, 1);
        assert(all.take(0) =~= Seq::<Seq<char>>::empty());
        assert(rest.deep_view() =~= without_token(all.take(0)));
    }
    while i < tokens.len()
        invariant
            i <= tokens.len(),
            own@ == FINALIZER@,
            all == tokens.deep_view(),
            rest.deep_view() == without_token(all.take(i as int)),
        decreases tokens.len() - i,
    {
        let ghost before = rest.deep_view();
        let foreign = !(tokens[i] == own);
        if foreign {
            rest.push(tokens[i].clone());
        }
        proof {
            let prefix = all.take(i as int + 1);
            assert(prefix.drop_last() =~= all.take(i as int));
            assert(prefix.last() == tokens[i as int]@);
            reveal_with_fuel(Seq::filter, 1);
            if foreign {
                assert(rest.deep_view() =~= before.push(tokens[i as int]@));
            } else {
                assert(rest.deep_view() =~= before);
            }
            assert(rest.deep_view() =~= without_token(prefix));
        }
        i += 1;
    }
    assert(all.take(i as int) =~= all);
    rest
}

impl FinalizerPatch {
    /// Merges the patch into `meta`, as the cluster does.
    pub fn apply(&self, meta: &ObjectMeta) -> (merged: ObjectMeta)
        ensures
            merged@ == self@.apply(meta@),
    {
        let finalizers = copy_held(&self.metadata.finalizers);
        ObjectMeta {
            name: meta.name.clone(),
            generate_name: meta.generate_name.clone(),
            namespace: meta.namespace.clone(),
            resource_version: meta.resource_version.clone(),
            finalizers,
            deletion_timestamp: meta.deletion_timestamp,
        }
    }
}

/// Asks the cluster to set the operator's finalizer on the `pgopr` resource
/// `name` of `namespace`, which holds the finalizers `held`. Every token that
/// is held stays; where the operator's is among them, the merge changes
/// nothing. Whether the resource exists is not looked up first.
pub fn add(name: &str, namespace: &str, held: &Option<Vec<String>>) -> (request: Request)
    ensures
        request@ == (RequestView::PatchFinalizers {
            name: name@,
            namespace: namespace@,
            patch: add_patch(held.deep_view()),
        }),
{
    let mut finalizers: Vec<String> = match held {
        Some(tokens) => copy_tokens(tokens),
        None => Vec::new(),
    };
    assert(finalizers.deep_view() =~= tokens_of(held.deep_view()));
    if !holds_token(&finalizers) {
        let ghost before = finalizers.deep_view();
        finalizers.push(FINALIZER.to_owned());
        assert(finalizers.deep_view() =~= before.push(FINALIZER@));
    }
    Request::PatchFinalizers {
        name: name.to_owned(),
        namespace: namespace.to_owned(),
        patch: FinalizerPatch { metadata: MetadataPatch { finalizers: Some(finalizers) } },
    }
}

/// Asks the cluster to remove the operator's finalizer from the `pgopr`
/// resource `name` of `namespace`, which holds the finalizers `held`. The
/// tokens of other holders stay; where the operator's is not among them, the
/// merge changes no token. Whether the resource exists is not looked up first.
pub fn delete(name: &str, namespace: &str, held: &Option<Vec<String>>) -> (request: Request)
    ensures
        request@ == (RequestView::PatchFinalizers {
            name: name@,
            namespace: namespace@,
            patch: delete_patch(held.deep_view()),
        }),
{
    let rest: Vec<String> = match held {
        Some(tokens) => foreign_tokens(tokens),
        None => {
            proof {
                reveal_with_fuel(Seq::filter, 1);
            }
            Vec::new()
        },
    };
    assert(rest.deep_view() =~= without_token(tokens_of(held.deep_view())));
    let finalizers = if rest.len() == 0 {
        None
    } else {
        Some(rest)
    };
    Request::PatchFinalizers {
        name: name.to_owned(),
        namespace: namespace.to_owned(),
        patch: FinalizerPatch { metadata: MetadataPatch { finalizers } },
    }
}

/// A list in which the operator's token does not stand holds it no time, and
/// a list in which it stands holds it at least once.
pub proof fn lemma_occurrences(tokens: Seq<Seq<char>>)
    ensures
        tokens.contains(FINALIZER@) <==> occurrences(tokens) > 0,
    decreases tokens.len(),
{
    reveal_with_fuel(Seq::filter, 1);
    if tokens.len() > 0 {
        let front = tokens.drop_last();
        lemma_occurrences(front);
        if tokens.last() == FINALIZER@ {
            assert(tokens[tokens.len() - 1] == FINALIZER@);
        } else if tokens.contains(FINALIZER@) {
            let i = choose|i: int| 0 <= i < tokens.len() && tokens[i] == FINALIZER@;
            assert(front[i] == FINALIZER@);
        } else if front.contains(FINALIZER@) {
            let i = choose|i: int| 0 <= i < front.len() && front[i] == FINALIZER@;
            assert(tokens[i] == FINALIZER@);
        }
    }
}

/// Every foreign token of `tokens` stands in what is left once the
/// operator's token is taken out, and nothing else does.
pub proof fn lemma_without_token(tokens: Seq<Seq<char>>)
    ensures
        !without_token(tokens).contains(FINALIZER@),
        forall|token: Seq<char>|
            token != FINALIZER@ ==> (#[trigger] without_token(tokens).contains(token)
                <==> tokens.contains(token)),
        !tokens.contains(FINALIZER@) ==> without_token(tokens) == tokens,
    decreases tokens.len(),
{
    reveal_with_fuel(Seq::filter, 1);
    if tokens.len() > 0 {
        let front = tokens.drop_last();
        let last = tokens.last();
        lemma_without_token(front);
        let rest = without_token(tokens);
        assert(rest == if last != FINALIZER@ {
            without_token(front).push(last)
        } else {
            without_token(front)
        });
        assert forall|token: Seq<char>| token != FINALIZER@ implies (#[trigger] rest.contains(
            token,
        ) <==> tokens.contains(token)) by {
            if rest.contains(token) {
                let i = choose|i: int| 0 <= i < rest.len() && rest[i] == token;
                if i < without_token(front).len() {
                    assert(without_token(front)[i] == token);
                    assert(without_token(front).contains(token));
                    let j = choose|j: int| 0 <= j < front.len() && front[j] == token;
                    assert(tokens[j] == token);
                } else {
                    assert(tokens[tokens.len() - 1] == token);
                }
            }
            if tokens.contains(token) {
                let j = choose|j: int| 0 <= j < tokens.len() && tokens[j] == token;
                if j < front.len() {
                    assert(front[j] == token);
                    assert(front.contains(token));
                    assert(without_token(front).contains(token));
                    let i = choose|i: int|
                        0 <= i < without_token(front).len() && without_token(front)[i] == token;
                    assert(rest[i] == token);
                } else {
                    assert(rest[rest.len() - 1] == token);
                }
            }
        }
        if rest.contains(FINALIZER@) {
            let i = choose|i: int| 0 <= i < rest.len() && rest[i] == FINALIZER@;
            if i < without_token(front).len() {
                assert(without_token(front)[i] == FINALIZER@);
            }
        }
        if !tokens.contains(FINALIZER@) {
            assert(tokens[tokens.len() - 1] != FINALIZER@);
            if front.contains(FINALIZER@) {
                let j = choose|j: int| 0 <= j < front.len() && front[j] == FINALIZER@;
                assert(tokens[j] == FINALIZER@);
            }
            assert(rest =~= tokens);
        }
    } else {
        assert(without_token(tokens) =~= tokens);
    }
}

/// Setting the finalizer on a resource that holds it changes nothing,
/// whatever else the resource holds.
pub proof fn lemma_add_keeps_held_token(meta: ObjectMetaView)
    requires
        meta.finalizer_list().contains(FINALIZER@),
    ensures
        add_patch(meta.finalizers).apply(meta) == meta,
{
}

/// Setting the finalizer keeps every token that the resource holds, in its
/// place, and the operator's token stands in the list afterwards.
pub proof fn lemma_add_keeps_foreign_tokens(meta: ObjectMetaView)
    ensures
        add_patch(meta.finalizers).apply(meta).finalizer_list().contains(FINALIZER@),
        meta.finalizer_list().is_prefix_of(
            add_patch(meta.finalizers).apply(meta).finalizer_list(),
        ),
        forall|token: Seq<char>|
            token != FINALIZER@ ==> (#[trigger] add_patch(meta.finalizers).apply(
                meta,
            ).finalizer_list().contains(token) <==> meta.finalizer_list().contains(token)),
{
    let before = meta.finalizer_list();
    let after = add_patch(meta.finalizers).apply(meta).finalizer_list();
    assert(before == tokens_of(meta.finalizers));
    if !before.contains(FINALIZER@) {
        assert(after == before.push(FINALIZER@));
        assert(after[after.len() - 1] == FINALIZER@);
        assert forall|token: Seq<char>| token != FINALIZER@ implies (#[trigger] after.contains(
            token,
        ) <==> before.contains(token)) by {
            if after.contains(token) {
                let i = choose|i: int| 0 <= i < after.len() && after[i] == token;
                assert(before[i] == token);
            }
            if before.contains(token) {
                let i = choose|i: int| 0 <= i < before.len() && before[i] == token;
                assert(after[i] == token);
            }
        }
    }
}

/// Setting the finalizer twice in a row leaves the same metadata as setting
/// it once.
pub proof fn lemma_add_is_idempotent(meta: ObjectMetaView)
    ensures
        ({
            let once = add_patch(meta.finalizers).apply(meta);
            add_patch(once.finalizers).apply(once) == once
        }),
{
    lemma_add_keeps_foreign_tokens(meta);
    lemma_add_keeps_held_token(add_patch(meta.finalizers).apply(meta));
}

/// A resource that held the operator's token at most once holds it exactly
/// once after the token was set: setting it does not repeat it.
pub proof fn lemma_add_sets_one_token(meta: ObjectMetaView)
    requires
        occurrences(meta.finalizer_list()) <= 1,
    ensures
        occurrences(add_patch(meta.finalizers).apply(meta).finalizer_list()) == 1,
{
    let before = meta.finalizer_list();
    lemma_occurrences(before);
    if !before.contains(FINALIZER@) {
        let after = before.push(FINALIZER@);
        assert(after.drop_last() =~= before);
        reveal_with_fuel(Seq::filter, 1);
    }
}

/// Removing the finalizer takes out the operator's token and keeps the
/// tokens of the other holders.
pub proof fn lemma_delete_keeps_foreign_tokens(meta: ObjectMetaView)
    ensures
        delete_patch(meta.finalizers).apply(meta).finalizer_list() == without_token(
            meta.finalizer_list(),
        ),
        !delete_patch(meta.finalizers).apply(meta).finalizer_list().contains(FINALIZER@),
        forall|token: Seq<char>|
            token != FINALIZER@ ==> (#[trigger] delete_patch(meta.finalizers).apply(
                meta,
            ).finalizer_list().contains(token) <==> meta.finalizer_list().contains(token)),
{
    lemma_without_token(meta.finalizer_list());
    assert(delete_patch(meta.finalizers).apply(meta).finalizer_list() =~= without_token(
        meta.finalizer_list(),
    ));
}

/// Removing the finalizer from a resource that does not hold it changes no
/// token; on a resource without finalizers it leaves none.
pub proof fn lemma_delete_without_token(meta: ObjectMetaView)
    requires
        !meta.finalizer_list().contains(FINALIZER@),
    ensures
        delete_patch(meta.finalizers).apply(meta).finalizer_list() == meta.finalizer_list(),
        meta.finalizer_list().len() == 0 ==> delete_patch(meta.finalizers).apply(
            meta,
        ).finalizers is None,
        meta.finalizers is None ==> delete_patch(meta.finalizers).apply(meta) == meta,
{
    lemma_without_token(meta.finalizer_list());
    assert(delete_patch(meta.finalizers).apply(meta).finalizer_list() =~= meta.finalizer_list());
    reveal_with_fuel(Seq::filter, 1);
}

/// Removing the finalizer twice in a row leaves the same metadata as
/// removing it once.
pub proof fn lemma_delete_is_idempotent(meta: ObjectMetaView)
    ensures
        ({
            let once = delete_patch(meta.finalizers).apply(meta);
            delete_patch(once.finalizers).apply(once) == once
        }),
{
    let once = delete_patch(meta.finalizers).apply(meta);
    lemma_delete_keeps_foreign_tokens(meta);
    lemma_without_token(once.finalizer_list());
    reveal_with_fuel(Seq::filter, 1);
}

} // verus!
