//! What holds of every list of devices.

use vstd::prelude::*;

use crate::cluster::{ClusterView, DeviceView};
use crate::devices::{
    device_list, entries, entries_upto, entry_le, entry_of, first_active, in_list_order,
    is_expanded, is_listed, with_entry, EntryView,
};
use crate::identity::observer_of;
use crate::message::lemma_device_type_label;
use crate::text::{lemma_text_order_total, lemma_text_order_transitive, lowercased};

verus! {

/// Of two entries one is not after the other.
pub proof fn lemma_entry_order_total(a: EntryView, b: EntryView)
    ensures
        entry_le(a, b) || entry_le(b, a),
{
    lemma_text_order_total(lowercased(a.name), lowercased(b.name));
}

/// The order of entries is transitive.
pub proof fn lemma_entry_order_transitive(a: EntryView, b: EntryView, c: EntryView)
    requires
        entry_le(a, b),
        entry_le(b, c),
    ensures
        entry_le(a, c),
{
    if (a.kind == "local"@) == (b.kind == "local"@) && (b.kind == "local"@) == (c.kind
        == "local"@) {
        lemma_text_order_transitive(lowercased(a.name), lowercased(b.name), lowercased(c.name));
    }
}

/// Whether every entry is not after those behind it.
pub open spec fn is_ordered(found: Seq<EntryView>) -> bool {
    forall|i: int, j: int|
        0 <= i < j < found.len() ==> entry_le(#[trigger] found[i], #[trigger] found[j])
}

/// The entries that compare equal to `pivot`, in their order.
pub open spec fn peers(found: Seq<EntryView>, pivot: EntryView) -> Seq<EntryView> {
    found.filter(|entry: EntryView| entry_le(entry, pivot) && entry_le(pivot, entry))
}

proof fn lemma_peers_push(found: Seq<EntryView>, entry: EntryView, pivot: EntryView)
    ensures
        peers(found.push(entry), pivot) == if entry_le(entry, pivot) && entry_le(pivot, entry) {
            peers(found, pivot).push(entry)
        } else {
            peers(found, pivot)
        },
{
    reveal(Seq::filter);
    assert(found.push(entry).drop_last() =~= found);
}

proof fn lemma_with_entry_keeps(sorted: Seq<EntryView>, entry: EntryView, pivot: EntryView)
    requires
        is_ordered(sorted),
    ensures
        is_ordered(with_entry(sorted, entry)),
        with_entry(sorted, entry).to_multiset() == sorted.push(entry).to_multiset(),
        peers(with_entry(sorted, entry), pivot) == peers(sorted.push(entry), pivot),
        forall|k: int|
            0 <= k < with_entry(sorted, entry).len() ==> sorted.contains(
                #[trigger] with_entry(sorted, entry)[k],
            ) || with_entry(sorted, entry)[k] == entry,
    decreases sorted.len(),
{
    broadcast use vstd::seq_lib::group_to_multiset_ensures;

    let after = with_entry(sorted, entry);
    if sorted.len() == 0 || entry_le(sorted.last(), entry) {
        assert forall|i: int, j: int| 0 <= i < j < after.len() implies entry_le(
            #[trigger] after[i],
            #[trigger] after[j],
        ) by {
            if j == sorted.len() && i < sorted.len() - 1 {
                lemma_entry_order_transitive(sorted[i], sorted.last(), entry);
            }
        }
        assert forall|k: int| 0 <= k < after.len() implies sorted.contains(#[trigger] after[k])
            || after[k] == entry by {
            if k < sorted.len() {
                assert(after[k] == sorted[k]);
            }
        }
    } else {
        let rest = sorted.drop_last();
        let last = sorted.last();
        lemma_with_entry_keeps(rest, entry, pivot);
        let inner = with_entry(rest, entry);
        assert(after == inner.push(last));
        lemma_entry_order_total(last, entry);
        assert forall|i: int, j: int| 0 <= i < j < after.len() implies entry_le(
            #[trigger] after[i],
            #[trigger] after[j],
        ) by {
            if j == inner.len() {
                assert(after[i] == inner[i]);
                if inner[i] != entry {
                    let k = choose|k: int| 0 <= k < rest.len() && rest[k] == inner[i];
                    assert(entry_le(sorted[k], sorted[sorted.len() - 1]));
                }
            } else {
                assert(after[i] == inner[i] && after[j] == inner[j]);
            }
        }
        assert forall|k: int| 0 <= k < after.len() implies sorted.contains(#[trigger] after[k])
            || after[k] == entry by {
            if k < inner.len() {
                assert(after[k] == inner[k]);
                if inner[k] != entry {
                    let n = choose|n: int| 0 <= n < rest.len() && rest[n] == inner[k];
                    assert(sorted[n] == after[k]);
                }
            } else {
                assert(sorted[sorted.len() - 1] == after[k]);
            }
        }
        assert(sorted =~= rest.push(last));
        assert(after.to_multiset() =~= sorted.push(entry).to_multiset());
        let same = |e: EntryView| entry_le(e, pivot) && entry_le(pivot, e);
        assert(peers(after, pivot) == peers(sorted.push(entry), pivot)) by {
            lemma_peers_push(inner, last, pivot);
            lemma_peers_push(rest, last, pivot);
            lemma_peers_push(rest, entry, pivot);
            lemma_peers_push(sorted, entry, pivot);
            if same(last) && same(entry) {
                lemma_entry_order_transitive(last, pivot, entry);
            }
        }
    }
}

/// Putting entries into the order of the list loses none and adds none, leaves no entry before
/// one that it comes after, and keeps the order of those that compare equal.
pub proof fn lemma_list_order(found: Seq<EntryView>, pivot: EntryView)
    ensures
        is_ordered(in_list_order(found)),
        in_list_order(found).to_multiset() == found.to_multiset(),
        in_list_order(found).len() == found.len(),
        peers(in_list_order(found), pivot) == peers(found, pivot),
    decreases found.len(),
{
    broadcast use vstd::seq_lib::group_to_multiset_ensures;

    if found.len() == 0 {
        assert(in_list_order(found) =~= found);
    } else {
        let rest = found.drop_last();
        lemma_list_order(rest, pivot);
        lemma_with_entry_keeps(in_list_order(rest), found.last(), pivot);
        assert(found =~= rest.push(found.last()));
        lemma_peers_push(in_list_order(rest), found.last(), pivot);
        lemma_peers_push(rest, found.last(), pivot);
        assert(in_list_order(found).len() == found.len()) by {
            assert(in_list_order(found).to_multiset().len() == found.to_multiset().len());
        }
    }
}

/// Whether `entry` is what the list says of one of the first `n` devices.
pub open spec fn is_entry_upto(
    cluster: ClusterView,
    own_id: Seq<char>,
    n: nat,
    entry: EntryView,
) -> bool {
    exists|i: int|
        0 <= i < n && is_listed(cluster, own_id, i) && #[trigger] entry_of(cluster, own_id, i)
            == entry
}

/// Whether `entry` is what the list says of one of the devices.
pub open spec fn is_entry(cluster: ClusterView, own_id: Seq<char>, entry: EntryView) -> bool {
    is_entry_upto(cluster, own_id, cluster.device.len(), entry)
}

proof fn lemma_entries_upto(cluster: ClusterView, own_id: Seq<char>, n: nat)
    requires
        n <= cluster.device.len(),
    ensures
        forall|i: int|
            #![trigger is_listed(cluster, own_id, i)]
            0 <= i < n && is_listed(cluster, own_id, i) ==> entries_upto(
                cluster,
                own_id,
                n,
            ).contains(entry_of(cluster, own_id, i)),
        forall|k: int|
            0 <= k < entries_upto(cluster, own_id, n).len() ==> is_entry_upto(
                cluster,
                own_id,
                n,
                #[trigger] entries_upto(cluster, own_id, n)[k],
            ),
        cluster.wf() ==> forall|k: int, m: int|
            0 <= k < m < entries_upto(cluster, own_id, n).len() ==> #[trigger] entries_upto(
                cluster,
                own_id,
                n,
            )[k].id != #[trigger] entries_upto(cluster, own_id, n)[m].id,
    decreases n,
{
    if n > 0 {
        let before = entries_upto(cluster, own_id, (n - 1) as nat);
        let now = entries_upto(cluster, own_id, n);
        lemma_entries_upto(cluster, own_id, (n - 1) as nat);
        assert forall|i: int|
            #![trigger is_listed(cluster, own_id, i)]
            0 <= i < n && is_listed(cluster, own_id, i) implies now.contains(
            entry_of(cluster, own_id, i),
        ) by {
            if i == n - 1 {
                assert(now[now.len() - 1] == entry_of(cluster, own_id, i));
            } else {
                let k = choose|k: int|
                    0 <= k < before.len() && before[k] == entry_of(cluster, own_id, i);
                assert(now[k] == before[k]);
            }
        }
        assert forall|k: int| 0 <= k < now.len() implies is_entry_upto(
            cluster,
            own_id,
            n,
            #[trigger] now[k],
        ) by {
            if k < before.len() {
                assert(now[k] == before[k]);
                let i = choose|i: int|
                    0 <= i < n - 1 && is_listed(cluster, own_id, i) && #[trigger] entry_of(
                        cluster,
                        own_id,
                        i,
                    ) == before[k];
                assert(entry_of(cluster, own_id, i) == now[k]);
            } else {
                assert(entry_of(cluster, own_id, n - 1) == now[k]);
            }
        }
        if cluster.wf() {
            assert forall|k: int, m: int| 0 <= k < m < now.len() implies #[trigger] now[k].id
                != #[trigger] now[m].id by {
                if m == before.len() {
                    assert(now[k] == before[k]);
                    let i = choose|i: int|
                        0 <= i < n - 1 && is_listed(cluster, own_id, i) && #[trigger] entry_of(
                            cluster,
                            own_id,
                            i,
                        ) == before[k];
                    assert(cluster.device[i].0 != cluster.device[n - 1].0);
                } else {
                    assert(now[k] == before[k] && now[m] == before[m]);
                }
            }
        }
    }
}

/// The list shows every device that is listed, as `entry_of` has it, and no other.
pub proof fn lemma_list_is_complete(cluster: ClusterView, own_id: Seq<char>, entry: EntryView)
    ensures
        device_list(cluster, own_id).contains(entry) <==> is_entry(cluster, own_id, entry),
{
    broadcast use vstd::seq_lib::group_to_multiset_ensures;

    let found = entries(cluster, own_id);
    lemma_list_order(found, entry);
    lemma_entries_upto(cluster, own_id, cluster.device.len());
    assert(device_list(cluster, own_id).contains(entry) <==> found.contains(entry)) by {
        assert(device_list(cluster, own_id).to_multiset().count(entry)
            == found.to_multiset().count(entry));
    }
}

/// Where ids are distinct in the cluster they are distinct in the list.
pub proof fn lemma_list_ids_distinct(cluster: ClusterView, own_id: Seq<char>)
    requires
        cluster.wf(),
    ensures
        forall|i: int, j: int|
            0 <= i < j < device_list(cluster, own_id).len() ==> #[trigger] device_list(
                cluster,
                own_id,
            )[i].id != #[trigger] device_list(cluster, own_id)[j].id,
{
    broadcast use vstd::seq_lib::group_to_multiset_ensures;

    let found = entries(cluster, own_id);
    let shown = device_list(cluster, own_id);
    lemma_entries_upto(cluster, own_id, cluster.device.len());
    assert forall|i: int, j: int| 0 <= i < j < shown.len() implies #[trigger] shown[i].id
        != #[trigger] shown[j].id by {
        lemma_list_order(found, shown[i]);
        assert forall|k: int, m: int| 0 <= k < m < found.len() implies #[trigger] found[k]
            != #[trigger] found[m] by {
            assert(found[k].id != found[m].id);
        }
        found.lemma_multiset_has_no_duplicates();
        if shown[i] == shown[j] {
            assert(shown.to_multiset().count(shown[i]) <= 1);
            shown.lemma_multiset_has_no_duplicates_conv();
        } else {
            assert(found.to_multiset().count(shown[i]) > 0);
            assert(found.to_multiset().count(shown[j]) > 0);
            let k = choose|k: int| 0 <= k < found.len() && found[k] == shown[i];
            let m = choose|m: int| 0 <= m < found.len() && found[m] == shown[j];
            if k < m {
                assert(found[k].id != found[m].id);
            } else {
                assert(found[m].id != found[k].id);
            }
        }
    }
}

/// An entry is marked as local just where it is this computer's.
pub proof fn lemma_local_is_own(cluster: ClusterView, own_id: Seq<char>, i: int)
    ensures
        entry_of(cluster, own_id, i).kind == "local"@ <==> cluster.device[i].0 == own_id,
        cluster.device[i].0 == own_id ==> entry_of(cluster, own_id, i).name == "This computer"@,
{
    lemma_device_type_label(cluster.device[i].1.device_type);
}

/// This computer, where it is listed, is the first in the list and goes by its own name; only its
/// entry is marked as local.
pub proof fn lemma_local_first(cluster: ClusterView, own_id: Seq<char>, i: int)
    requires
        0 <= i < cluster.device.len(),
        cluster.device[i].0 == own_id,
        is_listed(cluster, own_id, i),
    ensures
        device_list(cluster, own_id).len() > 0,
        device_list(cluster, own_id)[0].id == own_id,
        device_list(cluster, own_id)[0].name == "This computer"@,
        device_list(cluster, own_id)[0].kind == "local"@,
        forall|k: int|
            0 <= k < device_list(cluster, own_id).len() ==> ((#[trigger] device_list(
                cluster,
                own_id,
            )[k]).kind == "local"@ <==> device_list(cluster, own_id)[k].id == own_id),
{
    let shown = device_list(cluster, own_id);
    let own = entry_of(cluster, own_id, i);
    lemma_local_is_own(cluster, own_id, i);
    lemma_list_is_complete(cluster, own_id, own);
    lemma_list_order(entries(cluster, own_id), own);
    let at = choose|at: int| 0 <= at < shown.len() && shown[at] == own;
    assert forall|k: int| 0 <= k < shown.len() implies ((#[trigger] shown[k]).kind == "local"@
        <==> shown[k].id == own_id) && (shown[k].id == own_id ==> shown[k].name
        == "This computer"@) by {
        lemma_list_is_complete(cluster, own_id, shown[k]);
        let n = choose|n: int|
            0 <= n < cluster.device.len() && is_listed(cluster, own_id, n) && #[trigger] entry_of(
                cluster,
                own_id,
                n,
            ) == shown[k];
        lemma_local_is_own(cluster, own_id, n);
    }
    if at > 0 {
        assert(entry_le(shown[0], shown[at]));
    }
}

/// This computer is listed wherever Spotify knows it without aliases.
pub proof fn lemma_own_device_listed(cluster: ClusterView, own_id: Seq<char>, i: int)
    requires
        0 <= i < cluster.device.len(),
        cluster.device[i].0 == own_id,
        cluster.device[i].1.device_aliases.len() == 0,
    ensures
        is_listed(cluster, own_id, i),
{
    reveal_strlit("obs");
    assert(observer_of(own_id).len() == own_id.len() + 3);
}

/// The observer is never in the list.
pub proof fn lemma_observer_hidden(cluster: ClusterView, own_id: Seq<char>, k: int)
    requires
        0 <= k < device_list(cluster, own_id).len(),
    ensures
        device_list(cluster, own_id)[k].id != observer_of(own_id),
{
    let entry = device_list(cluster, own_id)[k];
    lemma_list_is_complete(cluster, own_id, entry);
}

/// A device with aliases is not in the list where its aliases are devices of their own.
pub proof fn lemma_no_alias_duplicate(cluster: ClusterView, own_id: Seq<char>, i: int, k: int)
    requires
        cluster.wf(),
        0 <= i < cluster.device.len(),
        cluster.device[i].1.device_aliases.len() > 0,
        is_expanded(cluster, cluster.device[i].0),
        0 <= k < device_list(cluster, own_id).len(),
    ensures
        device_list(cluster, own_id)[k].id != cluster.device[i].0,
{
    let entry = device_list(cluster, own_id)[k];
    lemma_list_is_complete(cluster, own_id, entry);
    let n = choose|n: int|
        0 <= n < cluster.device.len() && is_listed(cluster, own_id, n) && #[trigger] entry_of(
            cluster,
            own_id,
            n,
        ) == entry;
    if n < i {
        assert(cluster.device[n].0 != cluster.device[i].0);
    } else if n > i {
        assert(cluster.device[i].0 != cluster.device[n].0);
    }
}

proof fn lemma_first_active(found: Seq<EntryView>)
    ensures
        match first_active(found) {
            Some(entry) => found.contains(entry) && entry.active,
            None => forall|k: int| 0 <= k < found.len() ==> !(#[trigger] found[k]).active,
        },
    decreases found.len(),
{
    if found.len() > 0 {
        let rest = found.drop_first();
        lemma_first_active(rest);
        if found.first().active {
            assert(found[0] == found.first());
        } else if first_active(found) is Some {
            let entry = first_active(found)->0;
            let k = choose|k: int| 0 <= k < rest.len() && rest[k] == entry;
            assert(found[k + 1] == entry);
        } else {
            assert forall|k: int| 0 <= k < found.len() implies !(#[trigger] found[k]).active by {
                if k > 0 {
                    assert(found[k] == rest[k - 1]);
                }
            }
        }
    }
}

/// The status names the device that plays just where it is listed, and says of it what the list
/// says.
pub proof fn lemma_status(cluster: ClusterView, own_id: Seq<char>, i: int)
    requires
        cluster.wf(),
    ensures
        0 <= i < cluster.device.len() && cluster.device[i].0 == cluster.active_device_id
            && is_listed(cluster, own_id, i) ==> first_active(device_list(cluster, own_id)) == Some(
            entry_of(cluster, own_id, i),
        ),
        (forall|n: int|
            0 <= n < cluster.device.len() && #[trigger] cluster.device[n].0
                == cluster.active_device_id ==> !is_listed(cluster, own_id, n)) ==> first_active(
            device_list(cluster, own_id),
        ) is None,
{
    let shown = device_list(cluster, own_id);
    lemma_first_active(shown);
    if 0 <= i < cluster.device.len() && cluster.device[i].0 == cluster.active_device_id
        && is_listed(cluster, own_id, i) {
        let entry = entry_of(cluster, own_id, i);
        lemma_list_is_complete(cluster, own_id, entry);
        let at = choose|at: int| 0 <= at < shown.len() && shown[at] == entry;
        assert(shown[at].active);
    }
    if first_active(shown) is Some {
        let entry = first_active(shown)->0;
        lemma_list_is_complete(cluster, own_id, entry);
        let n = choose|n: int|
            0 <= n < cluster.device.len() && is_listed(cluster, own_id, n) && #[trigger] entry_of(
                cluster,
                own_id,
                n,
            ) == entry;
        assert(cluster.device[n].0 == cluster.active_device_id);
        if 0 <= i < cluster.device.len() && cluster.device[i].0 == cluster.active_device_id {
            if n < i {
                assert(cluster.device[n].0 != cluster.device[i].0);
            } else if n > i {
                assert(cluster.device[i].0 != cluster.device[n].0);
            }
        }
    }
}

/// Whether no two entries compare equal in the order of the list.
pub open spec fn is_strict(found: Seq<EntryView>) -> bool {
    forall|i: int, j: int|
        0 <= i < j < found.len() ==> !entry_le(#[trigger] found[j], #[trigger] found[i])
}

proof fn lemma_strict_order_unique(a: Seq<EntryView>, b: Seq<EntryView>)
    requires
        is_ordered(a),
        is_strict(a),
        is_ordered(b),
        a.to_multiset() == b.to_multiset(),
    ensures
        a == b,
    decreases a.len(),
{
    broadcast use vstd::seq_lib::group_to_multiset_ensures;

    assert(a.len() == a.to_multiset().len());
    assert(b.len() == b.to_multiset().len());
    if a.len() == 0 {
        assert(a =~= b);
    } else {
        let n = a.len() - 1;
        assert(a.contains(a[n]) && b.contains(b[n]));
        assert(b.to_multiset().count(a[n]) > 0);
        assert(a.to_multiset().count(b[n]) > 0);
        let k = choose|k: int| 0 <= k < b.len() && b[k] == a[n];
        let m = choose|m: int| 0 <= m < a.len() && a[m] == b[n];
        if k < n && m < n {
            assert(entry_le(b[k], b[n]));
            assert(!entry_le(a[n], a[m]));
        }
        assert(a.last() == b.last());
        assert(a =~= a.drop_last().push(a.last()));
        assert(b =~= b.drop_last().push(b.last()));
        assert(a.drop_last().to_multiset() =~= b.drop_last().to_multiset()) by {
            assert(a.to_multiset() == a.drop_last().to_multiset().insert(a.last()));
            assert(b.to_multiset() == b.drop_last().to_multiset().insert(b.last()));
            broadcast use vstd::multiset::group_multiset_axioms;

            assert(a.drop_last().to_multiset().insert(a.last()).remove(a.last())
                =~= a.drop_last().to_multiset());
            assert(b.drop_last().to_multiset().insert(a.last()).remove(a.last())
                =~= b.drop_last().to_multiset());
        }
        lemma_strict_order_unique(a.drop_last(), b.drop_last());
    }
}

proof fn lemma_entry_moves(a: ClusterView, b: ClusterView, own_id: Seq<char>, entry: EntryView)
    requires
        a.active_device_id == b.active_device_id,
        forall|device: (Seq<char>, DeviceView)| a.device.contains(device) <==> b.device.contains(
            device,
        ),
        is_entry(a, own_id, entry),
    ensures
        is_entry(b, own_id, entry),
{
    let i = choose|i: int|
        0 <= i < a.device.len() && is_listed(a, own_id, i) && #[trigger] entry_of(a, own_id, i)
            == entry;
    assert(a.device.contains(a.device[i]));
    let j = choose|j: int| 0 <= j < b.device.len() && b.device[j] == a.device[i];
    let base = a.device[i].0;
    if is_expanded(b, base) {
        let k = choose|k: int|
            0 <= k < b.device.len() && (base + "_"@).is_prefix_of(#[trigger] b.device[k].0);
        assert(b.device.contains(b.device[k]));
        let m = choose|m: int| 0 <= m < a.device.len() && a.device[m] == b.device[k];
        assert((base + "_"@).is_prefix_of(a.device[m].0));
        assert(is_expanded(a, base));
    }
    assert(is_listed(b, own_id, j));
    assert(entry_of(b, own_id, j) == entry);
}

/// The order in which the devices of a cluster are handed over shows only in entries that compare
/// equal: the list has the same entries, and where none compare equal it is the same list.
pub proof fn lemma_list_ignores_cluster_order(
    a: ClusterView,
    b: ClusterView,
    own_id: Seq<char>,
)
    requires
        a.wf(),
        b.wf(),
        a.active_device_id == b.active_device_id,
        forall|device: (Seq<char>, DeviceView)| a.device.contains(device) <==> b.device.contains(
            device,
        ),
    ensures
        device_list(a, own_id).to_multiset() == device_list(b, own_id).to_multiset(),
        is_strict(device_list(a, own_id)) ==> device_list(a, own_id) == device_list(b, own_id),
{
    broadcast use vstd::seq_lib::group_to_multiset_ensures;

    let x = device_list(a, own_id);
    let y = device_list(b, own_id);
    lemma_list_ids_distinct(a, own_id);
    lemma_list_ids_distinct(b, own_id);
    assert(x.no_duplicates()) by {
        assert forall|i: int, j: int| 0 <= i < j < x.len() implies #[trigger] x[i]
            != #[trigger] x[j] by {
            assert(x[i].id != x[j].id);
        }
    }
    assert(y.no_duplicates()) by {
        assert forall|i: int, j: int| 0 <= i < j < y.len() implies #[trigger] y[i]
            != #[trigger] y[j] by {
            assert(y[i].id != y[j].id);
        }
    }
    x.lemma_multiset_has_no_duplicates();
    y.lemma_multiset_has_no_duplicates();
    assert forall|entry: EntryView| #[trigger] x.to_multiset().count(entry)
        == y.to_multiset().count(entry) by {
        lemma_list_is_complete(a, own_id, entry);
        lemma_list_is_complete(b, own_id, entry);
        if is_entry(a, own_id, entry) {
            lemma_entry_moves(a, b, own_id, entry);
        }
        if is_entry(b, own_id, entry) {
            lemma_entry_moves(b, a, own_id, entry);
        }
        assert(x.contains(entry) <==> x.to_multiset().count(entry) > 0);
        assert(y.contains(entry) <==> y.to_multiset().count(entry) > 0);
    }
    assert(x.to_multiset() =~= y.to_multiset());
    if is_strict(x) {
        lemma_list_order(entries(a, own_id), arbitrary());
        lemma_list_order(entries(b, own_id), arbitrary());
        lemma_strict_order_unique(x, y);
    }
}

} // verus!
