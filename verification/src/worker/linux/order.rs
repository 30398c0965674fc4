//! The order in which mounted file systems are unmounted.

use vstd::prelude::*;

use crate::worker::linux::devices::DeviceNumber;
use crate::worker::linux::mounts;
use crate::worker::linux::mounts::{depth_of, Mount, MountView};
use crate::worker::linux::related::is_among;

verus! {

broadcast use vstd::seq_lib::group_seq_properties;

/// Some mounts with one more, which goes behind those that are at least as deep.
pub open spec fn placed(sorted: Seq<MountView>, mount: MountView) -> Seq<MountView>
    decreases sorted.len(),
{
    if sorted.len() == 0 || mounts::depth(sorted.last().path) >= mounts::depth(mount.path) {
        sorted.push(mount)
    } else {
        placed(sorted.drop_last(), mount).push(sorted.last())
    }
}

/// Some mounts, the deepest first. Those of the same depth stay in their order.
pub open spec fn deepest_first(mounts: Seq<MountView>) -> Seq<MountView>
    decreases mounts.len(),
{
    if mounts.len() == 0 {
        Seq::empty()
    } else {
        placed(deepest_first(mounts.drop_last()), mounts.last())
    }
}

/// The devices of some mounts, each where it is named first.
pub open spec fn devices_in_order(mounts: Seq<MountView>) -> Seq<DeviceNumber>
    decreases mounts.len(),
{
    if mounts.len() == 0 {
        Seq::empty()
    } else {
        let before = devices_in_order(mounts.drop_last());
        if before.contains(mounts.last().device) {
            before
        } else {
            before.push(mounts.last().device)
        }
    }
}

fn place(sorted: &mut Vec<Mount>, mount: Mount)
    ensures
        mounts::mount_views(final(sorted)@) == placed(mounts::mount_views(old(sorted)@), mount@),
{
    let ghost all = mounts::mount_views(sorted@);
    let own: u128 = depth_of(&mount.path);
    let mut at: usize = sorted.len();
    assert(all.take(at as int) =~= all);
    assert(placed(all, mount@) =~= placed(all.take(at as int), mount@) + all.skip(at as int));
    while at > 0 && depth_of(&sorted[at - 1].path) < own
        invariant
            at <= sorted@.len(),
            all == mounts::mount_views(sorted@),
            own == mounts::depth(mount@.path),
            placed(all, mount@) == placed(all.take(at as int), mount@) + all.skip(at as int),
        decreases at,
    {
        let ghost upto = all.take(at as int);
        assert(upto.drop_last() =~= all.take(at - 1));
        assert(upto.last() == all[at - 1]);
        assert(all[at - 1] == sorted@[at - 1]@);
        assert(placed(upto, mount@) == placed(all.take(at - 1), mount@).push(all[at - 1]));
        assert(placed(all.take(at - 1), mount@).push(all[at - 1]) + all.skip(at as int) =~= placed(
            all.take(at - 1),
            mount@,
        ) + all.skip(at - 1));
        at = at - 1;
    }
    proof {
        if at > 0 {
            assert(all.take(at as int).last() == sorted@[at - 1]@);
        }
        assert(placed(all.take(at as int), mount@) =~= all.take(at as int).push(mount@));
    }
    let ghost before = sorted@;
    let ghost view = mount@;
    sorted.insert(at, mount);
    assert(mounts::mount_views(sorted@) =~= all.take(at as int).push(view) + all.skip(at as int));
}

/// Sort mounts, the deepest first.
pub fn sort_deepest_first(mounts: &Vec<Mount>) -> (sorted: Vec<Mount>)
    ensures
        mounts::mount_views(sorted@) == deepest_first(mounts::mount_views(mounts@)),
{
    let ghost all = mounts::mount_views(mounts@);
    let mut sorted: Vec<Mount> = Vec::new();
    let mut index: usize = 0;
    assert(all.take(0) =~= Seq::empty());
    assert(mounts::mount_views(sorted@) =~= Seq::empty());
    while index < mounts.len()
        invariant
            index <= mounts@.len(),
            all == mounts::mount_views(mounts@),
            mounts::mount_views(sorted@) == deepest_first(all.take(index as int)),
        decreases mounts@.len() - index,
    {
        let ghost upto = all.take(index as int + 1);
        assert(upto.drop_last() =~= all.take(index as int));
        assert(upto.last() == mounts@[index as int]@);
        let mount = mounts[index].copy();
        place(&mut sorted, mount);
        index += 1;
    }
    assert(all.take(all.len() as int) =~= all);
    sorted
}

/// The devices of some mounts in the order in which they are unmounted: the one with the deepest
/// mount first, and each once.
pub fn unmount_order(mounts: &Vec<Mount>) -> (devices: Vec<DeviceNumber>)
    ensures
        devices@ == devices_in_order(deepest_first(mounts::mount_views(mounts@))),
{
    let sorted = sort_deepest_first(mounts);
    let ghost all = mounts::mount_views(sorted@);
    let mut devices: Vec<DeviceNumber> = Vec::new();
    let mut index: usize = 0;
    assert(all.take(0) =~= Seq::empty());
    while index < sorted.len()
        invariant
            index <= sorted@.len(),
            all == mounts::mount_views(sorted@),
            devices@ == devices_in_order(all.take(index as int)),
        decreases sorted@.len() - index,
    {
        let ghost upto = all.take(index as int + 1);
        assert(upto.drop_last() =~= all.take(index as int));
        assert(upto.last() == sorted@[index as int]@);
        let device: DeviceNumber = sorted[index].device;
        if !is_among(&devices, device) {
            devices.push(device);
        }
        index += 1;
    }
    assert(all.take(all.len() as int) =~= all);
    devices
}

/// Whether no mount stands before a deeper one.
pub open spec fn is_deepest_first(mounts: Seq<MountView>) -> bool {
    forall|i: int, j: int|
        0 <= i < j < mounts.len() ==> mounts::depth((#[trigger] mounts[i]).path) >= mounts::depth(
            (#[trigger] mounts[j]).path,
        )
}

proof fn placed_keeps(sorted: Seq<MountView>, mount: MountView)
    requires
        is_deepest_first(sorted),
    ensures
        is_deepest_first(placed(sorted, mount)),
        placed(sorted, mount).to_multiset() == sorted.to_multiset().insert(mount),
        placed(sorted, mount).len() == sorted.len() + 1,
        forall|i: int|
            0 <= i < placed(sorted, mount).len() ==> (#[trigger] placed(sorted, mount)[i] == mount
                || sorted.contains(placed(sorted, mount)[i])),
    decreases sorted.len(),
{
    broadcast use vstd::seq_lib::group_to_multiset_ensures;

    if sorted.len() == 0 || mounts::depth(sorted.last().path) >= mounts::depth(mount.path) {
        assert forall|i: int| 0 <= i < sorted.len() implies sorted.contains(
            #[trigger] sorted.push(mount)[i],
        ) by {
            assert(sorted[i] == sorted.push(mount)[i]);
        }
    } else {
        let head = sorted.drop_last();
        placed_keeps(head, mount);
        let inner = placed(head, mount);
        let last = sorted.last();
        assert(sorted =~= head.push(last));
        assert(sorted.to_multiset() == head.to_multiset().insert(last));
        assert(placed(sorted, mount).to_multiset() =~= sorted.to_multiset().insert(mount));
        assert forall|i: int| 0 <= i < inner.len() implies mounts::depth(
            (#[trigger] inner[i]).path,
        ) >= mounts::depth(last.path) by {
            if inner[i] != mount {
                let k = choose|k: int| 0 <= k < head.len() && head[k] == inner[i];
                assert(sorted[k] == head[k]);
            }
        }
        assert forall|i: int| 0 <= i < placed(sorted, mount).len() implies (
        #[trigger] placed(sorted, mount)[i] == mount || sorted.contains(
            placed(sorted, mount)[i],
        )) by {
            let found = placed(sorted, mount)[i];
            if i < inner.len() {
                assert(found == inner[i]);
                if found != mount {
                    let k = choose|k: int| 0 <= k < head.len() && head[k] == found;
                    assert(sorted[k] == found);
                }
            } else {
                assert(sorted[sorted.len() - 1] == found);
            }
        }
    }
}

/// Sorting loses no mount and invents none, and a mount that lies below another one comes before
/// it.
pub proof fn deeper_mounts_come_first(mounts: Seq<MountView>)
    ensures
        is_deepest_first(deepest_first(mounts)),
        deepest_first(mounts).to_multiset() == mounts.to_multiset(),
    decreases mounts.len(),
{
    broadcast use vstd::seq_lib::group_to_multiset_ensures;

    if mounts.len() > 0 {
        deeper_mounts_come_first(mounts.drop_last());
        placed_keeps(deepest_first(mounts.drop_last()), mounts.last());
        assert(mounts =~= mounts.drop_last().push(mounts.last()));
    } else {
        assert(mounts =~= Seq::empty());
    }
}

// ---------------------------------------------------------------------------------------------
// Paths
// ---------------------------------------------------------------------------------------------

/// Whether a byte string stands before another one in a dictionary.
pub open spec fn bytes_less(left: Seq<u8>, right: Seq<u8>) -> bool
    decreases left.len(),
{
    if right.len() == 0 {
        false
    } else if left.len() == 0 {
        true
    } else if left[0] != right[0] {
        left[0] < right[0]
    } else {
        bytes_less(left.drop_first(), right.drop_first())
    }
}

/// Whether a path is unmounted before another one: the deeper one is, and of two equally deep ones
/// that which stands later in a dictionary.
pub open spec fn unmounts_before(left: Seq<u8>, right: Seq<u8>) -> bool {
    ||| mounts::depth(left) > mounts::depth(right)
    ||| mounts::depth(left) == mounts::depth(right) && bytes_less(right, left)
}

proof fn never_less_than_itself(a: Seq<u8>)
    ensures
        !bytes_less(a, a),
    decreases a.len(),
{
    if a.len() > 0 {
        never_less_than_itself(a.drop_first());
    }
}

proof fn bytes_less_orders(a: Seq<u8>, b: Seq<u8>, c: Seq<u8>)
    ensures
        bytes_less(a, b) && bytes_less(b, c) ==> bytes_less(a, c),
        a != b ==> bytes_less(a, b) || bytes_less(b, a),
        !(bytes_less(a, b) && bytes_less(b, a)),
    decreases a.len() + b.len() + c.len(),
{
    if a.len() > 0 && b.len() > 0 {
        if c.len() > 0 {
            bytes_less_orders(a.drop_first(), b.drop_first(), c.drop_first());
        } else {
            bytes_less_orders(a.drop_first(), b.drop_first(), c);
        }
        if a[0] == b[0] && a.drop_first() == b.drop_first() {
            assert(a =~= seq![a[0]] + a.drop_first());
            assert(b =~= seq![b[0]] + b.drop_first());
        }
    } else if a.len() == 0 && b.len() == 0 {
        assert(a =~= b);
    }
}

proof fn unmounts_before_orders(a: Seq<u8>, b: Seq<u8>, c: Seq<u8>)
    ensures
        !unmounts_before(a, a),
        unmounts_before(a, b) && unmounts_before(b, c) ==> unmounts_before(a, c),
        a != b ==> unmounts_before(a, b) || unmounts_before(b, a),
{
    never_less_than_itself(a);
    bytes_less_orders(a, b, c);
    bytes_less_orders(c, b, a);
}

fn is_less(left: &Vec<u8>, right: &Vec<u8>) -> (result: bool)
    ensures
        result == bytes_less(left@, right@),
{
    let mut index: usize = 0;
    assert(left@.skip(0) =~= left@);
    assert(right@.skip(0) =~= right@);
    while index < left.len() && index < right.len() && left[index] == right[index]
        invariant
            index <= left@.len(),
            index <= right@.len(),
            bytes_less(left@, right@) == bytes_less(
                left@.skip(index as int),
                right@.skip(index as int),
            ),
        decreases left@.len() - index,
    {
        assert(left@.skip(index as int).drop_first() =~= left@.skip(index as int + 1));
        assert(right@.skip(index as int).drop_first() =~= right@.skip(index as int + 1));
        index += 1;
    }
    if index == right.len() {
        return false;
    }
    if index == left.len() {
        return true;
    }
    left[index] < right[index]
}

fn goes_before(left: &Vec<u8>, right: &Vec<u8>) -> (result: bool)
    ensures
        result == unmounts_before(left@, right@),
{
    let left_depth: u128 = depth_of(left);
    let right_depth: u128 = depth_of(right);
    left_depth > right_depth || (left_depth == right_depth && is_less(right, left))
}

/// Whether paths stand in the order in which they are unmounted, none of them twice.
pub open spec fn is_unmount_order(paths: Seq<Seq<u8>>) -> bool {
    forall|i: int, j: int|
        0 <= i < j < paths.len() ==> unmounts_before(#[trigger] paths[i], #[trigger] paths[j])
}

fn place_path(sorted: &mut Vec<Vec<u8>>, path: Vec<u8>)
    requires
        is_unmount_order(mounts::byte_views(old(sorted)@)),
    ensures
        is_unmount_order(mounts::byte_views(final(sorted)@)),
        forall|p: Seq<u8>| #[trigger]
            mounts::byte_views(final(sorted)@).contains(p) <==> (mounts::byte_views(
                old(sorted)@,
            ).contains(p) || p == path@),
{
    let ghost all = mounts::byte_views(sorted@);
    let ghost own = path@;
    let mut at: usize = 0;
    while at < sorted.len() && goes_before(&sorted[at], &path)
        invariant
            at <= sorted@.len(),
            all == mounts::byte_views(sorted@),
            own == path@,
            forall|i: int| 0 <= i < at ==> unmounts_before(#[trigger] all[i], own),
        decreases sorted@.len() - at,
    {
        assert(all[at as int] == sorted@[at as int]@);
        at += 1;
    }
    if at < sorted.len() {
        assert(all[at as int] == sorted@[at as int]@);
        let follows = goes_before(&path, &sorted[at]);
        proof {
            unmounts_before_orders(own, all[at as int], own);
        }
        if !follows {
            assert(all[at as int] == own);
            assert(all.contains(own));
            return;
        }
        proof {
            assert forall|j: int| at <= j < all.len() implies unmounts_before(
                own,
                #[trigger] all[j],
            ) by {
                if j > at {
                    unmounts_before_orders(own, all[at as int], all[j]);
                }
            }
        }
    }
    sorted.insert(at, path);
    let ghost after = mounts::byte_views(sorted@);
    proof {
        assert(after =~= all.insert(at as int, own));
        assert forall|p: Seq<u8>| #[trigger] after.contains(p) <==> (all.contains(p) || p
            == own) by {
            if all.contains(p) {
                let i = choose|i: int| 0 <= i < all.len() && all[i] == p;
                if i < at {
                    assert(after[i] == p);
                } else {
                    assert(after[i + 1] == p);
                }
            }
            if p == own {
                assert(after[at as int] == p);
            }
            if after.contains(p) && p != own {
                let i = choose|i: int| 0 <= i < after.len() && after[i] == p;
                if i < at {
                    assert(all[i] == p);
                } else {
                    assert(all[i - 1] == p);
                }
            }
        }
        assert forall|i: int, j: int| 0 <= i < j < after.len() implies unmounts_before(
            #[trigger] after[i],
            #[trigger] after[j],
        ) by {
            if j < at {
                assert(after[i] == all[i] && after[j] == all[j]);
            } else if j == at {
                assert(after[i] == all[i]);
            } else if i == at {
                assert(after[j] == all[j - 1]);
            } else if i < at {
                assert(after[i] == all[i] && after[j] == all[j - 1]);
            } else {
                assert(after[i] == all[i - 1] && after[j] == all[j - 1]);
            }
        }
    }
}

/// Sort mount points, the deepest first, and drop those that are there twice.
pub fn sort_mount_points_for_unmount(paths: &mut Vec<Vec<u8>>)
    ensures
        is_unmount_order(mounts::byte_views(final(paths)@)),
        forall|p: Seq<u8>| #[trigger]
            mounts::byte_views(final(paths)@).contains(p) <==> mounts::byte_views(
                old(paths)@,
            ).contains(p),
{
    let ghost all = mounts::byte_views(paths@);
    let mut sorted: Vec<Vec<u8>> = Vec::new();
    let mut rest: Vec<Vec<u8>> = Vec::new();
    core::mem::swap(&mut rest, paths);
    let ghost mut left = all;
    while rest.len() > 0
        invariant
            left == mounts::byte_views(rest@),
            is_unmount_order(mounts::byte_views(sorted@)),
            forall|p: Seq<u8>| #[trigger]
                all.contains(p) <==> (left.contains(p) || mounts::byte_views(sorted@).contains(p)),
        decreases rest@.len(),
    {
        match rest.pop() {
            Some(path) => {
                let ghost before = mounts::byte_views(sorted@);
                let ghost own = path@;
                place_path(&mut sorted, path);
                let ghost after = mounts::byte_views(sorted@);
                proof {
                    let shorter = mounts::byte_views(rest@);
                    assert(left =~= shorter.push(own));
                    assert forall|p: Seq<u8>| #[trigger] all.contains(p) <==> (shorter.contains(p)
                        || after.contains(p)) by {
                        if shorter.contains(p) {
                            let i = choose|i: int| 0 <= i < shorter.len() && shorter[i] == p;
                            assert(left[i] == p);
                        }
                        if p == own {
                            assert(left[left.len() - 1] == p);
                        }
                        if left.contains(p) && p != own {
                            let i = choose|i: int| 0 <= i < left.len() && left[i] == p;
                            assert(shorter[i] == p);
                        }
                        assert(after.contains(p) <==> (before.contains(p) || p == own));
                    }
                    left = shorter;
                }
            },
            None => {},
        }
    }
    assert forall|p: Seq<u8>| #[trigger]
        mounts::byte_views(sorted@).contains(p) <==> all.contains(p) by {
        assert(!left.contains(p));
    }
    *paths = sorted;
}

/// The devices of some mounts are named once each, and all of them are.
pub proof fn each_mounted_device_is_named_once(mounts: Seq<MountView>)
    ensures
        devices_in_order(mounts).no_duplicates(),
        forall|device: DeviceNumber| #[trigger]
            devices_in_order(mounts).contains(device) <==> exists|i: int|
                0 <= i < mounts.len() && (#[trigger] mounts[i]).device == device,
    decreases mounts.len(),
{
    if mounts.len() > 0 {
        let front = mounts.drop_last();
        each_mounted_device_is_named_once(front);
        let before = devices_in_order(front);
        let all = devices_in_order(mounts);
        let last = mounts.last().device;
        assert(mounts[mounts.len() - 1].device == last);
        assert forall|device: DeviceNumber| #[trigger]
            all.contains(device) <==> exists|i: int|
                0 <= i < mounts.len() && (#[trigger] mounts[i]).device == device by {
            let pushed = before.push(last);
            assert(pushed.contains(device) <==> before.contains(device) || device == last) by {
                if pushed.contains(device) {
                    let at = choose|i: int| 0 <= i < pushed.len() && pushed[i] == device;
                    if at < before.len() {
                        assert(before[at] == device);
                    }
                }
                if before.contains(device) {
                    let at = choose|i: int| 0 <= i < before.len() && before[i] == device;
                    assert(pushed[at] == device);
                }
                if device == last {
                    assert(pushed[before.len() as int] == device);
                }
            }
            if before.contains(device) {
                let at = choose|i: int| 0 <= i < front.len() && (#[trigger] front[i]).device == device;
                assert(mounts[at].device == device);
            }
            if exists|i: int| 0 <= i < mounts.len() && (#[trigger] mounts[i]).device == device {
                let at = choose|i: int|
                    0 <= i < mounts.len() && (#[trigger] mounts[i]).device == device;
                if at < front.len() {
                    assert(front[at].device == device);
                }
            }
        }
        assert(all.no_duplicates()) by {
            assert forall|i: int, j: int| 0 <= i < all.len() && 0 <= j < all.len() && i
                != j implies all[i] != all[j] by {
                if all.len() > before.len() {
                    if i < before.len() && j < before.len() {
                        assert(before[i] != before[j]);
                    } else if i < before.len() {
                        assert(before[i] == all[i]);
                        assert(before.contains(all[i]));
                    } else {
                        assert(before[j] == all[j]);
                        assert(before.contains(all[j]));
                    }
                } else {
                    assert(before[i] != before[j]);
                }
            }
        }
    }
}

/// A device that is named first among some mounts stays first however many mounts follow: the order
/// of the devices is that in which their mounts come.
pub proof fn devices_keep_the_order_of_their_mounts(mounts: Seq<MountView>, more: Seq<MountView>)
    ensures
        devices_in_order(mounts + more).len() >= devices_in_order(mounts).len(),
        devices_in_order(mounts + more).take(devices_in_order(mounts).len() as int)
            == devices_in_order(mounts),
    decreases more.len(),
{
    if more.len() == 0 {
        assert(mounts + more =~= mounts);
        assert(devices_in_order(mounts).take(devices_in_order(mounts).len() as int)
            =~= devices_in_order(mounts));
    } else {
        devices_keep_the_order_of_their_mounts(mounts, more.drop_last());
        assert((mounts + more).drop_last() =~= mounts + more.drop_last());
        let before = devices_in_order(mounts + more.drop_last());
        let after = devices_in_order(mounts + more);
        let count = devices_in_order(mounts).len() as int;
        assert(after.take(count) =~= before.take(count));
    }
}

} // verus!
