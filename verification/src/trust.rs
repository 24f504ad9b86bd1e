//! The device trust policy: whose devices are verified automatically, and which.
use vstd::prelude::*;
use crate::config::TrustMode;

verus! {

/// Whether a trust mode verifies devices automatically: `tofu` and `all` do,
/// `explicit` leaves verification to the user.
pub open spec fn auto_verifying(mode: TrustMode) -> bool {
    match mode {
        TrustMode::Tofu => true,
        TrustMode::All => true,
        TrustMode::Explicit => false,
    }
}

/// Whether the devices of `member` are checked under `mode`, for the account
/// `own`: only in an auto-verifying mode, and never for the account itself.
pub open spec fn member_checked(mode: TrustMode, own: Seq<char>, member: Seq<char>) -> bool {
    auto_verifying(mode) && member != own
}

/// The positions of the devices that are not verified yet, in order.
pub open spec fn unverified_positions(verified: Seq<bool>) -> Seq<usize>
    decreases verified.len(),
{
    if verified.len() == 0 {
        Seq::empty()
    } else {
        unverified_positions(verified.drop_last()) + (if verified.last() {
            Seq::<usize>::empty()
        } else {
            seq![(verified.len() - 1) as usize]
        })
    }
}

/// Whether `mode` verifies devices automatically.
pub fn auto_verifies(mode: TrustMode) -> (r: bool)
    ensures
        r == auto_verifying(mode),
{
    match mode {
        TrustMode::Tofu => true,
        TrustMode::All => true,
        TrustMode::Explicit => false,
    }
}

/// Whether the devices of `member_user_id` are checked under `mode`, for the
/// logged-in account `own_user_id`.
pub fn checks_member(mode: TrustMode, own_user_id: &str, member_user_id: &str) -> (r: bool)
    ensures
        r == member_checked(mode, own_user_id@, member_user_id@),
{
    auto_verifies(mode) && !crate::text::same_text(own_user_id, member_user_id)
}

/// The positions, among a checked member's devices, of those to verify: the
/// ones not verified yet.
pub fn devices_to_verify(verified: &Vec<bool>) -> (r: Vec<usize>)
    ensures
        r@ == unverified_positions(verified@),
{
    let mut r: Vec<usize> = Vec::new();
    let mut i: usize = 0;
    assert(verified@.take(0) == Seq::<bool>::empty());
    while i < verified.len()
        invariant
            i <= verified.len(),
            r@ == unverified_positions(verified@.take(i as int)),
        decreases verified.len() - i,
    {
        proof {
            assert(verified@.take(i + 1).drop_last() == verified@.take(i as int));
            assert(verified@.take(i + 1).last() == verified@[i as int]);
        }
        if !verified[i] {
            r.push(i);
        }
        i = i + 1;
    }
    assert(verified@.take(verified.len() as int) == verified@);
    r
}

/// In `explicit` mode no device is verified automatically, and in every mode
/// the account's own devices are left alone.
pub proof fn law_explicit_and_own_devices_untouched(mode: TrustMode, own: Seq<char>, member: Seq<char>)
    ensures
        !member_checked(TrustMode::Explicit, own, member),
        !member_checked(mode, own, own),
        mode != TrustMode::Explicit && member != own ==> member_checked(mode, own, member),
{
}

/// The devices picked for verification are exactly the unverified ones, each once, in order.
pub proof fn law_unverified_devices_exactly(verified: Seq<bool>)
    requires
        verified.len() <= usize::MAX,
    ensures
        forall|k: int| 0 <= k < unverified_positions(verified).len() ==> {
            let p = #[trigger] unverified_positions(verified)[k];
            p < verified.len() && !verified[p as int]
        },
        forall|i: int| 0 <= i < verified.len() && !verified[i] ==> unverified_positions(verified).contains(i as usize),
        forall|a: int, b: int| 0 <= a < b < unverified_positions(verified).len() ==> unverified_positions(verified)[a] < unverified_positions(verified)[b],
    decreases verified.len(),
{
    if verified.len() > 0 {
        let init = verified.drop_last();
        law_unverified_devices_exactly(init);
        let pre = unverified_positions(init);
        let all = unverified_positions(verified);
        assert forall|k: int| 0 <= k < all.len() implies {
            let p = #[trigger] all[k];
            p < verified.len() && !verified[p as int]
        } by {
            if k < pre.len() {
                assert(all[k] == pre[k]);
                assert(verified[pre[k] as int] == init[pre[k] as int]);
            } else {
                assert(all[k] == (verified.len() - 1) as usize);
            }
        }
        assert forall|i: int| 0 <= i < verified.len() && !verified[i] implies all.contains(i as usize) by {
            if i < verified.len() - 1 {
                assert(init[i] == verified[i]);
                let k = choose|k: int| 0 <= k < pre.len() && pre[k] == i as usize;
                assert(all[k] == pre[k]);
            } else {
                assert(all[pre.len() as int] == i as usize);
            }
        }
        assert forall|a: int, b: int| 0 <= a < b < all.len() implies all[a] < all[b] by {
            if b < pre.len() {
                assert(all[a] == pre[a] && all[b] == pre[b]);
            } else {
                assert(all[a] == pre[a]);
                assert(pre[a] < init.len());
                assert(all[b] == (verified.len() - 1) as usize);
            }
        }
    }
}

} // verus!
