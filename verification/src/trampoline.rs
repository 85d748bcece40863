//! Trampolines: call and jump instructions that stand in front of a
//! function and only lead on to where it really begins.

use crate::address::RemoteAddress;
use crate::error::ErrorKind;
use crate::process::module::{Module, ModuleImage};
use crate::resolver::{extract_address, relative_target};
use vstd::prelude::*;

verus! {

/// Whether `opcode` is a near call or a near jump: an instruction that only
/// leads on to another place.
pub open spec fn is_trampoline(opcode: u8) -> bool {
    opcode == 0xE8 || opcode == 0xE9
}

/// Where a walk over trampolines ends that starts at `at` and may take
/// `hops` jumps: at the first address whose opcode is no trampoline. Each
/// trampoline is five bytes long with its displacement behind the opcode.
pub open spec fn landing(image: ModuleImage, at: RemoteAddress, hops: nat) -> Result<
    RemoteAddress,
    ErrorKind,
>
    decreases hops,
{
    match image.byte_at(at.0 as int) {
        Err(error) => Err(error),
        Ok(opcode) => if !is_trampoline(opcode) {
            Ok(at)
        } else if hops == 0 {
            Err(ErrorKind::TrampolineLoop)
        } else {
            match relative_target(image, at, 1, 5) {
                Err(error) => Err(error),
                Ok(next) => landing(image, next, (hops - 1) as nat),
            }
        },
    }
}

/// Where the function that starts at `entry` really begins, behind all the
/// trampolines in front of it. A walk that has taken as many jumps as the
/// module has bytes has been at one address twice and would never end.
pub open spec fn function_body(image: ModuleImage, entry: RemoteAddress) -> Result<
    RemoteAddress,
    ErrorKind,
> {
    landing(image, entry, image.bytes.len())
}

/// Follows call and jump instructions from `entry` until an instruction is
/// reached that is neither.
pub fn skip_trampolines(
    m: &Module,
    entry: RemoteAddress,
) -> (body: Result<RemoteAddress, ErrorKind>)
    ensures
        body == function_body(m@, entry),
{
    let mut at = entry;
    let mut hops: usize = m.base_size();
    loop
        invariant
            function_body(m@, entry) == landing(m@, at, hops as nat),
        decreases hops,
    {
        let opcode = match m.read_u8(at) {
            Ok(opcode) => opcode,
            Err(error) => {
                return Err(error);
            },
        };
        if opcode != 0xE8 && opcode != 0xE9 {
            return Ok(at);
        }
        if hops == 0 {
            return Err(ErrorKind::TrampolineLoop);
        }
        at = match extract_address(m, at, 1, 5) {
            Ok(next) => next,
            Err(error) => {
                return Err(error);
            },
        };
        hops -= 1;
    }
}

/// Whether the instruction at `at` is a trampoline that lies in the image.
pub open spec fn jumps(image: ModuleImage, at: RemoteAddress) -> bool {
    image.byte_at(at.0 as int) matches Ok(opcode) && is_trampoline(opcode)
}

/// Whether a walk from `from` over exactly `hops` trampolines arrives at `to`.
pub open spec fn reaches(
    image: ModuleImage,
    from: RemoteAddress,
    to: RemoteAddress,
    hops: nat,
) -> bool
    decreases hops,
{
    if hops == 0 {
        from == to
    } else {
        &&& jumps(image, from)
        &&& relative_target(image, from, 1, 5) matches Ok(next)
        &&& reaches(image, next, to, (hops - 1) as nat)
    }
}

/// The address at which a walk from `at` stands after `hops` jumps, as far as
/// it gets.
pub open spec fn nth_hop(image: ModuleImage, at: RemoteAddress, hops: nat) -> RemoteAddress
    decreases hops,
{
    if hops == 0 {
        at
    } else {
        match relative_target(image, at, 1, 5) {
            Ok(next) => nth_hop(image, next, (hops - 1) as nat),
            Err(_) => at,
        }
    }
}

/// A walk that arrives somewhere after `hops` jumps goes on from there with
/// the jumps it has left, and has run out before if it had fewer.
proof fn lemma_landing_from(
    image: ModuleImage,
    from: RemoteAddress,
    to: RemoteAddress,
    hops: nat,
    allowed: nat,
)
    requires
        reaches(image, from, to, hops),
    ensures
        landing(image, from, allowed) == (if allowed >= hops {
            landing(image, to, (allowed - hops) as nat)
        } else {
            Err(ErrorKind::TrampolineLoop)
        }),
    decreases hops,
{
    if hops > 0 && allowed > 0 {
        let next = relative_target(image, from, 1, 5)->Ok_0;
        lemma_landing_from(image, next, to, (hops - 1) as nat, (allowed - 1) as nat);
    }
}

/// A walk that comes back to where it started never ends.
proof fn lemma_cycle_never_lands(image: ModuleImage, at: RemoteAddress, period: nat, allowed: nat)
    requires
        period >= 1,
        reaches(image, at, at, period),
    ensures
        landing(image, at, allowed) == Err::<RemoteAddress, ErrorKind>(ErrorKind::TrampolineLoop),
    decreases allowed,
{
    lemma_landing_from(image, at, at, period, allowed);
    if allowed >= period {
        lemma_cycle_never_lands(image, at, period, (allowed - period) as nat);
    }
}

/// A walk that runs out of jumps has stood on a trampoline after each of them.
proof fn lemma_exhausted_walk(image: ModuleImage, at: RemoteAddress, allowed: nat, hops: nat)
    requires
        landing(image, at, allowed) == Err::<RemoteAddress, ErrorKind>(ErrorKind::TrampolineLoop),
        hops <= allowed,
    ensures
        reaches(image, at, nth_hop(image, at, hops), hops),
        jumps(image, nth_hop(image, at, hops)),
    decreases hops,
{
    if hops > 0 {
        let next = relative_target(image, at, 1, 5)->Ok_0;
        lemma_exhausted_walk(image, next, (allowed - 1) as nat, (hops - 1) as nat);
    }
}

/// A walk is determined by where it starts: what it reaches later, it
/// reaches from every place it has been at before.
proof fn lemma_walk_splits(
    image: ModuleImage,
    from: RemoteAddress,
    mid: RemoteAddress,
    to: RemoteAddress,
    first: nat,
    rest: nat,
)
    requires
        reaches(image, from, mid, first),
        reaches(image, from, to, first + rest),
    ensures
        reaches(image, mid, to, rest),
    decreases first,
{
    if first > 0 {
        let next = relative_target(image, from, 1, 5)->Ok_0;
        lemma_walk_splits(image, next, mid, to, (first - 1) as nat, rest);
    }
}

/// Of `count + 1` numbers below `count`, two are equal.
proof fn lemma_pigeonhole(numbers: spec_fn(int) -> int, count: nat)
    requires
        forall|k: int| 0 <= k <= count ==> 0 <= #[trigger] numbers(k) < count,
    ensures
        exists|i: int, j: int| 0 <= i < j <= count && #[trigger] numbers(i) == #[trigger] numbers(j),
    decreases count,
{
    if count == 0 {
        let first = numbers(0);
        assert(0 <= first < count);
    } else {
        let last = numbers(count as int);
        if exists|i: int| 0 <= i < count && #[trigger] numbers(i) == last {
            let i = choose|i: int| 0 <= i < count && #[trigger] numbers(i) == last;
            assert(0 <= i < count <= count && numbers(i) == numbers(count as int));
        } else {
            let closed = |k: int|
                if numbers(k) > last {
                    numbers(k) - 1
                } else {
                    numbers(k)
                };
            assert forall|k: int| 0 <= k <= count - 1 implies 0 <= #[trigger] closed(k) < count
                - 1 by {
                assert(0 <= numbers(k) < count);
                assert(numbers(k) != last);
            }
            lemma_pigeonhole(closed, (count - 1) as nat);
            let (i, j) = choose|i: int, j: int|
                0 <= i < j <= count - 1 && #[trigger] closed(i) == #[trigger] closed(j);
            assert(numbers(i) != last && numbers(j) != last);
            assert(0 <= i < j <= count && numbers(i) == numbers(j));
        }
    }
}

/// A walk that has not ended after as many jumps as the image has bytes
/// never ends, however many jumps it may take.
pub proof fn lemma_long_walk_never_lands(image: ModuleImage, at: RemoteAddress, allowed: nat)
    requires
        image.wf(),
        landing(image, at, image.bytes.len()) == Err::<RemoteAddress, ErrorKind>(
            ErrorKind::TrampolineLoop,
        ),
    ensures
        landing(image, at, allowed) == Err::<RemoteAddress, ErrorKind>(ErrorKind::TrampolineLoop),
{
    let size = image.bytes.len();
    let places = |k: int| nth_hop(image, at, k as nat).0 - image.base;
    assert forall|k: int| 0 <= k <= size implies 0 <= #[trigger] places(k) < size by {
        lemma_exhausted_walk(image, at, size, k as nat);
    }
    lemma_pigeonhole(places, size);
    let (i, j) = choose|i: int, j: int|
        0 <= i < j <= size && #[trigger] places(i) == #[trigger] places(j);
    let again = nth_hop(image, at, i as nat);
    assert(again == nth_hop(image, at, j as nat));
    lemma_exhausted_walk(image, at, size, i as nat);
    lemma_exhausted_walk(image, at, size, j as nat);
    lemma_walk_splits(image, at, again, again, i as nat, (j - i) as nat);
    lemma_landing_from(image, at, again, i as nat, allowed);
    if allowed >= i {
        lemma_cycle_never_lands(image, again, (j - i) as nat, (allowed - i) as nat);
    }
}

/// A walk that has ended, or has left the image, does the same with more
/// jumps allowed.
pub proof fn lemma_more_hops(image: ModuleImage, at: RemoteAddress, allowed: nat, more: nat)
    requires
        landing(image, at, allowed) != Err::<RemoteAddress, ErrorKind>(ErrorKind::TrampolineLoop),
        more >= allowed,
    ensures
        landing(image, at, more) == landing(image, at, allowed),
    decreases allowed,
{
    if jumps(image, at) && relative_target(image, at, 1, 5) is Ok && allowed > 0 {
        let next = relative_target(image, at, 1, 5)->Ok_0;
        lemma_more_hops(image, next, (allowed - 1) as nat, (more - 1) as nat);
    }
}

/// The bound on the walk takes nothing away: with as many jumps as the image
/// has bytes a walk gets as far as with any greater number, and fails as a
/// loop only where no number of jumps would end it.
pub proof fn law_bound_is_enough(image: ModuleImage, at: RemoteAddress, allowed: nat)
    requires
        image.wf(),
        allowed >= image.bytes.len(),
    ensures
        landing(image, at, allowed) == function_body(image, at),
{
    if function_body(image, at) == Err::<RemoteAddress, ErrorKind>(ErrorKind::TrampolineLoop) {
        lemma_long_walk_never_lands(image, at, allowed);
    } else {
        lemma_more_hops(image, at, image.bytes.len(), allowed);
    }
}

/// What the walk does with the instruction it stands on: one that is no call
/// and no jump ends it there at once; a call or a jump is followed, and the
/// walk goes on from its target as if it had started there; an address
/// outside the image is refused.
pub proof fn law_trampoline_skip(image: ModuleImage, at: RemoteAddress)
    requires
        image.wf(),
    ensures
        function_body(image, at) == (match image.byte_at(at.0 as int) {
            Err(error) => Err(error),
            Ok(opcode) => if !is_trampoline(opcode) {
                Ok(at)
            } else {
                match relative_target(image, at, 1, 5) {
                    Err(error) => Err(error),
                    Ok(next) => function_body(image, next),
                }
            },
        }),
{
    let size = image.bytes.len();
    if jumps(image, at) && relative_target(image, at, 1, 5) is Ok {
        let next = relative_target(image, at, 1, 5)->Ok_0;
        assert(size >= 1);
        let short = landing(image, next, (size - 1) as nat);
        assert(function_body(image, at) == short);
        if short == Err::<RemoteAddress, ErrorKind>(ErrorKind::TrampolineLoop) {
            lemma_long_walk_never_lands(image, at, size + 1);
            assert(landing(image, at, size + 1) == landing(image, next, size));
        } else {
            lemma_more_hops(image, next, (size - 1) as nat, size);
        }
    }
}

} // verus!
