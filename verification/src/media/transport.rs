//! Deciding which viewers get a direct connection and which go through the
//! server's forwarding unit (SFU).
//!
//! A broadcast can serve both at once: the first few viewers are offered a
//! peer-to-peer connection and everyone after that is served by the SFU.  The
//! encoder runs once either way, so a direct viewer costs uplink bandwidth,
//! which is what the slot limit bounds.
//!
//! The broadcaster arbitrates: a viewer cannot decide for itself whether a
//! slot is free, because several may ask at the same moment and only one side
//! sees the whole picture.
//!
//! Slots are reserved when a viewer is admitted, not when its connection
//! finally succeeds.  A reservation that never connects is given back by
//! [`Allocator::demote`] or [`Allocator::release`].

use std::collections::HashMap;

use vstd::prelude::*;
use vstd::std_specs::hash::*;

use crate::collections::map_keys;

use super::settings::{direct_slots, P2pMode, ScreenShareSettings, MAX_P2P_VIEWERS};

verus! {

broadcast use group_hash_axioms;

/// Why a viewer is being served by the SFU rather than directly.
///
/// Kept distinct so that the user can be told something true: whether direct
/// connections are off, used up, unavailable or simply failed.
#[derive(Debug, Clone, Copy, PartialEq, Eq, Structural)]
pub enum SfuReason {
    /// The user turned peer-to-peer off.
    Disabled,
    /// Every direct slot is taken.
    NoSlots,
    /// The server does not relay the peer-to-peer signal types.
    ServerUnsupported,
    /// A direct connection was tried and did not come up.
    DirectFailed,
}

/// How a viewer is being served.
///
/// Doubles as the answer to a viewer's request to watch, since deciding and
/// recording are the same act.
#[derive(Debug, Clone, Copy, PartialEq, Eq, Structural)]
pub enum Serving {
    /// A direct connection to the broadcaster, holding one slot.
    Direct,
    /// Through the server's SFU.
    Sfu {
        /// Why this viewer is not direct.
        reason: SfuReason,
    },
}

impl Serving {
    /// Whether this viewer holds a direct slot.
    pub fn is_direct(self) -> (r: bool)
        ensures
            r == (self == Serving::Direct),
    {
        match self {
            Serving::Direct => true,
            Serving::Sfu { .. } => false,
        }
    }

    /// An SFU assignment with the given reason.
    pub fn sfu(reason: SfuReason) -> (r: Self)
        ensures
            r == (Serving::Sfu { reason }),
    {
        Serving::Sfu { reason }
    }
}

/// What an allocator knows: its budget and who is served how.
pub struct Allocation {
    /// How many viewers may hold a direct connection at once.
    pub slots: nat,
    /// Why no viewer may, where none may.
    pub disabled: Option<SfuReason>,
    /// How each known viewer is being served.
    pub viewers: Map<u32, Serving>,
}

impl Allocation {
    /// The viewers that hold a direct slot.
    pub open spec fn direct(self) -> Set<u32> {
        self.viewers.dom().filter(|v: u32| self.viewers[v] == Serving::Direct)
    }

    /// How many direct slots are free.
    pub open spec fn free(self) -> int {
        self.slots - self.direct().len()
    }

    /// The budget is kept: no more viewers are direct than there are slots,
    /// and there is a reason for having none exactly where there is none.
    pub open spec fn in_budget(self) -> bool {
        &&& self.viewers.dom().finite()
        &&& self.direct().len() <= self.slots
        &&& self.slots <= MAX_P2P_VIEWERS
        &&& self.disabled is Some <==> self.slots == 0
    }

    /// How a viewer that asks to watch is served.
    pub open spec fn decision(self, viewer: u32) -> Serving {
        if self.viewers.contains_key(viewer) {
            self.viewers[viewer]
        } else if self.disabled is Some {
            Serving::Sfu { reason: self.disabled->0 }
        } else if self.free() == 0 {
            Serving::Sfu { reason: SfuReason::NoSlots }
        } else {
            Serving::Direct
        }
    }

    /// After that viewer has been told.
    pub open spec fn admitted(self, viewer: u32) -> Allocation {
        Allocation { viewers: self.viewers.insert(viewer, self.decision(viewer)), ..self }
    }

    /// Whether this viewer holds a slot.
    pub open spec fn holds_slot(self, viewer: u32) -> bool {
        self.viewers.contains_key(viewer) && self.viewers[viewer] == Serving::Direct
    }

    /// After a viewer's direct connection was given up.
    pub open spec fn demoted(self, viewer: u32) -> Allocation {
        if self.holds_slot(viewer) {
            Allocation {
                viewers: self.viewers.insert(
                    viewer,
                    Serving::Sfu { reason: SfuReason::DirectFailed },
                ),
                ..self
            }
        } else {
            self
        }
    }

    /// After a viewer stopped watching.
    pub open spec fn released(self, viewer: u32) -> Allocation {
        Allocation { viewers: self.viewers.remove(viewer), ..self }
    }
}

proof fn lemma_admitted_direct(a: Allocation, viewer: u32)
    requires
        a.in_budget(),
    ensures
        a.admitted(viewer).in_budget(),
        a.admitted(viewer).direct() == if a.decision(viewer) == Serving::Direct {
            a.direct().insert(viewer)
        } else {
            a.direct()
        },
{
    let b = a.admitted(viewer);
    assert(a.direct().finite());
    if a.decision(viewer) == Serving::Direct {
        assert(b.direct() =~= a.direct().insert(viewer));
    } else {
        assert(b.direct() =~= a.direct());
    }
}

proof fn lemma_demoted_direct(a: Allocation, viewer: u32)
    requires
        a.in_budget(),
    ensures
        a.demoted(viewer).in_budget(),
        a.demoted(viewer).direct() == a.direct().remove(viewer),
{
    assert(a.direct().finite());
    assert(a.demoted(viewer).direct() =~= a.direct().remove(viewer));
}

proof fn lemma_released_direct(a: Allocation, viewer: u32)
    requires
        a.in_budget(),
    ensures
        a.released(viewer).in_budget(),
        a.released(viewer).direct() == a.direct().remove(viewer),
{
    assert(a.direct().finite());
    assert(a.released(viewer).direct() =~= a.direct().remove(viewer));
}

/// Whatever is asked, in whatever order, no more viewers are direct than there
/// are slots.
pub proof fn slots_are_never_exceeded(a: Allocation, viewer: u32)
    requires
        a.in_budget(),
    ensures
        a.admitted(viewer).in_budget(),
        a.demoted(viewer).in_budget(),
        a.released(viewer).in_budget(),
{
    lemma_admitted_direct(a, viewer);
    lemma_demoted_direct(a, viewer);
    lemma_released_direct(a, viewer);
}

/// A repeated request gets the same answer and takes no second slot.
pub proof fn a_repeated_request_changes_nothing(a: Allocation, viewer: u32)
    requires
        a.in_budget(),
    ensures
        a.admitted(viewer).decision(viewer) == a.decision(viewer),
        a.admitted(viewer).admitted(viewer) == a.admitted(viewer),
        a.admitted(viewer).free() >= a.free() - 1,
{
    lemma_admitted_direct(a, viewer);
    assert(a.admitted(viewer).admitted(viewer).viewers =~= a.admitted(viewer).viewers);
}

/// A request leaves every other viewer served as before.
pub proof fn a_request_leaves_other_viewers_alone(a: Allocation, viewer: u32, other: u32)
    requires
        other != viewer,
    ensures
        a.admitted(viewer).viewers.contains_key(other) == a.viewers.contains_key(other),
        a.viewers.contains_key(other) ==> a.admitted(viewer).viewers[other] == a.viewers[other],
{
}

/// A viewer that asks for the first time is served directly exactly when a
/// slot is free, and then holds one slot more than before.
pub proof fn a_new_viewer_is_direct_exactly_when_a_slot_is_free(a: Allocation, viewer: u32)
    requires
        a.in_budget(),
        !a.viewers.contains_key(viewer),
    ensures
        a.decision(viewer) == Serving::Direct <==> a.free() > 0,
        a.free() > 0 ==> a.admitted(viewer).free() == a.free() - 1,
        a.free() == 0 ==> a.admitted(viewer).free() == 0,
{
    lemma_admitted_direct(a, viewer);
}

/// Giving up on a direct connection frees its one slot, says why, and is not
/// reported a second time; the freed slot goes to the next new viewer.
pub proof fn a_failed_connection_frees_its_slot(a: Allocation, viewer: u32, next: u32)
    requires
        a.in_budget(),
        a.holds_slot(viewer),
    ensures
        a.demoted(viewer).free() == a.free() + 1,
        a.demoted(viewer).viewers[viewer] == (Serving::Sfu { reason: SfuReason::DirectFailed }),
        !a.demoted(viewer).holds_slot(viewer),
        a.demoted(viewer).demoted(viewer) == a.demoted(viewer),
        !a.viewers.contains_key(next) ==> a.demoted(viewer).decision(next) == Serving::Direct,
{
    lemma_demoted_direct(a, viewer);
    assert(a.direct().contains(viewer));
}

/// A viewer that leaves is forgotten, and gives back the slot it held.
pub proof fn leaving_gives_back_the_slot(a: Allocation, viewer: u32)
    requires
        a.in_budget(),
    ensures
        !a.released(viewer).viewers.contains_key(viewer),
        a.released(viewer).free() == a.free() + if a.holds_slot(viewer) {
            1int
        } else {
            0int
        },
{
    lemma_released_direct(a, viewer);
    assert(a.holds_slot(viewer) <==> a.direct().contains(viewer));
}

/// A viewer that is refused a direct connection is told the reason that
/// applies: the one for which there are no slots at all, or that all of them
/// are taken.
pub proof fn a_refusal_says_why(a: Allocation, viewer: u32)
    requires
        a.in_budget(),
        !a.viewers.contains_key(viewer),
        a.decision(viewer) != Serving::Direct,
    ensures
        a.slots == 0 ==> a.decision(viewer) == (Serving::Sfu { reason: a.disabled->0 }),
        a.slots > 0 ==> a.decision(viewer) == (Serving::Sfu { reason: SfuReason::NoSlots })
            && a.direct().len() == a.slots,
{
}

/// Tracks which viewers hold a direct slot.  One per broadcast.
#[derive(Debug)]
pub struct Allocator {
    slots: u32,
    disabled_reason: Option<SfuReason>,
    viewers: HashMap<u32, Serving>,
}

impl View for Allocator {
    type V = Allocation;

    closed spec fn view(&self) -> Allocation {
        Allocation {
            slots: self.slots as nat,
            disabled: self.disabled_reason,
            viewers: self.viewers@,
        }
    }
}

/// The allocation a broadcast starts with.
pub open spec fn initial_allocation(
    settings: ScreenShareSettings,
    server_relays_p2p: bool,
) -> Allocation {
    let wanted = direct_slots(settings);
    Allocation {
        slots: if server_relays_p2p {
            wanted as nat
        } else {
            0
        },
        disabled: if !server_relays_p2p {
            Some(SfuReason::ServerUnsupported)
        } else if wanted == 0 {
            Some(SfuReason::Disabled)
        } else {
            None
        },
        viewers: Map::empty(),
    }
}

impl Allocator {
    /// Build an allocator for one broadcast.
    ///
    /// Without a server that relays for it, direct connections cannot be
    /// negotiated at all, whatever the user asked for.
    pub fn new(settings: &ScreenShareSettings, server_relays_p2p: bool) -> (r: Self)
        ensures
            r@ == initial_allocation(*settings, server_relays_p2p),
            r@.in_budget(),
    {
        let wanted: u32 = settings.p2p_slots();
        let (slots, disabled_reason): (u32, Option<SfuReason>) = if !server_relays_p2p {
            (0, Some(SfuReason::ServerUnsupported))
        } else if wanted == 0 {
            (0, Some(SfuReason::Disabled))
        } else {
            (wanted, None)
        };
        let r = Allocator { slots, disabled_reason, viewers: HashMap::new() };
        assert(r@.direct() =~= Set::empty());
        r
    }

    /// Why no viewer can be direct, or `None` when direct slots exist.
    pub fn sfu_only_reason(&self) -> (r: Option<SfuReason>)
        ensures
            r == self@.disabled,
    {
        self.disabled_reason
    }

    /// How many direct slots are currently free.
    pub fn free_slots(&self) -> (r: u32)
        requires
            self@.in_budget(),
        ensures
            r == self@.free(),
    {
        let held: u32 = self.direct_count();
        self.slots - held
    }

    /// How many viewers hold a direct connection.
    pub fn direct_count(&self) -> (r: u32)
        requires
            self@.in_budget(),
        ensures
            r == self@.direct().len(),
    {
        let ghost direct = self@.direct();
        let keys = map_keys(&self.viewers);
        let ghost mut seen: Set<u32> = Set::empty();
        let mut held: u32 = 0;
        let mut i: usize = 0;
        while i < keys.len()
            invariant
                i <= keys.len(),
                keys@.no_duplicates(),
                keys@.to_set() == self.viewers@.dom(),
                direct == self@.direct(),
                direct.finite(),
                direct.len() <= MAX_P2P_VIEWERS,
                seen.finite(),
                held == seen.len(),
                forall|v: u32| #[trigger]
                    seen.contains(v) <==> direct.contains(v) && keys@.subrange(
                        0,
                        i as int,
                    ).contains(v),
            decreases keys.len() - i,
        {
            let key: u32 = keys[i];
            assert(keys@.to_set().contains(key));
            let ghost before = keys@.subrange(0, i as int);
            let ghost after = keys@.subrange(0, i + 1);
            assert(after =~= before.push(key));
            assert(!before.contains(key));
            let direct_here = match self.viewers.get(&key) {
                Some(s) => s.is_direct(),
                None => false,
            };
            assert forall|v: u32| after.contains(v) <==> before.contains(v) || v == key by {
                if before.contains(v) {
                    let j = choose|j: int| 0 <= j < before.len() && before[j] == v;
                    assert(after[j] == v);
                }
                assert(after[i as int] == key);
            }
            if direct_here {
                proof {
                    assert(seen.insert(key).subset_of(direct));
                    vstd::set_lib::lemma_len_subset(seen.insert(key), direct);
                    seen = seen.insert(key);
                }
                held += 1;
            }
            i += 1;
        }
        proof {
            assert(keys@.subrange(0, keys@.len() as int) =~= keys@);
            assert forall|v: u32| direct.contains(v) implies seen.contains(v) by {
                assert(keys@.to_set().contains(v));
            }
            assert(seen =~= direct);
        }
        held
    }

    /// Decide how to serve a viewer that asked to watch.
    ///
    /// Idempotent for a viewer already being served: a repeated request
    /// returns the same answer instead of consuming a second slot.
    pub fn admit_viewer(&mut self, viewer: u32) -> (r: Serving)
        requires
            old(self)@.in_budget(),
        ensures
            r == old(self)@.decision(viewer),
            final(self)@ == old(self)@.admitted(viewer),
            final(self)@.in_budget(),
    {
        proof {
            lemma_admitted_direct(self@, viewer);
        }
        if let Some(existing) = self.viewers.get(&viewer) {
            assert(self@.admitted(viewer).viewers =~= self@.viewers);
            return *existing;
        }
        let decision = match self.disabled_reason {
            Some(reason) => Serving::sfu(reason),
            None => {
                if self.free_slots() == 0 {
                    Serving::sfu(SfuReason::NoSlots)
                } else {
                    Serving::Direct
                }
            },
        };
        self.viewers.insert(viewer, decision);
        decision
    }

    /// Give up on a viewer's direct connection and move it to the SFU.
    ///
    /// The slot is freed for the next viewer that asks.  Returns `true` if this
    /// viewer really was on a direct connection, so the caller only signals a
    /// fallback that actually happened.
    pub fn demote(&mut self, viewer: u32) -> (r: bool)
        requires
            old(self)@.in_budget(),
        ensures
            r == old(self)@.holds_slot(viewer),
            final(self)@ == old(self)@.demoted(viewer),
            final(self)@.in_budget(),
    {
        proof {
            lemma_demoted_direct(self@, viewer);
        }
        let direct = match self.viewers.get(&viewer) {
            Some(s) => s.is_direct(),
            None => false,
        };
        if !direct {
            return false;
        }
        self.viewers.insert(viewer, Serving::sfu(SfuReason::DirectFailed));
        true
    }

    /// Forget a viewer that stopped watching, releasing any slot it held.
    pub fn release(&mut self, viewer: u32)
        requires
            old(self)@.in_budget(),
        ensures
            final(self)@ == old(self)@.released(viewer),
            final(self)@.in_budget(),
    {
        proof {
            lemma_released_direct(self@, viewer);
        }
        self.viewers.remove(&viewer);
    }

    /// How a viewer is currently being served, if it is known at all.
    pub fn serving(&self, viewer: u32) -> (r: Option<Serving>)
        ensures
            r == if self@.viewers.contains_key(viewer) {
                Some(self@.viewers[viewer])
            } else {
                None
            },
    {
        match self.viewers.get(&viewer) {
            Some(s) => Some(*s),
            None => None,
        }
    }
}

/// The free slots and those that are held make up the budget, and a slot is
/// held by a viewer exactly where that viewer is served directly.
pub proof fn held_and_free_slots_make_up_the_budget(a: Allocation, viewer: u32)
    requires
        a.in_budget(),
    ensures
        a.free() + a.direct().len() == a.slots,
        0 <= a.free() <= a.slots <= 8,
        a.direct().contains(viewer) <==> a.viewers.contains_key(viewer) && a.viewers[viewer]
            == Serving::Direct,
        a.holds_slot(viewer) <==> a.direct().contains(viewer),
{
}

/// A broadcast starts with nobody served, and with as many slots as the user
/// allows, eight at most.  It has none on a server that does not relay, and
/// none where the user wants none; the first of these reasons is the one given.
pub proof fn a_broadcast_starts_with_the_slots_the_user_allows(
    settings: ScreenShareSettings,
    server_relays_p2p: bool,
)
    ensures
        ({
            let a = initial_allocation(settings, server_relays_p2p);
            let unwanted = settings.p2p == P2pMode::Disabled || settings.p2p_max_viewers == 0;
            &&& a.viewers == Map::<u32, Serving>::empty()
            &&& a.in_budget()
            &&& !server_relays_p2p ==> a.slots == 0 && a.disabled == Some(
                SfuReason::ServerUnsupported,
            )
            &&& server_relays_p2p && unwanted ==> a.slots == 0 && a.disabled == Some(
                SfuReason::Disabled,
            )
            &&& server_relays_p2p && !unwanted && settings.p2p_max_viewers <= 8 ==> a.slots
                == settings.p2p_max_viewers && a.disabled is None
            &&& server_relays_p2p && !unwanted && settings.p2p_max_viewers > 8 ==> a.slots == 8
                && a.disabled is None
        }),
{
    let a = initial_allocation(settings, server_relays_p2p);
    assert(a.direct() =~= Set::empty());
}

/// A viewer that is known keeps its place when it asks again, however many
/// slots have become free or have been taken meanwhile.
pub proof fn a_known_viewer_keeps_its_place(a: Allocation, viewer: u32, serving: Serving)
    requires
        a.viewers.contains_key(viewer),
        a.viewers[viewer] == serving,
    ensures
        a.decision(viewer) == serving,
        a.admitted(viewer) == a,
{
    assert(a.admitted(viewer).viewers =~= a.viewers);
}

/// What is done about one viewer leaves the budget and every other viewer as
/// they were.
pub proof fn what_one_viewer_does_concerns_no_other(a: Allocation, viewer: u32, other: u32)
    requires
        other != viewer,
    ensures
        a.admitted(viewer).slots == a.slots,
        a.admitted(viewer).disabled == a.disabled,
        a.admitted(viewer).viewers.contains_key(viewer),
        a.demoted(viewer).slots == a.slots,
        a.demoted(viewer).disabled == a.disabled,
        a.demoted(viewer).viewers.contains_key(other) == a.viewers.contains_key(other),
        a.viewers.contains_key(other) ==> a.demoted(viewer).viewers[other] == a.viewers[other],
        a.released(viewer).slots == a.slots,
        a.released(viewer).disabled == a.disabled,
        a.released(viewer).viewers.contains_key(other) == a.viewers.contains_key(other),
        a.viewers.contains_key(other) ==> a.released(viewer).viewers[other] == a.viewers[other],
{
}

/// A viewer that is not direct has no direct connection to give up, so that
/// nothing is reported twice.
pub proof fn only_a_direct_viewer_is_demoted(a: Allocation, viewer: u32)
    requires
        !a.viewers.contains_key(viewer) || a.viewers[viewer] != Serving::Direct,
    ensures
        !a.holds_slot(viewer),
        a.demoted(viewer) == a,
{
}

} // verus!
