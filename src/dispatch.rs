//! Per-event decisions: which sound a key press triggers, and which earlier
//! playback it stops.
//!
//! The dispatcher never plays anything itself. For each key event it says what
//! to do; the caller asks the audio engine to do it and, under
//! `RetriggerPolicy::StopPrevious`, hands back the handle of the new playback.

use crate::keymap::{key_code_spec, key_to_key_code, PlatformKey};
use crate::pack::SoundPack;
use vstd::hash_map::StringHashMap;
use vstd::pervasive::VecAdditionalExecFns;
use vstd::prelude::*;

verus! {

/// What happens when a key is pressed again while its sound may still play.
#[derive(Clone, Copy, Debug, PartialEq, Eq, Structural)]
pub enum RetriggerPolicy {
    /// Every press starts an independent playback; earlier ones keep playing.
    Overlap,
    /// A press first stops the playback that the previous press of the same
    /// key code started.
    StopPrevious,
}

/// The work that one key event asks for: stop `stop`, if any, then play the
/// sound registered for `code`.
#[derive(Debug)]
pub struct Trigger<H> {
    pub code: String,
    pub stop: Option<H>,
}

/// The playback that an event for `code` stops.
pub open spec fn stopped_by_event<H>(
    policy: RetriggerPolicy,
    retained: Map<Seq<char>, H>,
    code: Seq<char>,
) -> Option<H> {
    if policy is StopPrevious && retained.contains_key(code) {
        Some(retained[code])
    } else {
        None
    }
}

/// The retained playbacks after an event that triggers `code`.
pub open spec fn retained_after_event<H>(
    policy: RetriggerPolicy,
    retained: Map<Seq<char>, H>,
    code: Seq<char>,
) -> Map<Seq<char>, H> {
    if policy is StopPrevious {
        retained.remove(code)
    } else {
        retained
    }
}

/// The retained playbacks after playback `h` of `code` has started.
pub open spec fn retained_after_start<H>(
    policy: RetriggerPolicy,
    retained: Map<Seq<char>, H>,
    code: Seq<char>,
    h: H,
) -> Map<Seq<char>, H> {
    if policy is StopPrevious {
        retained.insert(code, h)
    } else {
        retained
    }
}

/// Two presses of one key code in a row, where playback `first` started after
/// the first press and `second` after the other.
///
/// Under `StopPrevious` the second press stops `first`, so `second` is then the
/// one playback of that code left, and it is the one retained. Under `Overlap`
/// neither press stops anything, so both playbacks go on.
pub proof fn lemma_retrigger_policy<H>(
    policy: RetriggerPolicy,
    retained: Map<Seq<char>, H>,
    code: Seq<char>,
    first: H,
    second: H,
)
    ensures
        ({
            let after_first = retained_after_start(
                policy,
                retained_after_event(policy, retained, code),
                code,
                first,
            );
            let after_second = retained_after_start(
                policy,
                retained_after_event(policy, after_first, code),
                code,
                second,
            );
            &&& policy is StopPrevious ==> {
                &&& stopped_by_event(policy, after_first, code) == Some(first)
                &&& after_second.contains_key(code)
                &&& after_second[code] == second
            }
            &&& policy is Overlap ==> {
                &&& stopped_by_event(policy, retained, code) is None
                &&& stopped_by_event(policy, after_first, code) is None
                &&& after_second == retained
            }
        }),
{
}

/// Owns a sound pack and decides, event by event, what to play and stop.
///
/// `A` is the asset type of the pack, `H` the engine's handle to a playback.
/// Under `StopPrevious` the most recent playback of each key code is kept in
/// a slot, so that the next press of that code can stop it.
#[verifier::reject_recursive_types(A)]
#[verifier::reject_recursive_types(H)]
pub struct Dispatcher<A, H> {
    pack: SoundPack<A>,
    policy: RetriggerPolicy,
    slot_of: StringHashMap<usize>,
    slots: Vec<Option<H>>,
}

impl<A, H> Dispatcher<A, H> {
    /// The sounds the dispatcher serves.
    pub closed spec fn sounds(&self) -> Map<Seq<char>, A> {
        self.pack@
    }

    /// The policy fixed at construction.
    pub closed spec fn retrigger_policy(&self) -> RetriggerPolicy {
        self.policy
    }

    /// The playback retained for each key code, to be stopped by its next press.
    pub closed spec fn retained(&self) -> Map<Seq<char>, H> {
        Map::new(
            |k: Seq<char>| self.slot_of@.contains_key(k) && self.slots@[self.slot_of@[k] as int] is Some,
            |k: Seq<char>| self.slots@[self.slot_of@[k] as int]->Some_0,
        )
    }

    /// Every key code has a slot of its own.
    pub closed spec fn wf(&self) -> bool {
        &&& forall|k: Seq<char>| #[trigger]
            self.slot_of@.contains_key(k) ==> self.slot_of@[k] < self.slots@.len()
        &&& forall|k1: Seq<char>, k2: Seq<char>|
            #![trigger self.slot_of@[k1], self.slot_of@[k2]]
            self.slot_of@.contains_key(k1) && self.slot_of@.contains_key(k2) && k1 != k2
                ==> self.slot_of@[k1] != self.slot_of@[k2]
    }

    /// A dispatcher over `pack` with retrigger policy `policy`, retaining nothing.
    pub fn new(pack: SoundPack<A>, policy: RetriggerPolicy) -> (r: Self)
        ensures
            r.wf(),
            r.sounds() == pack@,
            r.retrigger_policy() == policy,
            r.retained() == Map::<Seq<char>, H>::empty(),
    {
        let r = Dispatcher { pack, policy, slot_of: StringHashMap::new(), slots: Vec::new() };
        assert(r.retained() =~= Map::<Seq<char>, H>::empty());
        r
    }

    /// The retrigger policy.
    pub fn policy(&self) -> (r: RetriggerPolicy)
        ensures
            r == self.retrigger_policy(),
    {
        self.policy
    }

    /// The pack the dispatcher serves.
    pub fn pack(&self) -> (r: &SoundPack<A>)
        ensures
            r@ == self.sounds(),
    {
        &self.pack
    }

    /// The asset to play for `code`, if the pack has one.
    pub fn sound(&self, code: &str) -> (r: Option<&A>)
        ensures
            match r {
                Some(a) => self.sounds().contains_key(code@) && *a == self.sounds()[code@],
                None => !self.sounds().contains_key(code@),
            },
    {
        self.pack.get(code)
    }

    /// Decides what one key-press event asks for.
    ///
    /// A key whose code has no sound in the pack is ignored: `None`, and
    /// nothing changes. Otherwise the result names the code to play and,
    /// under `StopPrevious`, hands out the retained playback of that code to
    /// be stopped.
    pub fn on_key_event(&mut self, key: PlatformKey) -> (r: Option<Trigger<H>>)
        requires
            old(self).wf(),
        ensures
            final(self).wf(),
            final(self).sounds() == old(self).sounds(),
            final(self).retrigger_policy() == old(self).retrigger_policy(),
            match r {
                Some(t) => {
                    &&& old(self).sounds().contains_key(key_code_spec(key))
                    &&& t.code@ == key_code_spec(key)
                    &&& t.stop == stopped_by_event(
                        old(self).retrigger_policy(),
                        old(self).retained(),
                        key_code_spec(key),
                    )
                    &&& final(self).retained() == retained_after_event(
                        old(self).retrigger_policy(),
                        old(self).retained(),
                        key_code_spec(key),
                    )
                },
                None => {
                    &&& !old(self).sounds().contains_key(key_code_spec(key))
                    &&& final(self).retained() == old(self).retained()
                },
            },
    {
        let code = key_to_key_code(key);
        if !self.pack.contains(code) {
            return None;
        }
        let ghost before = self.retained();
        let mut stop: Option<H> = None;
        match self.policy {
            RetriggerPolicy::Overlap => {},
            RetriggerPolicy::StopPrevious => {
                match self.slot_of.get(code) {
                    Some(i) => {
                        let i = *i;
                        self.slots.set_and_swap(i, &mut stop);
                        assert(self.retained() =~= before.remove(code@));
                    },
                    None => {
                        assert(self.retained() =~= before.remove(code@));
                    },
                }
            },
        }
        Some(Trigger { code: code.to_owned(), stop })
    }

    /// Records that playback `handle` of `code` has started.
    ///
    /// Under `StopPrevious` it is retained, to be stopped by the next press of
    /// `code`; under `Overlap` the dispatcher keeps nothing.
    pub fn record_start(&mut self, code: &str, handle: H)
        requires
            old(self).wf(),
        ensures
            final(self).wf(),
            final(self).sounds() == old(self).sounds(),
            final(self).retrigger_policy() == old(self).retrigger_policy(),
            final(self).retained() == retained_after_start(
                old(self).retrigger_policy(),
                old(self).retained(),
                code@,
                handle,
            ),
    {
        let ghost before = self.retained();
        match self.policy {
            RetriggerPolicy::Overlap => {},
            RetriggerPolicy::StopPrevious => {
                match self.slot_of.get(code) {
                    Some(i) => {
                        let i = *i;
                        self.slots.set(i, Some(handle));
                    },
                    None => {
                        let i = self.slots.len();
                        self.slots.push(Some(handle));
                        self.slot_of.insert(code.to_owned(), i);
                    },
                }
                assert(self.retained() =~= before.insert(code@, handle));
            },
        }
    }
}

} // verus!
