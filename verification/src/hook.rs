//! Hook targets and the detours installed on them.
//!
//! A hook target is a function inside the host that is found by its
//! signature. The machine code is patched by the caller's patch engine; this
//! module holds the signatures, says which one applies, and keeps the record
//! of what has been installed and enabled: one detour per target, and none
//! that is live ever goes back to being dormant.

use crate::platform::{HostModule, Os, Platform, PointerWidth};
use crate::signature::{has_concrete, Address, Signature};
use std::collections::HashMap;
use vstd::prelude::*;

verus! {

broadcast use vstd::std_specs::hash::group_hash_axioms;

/// Why a hook could not be set up.
#[derive(Clone, Copy, Debug, PartialEq, Eq)]
pub enum HookError {
    /// No signature is known for the platform.
    UnsupportedPlatform,
    /// The target address is null.
    NullTarget,
    /// The replacement address is null.
    NullReplacement,
    /// The target already carries a detour.
    AlreadyInstalled,
    /// The patch engine produced no trampoline.
    NoTrampoline,
    /// The target carries no detour.
    NotInstalled,
}

/// The signature of the interpreter manager's startup function in 64-bit
/// Windows builds of the host.
pub open spec fn startup_windows_64() -> Seq<Option<u8>> {
    seq![
        Some(0x48u8), Some(0x89), Some(0x5C), Some(0x24), None, Some(0x48), Some(0x89),
        Some(0x74), Some(0x24), None, Some(0x57), Some(0x48), Some(0x83), Some(0xEC),
        Some(0x60), Some(0x48), Some(0x8B), Some(0x05), None, None, None, None,
        Some(0x48), Some(0x33), Some(0xC4), Some(0x48), Some(0x89), Some(0x44),
        Some(0x24), None, Some(0x48), Some(0x8B), Some(0xF1), Some(0x48), Some(0x8D),
        Some(0x0D), None, None, None, None, Some(0xFF), Some(0x15), None, None, None,
        None, Some(0xE8), None, None, None, None, Some(0xF3), Some(0x0F), Some(0x10),
        Some(0x0D),
    ]
}

/// The signature of the interpreter manager's startup function in 32-bit
/// Windows builds of the host.
pub open spec fn startup_windows_32() -> Seq<Option<u8>> {
    seq![
        Some(0x55u8), Some(0x8B), Some(0xEC), Some(0x83), Some(0xEC), Some(0x18),
        Some(0x53), Some(0x68), None, None, None, None, Some(0x8B), Some(0xD9),
        Some(0xFF), Some(0x15), None, None, None, None, Some(0x83), Some(0xC4),
        Some(0x04), Some(0xE8), None, None, None, None, Some(0xD9), Some(0x05), None,
        None, None, None, Some(0x68), None, None, None, None, Some(0x51), Some(0x8B),
        Some(0x10), Some(0x8B), Some(0xC8), Some(0xD9), Some(0x1C), Some(0x24),
    ]
}

/// The signature of the interpreter manager's startup function in Linux
/// builds of the host.
pub open spec fn startup_linux() -> Seq<Option<u8>> {
    seq![
        Some(0x55u8), Some(0x48), Some(0x89), Some(0xE5), Some(0x41), Some(0x57),
        Some(0x41), Some(0x56), Some(0x41), Some(0x55), Some(0x41), Some(0x54),
        Some(0x53), Some(0x48), Some(0x83), Some(0xEC), Some(0x28),
    ]
}

/// The startup signature that applies on `platform`, where there is one.
/// Windows has one for each pointer width, Linux one for both.
pub open spec fn startup_pattern(platform: Platform) -> Option<Seq<Option<u8>>> {
    match (platform.os, platform.width) {
        (Os::Windows, PointerWidth::Bits64) => Some(startup_windows_64()),
        (Os::Windows, PointerWidth::Bits32) => Some(startup_windows_32()),
        (Os::Linux, _) => Some(startup_linux()),
        (Os::MacOs, _) => None,
    }
}

fn startup_tokens(platform: Platform) -> (tokens: Option<Vec<Option<u8>>>)
    ensures
        tokens is Some <==> startup_pattern(platform) is Some,
        tokens matches Some(listed) ==> Some(listed@) == startup_pattern(platform),
{
    match platform.os {
        Os::Windows => match platform.width {
            PointerWidth::Bits64 => {
                let listed: Vec<Option<u8>> = vec![
                    Some(0x48u8), Some(0x89), Some(0x5C), Some(0x24), None, Some(0x48), Some(0x89),
                    Some(0x74), Some(0x24), None, Some(0x57), Some(0x48), Some(0x83), Some(0xEC),
                    Some(0x60), Some(0x48), Some(0x8B), Some(0x05), None, None, None, None,
                    Some(0x48), Some(0x33), Some(0xC4), Some(0x48), Some(0x89), Some(0x44),
                    Some(0x24), None, Some(0x48), Some(0x8B), Some(0xF1), Some(0x48), Some(0x8D),
                    Some(0x0D), None, None, None, None, Some(0xFF), Some(0x15), None, None, None,
                    None, Some(0xE8), None, None, None, None, Some(0xF3), Some(0x0F), Some(0x10),
                    Some(0x0D),
                ];
                assert(listed@ =~= startup_windows_64());
                Some(listed)
            },
            PointerWidth::Bits32 => {
                let listed: Vec<Option<u8>> = vec![
                    Some(0x55u8), Some(0x8B), Some(0xEC), Some(0x83), Some(0xEC), Some(0x18),
                    Some(0x53), Some(0x68), None, None, None, None, Some(0x8B), Some(0xD9),
                    Some(0xFF), Some(0x15), None, None, None, None, Some(0x83), Some(0xC4),
                    Some(0x04), Some(0xE8), None, None, None, None, Some(0xD9), Some(0x05), None,
                    None, None, None, Some(0x68), None, None, None, None, Some(0x51), Some(0x8B),
                    Some(0x10), Some(0x8B), Some(0xC8), Some(0xD9), Some(0x1C), Some(0x24),
                ];
                assert(listed@ =~= startup_windows_32());
                Some(listed)
            },
        },
        Os::Linux => {
            let listed: Vec<Option<u8>> = vec![
                Some(0x55u8), Some(0x48), Some(0x89), Some(0xE5), Some(0x41), Some(0x57),
                Some(0x41), Some(0x56), Some(0x41), Some(0x55), Some(0x41), Some(0x54),
                Some(0x53), Some(0x48), Some(0x83), Some(0xEC), Some(0x28),
            ];
            assert(listed@ =~= startup_linux());
            Some(listed)
        },
        Os::MacOs => None,
    }
}

/// Picks what the standard hook looks for on `platform`: the signature of
/// the interpreter manager's startup function, to be found in the host's
/// core logic module. A platform without a signature is refused at once;
/// no other variant is tried in its place.
pub fn setup_standard_hook(platform: Platform) -> (chosen: Result<Signature, HookError>)
    ensures
        chosen is Ok <==> startup_pattern(platform) is Some,
        chosen matches Ok(signature) ==> {
            &&& Some(signature@) == startup_pattern(platform)
            &&& signature.module_of() == HostModule::Client
            &&& signature.platform_of() == platform
        },
        chosen matches Err(error) ==> error == HookError::UnsupportedPlatform,
{
    match startup_tokens(platform) {
        Some(tokens) => {
            assert(has_concrete(tokens@)) by {
                assert(tokens@[0] is Some);
            }
            match Signature::new(tokens, HostModule::Client, platform) {
                Ok(signature) => Ok(signature),
                Err(_) => Err(HookError::UnsupportedPlatform),
            }
        },
        None => Err(HookError::UnsupportedPlatform),
    }
}

/// One installed inline hook.
#[derive(Clone, Copy, Debug, PartialEq, Eq)]
pub struct Detour {
    /// The function whose entry is patched.
    pub target: Address,
    /// Where the patched entry jumps to.
    pub replacement: Address,
    /// The stub through which the unpatched function can still be called.
    pub trampoline: Address,
    /// Whether the patch is live.
    pub enabled: bool,
}

/// The detours of the process, by target.
pub struct DetourTable {
    detours: HashMap<Address, Detour>,
}

impl View for DetourTable {
    type V = Map<Address, Detour>;

    closed spec fn view(&self) -> Map<Address, Detour> {
        self.detours@
    }
}

/// Why `table` refuses a detour from `target` to `replacement` with
/// `trampoline`, if it does.
pub open spec fn install_refusal(
    table: Map<Address, Detour>,
    target: Address,
    replacement: Address,
    trampoline: Address,
) -> Option<HookError> {
    if target == 0 {
        Some(HookError::NullTarget)
    } else if replacement == 0 {
        Some(HookError::NullReplacement)
    } else if table.contains_key(target) {
        Some(HookError::AlreadyInstalled)
    } else if trampoline == 0 {
        Some(HookError::NoTrampoline)
    } else {
        None
    }
}

/// `table` with the detour at `target` live.
pub open spec fn with_enabled(table: Map<Address, Detour>, target: Address) -> Map<
    Address,
    Detour,
> {
    table.insert(target, Detour { enabled: true, ..table[target] })
}

/// Whether `after` still holds every detour of `before`, with the same
/// addresses, and live where it was live.
pub open spec fn keeps(after: Map<Address, Detour>, before: Map<Address, Detour>) -> bool {
    forall|target: Address| #[trigger]
        before.contains_key(target) ==> {
            &&& after.contains_key(target)
            &&& after[target].target == before[target].target
            &&& after[target].replacement == before[target].replacement
            &&& after[target].trampoline == before[target].trampoline
            &&& before[target].enabled ==> after[target].enabled
        }
}

impl DetourTable {
    #[verifier::type_invariant]
    spec fn keyed_by_target(&self) -> bool {
        forall|target: Address| #[trigger]
            self.detours@.contains_key(target) ==> {
                &&& self.detours@[target].target == target
                &&& target != 0
                &&& self.detours@[target].replacement != 0
                &&& self.detours@[target].trampoline != 0
            }
    }

    /// A table without detours.
    pub fn new() -> (table: DetourTable)
        ensures
            table@ == Map::<Address, Detour>::empty(),
    {
        DetourTable { detours: HashMap::new() }
    }

    fn put(&mut self, detour: Detour)
        requires
            detour.target != 0,
            detour.replacement != 0,
            detour.trampoline != 0,
        ensures
            final(self)@ == old(self)@.insert(detour.target, detour),
    {
        proof {
            use_type_invariant(&*self);
        }
        let mut detours: HashMap<Address, Detour> = HashMap::new();
        std::mem::swap(&mut self.detours, &mut detours);
        detours.insert(detour.target, detour);
        std::mem::swap(&mut self.detours, &mut detours);
    }

    /// Records the detour that the patch engine has prepared from `target`
    /// to `replacement`, with the `trampoline` it built. The detour is
    /// dormant until it is enabled. A target takes one detour only.
    pub fn install(
        &mut self,
        target: Address,
        replacement: Address,
        trampoline: Address,
    ) -> (done: Result<Detour, HookError>)
        ensures
            match install_refusal(old(self)@, target, replacement, trampoline) {
                Some(error) => done == Err::<Detour, HookError>(error) && final(self)@ == old(
                    self,
                )@,
                None => {
                    &&& done == Ok::<Detour, HookError>(
                        Detour { target, replacement, trampoline, enabled: false },
                    )
                    &&& final(self)@ == old(self)@.insert(
                        target,
                        Detour { target, replacement, trampoline, enabled: false },
                    )
                },
            },
    {
        proof {
            use_type_invariant(&*self);
        }
        if target == 0 {
            return Err(HookError::NullTarget);
        }
        if replacement == 0 {
            return Err(HookError::NullReplacement);
        }
        if self.detours.contains_key(&target) {
            return Err(HookError::AlreadyInstalled);
        }
        if trampoline == 0 {
            return Err(HookError::NoTrampoline);
        }
        let detour = Detour { target, replacement, trampoline, enabled: false };
        self.put(detour);
        Ok(detour)
    }

    /// The detour on `target`, if there is one.
    pub fn get(&self, target: Address) -> (detour: Option<Detour>)
        ensures
            detour == (if self@.contains_key(target) {
                Some(self@[target])
            } else {
                None
            }),
            detour matches Some(found) ==> found.target == target && found.trampoline != 0,
    {
        proof {
            use_type_invariant(self);
        }
        match self.detours.get(&target) {
            Some(detour) => Some(*detour),
            None => None,
        }
    }

    /// The address through which the unpatched function at `target` can
    /// still be called.
    pub fn trampoline(&self, target: Address) -> (trampoline: Result<Address, HookError>)
        ensures
            trampoline == (if self@.contains_key(target) {
                Ok::<Address, HookError>(self@[target].trampoline)
            } else {
                Err(HookError::NotInstalled)
            }),
    {
        match self.get(target) {
            Some(detour) => Ok(detour.trampoline),
            None => Err(HookError::NotInstalled),
        }
    }

    /// Records that the detour on `target` is live. Enabling a live detour
    /// changes nothing.
    pub fn enable(&mut self, target: Address) -> (done: Result<(), HookError>)
        ensures
            done == (if old(self)@.contains_key(target) {
                Ok::<(), HookError>(())
            } else {
                Err(HookError::NotInstalled)
            }),
            final(self)@ == (if old(self)@.contains_key(target) {
                with_enabled(old(self)@, target)
            } else {
                old(self)@
            }),
    {
        proof {
            use_type_invariant(&*self);
        }
        match self.get(target) {
            Some(detour) => {
                self.put(Detour { enabled: true, ..detour });
                Ok(())
            },
            None => Err(HookError::NotInstalled),
        }
    }
}

/// What is installed stays installed, and what is live stays live: neither
/// installing a detour on a free target nor enabling one removes a detour,
/// changes its addresses or makes a live one dormant.
pub proof fn lemma_detours_stay(table: Map<Address, Detour>, target: Address, installed: Detour)
    ensures
        !table.contains_key(target) ==> keeps(table.insert(target, installed), table),
        table.contains_key(target) ==> keeps(with_enabled(table, target), table),
        table.contains_key(target) ==> with_enabled(table, target)[target].enabled,
{
}

} // verus!
