//! Wildcard byte signatures and the scan that finds them in a module image.

use crate::platform::{HostModule, Platform};
use vstd::prelude::*;

verus! {

/// An address in the host process.
pub type Address = usize;

/// Whether a signature token accepts a byte: a wildcard accepts every byte, a
/// concrete token only its own value.
pub open spec fn token_matches(token: Option<u8>, byte: u8) -> bool {
    match token {
        Some(expected) => expected == byte,
        None => true,
    }
}

/// Whether the whole signature lies in `bytes` starting at `offset`.
pub open spec fn matches_at(tokens: Seq<Option<u8>>, bytes: Seq<u8>, offset: int) -> bool {
    &&& 0 <= offset
    &&& offset + tokens.len() <= bytes.len()
    &&& forall|j: int|
        0 <= j < tokens.len() ==> token_matches(#[trigger] tokens[j], bytes[offset + j])
}

/// Whether `offset` is the lowest offset at which the signature lies in `bytes`.
pub open spec fn is_first_match(tokens: Seq<Option<u8>>, bytes: Seq<u8>, offset: int) -> bool {
    &&& matches_at(tokens, bytes, offset)
    &&& forall|k: int| 0 <= k < offset ==> !matches_at(tokens, bytes, k)
}

/// Whether the signature lies anywhere in `bytes`.
pub open spec fn occurs_in(tokens: Seq<Option<u8>>, bytes: Seq<u8>) -> bool {
    exists|k: int| matches_at(tokens, bytes, k)
}

/// A scan has one answer: there is one lowest offset at most, so the
/// signature and the bytes decide what is found. Where the signature lies at
/// an offset and at none below it, that offset is the one.
pub proof fn lemma_first_match_is_unique(
    tokens: Seq<Option<u8>>,
    bytes: Seq<u8>,
    first: int,
    other: int,
)
    requires
        is_first_match(tokens, bytes, first),
        is_first_match(tokens, bytes, other),
    ensures
        first == other,
{
}

/// A match anywhere means a lowest match at or below it; among several
/// matches the lowest is the first.
pub proof fn lemma_match_has_a_first(tokens: Seq<Option<u8>>, bytes: Seq<u8>, offset: int)
    requires
        matches_at(tokens, bytes, offset),
    ensures
        occurs_in(tokens, bytes),
        exists|first: int| 0 <= first <= offset && is_first_match(tokens, bytes, first),
    decreases offset,
{
    if exists|lower: int| 0 <= lower < offset && matches_at(tokens, bytes, lower) {
        let lower = choose|lower: int| 0 <= lower < offset && matches_at(tokens, bytes, lower);
        lemma_match_has_a_first(tokens, bytes, lower);
        let first = choose|first: int| 0 <= first <= lower && is_first_match(tokens, bytes, first);
        assert(0 <= first <= offset && is_first_match(tokens, bytes, first));
    } else {
        assert(is_first_match(tokens, bytes, offset));
    }
}

/// Compares the signature with the window of `bytes` that starts at `offset`.
fn window_matches(tokens: &[Option<u8>], bytes: &[u8], offset: usize) -> (matched: bool)
    requires
        offset + tokens@.len() <= bytes@.len(),
    ensures
        matched == matches_at(tokens@, bytes@, offset as int),
{
    let size: usize = bytes.len();
    let mut j: usize = 0;
    while j < tokens.len()
        invariant
            j <= tokens@.len(),
            offset + tokens@.len() <= bytes@.len() == size,
            forall|t: int| 0 <= t < j ==> token_matches(#[trigger] tokens@[t], bytes@[offset + t]),
        decreases tokens@.len() - j,
    {
        match tokens[j] {
            Some(expected) => {
                if bytes[offset + j] != expected {
                    assert(!token_matches(tokens@[j as int], bytes@[offset + j]));
                    return false;
                }
            },
            None => {},
        }
        j = j + 1;
    }
    true
}

/// Finds the lowest offset at which `tokens` lies in `bytes`.
pub fn find_first(tokens: &[Option<u8>], bytes: &[u8]) -> (found: Option<usize>)
    ensures
        match found {
            Some(offset) => is_first_match(tokens@, bytes@, offset as int),
            None => !occurs_in(tokens@, bytes@),
        },
{
    if tokens.len() > bytes.len() {
        return None;
    }
    if tokens.len() == 0 {
        return Some(0);
    }
    let size: usize = bytes.len();
    let last: usize = size - tokens.len();
    let mut offset: usize = 0;
    while offset <= last
        invariant
            last == bytes@.len() - tokens@.len(),
            0 < tokens@.len(),
            bytes@.len() == size,
            offset <= last + 1,
            forall|k: int| 0 <= k < offset ==> !matches_at(tokens@, bytes@, k),
        decreases last + 1 - offset,
    {
        if window_matches(tokens, bytes, offset) {
            return Some(offset);
        }
        offset = offset + 1;
    }
    None
}

/// Whether at least one token is a concrete byte.
pub open spec fn has_concrete(tokens: Seq<Option<u8>>) -> bool {
    exists|i: int| 0 <= i < tokens.len() && (#[trigger] tokens[i]) is Some
}

/// Why a token sequence is no signature.
#[derive(Clone, Copy, Debug, PartialEq, Eq, Structural)]
pub enum SignatureError {
    /// There are no tokens at all.
    Empty,
    /// Every token is a wildcard, so the signature would match anywhere.
    OnlyWildcards,
}

/// A byte pattern with wildcards that locates a function inside one module
/// of the host, for one platform.
pub struct Signature {
    tokens: Vec<Option<u8>>,
    module: HostModule,
    platform: Platform,
}

impl View for Signature {
    type V = Seq<Option<u8>>;

    closed spec fn view(&self) -> Seq<Option<u8>> {
        self.tokens@
    }
}

impl Signature {
    #[verifier::type_invariant]
    spec fn well_formed(&self) -> bool {
        self.tokens@.len() > 0 && has_concrete(self.tokens@)
    }

    /// The module this signature is to be looked for in.
    pub closed spec fn module_of(&self) -> HostModule {
        self.module
    }

    /// The platform whose host build this signature was taken from.
    pub closed spec fn platform_of(&self) -> Platform {
        self.platform
    }

    /// Makes a signature of `tokens`, refusing a sequence that has no
    /// concrete byte to anchor it.
    pub fn new(
        tokens: Vec<Option<u8>>,
        module: HostModule,
        platform: Platform,
    ) -> (made: Result<Signature, SignatureError>)
        ensures
            match made {
                Ok(signature) => {
                    &&& signature@ == tokens@
                    &&& signature.module_of() == module
                    &&& signature.platform_of() == platform
                    &&& tokens@.len() > 0
                    &&& has_concrete(tokens@)
                },
                Err(SignatureError::Empty) => tokens@.len() == 0,
                Err(SignatureError::OnlyWildcards) => tokens@.len() > 0 && !has_concrete(tokens@),
            },
    {
        if tokens.len() == 0 {
            return Err(SignatureError::Empty);
        }
        let mut i: usize = 0;
        while i < tokens.len()
            invariant
                i <= tokens@.len(),
                forall|k: int| 0 <= k < i ==> (#[trigger] tokens@[k]) is None,
            decreases tokens@.len() - i,
        {
            if tokens[i].is_some() {
                return Ok(Signature { tokens, module, platform });
            }
            i = i + 1;
        }
        Err(SignatureError::OnlyWildcards)
    }

    /// The tokens, in order.
    pub fn tokens(&self) -> (tokens: &[Option<u8>])
        ensures
            tokens@ == self@,
            tokens@.len() > 0,
            has_concrete(tokens@),
    {
        proof {
            use_type_invariant(self);
        }
        self.tokens.as_slice()
    }

    /// The module this signature is to be looked for in.
    pub fn module(&self) -> (module: HostModule)
        ensures
            module == self.module_of(),
    {
        self.module
    }

    /// The platform whose host build this signature was taken from.
    pub fn platform(&self) -> (platform: Platform)
        ensures
            platform == self.platform_of(),
    {
        self.platform
    }
}

/// The mapped bytes of one loaded module, read-only, together with the
/// address at which the first of them lies.
pub struct ModuleImage<'a> {
    base: Address,
    bytes: &'a [u8],
}

impl<'a> View for ModuleImage<'a> {
    type V = Seq<u8>;

    closed spec fn view(&self) -> Seq<u8> {
        self.bytes@
    }
}

impl<'a> ModuleImage<'a> {
    #[verifier::type_invariant]
    spec fn addressable(&self) -> bool {
        self.base + self.bytes@.len() <= usize::MAX
    }

    /// The address of the image's first byte.
    pub closed spec fn base_of(&self) -> Address {
        self.base
    }

    /// Describes the `bytes` mapped at `base`. There is no image where the
    /// end of the bytes would lie beyond the address space.
    pub fn new(base: Address, bytes: &'a [u8]) -> (image: Option<ModuleImage<'a>>)
        ensures
            image is Some <==> base + bytes@.len() <= usize::MAX,
            image matches Some(made) ==> made@ == bytes@ && made.base_of() == base,
    {
        if bytes.len() <= usize::MAX - base {
            Some(ModuleImage { base, bytes })
        } else {
            None
        }
    }

    /// The address of the image's first byte.
    pub fn base(&self) -> (base: Address)
        ensures
            base == self.base_of(),
            base + self@.len() <= usize::MAX,
    {
        proof {
            use_type_invariant(self);
        }
        self.base
    }

    /// The number of mapped bytes.
    pub fn size(&self) -> (size: usize)
        ensures
            size == self@.len(),
    {
        self.bytes.len()
    }
}

/// The signature does not occur in the module.
#[derive(Clone, Copy, Debug, PartialEq, Eq, Structural)]
pub struct NotFound;

/// Looks for `signature` in `module` and gives the address of the lowest
/// offset at which it lies. A module that does not hold the pattern is an
/// ordinary outcome, reported as `NotFound`.
pub fn scan(module: &ModuleImage, signature: &Signature) -> (found: Result<Address, NotFound>)
    ensures
        found is Ok <==> occurs_in(signature@, module@),
        found matches Ok(address) ==> {
            &&& module.base_of() <= address < module.base_of() + module@.len()
            &&& is_first_match(signature@, module@, address - module.base_of())
        },
{
    let base: Address = module.base();
    match find_first(signature.tokens(), module.bytes) {
        Some(offset) => Ok(base + offset),
        None => Err(NotFound),
    }
}

} // verus!
