//! The closed registry of native functions: which functions the virtual
//! machine implements natively, under which names bytecode finds them, and
//! how many arguments each takes.

use crate::text::str_eq;
use vstd::prelude::*;

verus! {

/// The length of an account address in bytes.
pub const ADDRESS_LENGTH: usize = 16;

/// The address of an account, under which modules are published.
#[derive(Clone, Copy, Debug, PartialEq, Eq)]
pub struct AccountAddress(pub [u8; ADDRESS_LENGTH]);

impl View for AccountAddress {
    type V = Seq<u8>;

    open spec fn view(&self) -> Seq<u8> {
        self.0@
    }
}

/// The bytes of the address under which the core modules are published.
pub open spec fn core_code_address_bytes() -> Seq<u8> {
    Seq::new(ADDRESS_LENGTH as nat, |i: int| 0u8)
}

/// The address under which the core modules, and with them every native
/// function, are published.
pub fn core_code_address() -> (address: AccountAddress)
    ensures
        address@ == core_code_address_bytes(),
{
    let address = AccountAddress([0u8; ADDRESS_LENGTH]);
    assert(address@ =~= core_code_address_bytes());
    address
}

impl AccountAddress {
    pub fn new(bytes: [u8; ADDRESS_LENGTH]) -> (address: AccountAddress)
        ensures
            address@ == bytes@,
    {
        AccountAddress(bytes)
    }

    /// Whether two addresses are the same.
    pub fn same_as(&self, other: &AccountAddress) -> (same: bool)
        ensures
            same == (self@ == other@),
    {
        let mut i: usize = 0;
        while i < ADDRESS_LENGTH
            invariant
                i <= ADDRESS_LENGTH,
                forall|j: int| 0 <= j < i ==> self@[j] == other@[j],
            decreases ADDRESS_LENGTH - i,
        {
            if self.0[i] != other.0[i] {
                return false;
            }
            i = i + 1;
        }
        assert(self@ =~= other@);
        true
    }
}

/// The identifier of a module: the address that published it, and its name.
#[derive(Clone, Debug, PartialEq, Eq)]
pub struct ModuleId {
    pub address: AccountAddress,
    pub name: String,
}

impl ModuleId {
    pub fn new(address: AccountAddress, name: String) -> (module: ModuleId)
        ensures
            module.address == address,
            module.name == name,
    {
        ModuleId { address, name }
    }

    pub fn address(&self) -> (address: &AccountAddress)
        ensures
            *address == self.address,
    {
        &self.address
    }

    pub fn name(&self) -> (name: &str)
        ensures
            name@ == self.name@,
    {
        self.name.as_str()
    }
}

/// A native function known by the virtual machine.
#[allow(non_camel_case_types)]
#[derive(Clone, Copy, Debug, PartialEq, Eq, Structural)]
pub enum NativeFunction {
    HashSha2_256,
    HashSha3_256,
    SigED25519Verify,
    SigED25519ThresholdVerify,
    AddrUtilToBytes,
    U64UtilToBytes,
    BytearrayConcat,
    VectorLength,
    VectorEmpty,
    VectorBorrow,
    VectorBorrowMut,
    VectorPushBack,
    VectorPopBack,
    VectorDestroyEmpty,
    VectorSwap,
    AccountWriteEvent,
    AccountSaveAccount,
}

/// How many native functions the registry holds.
pub const REGISTRY_SIZE: usize = 17;

impl NativeFunction {
    /// The place of the function in the registry.
    pub open spec fn position(self) -> int {
        match self {
            NativeFunction::HashSha2_256 => 0,
            NativeFunction::HashSha3_256 => 1,
            NativeFunction::SigED25519Verify => 2,
            NativeFunction::SigED25519ThresholdVerify => 3,
            NativeFunction::AddrUtilToBytes => 4,
            NativeFunction::U64UtilToBytes => 5,
            NativeFunction::BytearrayConcat => 6,
            NativeFunction::VectorLength => 7,
            NativeFunction::VectorEmpty => 8,
            NativeFunction::VectorBorrow => 9,
            NativeFunction::VectorBorrowMut => 10,
            NativeFunction::VectorPushBack => 11,
            NativeFunction::VectorPopBack => 12,
            NativeFunction::VectorDestroyEmpty => 13,
            NativeFunction::VectorSwap => 14,
            NativeFunction::AccountWriteEvent => 15,
            NativeFunction::AccountSaveAccount => 16,
        }
    }

    /// The function at a place of the registry, if the registry has such a
    /// place.
    pub fn at(place: usize) -> (entry: Option<NativeFunction>)
        ensures
            match entry {
                Some(entry) => entry.position() == place,
                None => place >= REGISTRY_SIZE,
            },
    {
        match place {
            0 => Some(NativeFunction::HashSha2_256),
            1 => Some(NativeFunction::HashSha3_256),
            2 => Some(NativeFunction::SigED25519Verify),
            3 => Some(NativeFunction::SigED25519ThresholdVerify),
            4 => Some(NativeFunction::AddrUtilToBytes),
            5 => Some(NativeFunction::U64UtilToBytes),
            6 => Some(NativeFunction::BytearrayConcat),
            7 => Some(NativeFunction::VectorLength),
            8 => Some(NativeFunction::VectorEmpty),
            9 => Some(NativeFunction::VectorBorrow),
            10 => Some(NativeFunction::VectorBorrowMut),
            11 => Some(NativeFunction::VectorPushBack),
            12 => Some(NativeFunction::VectorPopBack),
            13 => Some(NativeFunction::VectorDestroyEmpty),
            14 => Some(NativeFunction::VectorSwap),
            15 => Some(NativeFunction::AccountWriteEvent),
            16 => Some(NativeFunction::AccountSaveAccount),
            _ => None,
        }
    }

    /// The name of the module that declares the function.
    pub open spec fn spec_module_name(self) -> Seq<char> {
        match self {
            NativeFunction::HashSha2_256 => "Hash"@,
            NativeFunction::HashSha3_256 => "Hash"@,
            NativeFunction::SigED25519Verify => "Signature"@,
            NativeFunction::SigED25519ThresholdVerify => "Signature"@,
            NativeFunction::AddrUtilToBytes => "AddressUtil"@,
            NativeFunction::U64UtilToBytes => "U64Util"@,
            NativeFunction::BytearrayConcat => "BytearrayUtil"@,
            NativeFunction::VectorLength => "Vector"@,
            NativeFunction::VectorEmpty => "Vector"@,
            NativeFunction::VectorBorrow => "Vector"@,
            NativeFunction::VectorBorrowMut => "Vector"@,
            NativeFunction::VectorPushBack => "Vector"@,
            NativeFunction::VectorPopBack => "Vector"@,
            NativeFunction::VectorDestroyEmpty => "Vector"@,
            NativeFunction::VectorSwap => "Vector"@,
            NativeFunction::AccountWriteEvent => "LibraAccount"@,
            NativeFunction::AccountSaveAccount => "LibraAccount"@,
        }
    }

    /// The name under which the module declares the function.
    pub open spec fn spec_function_name(self) -> Seq<char> {
        match self {
            NativeFunction::HashSha2_256 => "sha2_256"@,
            NativeFunction::HashSha3_256 => "sha3_256"@,
            NativeFunction::SigED25519Verify => "ed25519_verify"@,
            NativeFunction::SigED25519ThresholdVerify => "ed25519_threshold_verify"@,
            NativeFunction::AddrUtilToBytes => "address_to_bytes"@,
            NativeFunction::U64UtilToBytes => "u64_to_bytes"@,
            NativeFunction::BytearrayConcat => "bytearray_concat"@,
            NativeFunction::VectorLength => "length"@,
            NativeFunction::VectorEmpty => "empty"@,
            NativeFunction::VectorBorrow => "borrow"@,
            NativeFunction::VectorBorrowMut => "borrow_mut"@,
            NativeFunction::VectorPushBack => "push_back"@,
            NativeFunction::VectorPopBack => "pop_back"@,
            NativeFunction::VectorDestroyEmpty => "destroy_empty"@,
            NativeFunction::VectorSwap => "swap"@,
            NativeFunction::AccountWriteEvent => "write_to_event_store"@,
            NativeFunction::AccountSaveAccount => "save_account"@,
        }
    }

    /// Whether the function is the one that the module of the given name,
    /// published under the given address, declares under the given name.
    pub open spec fn is_named(
        self,
        address: Seq<u8>,
        module_name: Seq<char>,
        function_name: Seq<char>,
    ) -> bool {
        &&& address == core_code_address_bytes()
        &&& module_name == self.spec_module_name()
        &&& function_name == self.spec_function_name()
    }

    pub fn module_name(self) -> (name: &'static str)
        ensures
            name@ == self.spec_module_name(),
    {
        match self {
            NativeFunction::HashSha2_256 => "Hash",
            NativeFunction::HashSha3_256 => "Hash",
            NativeFunction::SigED25519Verify => "Signature",
            NativeFunction::SigED25519ThresholdVerify => "Signature",
            NativeFunction::AddrUtilToBytes => "AddressUtil",
            NativeFunction::U64UtilToBytes => "U64Util",
            NativeFunction::BytearrayConcat => "BytearrayUtil",
            NativeFunction::VectorLength => "Vector",
            NativeFunction::VectorEmpty => "Vector",
            NativeFunction::VectorBorrow => "Vector",
            NativeFunction::VectorBorrowMut => "Vector",
            NativeFunction::VectorPushBack => "Vector",
            NativeFunction::VectorPopBack => "Vector",
            NativeFunction::VectorDestroyEmpty => "Vector",
            NativeFunction::VectorSwap => "Vector",
            NativeFunction::AccountWriteEvent => "LibraAccount",
            NativeFunction::AccountSaveAccount => "LibraAccount",
        }
    }

    pub fn function_name(self) -> (name: &'static str)
        ensures
            name@ == self.spec_function_name(),
    {
        match self {
            NativeFunction::HashSha2_256 => "sha2_256",
            NativeFunction::HashSha3_256 => "sha3_256",
            NativeFunction::SigED25519Verify => "ed25519_verify",
            NativeFunction::SigED25519ThresholdVerify => "ed25519_threshold_verify",
            NativeFunction::AddrUtilToBytes => "address_to_bytes",
            NativeFunction::U64UtilToBytes => "u64_to_bytes",
            NativeFunction::BytearrayConcat => "bytearray_concat",
            NativeFunction::VectorLength => "length",
            NativeFunction::VectorEmpty => "empty",
            NativeFunction::VectorBorrow => "borrow",
            NativeFunction::VectorBorrowMut => "borrow_mut",
            NativeFunction::VectorPushBack => "push_back",
            NativeFunction::VectorPopBack => "pop_back",
            NativeFunction::VectorDestroyEmpty => "destroy_empty",
            NativeFunction::VectorSwap => "swap",
            NativeFunction::AccountWriteEvent => "write_to_event_store",
            NativeFunction::AccountSaveAccount => "save_account",
        }
    }

    /// The number of arguments that the function takes.
    pub open spec fn spec_num_args(self) -> usize {
        match self {
            NativeFunction::HashSha2_256 => 1,
            NativeFunction::HashSha3_256 => 1,
            NativeFunction::SigED25519Verify => 3,
            NativeFunction::SigED25519ThresholdVerify => 4,
            NativeFunction::AddrUtilToBytes => 1,
            NativeFunction::U64UtilToBytes => 1,
            NativeFunction::BytearrayConcat => 2,
            NativeFunction::VectorLength => 1,
            NativeFunction::VectorEmpty => 0,
            NativeFunction::VectorBorrow => 2,
            NativeFunction::VectorBorrowMut => 2,
            NativeFunction::VectorPushBack => 2,
            NativeFunction::VectorPopBack => 1,
            NativeFunction::VectorDestroyEmpty => 1,
            NativeFunction::VectorSwap => 3,
            NativeFunction::AccountWriteEvent => 3,
            NativeFunction::AccountSaveAccount => 2,
        }
    }

    /// The number of arguments to the native function.
    ///
    /// When a module is published, its declaration of the function is held
    /// against the expected signature, which has this many arguments.
    #[verifier::when_used_as_spec(spec_num_args)]
    pub fn num_args(self) -> (arity: usize)
        ensures
            arity == self.spec_num_args(),
    {
        match self {
            Self::HashSha2_256 => 1,
            Self::HashSha3_256 => 1,
            Self::SigED25519Verify => 3,
            Self::SigED25519ThresholdVerify => 4,
            Self::AddrUtilToBytes => 1,
            Self::U64UtilToBytes => 1,
            Self::BytearrayConcat => 2,
            Self::VectorLength => 1,
            Self::VectorEmpty => 0,
            Self::VectorBorrow => 2,
            Self::VectorBorrowMut => 2,
            Self::VectorPushBack => 2,
            Self::VectorPopBack => 1,
            Self::VectorDestroyEmpty => 1,
            Self::VectorSwap => 3,
            Self::AccountWriteEvent => 3,
            Self::AccountSaveAccount => 2,
        }
    }

    /// The native function, if any, that the given names denote: the one
    /// entry of the registry that bears exactly these names.
    pub open spec fn spec_resolve(
        address: Seq<u8>,
        module_name: Seq<char>,
        function_name: Seq<char>,
    ) -> Option<NativeFunction> {
        if exists|entry: NativeFunction| entry.is_named(address, module_name, function_name) {
            Some(choose|entry: NativeFunction| entry.is_named(address, module_name, function_name))
        } else {
            None
        }
    }

    /// Looks up the native function that a module declares under a name.
    ///
    /// The match is exact and case-sensitive in the address, the module's
    /// name and the function's name; nothing is returned where no entry of
    /// the registry bears all three.
    pub fn resolve(module: &ModuleId, function_name: &str) -> (found: Option<NativeFunction>)
        ensures
            found == Self::spec_resolve(module.address@, module.name@, function_name@),
            match found {
                Some(entry) => entry.is_named(module.address@, module.name@, function_name@),
                None => forall|entry: NativeFunction|
                    !entry.is_named(module.address@, module.name@, function_name@),
            },
    {
        if !module.address().same_as(&core_code_address()) {
            return None;
        }
        let module_name = module.name();
        let mut place: usize = 0;
        while place < REGISTRY_SIZE
            invariant
                place <= REGISTRY_SIZE,
                module_name@ == module.name@,
                module.address@ == core_code_address_bytes(),
                forall|entry: NativeFunction|
                    entry.position() < place ==> !entry.is_named(
                        module.address@,
                        module.name@,
                        function_name@,
                    ),
            decreases REGISTRY_SIZE - place,
        {
            let entry = match Self::at(place) {
                Some(entry) => entry,
                None => return None,
            };
            if str_eq(module_name, entry.module_name()) && str_eq(
                function_name,
                entry.function_name(),
            ) {
                proof {
                    lemma_names_determine_entry(
                        entry,
                        module.address@,
                        module.name@,
                        function_name@,
                    );
                }
                return Some(entry);
            }
            place = place + 1;
        }
        None
    }
}

/// What tells the names of the registry apart: the length of a name, its
/// first character and its fourth.
spec fn fingerprint(name: Seq<char>) -> (nat, char, char) {
    (name.len(), name[0], name[3])
}

/// The fingerprint of the name of each function of the registry.
spec fn function_name_fingerprint(entry: NativeFunction) -> (nat, char, char) {
    match entry {
        NativeFunction::HashSha2_256 => (8, 's', '2'),
        NativeFunction::HashSha3_256 => (8, 's', '3'),
        NativeFunction::SigED25519Verify => (14, 'e', '5'),
        NativeFunction::SigED25519ThresholdVerify => (24, 'e', '5'),
        NativeFunction::AddrUtilToBytes => (16, 'a', 'r'),
        NativeFunction::U64UtilToBytes => (12, 'u', '_'),
        NativeFunction::BytearrayConcat => (16, 'b', 'e'),
        NativeFunction::VectorLength => (6, 'l', 'g'),
        NativeFunction::VectorEmpty => (5, 'e', 't'),
        NativeFunction::VectorBorrow => (6, 'b', 'r'),
        NativeFunction::VectorBorrowMut => (10, 'b', 'r'),
        NativeFunction::VectorPushBack => (9, 'p', 'h'),
        NativeFunction::VectorPopBack => (8, 'p', '_'),
        NativeFunction::VectorDestroyEmpty => (13, 'd', 't'),
        NativeFunction::VectorSwap => (4, 's', 'p'),
        NativeFunction::AccountWriteEvent => (20, 'w', 't'),
        NativeFunction::AccountSaveAccount => (12, 's', 'e'),
    }
}

/// The name of each function of the registry has the fingerprint that the
/// table above gives it.
proof fn lemma_function_name_fingerprint(entry: NativeFunction)
    ensures
        fingerprint(entry.spec_function_name()) == function_name_fingerprint(entry),
{
    reveal_strlit("sha2_256");
    reveal_strlit("sha3_256");
    reveal_strlit("ed25519_verify");
    reveal_strlit("ed25519_threshold_verify");
    reveal_strlit("address_to_bytes");
    reveal_strlit("u64_to_bytes");
    reveal_strlit("bytearray_concat");
    reveal_strlit("length");
    reveal_strlit("empty");
    reveal_strlit("borrow");
    reveal_strlit("borrow_mut");
    reveal_strlit("push_back");
    reveal_strlit("pop_back");
    reveal_strlit("destroy_empty");
    reveal_strlit("swap");
    reveal_strlit("write_to_event_store");
    reveal_strlit("save_account");
}

/// No two functions of the registry bear the same function name.
pub proof fn lemma_function_names_distinct(first: NativeFunction, second: NativeFunction)
    requires
        first.spec_function_name() == second.spec_function_name(),
    ensures
        first == second,
{
    lemma_function_name_fingerprint(first);
    lemma_function_name_fingerprint(second);
}

/// An entry that bears the given names is what they resolve to.
pub proof fn lemma_names_determine_entry(
    entry: NativeFunction,
    address: Seq<u8>,
    module_name: Seq<char>,
    function_name: Seq<char>,
)
    requires
        entry.is_named(address, module_name, function_name),
    ensures
        NativeFunction::spec_resolve(address, module_name, function_name) == Some(entry),
{
    let chosen = choose|other: NativeFunction|
        other.is_named(address, module_name, function_name);
    lemma_function_names_distinct(entry, chosen);
}

/// Under its own names every function of the registry is found.
pub proof fn lemma_resolve_own_names(entry: NativeFunction)
    ensures
        NativeFunction::spec_resolve(
            core_code_address_bytes(),
            entry.spec_module_name(),
            entry.spec_function_name(),
        ) == Some(entry),
{
    lemma_names_determine_entry(
        entry,
        core_code_address_bytes(),
        entry.spec_module_name(),
        entry.spec_function_name(),
    );
}

/// A function of the registry is found under its own names only: names that
/// differ from them in anything resolve to another function or to nothing.
pub proof fn lemma_resolve_is_exact(
    entry: NativeFunction,
    address: Seq<u8>,
    module_name: Seq<char>,
    function_name: Seq<char>,
)
    ensures
        NativeFunction::spec_resolve(address, module_name, function_name) == Some(entry)
            <==> entry.is_named(address, module_name, function_name),
{
    if entry.is_named(address, module_name, function_name) {
        lemma_names_determine_entry(entry, address, module_name, function_name);
    }
}

/// Under another address nothing is found, the module's name and the
/// function's name being those of a function of the registry.
pub proof fn lemma_resolve_other_address(entry: NativeFunction, address: Seq<u8>)
    requires
        address != core_code_address_bytes(),
    ensures
        NativeFunction::spec_resolve(
            address,
            entry.spec_module_name(),
            entry.spec_function_name(),
        ) is None,
{
}

/// In another module nothing is found, the address and the function's name
/// being those of a function of the registry.
pub proof fn lemma_resolve_other_module(entry: NativeFunction, module_name: Seq<char>)
    requires
        module_name != entry.spec_module_name(),
    ensures
        NativeFunction::spec_resolve(
            core_code_address_bytes(),
            module_name,
            entry.spec_function_name(),
        ) is None,
{
    assert forall|other: NativeFunction|
        !other.is_named(
            core_code_address_bytes(),
            module_name,
            entry.spec_function_name(),
        ) by {
        if other.spec_function_name() == entry.spec_function_name() {
            lemma_function_names_distinct(other, entry);
        }
    }
}

/// Under another function name nothing is found, the address and the
/// module's name being those of a function of the registry, unless the
/// module declares another native function under that name.
pub proof fn lemma_resolve_other_function(entry: NativeFunction, function_name: Seq<char>)
    requires
        function_name != entry.spec_function_name(),
        forall|other: NativeFunction|
            other.spec_module_name() == entry.spec_module_name() ==> #[trigger] other.spec_function_name()
                != function_name,
    ensures
        NativeFunction::spec_resolve(
            core_code_address_bytes(),
            entry.spec_module_name(),
            function_name,
        ) is None,
{
}

} // verus!
