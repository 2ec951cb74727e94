use native_functions::registry::{
    core_code_address, AccountAddress, ModuleId, NativeFunction, REGISTRY_SIZE,
};
use native_functions::text::str_eq;

fn core_module(name: &str) -> ModuleId {
    ModuleId::new(core_code_address(), name.to_string())
}

#[test]
fn resolve_finds_every_entry_under_its_own_names() {
    for place in 0..REGISTRY_SIZE {
        let entry = NativeFunction::at(place).unwrap();
        let module = core_module(entry.module_name());
        assert_eq!(NativeFunction::resolve(&module, entry.function_name()), Some(entry));
    }
}

#[test]
fn resolve_knows_the_names_of_the_registry() {
    let expected = [
        ("Hash", "sha2_256", NativeFunction::HashSha2_256),
        ("Hash", "sha3_256", NativeFunction::HashSha3_256),
        ("Signature", "ed25519_verify", NativeFunction::SigED25519Verify),
        ("Signature", "ed25519_threshold_verify", NativeFunction::SigED25519ThresholdVerify),
        ("AddressUtil", "address_to_bytes", NativeFunction::AddrUtilToBytes),
        ("U64Util", "u64_to_bytes", NativeFunction::U64UtilToBytes),
        ("BytearrayUtil", "bytearray_concat", NativeFunction::BytearrayConcat),
        ("Vector", "length", NativeFunction::VectorLength),
        ("Vector", "empty", NativeFunction::VectorEmpty),
        ("Vector", "borrow", NativeFunction::VectorBorrow),
        ("Vector", "borrow_mut", NativeFunction::VectorBorrowMut),
        ("Vector", "push_back", NativeFunction::VectorPushBack),
        ("Vector", "pop_back", NativeFunction::VectorPopBack),
        ("Vector", "destroy_empty", NativeFunction::VectorDestroyEmpty),
        ("Vector", "swap", NativeFunction::VectorSwap),
        ("LibraAccount", "write_to_event_store", NativeFunction::AccountWriteEvent),
        ("LibraAccount", "save_account", NativeFunction::AccountSaveAccount),
    ];
    assert_eq!(expected.len(), REGISTRY_SIZE);
    for (module_name, function_name, entry) in expected {
        assert_eq!(NativeFunction::resolve(&core_module(module_name), function_name), Some(entry));
        assert_eq!(entry.module_name(), module_name);
        assert_eq!(entry.function_name(), function_name);
    }
}

#[test]
fn resolve_sha2_256_of_the_core_hash_module() {
    let found = NativeFunction::resolve(&core_module("Hash"), "sha2_256");
    assert_eq!(found, Some(NativeFunction::HashSha2_256));
}

#[test]
fn resolve_finds_nothing_under_another_address() {
    let mut bytes = [0u8; 16];
    bytes[15] = 1;
    for place in 0..REGISTRY_SIZE {
        let entry = NativeFunction::at(place).unwrap();
        let module = ModuleId::new(AccountAddress::new(bytes), entry.module_name().to_string());
        assert_eq!(NativeFunction::resolve(&module, entry.function_name()), None);
    }
}

#[test]
fn resolve_finds_nothing_in_another_module() {
    for place in 0..REGISTRY_SIZE {
        let entry = NativeFunction::at(place).unwrap();
        assert_eq!(NativeFunction::resolve(&core_module("Other"), entry.function_name()), None);
    }
    assert_eq!(NativeFunction::resolve(&core_module("Vector"), "sha2_256"), None);
    assert_eq!(NativeFunction::resolve(&core_module("Hash"), "length"), None);
}

#[test]
fn resolve_finds_nothing_under_an_unknown_function_name() {
    assert_eq!(NativeFunction::resolve(&core_module("Hash"), "sha2_257"), None);
    assert_eq!(NativeFunction::resolve(&core_module("Hash"), "sha2_25"), None);
    assert_eq!(NativeFunction::resolve(&core_module("Hash"), ""), None);
    assert_eq!(NativeFunction::resolve(&core_module(""), "sha2_256"), None);
    assert_eq!(NativeFunction::resolve(&core_module("Vector"), "borrow_"), None);
}

#[test]
fn resolve_is_case_sensitive() {
    assert_eq!(NativeFunction::resolve(&core_module("hash"), "sha2_256"), None);
    assert_eq!(NativeFunction::resolve(&core_module("Hash"), "SHA2_256"), None);
    assert_eq!(NativeFunction::resolve(&core_module("VECTOR"), "borrow"), None);
}

#[test]
fn resolve_under_a_changed_function_name_never_finds_the_same_entry() {
    let found = NativeFunction::resolve(&core_module("Hash"), "sha3_256");
    assert_eq!(found, Some(NativeFunction::HashSha3_256));
    assert_ne!(found, Some(NativeFunction::HashSha2_256));
}

#[test]
fn registry_places_are_those_of_the_entries() {
    assert_eq!(NativeFunction::at(0), Some(NativeFunction::HashSha2_256));
    assert_eq!(NativeFunction::at(9), Some(NativeFunction::VectorBorrow));
    assert_eq!(NativeFunction::at(16), Some(NativeFunction::AccountSaveAccount));
    assert_eq!(NativeFunction::at(REGISTRY_SIZE), None);
    assert_eq!(NativeFunction::at(usize::MAX), None);
}

#[test]
fn num_args_of_every_entry() {
    assert_eq!(NativeFunction::HashSha2_256.num_args(), 1);
    assert_eq!(NativeFunction::HashSha3_256.num_args(), 1);
    assert_eq!(NativeFunction::SigED25519Verify.num_args(), 3);
    assert_eq!(NativeFunction::SigED25519ThresholdVerify.num_args(), 4);
    assert_eq!(NativeFunction::AddrUtilToBytes.num_args(), 1);
    assert_eq!(NativeFunction::U64UtilToBytes.num_args(), 1);
    assert_eq!(NativeFunction::BytearrayConcat.num_args(), 2);
    assert_eq!(NativeFunction::VectorLength.num_args(), 1);
    assert_eq!(NativeFunction::VectorEmpty.num_args(), 0);
    assert_eq!(NativeFunction::VectorBorrow.num_args(), 2);
    assert_eq!(NativeFunction::VectorBorrowMut.num_args(), 2);
    assert_eq!(NativeFunction::VectorPushBack.num_args(), 2);
    assert_eq!(NativeFunction::VectorPopBack.num_args(), 1);
    assert_eq!(NativeFunction::VectorDestroyEmpty.num_args(), 1);
    assert_eq!(NativeFunction::VectorSwap.num_args(), 3);
    assert_eq!(NativeFunction::AccountWriteEvent.num_args(), 3);
    assert_eq!(NativeFunction::AccountSaveAccount.num_args(), 2);
}

#[test]
fn core_code_address_is_all_zero() {
    assert_eq!(core_code_address(), AccountAddress::new([0u8; 16]));
    assert!(core_code_address().same_as(&AccountAddress::new([0u8; 16])));
}

#[test]
fn addresses_differ_where_one_byte_differs() {
    for position in 0..16 {
        let mut bytes = [0u8; 16];
        bytes[position] = 0x80;
        assert!(!core_code_address().same_as(&AccountAddress::new(bytes)));
        assert!(AccountAddress::new(bytes).same_as(&AccountAddress::new(bytes)));
    }
}

#[test]
fn module_id_hands_back_its_parts() {
    let module = core_module("Vector");
    assert_eq!(*module.address(), core_code_address());
    assert_eq!(module.name(), "Vector");
}

#[test]
fn str_eq_is_exact() {
    assert!(str_eq("", ""));
    assert!(str_eq("borrow", "borrow"));
    assert!(!str_eq("borrow", "borrow_mut"));
    assert!(!str_eq("borrow_mut", "borrow"));
    assert!(!str_eq("Borrow", "borrow"));
    assert!(!str_eq("sha2_256", "sha3_256"));
    assert!(str_eq("z\u{e9}ro \u{1f980}", "z\u{e9}ro \u{1f980}"));
    assert!(!str_eq("z\u{e9}ro", "zero"));
    assert!(!str_eq("\u{e9}", "\u{e8}"));
}
