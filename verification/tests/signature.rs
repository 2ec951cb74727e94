use native_functions::file_format::{FunctionSignature, Kind, SignatureToken, StructHandleIndex};
use native_functions::module_view::{struct_handle_idx, ModuleView, MAX_STRUCT_HANDLES};
use native_functions::registry::{core_code_address, ModuleId, NativeFunction, REGISTRY_SIZE};
use native_functions::status::{StatusCode, VMStatus};

fn view_of(names: &[&str]) -> ModuleView {
    ModuleView::new(names.iter().map(|name| name.to_string()).collect()).unwrap()
}

fn bytes() -> SignatureToken {
    SignatureToken::Vector(Box::new(SignatureToken::U8))
}

fn element() -> SignatureToken {
    SignatureToken::TypeParameter(0)
}

fn vector_of_element() -> SignatureToken {
    SignatureToken::Vector(Box::new(element()))
}

fn reference(referent: SignatureToken) -> SignatureToken {
    SignatureToken::Reference(Box::new(referent))
}

fn mutable_reference(referent: SignatureToken) -> SignatureToken {
    SignatureToken::MutableReference(Box::new(referent))
}

fn expect(
    entry: NativeFunction,
    type_formals: Vec<Kind>,
    arg_types: Vec<SignatureToken>,
    return_types: Vec<SignatureToken>,
) {
    let expected = FunctionSignature { return_types, arg_types, type_formals };
    assert_eq!(entry.signature(None), Ok(Some(expected)));
}

#[test]
fn self_describing_signatures_have_the_declared_number_of_arguments() {
    for place in 0..REGISTRY_SIZE {
        let entry = NativeFunction::at(place).unwrap();
        if entry == NativeFunction::AccountSaveAccount {
            continue;
        }
        let signature = entry.signature(None).unwrap().unwrap();
        assert_eq!(signature.arg_types.len(), entry.num_args());
    }
}

#[test]
fn self_describing_signatures_ignore_the_module_view() {
    let view = view_of(&["T", "Other"]);
    for place in 0..REGISTRY_SIZE {
        let entry = NativeFunction::at(place).unwrap();
        if entry == NativeFunction::AccountSaveAccount {
            continue;
        }
        assert_eq!(entry.signature(Some(&view)), entry.signature(None));
    }
}

#[test]
fn signatures_of_the_hash_functions() {
    expect(NativeFunction::HashSha2_256, vec![], vec![bytes()], vec![bytes()]);
    expect(NativeFunction::HashSha3_256, vec![], vec![bytes()], vec![bytes()]);
}

#[test]
fn signatures_of_the_signature_functions() {
    expect(
        NativeFunction::SigED25519Verify,
        vec![],
        vec![bytes(), bytes(), bytes()],
        vec![SignatureToken::Bool],
    );
    expect(
        NativeFunction::SigED25519ThresholdVerify,
        vec![],
        vec![bytes(), bytes(), bytes(), bytes()],
        vec![SignatureToken::U64],
    );
}

#[test]
fn signatures_of_the_byte_conversions() {
    expect(NativeFunction::AddrUtilToBytes, vec![], vec![SignatureToken::Address], vec![bytes()]);
    expect(NativeFunction::U64UtilToBytes, vec![], vec![SignatureToken::U64], vec![bytes()]);
    expect(
        NativeFunction::BytearrayConcat,
        vec![],
        vec![SignatureToken::ByteArray, SignatureToken::ByteArray],
        vec![SignatureToken::ByteArray],
    );
}

#[test]
fn signatures_of_the_vector_functions() {
    expect(
        NativeFunction::VectorLength,
        vec![Kind::All],
        vec![reference(vector_of_element())],
        vec![SignatureToken::U64],
    );
    expect(NativeFunction::VectorEmpty, vec![Kind::All], vec![], vec![vector_of_element()]);
    expect(
        NativeFunction::VectorBorrow,
        vec![Kind::All],
        vec![reference(vector_of_element()), SignatureToken::U64],
        vec![reference(element())],
    );
    expect(
        NativeFunction::VectorBorrowMut,
        vec![Kind::All],
        vec![mutable_reference(vector_of_element()), SignatureToken::U64],
        vec![mutable_reference(element())],
    );
    expect(
        NativeFunction::VectorPushBack,
        vec![Kind::All],
        vec![mutable_reference(vector_of_element()), element()],
        vec![],
    );
    expect(
        NativeFunction::VectorPopBack,
        vec![Kind::All],
        vec![mutable_reference(vector_of_element())],
        vec![element()],
    );
    expect(NativeFunction::VectorDestroyEmpty, vec![Kind::All], vec![vector_of_element()], vec![]);
    expect(
        NativeFunction::VectorSwap,
        vec![Kind::All],
        vec![mutable_reference(vector_of_element()), SignatureToken::U64, SignatureToken::U64],
        vec![],
    );
}

#[test]
fn signature_of_the_event_writer() {
    expect(
        NativeFunction::AccountWriteEvent,
        vec![Kind::Unrestricted],
        vec![bytes(), SignatureToken::U64, element()],
        vec![],
    );
}

#[test]
fn save_account_has_no_signature_without_a_module_view() {
    assert_eq!(NativeFunction::AccountSaveAccount.signature(None), Ok(None));
}

#[test]
fn save_account_has_no_signature_where_the_module_lacks_the_struct() {
    let entry = NativeFunction::AccountSaveAccount;
    assert_eq!(entry.signature(Some(&view_of(&[]))), Ok(None));
    assert_eq!(entry.signature(Some(&view_of(&["Event", "t", "TT", " T"]))), Ok(None));
}

#[test]
fn save_account_refers_to_the_struct_of_the_module() {
    let entry = NativeFunction::AccountSaveAccount;
    let signature = entry.signature(Some(&view_of(&["Event", "T", "Balance"]))).unwrap().unwrap();
    assert_eq!(
        signature,
        FunctionSignature {
            return_types: vec![],
            arg_types: vec![
                SignatureToken::Address,
                SignatureToken::Struct(StructHandleIndex::new(1), vec![]),
            ],
            type_formals: vec![],
        }
    );
    assert_eq!(signature.arg_types.len(), entry.num_args());
}

#[test]
fn save_account_refers_to_the_first_struct_of_that_name() {
    let entry = NativeFunction::AccountSaveAccount;
    let signature = entry.signature(Some(&view_of(&["A", "B", "T", "C", "T"]))).unwrap().unwrap();
    assert_eq!(signature.arg_types[1], SignatureToken::Struct(StructHandleIndex(2), vec![]));
    let signature = entry.signature(Some(&view_of(&["T"]))).unwrap().unwrap();
    assert_eq!(signature.arg_types[1], SignatureToken::Struct(StructHandleIndex(0), vec![]));
}

#[test]
fn vector_borrow_is_declared_with_one_generic_parameter() {
    let module = ModuleId::new(core_code_address(), "Vector".to_string());
    let entry = NativeFunction::resolve(&module, "borrow").unwrap();
    assert_eq!(entry, NativeFunction::VectorBorrow);
    let expected = entry.signature(None).unwrap().unwrap();
    // One type argument, `U64`, fills the one generic parameter.
    assert_eq!(expected.type_formals, vec![Kind::All]);

    let declared = |type_formals: Vec<Kind>| FunctionSignature {
        return_types: vec![reference(element())],
        arg_types: vec![reference(vector_of_element()), SignatureToken::U64],
        type_formals,
    };
    assert_eq!(expected, declared(vec![Kind::All]));
    assert_ne!(expected, declared(vec![Kind::All, Kind::All]));
    assert_ne!(expected, declared(vec![]));
    assert_ne!(expected, declared(vec![Kind::Resource]));
}

#[test]
fn check_num_args_passes_nothing_on() {
    assert_eq!(NativeFunction::VectorSwap.check_num_args(None), Ok(None));
}

#[test]
fn check_num_args_passes_a_signature_of_the_declared_arity_on() {
    let produced = FunctionSignature::new(vec![], vec![bytes(), bytes()], vec![]);
    let same = FunctionSignature::new(vec![], vec![bytes(), bytes()], vec![]);
    assert_eq!(NativeFunction::BytearrayConcat.check_num_args(Some(produced)), Ok(Some(same)));
    let none = FunctionSignature::new(vec![Kind::All], vec![], vec![]);
    assert!(NativeFunction::VectorEmpty.check_num_args(Some(none)).is_ok());
}

#[test]
fn check_num_args_refuses_another_arity() {
    let expected = VMStatus {
        major_status: StatusCode::NativeFunctionInternalInconsistency,
        sub_status: None,
        message: Some(
            "Invalid native function declaration. Declared number of args does not match produced signature"
                .to_string(),
        ),
    };
    let short = FunctionSignature::new(vec![], vec![bytes()], vec![]);
    assert_eq!(NativeFunction::BytearrayConcat.check_num_args(Some(short)), Err(expected.clone()));
    let long = FunctionSignature::new(vec![], vec![bytes(), bytes(), bytes()], vec![]);
    assert_eq!(NativeFunction::BytearrayConcat.check_num_args(Some(long)), Err(expected.clone()));
    let some = FunctionSignature::new(vec![Kind::All], vec![element()], vec![]);
    assert_eq!(NativeFunction::VectorEmpty.check_num_args(Some(some)), Err(expected));
}

#[test]
fn token_constructors_build_the_tokens() {
    assert_eq!(SignatureToken::vector(SignatureToken::U8), bytes());
    assert_eq!(SignatureToken::reference(element()), reference(element()));
    assert_eq!(SignatureToken::mutable_reference(element()), mutable_reference(element()));
    assert_eq!(
        SignatureToken::structure(StructHandleIndex(7), vec![SignatureToken::U128]),
        SignatureToken::Struct(StructHandleIndex(7), vec![SignatureToken::U128])
    );
}

#[test]
fn struct_handle_idx_finds_the_first_handle_of_the_name() {
    let view = view_of(&["A", "T", "B", "T"]);
    assert_eq!(struct_handle_idx(&view, "A"), Some(StructHandleIndex(0)));
    assert_eq!(struct_handle_idx(&view, "T"), Some(StructHandleIndex(1)));
    assert_eq!(struct_handle_idx(&view, "B"), Some(StructHandleIndex(2)));
    assert_eq!(struct_handle_idx(&view, "C"), None);
    assert_eq!(struct_handle_idx(&view, "t"), None);
    assert_eq!(struct_handle_idx(&view, ""), None);
    assert_eq!(struct_handle_idx(&view_of(&[]), "T"), None);
}

#[test]
fn struct_handle_idx_reaches_the_last_handle_a_module_can_hold() {
    let mut names = vec!["S".to_string(); MAX_STRUCT_HANDLES];
    names[MAX_STRUCT_HANDLES - 1] = "T".to_string();
    let view = ModuleView::new(names).unwrap();
    assert_eq!(view.struct_handle_count(), MAX_STRUCT_HANDLES);
    assert_eq!(view.struct_handle_name(0), Some("S"));
    assert_eq!(view.struct_handle_name(MAX_STRUCT_HANDLES - 1), Some("T"));
    assert_eq!(view.struct_handle_name(MAX_STRUCT_HANDLES), None);
    assert_eq!(struct_handle_idx(&view, "T"), Some(StructHandleIndex(u16::MAX)));
}

#[test]
fn module_view_refuses_more_handles_than_a_module_can_hold() {
    assert!(ModuleView::new(vec![String::new(); MAX_STRUCT_HANDLES + 1]).is_none());
    assert!(ModuleView::new(vec![String::new(); MAX_STRUCT_HANDLES]).is_some());
    assert!(ModuleView::new(Vec::new()).is_some());
}

#[test]
fn tokens_are_equal_where_they_denote_the_same_type() {
    let nested = |index: u16, inner: SignatureToken| {
        SignatureToken::Struct(StructHandleIndex(index), vec![SignatureToken::U8, inner])
    };
    assert_eq!(nested(1, bytes()), nested(1, bytes()));
    assert_ne!(nested(1, bytes()), nested(2, bytes()));
    assert_ne!(nested(1, bytes()), nested(1, vector_of_element()));
    assert_ne!(nested(1, bytes()), SignatureToken::Struct(StructHandleIndex(1), vec![]));
    assert_ne!(reference(element()), mutable_reference(element()));
    assert_ne!(reference(element()), element());
    assert_ne!(SignatureToken::TypeParameter(0), SignatureToken::TypeParameter(1));
    assert_ne!(SignatureToken::U8, SignatureToken::U64);
    assert_ne!(SignatureToken::U64, SignatureToken::U128);
    assert_ne!(SignatureToken::ByteArray, bytes());
    assert_ne!(SignatureToken::Address, SignatureToken::Bool);
    assert_eq!(reference(nested(3, nested(4, bytes()))), reference(nested(3, nested(4, bytes()))));
    assert_ne!(reference(nested(3, nested(4, bytes()))), reference(nested(3, nested(5, bytes()))));
}

#[test]
fn signatures_are_equal_where_every_part_is() {
    let signature = || FunctionSignature::new(vec![Kind::All], vec![bytes(), element()], vec![element()]);
    assert_eq!(signature(), signature());
    assert_ne!(signature(), FunctionSignature::new(vec![Kind::Resource], vec![bytes(), element()], vec![element()]));
    assert_ne!(signature(), FunctionSignature::new(vec![Kind::All], vec![element(), bytes()], vec![element()]));
    assert_ne!(signature(), FunctionSignature::new(vec![Kind::All], vec![bytes()], vec![element()]));
    assert_ne!(signature(), FunctionSignature::new(vec![Kind::All], vec![bytes(), element()], vec![]));
    assert_ne!(signature(), FunctionSignature::new(vec![Kind::All], vec![bytes(), element()], vec![bytes()]));
}

#[test]
fn a_clone_of_a_signature_is_equal_to_it() {
    let view = view_of(&["Event", "T"]);
    for place in 0..REGISTRY_SIZE {
        let entry = NativeFunction::at(place).unwrap();
        let signature = entry.signature(Some(&view)).unwrap().unwrap();
        assert_eq!(signature.clone(), signature);
    }
    let nested = SignatureToken::Struct(
        StructHandleIndex(9),
        vec![bytes(), SignatureToken::Struct(StructHandleIndex(8), vec![reference(element())])],
    );
    assert_eq!(nested.clone(), nested);
}
