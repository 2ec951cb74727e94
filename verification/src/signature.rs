//! The signature oracle: the interface that each native function is expected
//! to be declared with.

use crate::file_format::{
    token_views, FunctionSignature, Kind, SignatureToken, SignatureView, StructHandleIndex,
    TokenView,
};
use crate::module_view::{
    is_first_named, lemma_some_named_has_first, spec_struct_handle_idx, struct_handle_idx,
    ModuleView, MAX_STRUCT_HANDLES,
};
use crate::registry::NativeFunction;
use crate::status::{StatusCode, VMStatus, VMStatusView};
use vstd::prelude::*;

verus! {

/// The type of vectors of bytes.
pub open spec fn byte_vector() -> TokenView {
    TokenView::Vector(Box::new(TokenView::U8))
}

/// The generic type parameter of the vector functions.
pub open spec fn element() -> TokenView {
    TokenView::TypeParameter(0)
}

/// The type of vectors of the generic type parameter.
pub open spec fn vector_of_element() -> TokenView {
    TokenView::Vector(Box::new(element()))
}

/// The name of the struct of the declaring module that the signature of
/// the account-saving function refers to.
pub open spec fn account_struct_name() -> Seq<char> {
    "T"@
}

/// What an optional module view shows: the names of the struct handles.
pub open spec fn struct_handles_of(m: Option<&ModuleView>) -> Option<Seq<Seq<char>>> {
    match m {
        Some(view) => Some(view@),
        None => None,
    }
}

/// What an optional signature denotes.
pub open spec fn signature_view(found: Option<FunctionSignature>) -> Option<SignatureView> {
    match found {
        Some(signature) => Some(signature@),
        None => None,
    }
}

/// The failure that reports a signature whose number of arguments is not
/// the declared one.
pub open spec fn inconsistent_declaration() -> VMStatusView {
    VMStatusView {
        major_status: StatusCode::NativeFunctionInternalInconsistency,
        sub_status: None,
        message: Some(
            "Invalid native function declaration. Declared number of args does not match produced signature"@,
        ),
    }
}

impl NativeFunction {
    /// Whether the signature of the function refers to a struct of the
    /// module that declares it, and so cannot be told without a view of
    /// that module.
    pub open spec fn needs_module_view(self) -> bool {
        self == NativeFunction::AccountSaveAccount
    }

    /// Whether the function is one of the vector functions.
    pub open spec fn is_vector_function(self) -> bool {
        ||| self == NativeFunction::VectorLength
        ||| self == NativeFunction::VectorEmpty
        ||| self == NativeFunction::VectorBorrow
        ||| self == NativeFunction::VectorBorrowMut
        ||| self == NativeFunction::VectorPushBack
        ||| self == NativeFunction::VectorPopBack
        ||| self == NativeFunction::VectorDestroyEmpty
        ||| self == NativeFunction::VectorSwap
    }

    /// The constraints on the generic type parameters of the function.
    pub open spec fn expected_type_formals(self) -> Seq<Kind> {
        if self.is_vector_function() {
            seq![Kind::All]
        } else if self == NativeFunction::AccountWriteEvent {
            seq![Kind::Unrestricted]
        } else {
            seq![]
        }
    }

    /// The types of the arguments of the function, where `handle` is the
    /// struct of the declaring module that the signature may refer to.
    pub open spec fn expected_arg_types(self, handle: StructHandleIndex) -> Seq<TokenView> {
        match self {
            NativeFunction::HashSha2_256 => seq![byte_vector()],
            NativeFunction::HashSha3_256 => seq![byte_vector()],
            NativeFunction::SigED25519Verify => seq![byte_vector(), byte_vector(), byte_vector()],
            NativeFunction::SigED25519ThresholdVerify => seq![
                byte_vector(),
                byte_vector(),
                byte_vector(),
                byte_vector(),
            ],
            NativeFunction::AddrUtilToBytes => seq![TokenView::Address],
            NativeFunction::U64UtilToBytes => seq![TokenView::U64],
            NativeFunction::BytearrayConcat => seq![TokenView::ByteArray, TokenView::ByteArray],
            NativeFunction::VectorLength => seq![
                TokenView::Reference(Box::new(vector_of_element())),
            ],
            NativeFunction::VectorEmpty => seq![],
            NativeFunction::VectorBorrow => seq![
                TokenView::Reference(Box::new(vector_of_element())),
                TokenView::U64,
            ],
            NativeFunction::VectorBorrowMut => seq![
                TokenView::MutableReference(Box::new(vector_of_element())),
                TokenView::U64,
            ],
            NativeFunction::VectorPushBack => seq![
                TokenView::MutableReference(Box::new(vector_of_element())),
                element(),
            ],
            NativeFunction::VectorPopBack => seq![
                TokenView::MutableReference(Box::new(vector_of_element())),
            ],
            NativeFunction::VectorDestroyEmpty => seq![vector_of_element()],
            NativeFunction::VectorSwap => seq![
                TokenView::MutableReference(Box::new(vector_of_element())),
                TokenView::U64,
                TokenView::U64,
            ],
            NativeFunction::AccountWriteEvent => seq![byte_vector(), TokenView::U64, element()],
            NativeFunction::AccountSaveAccount => seq![
                TokenView::Address,
                TokenView::Struct(handle, seq![]),
            ],
        }
    }

    /// The types that the function returns.
    pub open spec fn expected_return_types(self) -> Seq<TokenView> {
        match self {
            NativeFunction::HashSha2_256 => seq![byte_vector()],
            NativeFunction::HashSha3_256 => seq![byte_vector()],
            NativeFunction::SigED25519Verify => seq![TokenView::Bool],
            NativeFunction::SigED25519ThresholdVerify => seq![TokenView::U64],
            NativeFunction::AddrUtilToBytes => seq![byte_vector()],
            NativeFunction::U64UtilToBytes => seq![byte_vector()],
            NativeFunction::BytearrayConcat => seq![TokenView::ByteArray],
            NativeFunction::VectorLength => seq![TokenView::U64],
            NativeFunction::VectorEmpty => seq![vector_of_element()],
            NativeFunction::VectorBorrow => seq![TokenView::Reference(Box::new(element()))],
            NativeFunction::VectorBorrowMut => seq![
                TokenView::MutableReference(Box::new(element())),
            ],
            NativeFunction::VectorPushBack => seq![],
            NativeFunction::VectorPopBack => seq![element()],
            NativeFunction::VectorDestroyEmpty => seq![],
            NativeFunction::VectorSwap => seq![],
            NativeFunction::AccountWriteEvent => seq![],
            NativeFunction::AccountSaveAccount => seq![],
        }
    }

    /// The signature of the function, where `handle` is the struct of the
    /// declaring module that it may refer to.
    pub open spec fn expected_signature_with(self, handle: StructHandleIndex) -> SignatureView {
        SignatureView {
            return_types: self.expected_return_types(),
            arg_types: self.expected_arg_types(handle),
            type_formals: self.expected_type_formals(),
        }
    }

    /// The signature that the function is expected to be declared with, as
    /// far as it can be told from the struct handles of the declaring
    /// module, if they are given.
    ///
    /// A function that needs no view of the module has its signature
    /// whatever is given. The one that needs it has a signature only where
    /// the handles are given and one of them bears the expected name; the
    /// signature then refers to the first that does.
    pub open spec fn expected_signature(
        self,
        struct_handles: Option<Seq<Seq<char>>>,
    ) -> Option<SignatureView> {
        if !self.needs_module_view() {
            Some(self.expected_signature_with(StructHandleIndex(0)))
        } else {
            match struct_handles {
                None => None,
                Some(names) => match spec_struct_handle_idx(names, account_struct_name()) {
                    None => None,
                    Some(handle) => Some(self.expected_signature_with(handle)),
                },
            }
        }
    }

    /// Holds a signature that was produced for the function against its
    /// declared number of arguments.
    ///
    /// Nothing is passed on as nothing. A signature with the declared number
    /// of arguments is passed on unchanged. Any other is refused as an
    /// inconsistency of the registry, which is no fault of the caller.
    pub fn check_num_args(self, produced: Option<FunctionSignature>) -> (checked: Result<
        Option<FunctionSignature>,
        VMStatus,
    >)
        ensures
            match produced {
                None => checked == Ok::<Option<FunctionSignature>, VMStatus>(None),
                Some(signature) => if signature.arg_types@.len() == self.spec_num_args() {
                    checked == Ok::<Option<FunctionSignature>, VMStatus>(Some(signature))
                } else {
                    checked matches Err(status) && status@ == inconsistent_declaration()
                },
            },
    {
        let res = match produced {
            None => return Ok(None),
            Some(res) => res,
        };
        if self.num_args() == res.arg_types.len() {
            Ok(Some(res))
        } else {
            Err(
                VMStatus::new(StatusCode::NativeFunctionInternalInconsistency).with_message(
                    "Invalid native function declaration. Declared number of args does not match produced signature".to_owned(),
                ),
            )
        }
    }

    /// The signature as defined in the declaring module of the function.
    ///
    /// The struct handle indexes in it are those of the declaring module.
    /// The result is nothing where the signature cannot be told from what
    /// `m` shows, and the signature otherwise; the registry being consistent,
    /// no inconsistency is ever reported.
    pub fn signature(self, m: Option<&ModuleView>) -> (result: Result<
        Option<FunctionSignature>,
        VMStatus,
    >)
        ensures
            result matches Ok(found) && signature_view(found) == self.expected_signature(
                struct_handles_of(m),
            ),
    {
        let produced = self.signature_(m);
        proof {
            lemma_signature_has_declared_arity(self, struct_handles_of(m));
        }
        self.check_num_args(produced)
    }

    /// Produces the expected signature of the function, if it can be told
    /// from what `m` shows.
    fn signature_(self, m: Option<&ModuleView>) -> (produced: Option<FunctionSignature>)
        ensures
            signature_view(produced) == self.expected_signature(struct_handles_of(m)),
    {
        let signature = match self {
            Self::HashSha2_256 => FunctionSignature::new(
                vec![],
                vec![SignatureToken::vector(SignatureToken::U8)],
                vec![SignatureToken::vector(SignatureToken::U8)],
            ),
            Self::HashSha3_256 => FunctionSignature::new(
                vec![],
                vec![SignatureToken::vector(SignatureToken::U8)],
                vec![SignatureToken::vector(SignatureToken::U8)],
            ),
            Self::SigED25519Verify => FunctionSignature::new(
                vec![],
                vec![
                    SignatureToken::vector(SignatureToken::U8),
                    SignatureToken::vector(SignatureToken::U8),
                    SignatureToken::vector(SignatureToken::U8),
                ],
                vec![SignatureToken::Bool],
            ),
            Self::SigED25519ThresholdVerify => FunctionSignature::new(
                vec![],
                vec![
                    SignatureToken::vector(SignatureToken::U8),
                    SignatureToken::vector(SignatureToken::U8),
                    SignatureToken::vector(SignatureToken::U8),
                    SignatureToken::vector(SignatureToken::U8),
                ],
                vec![SignatureToken::U64],
            ),
            Self::AddrUtilToBytes => FunctionSignature::new(
                vec![],
                vec![SignatureToken::Address],
                vec![SignatureToken::vector(SignatureToken::U8)],
            ),
            Self::U64UtilToBytes => FunctionSignature::new(
                vec![],
                vec![SignatureToken::U64],
                vec![SignatureToken::vector(SignatureToken::U8)],
            ),
            Self::BytearrayConcat => FunctionSignature::new(
                vec![],
                vec![SignatureToken::ByteArray, SignatureToken::ByteArray],
                vec![SignatureToken::ByteArray],
            ),
            Self::VectorLength => FunctionSignature::new(
                vec![Kind::All],
                vec![
                    SignatureToken::reference(
                        SignatureToken::vector(SignatureToken::TypeParameter(0)),
                    ),
                ],
                vec![SignatureToken::U64],
            ),
            Self::VectorEmpty => FunctionSignature::new(
                vec![Kind::All],
                vec![],
                vec![SignatureToken::vector(SignatureToken::TypeParameter(0))],
            ),
            Self::VectorBorrow => FunctionSignature::new(
                vec![Kind::All],
                vec![
                    SignatureToken::reference(
                        SignatureToken::vector(SignatureToken::TypeParameter(0)),
                    ),
                    SignatureToken::U64,
                ],
                vec![SignatureToken::reference(SignatureToken::TypeParameter(0))],
            ),
            Self::VectorBorrowMut => FunctionSignature::new(
                vec![Kind::All],
                vec![
                    SignatureToken::mutable_reference(
                        SignatureToken::vector(SignatureToken::TypeParameter(0)),
                    ),
                    SignatureToken::U64,
                ],
                vec![SignatureToken::mutable_reference(SignatureToken::TypeParameter(0))],
            ),
            Self::VectorPushBack => FunctionSignature::new(
                vec![Kind::All],
                vec![
                    SignatureToken::mutable_reference(
                        SignatureToken::vector(SignatureToken::TypeParameter(0)),
                    ),
                    SignatureToken::TypeParameter(0),
                ],
                vec![],
            ),
            Self::VectorPopBack => FunctionSignature::new(
                vec![Kind::All],
                vec![
                    SignatureToken::mutable_reference(
                        SignatureToken::vector(SignatureToken::TypeParameter(0)),
                    ),
                ],
                vec![SignatureToken::TypeParameter(0)],
            ),
            Self::VectorDestroyEmpty => FunctionSignature::new(
                vec![Kind::All],
                vec![SignatureToken::vector(SignatureToken::TypeParameter(0))],
                vec![],
            ),
            Self::VectorSwap => FunctionSignature::new(
                vec![Kind::All],
                vec![
                    SignatureToken::mutable_reference(
                        SignatureToken::vector(SignatureToken::TypeParameter(0)),
                    ),
                    SignatureToken::U64,
                    SignatureToken::U64,
                ],
                vec![],
            ),
            Self::AccountWriteEvent => FunctionSignature::new(
                vec![Kind::Unrestricted],
                vec![
                    SignatureToken::vector(SignatureToken::U8),
                    SignatureToken::U64,
                    SignatureToken::TypeParameter(0),
                ],
                vec![],
            ),
            Self::AccountSaveAccount => {
                let view = match m {
                    Some(view) => view,
                    None => return None,
                };
                let t_idx = match struct_handle_idx(view, "T") {
                    Some(t_idx) => t_idx,
                    None => return None,
                };
                let account = SignatureToken::structure(t_idx, vec![]);
                assert(account@ == TokenView::Struct(t_idx, seq![])) by {
                    assert(token_views(Seq::<SignatureToken>::empty()) =~= seq![]);
                }
                let arg_types = vec![SignatureToken::Address, account];
                assert(token_views(arg_types@) =~= self.expected_arg_types(t_idx));
                let signature = FunctionSignature::new(vec![], arg_types, vec![]);
                assert(signature@ =~~= self.expected_signature_with(t_idx));
                return Some(signature);
            },
        };
        assert(signature@ =~~= self.expected_signature_with(StructHandleIndex(0)));
        Some(signature)
    }
}

/// Whatever signature is expected of a function has as many arguments as
/// the function declares.
pub proof fn lemma_signature_has_declared_arity(
    entry: NativeFunction,
    struct_handles: Option<Seq<Seq<char>>>,
)
    ensures
        entry.expected_signature(struct_handles) matches Some(signature)
            ==> signature.arg_types.len() == entry.spec_num_args(),
{
}

/// A function whose signature needs no view of the declaring module has a
/// signature where none is given, with as many arguments as the function
/// declares.
pub proof fn lemma_self_describing_signature(entry: NativeFunction)
    requires
        !entry.needs_module_view(),
    ensures
        entry.expected_signature(None) matches Some(signature) && signature.arg_types.len()
            == entry.spec_num_args(),
{
}

/// A function whose signature needs no view of the declaring module has the
/// same signature whatever view is given.
pub proof fn lemma_self_describing_signature_ignores_view(
    entry: NativeFunction,
    struct_handles: Option<Seq<Seq<char>>>,
)
    requires
        !entry.needs_module_view(),
    ensures
        entry.expected_signature(struct_handles) == entry.expected_signature(None),
{
}

/// The signature of the account-saving function refers to the first struct
/// of the declaring module that bears the expected name, and there is no
/// signature where no struct bears it, or no view of the module is given.
pub proof fn lemma_module_dependent_signature(struct_handles: Seq<Seq<char>>)
    requires
        struct_handles.len() <= MAX_STRUCT_HANDLES,
    ensures
        match NativeFunction::AccountSaveAccount.expected_signature(Some(struct_handles)) {
            Some(signature) => exists|handle: StructHandleIndex|
                #![trigger is_first_named(struct_handles, account_struct_name(), handle.0 as int)]
                {
                    &&& is_first_named(struct_handles, account_struct_name(), handle.0 as int)
                    &&& signature.arg_types == seq![
                        TokenView::Address,
                        TokenView::Struct(handle, seq![]),
                    ]
                    &&& signature.return_types == Seq::<TokenView>::empty()
                    &&& signature.type_formals == Seq::<Kind>::empty()
                },
            None => forall|position: int|
                0 <= position < struct_handles.len() ==> struct_handles[position]
                    != account_struct_name(),
        },
        NativeFunction::AccountSaveAccount.expected_signature(None) is None,
{
    let name = account_struct_name();
    match spec_struct_handle_idx(struct_handles, name) {
        Some(handle) => {
            assert(is_first_named(struct_handles, name, handle.0 as int));
        },
        None => {
            lemma_some_named_has_first(struct_handles, name);
        },
    }
}

/// Every vector function is generic in exactly one type parameter, which
/// any type may take the place of.
pub proof fn lemma_vector_functions_are_generic(entry: NativeFunction)
    requires
        entry.is_vector_function(),
    ensures
        entry.expected_type_formals() == seq![Kind::All],
        entry.expected_signature(None) matches Some(signature) && signature.type_formals
            == seq![Kind::All],
{
}

/// A declaration with another number of generic type parameters than the
/// function has is not the expected signature.
pub proof fn lemma_declaration_needs_the_generics(
    entry: NativeFunction,
    struct_handles: Option<Seq<Seq<char>>>,
    declared: SignatureView,
)
    requires
        declared.type_formals.len() != entry.expected_type_formals().len(),
    ensures
        entry.expected_signature(struct_handles) != Some(declared),
{
}

} // verus!
