//! The type-token vocabulary in which function signatures are written.

use vstd::prelude::*;

verus! {

/// The constraint that a generic type parameter puts on its argument.
#[derive(Clone, Copy, Debug, PartialEq, Eq, Structural)]
pub enum Kind {
    /// Any type.
    All,
    /// Resource types only.
    Resource,
    /// Types that are no resources.
    Unrestricted,
}

/// The position of a struct handle in the handle table of its module.
#[derive(Clone, Copy, Debug, PartialEq, Eq, Structural)]
pub struct StructHandleIndex(pub u16);

impl StructHandleIndex {
    pub fn new(idx: u16) -> (index: StructHandleIndex)
        ensures
            index == StructHandleIndex(idx),
    {
        StructHandleIndex(idx)
    }
}

/// A type, as signatures name it.
#[derive(Debug, Eq)]
pub enum SignatureToken {
    Bool,
    U8,
    U64,
    U128,
    ByteArray,
    Address,
    /// A struct of the declaring module, with its type arguments.
    Struct(StructHandleIndex, Vec<SignatureToken>),
    Vector(Box<SignatureToken>),
    Reference(Box<SignatureToken>),
    MutableReference(Box<SignatureToken>),
    /// The generic type parameter at the given position.
    TypeParameter(u16),
}

/// What a `SignatureToken` denotes.
#[verifier::ext_equal]
pub enum TokenView {
    Bool,
    U8,
    U64,
    U128,
    ByteArray,
    Address,
    Struct(StructHandleIndex, Seq<TokenView>),
    Vector(Box<TokenView>),
    Reference(Box<TokenView>),
    MutableReference(Box<TokenView>),
    TypeParameter(u16),
}

/// What a token denotes.
pub open spec fn token_view(token: SignatureToken) -> TokenView
    decreases token, 0nat,
{
    match token {
        SignatureToken::Bool => TokenView::Bool,
        SignatureToken::U8 => TokenView::U8,
        SignatureToken::U64 => TokenView::U64,
        SignatureToken::U128 => TokenView::U128,
        SignatureToken::ByteArray => TokenView::ByteArray,
        SignatureToken::Address => TokenView::Address,
        SignatureToken::Struct(handle, actuals) => TokenView::Struct(
            handle,
            token_views_up_to(actuals, actuals@.len()),
        ),
        SignatureToken::Vector(element) => TokenView::Vector(Box::new(token_view(*element))),
        SignatureToken::Reference(referent) => TokenView::Reference(
            Box::new(token_view(*referent)),
        ),
        SignatureToken::MutableReference(referent) => TokenView::MutableReference(
            Box::new(token_view(*referent)),
        ),
        SignatureToken::TypeParameter(position) => TokenView::TypeParameter(position),
    }
}

/// What the first `count` tokens of a vector denote, in order.
pub open spec fn token_views_up_to(tokens: Vec<SignatureToken>, count: nat) -> Seq<TokenView>
    decreases tokens, count,
{
    if count == 0 || count > tokens@.len() {
        Seq::empty()
    } else {
        token_views_up_to(tokens, (count - 1) as nat).push(token_view(tokens@[count - 1]))
    }
}

/// The views of a sequence of tokens, in order.
pub open spec fn token_views(tokens: Seq<SignatureToken>) -> Seq<TokenView> {
    Seq::new(tokens.len(), |i: int| tokens[i]@)
}

/// The first `count` tokens of a vector denote the views of its first
/// `count` elements, one for one.
pub proof fn lemma_token_views_up_to(tokens: Vec<SignatureToken>, count: nat)
    requires
        count <= tokens@.len(),
    ensures
        token_views_up_to(tokens, count).len() == count,
        forall|i: int|
            0 <= i < count ==> token_views_up_to(tokens, count)[i] == token_view(
                #[trigger] tokens@[i],
            ),
    decreases count,
{
    if count > 0 {
        lemma_token_views_up_to(tokens, (count - 1) as nat);
    }
}

/// The type arguments of a struct token denote the views of the tokens of
/// the vector that holds them.
pub proof fn lemma_token_views_of_vec(tokens: Vec<SignatureToken>)
    ensures
        token_views_up_to(tokens, tokens@.len()) == token_views(tokens@),
{
    lemma_token_views_up_to(tokens, tokens@.len());
    assert(token_views_up_to(tokens, tokens@.len()) =~= token_views(tokens@));
}

impl View for SignatureToken {
    type V = TokenView;

    open spec fn view(&self) -> TokenView {
        token_view(*self)
    }
}

impl SignatureToken {
    /// The type of vectors of `element`.
    pub fn vector(element: SignatureToken) -> (token: SignatureToken)
        ensures
            token@ == TokenView::Vector(Box::new(element@)),
    {
        SignatureToken::Vector(Box::new(element))
    }

    /// The type of immutable references to `referent`.
    pub fn reference(referent: SignatureToken) -> (token: SignatureToken)
        ensures
            token@ == TokenView::Reference(Box::new(referent@)),
    {
        SignatureToken::Reference(Box::new(referent))
    }

    /// The type of mutable references to `referent`.
    pub fn mutable_reference(referent: SignatureToken) -> (token: SignatureToken)
        ensures
            token@ == TokenView::MutableReference(Box::new(referent@)),
    {
        SignatureToken::MutableReference(Box::new(referent))
    }

    /// The struct behind a handle of the declaring module, applied to type
    /// arguments.
    pub fn structure(handle: StructHandleIndex, actuals: Vec<SignatureToken>) -> (token:
        SignatureToken)
        ensures
            token@ == TokenView::Struct(handle, token_views(actuals@)),
    {
        let token = SignatureToken::Struct(handle, actuals);
        proof {
            lemma_token_views_of_vec(actuals);
        }
        token
    }
}

/// The interface of a function: the constraints on its generic type
/// parameters, the types of its arguments and the types it returns.
#[derive(Debug, Eq)]
pub struct FunctionSignature {
    pub return_types: Vec<SignatureToken>,
    pub arg_types: Vec<SignatureToken>,
    pub type_formals: Vec<Kind>,
}

/// What a `FunctionSignature` denotes.
#[verifier::ext_equal]
pub struct SignatureView {
    pub return_types: Seq<TokenView>,
    pub arg_types: Seq<TokenView>,
    pub type_formals: Seq<Kind>,
}

impl View for FunctionSignature {
    type V = SignatureView;

    open spec fn view(&self) -> SignatureView {
        SignatureView {
            return_types: token_views(self.return_types@),
            arg_types: token_views(self.arg_types@),
            type_formals: self.type_formals@,
        }
    }
}

impl FunctionSignature {
    pub fn new(
        type_formals: Vec<Kind>,
        arg_types: Vec<SignatureToken>,
        return_types: Vec<SignatureToken>,
    ) -> (signature: FunctionSignature)
        ensures
            signature@ == (SignatureView {
                return_types: token_views(return_types@),
                arg_types: token_views(arg_types@),
                type_formals: type_formals@,
            }),
    {
        FunctionSignature { return_types, arg_types, type_formals }
    }
}

/// Whether two tokens denote the same type.
fn same_token(one: &SignatureToken, other: &SignatureToken) -> (same: bool)
    ensures
        same == (one@ == other@),
    decreases one,
{
    match (one, other) {
        (SignatureToken::Bool, SignatureToken::Bool) => true,
        (SignatureToken::U8, SignatureToken::U8) => true,
        (SignatureToken::U64, SignatureToken::U64) => true,
        (SignatureToken::U128, SignatureToken::U128) => true,
        (SignatureToken::ByteArray, SignatureToken::ByteArray) => true,
        (SignatureToken::Address, SignatureToken::Address) => true,
        (SignatureToken::TypeParameter(here), SignatureToken::TypeParameter(there)) => *here
            == *there,
        (SignatureToken::Vector(here), SignatureToken::Vector(there)) => same_token(here, there),
        (SignatureToken::Reference(here), SignatureToken::Reference(there)) => same_token(
            here,
            there,
        ),
        (
            SignatureToken::MutableReference(here),
            SignatureToken::MutableReference(there),
        ) => same_token(here, there),
        (SignatureToken::Struct(handle, actuals), SignatureToken::Struct(handle2, actuals2)) => {
            proof {
                lemma_token_views_of_vec(*actuals);
                lemma_token_views_of_vec(*actuals2);
            }
            if handle.0 != handle2.0 {
                return false;
            }
            let count = actuals.len();
            if count != actuals2.len() {
                assert(token_views(actuals@).len() != token_views(actuals2@).len());
                return false;
            }
            let mut i: usize = 0;
            while i < count
                invariant
                    count == actuals@.len(),
                    count == actuals2@.len(),
                    i <= count,
                    *one == SignatureToken::Struct(*handle, *actuals),
                    *other == SignatureToken::Struct(*handle2, *actuals2),
                    one@ == TokenView::Struct(*handle, token_views(actuals@)),
                    other@ == TokenView::Struct(*handle2, token_views(actuals2@)),
                    forall|j: int| 0 <= j < i ==> actuals@[j]@ == actuals2@[j]@,
                decreases count - i,
            {
                proof {
                    assert(decreases_to!(*one => *actuals));
                    assert(decreases_to!(*actuals => actuals@));
                    assert(decreases_to!(actuals@ => actuals@[i as int]));
                }
                if !same_token(&actuals[i], &actuals2[i]) {
                    assert(token_views(actuals@)[i as int] != token_views(actuals2@)[i as int]);
                    return false;
                }
                i = i + 1;
            }
            assert(token_views(actuals@) =~= token_views(actuals2@));
            true
        },
        _ => false,
    }
}

impl PartialEq for SignatureToken {
    fn eq(&self, other: &SignatureToken) -> (same: bool) {
        same_token(self, other)
    }
}

/// Two tokens are equal where they denote the same type.
impl vstd::std_specs::cmp::PartialEqSpecImpl for SignatureToken {
    open spec fn obeys_eq_spec() -> bool {
        true
    }

    open spec fn eq_spec(&self, other: &SignatureToken) -> bool {
        self@ == other@
    }
}

/// Whether two vectors of tokens denote the same types, one for one.
fn same_tokens(one: &Vec<SignatureToken>, other: &Vec<SignatureToken>) -> (same: bool)
    ensures
        same == (token_views(one@) == token_views(other@)),
{
    let count = one.len();
    if count != other.len() {
        assert(token_views(one@).len() != token_views(other@).len());
        return false;
    }
    let mut i: usize = 0;
    while i < count
        invariant
            count == one@.len(),
            count == other@.len(),
            i <= count,
            forall|j: int| 0 <= j < i ==> one@[j]@ == other@[j]@,
        decreases count - i,
    {
        if !same_token(&one[i], &other[i]) {
            assert(token_views(one@)[i as int] != token_views(other@)[i as int]);
            return false;
        }
        i = i + 1;
    }
    assert(token_views(one@) =~= token_views(other@));
    true
}

/// Whether two vectors of kinds hold the same kinds, one for one.
fn same_kinds(one: &Vec<Kind>, other: &Vec<Kind>) -> (same: bool)
    ensures
        same == (one@ == other@),
{
    let count = one.len();
    if count != other.len() {
        return false;
    }
    let mut i: usize = 0;
    while i < count
        invariant
            count == one@.len(),
            count == other@.len(),
            i <= count,
            forall|j: int| 0 <= j < i ==> one@[j] == other@[j],
        decreases count - i,
    {
        if one[i] != other[i] {
            return false;
        }
        i = i + 1;
    }
    assert(one@ =~= other@);
    true
}

impl PartialEq for FunctionSignature {
    fn eq(&self, other: &FunctionSignature) -> (same: bool) {
        same_kinds(&self.type_formals, &other.type_formals) && same_tokens(
            &self.arg_types,
            &other.arg_types,
        ) && same_tokens(&self.return_types, &other.return_types)
    }
}

/// Two signatures are equal where they denote the same interface.
impl vstd::std_specs::cmp::PartialEqSpecImpl for FunctionSignature {
    open spec fn obeys_eq_spec() -> bool {
        true
    }

    open spec fn eq_spec(&self, other: &FunctionSignature) -> bool {
        self@ == other@
    }
}

/// A token that denotes the same type.
fn copy_token(token: &SignatureToken) -> (copy: SignatureToken)
    ensures
        copy@ == token@,
    decreases token,
{
    match token {
        SignatureToken::Bool => SignatureToken::Bool,
        SignatureToken::U8 => SignatureToken::U8,
        SignatureToken::U64 => SignatureToken::U64,
        SignatureToken::U128 => SignatureToken::U128,
        SignatureToken::ByteArray => SignatureToken::ByteArray,
        SignatureToken::Address => SignatureToken::Address,
        SignatureToken::TypeParameter(position) => SignatureToken::TypeParameter(*position),
        SignatureToken::Vector(element) => SignatureToken::vector(copy_token(element)),
        SignatureToken::Reference(referent) => SignatureToken::reference(copy_token(referent)),
        SignatureToken::MutableReference(referent) => SignatureToken::mutable_reference(
            copy_token(referent),
        ),
        SignatureToken::Struct(handle, actuals) => {
            let mut copies: Vec<SignatureToken> = Vec::new();
            let mut i: usize = 0;
            while i < actuals.len()
                invariant
                    i <= actuals@.len(),
                    copies@.len() == i,
                    *token == SignatureToken::Struct(*handle, *actuals),
                    forall|j: int| 0 <= j < i ==> copies@[j]@ == actuals@[j]@,
                decreases actuals@.len() - i,
            {
                proof {
                    assert(token->Struct_1 == *actuals);
                    assert(decreases_to!(*token => token->Struct_1));
                    assert(decreases_to!(*actuals => actuals@));
                    assert(decreases_to!(actuals@ => actuals@[i as int]));
                }
                copies.push(copy_token(&actuals[i]));
                i = i + 1;
            }
            proof {
                lemma_token_views_of_vec(*actuals);
                assert(token_views(copies@) =~= token_views(actuals@));
            }
            SignatureToken::structure(*handle, copies)
        },
    }
}

impl Clone for SignatureToken {
    fn clone(&self) -> (copy: SignatureToken)
        ensures
            copy@ == self@,
    {
        copy_token(self)
    }
}

/// Tokens that denote the same types, one for one.
fn copy_tokens(tokens: &Vec<SignatureToken>) -> (copies: Vec<SignatureToken>)
    ensures
        token_views(copies@) == token_views(tokens@),
{
    let mut copies: Vec<SignatureToken> = Vec::new();
    let mut i: usize = 0;
    while i < tokens.len()
        invariant
            i <= tokens@.len(),
            copies@.len() == i,
            forall|j: int| 0 <= j < i ==> copies@[j]@ == tokens@[j]@,
        decreases tokens@.len() - i,
    {
        copies.push(copy_token(&tokens[i]));
        i = i + 1;
    }
    assert(token_views(copies@) =~= token_views(tokens@));
    copies
}

impl Clone for FunctionSignature {
    fn clone(&self) -> (copy: FunctionSignature)
        ensures
            copy@ == self@,
    {
        FunctionSignature {
            return_types: copy_tokens(&self.return_types),
            arg_types: copy_tokens(&self.arg_types),
            type_formals: self.type_formals.clone(),
        }
    }
}

} // verus!
