//! Top-level items of one source file and their substructures.
//!
//! Every declaration form is a closed tagged union, so later passes can
//! match exhaustively without a default arm. Each closed keyword enum
//! exposes `to_str`, the canonical keyword spelling; the mapping is
//! injective (see the `lemma_*_to_str_injective` proofs).

use vstd::prelude::*;
use crate::leaf::{Block, CallArgs, DocComment, Expr, Ident, Path, SemverReq, Span, StrLit, Token, Ty};

verus! {

/// A list of variable declarations.
pub type ParameterList = Vec<VariableDeclaration>;

/// A top-level item in a source file.
#[derive(Debug)]
pub struct Item {
    pub docs: Vec<DocComment>,
    pub span: Span,
    /// The item's kind.
    pub kind: ItemKind,
}

/// An AST item: one source-unit declaration form.
#[derive(Debug)]
pub enum ItemKind {
    /// A pragma directive: `pragma solidity ^0.8.0;`
    Pragma(PragmaDirective),
    /// An import directive: `import "foo.sol";`
    Import(ImportDirective),
    /// A `using` directive: `using { A, B.add as + } for uint256 global;`
    Using(UsingDirective),
    /// A contract, abstract contract, interface, or library definition:
    /// `contract Foo is Bar, Baz { ... }`
    Contract(ItemContract),
    /// A function, constructor, fallback, receive, or modifier definition:
    /// `function helloWorld() external pure returns(string memory);`
    Function(ItemFunction),
    /// A state variable or constant definition: `uint256 constant FOO = 42;`
    Variable(VariableDefinition),
    /// A struct definition: `struct Foo { uint256 bar; }`
    Struct(ItemStruct),
    /// An enum definition: `enum Foo { A, B, C }`
    Enum(ItemEnum),
    /// A user-defined value type definition: `type Foo is uint256;`
    Udvt(ItemUdvt),
    /// An error definition: `error Foo(uint256 a, uint256 b);`
    Error(ItemError),
    /// An event definition:
    /// `event Transfer(address indexed from, address indexed to, uint256 value);`
    Event(ItemEvent),
}

/// A pragma directive: `pragma solidity ^0.8.0;`.
#[derive(Clone, Debug)]
pub struct PragmaDirective {
    /// The parsed or unparsed tokens of the pragma directive.
    pub tokens: PragmaTokens,
}

/// The parsed or unparsed tokens of a pragma directive.
///
/// Exactly one of the three shapes is ever populated for one directive;
/// `from_tokens` selects among them.
#[derive(Clone, Debug)]
pub enum PragmaTokens {
    /// A semantic-versioning requirement: `pragma solidity <req>;`.
    Version(Ident, SemverReq),
    /// `pragma <name> [value];`.
    Custom(IdentOrStrLit, Option<IdentOrStrLit>),
    /// Unparsed tokens: `pragma <tokens>...;`.
    Verbatim(Vec<Token>),
}

/// Whether a token may stand in pragma name or value position: an
/// identifier or a string literal.
pub open spec fn token_is_name(t: Token) -> bool {
    t is Ident || t is StrLit
}

/// The pragma name or value a token stands for, if it may stand for one.
pub open spec fn token_to_name_spec(t: Token) -> Option<IdentOrStrLit> {
    match t {
        Token::Ident(i) => Some(IdentOrStrLit::Ident(i)),
        Token::StrLit(s) => Some(IdentOrStrLit::StrLit(s)),
        Token::Other(_, _) => None,
    }
}

/// Whether a pragma token run begins with the identifier `solidity`, which
/// selects the version shape.
pub open spec fn starts_with_solidity(tokens: Seq<Token>) -> bool {
    tokens.len() > 0 && (tokens[0] matches Token::Ident(i) && i.name@ == "solidity"@)
}

/// Whether a pragma token run has the custom shape: exactly one or two
/// tokens, each an identifier or a string literal.
pub open spec fn is_custom_shape(tokens: Seq<Token>) -> bool {
    (tokens.len() == 1 || tokens.len() == 2) && (forall|k: int|
        0 <= k < tokens.len() ==> token_is_name(#[trigger] tokens[k]))
}

impl PragmaTokens {
    /// Interprets a pragma directive's token run (everything between
    /// `pragma` and `;`) under the three mutually exclusive shapes, in this
    /// precedence:
    ///
    /// 1. the run begins with the identifier `solidity`: the remainder is
    ///    the version requirement, giving `Version`;
    /// 2. the run is exactly one or two identifier-or-string tokens, giving
    ///    `Custom(name, optional value)`;
    /// 3. anything else is kept whole and in order as `Verbatim`, so that a
    ///    syntactically valid but unrecognized pragma round-trips for
    ///    diagnostics.
    pub fn from_tokens(tokens: Vec<Token>) -> (r: PragmaTokens)
        ensures
            starts_with_solidity(tokens@) ==> (r matches PragmaTokens::Version(name, req)
                && Token::Ident(name) == tokens@[0] && req.tokens@ == tokens@.skip(1)),
            !starts_with_solidity(tokens@) && is_custom_shape(tokens@) ==> (r
                matches PragmaTokens::Custom(name, value) && Some(name) == token_to_name_spec(
                tokens@[0],
            ) && (if tokens@.len() == 2 {
                value matches Some(v) && Some(v) == token_to_name_spec(tokens@[1])
            } else {
                value is None
            })),
            !starts_with_solidity(tokens@) && !is_custom_shape(tokens@) ==> (r
                matches PragmaTokens::Verbatim(ts) && ts@ == tokens@),
    {
        let ghost orig: Seq<Token> = tokens@;
        let mut toks = tokens;
        let n = toks.len();
        let version = n > 0 && (match &toks[0] {
            Token::Ident(i) => crate::strutil::str_eq(i.name.as_str(), "solidity"),
            _ => false,
        });
        if version {
            let first = toks.remove(0);
            proof {
                assert(toks@ =~= orig.skip(1));
            }
            match first {
                Token::Ident(name) => PragmaTokens::Version(name, SemverReq { tokens: toks }),
                _ => unreached(),
            }
        } else {
            let name0 = n >= 1 && (match &toks[0] {
                Token::Other(_, _) => false,
                _ => true,
            });
            let name1 = n == 2 && (match &toks[1] {
                Token::Other(_, _) => false,
                _ => true,
            });
            if n == 1 && name0 {
                let t0 = toks.remove(0);
                PragmaTokens::Custom(token_into_name(t0), None)
            } else if n == 2 && name0 && name1 {
                let t1 = toks.remove(1);
                let t0 = toks.remove(0);
                PragmaTokens::Custom(token_into_name(t0), Some(token_into_name(t1)))
            } else {
                proof {
                    if is_custom_shape(orig) {
                        assert(token_is_name(orig[0]));
                        if orig.len() == 2 {
                            assert(token_is_name(orig[1]));
                        }
                        assert(false);
                    }
                }
                PragmaTokens::Verbatim(toks)
            }
        }
    }

    /// Returns the name and value of the pragma directive, if any.
    ///
    /// `Some` exactly for the `Custom` shape; `Version` and `Verbatim`
    /// return `None`. Callers who need the version pragma's content match
    /// `Version` explicitly. (That `Version` yields `None` here mirrors the
    /// observed behaviour of the grammar's reference front-end; it is kept
    /// as is rather than second-guessed.)
    pub fn as_name_and_value(&self) -> (r: Option<(&IdentOrStrLit, Option<&IdentOrStrLit>)>)
        ensures
            match self {
                PragmaTokens::Custom(name, value) => r matches Some(p) && p.0 == name && (
                match value {
                    Some(v) => p.1 matches Some(pv) && pv == v,
                    None => p.1 is None,
                }),
                _ => r is None,
            },
    {
        match self {
            PragmaTokens::Custom(name, value) => Some((name, value.as_ref())),
            _ => None,
        }
    }
}

/// An identifier or a string literal.
///
/// The pragma grammar accepts both in name and value position and treats
/// them as identical; this sum type keeps which one was written.
#[derive(Clone, Debug)]
pub enum IdentOrStrLit {
    /// An identifier.
    Ident(Ident),
    /// A string literal.
    StrLit(StrLit),
}

impl IdentOrStrLit {
    /// The text content, independent of which variant is present.
    pub open spec fn value_spec(&self) -> Seq<char> {
        match self {
            IdentOrStrLit::Ident(ident) => ident.name@,
            IdentOrStrLit::StrLit(str_lit) => str_lit.value@,
        }
    }

    /// The source range of whichever variant is present.
    pub open spec fn span_spec(&self) -> Span {
        match self {
            IdentOrStrLit::Ident(ident) => ident.span,
            IdentOrStrLit::StrLit(str_lit) => str_lit.span,
        }
    }

    /// Returns the string value of the identifier or literal.
    pub fn value(&self) -> (r: &str)
        ensures
            r@ == self.value_spec(),
    {
        match self {
            IdentOrStrLit::Ident(ident) => ident.as_str(),
            IdentOrStrLit::StrLit(str_lit) => str_lit.value.as_str(),
        }
    }

    /// Returns the span of the identifier or literal.
    pub fn span(&self) -> (r: Span)
        ensures
            r == self.span_spec(),
    {
        match self {
            IdentOrStrLit::Ident(ident) => ident.span,
            IdentOrStrLit::StrLit(str_lit) => str_lit.span,
        }
    }
}

/// Moves an identifier-or-string token into pragma name position.
fn token_into_name(t: Token) -> (r: IdentOrStrLit)
    requires
        token_is_name(t),
    ensures
        Some(r) == token_to_name_spec(t),
{
    match t {
        Token::Ident(i) => IdentOrStrLit::Ident(i),
        Token::StrLit(s) => IdentOrStrLit::StrLit(s),
        Token::Other(_, _) => unreached(),
    }
}

/// An identifier and a string literal whose texts agree have the same
/// `value`: the two variants are interchangeable wherever only the text is
/// read.
pub proof fn lemma_value_ident_strlit_agree(i: Ident, s: StrLit)
    ensures
        i.name@ == s.value@ ==> IdentOrStrLit::Ident(i).value_spec()
            == IdentOrStrLit::StrLit(s).value_spec(),
{
}

/// An import directive: `import "foo.sol";`.
#[derive(Clone, Debug)]
pub struct ImportDirective {
    /// The path string literal value.
    pub path: StrLit,
    pub items: ImportItems,
}

/// The items of an import directive.
#[derive(Clone, Debug)]
pub enum ImportItems {
    /// A plain import directive: `import "foo.sol" as Foo;`.
    Plain(Option<Ident>),
    /// A list of import aliases: `import { Foo as Bar, Baz } from "foo.sol";`.
    Aliases(Vec<(Ident, Option<Ident>)>),
    /// A glob import directive: `import * as Foo from "foo.sol";`.
    Glob(Option<Ident>),
}

/// A `using` directive: `using { A, B.add as + } for uint256 global;`.
#[derive(Clone, Debug)]
pub struct UsingDirective {
    /// The list of paths.
    pub list: UsingList,
    /// The type for which this `using` directive applies. This is `*` if the
    /// value is `None`.
    pub ty: Option<Ty>,
    pub global: bool,
}

/// The path list of a `using` directive.
#[derive(Clone, Debug)]
pub enum UsingList {
    /// `A.B`
    Single(Path),
    /// `{ A, B.add as + }`
    Multiple(Vec<(Path, Option<UserDefinableOperator>)>),
}

/// A user-definable operator: `+`, `*`, `|`, etc.
#[derive(Clone, Copy, Debug, PartialEq, Eq, Hash, Structural)]
pub enum UserDefinableOperator {
    /// `&`
    BitAnd,
    /// `~`
    BitNot,
    /// `|`
    BitOr,
    /// `^`
    BitXor,
    /// `+`
    Add,
    /// `/`
    Div,
    /// `%`
    Rem,
    /// `*`
    Mul,
    /// `-`
    Sub,
    /// `==`
    Eq,
    /// `>=`
    Ge,
    /// `>`
    Gt,
    /// `<=`
    Le,
    /// `<`
    Lt,
    /// `!=`
    Ne,
}

/// A contract, abstract contract, interface, or library definition:
/// `contract Foo is Bar("foo"), Baz { ... }`.
#[derive(Debug)]
pub struct ItemContract {
    pub kind: ContractKind,
    pub name: Ident,
    pub inheritance: Vec<Modifier>,
    pub body: Vec<Item>,
}

/// The kind of contract.
#[derive(Clone, Copy, Debug, PartialEq, Eq, Hash, Structural)]
pub enum ContractKind {
    /// `contract`
    Contract,
    /// `abstract contract`
    AbstractContract,
    /// `interface`
    Interface,
    /// `library`
    Library,
}

impl ContractKind {
    /// The canonical keyword spelling of the contract kind.
    pub open spec fn to_str_spec(self) -> Seq<char> {
        match self {
            ContractKind::Contract => "contract"@,
            ContractKind::AbstractContract => "abstract contract"@,
            ContractKind::Interface => "interface"@,
            ContractKind::Library => "library"@,
        }
    }

    /// Returns the string representation of the contract kind.
    pub fn to_str(self) -> (r: &'static str)
        ensures
            r@ == self.to_str_spec(),
    {
        match self {
            ContractKind::Contract => "contract",
            ContractKind::AbstractContract => "abstract contract",
            ContractKind::Interface => "interface",
            ContractKind::Library => "library",
        }
    }
}

/// The canonical spelling distinguishes contract kinds: equal spellings mean
/// equal kinds.
pub proof fn lemma_contract_kind_to_str_injective(a: ContractKind, b: ContractKind)
    ensures
        a.to_str_spec() == b.to_str_spec() ==> a == b,
{
    reveal_strlit("contract");
    reveal_strlit("abstract contract");
    reveal_strlit("interface");
    reveal_strlit("library");
    assert(("contract"@).len() == 8);
    assert(("abstract contract"@).len() == 17);
    assert(("interface"@).len() == 9);
    assert(("library"@).len() == 7);
}

/// A function, constructor, fallback, receive, or modifier definition:
/// `function helloWorld() external pure returns(string memory);`.
#[derive(Clone, Debug)]
pub struct ItemFunction {
    /// What kind of function this is.
    pub kind: FunctionKind,
    /// The function header.
    pub header: FunctionHeader,
    /// The body of the function. This is `;` when the value is `None`.
    pub body: Option<Block>,
}

/// A function header: `function helloWorld() external pure returns(string memory)`.
///
/// One permissive structure serves all function kinds; which fields may
/// legally be populated for a given kind is a downstream semantic concern,
/// not encoded here.
#[derive(Clone, Debug)]
pub struct FunctionHeader {
    /// The name of the function.
    pub name: Option<Ident>,
    /// The parameters of the function.
    pub parameters: ParameterList,
    pub visibility: Option<Visibility>,
    pub state_mutability: Option<StateMutability>,
    pub modifiers: Vec<Modifier>,
    pub virtual_: bool,
    pub override_: Option<Override>,
    /// The returns parameter list.
    pub returns: ParameterList,
}

impl Default for FunctionHeader {
    /// A header with every field absent or empty.
    fn default() -> (r: Self)
        ensures
            r.name is None,
            r.parameters@ =~= Seq::<VariableDeclaration>::empty(),
            r.visibility is None,
            r.state_mutability is None,
            r.modifiers@ =~= Seq::<Modifier>::empty(),
            r.virtual_ == false,
            r.override_ is None,
            r.returns@ =~= Seq::<VariableDeclaration>::empty(),
    {
        FunctionHeader {
            name: None,
            parameters: Vec::new(),
            visibility: None,
            state_mutability: None,
            modifiers: Vec::new(),
            virtual_: false,
            override_: None,
            returns: Vec::new(),
        }
    }
}

/// A kind of function.
#[derive(Clone, Copy, Debug, PartialEq, Eq, Hash, Structural)]
pub enum FunctionKind {
    /// `constructor`
    Constructor,
    /// `function`
    Function,
    /// `fallback`
    Fallback,
    /// `receive`
    Receive,
    /// `modifier`
    Modifier,
}

impl FunctionKind {
    /// The canonical keyword spelling of the function kind.
    pub open spec fn to_str_spec(self) -> Seq<char> {
        match self {
            FunctionKind::Constructor => "constructor"@,
            FunctionKind::Function => "function"@,
            FunctionKind::Fallback => "fallback"@,
            FunctionKind::Receive => "receive"@,
            FunctionKind::Modifier => "modifier"@,
        }
    }

    /// Returns the string representation of the function kind.
    pub fn to_str(self) -> (r: &'static str)
        ensures
            r@ == self.to_str_spec(),
    {
        match self {
            FunctionKind::Constructor => "constructor",
            FunctionKind::Function => "function",
            FunctionKind::Fallback => "fallback",
            FunctionKind::Receive => "receive",
            FunctionKind::Modifier => "modifier",
        }
    }
}

/// The canonical spelling distinguishes function kinds: equal spellings mean
/// equal kinds.
pub proof fn lemma_function_kind_to_str_injective(a: FunctionKind, b: FunctionKind)
    ensures
        a.to_str_spec() == b.to_str_spec() ==> a == b,
{
    reveal_strlit("constructor");
    reveal_strlit("function");
    reveal_strlit("fallback");
    reveal_strlit("receive");
    reveal_strlit("modifier");
    assert(("constructor"@).len() == 11);
    assert(("function"@).len() == 8);
    assert(("fallback"@).len() == 8);
    assert(("receive"@).len() == 7);
    assert(("modifier"@).len() == 8);
    assert(("function"@)[0] == 'f' && ("function"@)[1] == 'u');
    assert(("fallback"@)[0] == 'f' && ("fallback"@)[1] == 'a');
    assert(("modifier"@)[0] == 'm');
}

/// A modifier invocation on a function, or an inheritance specifier on a
/// contract. The two uses share one shape; context determines which one is
/// meant.
#[derive(Clone, Debug)]
pub struct Modifier {
    pub name: Path,
    pub arguments: CallArgs,
}

/// An override specifier: `override(a, b.c)`. An empty path list is a bare
/// `override`.
#[derive(Clone, Debug)]
pub struct Override {
    pub span: Span,
    pub paths: Vec<Path>,
}

/// A variable declaration: `string memory hello`.
#[derive(Clone, Debug)]
pub struct VariableDeclaration {
    /// The type of the variable.
    pub ty: Ty,
    /// The storage location of the variable, if any.
    pub storage: Option<Storage>,
    /// Whether the variable is indexed.
    pub indexed: bool,
    /// The name of the variable.
    /// This is always `Some` if parsed as part of [`ParameterList`] or a
    /// statement declaration; the caller enforces that, not the type.
    pub name: Option<Ident>,
}

/// A storage location.
#[derive(Clone, Copy, Debug, PartialEq, Eq, Hash, Structural)]
pub enum Storage {
    /// `memory`
    Memory,
    /// `storage`
    Storage,
    /// `calldata`
    Calldata,
}

impl Storage {
    /// The canonical keyword spelling of the storage location.
    pub open spec fn to_str_spec(self) -> Seq<char> {
        match self {
            Storage::Memory => "memory"@,
            Storage::Storage => "storage"@,
            Storage::Calldata => "calldata"@,
        }
    }

    /// Returns the string representation of the storage location.
    pub fn to_str(self) -> (r: &'static str)
        ensures
            r@ == self.to_str_spec(),
    {
        match self {
            Storage::Memory => "memory",
            Storage::Storage => "storage",
            Storage::Calldata => "calldata",
        }
    }
}

/// The canonical spelling distinguishes storage locations: equal spellings
/// mean equal locations.
pub proof fn lemma_storage_to_str_injective(a: Storage, b: Storage)
    ensures
        a.to_str_spec() == b.to_str_spec() ==> a == b,
{
    reveal_strlit("memory");
    reveal_strlit("storage");
    reveal_strlit("calldata");
    assert(("memory"@).len() == 6);
    assert(("storage"@).len() == 7);
    assert(("calldata"@).len() == 8);
}

/// How a function may interact with the chain state.
#[derive(Clone, Copy, Debug, PartialEq, Eq, Hash, Structural)]
pub enum StateMutability {
    /// `pure`
    Pure,
    /// `view`
    View,
    /// `payable`
    Payable,
}

impl StateMutability {
    /// The canonical keyword spelling of the state mutability.
    pub open spec fn to_str_spec(self) -> Seq<char> {
        match self {
            StateMutability::Pure => "pure"@,
            StateMutability::View => "view"@,
            StateMutability::Payable => "payable"@,
        }
    }

    /// Returns the string representation of the state mutability.
    pub fn to_str(self) -> (r: &'static str)
        ensures
            r@ == self.to_str_spec(),
    {
        match self {
            StateMutability::Pure => "pure",
            StateMutability::View => "view",
            StateMutability::Payable => "payable",
        }
    }
}

/// The canonical spelling distinguishes state mutabilities: equal spellings
/// mean equal mutabilities.
pub proof fn lemma_state_mutability_to_str_injective(a: StateMutability, b: StateMutability)
    ensures
        a.to_str_spec() == b.to_str_spec() ==> a == b,
{
    reveal_strlit("pure");
    reveal_strlit("view");
    reveal_strlit("payable");
    assert(("pure"@).len() == 4);
    assert(("view"@).len() == 4);
    assert(("payable"@).len() == 7);
    assert(("pure"@)[0] == 'p');
    assert(("view"@)[0] == 'v');
}

/// Visibility, ordered from restricted to unrestricted:
/// `Private < Internal < Public < External`. The variant order carries that
/// order, for later override-compatibility checks.
#[derive(Clone, Copy, Debug, PartialEq, Eq, Hash, Structural)]
pub enum Visibility {
    /// `private`
    Private,
    /// `internal`
    Internal,
    /// `public`
    Public,
    /// `external`
    External,
}

impl Visibility {
    /// The canonical keyword spelling of the visibility.
    pub open spec fn to_str_spec(self) -> Seq<char> {
        match self {
            Visibility::Private => "private"@,
            Visibility::Internal => "internal"@,
            Visibility::Public => "public"@,
            Visibility::External => "external"@,
        }
    }

    /// Returns the string representation of the visibility.
    pub fn to_str(self) -> (r: &'static str)
        ensures
            r@ == self.to_str_spec(),
    {
        match self {
            Visibility::Private => "private",
            Visibility::Internal => "internal",
            Visibility::Public => "public",
            Visibility::External => "external",
        }
    }
}

/// The canonical spelling distinguishes visibilities: equal spellings mean
/// equal visibilities.
pub proof fn lemma_visibility_to_str_injective(a: Visibility, b: Visibility)
    ensures
        a.to_str_spec() == b.to_str_spec() ==> a == b,
{
    reveal_strlit("private");
    reveal_strlit("internal");
    reveal_strlit("public");
    reveal_strlit("external");
    assert(("private"@).len() == 7);
    assert(("internal"@).len() == 8);
    assert(("public"@).len() == 6);
    assert(("external"@).len() == 8);
    assert(("internal"@)[0] == 'i');
    assert(("external"@)[0] == 'e');
}

/// A state variable or constant definition: `uint256 constant FOO = 42;`.
#[derive(Clone, Debug)]
pub struct VariableDefinition {
    pub ty: Ty,
    pub visibility: Option<Visibility>,
    pub mutability: Option<VarMut>,
    pub storage: Option<Storage>,
    pub override_: Option<Override>,
    pub name: Ident,
    pub initializer: Option<Box<Expr>>,
}

/// The mutability of a variable.
#[derive(Clone, Copy, Debug, PartialEq, Eq, Hash, Structural)]
pub enum VarMut {
    /// `immutable`
    Immutable,
    /// `constant`
    Constant,
}

impl VarMut {
    /// The canonical keyword spelling of the variable mutability.
    pub open spec fn to_str_spec(self) -> Seq<char> {
        match self {
            VarMut::Immutable => "immutable"@,
            VarMut::Constant => "constant"@,
        }
    }

    /// Returns the string representation of the variable mutability.
    pub fn to_str(self) -> (r: &'static str)
        ensures
            r@ == self.to_str_spec(),
    {
        match self {
            VarMut::Immutable => "immutable",
            VarMut::Constant => "constant",
        }
    }
}

/// The canonical spelling distinguishes variable mutabilities: equal
/// spellings mean equal mutabilities.
pub proof fn lemma_var_mut_to_str_injective(a: VarMut, b: VarMut)
    ensures
        a.to_str_spec() == b.to_str_spec() ==> a == b,
{
    reveal_strlit("immutable");
    reveal_strlit("constant");
    assert(("immutable"@).len() == 9);
    assert(("constant"@).len() == 8);
}

/// A struct definition: `struct Foo { uint256 bar; }`.
#[derive(Clone, Debug)]
pub struct ItemStruct {
    pub name: Ident,
    pub fields: Vec<VariableDeclaration>,
}

/// An enum definition: `enum Foo { A, B, C }`.
///
/// The language requires at least one variant; that rule is checked
/// downstream, not by this type.
#[derive(Clone, Debug)]
pub struct ItemEnum {
    pub name: Ident,
    pub variants: Vec<Ident>,
}

/// A user-defined value type definition: `type Foo is uint256;`.
#[derive(Clone, Debug)]
pub struct ItemUdvt {
    pub name: Ident,
    pub ty: Ty,
}

/// An error definition: `error Foo(uint256 a, uint256 b);`.
#[derive(Clone, Debug)]
pub struct ItemError {
    pub name: Ident,
    pub parameters: ParameterList,
}

/// An event definition:
/// `event Transfer(address indexed from, address indexed to, uint256 value);`.
#[derive(Clone, Debug)]
pub struct ItemEvent {
    pub name: Ident,
    pub parameters: ParameterList,
    pub anonymous: bool,
}

} // verus!

