//! The type model: labels, fields, function signatures and the tagged union
//! of interface types, together with the environment of named definitions.

use vstd::prelude::*;
use vstd::utf8::encode_utf8;

verus! {

/// The label hash of a name given as UTF-8 bytes: starting from zero, each
/// byte in turn multiplies the running value by 223 and is added to it, all
/// modulo 2^32.
pub open spec fn hash_bytes(bytes: Seq<u8>) -> u32
    decreases bytes.len(),
{
    if bytes.len() == 0 {
        0u32
    } else {
        ((hash_bytes(bytes.drop_last()) as int * 223 + bytes.last() as int) % 0x1_0000_0000) as u32
    }
}

/// The label hash of a name.
pub open spec fn name_hash(name: Seq<char>) -> u32 {
    hash_bytes(encode_utf8(name))
}

/// The character of one decimal digit.
pub open spec fn digit_char(d: nat) -> char {
    if d == 0 {
        '0'
    } else if d == 1 {
        '1'
    } else if d == 2 {
        '2'
    } else if d == 3 {
        '3'
    } else if d == 4 {
        '4'
    } else if d == 5 {
        '5'
    } else if d == 6 {
        '6'
    } else if d == 7 {
        '7'
    } else if d == 8 {
        '8'
    } else {
        '9'
    }
}

/// The decimal digits of a number, most significant first, no leading zero.
pub open spec fn decimal(n: nat) -> Seq<char>
    decreases n,
{
    if n < 10 {
        seq![digit_char(n)]
    } else {
        decimal(n / 10).push(digit_char(n % 10))
    }
}

/// The decimal digits of a number with an underscore between groups of
/// three digits, counted from the right: `1000` is written `1_000`.
pub open spec fn grouped_decimal(n: nat) -> Seq<char>
    decreases n,
{
    if n < 1000 {
        decimal(n)
    } else {
        grouped_decimal(n / 1000) + seq![
            '_',
            digit_char(n / 100 % 10),
            digit_char(n / 10 % 10),
            digit_char(n % 10),
        ]
    }
}

/// The label of a record or variant field.
#[derive(Clone, Debug, PartialEq, Eq)]
pub enum Label {
    /// A numeric label written in the source.
    Id(u32),
    /// A declared name.
    Named(String),
    /// A positional label, given to a field that was written without one.
    Unnamed(u32),
}

/// `candid::idl_hash`: folds the bytes of the name into a `u32`, multiplying
/// by 223 and adding each byte with wrap-around. The contract states that
/// fold over the UTF-8 bytes of the name.
#[verifier::external_body]
fn idl_hash(s: &str) -> (hash: u32)
    ensures
        hash == name_hash(s@),
{
    candid::idl_hash(s)
}

/// `Display` of `candid::types::Label`: a declared name is written as it
/// stands; a numeric or positional label is written in decimal with an
/// underscore between groups of three digits.
#[verifier::external_body]
fn label_to_string(label: &Label) -> (text: String)
    ensures
        text@ == label.text(),
{
    let outside = match label {
        Label::Id(n) => candid::types::Label::Id(*n),
        Label::Named(s) => candid::types::Label::Named(s.clone()),
        Label::Unnamed(n) => candid::types::Label::Unnamed(*n),
    };
    outside.to_string()
}

impl Label {
    /// The number under which a label is known to the wire format: the
    /// number itself for a numeric or positional label, the label hash of
    /// the name for a declared name.
    pub open spec fn id(&self) -> u32 {
        match self {
            Label::Id(n) => *n,
            Label::Named(name) => name_hash(name@),
            Label::Unnamed(n) => *n,
        }
    }

    /// Whether a label is the numeric label of a position: a numeric or
    /// positional label with that number. A declared name is the label of
    /// no position, whatever its hash.
    pub open spec fn is_position(&self, i: int) -> bool {
        match self {
            Label::Id(n) => *n == i,
            Label::Named(_) => false,
            Label::Unnamed(n) => *n == i,
        }
    }

    /// The text a label is written with.
    pub open spec fn text(&self) -> Seq<char> {
        match self {
            Label::Id(n) => grouped_decimal(*n as nat),
            Label::Named(name) => name@,
            Label::Unnamed(n) => grouped_decimal(*n as nat),
        }
    }

    /// The number under which this label is known to the wire format.
    pub fn get_id(&self) -> (n: u32)
        ensures
            n == self.id(),
    {
        match self {
            Label::Id(n) => *n,
            Label::Named(name) => idl_hash(name.as_str()),
            Label::Unnamed(n) => *n,
        }
    }

    /// The text this label is written with.
    pub fn to_text(&self) -> (text: String)
        ensures
            text@ == self.text(),
    {
        label_to_string(self)
    }
}

/// A flag on a method signature.
#[derive(Clone, Copy, Debug, PartialEq, Eq)]
pub enum FuncMode {
    Oneway,
    Query,
    CompositeQuery,
}

impl FuncMode {
    /// The tag a mode is named by.
    pub open spec fn tag(&self) -> Seq<char> {
        match self {
            FuncMode::Oneway => "Oneway"@,
            FuncMode::Query => "Query"@,
            FuncMode::CompositeQuery => "CompositeQuery"@,
        }
    }

    /// The tag this mode is named by.
    pub fn name(&self) -> (tag: &'static str)
        ensures
            tag@ == self.tag(),
    {
        match self {
            FuncMode::Oneway => "Oneway",
            FuncMode::Query => "Query",
            FuncMode::CompositeQuery => "CompositeQuery",
        }
    }
}

/// The token that stands for a type still under construction.
#[derive(Clone, Debug, PartialEq, Eq)]
pub struct TypeId {
    pub name: String,
}

/// One field of a record or variant.
#[derive(Debug, PartialEq, Eq)]
pub struct Field {
    pub id: Label,
    pub ty: Type,
}

/// A function signature: mode flags, argument types and return types, each
/// in declaration order.
#[derive(Debug, PartialEq, Eq)]
pub struct Function {
    pub modes: Vec<FuncMode>,
    pub args: Vec<Type>,
    pub rets: Vec<Type>,
}

/// An interface type.
#[derive(Debug, PartialEq, Eq)]
pub enum Type {
    Null,
    Bool,
    Nat,
    Int,
    Nat8,
    Nat16,
    Nat32,
    Nat64,
    Int8,
    Int16,
    Int32,
    Int64,
    Float32,
    Float64,
    Text,
    Reserved,
    Empty,
    /// A type still under construction; never resolved or expanded.
    Knot(TypeId),
    /// A reference by name to a definition of the environment.
    Var(String),
    Unknown,
    Opt(Box<Type>),
    Vec(Box<Type>),
    Record(Vec<Field>),
    Variant(Vec<Field>),
    Func(Function),
    /// Methods by name, in declaration order.
    Service(Vec<(String, Type)>),
    /// Initialisation arguments and the body they construct.
    Class(Vec<Type>, Box<Type>),
    Principal,
}

} // verus!
