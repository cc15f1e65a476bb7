use vstd::prelude::*;
use vstd::string::{StringExecFns, StringSliceAdditionalSpecFns};
use crate::address::{address_text, Address};
use move_core_types::language_storage::TypeTag as OutsideType;

verus! {

/// Whether a byte may stand inside an identifier: a letter, a digit or `_`.
pub open spec fn is_identifier_byte(b: u8) -> bool {
    b == 95 || (97 <= b <= 122) || (65 <= b <= 90) || (48 <= b <= 57)
}

/// Whether a byte is an ASCII letter.
pub open spec fn is_letter(b: u8) -> bool {
    (97 <= b <= 122) || (65 <= b <= 90)
}

/// The bytes of the one name that is accepted although it breaks the rule.
pub open spec fn self_marker() -> Seq<u8> {
    seq![60u8, 83u8, 69u8, 76u8, 70u8, 62u8]
}

/// Which texts are identifiers: a letter and then letters, digits and `_`; or
/// `_` and then at least one of those; or the marker `<SELF>`.
pub open spec fn valid_identifier(s: Seq<u8>) -> bool {
    s == self_marker() || (s.len() > 0 && (is_letter(s[0]) || (s[0] == 95 && s.len() > 1))
        && forall|i: int| 1 <= i < s.len() ==> is_identifier_byte(#[trigger] s[i]))
}

/// Calls `is_valid` of move-core-types' module `identifier`. Believed without
/// proof: it accepts exactly the texts of `valid_identifier`.
#[verifier::external_body]
fn identifier_is_valid(text: &str) -> (valid: bool)
    ensures
        valid == valid_identifier(text.spec_bytes()),
{
    move_core_types::identifier::is_valid(text)
}

/// The text that bytes write, a replacement character standing for what is
/// no text: what `String::from_utf8_lossy` of std returns for them.
pub uninterp spec fn lossy_text(bytes: Seq<u8>) -> Seq<char>;

/// The characters that bytes below 128 write, one for one.
pub open spec fn ascii_text(bytes: Seq<u8>) -> Seq<char> {
    Seq::new(bytes.len(), |i: int| bytes[i] as char)
}

/// Whether every byte is below 128.
pub open spec fn all_ascii(bytes: Seq<u8>) -> bool {
    forall|i: int| 0 <= i < bytes.len() ==> #[trigger] bytes[i] < 128
}

/// Calls `String::from_utf8_lossy` of std. Believed without proof: the text
/// it returns depends on the bytes alone, so it is `lossy_text` of them; and
/// bytes below 128 are text as they stand, one character each.
#[verifier::external_body]
fn text_of_bytes(bytes: &[u8]) -> (text: String)
    ensures
        text@ == lossy_text(bytes@),
        all_ascii(bytes@) ==> text@ == ascii_text(bytes@),
{
    String::from_utf8_lossy(bytes).into_owned()
}

/// Whether two byte strings hold the same bytes.
pub fn bytes_equal(a: &Vec<u8>, b: &Vec<u8>) -> (same: bool)
    ensures
        same == (a@ == b@),
{
    if a.len() != b.len() {
        return false;
    }
    let mut i: usize = 0;
    while i < a.len()
        invariant
            a@.len() == b@.len(),
            i <= a@.len(),
            forall|k: int| 0 <= k < i ==> a@[k] == b@[k],
        decreases a@.len() - i,
    {
        if a[i] != b[i] {
            return false;
        }
        i = i + 1;
    }
    assert(a@ =~= b@);
    true
}

/// The name of a module, a type or a field.
#[derive(Debug)]
pub struct Identifier {
    pub bytes: Vec<u8>,
}

impl View for Identifier {
    type V = Seq<u8>;

    open spec fn view(&self) -> Seq<u8> {
        self.bytes@
    }
}

impl Identifier {
    /// The identifier that a text writes, if it writes one.
    pub fn new(text: &str) -> (identifier: Option<Identifier>)
        ensures
            identifier is Some <==> valid_identifier(text.spec_bytes()),
            identifier matches Some(id) ==> id@ == text.spec_bytes(),
    {
        if identifier_is_valid(text) {
            Some(Identifier { bytes: vstd::slice::slice_to_vec(text.as_bytes()) })
        } else {
            None
        }
    }

    /// The name as text.
    pub fn text(&self) -> (text: String)
        ensures
            text@ == lossy_text(self@),
            all_ascii(self@) ==> text@ == ascii_text(self@),
    {
        text_of_bytes(self.bytes.as_slice())
    }

    /// A second copy of the same name.
    pub fn duplicate(&self) -> (copy: Identifier)
        ensures
            copy@ == self@,
    {
        Identifier { bytes: vstd::slice::slice_to_vec(self.bytes.as_slice()) }
    }

    /// Whether two identifiers are the same name.
    pub fn equals(&self, other: &Identifier) -> (same: bool)
        ensures
            same == (self@ == other@),
    {
        bytes_equal(&self.bytes, &other.bytes)
    }
}

/// A type, as a generic argument of a type descriptor names it.
#[derive(Debug)]
pub enum TypeArg {
    Bool,
    U8,
    U64,
    U128,
    Address,
    Signer,
    Vector(Box<TypeArg>),
    Struct(Box<StructTag>),
}

/// The descriptor of a resource type: where it is defined, its module, its
/// name, and its generic arguments in order.
#[derive(Debug)]
pub struct StructTag {
    pub address: Address,
    pub module: Identifier,
    pub name: Identifier,
    pub type_params: Vec<TypeArg>,
}

/// What a `TypeArg` stands for.
pub enum TypeModel {
    Bool,
    U8,
    U64,
    U128,
    Address,
    Signer,
    Vector(Box<TypeModel>),
    Struct(Box<TagModel>),
}

/// What a `StructTag` stands for. Two descriptors name the same type exactly
/// when these are equal.
pub struct TagModel {
    pub address: Address,
    pub module: Seq<u8>,
    pub name: Seq<u8>,
    pub type_params: Seq<TypeModel>,
}

pub open spec fn type_model(t: TypeArg) -> TypeModel
    decreases t, 0nat,
{
    match t {
        TypeArg::Bool => TypeModel::Bool,
        TypeArg::U8 => TypeModel::U8,
        TypeArg::U64 => TypeModel::U64,
        TypeArg::U128 => TypeModel::U128,
        TypeArg::Address => TypeModel::Address,
        TypeArg::Signer => TypeModel::Signer,
        TypeArg::Vector(inner) => TypeModel::Vector(Box::new(type_model(*inner))),
        TypeArg::Struct(inner) => TypeModel::Struct(Box::new(tag_model(*inner))),
    }
}

pub open spec fn tag_model(t: StructTag) -> TagModel
    decreases t, 1nat,
{
    TagModel {
        address: t.address,
        module: t.module@,
        name: t.name@,
        type_params: Seq::new(
            t.type_params@.len(),
            |i: int|
                if 0 <= i < t.type_params@.len() {
                    type_model(t.type_params@[i])
                } else {
                    TypeModel::Bool
                },
        ),
    }
}

/// A type as text: a struct as its descriptor, a vector as `Vector<..>`
/// around its element's type, any other by its name.
pub open spec fn type_text(t: TypeArg) -> Seq<char>
    decreases t, 0nat, 0nat,
{
    match t {
        TypeArg::Bool => "Bool"@,
        TypeArg::U8 => "U8"@,
        TypeArg::U64 => "U64"@,
        TypeArg::U128 => "U128"@,
        TypeArg::Address => "Address"@,
        TypeArg::Signer => "Signer"@,
        TypeArg::Vector(inner) => "Vector<"@ + type_text(*inner) + ">"@,
        TypeArg::Struct(inner) => tag_text(*inner),
    }
}

/// The first `n` generic arguments of a descriptor as text, `, ` between them.
pub open spec fn params_text(t: StructTag, n: nat) -> Seq<char>
    decreases t, 1nat, n,
{
    if n == 0 || n > t.type_params@.len() {
        Seq::empty()
    } else if n == 1 {
        type_text(t.type_params@[0])
    } else {
        params_text(t, (n - 1) as nat) + ", "@ + type_text(t.type_params@[n - 1])
    }
}

/// A descriptor as text: `address::module::Name`, the address as a literal,
/// and then, where it has generic arguments, `<`, the arguments and `>`.
pub open spec fn tag_text(t: StructTag) -> Seq<char>
    decreases t, 2nat, 0nat,
{
    let head = address_text(t.address) + "::"@ + lossy_text(t.module@) + "::"@ + lossy_text(t.name@);
    if t.type_params@.len() == 0 {
        head
    } else {
        head + "<"@ + params_text(t, t.type_params@.len()) + ">"@
    }
}

impl View for TypeArg {
    type V = TypeModel;

    open spec fn view(&self) -> TypeModel {
        type_model(*self)
    }
}

impl View for StructTag {
    type V = TagModel;

    open spec fn view(&self) -> TagModel {
        tag_model(*self)
    }
}

/// A type as move-core-types holds it.
#[verifier::external_type_specification]
#[verifier::external_body]
pub struct ExOutsideType(move_core_types::language_storage::TypeTag);

/// The type that a text writes in the grammar of type descriptors, where it
/// writes one: what `parse_type_tag` of move-core-types returns for it.
pub uninterp spec fn type_of_text(text: Seq<char>) -> Option<TypeModel>;

/// How many `<` a descriptor's text may hold. Each level of generic
/// arguments opens with one, so this bounds how deep a descriptor goes.
pub const MAX_TYPE_NESTING: usize = 128;

/// How many of the bytes are `<`.
pub open spec fn count_open(s: Seq<u8>) -> nat
    decreases s.len(),
{
    if s.len() == 0 {
        0
    } else {
        count_open(s.drop_last()) + if s.last() == 60 {
            1nat
        } else {
            0nat
        }
    }
}

/// Builds the same type in this library's form, variant for variant and
/// field for field. Nothing is claimed of the result.
#[verifier::external_body]
fn inside_type(t: &OutsideType) -> (converted: TypeArg) {
    match t {
        OutsideType::Bool => TypeArg::Bool,
        OutsideType::U8 => TypeArg::U8,
        OutsideType::U64 => TypeArg::U64,
        OutsideType::U128 => TypeArg::U128,
        OutsideType::Address => TypeArg::Address,
        OutsideType::Signer => TypeArg::Signer,
        OutsideType::Vector(inner) => TypeArg::Vector(Box::new(inside_type(inner))),
        OutsideType::Struct(s) => TypeArg::Struct(Box::new(StructTag {
            address: Address { value: u128::from_be_bytes(s.address.into_bytes()) },
            module: Identifier { bytes: s.module.as_bytes().to_vec() },
            name: Identifier { bytes: s.name.as_bytes().to_vec() },
            type_params: s.type_params.iter().map(inside_type).collect(),
        })),
    }
}

/// Calls `parse_type_tag` of move-core-types' module `parser`. Believed
/// without proof: whether the call accepts the text, and the type it then
/// returns, depend on the text alone, so they are `type_of_text` of it. The
/// call descends once for each level of generic arguments, hence the bound.
#[verifier::external_body]
fn parse_type_text(text: &str) -> (parsed: Option<TypeArg>)
    requires
        count_open(text.spec_bytes()) <= MAX_TYPE_NESTING,
    ensures
        match type_of_text(text@) {
            Some(model) => parsed matches Some(t) && t@ == model,
            None => parsed is None,
        },
{
    match move_core_types::parser::parse_type_tag(text) {
        Ok(t) => Some(inside_type(&t)),
        Err(_) => None,
    }
}

/// Whether the bytes hold no more `<` than a descriptor's text may.
pub fn within_nesting(bytes: &[u8]) -> (within: bool)
    ensures
        within == (count_open(bytes@) <= MAX_TYPE_NESTING),
{
    let n: usize = bytes.len();
    let mut opened: usize = 0;
    let mut i: usize = 0;
    while i < n
        invariant
            n == bytes@.len(),
            i <= n,
            opened == count_open(bytes@.subrange(0, i as int)),
            opened <= MAX_TYPE_NESTING,
        decreases n - i,
    {
        let ghost longer = bytes@.subrange(0, i + 1);
        assert(longer.drop_last() =~= bytes@.subrange(0, i as int));
        if bytes[i] == 60 {
            if opened == MAX_TYPE_NESTING {
                proof {
                    lemma_count_open_prefix(bytes@, i + 1);
                }
                return false;
            }
            opened = opened + 1;
        }
        i = i + 1;
    }
    assert(bytes@.subrange(0, n as int) =~= bytes@);
    true
}

/// A text holds at least as many `<` as any beginning of it.
pub proof fn lemma_count_open_prefix(s: Seq<u8>, j: int)
    requires
        0 <= j <= s.len(),
    ensures
        count_open(s.subrange(0, j)) <= count_open(s),
    decreases s.len() - j,
{
    if j == s.len() {
        assert(s.subrange(0, j) =~= s);
    } else {
        lemma_count_open_prefix(s, j + 1);
        assert(s.subrange(0, j + 1).drop_last() =~= s.subrange(0, j));
    }
}

/// The descriptor that a text writes, where it writes one: the text holds
/// no more `<` than it may, and it writes a type that is a struct.
pub open spec fn struct_tag_of_text(text: &str) -> Option<TagModel> {
    if count_open(text.spec_bytes()) > MAX_TYPE_NESTING {
        None
    } else {
        match type_of_text(text@) {
            Some(TypeModel::Struct(tag)) => Some(*tag),
            _ => None,
        }
    }
}

impl TypeArg {
    /// The type as text.
    pub fn text(&self) -> (text: String)
        ensures
            text@ == type_text(*self),
        decreases *self, 0nat, 0nat,
    {
        match self {
            TypeArg::Bool => String::from_str("Bool"),
            TypeArg::U8 => String::from_str("U8"),
            TypeArg::U64 => String::from_str("U64"),
            TypeArg::U128 => String::from_str("U128"),
            TypeArg::Address => String::from_str("Address"),
            TypeArg::Signer => String::from_str("Signer"),
            TypeArg::Vector(inner) => String::from_str("Vector<").concat(inner.text().as_str()).concat(">"),
            TypeArg::Struct(inner) => inner.text(),
        }
    }

    /// A second copy of the same type.
    pub fn duplicate(&self) -> (copy: TypeArg)
        ensures
            copy@ == self@,
        decreases *self, 0nat,
    {
        match self {
            TypeArg::Bool => TypeArg::Bool,
            TypeArg::U8 => TypeArg::U8,
            TypeArg::U64 => TypeArg::U64,
            TypeArg::U128 => TypeArg::U128,
            TypeArg::Address => TypeArg::Address,
            TypeArg::Signer => TypeArg::Signer,
            TypeArg::Vector(inner) => TypeArg::Vector(Box::new(inner.duplicate())),
            TypeArg::Struct(inner) => TypeArg::Struct(Box::new(inner.duplicate())),
        }
    }

    /// Whether two types are the same, compared part by part.
    pub fn equals(&self, other: &TypeArg) -> (same: bool)
        ensures
            same == (self@ == other@),
        decreases *self, 0nat,
    {
        match (self, other) {
            (TypeArg::Bool, TypeArg::Bool) => true,
            (TypeArg::U8, TypeArg::U8) => true,
            (TypeArg::U64, TypeArg::U64) => true,
            (TypeArg::U128, TypeArg::U128) => true,
            (TypeArg::Address, TypeArg::Address) => true,
            (TypeArg::Signer, TypeArg::Signer) => true,
            (TypeArg::Vector(a), TypeArg::Vector(b)) => a.equals(b),
            (TypeArg::Struct(a), TypeArg::Struct(b)) => a.equals(b),
            _ => false,
        }
    }
}

impl StructTag {
    /// The descriptor as text.
    pub fn text(&self) -> (text: String)
        ensures
            text@ == tag_text(*self),
        decreases *self, 2nat, 0nat,
    {
        let head = self.address.text().concat("::").concat(self.module.text().as_str()).concat("::").concat(
            self.name.text().as_str(),
        );
        let n: usize = self.type_params.len();
        if n == 0 {
            return head;
        }
        let mut params = self.type_params[0].text();
        let mut i: usize = 1;
        while i < n
            invariant
                n == self.type_params@.len(),
                1 <= i <= n,
                params@ == params_text(*self, i as nat),
            decreases n - i,
        {
            params = params.concat(", ").concat(self.type_params[i].text().as_str());
            i = i + 1;
        }
        head.concat("<").concat(params.as_str()).concat(">")
    }

    /// Reads a descriptor from its text, in the form
    /// `address::module::Name<arguments>`.
    pub fn parse(text: &str) -> (tag: Option<StructTag>)
        ensures
            match struct_tag_of_text(text) {
                Some(model) => tag matches Some(t) && t@ == model,
                None => tag is None,
            },
    {
        if !within_nesting(text.as_bytes()) {
            return None;
        }
        match parse_type_text(text) {
            Some(TypeArg::Struct(tag)) => Some(*tag),
            _ => None,
        }
    }

    /// A second copy of the same descriptor.
    pub fn duplicate(&self) -> (copy: StructTag)
        ensures
            copy@ == self@,
        decreases *self, 1nat,
    {
        let n: usize = self.type_params.len();
        let mut params: Vec<TypeArg> = Vec::new();
        let mut i: usize = 0;
        while i < n
            invariant
                n == self.type_params@.len(),
                i <= n,
                params@.len() == i,
                forall|k: int| 0 <= k < i ==> params@[k]@ == self.type_params@[k]@,
            decreases n - i,
        {
            params.push(self.type_params[i].duplicate());
            i = i + 1;
        }
        let copy = StructTag {
            address: self.address,
            module: self.module.duplicate(),
            name: self.name.duplicate(),
            type_params: params,
        };
        assert(copy@.type_params =~= self@.type_params);
        copy
    }

    /// Whether two descriptors name the same type: the same address, module
    /// and name, and the same generic arguments, each compared in turn and in
    /// depth.
    pub fn equals(&self, other: &StructTag) -> (same: bool)
        ensures
            same == (self@ == other@),
        decreases *self, 1nat,
    {
        if !self.address.equals(&other.address) || !self.module.equals(&other.module)
            || !self.name.equals(&other.name) {
            return false;
        }
        if self.type_params.len() != other.type_params.len() {
            assert(self@.type_params.len() == self.type_params@.len());
            assert(other@.type_params.len() == other.type_params@.len());
            return false;
        }
        let n: usize = self.type_params.len();
        let mut i: usize = 0;
        while i < n
            invariant
                n == self.type_params@.len(),
                n == other.type_params@.len(),
                i <= n,
                forall|k: int| 0 <= k < i ==> self.type_params@[k]@ == other.type_params@[k]@,
            decreases n - i,
        {
            if !self.type_params[i].equals(&other.type_params[i]) {
                assert(self@.type_params[i as int] == self.type_params@[i as int]@);
                assert(other@.type_params[i as int] == other.type_params@[i as int]@);
                return false;
            }
            i = i + 1;
        }
        assert(self@.type_params =~= other@.type_params);
        true
    }
}

} // verus!
