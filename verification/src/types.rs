//! The type table and the textual type parser. The table interns type
//! identities; the parser recognizes the 32-bit integer type after leading
//! whitespace and hands back the rest of the input.

use vstd::prelude::*;

verus! {

/// A type identity: an integer handle into the type table.
#[derive(Clone, Copy, PartialEq, Eq, Structural, Debug)]
pub struct TypeId(pub u32);

/// The identity of the 32-bit integer type.
pub open spec fn i32_ty() -> TypeId {
    TypeId(0)
}

/// The identity of the void type.
pub open spec fn void_ty() -> TypeId {
    TypeId(1)
}

/// The type table. The base types have fixed identities.
#[derive(Clone, Copy, PartialEq, Eq, Structural, Debug)]
pub struct Types;

impl Types {
    pub fn new() -> (r: Types)
        ensures
            r == Types,
    {
        Types
    }

    /// The 32-bit integer type.
    pub fn int32(&self) -> (r: TypeId)
        ensures
            r == i32_ty(),
    {
        TypeId(0)
    }

    /// The void type.
    pub fn void(&self) -> (r: TypeId)
        ensures
            r == void_ty(),
    {
        TypeId(1)
    }
}

/// Failure of the type parser: the input does not continue with a known
/// type name.
#[derive(Clone, Copy, PartialEq, Eq, Structural, Debug)]
pub enum ParseError {
    ExpectedType,
}

/// Whether a character is ASCII whitespace skipped before a type name.
pub open spec fn is_space(c: char) -> bool {
    c == ' ' || c == '\t' || c == '\n' || c == '\r'
}

/// Length of the whitespace prefix of `s`.
pub open spec fn leading_spaces(s: Seq<char>) -> nat
    decreases s.len(),
{
    if s.len() == 0 || !is_space(s[0]) {
        0
    } else {
        (1 + leading_spaces(s.drop_first())) as nat
    }
}

proof fn lemma_leading_spaces(s: Seq<char>, n: int)
    requires
        0 <= n <= s.len(),
        forall|j: int| 0 <= j < n ==> is_space(#[trigger] s[j]),
        n == s.len() || !is_space(s[n]),
    ensures
        leading_spaces(s) == n,
    decreases n,
{
    if n == 0 {
    } else {
        assert(is_space(s[0]));
        let t = s.drop_first();
        assert(forall|j: int| 0 <= j < n - 1 ==> #[trigger] t[j] == s[j + 1]);
        lemma_leading_spaces(t, n - 1);
    }
}

/// Whether the input is leading whitespace followed by `i32`.
pub open spec fn parse_ok(s: Seq<char>) -> bool {
    let k = leading_spaces(s) as int;
    k + 3 <= s.len() && s[k] == 'i' && s[k + 1] == '3' && s[k + 2] == '2'
}

/// Whether a character is ASCII whitespace skipped before a type name.
fn is_space_char(c: char) -> (r: bool)
    ensures
        r == is_space(c),
{
    c == ' ' || c == '\t' || c == '\n' || c == '\r'
}

/// Parse the 32-bit integer type name after leading whitespace, returning
/// the rest of the input and the type's identity in the table.
pub fn parse<'a>(source: &'a str, types: &Types) -> (r: Result<(&'a str, TypeId), ParseError>)
    ensures
        r is Ok <==> parse_ok(source@),
        r is Ok ==> ({
            &&& r->Ok_0.0@ == source@.skip(leading_spaces(source@) as int + 3)
            &&& r->Ok_0.1 == i32_ty()
        }),
        r is Err ==> r->Err_0 == ParseError::ExpectedType,
{
    let n = source.unicode_len();
    let mut i: usize = 0;
    while i < n && is_space_char(source.get_char(i))
        invariant
            0 <= i <= n,
            n == source@.len(),
            forall|j: int| 0 <= j < i ==> is_space(#[trigger] source@[j]),
        decreases n - i,
    {
        i = i + 1;
    }
    proof {
        lemma_leading_spaces(source@, i as int);
    }
    if n - i >= 3 && source.get_char(i) == 'i' && source.get_char(i + 1) == '3'
        && source.get_char(i + 2) == '2' {
        let rest = source.substring_char(i + 3, n);
        assert(rest@ =~= source@.skip(leading_spaces(source@) as int + 3));
        Ok((rest, types.int32()))
    } else {
        Err(ParseError::ExpectedType)
    }
}

} // verus!
