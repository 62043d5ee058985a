//! Values exchanged with Qt objects.

use vstd::prelude::*;
use vstd::utf8::{decode_utf8, valid_utf8};

verus! {

/// A value that crosses into or out of Qt as a `QVariant`.
#[derive(Debug, PartialEq, Eq)]
pub enum Variant {
    I64(i64),
    String(String),
}

impl Clone for Variant {
    fn clone(&self) -> (r: Variant)
        ensures
            r == *self,
    {
        match self {
            Variant::I64(x) => Variant::I64(*x),
            Variant::String(s) => Variant::String(s.clone()),
        }
    }
}

/// An owned copy of a list of values, in the same order.
pub fn copy_variants(args: &[Variant]) -> (v: Vec<Variant>)
    ensures
        v@ == args@,
{
    let mut v: Vec<Variant> = Vec::new();
    let mut i: usize = 0;
    while i < args.len()
        invariant
            i <= args@.len(),
            v@ == args@.subrange(0, i as int),
        decreases args@.len() - i,
    {
        v.push(args[i].clone());
        i = i + 1;
    }
    assert(args@.subrange(0, args@.len() as int) =~= args@);
    v
}

/// What a `QVariant` read from Qt holds, as far as this binding takes values.
#[derive(Clone, Copy, Debug, PartialEq, Eq, Structural)]
pub enum VariantKind {
    /// A 64-bit integer.
    Int64,
    /// A string, read out as UTF-8 bytes.
    String,
    /// Nothing, or a type that has no `Variant`.
    Unsupported,
}

/// The text of `bytes`, made by `String::from_utf8`: there is one exactly
/// when the bytes are well-formed UTF-8, and then it is what they encode.
#[verifier::external_body]
fn string_from_utf8(bytes: Vec<u8>) -> (r: Option<String>)
    ensures
        r is Some <==> valid_utf8(bytes@),
        r matches Some(s) ==> s@ == decode_utf8(bytes@),
{
    String::from_utf8(bytes).ok()
}

/// The value read from a `QVariant` of kind `kind`, whose integer payload is
/// `number` and whose string payload is `bytes`: an integer as is, a string when
/// its bytes are well-formed UTF-8, and no value otherwise.
pub fn decode_variant(kind: VariantKind, number: i64, bytes: Vec<u8>) -> (r: Option<Variant>)
    ensures
        match kind {
            VariantKind::Int64 => r == Some(Variant::I64(number)),
            VariantKind::String => (r is Some <==> valid_utf8(bytes@)) && (r matches Some(v) ==> (
            v matches Variant::String(s) && s@ == decode_utf8(bytes@))),
            VariantKind::Unsupported => r is None,
        },
{
    match kind {
        VariantKind::Int64 => Some(Variant::I64(number)),
        VariantKind::String => match string_from_utf8(bytes) {
            Some(s) => Some(Variant::String(s)),
            None => None,
        },
        VariantKind::Unsupported => None,
    }
}

} // verus!
