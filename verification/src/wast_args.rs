use crate::typed::{ExternRef, F32Bits, F64Bits, FuncRef, Val, V128};
use vstd::prelude::*;
use vstd::string::StringExecFns;

verus! {

/// The heap type of a null reference in a script argument.
#[derive(Debug, Clone, PartialEq, Eq)]
pub enum WastHeapType {
    Func,
    Extern,
    /// Any other heap type, by the text that describes it.
    Other(String),
}

/// An argument as a WebAssembly script writes it, floats by their bits.
#[derive(Debug, Clone, PartialEq, Eq)]
pub enum WastArgument {
    I32(i32),
    I64(i64),
    F32(u32),
    F64(u64),
    V128([u8; 16]),
    RefNull(WastHeapType),
    RefExtern(u32),
    RefHost(u32),
    /// An argument of the component model.
    Component,
}

/// The value a script argument stands for, or why it has none.
pub open spec fn spec_wast_value(arg: WastArgument) -> Result<Val, Seq<char>> {
    match arg {
        WastArgument::I32(i) => Ok(Val::I32(i)),
        WastArgument::I64(i) => Ok(Val::I64(i)),
        WastArgument::F32(bits) => Ok(Val::F32(F32Bits(bits))),
        WastArgument::F64(bits) => Ok(Val::F64(F64Bits(bits))),
        WastArgument::V128(bytes) => Ok(
            Val::V128(V128::spec_from_bits(crate::le_bytes::le_value(bytes@) as u128)),
        ),
        WastArgument::RefNull(WastHeapType::Func) => Ok(
            Val::FuncRef(FuncRef::spec_from_word(u32::MAX)),
        ),
        WastArgument::RefNull(WastHeapType::Extern) => Ok(
            Val::ExternRef(ExternRef::spec_from_word(u32::MAX)),
        ),
        WastArgument::RefNull(WastHeapType::Other(text)) => Err(
            "null reference of type "@ + text@ + " is not supported"@,
        ),
        WastArgument::RefExtern(v) => if v != u32::MAX {
            Ok(Val::ExternRef(ExternRef::spec_from_word(v)))
        } else {
            Err("extern ref can't be u32::MAX"@)
        },
        WastArgument::RefHost(_) => Err("HostRefs are not supported"@),
        WastArgument::Component => Err("component model not supported"@),
    }
}

/// A null reference argument stands for the null reference of its heap type: the word with
/// every bit set, which refers to nothing; a host reference argument refers to the host object
/// it names.
pub proof fn law_wast_references(v: u32)
    ensures
        spec_wast_value(WastArgument::RefNull(WastHeapType::Func)) matches Ok(Val::FuncRef(r))
            && r@ == u32::MAX && r.spec_as_u32() is None,
        spec_wast_value(WastArgument::RefNull(WastHeapType::Extern)) matches Ok(Val::ExternRef(r))
            && r@ == u32::MAX && r.spec_as_u32() is None,
        v != u32::MAX ==> (spec_wast_value(WastArgument::RefExtern(v)) matches Ok(
            Val::ExternRef(r),
        ) && r@ == v && r.spec_as_u32() == Some(v)),
        v == u32::MAX ==> spec_wast_value(WastArgument::RefExtern(v)) is Err,
{
    FuncRef::lemma_word(u32::MAX, FuncRef::spec_from_word(u32::MAX));
    ExternRef::lemma_word(u32::MAX, ExternRef::spec_from_word(u32::MAX));
    ExternRef::lemma_word(v, ExternRef::spec_from_word(v));
}

impl Val {
    /// The value that a script argument stands for.
    pub fn try_from_wast(arg: WastArgument) -> (r: Result<Val, String>)
        ensures
            match (r, spec_wast_value(arg)) {
                (Ok(v), Ok(w)) => v == w,
                (Err(m), Err(n)) => m@ == n,
                _ => false,
            },
    {
        match arg {
            WastArgument::I32(i) => Ok(Val::I32(i)),
            WastArgument::I64(i) => Ok(Val::I64(i)),
            WastArgument::F32(bits) => Ok(Val::F32(F32Bits(bits))),
            WastArgument::F64(bits) => Ok(Val::F64(F64Bits(bits))),
            WastArgument::V128(bytes) => {
                proof {
                    crate::le_bytes::lemma_le_value_bound(bytes@);
                    crate::le_bytes::lemma_pow256_16();
                }
                let v = V128::from_le_bytes(bytes);
                proof {
                    V128::lemma_bits(v@, v);
                }
                Ok(Val::V128(v))
            },
            WastArgument::RefNull(WastHeapType::Func) => {
                let r = FuncRef::none();
                proof {
                    FuncRef::lemma_word(u32::MAX, r);
                }
                Ok(Val::FuncRef(r))
            },
            WastArgument::RefNull(WastHeapType::Extern) => {
                let r = ExternRef::none();
                proof {
                    ExternRef::lemma_word(u32::MAX, r);
                }
                Ok(Val::ExternRef(r))
            },
            WastArgument::RefNull(WastHeapType::Other(text)) => {
                let mut message = String::from_str("null reference of type ");
                message.append(text.as_str());
                message.append(" is not supported");
                Err(message)
            },
            WastArgument::RefExtern(v) => match ExternRef::try_from(v) {
                Ok(r) => Ok(Val::ExternRef(r)),
                Err(_) => Err(String::from_str("extern ref can't be u32::MAX")),
            },
            WastArgument::RefHost(_) => Err(String::from_str("HostRefs are not supported")),
            WastArgument::Component => Err(String::from_str("component model not supported")),
        }
    }
}

} // verus!
