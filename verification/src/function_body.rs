use crate::typed::ValType;
use vstd::prelude::*;
use vstd::slice::slice_to_vec;

verus! {

/// The signature of a function: its parameter and result types.
#[derive(Debug, Clone)]
pub struct FuncType {
    pub params: Vec<ValType>,
    pub results: Vec<ValType>,
}

/// The type annotation of a `block`, `if` or `loop` as it appears in a module.
#[derive(Debug, Clone, Copy, PartialEq, Eq, Structural)]
pub enum ParsedBlockType {
    /// No parameters and no results.
    Empty,
    /// No parameters and one result.
    Type(ValType),
    /// Parameters and results of the function type with this index.
    FuncType(u32),
}

/// Blocks have parameters that they take off the stack, and results that they put back.
#[derive(Debug, Clone)]
pub struct BlockType {
    pub arguments: Vec<ValType>,
    pub results: Vec<ValType>,
}

impl BlockType {
    pub fn from_parsed(parsed: ParsedBlockType, func_types: &Vec<FuncType>) -> (r: Self)
        requires
            parsed matches ParsedBlockType::FuncType(id) ==> id < func_types@.len(),
        ensures
            match parsed {
                ParsedBlockType::Empty => r.arguments@ == Seq::<ValType>::empty() && r.results@
                    == Seq::<ValType>::empty(),
                ParsedBlockType::Type(t) => r.arguments@ == Seq::<ValType>::empty()
                    && r.results@ == seq![t],
                ParsedBlockType::FuncType(id) => r.arguments@ == func_types@[id as int].params@
                    && r.results@ == func_types@[id as int].results@,
            },
    {
        match parsed {
            ParsedBlockType::Empty => BlockType { arguments: Vec::new(), results: Vec::new() },
            ParsedBlockType::Type(t) => {
                let mut results = Vec::new();
                results.push(t);
                proof {
                    assert(results@ =~= seq![t]);
                }
                BlockType { arguments: Vec::new(), results }
            },
            ParsedBlockType::FuncType(ft_id) => {
                let ty = &func_types[ft_id as usize];
                BlockType {
                    arguments: slice_to_vec(ty.params.as_slice()),
                    results: slice_to_vec(ty.results.as_slice()),
                }
            },
        }
    }

    /// Used to find the 'type' of the outermost 'block' of a function body
    pub fn from_return_type(return_type: Option<Vec<ValType>>) -> (r: Self)
        ensures
            r.arguments@ == Seq::<ValType>::empty(),
            r.results@ == match return_type {
                Some(v) => v@,
                None => Seq::<ValType>::empty(),
            },
    {
        let results = match return_type {
            Some(v) => v,
            None => Vec::new(),
        };
        BlockType { arguments: Vec::new(), results }
    }
}

/// The locals that runs of `(count, type)` declare, in order.
pub open spec fn declared_locals(declared: Seq<(u32, ValType)>) -> Seq<ValType>
    decreases declared.len(),
{
    if declared.len() == 0 {
        Seq::empty()
    } else {
        let (count, ty) = declared.last();
        declared_locals(declared.drop_last()) + Seq::new(count as nat, |i: int| ty)
    }
}

/// The type of every local of a function by its index: first the parameters, then the
/// declared locals.
pub fn local_types(params: &[ValType], declared: &[(u32, ValType)]) -> (r: Vec<ValType>)
    requires
        params@.len() + declared_locals(declared@).len() <= u32::MAX,
    ensures
        r@ == params@ + declared_locals(declared@),
{
    let mut out = slice_to_vec(params);
    let mut i: usize = 0;
    while i < declared.len()
        invariant
            i <= declared@.len(),
            out@ == params@ + declared_locals(declared@.take(i as int)),
            params@.len() + declared_locals(declared@).len() <= u32::MAX,
        decreases declared.len() - i,
    {
        let (count, ty) = declared[i];
        proof {
            assert(declared@.take(i + 1).drop_last() =~= declared@.take(i as int));
            lemma_declared_locals_prefix(declared@, i + 1);
        }
        let ghost before = out@;
        let mut j: u32 = 0;
        while j < count
            invariant
                j <= count,
                out@ == before + Seq::new(j as nat, |k: int| ty),
            decreases count - j,
        {
            out.push(ty);
            proof {
                assert(before + Seq::new((j + 1) as nat, |k: int| ty) =~= (before + Seq::new(
                    j as nat,
                    |k: int| ty,
                )).push(ty));
            }
            j = j + 1;
        }
        proof {
            assert(out@ =~= params@ + declared_locals(declared@.take(i + 1)));
        }
        i = i + 1;
    }
    proof {
        assert(declared@.take(declared@.len() as int) =~= declared@);
    }
    out
}

/// The locals declared by a prefix of the runs are a prefix of all declared locals.
pub proof fn lemma_declared_locals_prefix(declared: Seq<(u32, ValType)>, i: int)
    requires
        0 <= i <= declared.len(),
    ensures
        declared_locals(declared.take(i)).len() <= declared_locals(declared).len(),
    decreases declared.len() - i,
{
    if i < declared.len() {
        lemma_declared_locals_prefix(declared, i + 1);
        assert(declared.take(i + 1).drop_last() =~= declared.take(i));
    } else {
        assert(declared.take(i) =~= declared);
    }
}

} // verus!
