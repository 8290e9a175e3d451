use vstd::prelude::*;

verus! {

/// The instruction that ended a block.
#[derive(Debug, Clone, Copy, PartialEq, Eq, Structural)]
pub enum EndInstruction {
    End,
    Else,
}

/// Where control may leave to after some instructions, in block depths relative to the current
/// block (depth 0 is the current block).
#[derive(Debug, Clone, Copy, PartialEq, Eq, Structural)]
pub struct ControlFlowState {
    /// The depth at which it is guaranteed that we will be unconditionally branching. A
    /// conservative lower bound.
    pub lower_unconditional_depth: Option<u32>,
    /// The lower depth at which it is possible that we will be conditionally branching. A
    /// conservative upper bound.
    pub upper_conditional_depth: Option<u32>,
    /// The upper depth at which it is possible that we will be conditionally branching. A
    /// conservative lower bound.
    pub lower_conditional_depth: Option<u32>,
}

/// The smaller of two optional depths, where no depth is smaller than every depth.
pub open spec fn opt_min(a: Option<u32>, b: Option<u32>) -> Option<u32> {
    match (a, b) {
        (Some(x), Some(y)) => Some(if x <= y { x } else { y }),
        _ => None,
    }
}

/// The larger of two optional depths, where no depth is smaller than every depth.
pub open spec fn opt_max(a: Option<u32>, b: Option<u32>) -> Option<u32> {
    match (a, b) {
        (Some(x), Some(y)) => Some(if x >= y { x } else { y }),
        (Some(x), None) => Some(x),
        (None, y) => y,
    }
}

/// A depth seen from one block further out: depth 0 is left behind, others shrink by one.
pub open spec fn opt_decrement(a: Option<u32>) -> Option<u32> {
    match a {
        Some(v) => if v >= 1 {
            Some((v - 1) as u32)
        } else {
            None
        },
        None => None,
    }
}

fn min_depth(a: Option<u32>, b: Option<u32>) -> (r: Option<u32>)
    ensures
        r == opt_min(a, b),
{
    match (a, b) {
        (Some(x), Some(y)) => Some(if x <= y { x } else { y }),
        _ => None,
    }
}

fn max_depth(a: Option<u32>, b: Option<u32>) -> (r: Option<u32>)
    ensures
        r == opt_max(a, b),
{
    match (a, b) {
        (Some(x), Some(y)) => Some(if x >= y { x } else { y }),
        (Some(x), None) => Some(x),
        (None, y) => y,
    }
}

fn decrement_depth(a: Option<u32>) -> (r: Option<u32>)
    ensures
        r == opt_decrement(a),
{
    match a {
        Some(v) => v.checked_sub(1),
        None => None,
    }
}

impl ControlFlowState {
    /// The state in which control flow is known not to branch anywhere.
    pub open spec fn spec_default() -> Self {
        ControlFlowState {
            lower_unconditional_depth: None,
            upper_conditional_depth: None,
            lower_conditional_depth: None,
        }
    }

    pub open spec fn spec_union(lhs: Self, rhs: Self) -> Self {
        ControlFlowState {
            lower_unconditional_depth: opt_min(
                lhs.lower_unconditional_depth,
                rhs.lower_unconditional_depth,
            ),
            upper_conditional_depth: opt_min(
                lhs.upper_conditional_depth,
                rhs.upper_conditional_depth,
            ),
            lower_conditional_depth: opt_max(
                lhs.lower_conditional_depth,
                rhs.lower_conditional_depth,
            ),
        }
    }

    pub open spec fn spec_concat(first: Self, second: Self) -> Self {
        match first.lower_unconditional_depth {
            Some(_) => first,
            None => {
                let lower_conditional_depth = opt_min(
                    first.upper_conditional_depth,
                    second.upper_conditional_depth,
                );
                ControlFlowState {
                    lower_unconditional_depth: opt_min(
                        second.lower_unconditional_depth,
                        lower_conditional_depth,
                    ),
                    upper_conditional_depth: lower_conditional_depth,
                    lower_conditional_depth: opt_max(
                        first.lower_conditional_depth,
                        second.lower_conditional_depth,
                    ),
                }
            },
        }
    }

    pub open spec fn spec_decrement(self) -> Self {
        ControlFlowState {
            lower_unconditional_depth: opt_decrement(self.lower_unconditional_depth),
            upper_conditional_depth: opt_decrement(self.upper_conditional_depth),
            lower_conditional_depth: opt_decrement(self.lower_conditional_depth),
        }
    }

    /// The shape that every state built from branches keeps: a known unconditional depth is the
    /// upper conditional depth, and a known upper conditional depth is at most the lower one,
    /// which is then known too.
    pub open spec fn wf(self) -> bool {
        &&& (self.lower_unconditional_depth matches Some(d) ==> self.upper_conditional_depth
            == Some(d))
        &&& (self.upper_conditional_depth matches Some(u) ==> (
        self.lower_conditional_depth matches Some(l) && u <= l))
    }

    /// Finds the state given that control flow may have come from the left or right branch.
    pub fn union(lhs: ControlFlowState, rhs: ControlFlowState) -> (r: ControlFlowState)
        ensures
            r == Self::spec_union(lhs, rhs),
    {
        ControlFlowState {
            lower_unconditional_depth: min_depth(
                lhs.lower_unconditional_depth,
                rhs.lower_unconditional_depth,
            ),
            upper_conditional_depth: min_depth(
                lhs.upper_conditional_depth,
                rhs.upper_conditional_depth,
            ),
            lower_conditional_depth: max_depth(
                lhs.lower_conditional_depth,
                rhs.lower_conditional_depth,
            ),
        }
    }

    /// Finds the state given that control flow flowed through the first, and then the second
    /// block.
    pub fn concat(first: ControlFlowState, second: ControlFlowState) -> (r: ControlFlowState)
        ensures
            r == Self::spec_concat(first, second),
    {
        match first.lower_unconditional_depth {
            Some(_) => first,
            None => {
                let lower_conditional_depth = min_depth(
                    first.upper_conditional_depth,
                    second.upper_conditional_depth,
                );
                ControlFlowState {
                    lower_unconditional_depth: min_depth(
                        second.lower_unconditional_depth,
                        lower_conditional_depth,
                    ),
                    upper_conditional_depth: lower_conditional_depth,
                    lower_conditional_depth: max_depth(
                        first.lower_conditional_depth,
                        second.lower_conditional_depth,
                    ),
                }
            },
        }
    }

    /// Gives the control flow state of this when viewed from one block above. I.e. a branch of
    /// depth 1 gives an branch of depth 0, a branch with unconditional depth of 0 and
    /// conditional depth of 2 gives a branch with a conditional depth of 1
    pub fn decrement(&self) -> (r: ControlFlowState)
        ensures
            r == self.spec_decrement(),
    {
        ControlFlowState {
            lower_unconditional_depth: decrement_depth(self.lower_unconditional_depth),
            upper_conditional_depth: decrement_depth(self.upper_conditional_depth),
            lower_conditional_depth: decrement_depth(self.lower_conditional_depth),
        }
    }

    /// The state after an unconditional branch out of `relative_depth` blocks.
    pub fn for_br(relative_depth: u32) -> (r: ControlFlowState)
        ensures
            r.lower_unconditional_depth == Some(relative_depth),
            r.upper_conditional_depth == Some(relative_depth),
            r.lower_conditional_depth == Some(relative_depth),
    {
        ControlFlowState {
            lower_unconditional_depth: Some(relative_depth),
            lower_conditional_depth: Some(relative_depth),
            upper_conditional_depth: Some(relative_depth),
        }
    }

    /// The state after a conditional branch out of `relative_depth` blocks.
    pub fn for_br_if(relative_depth: u32) -> (r: ControlFlowState)
        ensures
            r.lower_unconditional_depth is None,
            r.upper_conditional_depth == Some(relative_depth),
            r.lower_conditional_depth == Some(relative_depth),
    {
        ControlFlowState {
            lower_unconditional_depth: None,
            upper_conditional_depth: Some(relative_depth),
            lower_conditional_depth: Some(relative_depth),
        }
    }

    /// The state after returning from the function, which leaves every block.
    pub fn for_return() -> (r: ControlFlowState)
        ensures
            r.lower_unconditional_depth == Some(u32::MAX),
            r.upper_conditional_depth == Some(u32::MAX),
            r.lower_conditional_depth == Some(u32::MAX),
    {
        ControlFlowState {
            lower_unconditional_depth: Some(u32::MAX),
            upper_conditional_depth: Some(u32::MAX),
            lower_conditional_depth: Some(u32::MAX),
        }
    }
}

impl Default for ControlFlowState {
    fn default() -> (r: Self)
        ensures
            r == Self::spec_default(),
    {
        ControlFlowState {
            lower_unconditional_depth: None,
            lower_conditional_depth: None,
            upper_conditional_depth: None,
        }
    }
}

/// Merging the states of two branches does not depend on their order.
pub proof fn law_union_commutative(a: ControlFlowState, b: ControlFlowState)
    ensures
        ControlFlowState::spec_union(a, b) == ControlFlowState::spec_union(b, a),
{
}

/// Merging the states of three branches does not depend on how they are grouped.
pub proof fn law_union_associative(a: ControlFlowState, b: ControlFlowState, c: ControlFlowState)
    ensures
        ControlFlowState::spec_union(ControlFlowState::spec_union(a, b), c)
            == ControlFlowState::spec_union(a, ControlFlowState::spec_union(b, c)),
{
}

/// Merging a state with itself gives the state back.
pub proof fn law_union_idempotent(a: ControlFlowState)
    ensures
        ControlFlowState::spec_union(a, a) == a,
{
}

/// Seeing two merged branches from one block further out is merging the branches seen from
/// there.
pub proof fn law_decrement_distributes_over_union(a: ControlFlowState, b: ControlFlowState)
    ensures
        ControlFlowState::spec_union(a, b).spec_decrement() == ControlFlowState::spec_union(
            a.spec_decrement(),
            b.spec_decrement(),
        ),
{
}

/// Nothing after an unconditional branch changes the state.
pub proof fn law_concat_after_unconditional(first: ControlFlowState, second: ControlFlowState)
    requires
        first.lower_unconditional_depth is Some,
    ensures
        ControlFlowState::spec_concat(first, second) == first,
{
}

/// Following a state by itself gives the state back.
pub proof fn law_concat_idempotent(a: ControlFlowState)
    ensures
        ControlFlowState::spec_concat(a, a) == a,
{
}

/// The states of branches, returns, and the empty state are well formed, and merging,
/// sequencing and moving out a block keep states well formed.
pub proof fn law_wf_preserved(a: ControlFlowState, b: ControlFlowState, d: u32)
    requires
        a.wf(),
        b.wf(),
    ensures
        ControlFlowState::spec_default().wf(),
        (ControlFlowState {
            lower_unconditional_depth: Some(d),
            upper_conditional_depth: Some(d),
            lower_conditional_depth: Some(d),
        }).wf(),
        (ControlFlowState {
            lower_unconditional_depth: None,
            upper_conditional_depth: Some(d),
            lower_conditional_depth: Some(d),
        }).wf(),
        ControlFlowState::spec_union(a, b).wf(),
        ControlFlowState::spec_concat(a, b).wf(),
        a.spec_decrement().wf(),
{
}


/// Where control goes after an instruction that may transfer it.
#[derive(Debug, Clone, Copy, PartialEq, Eq, Structural)]
pub enum Branching {
    /// Control stays in the block.
    Stay,
    /// Control surely leaves to the end of this block.
    ToBlockEnd,
    /// Control surely leaves to a block outside this one.
    Outward,
    /// Control may leave; the block's branch labels decide at run time.
    Conditional,
}

/// What a block does after an instruction, given the state that the instruction produced.
#[derive(Debug, Clone, Copy, PartialEq, Eq, Structural)]
pub struct ControlStep {
    /// The block's exit state after the instruction.
    pub exit_state: ControlFlowState,
    /// Whether the stack is written to the block's results, because control may leave here.
    pub store_results: bool,
    /// Where control goes.
    pub branching: Branching,
    /// Whether the rest of the block, up to its balanced end, is unreachable and skipped.
    pub skip_rest: bool,
}

/// The branching that a block takes for the state an instruction produced.
pub open spec fn spec_branching(state: ControlFlowState) -> Branching {
    if state.lower_conditional_depth is None {
        Branching::Stay
    } else {
        match state.lower_unconditional_depth {
            Some(d) => if d == 0 {
                Branching::ToBlockEnd
            } else {
                Branching::Outward
            },
            None => Branching::Conditional,
        }
    }
}

/// Where control goes after an instruction: nowhere when it cannot branch; to the end of this
/// block when it surely branches at depth 0; out to an enclosing block when it surely branches at
/// any greater depth; and to the branch labels when it only may branch.
pub proof fn law_branching_by_depth(state: ControlFlowState)
    ensures
        state.lower_conditional_depth is None ==> spec_branching(state) == Branching::Stay,
        state.lower_conditional_depth is Some && state.lower_unconditional_depth is None
            ==> spec_branching(state) == Branching::Conditional,
        forall|d: u32|
            state.lower_conditional_depth is Some && state.lower_unconditional_depth == Some(d)
                ==> ((spec_branching(state) == Branching::ToBlockEnd) <==> d == 0)
                && ((spec_branching(state) == Branching::Outward) <==> d >= 1),
{
}

/// Decides what a block being populated does after an instruction that produced `state`, and
/// accumulates the block's exit state.
pub fn control_step(exit_state: ControlFlowState, state: ControlFlowState) -> (r: ControlStep)
    ensures
        r.exit_state == ControlFlowState::spec_concat(exit_state, state.spec_decrement()),
        r.store_results == state.lower_conditional_depth is Some,
        r.branching == spec_branching(state),
        r.skip_rest == (state.lower_conditional_depth is Some
            && state.lower_unconditional_depth is Some),
{
    let exit_state = ControlFlowState::concat(exit_state, state.decrement());
    if state.lower_conditional_depth.is_none() {
        return ControlStep {
            exit_state,
            store_results: false,
            branching: Branching::Stay,
            skip_rest: false,
        };
    }
    let branching = match state.lower_unconditional_depth {
        Some(0) => Branching::ToBlockEnd,
        Some(_) => Branching::Outward,
        None => Branching::Conditional,
    };
    ControlStep {
        exit_state,
        store_results: true,
        branching,
        skip_rest: state.lower_unconditional_depth.is_some(),
    }
}

/// How an instruction bears on the nesting of blocks.
#[derive(Debug, Clone, Copy, PartialEq, Eq, Structural)]
pub enum ControlMarker {
    /// `block`, `if` or `loop`.
    BlockStart,
    /// `else`, which ends the then-arm of an `if`.
    Else,
    /// `end`.
    End,
    /// Any other instruction.
    Other,
}

/// How many more blocks `ops[from..to]` opens than it closes.
pub open spec fn nesting(ops: Seq<ControlMarker>, from: int, to: int) -> int
    decreases to - from,
{
    if to <= from {
        0
    } else {
        nesting(ops, from, to - 1) + match ops[to - 1] {
            ControlMarker::BlockStart => 1int,
            ControlMarker::End => -1int,
            _ => 0int,
        }
    }
}

/// Whether `ops[j]` is the `end` or `else` that ends the block, or the arm of an `if`, that
/// `ops[from..]` is inside.
pub open spec fn is_balanced_end(ops: Seq<ControlMarker>, from: int, j: int) -> bool {
    (ops[j] == ControlMarker::End || ops[j] == ControlMarker::Else) && nesting(ops, from, j) == 0
}

/// The instruction that `ops[j]` ends a block with.
pub open spec fn end_instruction_of(m: ControlMarker) -> EndInstruction {
    if m == ControlMarker::Else {
        EndInstruction::Else
    } else {
        EndInstruction::End
    }
}

/// Skips instructions up to, but not including, the next balanced `end` or `else`, and gives
/// its position and which of the two it is; or the length of the stream and nothing, if there
/// is none.
pub fn eat_to_end(ops: &[ControlMarker], from: usize) -> (r: (usize, Option<EndInstruction>))
    requires
        from <= ops@.len(),
    ensures
        from <= r.0 <= ops@.len(),
        r.0 < ops@.len() ==> is_balanced_end(ops@, from as int, r.0 as int) && r.1 == Some(
            end_instruction_of(ops@[r.0 as int]),
        ),
        r.0 == ops@.len() ==> r.1 is None,
        forall|k: int| from <= k < r.0 ==> !is_balanced_end(ops@, from as int, k),
{
    let mut depth: usize = 0;
    let mut i: usize = from;
    while i < ops.len()
        invariant
            from <= i <= ops@.len(),
            depth as int == nesting(ops@, from as int, i as int),
            depth <= i - from,
            forall|k: int| from <= k < i ==> !is_balanced_end(ops@, from as int, k),
        decreases ops.len() - i,
    {
        match ops[i] {
            ControlMarker::End => {
                if depth == 0 {
                    return (i, Some(EndInstruction::End));
                }
                depth = depth - 1;
            },
            ControlMarker::Else => {
                if depth == 0 {
                    return (i, Some(EndInstruction::Else));
                }
            },
            ControlMarker::BlockStart => {
                depth = depth + 1;
            },
            ControlMarker::Other => {},
        }
        i = i + 1;
    }
    (ops.len(), None)
}
} // verus!
