use wasm_gpu::control_flow::ControlMarker::{BlockStart, Else, End, Other};
use wasm_gpu::control_flow::{
    control_step, eat_to_end, Branching, ControlFlowState, EndInstruction,
};
use wasm_gpu::function_body::{local_types, BlockType, FuncType, ParsedBlockType};
use wasm_gpu::typed::ValType;

fn state(u: Option<u32>, uc: Option<u32>, lc: Option<u32>) -> ControlFlowState {
    ControlFlowState {
        lower_unconditional_depth: u,
        upper_conditional_depth: uc,
        lower_conditional_depth: lc,
    }
}

#[test]
fn decrement_views_branches_from_one_block_out() {
    // A branch of depth 1 gives a branch of depth 0.
    assert_eq!(ControlFlowState::for_br(1).decrement(), ControlFlowState::for_br(0));
    // Unconditional depth 0 and conditional depth 2 give a conditional depth of 1.
    let s = state(Some(0), Some(0), Some(2));
    assert_eq!(s.decrement(), state(None, None, Some(1)));
    assert_eq!(ControlFlowState::default().decrement(), ControlFlowState::default());
}

#[test]
fn union_keeps_what_both_branches_guarantee() {
    let a = ControlFlowState::for_br(2);
    let b = ControlFlowState::for_br_if(1);
    assert_eq!(ControlFlowState::union(a, b), state(None, Some(1), Some(2)));
    assert_eq!(ControlFlowState::union(a, b), ControlFlowState::union(b, a));
    assert_eq!(ControlFlowState::union(a, a), a);
    assert_eq!(
        ControlFlowState::union(ControlFlowState::for_br(1), ControlFlowState::for_br(3)),
        state(Some(1), Some(1), Some(3))
    );
}

#[test]
fn concat_stops_after_an_unconditional_branch() {
    let first = ControlFlowState::for_br(0);
    let second = ControlFlowState::for_br(5);
    assert_eq!(ControlFlowState::concat(first, second), first);
    let cond = ControlFlowState::for_br_if(2);
    assert_eq!(
        ControlFlowState::concat(cond, ControlFlowState::for_br(1)),
        state(Some(1), Some(1), Some(2))
    );
    assert_eq!(
        ControlFlowState::concat(ControlFlowState::default(), cond),
        state(None, None, Some(2))
    );
    assert_eq!(ControlFlowState::for_return().lower_unconditional_depth, Some(u32::MAX));
}

#[test]
fn control_steps_decide_where_control_goes() {
    let start = ControlFlowState::default();
    let stay = control_step(start, ControlFlowState::default());
    assert_eq!(stay.branching, Branching::Stay);
    assert!(!stay.store_results && !stay.skip_rest);
    let to_end = control_step(start, ControlFlowState::for_br(0));
    assert_eq!(to_end.branching, Branching::ToBlockEnd);
    assert!(to_end.store_results && to_end.skip_rest);
    assert_eq!(to_end.exit_state, ControlFlowState::default());
    let outward = control_step(start, ControlFlowState::for_br(2));
    assert_eq!(outward.branching, Branching::Outward);
    assert_eq!(outward.exit_state, state(None, None, Some(1)));
    let maybe = control_step(start, ControlFlowState::for_br_if(1));
    assert_eq!(maybe.branching, Branching::Conditional);
    assert!(maybe.store_results && !maybe.skip_rest);
    assert_eq!(control_step(start, ControlFlowState::for_return()).branching, Branching::Outward);
    assert_ne!(EndInstruction::End, EndInstruction::Else);
}

#[test]
fn eating_to_end_skips_nested_blocks() {
    let ops = [Other, BlockStart, Other, End, Other, End, Other];
    assert_eq!(eat_to_end(&ops, 0), (5, Some(EndInstruction::End)));
    assert_eq!(eat_to_end(&ops, 2), (3, Some(EndInstruction::End)));
    assert_eq!(eat_to_end(&ops, 6), (7, None));
    assert_eq!(eat_to_end(&[BlockStart, Other], 0), (2, None));
}

#[test]
fn eating_to_end_stops_at_the_else_of_the_arm() {
    // A then-arm after an unconditional branch: instruction, else, else-arm instruction, end.
    let ops = [Other, Else, Other, End];
    assert_eq!(eat_to_end(&ops, 0), (1, Some(EndInstruction::Else)));
    // The else of a nested if is skipped with the nested if.
    let nested = [BlockStart, Other, Else, Other, End, Other, Else, Other, End];
    assert_eq!(eat_to_end(&nested, 0), (6, Some(EndInstruction::Else)));
}

#[test]
fn block_types_come_from_annotations() {
    let types = vec![FuncType { params: vec![ValType::I32], results: vec![ValType::I64, ValType::F32] }];
    let empty = BlockType::from_parsed(ParsedBlockType::Empty, &types);
    assert!(empty.arguments.is_empty() && empty.results.is_empty());
    let single = BlockType::from_parsed(ParsedBlockType::Type(ValType::V128), &types);
    assert!(single.arguments.is_empty());
    assert_eq!(single.results, vec![ValType::V128]);
    let func = BlockType::from_parsed(ParsedBlockType::FuncType(0), &types);
    assert_eq!(func.arguments, vec![ValType::I32]);
    assert_eq!(func.results, vec![ValType::I64, ValType::F32]);
    let outer = BlockType::from_return_type(Some(vec![ValType::I32]));
    assert_eq!(outer.results, vec![ValType::I32]);
    assert!(BlockType::from_return_type(None).results.is_empty());
}

#[test]
fn locals_follow_parameters() {
    let locals = local_types(&[ValType::I32], &[(2, ValType::I64), (0, ValType::F32), (1, ValType::V128)]);
    assert_eq!(locals, vec![ValType::I32, ValType::I64, ValType::I64, ValType::V128]);
    assert!(local_types(&[], &[]).is_empty());
}

#[test]
fn union_and_concat_laws_on_examples() {
    let a = ControlFlowState::for_br(3);
    let b = ControlFlowState::for_br_if(1);
    let c = state(None, None, Some(7));
    assert_eq!(
        ControlFlowState::union(ControlFlowState::union(a, b), c),
        ControlFlowState::union(a, ControlFlowState::union(b, c))
    );
    assert_eq!(
        ControlFlowState::union(a, b).decrement(),
        ControlFlowState::union(a.decrement(), b.decrement())
    );
    assert_eq!(ControlFlowState::concat(b, b), b);
    assert_eq!(ControlFlowState::concat(c, c), c);
}
