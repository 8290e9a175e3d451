use wasm_gpu::dispatch::{join_outputs, plan_dispatches, Dispatch};
use wasm_gpu::io_layout::{
    argument_word_offsets, constants_bytes, extract_results, flags_buffer_len, input_bytes,
    output_buffer_len, output_instance_len, read_slots, trap_words, word_alignment, IoAlignment,
};
use wasm_gpu::typed::{Val, ValType, V128};

const PACKED: IoAlignment = IoAlignment { argument_words: 1, invocation_words: 1 };
const WIDE: IoAlignment = IoAlignment { argument_words: 2, invocation_words: 4 };

#[test]
fn word_alignment_counts_padded_words() {
    assert_eq!(word_alignment(&[ValType::I32, ValType::I64], PACKED), 3);
    assert_eq!(word_alignment(&[], PACKED), 0);
    // Each argument takes two words at least, the block a multiple of four words.
    assert_eq!(word_alignment(&[ValType::I32, ValType::I64], WIDE), 4);
    assert_eq!(word_alignment(&[ValType::I32, ValType::V128, ValType::I32], WIDE), 8);
}

#[test]
fn output_length_is_word_alignment_in_bytes() {
    for tys in [
        vec![],
        vec![ValType::I32],
        vec![ValType::I32, ValType::I64],
        vec![ValType::V128, ValType::F32, ValType::FuncRef],
    ] {
        for al in [PACKED, WIDE] {
            assert_eq!(output_instance_len(&tys, al), 4 * word_alignment(&tys, al) as u64);
        }
    }
}

#[test]
fn argument_offsets_follow_padded_slots() {
    assert_eq!(argument_word_offsets(&[ValType::I32, ValType::I64, ValType::I32], PACKED), vec![0, 1, 3]);
    assert_eq!(argument_word_offsets(&[ValType::I32, ValType::I64, ValType::I32], WIDE), vec![0, 2, 4]);
}

#[test]
fn inputs_are_padded_and_laid_out_per_invocation() {
    let args = vec![vec![Val::I32(1), Val::I64(2)], vec![Val::I32(3), Val::I64(4)]];
    let data = input_bytes(&args, WIDE);
    // Two blocks of 16 bytes, padded to the smallest buffer.
    assert_eq!(data.len(), 128);
    assert_eq!(&data[0..8], &[1, 0, 0, 0, 0, 0, 0, 0]);
    assert_eq!(&data[8..16], &[2, 0, 0, 0, 0, 0, 0, 0]);
    assert_eq!(&data[16..20], &[3, 0, 0, 0]);
    assert_eq!(&data[24..32], &[4, 0, 0, 0, 0, 0, 0, 0]);
    assert!(data[32..].iter().all(|b| *b == 0));
}

#[test]
fn large_inputs_are_not_padded_past_their_blocks() {
    let args: Vec<Vec<Val>> = (0..40).map(|i| vec![Val::I32(i)]).collect();
    let data = input_bytes(&args, PACKED);
    assert_eq!(data.len(), 160);
    assert_eq!(&data[156..160], &[39, 0, 0, 0]);
}

#[test]
fn results_read_back_from_their_slots() {
    let tys = [ValType::I32, ValType::V128];
    let args = vec![
        vec![Val::I32(7), Val::V128(V128::from_bits(9))],
        vec![Val::I32(-7), Val::V128(V128::from_bits(u128::MAX))],
    ];
    let data = input_bytes(&args, WIDE);
    let len = output_instance_len(&tys, WIDE) as usize;
    assert_eq!(len, 32);
    for (n, expected) in args.iter().enumerate() {
        let vals = read_slots(&tys, &data, n * len, WIDE);
        assert_eq!(vals.len(), 2);
        assert!(vals[0].bitwise_eq(&expected[0]));
        assert!(vals[1].bitwise_eq(&expected[1]));
    }
}

#[test]
fn extracted_results_carry_traps_or_values() {
    let tys = [ValType::I64];
    let args = vec![vec![Val::I64(10)], vec![Val::I64(20)], vec![Val::I64(30)]];
    let output = input_bytes(&args, PACKED);
    let traps = [None, Some("unreachable"), None];
    let results = extract_results(&tys, &traps, &output, PACKED);
    assert_eq!(results.len(), 3);
    assert!(results[0].as_ref().unwrap()[0].bitwise_eq(&Val::I64(10)));
    assert_eq!(results[1].as_ref().unwrap_err(), &"unreachable");
    assert!(results[2].as_ref().unwrap()[0].bitwise_eq(&Val::I64(30)));
}

#[test]
fn output_buffers_are_never_smaller_than_the_minimum() {
    assert_eq!(output_buffer_len(0, &[ValType::I32], PACKED), 128);
    assert_eq!(output_buffer_len(3, &[ValType::I32], PACKED), 128);
    assert_eq!(output_buffer_len(100, &[ValType::I32], PACKED), 400);
    assert_eq!(output_buffer_len(10, &[ValType::I32, ValType::I64], WIDE), 160);
    assert_eq!(flags_buffer_len(5, 12), 60);
}

#[test]
fn constants_hold_the_invocation_count() {
    let c = constants_bytes(16, 1, 0x0102_0304);
    assert_eq!(c, vec![0, 0, 0, 0, 4, 3, 2, 1, 0, 0, 0, 0, 0, 0, 0, 0]);
}

#[test]
fn trap_words_are_read_per_invocation() {
    let flags = [1, 0, 0, 0, 9, 9, 2, 0, 0, 0, 9, 9, 0, 1, 0, 0, 9, 9];
    assert_eq!(trap_words(&flags, 6, 0, 3), vec![1, 2, 256]);
    assert_eq!(trap_words(&flags, 6, 1, 0), Vec::<u32>::new());
    let wide = [9, 9, 9, 9, 1, 0, 0, 0, 9, 9, 9, 9, 2, 0, 0, 0];
    assert_eq!(trap_words(&wide, 8, 1, 2), vec![1, 2]);
}

#[test]
fn dispatches_split_workgroups_and_arguments() {
    // 300 argument sets, 64 to a workgroup: 5 workgroups, at most 2 per dispatch.
    let plan = plan_dispatches(5, 2, 64, 300);
    assert_eq!(
        plan,
        vec![
            Dispatch { i_invocation: 0, dispatch_count: 2, args_start: 0, args_end: 128 },
            Dispatch { i_invocation: 2, dispatch_count: 2, args_start: 128, args_end: 256 },
            Dispatch { i_invocation: 4, dispatch_count: 1, args_start: 256, args_end: 300 },
        ]
    );
    assert_eq!(plan_dispatches(0, 4, 64, 0), vec![]);
    assert_eq!(
        plan_dispatches(3, 8, 1, 3),
        vec![Dispatch { i_invocation: 0, dispatch_count: 3, args_start: 0, args_end: 3 }]
    );
}

#[test]
fn joined_outputs_keep_order_and_the_first_error() {
    let ok: Vec<Result<Vec<u8>, &str>> = vec![Ok(vec![1, 2]), Ok(vec![]), Ok(vec![3])];
    assert_eq!(join_outputs(ok), Ok(vec![1, 2, 3]));
    let failed: Vec<Result<Vec<u8>, &str>> = vec![Ok(vec![1]), Err("first"), Err("second")];
    assert_eq!(join_outputs(failed), Err("first"));
    assert_eq!(join_outputs(Vec::<Result<Vec<u8>, &str>>::new()), Ok(vec![]));
}

#[test]
fn every_argument_set_gets_one_result() {
    let args_len = 300usize;
    let plan = plan_dispatches(5, 2, 64, args_len);
    let parts: Vec<Result<Vec<usize>, &str>> =
        plan.iter().map(|d| Ok((d.args_start..d.args_end).collect())).collect();
    let joined = join_outputs(parts).unwrap();
    assert_eq!(joined, (0..args_len).collect::<Vec<_>>());
}

#[test]
fn the_device_reads_arguments_where_they_were_laid_out() {
    let tys = [ValType::I64, ValType::I32, ValType::V128];
    let args = vec![
        vec![Val::I64(-3), Val::I32(4), Val::V128(V128::from_bits(5))],
        vec![Val::I64(6), Val::I32(-7), Val::V128(V128::from_bits(8))],
        vec![Val::I64(9), Val::I32(10), Val::V128(V128::from_bits(11))],
    ];
    let data = input_bytes(&args, WIDE);
    let words = word_alignment(&tys, WIDE) as usize;
    let offsets = argument_word_offsets(&tys, WIDE);
    for (n, set) in args.iter().enumerate() {
        for (j, val) in set.iter().enumerate() {
            let at = 4 * (n * words + offsets[j] as usize);
            let bytes = val.to_bytes();
            assert_eq!(&data[at..at + bytes.len()], bytes.as_slice());
        }
    }
}
