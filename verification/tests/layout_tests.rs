use unicorn::emit::{
    process_context_layout, PROCESS_CTX_BUFFER_SIZE, PROCESS_CTX_CALL_ARGS_TEMP,
    PROCESS_CTX_DEPENDENCIES, PROCESS_CTX_FUNC_ADDR, PROCESS_CTX_TEMP_VAL, PROCESS_CTX_VARS,
    PROCESS_CTX_VARS_LEN,
};
use unicorn::layout::{align_up, Field, TypeDef, ValueType};

#[test]
fn align_up_rounds_to_the_next_multiple() {
    assert_eq!(align_up(0, 8), 0);
    assert_eq!(align_up(1, 8), 8);
    assert_eq!(align_up(7, 8), 8);
    assert_eq!(align_up(8, 8), 8);
    assert_eq!(align_up(9, 8), 16);
    assert_eq!(align_up(5, 4), 8);
    assert_eq!(align_up(3, 1), 3);
}

#[test]
fn mixed_width_fields_are_padded() {
    let fields = vec![
        Field::new("flag", ValueType::I8),
        Field::new("count", ValueType::I32),
        Field::new("value", ValueType::I64),
    ];
    let ty = TypeDef::new("mixed", fields);
    assert_eq!(ty.fields[0].offset, 0);
    assert_eq!(ty.fields[1].offset, 4);
    assert_eq!(ty.fields[2].offset, 8);
    assert_eq!(ty.size, 16);
    assert_eq!(ty.align, 8);
}

#[test]
fn empty_struct_layout() {
    let ty = TypeDef::new("empty", vec![]);
    assert_eq!(ty.size, 0);
    assert_eq!(ty.align, 1);
}

#[test]
fn process_context_field_offsets() {
    // The data model's table: vars, vars length, function address, temp
    // value, dependencies, call-args-temp — at 8-byte strides, 48 bytes.
    let ty = process_context_layout();
    assert_eq!(ty.fields[0].offset as i32, PROCESS_CTX_VARS);
    assert_eq!(ty.fields[1].offset as i32, PROCESS_CTX_VARS_LEN);
    assert_eq!(ty.fields[2].offset as i32, PROCESS_CTX_FUNC_ADDR);
    assert_eq!(ty.fields[3].offset as i32, PROCESS_CTX_TEMP_VAL);
    assert_eq!(ty.fields[4].offset as i32, PROCESS_CTX_DEPENDENCIES);
    assert_eq!(ty.fields[5].offset as i32, PROCESS_CTX_CALL_ARGS_TEMP);
    assert_eq!(ty.size as i64, PROCESS_CTX_BUFFER_SIZE);
}
