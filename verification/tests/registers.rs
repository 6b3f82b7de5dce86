use img_atlas::ymm::{transpose, transpose4, V128, YmmRegister};

fn lanes_of(reg: &YmmRegister) -> [i32; 8] {
    let (a, b) = (reg.v0.lanes, reg.v1.lanes);
    [a[0], a[1], a[2], a[3], b[0], b[1], b[2], b[3]]
}

#[test]
fn test_transpose() {
    fn get_val(i: usize, j: usize) -> i32 {
        ((i * 8) / (j + 1)) as i32
    }
    let mut vals: [i32; 8 * 8] = [0; 8 * 8];

    for i in 0..8 {
        for j in 0..8 {
            // some order-dependent value of i and j
            let value = get_val(i, j);
            vals[i * 8 + j] = value;
        }
    }

    let mut regs: [YmmRegister; 8] = [YmmRegister::from(0); 8];
    for i in 0..8 {
        let mut row = [0i32; 8];
        row.copy_from_slice(&vals[i * 8..i * 8 + 8]);
        regs[i] = YmmRegister::load(&row);
    }
    let mut reg0 = regs[0];
    let mut reg1 = regs[1];
    let mut reg2 = regs[2];
    let mut reg3 = regs[3];
    let mut reg4 = regs[4];
    let mut reg5 = regs[5];
    let mut reg6 = regs[6];
    let mut reg7 = regs[7];

    transpose(
        &mut reg0, &mut reg1, &mut reg2, &mut reg3, &mut reg4, &mut reg5, &mut reg6, &mut reg7,
    );

    regs[0] = reg0;
    regs[1] = reg1;
    regs[2] = reg2;
    regs[3] = reg3;
    regs[4] = reg4;
    regs[5] = reg5;
    regs[6] = reg6;
    regs[7] = reg7;

    let mut vals_from_reg: [i32; 8 * 8] = [0; 8 * 8];
    for i in 0..8 {
        vals_from_reg[i * 8..i * 8 + 8].copy_from_slice(&lanes_of(&regs[i]));
    }

    for i in 0..8 {
        for j in 0..i {
            let orig = vals[i * 8 + j];
            vals[i * 8 + j] = vals[j * 8 + i];
            vals[j * 8 + i] = orig;
        }
    }

    for i in 0..8 {
        for j in 0..8 {
            assert_eq!(vals[j * 8 + i], get_val(i, j));
            assert_eq!(vals_from_reg[j * 8 + i], get_val(i, j));
        }
    }

    assert_eq!(vals, vals_from_reg);
}

#[test]
fn transpose_of_distinct_lanes() {
    let mut regs: Vec<YmmRegister> = (0..8)
        .map(|i| {
            let mut row = [0i32; 8];
            for j in 0..8 {
                row[j] = (i * 10 + j) as i32;
            }
            YmmRegister::load(&row)
        })
        .collect();
    let (a, rest) = regs.split_at_mut(1);
    let (b, rest) = rest.split_at_mut(1);
    let (c, rest) = rest.split_at_mut(1);
    let (d, rest) = rest.split_at_mut(1);
    let (e, rest) = rest.split_at_mut(1);
    let (f, rest) = rest.split_at_mut(1);
    let (g, h) = rest.split_at_mut(1);
    transpose(&mut a[0], &mut b[0], &mut c[0], &mut d[0], &mut e[0], &mut f[0], &mut g[0], &mut h[0]);
    for i in 0..8 {
        let lanes = lanes_of(&regs[i]);
        for j in 0..8 {
            assert_eq!(lanes[j], (j * 10 + i) as i32);
        }
    }
}

#[test]
fn transpose4_of_distinct_lanes() {
    let mut v0 = V128 { lanes: [0, 1, 2, 3] };
    let mut v1 = V128 { lanes: [10, 11, 12, 13] };
    let mut v2 = V128 { lanes: [20, 21, 22, 23] };
    let mut v3 = V128 { lanes: [30, 31, 32, 33] };
    transpose4(&mut v0, &mut v1, &mut v2, &mut v3);
    assert_eq!(v0.lanes, [0, 10, 20, 30]);
    assert_eq!(v1.lanes, [1, 11, 21, 31]);
    assert_eq!(v2.lanes, [2, 12, 22, 32]);
    assert_eq!(v3.lanes, [3, 13, 23, 33]);
}

#[test]
fn load_keeps_the_order_of_the_lanes() {
    let reg = YmmRegister::load(&[1, 2, 3, 4, 5, 6, 7, 8]);
    assert_eq!(reg.v0.lanes, [1, 2, 3, 4]);
    assert_eq!(reg.v1.lanes, [5, 6, 7, 8]);
}

#[test]
fn from_fills_every_lane() {
    let reg = YmmRegister::from(-7);
    assert_eq!(lanes_of(&reg), [-7; 8]);
    assert_eq!(V128::splat(9).lanes, [9; 4]);
}

#[test]
fn map2_applies_the_function_to_both_halves() {
    let a = YmmRegister::load(&[1, 2, 3, 4, 5, 6, 7, 8]);
    let b = YmmRegister::load(&[10, 20, 30, 40, 50, 60, 70, 80]);
    let r = a.map2(b, |x, y| V128 { lanes: [y.lanes[0] - x.lanes[0], x.lanes[1], y.lanes[2], x.lanes[3] * y.lanes[3]] });
    assert_eq!(lanes_of(&r), [9, 2, 30, 160, 45, 6, 70, 640]);
}

#[test]
fn all_zero_looks_at_every_lane() {
    assert!(YmmRegister::from(0).all_zero());
    for i in 0..8 {
        let mut lanes = [0i32; 8];
        lanes[i] = if i % 2 == 0 { 1 } else { i32::MIN };
        assert!(!YmmRegister::load(&lanes).all_zero());
    }
}

#[test]
fn shifts_work_lane_by_lane() {
    let reg = YmmRegister::load(&[1, -1, 3, i32::MAX, i32::MIN, 0, -8, 1 << 30]);
    assert_eq!(lanes_of(&reg.const_shl::<1>()), [2, -2, 6, -2, 0, 0, -16, i32::MIN]);
    assert_eq!(lanes_of(&reg.const_shra::<1>()), [0, -1, 1, i32::MAX >> 1, i32::MIN >> 1, 0, -4, 1 << 29]);
    assert_eq!(lanes_of(&reg.const_shl::<0>()), lanes_of(&reg));
    // the shift count is taken modulo the width of a lane
    assert_eq!(lanes_of(&reg.const_shl::<33>()), lanes_of(&reg.const_shl::<1>()));
    assert_eq!(lanes_of(&reg.const_shra::<32>()), lanes_of(&reg));
}

#[test]
fn arithmetic_wraps_lane_by_lane() {
    let a = YmmRegister::load(&[1, 2, i32::MAX, i32::MIN, -5, 6, 0x4000_0000, 8]);
    let b = YmmRegister::load(&[10, -2, 1, -1, 5, 7, 4, 0]);
    assert_eq!(lanes_of(&(a + b)), [11, 0, i32::MIN, i32::MAX, 0, 13, 0x4000_0004, 8]);
    assert_eq!(lanes_of(&(a - b)), [-9, 4, i32::MAX - 1, i32::MIN + 1, -10, -1, 0x3fff_fffc, 8]);
    assert_eq!(lanes_of(&(a * b)), [10, -4, i32::MAX, i32::MIN, -25, 42, 0, 0]);
    assert_eq!(lanes_of(&(a | b)), [11, -2, i32::MAX, -1, -1, 7, 0x4000_0004, 8]);
}

#[test]
fn arithmetic_takes_a_number_for_a_register() {
    let a = YmmRegister::load(&[1, 2, 3, 4, 5, 6, 7, i32::MAX]);
    assert_eq!(lanes_of(&(a + 1)), [2, 3, 4, 5, 6, 7, 8, i32::MIN]);
    assert_eq!(lanes_of(&(a - 1)), [0, 1, 2, 3, 4, 5, 6, i32::MAX - 1]);
    assert_eq!(lanes_of(&(a * 2)), [2, 4, 6, 8, 10, 12, 14, -2]);
    assert_eq!(lanes_of(&(a | 8)), [9, 10, 11, 12, 13, 14, 15, i32::MAX]);
}

#[test]
fn assigning_operators_change_the_register_in_place() {
    let mut a = YmmRegister::load(&[1, 2, 3, 4, 5, 6, 7, 8]);
    a += YmmRegister::from(1);
    assert_eq!(lanes_of(&a), [2, 3, 4, 5, 6, 7, 8, 9]);
    a *= 3;
    assert_eq!(lanes_of(&a), [6, 9, 12, 15, 18, 21, 24, 27]);
    a |= 1;
    assert_eq!(lanes_of(&a), [7, 9, 13, 15, 19, 21, 25, 27]);
}

#[test]
fn lane_wise_operations_on_one_vector() {
    let a = V128 { lanes: [1, -2, i32::MAX, 0] };
    let b = V128 { lanes: [4, 5, 1, 0] };
    assert_eq!(a.wrapping_add(b).lanes, [5, 3, i32::MIN, 0]);
    assert_eq!(a.wrapping_sub(b).lanes, [-3, -7, i32::MAX - 1, 0]);
    assert_eq!(a.wrapping_mul(b).lanes, [4, -10, i32::MAX, 0]);
    assert_eq!(a.or(b).lanes, [5, -1, i32::MAX, 0]);
    assert_eq!(a.shl(4).lanes, [16, -32, -16, 0]);
    assert_eq!(a.shr(1).lanes, [0, -1, i32::MAX >> 1, 0]);
}
