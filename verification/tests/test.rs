use core::array;
use core::ops::Bound;

use rand::distributions::Alphanumeric;
use rand::prelude::Distribution;
use rand::Rng;
use rand_pcg::Pcg64Mcg;

use unchecked_std::generic_string::FixedString;
use unchecked_std::generic_string::TextBuf;
use unchecked_std::CopyFromSliceUnchecked;
use unchecked_std::DynString;
use unchecked_std::DynVec;
use unchecked_std::ExtendFromSliceUnchecked;
use unchecked_std::ExtendFromWithinUnchecked;
use unchecked_std::ExtendUnchecked;
use unchecked_std::FixedVec;
use unchecked_std::GenericVec;
use unchecked_std::PushStrUnchecked;
use unchecked_std::PushUnchecked;
use unchecked_std::SrcBound;

fn random_char(rng: &mut Pcg64Mcg) -> char {
    if rng.gen::<f64>() < 0.25 {
        Alphanumeric.sample(rng) as char
    } else {
        rng.gen()
    }
}

fn to_std_bound(b: SrcBound) -> Bound<usize> {
    match b {
        SrcBound::Included(x) => Bound::Included(x),
        SrcBound::Excluded(x) => Bound::Excluded(x),
        SrcBound::Unbounded => Bound::Unbounded,
    }
}

#[test]
fn test_vec_push_unchecked() {
    let len: usize = 100;
    let mut v = Vec::with_capacity(len);
    let mut v_unchecked = DynVec::with_capacity(len);
    for _ in 0..len {
        let value: u8 = 5;
        v.push(value);
        v_unchecked.push_unchecked(value);
        assert_eq!(v.as_slice(), v_unchecked.as_slice());
    }
}

#[test]
fn test_string_push_unchecked() {
    const N_CHARS: usize = 100;
    let mut rng = Pcg64Mcg::new(0xcafe_f00d_d15e_a5e5);
    let mut s = String::with_capacity(4 * N_CHARS);
    let mut s_unchecked: DynString = TextBuf::from_vec(DynVec::with_capacity(4 * N_CHARS));
    let mut s_fixed: FixedString<400> = TextBuf::from_vec(FixedVec::new());

    for _ in 0..N_CHARS {
        let ch = random_char(&mut rng);
        s.push(ch);
        s_unchecked.push_unchecked(ch);
        assert_eq!(s.as_bytes(), s_unchecked.to_byte_vec().as_slice());
        s_fixed.push_unchecked(ch);
        assert_eq!(s.as_bytes(), s_fixed.to_byte_vec().as_slice());
    }
}

#[test]
fn test_string_extend_unchecked() {
    const N_CHARS: usize = 100;
    let mut rng = Pcg64Mcg::new(0xcafe_f00d_d15e_a5e5);
    let chars: [char; N_CHARS] = array::from_fn(|_| random_char(&mut rng));
    let mut s = String::with_capacity(2 * 4 * chars.len());
    let mut s_unchecked: DynString = TextBuf::from_vec(DynVec::with_capacity(2 * 4 * chars.len()));
    let mut s_fixed: FixedString<800> = TextBuf::from_vec(FixedVec::new());
    s.extend(&chars);
    s_unchecked.extend_unchecked(&chars);
    assert_eq!(s.as_bytes(), s_unchecked.to_byte_vec().as_slice());
    s_fixed.extend_unchecked(&chars);
    assert_eq!(s.as_bytes(), s_fixed.to_byte_vec().as_slice());

    s.extend(chars);
    s_unchecked.extend_unchecked(&chars);
    assert_eq!(s.as_bytes(), s_unchecked.to_byte_vec().as_slice());
    s_fixed.extend_unchecked(&chars);
    assert_eq!(s.as_bytes(), s_fixed.to_byte_vec().as_slice());
}

#[test]
fn test_vec_extend_from_slice_unchecked() {
    const LEN: usize = 100;
    const N_SLICES: usize = 3;
    let mut rng = Pcg64Mcg::new(0xcafe_f00d_d15e_a5e5);
    let mut v = Vec::with_capacity(LEN * N_SLICES);
    let mut v_unchecked = DynVec::with_capacity(LEN * N_SLICES);
    let mut v_fixed: FixedVec<usize, 300> = FixedVec::new();
    for _ in 0..N_SLICES {
        let sl: [usize; LEN] = array::from_fn(|_| rng.gen());

        v.extend_from_slice(&sl);
        v_unchecked.extend_from_slice_unchecked(&sl);
        assert_eq!(v.as_slice(), v_unchecked.as_slice());
        v_fixed.extend_from_slice_unchecked(&sl);
        assert_eq!(v.as_slice(), v_fixed.as_slice());
    }
}

#[test]
fn test_vec_extend_from_within_unchecked() {
    fn test_range(start: SrcBound, end: SrcBound) {
        const INIT: [u32; 10] = [1, 5, 85, 1_348_678, 34, 78_678_675, 69, 234, 42, 0];
        let mut v = Vec::with_capacity(2 * INIT.len());
        v.extend(INIT);
        let mut v_unchecked = DynVec::with_capacity(2 * INIT.len());
        v_unchecked.extend_from_slice_unchecked(&INIT);
        let mut v_fixed: FixedVec<u32, 20> = FixedVec::new();
        v_fixed.extend_from_slice_unchecked(&INIT);

        v.extend_from_within((to_std_bound(start), to_std_bound(end)));
        v_unchecked.extend_from_within_unchecked(start, end);
        assert_eq!(v.as_slice(), v_unchecked.as_slice());
        v_fixed.extend_from_within_unchecked(start, end);
        assert_eq!(v.as_slice(), v_fixed.as_slice());
    }

    fn test_range_zero_sized(len: usize, start: SrcBound, end: SrcBound) {
        let mut v = Vec::<()>::with_capacity(2 * len);
        let mut v_unchecked = DynVec::<()>::with_capacity(2 * len);
        for _ in 0..len {
            v.push(());
            v_unchecked.push_unchecked(());
        }

        v.extend_from_within((to_std_bound(start), to_std_bound(end)));
        v_unchecked.extend_from_within_unchecked(start, end);
        assert_eq!(v.len(), v_unchecked.len());
    }

    let mut v = DynVec::with_capacity(6);
    v.extend_from_slice_unchecked(&[0, 1, 2]);
    v.extend_from_within_unchecked(SrcBound::Unbounded, SrcBound::Excluded(3));
    assert_eq!(v.as_slice(), [0, 1, 2, 0, 1, 2]);

    test_range(SrcBound::Included(0), SrcBound::Included(0));
    test_range(SrcBound::Included(0), SrcBound::Excluded(3));
    test_range(SrcBound::Unbounded, SrcBound::Excluded(3));
    test_range(SrcBound::Included(0), SrcBound::Included(3));
    test_range(SrcBound::Included(1), SrcBound::Excluded(3));
    test_range(SrcBound::Included(1), SrcBound::Included(3));
    test_range(SrcBound::Included(0), SrcBound::Excluded(9));
    test_range(SrcBound::Included(0), SrcBound::Excluded(10));
    test_range(SrcBound::Unbounded, SrcBound::Excluded(10));
    test_range(SrcBound::Included(9), SrcBound::Excluded(10));
    test_range(SrcBound::Included(10), SrcBound::Excluded(10));
    for start in [SrcBound::Unbounded, SrcBound::Included(0), SrcBound::Excluded(0)] {
        for end in [
            SrcBound::Unbounded,
            SrcBound::Included(0),
            SrcBound::Excluded(0),
            SrcBound::Included(9),
            SrcBound::Excluded(9),
            SrcBound::Excluded(10),
        ] {
            let skip = matches!(start, SrcBound::Excluded(0)) && matches!(end, SrcBound::Excluded(0));
            if !skip {
                test_range(start, end);
            }
        }
    }

    test_range_zero_sized(10, SrcBound::Included(0), SrcBound::Excluded(5));
    test_range_zero_sized(10, SrcBound::Unbounded, SrcBound::Included(4));
    test_range_zero_sized(10, SrcBound::Unbounded, SrcBound::Excluded(0));
    test_range_zero_sized(10, SrcBound::Included(9), SrcBound::Excluded(10));
}

#[test]
fn test_string_push_str_unchecked() {
    const N_STRINGS_TO_PUSH: usize = 5;
    const N_CHARS: usize = 100;
    let mut rng = Pcg64Mcg::new(0xcafe_f00d_d15e_a5e5);
    let mut s = String::with_capacity(N_STRINGS_TO_PUSH * 4 * N_CHARS);
    let mut s_unchecked: DynString =
        TextBuf::from_vec(DynVec::with_capacity(N_STRINGS_TO_PUSH * 4 * N_CHARS));
    let mut s_fixed: FixedString<2000> = TextBuf::from_vec(FixedVec::new());
    for _ in 0..N_STRINGS_TO_PUSH {
        let mut string_to_push = String::with_capacity(4 * N_CHARS);
        for _ in 0..rng.gen_range(0..N_CHARS) {
            string_to_push.push(random_char(&mut rng));
        }

        s.push_str(&string_to_push);
        s_unchecked.push_str_unchecked(&string_to_push);
        assert_eq!(s.as_bytes(), s_unchecked.to_byte_vec().as_slice());
        s_fixed.push_str_unchecked(&string_to_push);
        assert_eq!(s.as_bytes(), s_fixed.to_byte_vec().as_slice());
    }
}

#[test]
fn test_copy_from_slice_unchecked() {
    let mut arr: [usize; 100] = array::from_fn(|i| i);
    let mut arr_unchecked: [usize; 100] = array::from_fn(|i| i);
    let src0: [usize; 200] = array::from_fn(|i| 1337 * i);
    let src1: [usize; 50] = array::from_fn(|i| 42 * i);
    arr.copy_from_slice(&src0[50..150]);
    arr_unchecked.copy_from_slice_unchecked(&src0[50..150]);
    assert_eq!(arr, arr_unchecked);
    arr[25..75].copy_from_slice(&src1);
    arr_unchecked[25..75].copy_from_slice_unchecked(&src1);
    assert_eq!(arr, arr_unchecked);
}
