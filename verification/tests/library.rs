//! Host-side behaviour of the dispatch library: the reference formulas on
//! their documented examples, the byte codec, the matrix block layout, and
//! the request checks that decide a dispatch's early errors.
use compute_dispatch::codec::decode_i32s;
use compute_dispatch::codec::encode_i32s;
use compute_dispatch::dispatch::sample_matrices;
use compute_dispatch::error::Error;
use compute_dispatch::matrix::matrix_to_bytes;
use compute_dispatch::matrix::Matrix;
use compute_dispatch::program::contains_entry_point;
use compute_dispatch::program::find_duplicate_slot;
use compute_dispatch::program::validate_request;
use compute_dispatch::program::BindingKind;
use compute_dispatch::program::InputBinding;
use compute_dispatch::reference::matmul_expected;
use compute_dispatch::reference::outer_product_expected;
use compute_dispatch::reference::saxpy_expected;
use compute_dispatch::reference::transpose_expected;

#[test]
fn saxpy_documented_example() {
    let x = vec![1, 2, 3, 4];
    let y = vec![4, 3, 2, 1];
    let r = saxpy_expected(10, &x, &y);
    assert_eq!(r, vec![14, 23, 32, 41]);
}

#[test]
fn saxpy_wraps_like_the_device() {
    let x = vec![i32::MAX];
    let y = vec![1];
    let r = saxpy_expected(2, &x, &y);
    assert_eq!(r, vec![-1]);
}

#[test]
fn saxpy_empty_arrays() {
    let x = vec![];
    let y = vec![];
    let r = saxpy_expected(7, &x, &y);
    assert_eq!(r, Vec::<i32>::new());
}

#[test]
fn outer_product_all_sixteen_cells() {
    let x = vec![1, 2, 3, 4];
    let y = vec![1, 2, 3, 4];
    let r = outer_product_expected(&x, &y);
    assert_eq!(r.len(), 16);
    for i in 0..4 {
        for j in 0..4 {
            assert_eq!(r[i * 4 + j], x[i] * y[j]);
        }
    }
}

#[test]
fn transpose_documented_example() {
    let m = vec![1, 2, 3, 4, 5, 6, 7, 8, 9, 10, 11, 12, 13, 14, 15, 16];
    let r = transpose_expected(&m, 4);
    assert_eq!(
        r,
        vec![1, 5, 9, 13, 2, 6, 10, 14, 3, 7, 11, 15, 4, 8, 12, 16]
    );
}

#[test]
fn transpose_twice_is_identity() {
    let m = vec![1, 2, 3, 4, 5, 6, 7, 8, 9, 10, 11, 12, 13, 14, 15, 16];
    let r = transpose_expected(&transpose_expected(&m, 4), 4);
    assert_eq!(r, m);
}

#[test]
fn matmul_two_by_two() {
    let x = vec![1, 2, 3, 4];
    let y = vec![5, 6, 7, 8];
    let r = matmul_expected(&x, &y, 2);
    assert_eq!(r, vec![19, 22, 43, 50]);
}

#[test]
fn matmul_identity_matrix() {
    let x = vec![1, 0, 0, 0, 1, 0, 0, 0, 1];
    let y = vec![2, 3, 5, 7, 11, 13, 17, 19, 23];
    let r = matmul_expected(&x, &y, 3);
    assert_eq!(r, y);
}

#[test]
fn encode_little_endian_bytes() {
    let v = vec![1, -1];
    let b = encode_i32s(&v);
    assert_eq!(b, vec![1, 0, 0, 0, 255, 255, 255, 255]);
}

#[test]
fn decode_little_endian_bytes() {
    let b = vec![2, 1, 0, 0, 254, 255, 255, 255];
    let v = decode_i32s(&b);
    assert_eq!(v, vec![258, -2]);
}

#[test]
fn codec_round_trip_extremes() {
    let v = vec![0, 1, -1, i32::MIN, i32::MAX, 123456789, -987654321];
    assert_eq!(decode_i32s(&encode_i32s(&v)), v);
}

#[test]
fn entry_point_found() {
    assert!(contains_entry_point("@compute fn main() {}", "main"));
}

#[test]
fn entry_point_absent() {
    assert!(!contains_entry_point("@compute fn other() {}", "main"));
}

#[test]
fn entry_point_name_inside_longer_word_still_passes_to_device() {
    // The pre-check only rejects what certainly cannot declare the entry
    // point; a mere mention, even inside a longer word, goes to the device.
    assert!(contains_entry_point("fn maintain() {}", "main"));
}

#[test]
fn validate_rejects_missing_entry_point_before_any_allocation() {
    let inputs = vec![InputBinding {
        slot: 0,
        kind: BindingKind::StorageReadWrite,
        data: vec![0, 0, 0, 0],
    }];
    let r = validate_request("@compute fn other() {}", "main", &inputs);
    assert_eq!(r, Err(Error::CompileError));
}

#[test]
fn validate_rejects_colliding_slots() {
    let inputs = vec![
        InputBinding {
            slot: 3,
            kind: BindingKind::StorageReadWrite,
            data: vec![0, 0, 0, 0],
        },
        InputBinding {
            slot: 3,
            kind: BindingKind::Storage,
            data: vec![0, 0, 0, 0],
        },
    ];
    assert!(find_duplicate_slot(&inputs));
    let r = validate_request("@compute fn main() {}", "main", &inputs);
    assert_eq!(r, Err(Error::BindingError));
}

#[test]
fn validate_accepts_a_well_formed_request() {
    let inputs = vec![
        InputBinding {
            slot: 0,
            kind: BindingKind::Storage,
            data: vec![1, 0, 0, 0],
        },
        InputBinding {
            slot: 1,
            kind: BindingKind::StorageReadWrite,
            data: vec![0, 0, 0, 0],
        },
    ];
    let r = validate_request("@compute fn main() {}", "main", &inputs);
    assert_eq!(r, Ok(()));
}

#[test]
fn matrix_new_copies_and_pads_with_zeros() {
    let data = vec![1, 2, 3];
    let m = Matrix::new(&data, 3, 1);
    assert_eq!(m.x, 3);
    assert_eq!(m.y, 1);
    assert_eq!(m.data.len(), 256);
    assert_eq!(&m.data[..3], &[1, 2, 3]);
    assert!(m.data[3..].iter().all(|&c| c == 0));
}

#[test]
fn matrix_default_is_all_zero() {
    let m = Matrix::default();
    assert_eq!(m.x, 0);
    assert_eq!(m.y, 0);
    assert_eq!(m.data.len(), 256);
    assert!(m.data.iter().all(|&c| c == 0));
}

#[test]
fn matrix_bytes_layout_with_trailing_padding() {
    let data = vec![1, 2, 3];
    let m = Matrix::new(&data, 3, 1);
    let b = matrix_to_bytes(&m);
    assert_eq!(b.len(), 1040);
    assert_eq!(&b[..4], &[1, 0, 0, 0]);
    assert_eq!(&b[4..8], &[2, 0, 0, 0]);
    assert_eq!(&b[1024..1028], &[3, 0, 0, 0]);
    assert_eq!(&b[1028..1032], &[1, 0, 0, 0]);
    assert_eq!(&b[1032..], &[0, 0, 0, 0, 0, 0, 0, 0]);
}

#[test]
fn sample_matrices_hold_the_documented_cells() {
    let (x, y) = sample_matrices();
    assert_eq!((x.x, x.y), (16, 16));
    assert_eq!((y.x, y.y), (16, 16));
    assert_eq!(x.data.len(), 256);
    assert_eq!(y.data.len(), 256);
    assert_eq!(&x.data[..16], &[6, 1, 2, 3, 1, 4, 3, 8, 2, 3, 9, 3, 4, 0, 3, 5]);
    assert_eq!(&y.data[..16], &[5, 9, 6, 9, 4, 0, 1, 4, 5, 2, 8, 0, 3, 9, 8, 0]);
    assert_eq!(x.data[255], 0);
    assert_eq!(y.data[255], 1);
}

#[test]
fn error_variants_compare() {
    assert_eq!(Error::CompileError, Error::CompileError);
    assert_ne!(Error::CompileError, Error::ExecutionError);
    assert_ne!(Error::BindingError, Error::AdapterAcquisitionError);
    assert_ne!(Error::DeviceCreationError, Error::ExecutionError);
}
