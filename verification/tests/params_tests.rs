use zkshield::error::ZkError;
use zkshield::params::{load_params, read_params};
use halo2_proofs::pasta::EqAffine;
use halo2_proofs::poly::commitment::Params;

fn params_bytes(k: u32) -> Vec<u8> {
    let p = Params::<EqAffine>::new(k);
    let mut v: Vec<u8> = Vec::new();
    p.write(&mut v).unwrap();
    v
}

#[test]
fn larger_buffer_is_trimmed_to_requested_degree() {
    let bytes = params_bytes(11);
    let p = load_params(8, Some(&bytes)).unwrap();
    assert_eq!(p.degree(), 8);
}

#[test]
fn smaller_buffer_is_rejected_naming_its_maximum() {
    let bytes = params_bytes(8);
    match load_params(11, Some(&bytes)) {
        Err(ZkError::ParamsError(m)) => {
            assert_eq!(m, "ptau error: k is too large. max k: 8");
        }
        _ => panic!("expected a params error"),
    }
}

#[test]
fn exact_degree_buffer_loads_as_is() {
    let bytes = params_bytes(6);
    let p = load_params(6, Some(&bytes)).unwrap();
    assert_eq!(p.degree(), 6);
}

#[test]
fn malformed_buffer_is_a_params_error() {
    match load_params(4, Some(&[7, 0, 0])) {
        Err(ZkError::ParamsError(_)) => {}
        _ => panic!("expected a params error"),
    }
}

#[test]
fn header_above_supported_degree_is_rejected_not_read() {
    // A header of 64 would drive the deserializer's `1 << k` into an
    // overflowing shift, and headers of 30 or 31 would deserialize into
    // sets that abort later in key derivation; the loaders reject all of
    // them up front.
    match load_params(4, Some(&[64, 0, 0, 0, 1, 2, 3])) {
        Err(ZkError::ParamsError(_)) => {}
        _ => panic!("expected a params error"),
    }
    match read_params(&[64, 0, 0, 0]) {
        Err(ZkError::ParamsError(_)) => {}
        _ => panic!("expected a params error"),
    }
    match read_params(&[30, 0, 0, 0]) {
        Err(ZkError::ParamsError(_)) => {}
        _ => panic!("expected a params error"),
    }
}

#[test]
fn equal_degree_path_is_bounded_too() {
    // Requesting exactly the crafted header's degree must not hand a
    // parameter object of unsupported degree onward.
    match load_params(64, Some(&[64, 0, 0, 0, 1, 2, 3])) {
        Err(ZkError::ParamsError(_)) => {}
        _ => panic!("expected a params error"),
    }
}

#[test]
fn read_params_reports_embedded_degree() {
    let bytes = params_bytes(5);
    let p = read_params(&bytes).unwrap();
    assert_eq!(p.degree(), 5);
}

#[test]
fn local_synthesis_reports_requested_degree() {
    let p = load_params(6, None).unwrap();
    assert_eq!(p.degree(), 6);
}

#[test]
fn unsupported_degree_is_a_params_error() {
    match load_params(33, None) {
        Err(ZkError::ParamsError(_)) => {}
        _ => panic!("expected a params error"),
    }
    // Degrees 30 and 31 fit the backend's field but not key derivation's
    // extended domain, so synthesis refuses them too.
    match load_params(30, None) {
        Err(ZkError::ParamsError(_)) => {}
        _ => panic!("expected a params error"),
    }
}
