use tarantool_rust_api::error::BindError;
use tarantool_rust_api::iter::TarantoolIterator;

/// A host stub holding `rows` rows for one scan, counting frees.
struct StubScan {
    rows: Vec<u32>,
    at: usize,
    fail_at: Option<usize>,
    frees: u32,
}

impl StubScan {
    fn next(&mut self) -> (i32, Option<u32>) {
        if self.fail_at == Some(self.at) {
            self.fail_at = None;
            return (-1, None);
        }
        let r = self.rows.get(self.at).copied();
        if r.is_some() {
            self.at += 1;
        }
        (0, r)
    }
}

fn drain(it: &mut TarantoolIterator<u64>, host: &mut StubScan) -> (Vec<u32>, Vec<BindError>) {
    let mut rows = Vec::new();
    let mut errors = Vec::new();
    loop {
        let (code, tuple) = host.next();
        match it.next(code, tuple, None) {
            None => break,
            Some(Ok(t)) => rows.push(t),
            Some(Err(e)) => errors.push(e),
        }
    }
    (rows, errors)
}

fn release(it: &mut TarantoolIterator<u64>, host: &mut StubScan) {
    if it.release() {
        host.frees += 1;
    }
}

#[test]
fn scan_yields_n_rows_then_ends_and_frees_once() {
    for n in [0usize, 1, 5] {
        let mut host = StubScan { rows: (0..n as u32).collect(), at: 0, fail_at: None, frees: 0 };
        let mut it = TarantoolIterator::new(77u64, vec![0x91, 0x00]);
        let (rows, errors) = drain(&mut it, &mut host);
        assert_eq!(rows, (0..n as u32).collect::<Vec<u32>>());
        assert!(errors.is_empty());
        assert!(it.is_finished());
        release(&mut it, &mut host);
        release(&mut it, &mut host);
        assert_eq!(host.frees, 1);
        assert!(it.is_released());
        assert_eq!(*it.handle(), 77);
        assert_eq!(it.key(), &vec![0x91, 0x00]);
    }
}

#[test]
fn failed_step_is_an_error_not_the_end() {
    let mut host = StubScan { rows: vec![10, 20, 30], at: 0, fail_at: Some(1), frees: 0 };
    let mut it = TarantoolIterator::new(1u64, Vec::new());
    let (rows, errors) = drain(&mut it, &mut host);
    assert_eq!(rows, vec![10, 20, 30]);
    assert_eq!(errors.len(), 1);
    assert_eq!(errors[0].message(), "error on receive iterator next value");
}

#[test]
fn failed_step_carries_host_message() {
    let mut it = TarantoolIterator::new(1u64, Vec::new());
    let r: Option<Result<u32, BindError>> = it.next(-1, None, Some("disk error".to_string()));
    let e = r.unwrap().unwrap_err();
    assert_eq!(e.message(), "disk error, additional info : error on receive iterator next value");
    assert!(!it.is_finished());
}
