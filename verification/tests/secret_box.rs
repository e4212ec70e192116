use secret_box::{CloneableSecret, ExposeSecret, SecretBox, SecretGuard, SecretGuardMut, Zeroize};
use std::cell::Cell;
use std::rc::Rc;

#[derive(Debug, Clone, Default)]
struct TestSecret {
    data: Vec<u8>,
}

impl TestSecret {
    fn new(size: usize) -> Self {
        let mut data = vec![0; size];
        data[0] = 1;
        Self { data }
    }

    fn check_non_zero(&self) -> bool {
        self.data.iter().any(|&x| x != 0)
    }

    fn check_zero(&self) -> bool {
        self.data.iter().all(|&x| x == 0)
    }
}

impl Zeroize for TestSecret {
    fn zeroed(&self) -> bool {
        self.data.is_empty()
    }

    fn zeroize(&mut self) {
        self.data = Vec::new();
    }
}

impl CloneableSecret for TestSecret {}

/// A test double that records each wipe call and the length of the value the
/// wipe covered.
#[derive(Clone)]
struct CountingSecret {
    data: Vec<u8>,
    wipes: Rc<Cell<usize>>,
    wiped_len: Rc<Cell<usize>>,
}

impl Zeroize for CountingSecret {
    fn zeroed(&self) -> bool {
        self.data.is_empty()
    }

    fn zeroize(&mut self) {
        self.wipes.set(self.wipes.get() + 1);
        self.wiped_len.set(self.data.len());
        self.data = Vec::new();
    }
}

#[test]
fn test_secret_box_drop_zeroizes() {
    let secret = Box::new(TestSecret::new(10));
    let mut secret_box = SecretBox::new(secret);
    assert!((*secret_box.expose_secret().get()).check_non_zero());

    drop(secret_box);

    // Verify that secret is zeroized after drop
    // This requires checking the memory, which is not straightforward in Rust.
    // Here we rely on the zeroize trait to ensure it zeroizes.
    assert!(TestSecret::default().check_zero());
}

#[test]
fn test_secret_box_expose_secret_mut() {
    let secret = Box::new(String::from("Encrypted"));
    let mut secret_box = SecretBox::new(secret);

    {
        let exposed = secret_box.expose_secret_mut();
        *exposed.data = String::from("Encrypted 2");
    }

    assert_eq!(*secret_box.expose_secret().get(), String::from("Encrypted 2"));
}

#[test]
fn test_secret_box_new_with_ctr() {
    let mut secret_box = SecretBox::new_with_ctr(|| TestSecret::new(10));
    assert!((*secret_box.expose_secret().get()).check_non_zero());
}

#[test]
fn test_secret_box_try_new_with_ctr() {
    let result: Result<SecretBox<TestSecret>, &'static str> =
        SecretBox::try_new_with_ctr(|| Ok(TestSecret::new(10)));

    match result {
        Ok(mut secret_box) => assert!((*secret_box.expose_secret().get()).check_non_zero()),
        Err(_) => panic!("Expected Ok variant"),
    }
}

#[test]
fn test_secret_guard_equality() {
    let secret_guard_a = SecretGuard::new(&5);
    let secret_guard_b = SecretGuard::new(&5);

    assert!(secret_guard_a == secret_guard_b);

    let mut val_a = 7;
    let mut val_b = 5;

    let secret_guard_mut_a = SecretGuardMut::new(&mut val_a);
    let secret_guard_mut_b = SecretGuardMut::new(&mut val_b);

    assert!(secret_guard_mut_a != secret_guard_mut_b)
}

#[test]
fn test_round_trip_with_mut_initializer() {
    let mut secret_box: SecretBox<String> = SecretBox::new_with_mut(|_d| String::from("hunter2"));
    assert_eq!(*secret_box.expose_secret().get(), String::from("hunter2"));
}

#[test]
fn test_wipe_on_destroy_is_one_full_wipe() {
    let wipes = Rc::new(Cell::new(0usize));
    let wiped_len = Rc::new(Cell::new(0usize));
    let secret = CountingSecret {
        data: (1..=8).collect(),
        wipes: wipes.clone(),
        wiped_len: wiped_len.clone(),
    };
    let mut secret_box = SecretBox::new(Box::new(secret));
    // The teardown's wipe step: exactly one wipe covering the whole value.
    secret_box.zeroize();
    assert_eq!(wipes.get(), 1);
    assert_eq!(wiped_len.get(), 8);
    drop(secret_box);
    assert_eq!(wipes.get(), 1);
}

#[test]
fn test_failing_ctr_leaves_no_residue() {
    let wipes = Rc::new(Cell::new(0usize));
    let result: Result<SecretBox<CountingSecret>, &'static str> =
        SecretBox::try_new_with_ctr(|| Err("construction failed"));
    assert!(matches!(result, Err("construction failed")));
    assert_eq!(wipes.get(), 0);
}

#[test]
fn test_successful_ctr_wipes_the_local_copy() {
    let wipes = Rc::new(Cell::new(0usize));
    let wiped_len = Rc::new(Cell::new(0usize));
    let wipes_in = wipes.clone();
    let wiped_len_in = wiped_len.clone();
    let mut secret_box = SecretBox::new_with_ctr(move || CountingSecret {
        data: vec![42; 5],
        wipes: wipes_in,
        wiped_len: wiped_len_in,
    });
    // The locally built value was wiped once its clone moved into the box.
    assert_eq!(wipes.get(), 1);
    assert_eq!(secret_box.expose_secret().get().data, vec![42; 5]);
}

#[test]
fn test_clone_is_isolated_from_original() {
    let mut original = SecretBox::new(Box::new(TestSecret::new(10)));
    let mut copy = original.clone();

    assert_eq!(
        original.expose_secret().get().data,
        copy.expose_secret().get().data
    );

    {
        let exposed = original.expose_secret_mut();
        exposed.data.data[0] = 9;
    }

    assert_eq!(copy.expose_secret().get().data[0], 1);
    assert_eq!(original.expose_secret().get().data[0], 9);
}

// While one guard is alive the container stays mutably borrowed, so minting a
// second guard from the same container is rejected by the borrow checker at
// compile time; a guard must be released before the next one is requested.
// The test below exercises the legal sequential pattern.
#[test]
fn test_reexpose_after_release() {
    let mut secret_box = SecretBox::new(Box::new(5u64));
    {
        let _g = secret_box.expose_secret();
    }
    {
        let g = secret_box.expose_secret_mut();
        *g.data = 6;
    }
    {
        let g = secret_box.expose_secret();
        assert_eq!(*g.get(), 6);
    }
}

#[test]
fn test_default_box_holds_default() {
    let mut secret_box: SecretBox<u64> = SecretBox::default();
    assert_eq!(*secret_box.expose_secret().get(), 0);
}

#[test]
fn test_from_boxed() {
    let mut secret_box: SecretBox<u64> = SecretBox::from(Box::new(7u64));
    assert_eq!(*secret_box.expose_secret().get(), 7);
}

#[test]
fn test_string_zeroize_empties() {
    let mut s = String::from("Encrypted");
    s.zeroize();
    assert_eq!(s, String::new());
}

#[test]
fn test_vec_zeroize_empties() {
    let mut v: Vec<u8> = vec![1, 2, 3];
    v.zeroize();
    assert!(v.is_empty());
}

#[test]
fn test_primitive_zeroize() {
    let mut a: u64 = 42;
    a.zeroize();
    assert_eq!(a, 0);

    let mut b: i32 = -7;
    b.zeroize();
    assert_eq!(b, 0);

    let mut c: u8 = 255;
    c.zeroize();
    assert_eq!(c, 0);
}
