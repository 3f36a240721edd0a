use service_demo::atomic_swap::AtomicSwap;

#[derive(Debug, PartialEq, Clone)]
struct Test(usize);

#[test]
fn test_atomic_swap() {
    let v1 = Box::new(Test(1));
    let v2 = Box::new(Test(2));
    let v3 = Box::new(Test(3));

    let v1_clone = v1.clone();
    let v2_clone = v2.clone();
    let v3_clone = v3.clone();

    let atomic_store = AtomicSwap::new(v1);

    let v1 = atomic_store.swap(v2);
    assert_eq!(v1, v1_clone);

    let v2 = atomic_store.swap(v1);
    assert_eq!(v2, v2_clone);

    let v1 = atomic_store.swap(v3);
    assert_eq!(v1, v1_clone);

    let v3 = atomic_store.swap(v2);
    assert_eq!(v3, v3_clone);
}
