use std::borrow::Borrow;
use std::sync::Arc;

use async_map::{AsyncFactory, AsyncKey, AsyncStorable};

#[derive(Clone, PartialEq, Eq, Hash, Debug)]
pub struct TestKey(pub String);

#[derive(Clone, PartialEq, Debug)]
pub struct TestValue(pub String);

fn print_value<T: AsyncStorable>(value: T) {
    println!("value: {:?}", value);
}

fn factory(key: &TestKey) -> TestValue {
    TestValue(key.0.clone())
}

fn call_factory2<K: AsyncKey, V: AsyncStorable, F: Borrow<dyn AsyncFactory<K, V>>>(fact: F, key: &K) -> V {
    fact.borrow()(key)
}

#[test]
fn it_works() {
    let key = TestKey("test".to_string());
    let value = TestValue("test value".to_string());

    let factory = Arc::new(factory);

    print_value(value);

    // Not testing anything, this test demonstrates compilation
    call_factory2(factory as Arc<dyn AsyncFactory<TestKey, TestValue>>, &key);
}
