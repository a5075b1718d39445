use std::collections::HashMap;
use std::sync::Mutex;

use delay_init::DelayInit;

#[test]
fn test() {
    let flag = Mutex::new(false);
    let s = DelayInit::new(|| {
        *flag.lock().unwrap() = true;
        0u8
    });
    assert_eq!(*flag.lock().unwrap(), false);
    assert_eq!(*s.force(), 0);
    assert_eq!(*flag.lock().unwrap(), true);
}

#[test]
fn map() {
    let map = DelayInit::new(|| {
        let mut map = HashMap::new();
        map.insert(1i8, "1".to_owned());
        map.insert(-1i8, "-1".to_owned());
        map
    });
    assert_eq!(map.force().get(&1).unwrap(), "1");
    assert_eq!(map.force().get(&-1).unwrap(), "-1");
}
