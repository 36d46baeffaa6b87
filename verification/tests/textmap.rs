use omarec::textmap::{key_less, TextMap};

#[test]
fn keys_come_out_in_ascending_order_whatever_the_insertion_order() {
    let mut a: TextMap<u32> = TextMap::new();
    for (key, value) in [("video", 1), ("audio", 2), ("gpu", 3), ("audio", 4)] {
        a.insert(key.to_owned(), value);
    }
    assert_eq!(a.keys(), vec!["audio".to_owned(), "gpu".to_owned(), "video".to_owned()]);
    assert_eq!(a.get("audio"), Some(&4));
    assert_eq!(a.len(), 3);
    let mut b: TextMap<u32> = TextMap::new();
    for (key, value) in [("gpu", 3), ("video", 1), ("audio", 4)] {
        b.insert(key.to_owned(), value);
    }
    assert_eq!(a, b);
}

#[test]
fn keys_sort_as_strings_do() {
    for (x, y) in [("a", "b"), ("", "a"), ("ab", "abc"), ("Z", "a"), ("abd", "abc"), ("é", "z"), ("same", "same")] {
        assert_eq!(key_less(x, y), x < y, "{x} {y}");
    }
}
