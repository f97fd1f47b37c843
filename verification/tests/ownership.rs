fn longest<'a>(x: &'a str, y: &'a str) -> &'a str {
    if x.len() > y.len() {
        x
    } else {
        y
    }
}

struct Holder<'a> {
    value: &'a str,
}

#[test]
fn test_immutable_borrow() {
    let s = String::from("hello");
    let r1 = &s;
    let r2 = &s;
    assert_eq!(r1, r2);
}

#[test]
fn test_mutable_borrow() {
    let mut s = String::from("hello");
    let r = &mut s;
    r.push_str(" world");
    assert_eq!(r, "hello world");
}

#[test]
fn test_lifetime_in_function() {
    let s1 = String::from("long");
    let s2 = String::from("short");
    let result = longest(&s1, &s2);
    assert_eq!(result, "short");
}

#[test]
fn test_lifetime_in_struct() {
    let s = String::from("hello");
    let h = Holder { value: &s };
    assert_eq!(h.value, "hello");
}

#[test]
fn test_move() {
    let s1 = String::from("hello");
    let s2 = s1;
    assert_eq!(s2, "hello");
}

#[test]
fn test_clone() {
    let s1 = String::from("hello");
    let s2 = s1.clone();
    assert_eq!(s1, "hello");
    assert_eq!(s2, "hello");
}

#[test]
fn test_copy() {
    let x = 5;
    let y = x;
    assert_eq!(x, 5);
    assert_eq!(y, 5);
}

#[test]
fn test_string_slice() {
    let s = String::from("hello");
    let slice = &s[0..2];
    assert_eq!(slice, "he");
}

#[test]
fn test_array_slice() {
    let a = [1, 2, 3, 4, 5];
    let slice = &a[1..3];
    assert_eq!(slice, &[2, 3]);
}

#[test]
fn test_vec_slice() {
    let v = vec![1, 2, 3, 4, 5];
    let slice = &v[2..];
    assert_eq!(slice, &[3, 4, 5]);
}
