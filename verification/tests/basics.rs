use workpool::util::add;
use workpool::util::factorial;
use workpool::util::fibonacci;

#[test]
fn test_if_expression() {
    let condition = true;
    let number = if condition { 5 } else { 6 };
    assert_eq!(number, 5);
}

#[test]
fn test_loop_return() {
    let mut counter = 0;
    let result = loop {
        counter += 1;
        if counter == 10 {
            break counter * 2;
        }
    };
    assert_eq!(result, 20);
}

#[test]
fn test_match() {
    let x = 5;
    let result = match x {
        1..=5 => "small",
        _ => "large",
    };
    assert_eq!(result, "small");
}

#[test]
fn test_variables() {
    let x = 5;
    assert_eq!(x, 5);

    let mut y = 10;
    y = 15;
    assert_eq!(y, 15);
}

#[test]
fn test_expressions() {
    let y = {
        let x = 3;
        x + 1
    };
    assert_eq!(y, 4);
}

#[test]
fn test_add() {
    assert_eq!(add(2, 3), 5);
}

#[test]
fn test_factorial() {
    assert_eq!(factorial(5), 120);
}

#[test]
fn test_fibonacci() {
    assert_eq!(fibonacci(6), 8);
}
