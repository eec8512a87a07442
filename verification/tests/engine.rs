use tomb::impls::rotate_slice;

const GRADES: [char; 5] = ['A', 'B', 'C', 'D', 'F'];

#[test]
fn rotate_forward() {
    // A -> C
    let result = rotate_slice(0, &GRADES, 2);
    assert_eq!(result, 'C');
}

#[test]
fn rotate_backward() {
    // C -> A
    let result = rotate_slice(2, &GRADES, -2);
    assert_eq!(result, 'A');
}

#[test]
fn rotate_forward_loop() {
    // C -> A
    let result = rotate_slice(2, &GRADES, 3);
    assert_eq!(result, 'A');
}

#[test]
fn rotate_backward_loop() {
    // A -> C
    let result = rotate_slice(0, &GRADES, -3);
    assert_eq!(result, 'C');
}
