use termcanvas::shapes::Square;

#[test]
fn square_outline() {
    assert_eq!(Square::new(3, 3, 0, 0).draw(), "###\n# #\n###\n");
    assert_eq!(Square::new(5, 4, 2, 7).draw(), "#####\n#   #\n#   #\n#####\n");
}

#[test]
fn square_without_an_inside() {
    assert_eq!(Square::new(1, 1, 0, 0).draw(), "#\n");
    assert_eq!(Square::new(4, 2, 0, 0).draw(), "####\n####\n");
    assert_eq!(Square::new(2, 3, 0, 0).draw(), "##\n##\n##\n");
}

#[test]
fn square_without_rows_or_columns() {
    assert_eq!(Square::new(3, 0, 0, 0).draw(), "");
    assert_eq!(Square::new(0, 2, 0, 0).draw(), "\n\n");
    assert_eq!(Square::new(0, 0, 9, 9).draw(), "");
}
