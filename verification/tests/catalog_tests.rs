use app_loader::catalog::{CatalogError, ImageCatalog};
use app_loader::loader::get_num_app;

#[test]
fn parse_valid_table() {
    let table: Vec<usize> = vec![2, 0, 3, 7];
    let image: Vec<u8> = vec![10, 20, 30, 40, 50, 60, 70];
    let cat = ImageCatalog::new(&table, image).unwrap();
    assert_eq!(cat.num_app, 2);
    assert_eq!(get_num_app(&cat), 2);
    assert_eq!(cat.starts, vec![0, 3, 7]);
}

#[test]
fn parse_empty_catalog() {
    let table: Vec<usize> = vec![0, 0];
    let cat = ImageCatalog::new(&table, Vec::new()).unwrap();
    assert_eq!(get_num_app(&cat), 0);
}

#[test]
fn refuses_empty_table() {
    let table: Vec<usize> = Vec::new();
    let r = ImageCatalog::new(&table, Vec::new());
    assert!(matches!(r, Err(CatalogError::MalformedTable)));
}

#[test]
fn refuses_count_mismatch() {
    // claims three applications but carries offsets for two
    let table: Vec<usize> = vec![3, 0, 1, 2];
    let r = ImageCatalog::new(&table, vec![0; 8]);
    assert!(matches!(r, Err(CatalogError::MalformedTable)));
}

#[test]
fn refuses_decreasing_offsets() {
    let table: Vec<usize> = vec![2, 5, 3, 7];
    let r = ImageCatalog::new(&table, vec![0; 8]);
    assert!(matches!(r, Err(CatalogError::BadRanges)));
}

#[test]
fn refuses_offsets_past_image() {
    let table: Vec<usize> = vec![1, 0, 10];
    let r = ImageCatalog::new(&table, vec![0; 5]);
    assert!(matches!(r, Err(CatalogError::BadRanges)));
}
