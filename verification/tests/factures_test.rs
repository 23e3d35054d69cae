use std::collections::HashMap;

use lmah_inventory_rs::models::product_types::ProductTypeView;
use lmah_inventory_rs::models::products::{ProductInfo, ProductView};
use lmah_inventory_rs::services::factures::{build_product_info, group_by_map};

fn dummy(id: i64) -> ProductView {
    ProductView {
        id,
        name: "dummy".to_string(),
        price: None,
        liquidation: false,
        visible_on_site: false,
        created_at: "".to_string(),
        updated_at: "".to_string(),
    }
}

#[test]
fn test_grouped_by_first_id() {
    let data = HashMap::from([
        ((1, 1), "test - 1 - 1"),
        ((1, 2), "test - 1 - 2"),
        ((2, 1), "test - 2 - 1"),
        ((3, 1), "test - 3 - 1"),
        ((3, 2), "test - 3 - 2"),
    ]);
    let mut grouped_by_first_id = group_by_map(data.into_iter().collect());
    let mut vec = grouped_by_first_id.remove(&3).unwrap();
    vec.sort_by_key(|a| a.0); // sorting to assert
    assert_eq!(vec, vec![(1, "test - 3 - 1"), (2, "test - 3 - 2")])
}

#[test]
fn test_build_product_info() {
    let products = Vec::from([dummy(1), dummy(2), dummy(3), dummy(4)]);
    let types = Vec::from([
        (1_i64, "robe".to_string()),
        (1_i64, "robe mere".to_string()),
        (2_i64, "gaine".to_string()),
        (3_i64, "robe".to_string()),
        (4_i64, "other".to_string()),
    ]);

    let expected = Vec::from([
        ProductInfo {
            product: dummy(1),
            types: Vec::from([
                ProductTypeView {
                    name: "robe".to_string(),
                },
                ProductTypeView {
                    name: "robe mere".to_string(),
                },
            ]),
        },
        ProductInfo {
            product: dummy(2),
            types: Vec::from([ProductTypeView {
                name: "gaine".to_string(),
            }]),
        },
        ProductInfo {
            product: dummy(3),
            types: Vec::from([ProductTypeView {
                name: "robe".to_string(),
            }]),
        },
        ProductInfo {
            product: dummy(4),
            types: Vec::from([ProductTypeView {
                name: "other".to_string(),
            }]),
        },
    ]);
    let result = build_product_info(products, types);
    assert_eq!(result, expected)
}

#[test]
fn test_build_product_info_more_types_than_product() {
    let products = Vec::from([dummy(2)]);
    let types = Vec::from([
        (1_i64, "robe".to_string()),
        (2_i64, "gaine".to_string()),
        (3_i64, "robe".to_string()),
        (4_i64, "other".to_string()),
    ]);

    let expected = Vec::from([ProductInfo {
        product: dummy(2),
        types: Vec::from([ProductTypeView {
            name: "gaine".to_string(),
        }]),
    }]);
    let result = build_product_info(products, types);
    assert_eq!(result, expected)
}
