use sales_gateway::category::{Category, RemoteCategory};
use sales_gateway::sale::{RawSale, Rejection, RemoteSale, SaleEvent, WireSale};

fn raw(product_id: &str, price: f64, quantity: i32) -> RawSale {
    RawSale {
        category: Category::Clothing,
        product_id: product_id.to_string(),
        price_bits: price.to_bits(),
        quantity,
    }
}

fn wire(categoria: &str, producto_id: &str, precio: f64, cantidad_vendida: i32) -> WireSale {
    WireSale {
        categoria: categoria.to_string(),
        producto_id: producto_id.to_string(),
        precio_bits: precio.to_bits(),
        cantidad_vendida,
    }
}

#[test]
fn a_sound_sale_passes_with_its_fields_unchanged() {
    let event = SaleEvent::validate(raw("sku-42", 19.99, 3)).unwrap();
    assert_eq!(event.category(), Category::Clothing);
    assert_eq!(event.product_id(), "sku-42");
    assert_eq!(f64::from_bits(event.price_bits()), 19.99);
    assert_eq!(event.quantity(), 3);
}

#[test]
fn product_id_keeps_its_surrounding_space() {
    let event = SaleEvent::validate(raw("  sku-42 ", 1.0, 1)).unwrap();
    assert_eq!(event.product_id(), "  sku-42 ");
}

#[test]
fn empty_product_id_is_refused() {
    assert_eq!(SaleEvent::validate(raw("", 1.0, 1)), Err(Rejection::EmptyProductId));
}

#[test]
fn blank_product_id_is_refused() {
    assert_eq!(SaleEvent::validate(raw("   ", 1.0, 1)), Err(Rejection::EmptyProductId));
    assert_eq!(SaleEvent::validate(raw("\t\n", 1.0, 1)), Err(Rejection::EmptyProductId));
    assert_eq!(SaleEvent::validate(raw("\u{a0}", 1.0, 1)), Err(Rejection::EmptyProductId));
}

#[test]
fn negative_price_is_refused() {
    assert_eq!(SaleEvent::validate(raw("sku", -1.0, 1)), Err(Rejection::InvalidPrice));
    assert_eq!(SaleEvent::validate(raw("sku", -0.000001, 1)), Err(Rejection::InvalidPrice));
    assert_eq!(SaleEvent::validate(raw("sku", f64::NEG_INFINITY, 1)), Err(Rejection::InvalidPrice));
}

#[test]
fn nan_price_is_refused() {
    assert_eq!(SaleEvent::validate(raw("sku", f64::NAN, 1)), Err(Rejection::InvalidPrice));
    assert_eq!(SaleEvent::validate(raw("sku", -f64::NAN, 1)), Err(Rejection::InvalidPrice));
}

#[test]
fn infinite_price_is_refused() {
    assert_eq!(SaleEvent::validate(raw("sku", f64::INFINITY, 1)), Err(Rejection::InvalidPrice));
    assert_eq!(SaleEvent::validate(raw("sku", f64::INFINITY, i32::MAX)), Err(Rejection::InvalidPrice));
}

#[test]
fn infinite_price_does_not_hide_a_bad_quantity() {
    assert_eq!(SaleEvent::validate(raw("sku", f64::INFINITY, 0)), Err(Rejection::NonPositiveQuantity));
    assert_eq!(SaleEvent::validate(raw("sku", f64::INFINITY, -1)), Err(Rejection::NonPositiveQuantity));
    assert_eq!(
        SaleEvent::validate(raw("sku", f64::INFINITY, i32::MIN)),
        Err(Rejection::NonPositiveQuantity)
    );
}

#[test]
fn infinite_price_does_not_hide_a_blank_product_id() {
    assert_eq!(SaleEvent::validate(raw(" ", f64::INFINITY, 1)), Err(Rejection::EmptyProductId));
    assert_eq!(SaleEvent::validate(raw("", f64::INFINITY, 0)), Err(Rejection::EmptyProductId));
}

#[test]
fn negative_infinity_and_nan_come_before_the_quantity() {
    assert_eq!(SaleEvent::validate(raw("sku", f64::NEG_INFINITY, 0)), Err(Rejection::InvalidPrice));
    assert_eq!(SaleEvent::validate(raw("sku", f64::NAN, 0)), Err(Rejection::InvalidPrice));
    assert_eq!(SaleEvent::validate(raw("sku", -f64::NAN, -9)), Err(Rejection::InvalidPrice));
    assert_eq!(SaleEvent::validate(raw("sku", -1.0, 0)), Err(Rejection::InvalidPrice));
}

#[test]
fn zero_price_is_accepted() {
    assert!(SaleEvent::validate(raw("sku", 0.0, 1)).is_ok());
    assert!(SaleEvent::validate(raw("sku", -0.0, 1)).is_ok());
}

#[test]
fn zero_quantity_is_refused() {
    assert_eq!(SaleEvent::validate(raw("sku", 1.0, 0)), Err(Rejection::NonPositiveQuantity));
}

#[test]
fn negative_quantity_is_refused() {
    assert_eq!(SaleEvent::validate(raw("sku", 1.0, -1)), Err(Rejection::NonPositiveQuantity));
    assert_eq!(SaleEvent::validate(raw("sku", 1.0, i32::MIN)), Err(Rejection::NonPositiveQuantity));
}

#[test]
fn quantity_bounds_are_accepted() {
    assert_eq!(SaleEvent::validate(raw("sku", 1.0, 1)).unwrap().quantity(), 1);
    assert_eq!(SaleEvent::validate(raw("sku", 1.0, i32::MAX)).unwrap().quantity(), i32::MAX);
}

#[test]
fn the_first_failing_rule_wins() {
    assert_eq!(SaleEvent::validate(raw(" ", -1.0, 0)), Err(Rejection::EmptyProductId));
    assert_eq!(SaleEvent::validate(raw(" ", 1.0, 0)), Err(Rejection::EmptyProductId));
    assert_eq!(SaleEvent::validate(raw("sku", f64::NAN, 0)), Err(Rejection::InvalidPrice));
    assert_eq!(SaleEvent::validate(raw("sku", -1.0, -5)), Err(Rejection::InvalidPrice));
}

#[test]
fn decode_types_the_category() {
    let decoded = wire("Hogar", "sku-1", 5.5, 2).decode().unwrap();
    assert_eq!(
        decoded,
        RawSale {
            category: Category::HomeGoods,
            product_id: "sku-1".to_string(),
            price_bits: 5.5f64.to_bits(),
            quantity: 2,
        }
    );
}

#[test]
fn decode_does_not_check_the_fields() {
    let decoded = wire("Belleza", "", -3.0, -7).decode().unwrap();
    assert_eq!(decoded.category, Category::Beauty);
    assert_eq!(decoded.product_id, "");
    assert_eq!(decoded.quantity, -7);
}

#[test]
fn decode_refuses_an_unknown_category() {
    assert_eq!(wire("Invalid", "sku", 1.0, 1).decode(), Err(Rejection::UnknownCategory));
    assert_eq!(wire("", "sku", 1.0, 1).decode(), Err(Rejection::UnknownCategory));
    assert_eq!(wire("ropa", "sku", 1.0, 1).decode(), Err(Rejection::UnknownCategory));
}

#[test]
fn screening_looks_at_the_category_before_the_fields() {
    assert_eq!(SaleEvent::screen(wire("Invalid", "", -1.0, 0)), Err(Rejection::UnknownCategory));
    assert_eq!(SaleEvent::screen(wire("Ropa", "", -1.0, 0)), Err(Rejection::EmptyProductId));
    assert_eq!(SaleEvent::screen(wire("Ropa", "x", -1.0, 0)), Err(Rejection::InvalidPrice));
    assert_eq!(SaleEvent::screen(wire("Ropa", "x", 1.0, 0)), Err(Rejection::NonPositiveQuantity));
    assert!(SaleEvent::screen(wire("Ropa", "x", 1.0, 1)).is_ok());
}

#[test]
fn reasons_are_the_documented_texts() {
    assert_eq!(Rejection::EmptyProductId.reason(), "productId must not be empty");
    assert_eq!(Rejection::InvalidPrice.reason(), "invalid price");
    assert_eq!(Rejection::NonPositiveQuantity.reason(), "quantitySold must be > 0");
    assert_eq!(Rejection::UnknownCategory.reason(), "unknown category");
    assert_eq!(Rejection::MalformedBody.reason(), "malformed request body");
}

#[test]
fn rejections_fall_in_two_classes() {
    assert!(Rejection::MalformedBody.is_malformed_input());
    assert!(Rejection::UnknownCategory.is_malformed_input());
    assert!(!Rejection::EmptyProductId.is_malformed_input());
    assert!(!Rejection::InvalidPrice.is_malformed_input());
    assert!(!Rejection::NonPositiveQuantity.is_malformed_input());
}

#[test]
fn wire_form_spells_the_category_by_name() {
    let event = SaleEvent::screen(wire("Electronica", "tv-1", 499.5, 2)).unwrap();
    assert_eq!(event.to_wire(), wire("Electronica", "tv-1", 499.5, 2));
}

#[test]
fn wire_form_screens_back_to_the_same_event() {
    for name in ["Electronica", "Ropa", "Hogar", "Belleza"] {
        let event = SaleEvent::screen(wire(name, " id ", 0.0, 9)).unwrap();
        let again = SaleEvent::screen(event.to_wire()).unwrap();
        assert_eq!(again, event);
    }
}

#[test]
fn remote_form_uses_the_remote_category() {
    let event = SaleEvent::screen(wire("Belleza", "lip-7", 12.25, 4)).unwrap();
    assert_eq!(
        event.to_remote(),
        RemoteSale {
            categoria: RemoteCategory::Belleza,
            producto_id: "lip-7".to_string(),
            precio_bits: 12.25f64.to_bits(),
            cantidad_vendida: 4,
        }
    );
}
