//! The sale event: its wire form, the screening that turns an untrusted
//! payload into a validated event, and the forms in which a validated event
//! leaves again.

use crate::category::{category_named, remote_of, wire_name_of, Category, RemoteCategory};
use crate::price::{
    is_acceptable_price, is_below_zero, is_finite, is_nan, price_is_below_zero, price_is_finite,
    price_is_nan,
};
use crate::text::{is_blank, is_blank_text};
use vstd::prelude::*;

verus! {

/// Why an inbound request is refused before anything is counted.
#[derive(Clone, Copy, Debug, PartialEq, Eq, Structural)]
pub enum Rejection {
    /// The body is not a JSON object of the expected shape.
    MalformedBody,
    /// The body names a category outside the closed set.
    UnknownCategory,
    /// The product id is empty once surrounding white space is removed.
    EmptyProductId,
    /// The price is a NaN or below zero; or, where the quantity is in order,
    /// the price is infinite.
    InvalidPrice,
    /// The quantity is zero or negative.
    NonPositiveQuantity,
}

/// The text that goes back to the client with a rejection.
pub open spec fn reason_of(rejection: Rejection) -> Seq<char> {
    match rejection {
        Rejection::MalformedBody => "malformed request body"@,
        Rejection::UnknownCategory => "unknown category"@,
        Rejection::EmptyProductId => "productId must not be empty"@,
        Rejection::InvalidPrice => "invalid price"@,
        Rejection::NonPositiveQuantity => "quantitySold must be > 0"@,
    }
}

impl Rejection {
    /// The text that goes back to the client.
    pub fn reason(self) -> (text: &'static str)
        ensures
            text@ == reason_of(self),
    {
        match self {
            Rejection::MalformedBody => "malformed request body",
            Rejection::UnknownCategory => "unknown category",
            Rejection::EmptyProductId => "productId must not be empty",
            Rejection::InvalidPrice => "invalid price",
            Rejection::NonPositiveQuantity => "quantitySold must be > 0",
        }
    }

    /// Whether the body failed to take the expected shape, as opposed to
    /// holding a well-shaped sale that breaks a field rule.
    pub fn is_malformed_input(self) -> (r: bool)
        ensures
            r == (self == Rejection::MalformedBody || self == Rejection::UnknownCategory),
    {
        match self {
            Rejection::MalformedBody => true,
            Rejection::UnknownCategory => true,
            _ => false,
        }
    }
}

/// A sale as a JSON body spells it, under the body's own field names. The
/// price is the bit pattern of the JSON number read as binary64.
#[derive(Debug, PartialEq, Eq)]
pub struct WireSale {
    pub categoria: String,
    pub producto_id: String,
    pub precio_bits: u64,
    pub cantidad_vendida: i32,
}

/// Mathematical content of a [`WireSale`].
pub struct WireData {
    pub categoria: Seq<char>,
    pub producto_id: Seq<char>,
    pub precio_bits: u64,
    pub cantidad_vendida: int,
}

impl View for WireSale {
    type V = WireData;

    open spec fn view(&self) -> WireData {
        WireData {
            categoria: self.categoria@,
            producto_id: self.producto_id@,
            precio_bits: self.precio_bits,
            cantidad_vendida: self.cantidad_vendida as int,
        }
    }
}

/// A sale whose category is known and whose other fields are unchecked.
#[derive(Debug, PartialEq, Eq)]
pub struct RawSale {
    pub category: Category,
    pub product_id: String,
    pub price_bits: u64,
    pub quantity: i32,
}

/// Mathematical content of a [`RawSale`] and of a [`SaleEvent`].
pub struct SaleData {
    pub category: Category,
    pub product_id: Seq<char>,
    pub price_bits: u64,
    pub quantity: int,
}

impl View for RawSale {
    type V = SaleData;

    open spec fn view(&self) -> SaleData {
        SaleData {
            category: self.category,
            product_id: self.product_id@,
            price_bits: self.price_bits,
            quantity: self.quantity as int,
        }
    }
}

/// A sale as the remote procedure takes it.
#[derive(Debug, PartialEq, Eq)]
pub struct RemoteSale {
    pub categoria: RemoteCategory,
    pub producto_id: String,
    pub precio_bits: u64,
    pub cantidad_vendida: i32,
}

/// Mathematical content of a [`RemoteSale`].
pub struct RemoteData {
    pub categoria: RemoteCategory,
    pub producto_id: Seq<char>,
    pub precio_bits: u64,
    pub cantidad_vendida: int,
}

impl View for RemoteSale {
    type V = RemoteData;

    open spec fn view(&self) -> RemoteData {
        RemoteData {
            categoria: self.categoria,
            producto_id: self.producto_id@,
            precio_bits: self.precio_bits,
            cantidad_vendida: self.cantidad_vendida as int,
        }
    }
}

/// The typed reading of a wire sale: the category its name stands for, the
/// other fields as they are. An unknown category name has no reading.
pub open spec fn decoded(wire: WireData) -> Option<SaleData> {
    match category_named(wire.categoria) {
        Some(category) => Some(
            SaleData {
                category,
                product_id: wire.producto_id,
                price_bits: wire.precio_bits,
                quantity: wire.cantidad_vendida,
            },
        ),
        None => None,
    }
}

/// The first field rule that a sale breaks. The rules come in the order:
/// the product id is not blank; the price is no NaN and not below zero; the
/// quantity is above zero; the price is finite. The last rule is met by
/// every price that a JSON number can spell, and stands behind the others
/// so that it never hides the reason that one of them gives.
pub open spec fn first_failure(sale: SaleData) -> Option<Rejection> {
    if is_blank(sale.product_id) {
        Some(Rejection::EmptyProductId)
    } else if is_nan(sale.price_bits) || is_below_zero(sale.price_bits) {
        Some(Rejection::InvalidPrice)
    } else if sale.quantity <= 0 {
        Some(Rejection::NonPositiveQuantity)
    } else if !is_finite(sale.price_bits) {
        Some(Rejection::InvalidPrice)
    } else {
        None
    }
}

/// A sale that breaks no field rule.
pub open spec fn is_valid_sale(sale: SaleData) -> bool {
    &&& !is_blank(sale.product_id)
    &&& is_acceptable_price(sale.price_bits)
    &&& sale.quantity > 0
}

/// What screening makes of a wire sale: the validated content, or the first
/// reason to refuse it. The category is looked up before any field rule.
pub open spec fn screened(wire: WireData) -> Result<SaleData, Rejection> {
    match decoded(wire) {
        None => Err(Rejection::UnknownCategory),
        Some(sale) => match first_failure(sale) {
            Some(rejection) => Err(rejection),
            None => Ok(sale),
        },
    }
}

/// The JSON form of a sale.
pub open spec fn wire_form(sale: SaleData) -> WireData {
    WireData {
        categoria: wire_name_of(sale.category),
        producto_id: sale.product_id,
        precio_bits: sale.price_bits,
        cantidad_vendida: sale.quantity,
    }
}

/// The remote procedure form of a sale.
pub open spec fn remote_form(sale: SaleData) -> RemoteData {
    RemoteData {
        categoria: remote_of(sale.category),
        producto_id: sale.product_id,
        precio_bits: sale.price_bits,
        cantidad_vendida: sale.quantity,
    }
}

impl WireSale {
    /// Gives the category its type. Fails on a category name outside the
    /// closed set, and only then.
    pub fn decode(self) -> (r: Result<RawSale, Rejection>)
        ensures
            match r {
                Ok(raw) => decoded(self@) == Some(raw@),
                Err(rejection) => decoded(self@) is None && rejection == Rejection::UnknownCategory,
            },
    {
        match Category::from_wire_name(self.categoria.as_str()) {
            Some(category) => Ok(
                RawSale {
                    category,
                    product_id: self.producto_id,
                    price_bits: self.precio_bits,
                    quantity: self.cantidad_vendida,
                },
            ),
            None => Err(Rejection::UnknownCategory),
        }
    }
}

/// A sale that has passed every field rule. The fields are private and the
/// only way to a value is [`SaleEvent::validate`], so no unchecked sale has
/// this type.
#[derive(Debug, PartialEq, Eq)]
pub struct SaleEvent {
    category: Category,
    product_id: String,
    price_bits: u64,
    quantity: i32,
}

impl View for SaleEvent {
    type V = SaleData;

    closed spec fn view(&self) -> SaleData {
        SaleData {
            category: self.category,
            product_id: self.product_id@,
            price_bits: self.price_bits,
            quantity: self.quantity as int,
        }
    }
}

impl SaleEvent {
    #[verifier::type_invariant]
    spec fn holds_valid_sale(self) -> bool {
        is_valid_sale(self@)
    }

    /// Checks the field rules in the order of [`first_failure`] and stops at
    /// the first that fails. A sale that passes comes back with its fields
    /// unchanged.
    pub fn validate(raw: RawSale) -> (r: Result<SaleEvent, Rejection>)
        ensures
            match r {
                Ok(event) => first_failure(raw@) is None && event@ == raw@,
                Err(rejection) => first_failure(raw@) == Some(rejection),
            },
    {
        if is_blank_text(raw.product_id.as_str()) {
            return Err(Rejection::EmptyProductId);
        }
        if price_is_nan(raw.price_bits) || price_is_below_zero(raw.price_bits) {
            return Err(Rejection::InvalidPrice);
        }
        if raw.quantity <= 0 {
            return Err(Rejection::NonPositiveQuantity);
        }
        if !price_is_finite(raw.price_bits) {
            return Err(Rejection::InvalidPrice);
        }
        Ok(
            SaleEvent {
                category: raw.category,
                product_id: raw.product_id,
                price_bits: raw.price_bits,
                quantity: raw.quantity,
            },
        )
    }

    /// Decodes and validates a wire sale.
    pub fn screen(wire: WireSale) -> (r: Result<SaleEvent, Rejection>)
        ensures
            match r {
                Ok(event) => screened(wire@) == Ok::<SaleData, Rejection>(event@),
                Err(rejection) => screened(wire@) == Err::<SaleData, Rejection>(rejection),
            },
    {
        match wire.decode() {
            Ok(raw) => SaleEvent::validate(raw),
            Err(rejection) => Err(rejection),
        }
    }

    /// The category; the whole event is valid.
    pub fn category(&self) -> (category: Category)
        ensures
            category == self@.category,
            is_valid_sale(self@),
    {
        proof {
            use_type_invariant(self);
        }
        self.category
    }

    /// The product id, which is not blank.
    pub fn product_id(&self) -> (id: &str)
        ensures
            id@ == self@.product_id,
            !is_blank(id@),
    {
        proof {
            use_type_invariant(self);
        }
        self.product_id.as_str()
    }

    /// The price as a binary64 bit pattern, which is acceptable.
    pub fn price_bits(&self) -> (bits: u64)
        ensures
            bits == self@.price_bits,
            is_acceptable_price(bits),
    {
        proof {
            use_type_invariant(self);
        }
        self.price_bits
    }

    /// The quantity sold, which is positive.
    pub fn quantity(&self) -> (quantity: i32)
        ensures
            quantity == self@.quantity,
            quantity > 0,
    {
        proof {
            use_type_invariant(self);
        }
        self.quantity
    }

    /// This event as a JSON body spells it.
    pub fn to_wire(&self) -> (wire: WireSale)
        ensures
            wire@ == wire_form(self@),
    {
        WireSale {
            categoria: String::from_str(self.category.wire_name()),
            producto_id: self.product_id.clone(),
            precio_bits: self.price_bits,
            cantidad_vendida: self.quantity,
        }
    }

    /// This event as the remote procedure takes it.
    pub fn to_remote(&self) -> (remote: RemoteSale)
        ensures
            remote@ == remote_form(self@),
    {
        RemoteSale {
            categoria: self.category.to_remote(),
            producto_id: self.product_id.clone(),
            precio_bits: self.price_bits,
            cantidad_vendida: self.quantity,
        }
    }
}

/// A sale breaks no field rule exactly when it has no first failure.
pub proof fn lemma_valid_iff_no_failure(sale: SaleData)
    ensures
        is_valid_sale(sale) <==> first_failure(sale) is None,
{
}

/// Screening names the first rule that fails, in the order category, product
/// id, price a NaN or below zero, quantity, price infinite: a later failure
/// shows only where the earlier rules are met.
pub proof fn lemma_screening_order(wire: WireData)
    ensures
        category_named(wire.categoria) is None ==> screened(wire) == Err::<SaleData, Rejection>(
            Rejection::UnknownCategory,
        ),
        category_named(wire.categoria) is Some && is_blank(wire.producto_id) ==> screened(wire)
            == Err::<SaleData, Rejection>(Rejection::EmptyProductId),
        category_named(wire.categoria) is Some && !is_blank(wire.producto_id) && (is_nan(
            wire.precio_bits,
        ) || is_below_zero(wire.precio_bits)) ==> screened(wire) == Err::<SaleData, Rejection>(
            Rejection::InvalidPrice,
        ),
        category_named(wire.categoria) is Some && !is_blank(wire.producto_id) && !is_nan(
            wire.precio_bits,
        ) && !is_below_zero(wire.precio_bits) && wire.cantidad_vendida <= 0 ==> screened(wire)
            == Err::<SaleData, Rejection>(Rejection::NonPositiveQuantity),
        category_named(wire.categoria) is Some && !is_blank(wire.producto_id) && !is_nan(
            wire.precio_bits,
        ) && !is_below_zero(wire.precio_bits) && wire.cantidad_vendida > 0 && !is_finite(
            wire.precio_bits,
        ) ==> screened(wire) == Err::<SaleData, Rejection>(Rejection::InvalidPrice),
        screened(wire) is Ok <==> category_named(wire.categoria) is Some && !is_blank(
            wire.producto_id,
        ) && is_acceptable_price(wire.precio_bits) && wire.cantidad_vendida > 0,
        screened(wire) matches Ok(sale) ==> is_valid_sale(sale) && decoded(wire) == Some(sale),
{
}

/// The JSON form of a valid sale screens back to that sale: what is sent
/// downstream would itself be accepted, as the same event.
pub proof fn lemma_wire_form_screens_back(sale: SaleData)
    requires
        is_valid_sale(sale),
    ensures
        screened(wire_form(sale)) == Ok::<SaleData, Rejection>(sale),
{
    crate::category::lemma_wire_names_round_trip(sale.category, wire_name_of(sale.category));
}

} // verus!
